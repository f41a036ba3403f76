# rusty_esp_arduino

The Arduino shape over the Janus function packages — `setup`, a loop, and
verbs such as `wifi::begin`, `cam::grab`, `stream::push_jpeg` and
`mesh::begin` — with the facade's own decisions written in Verus and proved
against their contracts.

## Layout

- `src/` is the verified library. Every sketch verb takes the facade's state
  (`board::Facade`) explicitly: the installed board, the reason for the last
  refusal, and what each peripheral, the identity, the mesh node and the
  stream outputs were begun with. Its modules:
  - `board` — the `Board` seam a board implements, and the facade's state;
  - `error` — the facade's errors, their texts, and how a result folds into
    `bool` / `Option` and the last error;
  - `cam`, `mic`, `wifi`, `radar`, `provision`, `sketch` — the verbs;
  - `identity` — which maker DIDs are accepted, what minting found on the
    board, and the store handed to the mesh once;
  - `stream` — which outputs exist, what a push does, the latest-frame slot
    an open `/stream` reads;
  - `mesh` — the node's manifest and mDNS hostname, the latest-frame channels
    its subscribers read, the counters, and the steps around a node;
  - `host` — the laptop board's logic: JPEG sizes, which files of a
    directory are frames and their name order, a looped directory of frames, a looped WAV file, the colour-bar camera, the key-value store's
    answers, and the record of what the board was asked;
  - `units`, `text` — plain value types and the text the facade composes;
  - `laws` — properties across calls and over all inputs, proved.
- `tests/` runs the library on concrete values.
- `app/` is the program-facing crate: one facade per process behind a lock,
  free functions a sketch calls, the laptop board with its files,
  clock and sockets, the MJPEG server and UDP senders, and the mesh node's
  thread. It hands the library plain values and takes plain values back.

Calls into the Janus packages that the library's logic makes stand behind
small trusted items (`#[verifier::external_body]` wrappers, declared outside
types and `assume_specification`s), each with a doc comment saying what its
contract claims of the outside function.
