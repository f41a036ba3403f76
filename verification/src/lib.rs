//! `rusty_esp_arduino` — the sketch a maker types, over the Janus function
//! packages, with the facade's decisions stated and proved.
//!
//! Every sketch verb takes the facade's state ([`board::Facade`]) explicitly:
//! the installed board, the reason for the last refusal, and what each
//! peripheral was begun with. A program keeps one `Facade` for its life.

use vstd::prelude::*;

pub mod units;
pub mod text;
pub mod error;
pub mod board;
pub mod cam;
pub mod mic;
pub mod wifi;
pub mod host;
pub mod identity;
pub mod mesh;
pub mod radar;
pub mod stream;
pub mod provision;
pub mod sketch;
pub mod laws;

pub use error::Error;

verus! {

/// Crate version, for logs and capability manifests.
pub const VERSION: &'static str = "0.1.0";

} // verus!
