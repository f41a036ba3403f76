//! The mesh's decisions: the node's hostname, the latest-frame channels its
//! subscribers read, the manifest, and the verbs around a node.

use rusty_esp_arduino::board::{self, Board, Facade, IpAddress, Jpeg, Pcm};
use rusty_esp_arduino::error::{Error, Result, last_error};
use rusty_esp_arduino::mesh::{
    self, CODEC_ANY, CODEC_MJPEG, CODEC_PCM, CODEC_TELEMETRY, Capability, Declared, Node, Poll, Slot,
    Subscriber, Which, channel_for, mdns_hostname,
};
use rusty_esp_arduino::units::{Micros, PcmFormat, SampleFormat};
use rusty_esp_arduino::identity::Minted;
use rusty_esp_arduino::{cam, identity, mic};
use rusty_esp_core::capability::Chip;

#[derive(Default)]
struct Bench {
    advertised: Vec<(String, String, String, u16, usize)>,
    txt_updates: usize,
    valid: usize,
    prepared: Vec<usize>,
}

impl Board for Bench {
    fn wifi_begin(&mut self, _ssid: &str, _psk: &str) -> Result<()> {
        Ok(())
    }
    fn local_ip(&self) -> Option<IpAddress> {
        Some(IpAddress::V4([10, 0, 0, 5]))
    }
    fn cam_begin(&mut self, _config: &cam::Config) -> Result<()> {
        Ok(())
    }
    fn cam_grab(&mut self) -> Result<Option<Jpeg>> {
        Ok(None)
    }
    fn mic_begin(&mut self, _config: &mic::Config) -> Result<()> {
        Ok(())
    }
    fn mic_read(&mut self) -> Result<Option<Pcm>> {
        Ok(None)
    }
    fn millis(&self) -> u64 {
        3
    }
    fn advertise(
        &mut self,
        hostname: &str,
        instance: &str,
        service_type: &str,
        port: u16,
        txt: &[(String, String)],
    ) -> Result<()> {
        self.advertised.push((hostname.into(), instance.into(), service_type.into(), port, txt.len()));
        Ok(())
    }
    fn advertise_txt(&mut self, _service_type: &str, _txt: &[(String, String)]) -> Result<()> {
        self.txt_updates += 1;
        Ok(())
    }
    fn ota_running_valid(&mut self) -> Result<()> {
        self.valid += 1;
        Ok(())
    }
    fn prepare_async(&mut self, max_fds: usize) -> Result<()> {
        self.prepared.push(max_fds);
        Ok(())
    }
}

#[test]
fn a_model_becomes_a_dns_label() {
    assert_eq!(mdns_hostname("janus/mesh-cam"), "mesh-cam");
    assert_eq!(mdns_hostname("janus/test"), "test");
    assert_eq!(mdns_hostname("Porch Cam"), "porch-cam");
    assert_eq!(mdns_hostname("a/b/--Hi_There--"), "hi-there");
    assert_eq!(mdns_hostname("janus/"), "janus");
    assert_eq!(mdns_hostname("///"), "janus");
    assert_eq!(mdns_hostname("x/ü"), "janus");
    let long = "a".repeat(70);
    assert_eq!(mdns_hostname(&long), "a".repeat(63));
    let cut = format!("{}-b", "a".repeat(62));
    assert_eq!(mdns_hostname(&cut), "a".repeat(62), "cut to 63, then trimmed");
}

#[test]
fn a_subscriber_takes_every_push_once_and_the_newest_when_behind() {
    let mut slot = Slot::new();
    let mut sub = Subscriber::new(Which::Video, slot.seq);
    assert!(matches!(sub.next_packet(&slot), Poll::Wait));
    slot.push(5, &[1, 2, 3]);
    match sub.next_packet(&slot) {
        Poll::Packet(h, bytes) => {
            assert_eq!((h.seq, h.timestamp_us, h.codec, h.flags, h.len), (0, 5, CODEC_MJPEG, 1, 3));
            assert_eq!(bytes, vec![1, 2, 3]);
        }
        _ => panic!("the pushed frame"),
    }
    assert!(matches!(sub.next_packet(&slot), Poll::Wait), "never twice");
    slot.push(6, &[4]);
    slot.push(7, &[5, 6]);
    match sub.next_packet(&slot) {
        Poll::Packet(h, bytes) => {
            assert_eq!((h.seq, h.timestamp_us), (1, 7), "the newest, next in sequence");
            assert_eq!(bytes, vec![5, 6]);
        }
        _ => panic!("the newest frame"),
    }
    slot.close();
    assert!(matches!(sub.next_packet(&slot), Poll::Closed));
}

#[test]
fn any_codec_follows_what_the_device_makes() {
    assert_eq!(channel_for(CODEC_MJPEG, 0, 0, 0), Some(Which::Video));
    assert_eq!(channel_for(CODEC_PCM, 0, 0, 0), Some(Which::Audio));
    assert_eq!(channel_for(CODEC_TELEMETRY, 0, 0, 0), Some(Which::Telemetry));
    assert_eq!(channel_for(CODEC_ANY, 0, 0, 0), Some(Which::Video));
    assert_eq!(channel_for(CODEC_ANY, 0, 2, 1), Some(Which::Audio));
    assert_eq!(channel_for(CODEC_ANY, 0, 0, 1), Some(Which::Telemetry));
    assert_eq!(channel_for(CODEC_ANY, 1, 2, 3), Some(Which::Video));
    assert_eq!(channel_for(*b"h264", 1, 1, 1), None);
    assert_eq!(&CODEC_PCM, b"pcm ");
    assert_eq!(&CODEC_ANY, b"any ");
    assert_eq!(&CODEC_TELEMETRY, b"tlm ");
}

#[test]
fn the_manifest_gains_ota_once_when_a_slot_was_handed_over() {
    let base = mesh::Config::new("janus/test", Chip::Esp32S3)
        .declare(Declared::available(Capability::VideoMjpeg, "rusty_esp_video"));
    assert_eq!(base.firmware, "rusty_esp_arduino 0.1.0");
    assert_eq!(base.max_subscribers, 0);
    assert!(!base.relay);
    let armed = mesh::with_ota(base.clone(), true);
    assert_eq!(armed.declared.len(), 2);
    assert_eq!(armed.declared[1].capability, Capability::Ota);
    assert_eq!(armed.declared[1].backing, "rusty_esp_iroh");
    assert_eq!(mesh::with_ota(armed.clone(), true).declared.len(), 2, "not twice");
    assert_eq!(mesh::with_ota(base.clone(), false).declared.len(), 1);
    let c = base.with_relay(true).with_max_subscribers(2);
    assert!(c.relay);
    assert_eq!(c.max_subscribers, 2);
}

fn node() -> Node {
    Node {
        did: "did:mata:zNode".into(),
        ticket: "ticket".into(),
        port: 4321,
        txt: vec![("kind".into(), "oem_sidecar".into())],
        endpoint_id: "abcd".into(),
        adopted: false,
    }
}

#[test]
fn a_node_comes_up_once_after_identity_and_is_advertised() {
    let mut f: Facade<Bench> = Facade::new();
    board::install(&mut f, Bench::default());
    assert!(!mesh::prepare(&mut f));
    assert_eq!(last_error(&f), Some(Error::NotBegun("identity")));
    assert!(!mesh::push_media(&mut f, &Jpeg { bytes: vec![1], width: 1, height: 1, timestamp: Micros(0) }));
    assert_eq!(last_error(&f), Some(Error::NotBegun("mesh")));

    let key = rusty_esp_mid_core::key::DeviceKey::from_seed_for_tests("maker", "janus");
    let mut buf = [0u8; rusty_esp_mid_core::did::MAX_DID_LEN];
    let maker = key.did().write(&mut buf).unwrap().to_owned();
    assert!(identity::begin(&mut f, Some(&maker), Minted::Key(Ok("did:mata:zNode".into()))));
    assert!(mesh::update_slot_wanted(&f), "a maker to trust: the board is asked for a slot");
    assert!(mesh::prepare(&mut f));
    assert_eq!(f.board.as_ref().unwrap().prepared, vec![mesh::ASYNC_MAX_FDS]);
    assert!(!mesh::prepare(&mut f), "the store is handed over once");
    assert!(identity::begun(&f));

    assert_eq!(
        mesh::addresses(&f),
        vec![IpAddress::V4([10, 0, 0, 5]), IpAddress::V4([127, 0, 0, 1])]
    );
    assert!(mesh::begin(&mut f, "janus/test", true, Ok(node())));
    let b = f.board.as_ref().unwrap();
    assert_eq!(
        b.advertised,
        vec![("test".into(), "Janus device".into(), "_mata-oem-sidecar._tcp.local.".into(), 4321, 1)]
    );
    assert_eq!(b.valid, 1, "the running image is good");
    assert!(mesh::begun(&f));
    assert_eq!(mesh::did(&f), Some("did:mata:zNode".into()));
    assert_eq!(mesh::ticket(&f), Some("ticket".into()));
    assert_eq!(mesh::port(&f), Some(4321));
    assert_eq!(mesh::endpoint_id(&f), Some("abcd".into()));
    assert_eq!(mesh::last_ota(&f), None);

    // twice is refused
    assert!(!mesh::begin(&mut f, "janus/test", false, Ok(node())));
    match last_error(&f) {
        Some(Error::Io(t)) => assert_eq!(t, "mesh: begin was already called"),
        other => panic!("{other:?}"),
    }

    // pushes and the counters the sketch reads back
    let frame = Jpeg { bytes: vec![0xFF, 0xD8], width: 1, height: 1, timestamp: Micros(9) };
    assert!(mesh::push_media(&mut f, &frame));
    let pcm = Pcm {
        format: PcmFormat { sample_rate_hz: 16_000, channels: 1, sample: SampleFormat::I16 },
        bytes: vec![0; 4],
        timestamp: Micros(1),
    };
    assert!(mesh::push_media_pcm(&mut f, &pcm));
    assert!(mesh::push_telemetry(&mut f, &[1, 2, 3]));
    let mut sub = mesh::subscribe(&mut f, CODEC_ANY).expect("the camera, which has pushed");
    assert_eq!(sub.which, Which::Video);
    assert_eq!(sub.seen, 1, "joined after the first push");
    let video = mesh::channel(f.mesh.as_ref().unwrap(), Which::Video);
    assert!(matches!(sub.next_packet(video), Poll::Wait), "nothing from before it joined");
    assert!(mesh::push_media(&mut f, &frame));
    let video = mesh::channel(f.mesh.as_ref().unwrap(), Which::Video);
    assert!(matches!(sub.next_packet(video), Poll::Packet(..)), "the next push reaches it");
    assert!(mesh::subscribe(&mut f, *b"h264").is_none());
    mesh::observe_counters(&mut f, 8, 1, 2);
    let s = mesh::service(&mut f);
    assert_eq!(
        (s.subscribers, s.frames, s.blocks, s.readings, s.sent, s.send_errors, s.node_subscribers),
        (2, 2, 1, 1, 8, 1, 2)
    );
    let st = f.mesh.as_ref().unwrap();
    assert_eq!(st.telemetry.frame.as_ref().map(|fr| fr.0), Some(3000), "stamped with the board's clock");

    // only a change of adoption re-advertises, and service hands it over
    mesh::observe_adoption(&mut f, false, vec![]);
    let _ = mesh::service(&mut f);
    assert_eq!(f.board.as_ref().unwrap().txt_updates, 0);
    mesh::observe_adoption(&mut f, true, vec![("owner".into(), "x".into())]);
    let _ = mesh::service(&mut f);
    assert_eq!(f.board.as_ref().unwrap().txt_updates, 1);
    mesh::observe_adoption(&mut f, true, vec![]);
    let _ = mesh::service(&mut f);
    assert_eq!(f.board.as_ref().unwrap().txt_updates, 1);

    mesh::observe_ota(&mut f, Some("fw 2".into()));
    assert_eq!(mesh::last_ota(&f), Some("fw 2".into()));
    mesh::observe_ota(&mut f, None);
    assert_eq!(mesh::last_ota(&f), Some("fw 2".into()));

    mesh::end(&mut f);
    assert!(!mesh::begun(&f));
    assert_eq!(mesh::service(&mut f).frames, 0);
}

#[test]
fn a_node_that_boots_adopted_keeps_the_record_it_came_up_with() {
    let mut f: Facade<Bench> = Facade::new();
    board::install(&mut f, Bench::default());
    assert!(mesh::begin(&mut f, "janus/porch", false, Ok(Node { adopted: true, ..node() })));
    mesh::observe_adoption(&mut f, true, vec![("owner".into(), "x".into())]);
    let _ = mesh::service(&mut f);
    assert_eq!(f.board.as_ref().unwrap().txt_updates, 0, "the first look is no change");
    mesh::observe_adoption(&mut f, false, vec![]);
    let _ = mesh::service(&mut f);
    assert_eq!(f.board.as_ref().unwrap().txt_updates, 1, "released by its owner: re-advertised");
}

#[test]
fn without_a_maker_no_slot_is_asked_for_and_the_image_is_not_marked() {
    let mut f: Facade<Bench> = Facade::new();
    board::install(&mut f, Bench::default());
    assert!(identity::begin(&mut f, None, Minted::Key(Ok("did:mata:zNode".into()))));
    assert!(!mesh::update_slot_wanted(&f));
    assert!(mesh::prepare(&mut f));
    assert!(!mesh::push_media(&mut f, &Jpeg { bytes: vec![1], width: 1, height: 1, timestamp: Micros(0) }));
    assert_eq!(last_error(&f), Some(Error::NotBegun("mesh")));
    assert!(mesh::begin(&mut f, "janus/test", true, Ok(node())));
    assert_eq!(f.board.as_ref().unwrap().valid, 0, "no maker: not armed for updates");
    assert_eq!(last_error(&f), None, "a success clears the earlier refusal");
}

#[test]
fn a_node_that_could_not_bind_is_reported() {
    let mut f: Facade<Bench> = Facade::new();
    assert!(!mesh::begin(&mut f, "m", false, Err(Error::Io("mesh: bind: refused".into()))));
    assert_eq!(last_error(&f), Some(Error::Io("mesh: bind: refused".into())));
    assert!(!mesh::begun(&f));
}

#[test]
fn the_tags_and_names_are_the_media_packages_own() {
    assert_eq!(mesh::FLAG_KEY, rusty_esp_iroh_core::media::FLAG_KEY);
    assert_eq!(mesh::SERVICE_TYPE, rusty_esp_iroh_core::sidecar::SERVICE_TYPE);
    assert_eq!(CODEC_MJPEG, *b"mjpg");
    assert_eq!(CODEC_PCM, *b"pcm ");
    assert_eq!(CODEC_TELEMETRY, *b"tlm ");
    assert_eq!(CODEC_ANY, *b"any ");
    assert_eq!(mesh::SIDECAR_INSTANCE, "Janus device");
    let ours = [
        Capability::ImageJpeg,
        Capability::ImageRaw,
        Capability::VideoMjpeg,
        Capability::VideoH264,
        Capability::AudioPcmIn,
        Capability::AudioPcmOut,
        Capability::AudioOpus,
        Capability::AudioFlac,
        Capability::WifiStation,
        Capability::WifiSoftAp,
        Capability::WifiCsi,
        Capability::RadarPresence,
        Capability::RadarMmWave,
        Capability::BleGatt,
        Capability::EspNow,
        Capability::LoraP2p,
        Capability::LoraWan,
        Capability::IrohLanDirect,
        Capability::IrohRelay,
        Capability::MidDevice,
        Capability::MidAdopted,
        Capability::Gpio,
        Capability::Telemetry,
        Capability::Ota,
    ];
    let family = rusty_esp_core::capability::Capability::ALL;
    assert_eq!(ours.len(), family.len(), "one for one");
    for (a, b) in ours.iter().zip(family.iter()) {
        assert_eq!(format!("{a:?}"), format!("{b:?}"));
    }
}
