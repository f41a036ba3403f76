//! The provisioning verbs over a board with a radio: `begin` advertises,
//! `poll` returns what a phone wrote, `report` ends it, `store` keeps it,
//! and the printed credentials never carry the passphrase.

use rusty_esp_arduino::board::{self, Board, Facade, IpAddress, Jpeg, Pcm};
use rusty_esp_arduino::error::{Error, Result, last_error};
use rusty_esp_arduino::host::{self, HostLog};
use rusty_esp_arduino::{cam, mic, provision, wifi};

/// The laptop's provisioning: a queue a test fills, drained while active.
struct Radio {
    provisioning: Option<String>,
    log: HostLog,
}

impl Board for Radio {
    fn wifi_begin(&mut self, _ssid: &str, _psk: &str) -> Result<()> {
        Ok(())
    }
    fn local_ip(&self) -> Option<IpAddress> {
        None
    }
    fn cam_begin(&mut self, _config: &cam::Config) -> Result<()> {
        Ok(())
    }
    fn cam_grab(&mut self) -> Result<Option<Jpeg>> {
        Ok(None)
    }
    fn mic_begin(&mut self, _config: &mic::Config) -> Result<()> {
        Ok(())
    }
    fn mic_read(&mut self) -> Result<Option<Pcm>> {
        Ok(None)
    }
    fn millis(&self) -> u64 {
        0
    }
    fn provision_begin(&mut self, name: &str) -> Result<()> {
        self.provisioning = Some(name.to_owned());
        host::record_provisioning(&mut self.log, name);
        Ok(())
    }
    fn provision_poll(&mut self) -> Result<Option<(String, String)>> {
        let active = self.provisioning.is_some();
        Ok(host::take_credentials(&mut self.log, active))
    }
    fn provision_report(&mut self, joined: bool) -> Result<()> {
        if joined {
            self.provisioning = None;
        }
        Ok(())
    }
    fn store_settings(&mut self, ssid: &str, psk: &str) -> Result<()> {
        host::record_settings(&mut self.log, ssid, psk);
        Ok(())
    }
}

fn log(f: &mut Facade<Radio>) -> &mut HostLog {
    &mut f.board.as_mut().unwrap().log
}

#[test]
fn a_phone_writes_credentials_and_the_sketch_joins_and_keeps_them() {
    let mut f: Facade<Radio> = Facade::new();
    board::install(&mut f, Radio { provisioning: None, log: HostLog::new() });
    assert!(!provision::active(&f));
    assert!(provision::poll(&mut f).is_none(), "nothing before begin");

    assert!(provision::begin(&mut f, "janus/test-cam"), "{:?}", last_error(&f));
    assert!(provision::active(&f));
    assert_eq!(host::provisioning_name(log(&mut f)), Some("janus/test-cam".to_owned()));
    assert!(provision::poll(&mut f).is_none(), "no phone yet");

    // the phone writes the credential TLV; here a test does
    host::inject_credentials(log(&mut f), "Pixel_3333", "correct horse battery");
    let creds = provision::poll(&mut f).expect("credentials arrive once");
    assert_eq!(creds.ssid, "Pixel_3333");
    assert_eq!(creds.psk, "correct horse battery");
    assert!(provision::poll(&mut f).is_none(), "…and only once");
    let shown = creds.describe();
    assert!(shown.contains("Pixel_3333"));
    assert!(!shown.contains("correct horse"), "the passphrase never prints: {shown}");
    assert!(shown.contains("21 bytes"));

    assert!(wifi::begin(&mut f, &creds.ssid, &creds.psk));
    assert!(provision::report(&mut f, true));
    assert!(!provision::active(&f), "a join ends provisioning");
    assert!(provision::store(&mut f, &creds));
    assert_eq!(
        host::stored_settings(log(&mut f)),
        Some(("Pixel_3333".to_owned(), "correct horse battery".to_owned()))
    );
    board::uninstall(&mut f);

    // and without a board every verb says so
    assert!(!provision::begin(&mut f, "x"));
    assert!(provision::poll(&mut f).is_none());
    assert!(!provision::report(&mut f, true));
    assert!(!provision::store(
        &mut f,
        &provision::Credentials { ssid: "a".into(), psk: String::new() }
    ));
    assert!(matches!(last_error(&f), Some(Error::NoBoard)), "{:?}", last_error(&f));
}

#[test]
fn credentials_print_the_same_whatever_the_passphrase_of_that_length() {
    let a = provision::Credentials { ssid: "home".into(), psk: "abcdefgh".into() };
    let b = provision::Credentials { ssid: "home".into(), psk: "zyxwvuts".into() };
    assert_eq!(a.describe(), b.describe());
    assert_eq!(a.describe(), "Credentials { ssid: \"home\", psk: <8 bytes> }");
    let open = provision::Credentials { ssid: "café \"x\"".into(), psk: String::new() };
    assert_eq!(open.describe(), "Credentials { ssid: \"café \\\"x\\\"\", psk: <0 bytes> }");
    let long = provision::Credentials { ssid: "n".into(), psk: "é".repeat(60) };
    assert_eq!(long.describe(), "Credentials { ssid: \"n\", psk: <120 bytes> }");
}

#[test]
fn a_failed_join_keeps_provisioning_running_and_a_board_without_a_radio_refuses() {
    let mut f: Facade<Radio> = Facade::new();
    board::install(&mut f, Radio { provisioning: None, log: HostLog::new() });
    assert!(provision::begin(&mut f, "cam"));
    assert!(provision::report(&mut f, false));
    assert!(provision::active(&f), "a failed join keeps the phone's way in open");
    host::inject_credentials(log(&mut f), "a", "1");
    host::inject_credentials(log(&mut f), "b", "2");
    assert_eq!(provision::poll(&mut f).map(|c| c.ssid), Some("a".to_owned()));
    assert_eq!(provision::poll(&mut f).map(|c| c.ssid), Some("b".to_owned()));
    assert!(provision::poll(&mut f).is_none());
}
