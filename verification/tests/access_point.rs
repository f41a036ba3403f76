//! `wifi::host`: a board that has no radio refuses and says so, a board that
//! has one answers on the address it is now serving.

use rusty_esp_arduino::board::{self, Board, Facade, IpAddress, Jpeg, Pcm};
use rusty_esp_arduino::error::{Error, Result, last_error};
use rusty_esp_arduino::{cam, mic, wifi};

/// The address an ESP32 hands itself when it runs the network.
const AP_ADDR: [u8; 4] = [192, 168, 71, 1];

/// A board that can host, and remembers what it was asked to host.
#[derive(Default)]
struct Hosting {
    hosting: Option<(String, String)>,
}

impl Board for Hosting {
    fn wifi_begin(&mut self, _ssid: &str, _psk: &str) -> Result<()> {
        Ok(())
    }
    fn wifi_host(&mut self, ssid: &str, psk: &str) -> Result<()> {
        if !(8..=63).contains(&psk.len()) {
            return Err(Error::Io("psk must be 8 to 63 bytes for WPA2".into()));
        }
        self.hosting = Some((ssid.to_owned(), psk.to_owned()));
        Ok(())
    }
    fn local_ip(&self) -> Option<IpAddress> {
        self.hosting.as_ref().map(|_| IpAddress::V4(AP_ADDR))
    }
    fn cam_begin(&mut self, _config: &cam::Config) -> Result<()> {
        Ok(())
    }
    fn cam_grab(&mut self) -> Result<Option<Jpeg>> {
        Ok(None)
    }
    fn mic_begin(&mut self, _config: &mic::Config) -> Result<()> {
        Ok(())
    }
    fn mic_read(&mut self) -> Result<Option<Pcm>> {
        Ok(None)
    }
    fn millis(&self) -> u64 {
        0
    }
}

/// A laptop: on somebody else's network, with no access-point mode.
struct Laptop;

impl Board for Laptop {
    fn wifi_begin(&mut self, _ssid: &str, _psk: &str) -> Result<()> {
        Ok(())
    }
    fn local_ip(&self) -> Option<IpAddress> {
        None
    }
    fn cam_begin(&mut self, _config: &cam::Config) -> Result<()> {
        Ok(())
    }
    fn cam_grab(&mut self) -> Result<Option<Jpeg>> {
        Ok(None)
    }
    fn mic_begin(&mut self, _config: &mic::Config) -> Result<()> {
        Ok(())
    }
    fn mic_read(&mut self) -> Result<Option<Pcm>> {
        Ok(None)
    }
    fn millis(&self) -> u64 {
        0
    }
}

#[test]
fn hosting_is_refused_by_default_and_answered_by_a_board_that_can() {
    // no board at all
    let mut none: Facade<Laptop> = Facade::new();
    assert!(!wifi::host(&mut none, "janus-setup", "a good passphrase"));
    assert_eq!(last_error(&none), Some(Error::NoBoard));
    assert!(!wifi::connected(&none));

    // a board with no access-point mode refuses by name
    board::install(&mut none, Laptop);
    assert!(!wifi::host(&mut none, "janus-setup", "a good passphrase"));
    assert_eq!(last_error(&none), Some(Error::Missing("access-point mode")));
    assert_eq!(
        last_error(&none).unwrap().message(),
        "the board has no access-point mode"
    );
    board::uninstall(&mut none);

    // a board that can host answers on the network it is now running
    let mut f: Facade<Hosting> = Facade::new();
    board::install(&mut f, Hosting::default());
    assert!(!wifi::connected(&f), "nothing is up before host is called");
    assert!(wifi::host(&mut f, "janus-setup", "a good passphrase"), "{:?}", last_error(&f));
    assert_eq!(last_error(&f), None);
    assert!(wifi::connected(&f));
    assert_eq!(wifi::local_ip(&f), Some(IpAddress::V4(AP_ADDR)));
    assert_eq!(
        f.board.as_ref().unwrap().hosting,
        Some(("janus-setup".to_owned(), "a good passphrase".to_owned()))
    );

    // the passphrase bound is the seam's
    assert!(!wifi::host(&mut f, "janus-setup", "short"));
    assert!(matches!(last_error(&f), Some(Error::Io(_))), "{:?}", last_error(&f));
    board::uninstall(&mut f);
}
