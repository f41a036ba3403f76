//! A sketch without a board fails loudly and says why.

use rusty_esp_arduino::board::{self, Board, Facade, IpAddress, Jpeg, Pcm};
use rusty_esp_arduino::error::{Error, Result, last_error};
use rusty_esp_arduino::units::Micros;
use rusty_esp_arduino::{cam, mic, sketch, stream, wifi};

/// A laptop-like board: begin before use, and the peripheral is named when
/// it was not begun.
#[derive(Default)]
struct Laptop {
    ssid: Option<String>,
    cam: Option<cam::Config>,
    mic: Option<mic::Config>,
}

impl Board for Laptop {
    fn wifi_begin(&mut self, ssid: &str, _psk: &str) -> Result<()> {
        self.ssid = Some(ssid.to_owned());
        Ok(())
    }
    fn local_ip(&self) -> Option<IpAddress> {
        self.ssid.as_ref().map(|_| IpAddress::V4([127, 0, 0, 1]))
    }
    fn cam_begin(&mut self, config: &cam::Config) -> Result<()> {
        self.cam = Some(*config);
        Ok(())
    }
    fn cam_grab(&mut self) -> Result<Option<Jpeg>> {
        match self.cam {
            None => Err(Error::NotBegun("camera")),
            Some(c) => Ok(Some(Jpeg {
                bytes: vec![0xFF, 0xD8, 0xFF, 0xD9],
                width: c.width as u16,
                height: c.height as u16,
                timestamp: Micros(0),
            })),
        }
    }
    fn mic_begin(&mut self, config: &mic::Config) -> Result<()> {
        self.mic = Some(*config);
        Ok(())
    }
    fn mic_read(&mut self) -> Result<Option<Pcm>> {
        match self.mic {
            None => Err(Error::NotBegun("microphone")),
            Some(c) => Ok(Some(Pcm { format: c.format, bytes: vec![0; 64], timestamp: Micros(0) })),
        }
    }
    fn millis(&self) -> u64 {
        7
    }
}

#[test]
fn every_call_is_refused_with_no_board_and_the_reason_is_one_call_away() {
    let mut f: Facade<Laptop> = Facade::new();
    assert!(!board::installed(&f));
    assert!(!wifi::begin(&mut f, "x", "y"));
    assert_eq!(last_error(&f), Some(Error::NoBoard));
    assert!(!cam::begin(&mut f, cam::Config::qvga_jpeg()));
    assert_eq!(last_error(&f), Some(Error::NoBoard));
    assert!(cam::grab(&mut f).is_none());
    assert_eq!(last_error(&f), Some(Error::NoBoard));
    assert!(!mic::begin(&mut f, mic::Config::pcm16_16k()));
    assert!(mic::read(&mut f).is_none());
    assert_eq!(last_error(&f), Some(Error::NoBoard));
    assert_eq!(wifi::local_ip(&f), None);
    assert!(!wifi::connected(&f));
    assert_eq!(sketch::millis(&f), 0);
    assert_eq!(cam::config(&f), None);
    assert_eq!(mic::config(&f), None);
    assert_eq!(
        last_error(&f).unwrap().message(),
        "no board installed: call board::install first"
    );

    // with a board that has not begun, the peripheral is named
    board::install(&mut f, Laptop::default());
    assert!(board::installed(&f));
    assert!(cam::grab(&mut f).is_none());
    assert_eq!(last_error(&f), Some(Error::NotBegun("camera")));
    assert!(mic::read(&mut f).is_none());
    assert_eq!(last_error(&f), Some(Error::NotBegun("microphone")));
    let frame = Jpeg {
        bytes: vec![0xFF, 0xD8, 0xFF, 0xD9],
        width: 1,
        height: 1,
        timestamp: Micros(0),
    };
    assert_eq!(frame.bytes.len(), 4);
    assert!(!stream::push_jpeg(&mut f, Ok(())));
    assert_eq!(last_error(&f), Some(Error::NotBegun("stream")));
    assert_eq!(last_error(&f).unwrap().message(), "stream: begin was not called");
    let pcm = Pcm {
        format: mic::Config::pcm16_16k().format,
        bytes: vec![0; 64],
        timestamp: Micros(0),
    };
    assert_eq!(pcm.frames(), 32);
    assert!(!stream::push_pcm(&mut f, Ok(())));
    assert_eq!(last_error(&f), Some(Error::NotBegun("stream::pcm_to")));

    // a successful call clears the record
    assert!(cam::begin(&mut f, cam::Config::qvga_jpeg()));
    assert_eq!(last_error(&f), None);
    assert_eq!(cam::config(&f), Some(cam::Config::qvga_jpeg()));
    assert!(cam::grab(&mut f).is_some());
    board::uninstall(&mut f);
    assert!(!board::installed(&f));
}

#[test]
fn a_board_answers_once_installed_and_a_refusal_keeps_the_old_configuration() {
    let mut f: Facade<Laptop> = Facade::new();
    assert_eq!(board::millis(&f), 0);
    board::install(&mut f, Laptop::default());
    assert_eq!(board::millis(&f), 7);
    assert!(wifi::begin(&mut f, "home", "psk"));
    assert!(wifi::connected(&f));
    assert_eq!(wifi::local_ip(&f), Some(IpAddress::V4([127, 0, 0, 1])));
    assert!(mic::begin(&mut f, mic::Config::pcm16_48k()));
    assert_eq!(mic::config(&f), Some(mic::Config::pcm16_48k()));
    let block = mic::read(&mut f).expect("a block");
    assert_eq!(block.frames(), 32);
    assert_eq!(last_error(&f), None);
    // this board provides no restart: the provided method refuses by name
    assert!(!sketch::restart(&mut f));
    assert_eq!(last_error(&f), Some(Error::Missing("a way to restart this board")));
    assert_eq!(
        last_error(&f).unwrap().message(),
        "the board has no a way to restart this board"
    );
}
