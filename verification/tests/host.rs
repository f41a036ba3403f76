use rusty_esp_arduino::host::jpeg_size;

#[test]
fn jpeg_size_reads_sof0_and_refuses_non_jpegs() {
    // SOI, APP0 (2 bytes), SOF0 with 8 bytes of payload: precision 8,
    // height 240, width 320, 1 component
    let mut j = vec![0xFF, 0xD8, 0xFF, 0xE0, 0x00, 0x02];
    j.extend_from_slice(&[
        0xFF, 0xC0, 0x00, 0x0B, 0x08, 0x00, 0xF0, 0x01, 0x40, 0x01, 0x01, 0x11, 0x00,
    ]);
    assert_eq!(jpeg_size(&j), Some((320, 240)));
    assert_eq!(jpeg_size(b"RIFF"), None);
    assert_eq!(jpeg_size(&[0xFF, 0xD8, 0xFF, 0xD9]), None);
}

#[test]
fn jpeg_size_skips_fill_bytes_and_stops_at_the_scan() {
    // fill bytes (0xFF 0xFF) before a SOF2 header: 16 x 8
    let j = [0xFF, 0xD8, 0xFF, 0xFF, 0xC2, 0x00, 0x0B, 0x08, 0x00, 0x08, 0x00, 0x10, 0x01];
    assert_eq!(jpeg_size(&j), Some((16, 8)));
    // a scan before any frame header
    assert_eq!(jpeg_size(&[0xFF, 0xD8, 0xFF, 0xDA, 0x00, 0x02, 0xFF, 0xC0]), None);
    // DHT (0xC4) is not a frame header: skipped, then the end of the bytes
    assert_eq!(jpeg_size(&[0xFF, 0xD8, 0xFF, 0xC4, 0x00, 0x02, 0x00]), None);
    // a frame header cut short
    assert_eq!(jpeg_size(&[0xFF, 0xD8, 0xFF, 0xC0, 0x00, 0x0B, 0x08]), None);
    // a non-marker byte where a marker should be
    assert_eq!(jpeg_size(&[0xFF, 0xD8, 0x00, 0xC0, 0x00, 0x0B, 0x08, 0, 0, 0, 0]), None);
}

use rusty_esp_arduino::cam;
use rusty_esp_arduino::error::Error;
use rusty_esp_arduino::host::{
    self, DirFrames, HostLog, PatternCam, Stored, WavLoop, block_len_for, check_camera, check_microphone,
    clamp_quality, interval_micros, pattern_size,
};
use rusty_esp_core::error::Error as Family;
use rusty_esp_arduino::mic;
use rusty_esp_arduino::units::{Micros, PcmFormat, SampleFormat};
use rusty_esp_audio_core::codec::wav::WavHeader;

fn wav_file(data: &[u8]) -> Vec<u8> {
    let format = rusty_esp_core::pcm::PcmFormat::new(8000, 1, rusty_esp_core::pcm::SampleFormat::I16).unwrap();
    let header = WavHeader::pcm(format, data.len() as u32);
    let mut file = vec![0u8; 64];
    let n = header.write(&mut file).unwrap();
    file.truncate(n);
    file.extend_from_slice(data);
    file
}

#[test]
fn wav_microphone_loops_the_file_in_its_own_format() {
    let format = PcmFormat { sample_rate_hz: 8000, channels: 1, sample: SampleFormat::I16 };
    let data: Vec<u8> = (0..100i16).flat_map(i16::to_le_bytes).collect();
    let file = wav_file(&data);
    let mut wav = WavLoop::from_file(&file, "tone.wav").expect("a PCM file");
    let config = mic::Config::pcm16_16k().blocks_of_ms(30);
    check_microphone(&config, false).unwrap();
    let n = block_len_for(wav.format, config.frame_ms);
    let block = wav.read(n, Micros(0));
    assert_eq!(block.format, format, "the file's format wins");
    assert_eq!(block.bytes.len(), 480, "30 ms at 8 kHz mono i16");
    assert_eq!(&block.bytes[..200], &data[..], "then it wraps");
    assert_eq!(&block.bytes[200..400], &data[..]);
}

#[test]
fn wav_blocks_continue_where_the_last_ended() {
    let data: Vec<u8> = (0..10u8).collect();
    let mut wav = WavLoop::from_file(&wav_file(&data), "t.wav").unwrap();
    let a = wav.read(7, Micros(1));
    assert_eq!(a.bytes, vec![0, 1, 2, 3, 4, 5, 6]);
    assert_eq!(wav.pos, 7);
    let b = wav.read(6, Micros(2));
    assert_eq!(b.bytes, vec![7, 8, 9, 0, 1, 2]);
    assert_eq!(b.timestamp, Micros(2));
    assert_eq!(wav.pos, 3);
    let c = wav.read(0, Micros(3));
    assert!(c.bytes.is_empty());
    assert_eq!(wav.pos, 3);
}

#[test]
fn a_wav_file_without_samples_or_header_is_refused() {
    match WavLoop::from_file(&wav_file(&[]), "empty.wav") {
        Err(Error::Io(t)) => assert_eq!(t, "empty.wav: no PCM data"),
        _ => panic!("an empty data chunk is refused"),
    }
    assert!(matches!(WavLoop::from_file(b"RIFF", "x.wav"), Err(Error::Core(_))));
}

#[test]
fn block_length_is_the_format_times_the_block_and_at_least_one_byte() {
    let f16 = mic::Config::pcm16_16k();
    assert_eq!(f16.block_bytes(), 640);
    assert_eq!(mic::Config::pcm16_48k().block_bytes(), 1920);
    assert_eq!(block_len_for(f16.format, 20), 640);
    // a tenth of a millisecond is no whole frame at 8 kHz: one byte, not zero
    let slow = PcmFormat { sample_rate_hz: 10, channels: 1, sample: SampleFormat::I16 };
    assert_eq!(block_len_for(slow, 1), 1);
    let stereo = PcmFormat { sample_rate_hz: 48_000, channels: 2, sample: SampleFormat::I32 };
    assert_eq!(block_len_for(stereo, 10), 3840);
}

#[test]
fn the_laptop_refuses_what_it_cannot_deliver() {
    let ok = cam::Config::qvga_jpeg();
    assert!(check_camera(&ok).is_ok());
    assert!(matches!(check_camera(&ok.at_fps(0)), Err(Error::Core(_))));
    assert!(matches!(
        check_camera(&cam::Config { width: 0, ..ok }),
        Err(Error::Core(rusty_esp_core::error::Error::Unsupported))
    ));
    assert_eq!(pattern_size(&cam::Config::vga_jpeg()), Ok((640, 480)));
    assert!(pattern_size(&cam::Config { width: 70_000, ..ok }).is_err());
    assert_eq!(clamp_quality(0), 1);
    assert_eq!(clamp_quality(80), 80);
    assert_eq!(clamp_quality(200), 100);
    assert_eq!(interval_micros(15), 66_666);
    assert_eq!(interval_micros(10), 100_000);
    let m = mic::Config::pcm16_16k();
    assert!(check_microphone(&m, true).is_ok());
    assert!(check_microphone(&m.blocks_of_ms(0), false).is_err());
    let f32_config = mic::Config {
        format: PcmFormat { sample: SampleFormat::F32, ..m.format },
        ..m
    };
    assert!(check_microphone(&f32_config, true).is_err(), "a tone is 16-bit only");
    assert!(check_microphone(&f32_config, false).is_ok(), "a file brings its own format");
}

fn tiny_jpeg(w: u8, h: u8) -> Vec<u8> {
    vec![0xFF, 0xD8, 0xFF, 0xC0, 0x00, 0x0B, 0x08, 0x00, h, 0x00, w, 0x01, 0x01]
}

#[test]
fn a_directory_of_jpegs_plays_in_order_and_loops() {
    let mut dir = DirFrames::from_files(vec![tiny_jpeg(4, 3), tiny_jpeg(8, 6)], "frames").unwrap();
    let a = dir.grab(Micros(10));
    assert_eq!((a.width, a.height, a.timestamp), (4, 3, Micros(10)));
    assert_eq!(a.bytes, tiny_jpeg(4, 3));
    let b = dir.grab(Micros(20));
    assert_eq!((b.width, b.height), (8, 6));
    let c = dir.grab(Micros(30));
    assert_eq!((c.width, c.height), (4, 3), "then it loops");
    match DirFrames::from_files(Vec::new(), "frames") {
        Err(Error::Io(t)) => assert_eq!(t, "frames: no JPEG files"),
        _ => panic!("an empty directory is refused"),
    }
    assert!(matches!(
        DirFrames::from_files(vec![tiny_jpeg(1, 1), b"RIFF".to_vec()], "frames"),
        Err(Error::Core(rusty_esp_core::error::Error::InvalidFormat))
    ));
}

#[test]
fn the_laptop_records_what_it_was_asked_and_queues_what_a_test_sends() {
    let mut log = HostLog::new();
    assert_eq!(host::advertised(&log), None);
    assert!(host::async_prepared(&log).is_empty());
    host::record_prepare(&mut log, 5);
    host::record_prepare(&mut log, 7);
    assert_eq!(host::async_prepared(&log), vec![5, 7]);
    let txt = vec![("kind".to_owned(), "oem_sidecar".to_owned())];
    host::record_advert(&mut log, "cam", "Janus device", "_x._tcp.local.", 4242, &txt);
    assert_eq!(
        host::advertised(&log),
        Some(("cam".into(), "Janus device".into(), "_x._tcp.local.".into(), 4242, txt))
    );
    assert_eq!(host::restarts(&log), 0);
    host::record_restart(&mut log);
    host::record_restart(&mut log);
    assert_eq!(host::restarts(&log), 2);
    assert_eq!(host::provisioning_name(&log), None);
    host::record_provisioning(&mut log, "setup");
    assert_eq!(host::provisioning_name(&log), Some("setup".into()));
    host::record_settings(&mut log, "net", "pass");
    assert_eq!(host::stored_settings(&log), Some(("net".into(), "pass".into())));
    host::inject_credentials(&mut log, "a", "1");
    assert_eq!(host::take_credentials(&mut log, false), None, "only while provisioning");
    assert_eq!(host::take_credentials(&mut log, true), Some(("a".into(), "1".into())));
    assert_eq!(host::take_credentials(&mut log, true), None);
}

#[test]
fn pattern_camera_delivers_jpegs_of_the_configured_size() {
    let mut camera = PatternCam::new(&cam::Config::qvga_jpeg()).unwrap();
    let frame = camera.grab(Micros(0)).unwrap();
    assert_eq!((frame.width, frame.height), (320, 240));
    assert_eq!(jpeg_size(&frame.bytes), Some((320, 240)));
    assert!(frame.bytes.len() > 1000 && frame.bytes.len() < 100_000);
}

#[test]
fn the_pattern_camera_keeps_its_size_and_refuses_what_no_frame_can_be() {
    let config = cam::Config { width: 64, height: 48, fps: 5, quality: 0 };
    let mut camera = PatternCam::new(&config).unwrap();
    assert_eq!(camera.quality(), 1, "quality clamps up to 1");
    assert_eq!(camera.frame_len(), 64 * 48 * 3, "one RGB888 frame");
    for k in 0..3u64 {
        let frame = camera.grab(Micros(k * 200_000)).unwrap();
        assert_eq!((frame.width, frame.height, frame.timestamp), (64, 48, Micros(k * 200_000)));
        assert_eq!(jpeg_size(&frame.bytes), Some((64, 48)));
    }
    assert_eq!((camera.width(), camera.height()), (64, 48));
    let loud = PatternCam::new(&cam::Config { quality: 250, ..config }).unwrap();
    assert_eq!(loud.quality(), 100, "quality clamps down to 100");
    let mut coarse = PatternCam::new(&cam::Config { quality: 1, ..config }).unwrap();
    let mut fine = PatternCam::new(&cam::Config { quality: 100, ..config }).unwrap();
    let (a, b) = (coarse.grab(Micros(0)).unwrap(), fine.grab(Micros(0)).unwrap());
    assert!(a.bytes.len() < b.bytes.len(), "the quality reaches the encoder");
    let unsupported = Error::Core(Family::Unsupported);
    for bad in [
        cam::Config { fps: 0, ..config },
        cam::Config { width: 0, ..config },
        cam::Config { height: 0, ..config },
        cam::Config { width: 70_000, ..config },
        cam::Config { height: 65_536, ..config },
    ] {
        assert_eq!(PatternCam::new(&bad).err(), Some(unsupported.clone()), "{bad:?}");
    }
}

#[test]
fn the_store_checks_keys_copies_values_and_names_the_room_it_needs() {
    for good in ["mid.devkey", "a", "A-Z_0.9", "fifteen_chars_x"] {
        assert_eq!(host::check_store_key(good), Ok(()), "{good}");
        assert_eq!(host::check_store_key(good), rusty_esp_core::hal::check_key(good));
    }
    for bad in ["", "sixteen_chars_xx", "../etc", "key with space", "caf\u{e9}"] {
        assert_eq!(host::check_store_key(bad), Err(Family::InvalidFormat), "{bad}");
        assert_eq!(host::check_store_key(bad), rusty_esp_core::hal::check_key(bad));
    }

    let mut out = [9u8; 6];
    assert_eq!(host::stored_value(Stored::Found(vec![1, 2, 3]), &mut out), Ok(Some(3)));
    assert_eq!(out, [1, 2, 3, 9, 9, 9], "the value at the front, the rest untouched");
    let mut small = [0u8; 2];
    assert_eq!(
        host::stored_value(Stored::Found(vec![1, 2, 3]), &mut small),
        Err(Family::BufferTooSmall { needed: 3 })
    );
    assert_eq!(small, [0, 0]);
    assert_eq!(host::stored_value(Stored::Absent, &mut out), Ok(None));
    assert_eq!(host::stored_value(Stored::Failed, &mut out), Err(Family::Hardware));

    assert_eq!(host::removed(Stored::Found(Vec::new())), Ok(true));
    assert_eq!(host::removed(Stored::Absent), Ok(false));
    assert_eq!(host::removed(Stored::Failed), Err(Family::Hardware));
}

#[test]
fn the_laptop_records_readvertisements_and_image_confirmations() {
    let mut log = HostLog::new();
    assert!(host::advertised_updates(&log).is_empty());
    assert_eq!(host::ota_running_valid_calls(&log), 0);
    host::record_advert_txt(&mut log, &[("pair_state".to_owned(), "paired".to_owned())]);
    host::record_advert_txt(&mut log, &[]);
    assert_eq!(
        host::advertised_updates(&log),
        vec![vec![("pair_state".to_owned(), "paired".to_owned())], vec![]]
    );
    host::record_ota_valid(&mut log);
    assert_eq!(host::ota_running_valid_calls(&log), 1);
}

#[test]
fn a_directory_plays_its_jpegs_in_name_order() {
    assert!(host::jpeg_name(b"a.jpg"));
    assert!(host::jpeg_name(b"B.JPEG"));
    assert!(host::jpeg_name(b"x.tar.JpG"));
    assert!(host::jpeg_name(b"..jpg"));
    assert!(!host::jpeg_name(b".jpg"), "a dot file has no extension");
    assert!(!host::jpeg_name(b".jpeg"));
    assert!(!host::jpeg_name(b"jpg"));
    assert!(!host::jpeg_name(b"a.png"));
    assert!(!host::jpeg_name(b"a.jpgx"));
    assert!(host::name_before(b"a", b"b"));
    assert!(host::name_before(b"ab", b"abc"));
    assert!(host::name_before(b"abc", b"abc"));
    assert!(!host::name_before(b"abc", b"ab"));
    assert!(!host::name_before(b"b", b"a"));
    let names: Vec<Vec<u8>> = vec![
        b"b.jpg".to_vec(),
        b"notes.txt".to_vec(),
        b"a.JPEG".to_vec(),
        b".jpg".to_vec(),
        b"B.jpg".to_vec(),
    ];
    assert_eq!(host::jpeg_order(&names), vec![4, 2, 0]);
    assert_eq!(host::jpeg_order(&Vec::new()), Vec::<usize>::new());
}
