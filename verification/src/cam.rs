//! The camera, Arduino-shaped: `begin` once, `grab` in the loop.

use vstd::prelude::*;

use crate::board::{Board, Facade, Jpeg, board_call};
use crate::error::{self, Error};

verus! {

/// What the camera is asked for. JPEG out, always.
#[derive(Debug, Clone, Copy, PartialEq, Eq)]
pub struct Config {
    /// Pixels across.
    pub width: u32,
    /// Pixels down.
    pub height: u32,
    /// Frames per second the board should pace at.
    pub fps: u32,
    /// JPEG quality, 1–100.
    pub quality: u8,
}

impl Config {
    /// 320×240 at 15 fps, quality 80: the frame every Janus board can do.
    pub fn qvga_jpeg() -> (c: Self)
        ensures
            c == (Config { width: 320, height: 240, fps: 15, quality: 80 }),
    {
        Config { width: 320, height: 240, fps: 15, quality: 80 }
    }

    /// 640×480 at 10 fps, quality 80.
    pub fn vga_jpeg() -> (c: Self)
        ensures
            c == (Config { width: 640, height: 480, fps: 10, quality: 80 }),
    {
        Config { width: 640, height: 480, fps: 10, quality: 80 }
    }

    /// The same frame at another rate.
    pub fn at_fps(self, fps: u32) -> (c: Self)
        ensures
            c == (Config { fps, ..self }),
    {
        let mut c = self;
        c.fps = fps;
        c
    }
}

/// Start the camera with `config`. `false` (and [`crate::error::last_error`])
/// when the board refuses or none is installed; the configuration is kept
/// only when it succeeds.
pub fn begin<B: Board>(f: &mut Facade<B>, config: Config) -> (ok: bool)
    ensures
        ok == (final(f).last is None),
        old(f).board is None ==> !ok && final(f).last == Some(Error::NoBoard),
        ok ==> final(f).cam_config == Some(config),
        !ok ==> final(f).cam_config == old(f).cam_config,
        board_call(*old(f), Facade { cam_config: old(f).cam_config, ..*final(f) }),
        old(f).board matches Some(b0) ==> exists|m: &mut B, r: Result<(), Error>|
            mut_ref_current(m) == b0 && final(f).board == Some(mut_ref_future(m)) && #[trigger] call_ensures(
                B::cam_begin,
                (m, &config),
                r,
            ) && ok == r is Ok && final(f).last == (match r {
                Ok(_) => None,
                Err(e) => Some(e),
            }),
{
    let r = match &mut f.board {
        Some(b) => b.cam_begin(&config),
        None => Err(Error::NoBoard),
    };
    if r.is_ok() {
        f.cam_config = Some(config);
    }
    error::ok(f, r)
}

/// The next frame, if one is ready. `None` with no error recorded means
/// "not yet"; `None` with a recorded error means something is wrong.
pub fn grab<B: Board>(f: &mut Facade<B>) -> (frame: Option<Jpeg>)
    ensures
        old(f).board is None ==> frame is None && final(f).last == Some(Error::NoBoard),
        frame is Some ==> final(f).last is None,
        board_call(*old(f), *final(f)),
        old(f).board matches Some(b0) ==> exists|m: &mut B, r: Result<Option<Jpeg>, Error>|
            mut_ref_current(m) == b0 && final(f).board == Some(mut_ref_future(m)) && #[trigger] call_ensures(
                B::cam_grab,
                (m,),
                r,
            ) && final(f).last == (match r {
                Ok(_) => None,
                Err(e) => Some(e),
            }) && frame == (match r {
                Ok(v) => v,
                Err(_) => None,
            }),
{
    let r = match &mut f.board {
        Some(b) => b.cam_grab(),
        None => Err(Error::NoBoard),
    };
    error::some(f, r)
}

/// The configuration `begin` was given, once it succeeded.
pub fn config<B>(f: &Facade<B>) -> (c: Option<Config>)
    ensures
        c == f.cam_config,
{
    f.cam_config
}

} // verus!
