//! Startup: the command line, and the loop that a decoded image opens.

use crate::event_loop::Action;
use crate::event_loop::EventLoop;
use crate::event_loop::lemma_run_keeps_well_formed;
use crate::event_loop::LoopModel;
use crate::event_loop::Signal;
use crate::raster::DecodeError;
use crate::raster::DecodedImage;
use crate::surface::Size;
use crate::surface::SurfaceManager;
use crate::surface::SurfaceModel;
use vstd::prelude::*;

verus! {

/// The width of the window at startup, which is also its least width.
pub const WIDTH: u32 = 640;

/// The height of the window at startup, which is also its least height.
pub const HEIGHT: u32 = 480;

/// Why the viewer did not start.
#[derive(Clone, Copy, Debug, PartialEq, Eq)]
pub enum StartupError {
    /// The command line does not hold exactly one argument.
    Argument,
    /// The image source could not produce the image.
    Decode,
}

/// The size of the window and of the pixel buffer at startup.
pub open spec fn default_size() -> Size {
    Size { width: WIDTH, height: HEIGHT }
}

/// The loop as `open` hands it over: a surface of the default size with the
/// image loaded, waiting for the first event.
pub open spec fn opened() -> LoopModel {
    LoopModel {
        surface: SurfaceModel::blank(default_size()).loaded(),
        pending: Action::AwaitEvent,
    }
}

impl StartupError {
    /// The text that tells the user what went wrong.
    pub open spec fn message_text(self) -> Seq<char> {
        match self {
            StartupError::Argument => "expected exactly 1 argument: the path of the image file"@,
            StartupError::Decode => "the image file could not be read or decoded"@,
        }
    }

    /// The text that tells the user what went wrong.
    pub fn message(&self) -> (text: &'static str)
        ensures
            text@ == self.message_text(),
    {
        match self {
            StartupError::Argument => "expected exactly 1 argument: the path of the image file",
            StartupError::Decode => "the image file could not be read or decoded",
        }
    }
}

/// The path of the image from the command line. `args` is the command line as
/// the process got it: the program's name, then the arguments. Exactly one
/// argument is accepted.
pub fn parse_args(args: &[String]) -> (path: Result<&str, StartupError>)
    ensures
        args@.len() == 2 ==> path is Ok && path->Ok_0@ == args@[1]@,
        args@.len() != 2 ==> path is Err && path->Err_0 == StartupError::Argument,
{
    if args.len() == 2 {
        Ok(args[1].as_str())
    } else {
        Err(StartupError::Argument)
    }
}

/// Opens the viewer for a command line and for what the image source
/// returned for its path. A command line that is not accepted opens nothing,
/// whatever the image source returned: no surface is made and no loop. Nor is
/// one made without an image. With both, the surface has the default size, its
/// pixel buffer holds the converted image, and the loop waits for its first
/// event.
pub fn open(args: &[String], decoded: Result<DecodedImage, DecodeError>) -> (viewer: Result<
    EventLoop,
    StartupError,
>)
    ensures
        args@.len() != 2 ==> viewer is Err && viewer->Err_0 == StartupError::Argument,
        args@.len() == 2 && decoded is Err ==> viewer is Err && viewer->Err_0
            == StartupError::Decode,
        args@.len() == 2 && decoded is Ok ==> viewer is Ok && viewer->Ok_0@ == opened(),
{
    match parse_args(args) {
        Err(error) => Err(error),
        Ok(_) => match decoded {
            Err(_) => Err(StartupError::Decode),
            Ok(image) => {
                let mut surface = SurfaceManager::new(Size { width: WIDTH, height: HEIGHT });
                surface.load(image);
                Ok(EventLoop::new(surface))
            },
        },
    }
}

/// The loop that `open` hands over is well formed, and so it stays whatever
/// is reported to it: the pixel buffer of a running viewer has four bytes for
/// each pixel of the surface's size at all times.
pub proof fn lemma_opened_stays_well_formed(signals: Seq<Signal>)
    ensures
        opened().well_formed(),
        opened().run(signals).well_formed(),
{
    lemma_run_keeps_well_formed(opened(), signals);
}

} // verus!
