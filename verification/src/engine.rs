//! Engine boundary: what the bridge makes of the values the engine reports.
//! The calls themselves are the caller's; here their results are judged.

use vstd::prelude::*;

verus! {

/// Size of a frame that the engine handed out. Both dimensions are positive.
#[derive(Clone, Copy, Debug, PartialEq, Eq)]
pub struct FrameDims {
    pub width: usize,
    pub height: usize,
}

/// Why the program cannot start.
#[derive(Clone, Copy, Debug, PartialEq, Eq)]
pub enum StartupError {
    /// The engine could not be created, and returned this status.
    EngineCreate { status: i32 },
    /// The engine booted but handed out no usable frame.
    NoFramebuffer,
}

/// What a fetch from the engine amounts to: a frame when the engine handed
/// out a buffer and both dimensions are positive, nothing otherwise.
pub open spec fn frame_of(has_buffer: bool, width: i32, height: i32) -> Option<FrameDims> {
    if has_buffer && width > 0 && height > 0 {
        Some(FrameDims { width: width as usize, height: height as usize })
    } else {
        None
    }
}

/// Judges what the engine returned for a frame: whether it handed out a
/// buffer at all, and the width and height it reported.
pub fn frame_dims(has_buffer: bool, width: i32, height: i32) -> (frame: Option<FrameDims>)
    ensures
        frame == frame_of(has_buffer, width, height),
        frame is Some <==> has_buffer && width > 0 && height > 0,
        frame matches Some(f) ==> f.width == width && f.height == height,
{
    if !has_buffer || width <= 0 || height <= 0 {
        return None;
    }
    Some(FrameDims { width: width as usize, height: height as usize })
}

/// Judges the status that creating the engine returned: zero is success,
/// anything else is fatal.
pub fn check_engine_created(status: i32) -> (result: Result<(), StartupError>)
    ensures
        result is Ok <==> status == 0,
        status != 0 ==> result == Err::<(), StartupError>(StartupError::EngineCreate { status }),
{
    if status != 0 {
        return Err(StartupError::EngineCreate { status });
    }
    Ok(())
}

/// Judges the first frame after boot: without a usable frame the program
/// must not go on.
pub fn check_boot_frame(has_buffer: bool, width: i32, height: i32) -> (result: Result<
    FrameDims,
    StartupError,
>)
    ensures
        result == match frame_of(has_buffer, width, height) {
            Some(f) => Ok::<FrameDims, StartupError>(f),
            None => Err::<FrameDims, StartupError>(StartupError::NoFramebuffer),
        },
{
    match frame_dims(has_buffer, width, height) {
        Some(f) => Ok(f),
        None => Err(StartupError::NoFramebuffer),
    }
}

} // verus!
