//! Sizes and names shared by the whole bridge.

use vstd::prelude::*;
use vstd::string::*;

verus! {

/// Width of the engine's native frame, in pixels.
pub const DOOM_FB_WIDTH: u32 = 320;

/// Height of the engine's native frame, in pixels.
pub const DOOM_FB_HEIGHT: u32 = 200;

/// Integer factor between the native frame and the initial window.
pub const SCALE_FACTOR: u32 = 3;

/// Initial logical width of the window.
pub const INITIAL_WIDTH: u32 = DOOM_FB_WIDTH * SCALE_FACTOR;

/// Initial logical height of the window.
pub const INITIAL_HEIGHT: u32 = DOOM_FB_HEIGHT * SCALE_FACTOR;

/// Name shown in the window title.
pub const APP_NAME: &'static str = "Rusty Doom";

/// The initial window is the native frame magnified by the scale factor.
pub proof fn lemma_initial_size()
    ensures
        INITIAL_WIDTH == 960,
        INITIAL_HEIGHT == 600,
{
}

/// The characters of a window title for the given version string.
pub open spec fn title_text(version: Seq<char>) -> Seq<char> {
    APP_NAME@ + " v"@ + version
}

/// Window title: the application name, then " v" and the version.
pub fn app_title(version: &str) -> (title: String)
    ensures
        title@ == title_text(version@),
{
    let mut title = String::from_str(APP_NAME);
    title.append(" v");
    title.append(version);
    title
}

} // verus!
