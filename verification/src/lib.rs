//! The logic of a color picker: parsing and writing custom color formats, hex codes, palettes
//! and their navigation, shades and tints, and the settings.
use vstd::prelude::*;

pub mod color_space;
pub mod digits;
pub mod export;
pub mod format;
pub mod format_laws;
pub mod hex;
pub mod palette;
pub mod palettes;
pub mod render;
pub mod saved_colors;
pub mod settings;
pub mod shades;
pub mod text;
pub mod ui;

verus! {

/// Seconds from `timestamp` to `now`, both in seconds since the Unix epoch.
pub fn elapsed(now: u64, timestamp: u64) -> (r: u64)
    requires
        timestamp <= now,
    ensures
        r == now - timestamp,
{
    now - timestamp
}

} // verus!
