//! Terrain coloring.
//!
//! The demo colors each terrain vertex by the band its height falls in:
//! snow above the snow line, rock down to sea level, grass down to the sea
//! floor line, water below that. Heights are carried as integers in
//! thousandths of a world unit, and colors as channel intensities in tenths,
//! so that the banding rule is exact.

use vstd::prelude::*;

verus! {

/// An RGB color; each channel is an intensity in tenths (0 ..= 10).
#[derive(Clone, Copy, Debug, PartialEq, Eq, Structural)]
pub struct Color {
    pub r: u8,
    pub g: u8,
    pub b: u8,
}

/// Heights strictly above this are snow-covered (thousandths of a world unit).
pub const SNOW_LINE_MILLI: i64 = 8000;

/// Heights strictly above this (and not snow) are bare rock.
pub const ROCK_LINE_MILLI: i64 = 0;

/// Heights strictly above this (and not rock) are grass; at or below is water.
pub const GRASS_LINE_MILLI: i64 = -5000;

/// The color of each band, from the height in thousandths of a world unit.
pub open spec fn color_of_height(height_milli: int) -> Color {
    if height_milli > SNOW_LINE_MILLI as int {
        Color { r: 9, g: 9, b: 9 }
    } else if height_milli > ROCK_LINE_MILLI as int {
        Color { r: 7, g: 7, b: 7 }
    } else if height_milli > GRASS_LINE_MILLI as int {
        Color { r: 2, g: 7, b: 2 }
    } else {
        Color { r: 2, g: 2, b: 7 }
    }
}

/// Picks the vertex color for a terrain height given in thousandths of a
/// world unit.
pub fn calculate_color(height_milli: i64) -> (c: Color)
    ensures
        c == color_of_height(height_milli as int),
{
    if height_milli > SNOW_LINE_MILLI {
        Color { r: 9, g: 9, b: 9 }
    } else if height_milli > ROCK_LINE_MILLI {
        Color { r: 7, g: 7, b: 7 }
    } else if height_milli > GRASS_LINE_MILLI {
        Color { r: 2, g: 7, b: 2 }
    } else {
        Color { r: 2, g: 2, b: 7 }
    }
}

} // verus!
