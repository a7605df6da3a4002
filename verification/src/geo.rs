//! The spatial grid: coordinates in microdegrees are bucketed into cells a
//! hundredth of a degree wide.

use vstd::prelude::*;

verus! {

/// Microdegrees added to a longitude so that the valid range starts at zero.
pub const LONGITUDE_SHIFT: i64 = 180_000_000;

/// Microdegrees added to a latitude so that the valid range starts at zero.
pub const LATITUDE_SHIFT: i64 = 90_000_000;

/// Width of a grid cell in microdegrees.
pub const CELL_SIZE: u64 = 10_000;

/// Whether `latitude` lies on the globe, in microdegrees.
pub open spec fn latitude_in_range(latitude: int) -> bool {
    -90_000_000 <= latitude <= 90_000_000
}

/// Whether `longitude` lies on the globe, in microdegrees.
pub open spec fn longitude_in_range(longitude: int) -> bool {
    -180_000_000 <= longitude <= 180_000_000
}

/// The grid index of a coordinate once `shift` has been added to it.
///
/// A shifted coordinate that is not negative is divided by the cell size. One
/// that is negative lies off the globe; its quotient, rounded toward zero, is
/// reduced modulo 2^32, as narrowing a negative number to 32 unsigned bits
/// does.
pub open spec fn grid_index(coordinate: int, shift: int) -> int {
    let shifted = coordinate + shift;
    if shifted >= 0 {
        shifted / 10_000
    } else {
        let below = (-shifted) / 10_000;
        if below == 0 {
            0
        } else {
            0x1_0000_0000 - below
        }
    }
}

/// The column of the cell that holds `longitude`.
pub open spec fn grid_x_of(longitude: int) -> int {
    grid_index(longitude, 180_000_000)
}

/// The row of the cell that holds `latitude`.
pub open spec fn grid_y_of(latitude: int) -> int {
    grid_index(latitude, 90_000_000)
}

fn index_of(coordinate: i32, shift: i64) -> (index: u32)
    requires
        0 <= shift <= 180_000_000,
    ensures
        index == grid_index(coordinate as int, shift as int),
{
    let shifted: i64 = coordinate as i64 + shift;
    if shifted >= 0 {
        let quotient: u64 = (shifted as u64) / CELL_SIZE;
        quotient as u32
    } else {
        let below: u64 = ((-shifted) as u64) / CELL_SIZE;
        if below == 0 {
            0
        } else {
            let wrapped: u64 = 0x1_0000_0000u64 - below;
            wrapped as u32
        }
    }
}

/// Maps a position in microdegrees to its grid cell, `(grid_x, grid_y)`.
///
/// For a position on the globe both indices are the shifted coordinate divided
/// by the cell size. Positions off the globe are not refused; they get the
/// index that `grid_index` describes.
pub fn cell(latitude: i32, longitude: i32) -> (grid: (u32, u32))
    ensures
        grid.0 == grid_x_of(longitude as int),
        grid.1 == grid_y_of(latitude as int),
        longitude_in_range(longitude as int) ==> grid.0 == (longitude + 180_000_000) / 10_000,
        latitude_in_range(latitude as int) ==> grid.1 == (latitude + 90_000_000) / 10_000,
{
    let grid_x: u32 = index_of(longitude, LONGITUDE_SHIFT);
    let grid_y: u32 = index_of(latitude, LATITUDE_SHIFT);
    (grid_x, grid_y)
}

} // verus!
