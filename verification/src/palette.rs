//! The colours of the screen, each as `0x00RRGGBB`.

use vstd::prelude::*;

verus! {

/// A colour as `0x00RRGGBB`.
pub type Rgb = u32;

pub const WHITE: Rgb = 0xF7F1FF;

pub const LIGHT_BLUE: Rgb = 0x5AD4E6;

pub const RED: Rgb = 0xFC618D;

pub const GREEN: Rgb = 0x7BD8F3;

pub const ORANGE: Rgb = 0xFD9353;

pub const PURPLE: Rgb = 0x948AE3;

pub const YELLOW: Rgb = 0xFCE566;

pub const BACKGROUND: Rgb = 0x222222;

pub const BASE_1: Rgb = 0x363537;

pub const BASE_2: Rgb = 0x525053;

pub const BASE_3: Rgb = 0x69676C;

/// The colour of a priority: one for priorities below 50, a second for
/// those from 50 up to 99, a third from 100 on.
pub open spec fn priority_tier(priority: i8) -> Rgb {
    if priority < 50 {
        GREEN
    } else if priority < 100 {
        ORANGE
    } else {
        RED
    }
}

/// The colour that a priority is shown in.
pub fn priority_color(priority: i8) -> (color: Rgb)
    ensures
        color == priority_tier(priority),
{
    if priority < 50 {
        GREEN
    } else if priority < 100 {
        ORANGE
    } else {
        RED
    }
}

} // verus!
