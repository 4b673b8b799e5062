//! Per-core decisions of the LED example image: which GPIO pin each core
//! blinks and at what cadence. Driving the pin and sleeping between edges
//! belong to the excluded GPIO and timer collaborators; the choices made
//! here are the image's own rules.

use vstd::prelude::*;

verus! {

/// The GPIO pin wired to the LED a given core blinks, one dedicated pin
/// per physical core of the four-core target; no pin is assigned beyond
/// those cores.
pub fn led_pin_for_core(core: u32) -> (r: Option<u32>)
    ensures
        core == 0 ==> r == Some(17u32),
        core == 1 ==> r == Some(18u32),
        core == 2 ==> r == Some(20u32),
        core == 3 ==> r == Some(21u32),
        core > 3 ==> r is None,
{
    match core {
        0 => Some(17),
        1 => Some(18),
        2 => Some(20),
        3 => Some(21),
        _ => None,
    }
}

/// How long the LED stays lit and dark, in milliseconds: both intervals
/// grow with the core number, so each core's LED visibly blinks at its
/// own pace.
pub fn blink_intervals(core: u32) -> (r: (u64, u64))
    ensures
        r.0 == 100 * ((core as u64) + 1),
        r.1 == 50 * ((core as u64) + 1),
{
    let n: u64 = (core as u64) + 1;
    (100 * n, 50 * n)
}

} // verus!
