//! Dice rolls, the only source of chance in the combat math.

use vstd::prelude::*;
use rand::Rng;

verus! {

pub struct Dice;

/// Outcome classes of a d20 attack roll: 1 is a fumble, 20 a critical,
/// anything else a normal roll carrying its value.
#[derive(Debug, PartialEq, Eq, Structural, Copy, Clone)]
pub enum RollDiceResult {
    Normal(u8),
    Critical,
    Fumble,
}

/// Relies on rand's `Rng::gen_range` over an inclusive integer range: the
/// result is drawn from `low..=high`; the call panics only on an empty range,
/// which the precondition rules out.
#[verifier::external_body]
fn gen_range_inclusive(low: u64, high: u64) -> (r: u64)
    requires
        low <= high,
    ensures
        low <= r <= high,
{
    rand::thread_rng().gen_range(low..=high)
}

/// One throw of a die with `faces` faces.
pub(crate) fn roll_die(faces: u8) -> (r: u8)
    requires
        faces >= 1,
    ensures
        1 <= r <= faces,
{
    let wide = gen_range_inclusive(1, faces as u64);
    wide as u8
}

/// A uniform pick among `count` alternatives, as when an AI must choose a
/// target with nobody to ask.
pub(crate) fn pick_index(count: usize) -> (r: usize)
    requires
        count >= 1,
    ensures
        r < count,
{
    let wide = gen_range_inclusive(0, (count - 1) as u64);
    wide as usize
}

impl Dice {
    pub fn roll_1d20() -> (r: u32)
        ensures
            1 <= r <= 20,
    {
        roll_die(20) as u32
    }

    pub fn roll_1d10() -> (r: u32)
        ensures
            1 <= r <= 10,
    {
        roll_die(10) as u32
    }

    pub fn roll_1d100() -> (r: u32)
        ensures
            1 <= r <= 100,
    {
        roll_die(100) as u32
    }

    pub fn roll_1d6() -> (r: u32)
        ensures
            1 <= r <= 6,
    {
        roll_die(6) as u32
    }

    pub fn roll_1d4() -> (r: u32)
        ensures
            1 <= r <= 4,
    {
        roll_die(4) as u32
    }
}

} // verus!
