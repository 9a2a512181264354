use vstd::prelude::*;

verus! {

/// Which of the four interpolation values of the HSV hexagon a channel takes:
/// `Value` is `v`, `Floor` is `p = v(1 - s)`, `Falling` is `q = v(1 - s f)` and
/// `Rising` is `t = v(1 - s(1 - f))`, where `f` is the position inside the sector.
#[derive(Clone, Copy, Debug, PartialEq, Eq, Structural)]
pub enum Slot {
    Value,
    Floor,
    Falling,
    Rising,
}

/// The hexagon layout: for each of the six hue sectors, the slot that red,
/// green and blue take, in that order.
pub open spec fn slots_spec(sector: int) -> (Slot, Slot, Slot) {
    if sector == 0 {
        (Slot::Value, Slot::Rising, Slot::Floor)
    } else if sector == 1 {
        (Slot::Falling, Slot::Value, Slot::Floor)
    } else if sector == 2 {
        (Slot::Floor, Slot::Value, Slot::Rising)
    } else if sector == 3 {
        (Slot::Floor, Slot::Falling, Slot::Value)
    } else if sector == 4 {
        (Slot::Rising, Slot::Floor, Slot::Value)
    } else {
        (Slot::Value, Slot::Floor, Slot::Falling)
    }
}

/// The slots of red, green and blue in hue sector `sector`.
pub fn sector_slots(sector: u8) -> (r: (Slot, Slot, Slot))
    requires
        sector < 6,
    ensures
        r == slots_spec(sector as int),
{
    match sector {
        0 => (Slot::Value, Slot::Rising, Slot::Floor),
        1 => (Slot::Falling, Slot::Value, Slot::Floor),
        2 => (Slot::Floor, Slot::Value, Slot::Rising),
        3 => (Slot::Floor, Slot::Falling, Slot::Value),
        4 => (Slot::Rising, Slot::Floor, Slot::Value),
        _ => (Slot::Value, Slot::Floor, Slot::Falling),
    }
}

/// The hue sector of a scaled hue whose integer part is `whole`
/// (`whole = floor(6 h)`): hue is circular, so the sector is `whole` modulo 6,
/// and a full turn (`whole == 6`) lands in sector 0.
pub fn sector_index(whole: i64) -> (r: u8)
    ensures
        r < 6,
        r as int == whole as int % 6,
{
    if whole >= 0 {
        let u: u64 = whole as u64;
        (u % 6) as u8
    } else {
        let below: u64 = (-(whole + 1)) as u64;
        let m: u64 = below % 6;
        proof {
            assert(whole as int == -(below as int) - 1);
            assert((-(below as int) - 1) % 6 == 5 - (below as int % 6)) by (nonlinear_arith)
                requires
                    below >= 0,
            {
            }
        }
        (5 - m) as u8
    }
}

} // verus!
