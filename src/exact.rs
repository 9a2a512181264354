use vstd::prelude::*;
use vstd::arithmetic::div_mod::lemma_fundamental_div_mod_converse;
use crate::sector::{Slot, slots_spec, sector_slots};

verus! {

/// A color with 8-bit channels: each channel `c` stands for the intensity `c / 255`.
#[derive(Clone, Copy, Debug, PartialEq, Eq, Structural)]
pub struct Rgb8 {
    pub r: u8,
    pub g: u8,
    pub b: u8,
}

/// An HSV color of an 8-bit RGB color, held exactly.
///
/// With `chroma > 0`, hue is `(sector * chroma + offset) / (6 * chroma)`, a fraction
/// of the full turn; with `chroma == 0` the color is gray and hue is 0.
/// Saturation is `chroma / value` (0 when `value == 0`) and value is `value / 255`.
#[derive(Clone, Copy, Debug, PartialEq, Eq, Structural)]
pub struct Hsv8 {
    pub sector: u8,
    pub offset: u8,
    pub chroma: u8,
    pub value: u8,
}

pub open spec fn max3(r: int, g: int, b: int) -> int {
    if r >= g && r >= b { r } else if g >= b { g } else { b }
}

pub open spec fn min3(r: int, g: int, b: int) -> int {
    if r <= g && r <= b { r } else if g <= b { g } else { b }
}

impl Rgb8 {
    pub open spec fn max_channel(self) -> int {
        max3(self.r as int, self.g as int, self.b as int)
    }

    pub open spec fn min_channel(self) -> int {
        min3(self.r as int, self.g as int, self.b as int)
    }

    /// `max - min`, the spread of the channels.
    pub open spec fn delta(self) -> int {
        self.max_channel() - self.min_channel()
    }

    pub fn new(r: u8, g: u8, b: u8) -> (c: Rgb8)
        ensures
            c == (Rgb8 { r, g, b }),
    {
        Rgb8 { r, g, b }
    }
}

/// `delta_channel` of the conversion formula, `((max - ch) / 6 + delta / 2) / delta`,
/// in units of `1 / (6 * delta)`.
pub open spec fn channel_part(c: Rgb8, ch: int) -> int {
    c.max_channel() - ch + 3 * c.delta()
}

/// The hue of `c` as a numerator over `6 * c.delta()`, by the six-sector formula:
/// `delta_b - delta_g` when red is the largest channel, `1/3 + delta_r - delta_b`
/// when green is, `2/3 + delta_g - delta_r` when blue is, then brought into
/// `[0, 1]` by adding a full turn when negative and taking one away when above it.
/// A gray color has hue 0.
pub open spec fn hue_sixths(c: Rgb8) -> int {
    let (r, g, b) = (c.r as int, c.g as int, c.b as int);
    let d = c.delta();
    let raw = if r >= g && r >= b {
        channel_part(c, b) - channel_part(c, g)
    } else if g >= r && g >= b {
        2 * d + channel_part(c, r) - channel_part(c, b)
    } else {
        4 * d + channel_part(c, g) - channel_part(c, r)
    };
    if d == 0 {
        0
    } else if raw < 0 {
        raw + 6 * d
    } else if raw > 6 * d {
        raw - 6 * d
    } else {
        raw
    }
}

impl Hsv8 {
    /// Well-formed: a sector of the hexagon, an offset inside it, and a chroma
    /// no larger than the value; a gray color sits at hue 0.
    pub open spec fn wf(self) -> bool {
        &&& self.sector < 6
        &&& self.offset <= self.chroma
        &&& self.chroma <= self.value
        &&& self.chroma == 0 ==> self.sector == 0
    }

    /// Numerator of the hue over `hue_den`.
    pub open spec fn hue_num(self) -> int {
        self.sector as int * self.chroma as int + self.offset as int
    }

    pub open spec fn hue_den(self) -> int {
        6 * self.chroma as int
    }

    /// `v`, `p = v(1 - s)`, `q = v(1 - s f)` and `t = v(1 - s(1 - f))` in units of
    /// 1/255, where `f = offset / chroma` is the position inside the sector.
    pub open spec fn slot_level(self, slot: Slot) -> int {
        match slot {
            Slot::Value => self.value as int,
            Slot::Floor => self.value - self.chroma,
            Slot::Falling => self.value - self.offset,
            Slot::Rising => self.value - self.chroma + self.offset,
        }
    }

    pub fn is_valid(&self) -> (r: bool)
        ensures
            r == self.wf(),
    {
        self.sector < 6 && self.offset <= self.chroma && self.chroma <= self.value && (
        self.chroma != 0 || self.sector == 0)
    }

    /// The color with these parts, if they are well-formed.
    pub fn new(sector: u8, offset: u8, chroma: u8, value: u8) -> (r: Option<Hsv8>)
        ensures
            r is Some <==> (Hsv8 { sector, offset, chroma, value }).wf(),
            r is Some ==> r->0 == (Hsv8 { sector, offset, chroma, value }),
    {
        let h = Hsv8 { sector, offset, chroma, value };
        if h.is_valid() {
            Some(h)
        } else {
            None
        }
    }

    /// Hue as `(numerator, denominator)`, a fraction of the full turn in `[0, 1]`.
    pub fn hue_fraction(&self) -> (r: (u32, u32))
        requires
            self.wf(),
        ensures
            self.chroma > 0 ==> r.0 as int == self.hue_num() && r.1 as int == self.hue_den(),
            self.chroma == 0 ==> r == (0u32, 1u32),
    {
        if self.chroma == 0 {
            (0, 1)
        } else {
            proof {
                assert(self.sector as int * self.chroma as int <= 5 * 255) by (nonlinear_arith)
                    requires
                        self.sector < 6,
                        self.chroma <= 255,
                {
                }
            }
            let num: u32 = self.sector as u32 * self.chroma as u32 + self.offset as u32;
            (num, 6 * self.chroma as u32)
        }
    }

    /// Saturation as `(numerator, denominator)`.
    pub fn saturation_fraction(&self) -> (r: (u8, u8))
        ensures
            self.value > 0 ==> r == (self.chroma, self.value),
            self.value == 0 ==> r == (0u8, 1u8),
    {
        if self.value == 0 {
            (0, 1)
        } else {
            (self.chroma, self.value)
        }
    }
}

/// The exact HSV form of `c`: value is the largest channel, chroma the spread
/// `max - min`, and the hue is split into its sector and the offset inside it.
pub open spec fn hsv_of(c: Rgb8) -> Hsv8 {
    let (r, g, b) = (c.r as int, c.g as int, c.b as int);
    let v = c.max_channel();
    let d = c.delta();
    let (sector, offset) = if d == 0 {
        (0int, 0int)
    } else if r >= g && r >= b {
        if g >= b { (0int, g - b) } else { (5int, r - b) }
    } else if g >= r && g >= b {
        if b >= r { (2int, b - r) } else { (1int, g - r) }
    } else {
        if r >= g { (4int, r - g) } else { (3int, b - g) }
    };
    Hsv8 { sector: sector as u8, offset: offset as u8, chroma: d as u8, value: v as u8 }
}

/// The 8-bit color of a well-formed HSV color, by the hexagon table.
pub open spec fn rgb_of(h: Hsv8) -> Rgb8 {
    let (sr, sg, sb) = slots_spec(h.sector as int);
    Rgb8 {
        r: h.slot_level(sr) as u8,
        g: h.slot_level(sg) as u8,
        b: h.slot_level(sb) as u8,
    }
}

/// The level that a channel in `slot` takes for the well-formed color `h`.
fn slot_level_of(h: &Hsv8, slot: Slot) -> (r: u8)
    requires
        h.wf(),
    ensures
        r as int == h.slot_level(slot),
{
    match slot {
        Slot::Value => h.value,
        Slot::Floor => h.value - h.chroma,
        Slot::Falling => h.value - h.offset,
        Slot::Rising => h.value - h.chroma + h.offset,
    }
}

/// Converts an 8-bit RGB color to HSV, exactly.
///
/// Value is the largest channel and chroma the spread `max - min`, so saturation is
/// `(max - min) / max`; a gray color has hue 0 and saturation 0; otherwise the hue
/// is that of the six-sector formula, in `[0, 1)`.
pub fn rgb_to_hsv(c: Rgb8) -> (h: Hsv8)
    ensures
        h == hsv_of(c),
        h.wf(),
        h.value as int == c.max_channel(),
        h.chroma as int == c.delta(),
        h.hue_num() == hue_sixths(c),
        h.chroma > 0 ==> 0 <= h.hue_num() < h.hue_den(),
{
    proof {
        lemma_hsv_of_formula(c);
    }
    let (r, g, b) = (c.r, c.g, c.b);
    if r == g && r == b {
        Hsv8 { sector: 0, offset: 0, chroma: 0, value: r }
    } else if r >= g && r >= b {
        let min: u8 = if g < b { g } else { b };
        if g >= b {
            Hsv8 { sector: 0, offset: g - b, chroma: r - min, value: r }
        } else {
            Hsv8 { sector: 5, offset: r - b, chroma: r - min, value: r }
        }
    } else if g >= r && g >= b {
        let min: u8 = if r < b { r } else { b };
        if b >= r {
            Hsv8 { sector: 2, offset: b - r, chroma: g - min, value: g }
        } else {
            Hsv8 { sector: 1, offset: g - r, chroma: g - min, value: g }
        }
    } else {
        let min: u8 = if r < g { r } else { g };
        if r >= g {
            Hsv8 { sector: 4, offset: r - g, chroma: b - min, value: b }
        } else {
            Hsv8 { sector: 3, offset: b - g, chroma: b - min, value: b }
        }
    }
}

/// Converts a well-formed HSV color back to 8-bit RGB: a gray color gives
/// `(v, v, v)`; otherwise each channel takes `v`, `p`, `q` or `t` by the
/// hexagon table of its sector.
pub fn hsv_to_rgb(h: Hsv8) -> (c: Rgb8)
    requires
        h.wf(),
    ensures
        c == rgb_of(h),
        h.chroma == 0 ==> c == (Rgb8 { r: h.value, g: h.value, b: h.value }),
{
    if h.chroma == 0 {
        Rgb8 { r: h.value, g: h.value, b: h.value }
    } else {
        let (sr, sg, sb) = sector_slots(h.sector);
        Rgb8 { r: slot_level_of(&h, sr), g: slot_level_of(&h, sg), b: slot_level_of(&h, sb) }
    }
}

/// The exact HSV form follows the conversion formula: it is well-formed, its value
/// is the largest channel, its chroma the spread, and its hue the six-sector hue,
/// which lies in `[0, 1)`.
pub proof fn lemma_hsv_of_formula(c: Rgb8)
    ensures
        hsv_of(c).wf(),
        hsv_of(c).value as int == c.max_channel(),
        hsv_of(c).chroma as int == c.delta(),
        hsv_of(c).hue_num() == hue_sixths(c),
        c.delta() > 0 ==> 0 <= hsv_of(c).hue_num() < hsv_of(c).hue_den(),
{
    let h = hsv_of(c);
    let d = c.delta();
    assert(h.sector as int * d <= 5 * d) by (nonlinear_arith)
        requires
            h.sector <= 5,
            d >= 0,
    ;
    if d > 0 {
        assert(h.hue_num() == h.sector as int * d + h.offset as int);
        assert(h.sector == 0 || h.sector == 1 || h.sector == 2 || h.sector == 3 || h.sector == 4
            || h.sector == 5);
    }
}

/// Round trip: converting an 8-bit color to HSV and back gives the same color.
pub proof fn lemma_round_trip(c: Rgb8)
    ensures
        rgb_of(hsv_of(c)) == c,
{
    lemma_hsv_of_formula(c);
}

/// The two directions agree on the hue sectors: inside a sector, the sector is
/// `floor(6 h)`; at its upper bound (`offset == chroma`, where `floor(6 h)` is the
/// next sector) the table gives the same color as the next sector at offset 0.
pub proof fn lemma_sector_bounds_agree(h: Hsv8)
    requires
        h.wf(),
        h.chroma > 0,
    ensures
        h.offset < h.chroma ==> (6 * h.hue_num()) / h.hue_den() == h.sector,
        h.offset == h.chroma ==> (6 * h.hue_num()) / h.hue_den() == h.sector + 1,
        h.offset == h.chroma ==> rgb_of(h) == rgb_of(
            Hsv8 { sector: ((h.sector + 1) % 6) as u8, offset: 0, ..h },
        ),
{
    let c = h.chroma as int;
    let n = h.hue_num();
    assert(6 * n == (6 * c) * h.sector + 6 * h.offset) by (nonlinear_arith)
        requires
            n == h.sector as int * c + h.offset as int,
    ;
    if h.offset < h.chroma {
        assert(0 <= 6 * h.offset < 6 * c);
        lemma_fundamental_div_mod_converse(6 * n, 6 * c, h.sector as int, 6 * h.offset);
    } else {
        assert(6 * n == (6 * c) * (h.sector + 1) + 0) by (nonlinear_arith)
            requires
                6 * n == (6 * c) * h.sector + 6 * h.offset,
                h.offset as int == c,
        ;
        lemma_fundamental_div_mod_converse(6 * n, 6 * c, h.sector + 1, 0);
    }
}

/// A gray color `(v, v, v)` has hue 0, saturation 0 and value `v`.
pub proof fn lemma_achromatic(v: u8)
    ensures
        hsv_of(Rgb8 { r: v, g: v, b: v }) == (Hsv8 { sector: 0, offset: 0, chroma: 0, value: v }),
{
}

} // verus!
