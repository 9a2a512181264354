use vstd::prelude::*;

verus! {

/// The number of equal steps a gradient of `count` patches is divided into:
/// `count` itself, or 1 for an empty request so that no division by zero occurs.
pub open spec fn divisor_spec(count: u16) -> nat {
    if count == 0 { 1 } else { count as nat }
}

/// Step count of a gradient, guarded against the empty request.
pub fn gradient_divisor(count: u16) -> (r: u16)
    ensures
        r as nat == divisor_spec(count),
        r >= 1,
{
    if count == 0 { 1 } else { count }
}

/// The positions of a gradient of `count` patches, each as the fraction
/// `(i, divisor)` of the way from the first color to the second, for `i` in
/// `0..count`: evenly spaced, ascending, the second color itself never reached.
pub open spec fn positions_spec(count: u16) -> Seq<(u16, u16)> {
    Seq::new(count as nat, |i: int| (i as u16, divisor_spec(count) as u16))
}

/// The positions at which a gradient of `count` patches samples the straight
/// line between its two colors: patch `i` lies at `i / count` of the way.
pub fn gradient_positions(count: u16) -> (r: Vec<(u16, u16)>)
    ensures
        r@ == positions_spec(count),
{
    let divisor = gradient_divisor(count);
    let mut r: Vec<(u16, u16)> = Vec::with_capacity(count as usize);
    let mut i: u16 = 0;
    while i < count
        invariant
            i <= count,
            divisor as nat == divisor_spec(count),
            r@ =~= positions_spec(count).take(i as int),
        decreases count - i,
    {
        r.push((i, divisor));
        i = i + 1;
    }
    assert(r@ =~= positions_spec(count));
    r
}

/// A gradient has exactly `count` patches; the first lies on the first color;
/// and patch `i` lies at `i / count` of the way to the second color.
pub proof fn lemma_gradient_shape(count: u16)
    ensures
        positions_spec(count).len() == count,
        count > 0 ==> positions_spec(count)[0].0 == 0,
        forall|i: int|
            0 <= i < count ==> #[trigger] positions_spec(count)[i] == (i as u16, count),
{
}

} // verus!
