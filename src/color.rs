use vstd::prelude::*;

verus! {

/// An RGB color: red, green and blue, in that order. The component type is the
/// caller's (the floating-point API uses `f64` in `[0, 1]`); nothing is checked
/// at construction.
pub struct Rgbf<T>(pub T, pub T, pub T);

/// An HSV color: hue, saturation and value, in that order. Only saturation and
/// value are ever changed in place; hue never is.
pub struct Hsv<T>(pub T, pub T, pub T);

impl<T: Copy> Rgbf<T> {
    pub fn new(r: T, g: T, b: T) -> (c: Rgbf<T>)
        ensures
            c.0 == r && c.1 == g && c.2 == b,
    {
        Rgbf(r, g, b)
    }

    pub fn into_tuple(self) -> (t: (T, T, T))
        ensures
            t == (self.0, self.1, self.2),
    {
        (self.0, self.1, self.2)
    }

    pub fn to_tuple(&self) -> (t: (T, T, T))
        ensures
            t == (self.0, self.1, self.2),
    {
        (self.0, self.1, self.2)
    }
}

impl<T: Copy> Hsv<T> {
    pub fn new(hsv: (T, T, T)) -> (c: Hsv<T>)
        ensures
            c.0 == hsv.0 && c.1 == hsv.1 && c.2 == hsv.2,
    {
        Hsv(hsv.0, hsv.1, hsv.2)
    }

    /// Replaces saturation and value; hue is kept.
    pub fn set(&mut self, s: T, v: T)
        ensures
            final(self).0 == old(self).0,
            final(self).1 == s,
            final(self).2 == v,
    {
        self.1 = s;
        self.2 = v;
    }

    pub fn into_tuple(self) -> (t: (T, T, T))
        ensures
            t == (self.0, self.1, self.2),
    {
        (self.0, self.1, self.2)
    }

    pub fn to_tuple(&self) -> (t: (T, T, T))
        ensures
            t == (self.0, self.1, self.2),
    {
        (self.0, self.1, self.2)
    }
}

} // verus!
