use vstd::prelude::*;

verus! {

/// `rand::random` draws a value from the uniform distribution of its type;
/// nothing is known of which value comes.
pub assume_specification<T>[ rand::random::<T> ]() -> T
    where
        rand::distr::StandardUniform: rand::distr::Distribution<T>,
;

/// A truecolor value: red, green and blue channels.
#[derive(Clone, Copy, Debug, PartialEq, Eq, Structural)]
pub struct Rgb {
    pub r: u8,
    pub g: u8,
    pub b: u8,
}

/// One channel of `a` and `b` mixed in the ratio `num / den` towards `b`,
/// rounded down: `((den - num) * a + num * b) / den`.
pub open spec fn mix_channel(a: u8, b: u8, num: u32, den: u32) -> int {
    ((den - num) * a + num * b) / (den as int)
}

/// `a` and `b` mixed channel by channel in the ratio `num / den`.
pub open spec fn mix_rgb(a: Rgb, b: Rgb, num: u32, den: u32) -> Rgb {
    Rgb {
        r: mix_channel(a.r, b.r, num, den) as u8,
        g: mix_channel(a.g, b.g, num, den) as u8,
        b: mix_channel(a.b, b.b, num, den) as u8,
    }
}

fn mix_channel_exec(a: u8, b: u8, num: u32, den: u32) -> (r: u8)
    requires
        0 < den,
        num <= den,
    ensures
        r == mix_channel(a, b, num, den),
{
    let rest = (den - num) as u64;
    assert(rest * (a as u64) <= 0xFFFF_FFFF * 255) by (nonlinear_arith)
        requires
            rest <= 0xFFFF_FFFF,
            a <= 255,
    ;
    assert((num as u64) * (b as u64) <= 0xFFFF_FFFF * 255) by (nonlinear_arith)
        requires
            num <= 0xFFFF_FFFF,
            b <= 255,
    ;
    let part = rest * (a as u64) + (num as u64) * (b as u64);
    let q = part / (den as u64);
    assert(q <= 255) by (nonlinear_arith)
        requires
            q == part / (den as u64),
            part == rest * a + num * b,
            rest + num == den,
            den > 0,
            a <= 255,
            b <= 255,
    ;
    q as u8
}

impl Rgb {
    pub fn new(r: u8, g: u8, b: u8) -> (c: Rgb)
        ensures
            c == (Rgb { r, g, b }),
    {
        Rgb { r, g, b }
    }

    /// Black, `(0, 0, 0)`.
    pub fn black() -> (c: Rgb)
        ensures
            c == (Rgb { r: 0, g: 0, b: 0 }),
    {
        Rgb { r: 0, g: 0, b: 0 }
    }

    /// White, `(255, 255, 255)`.
    pub fn white() -> (c: Rgb)
        ensures
            c == (Rgb { r: 255, g: 255, b: 255 }),
    {
        Rgb { r: 255, g: 255, b: 255 }
    }

    /// Red, `(255, 0, 0)`.
    pub fn red() -> (c: Rgb)
        ensures
            c == (Rgb { r: 255, g: 0, b: 0 }),
    {
        Rgb { r: 255, g: 0, b: 0 }
    }

    /// Green, `(0, 255, 0)`.
    pub fn green() -> (c: Rgb)
        ensures
            c == (Rgb { r: 0, g: 255, b: 0 }),
    {
        Rgb { r: 0, g: 255, b: 0 }
    }

    /// Blue, `(0, 0, 255)`.
    pub fn blue() -> (c: Rgb)
        ensures
            c == (Rgb { r: 0, g: 0, b: 255 }),
    {
        Rgb { r: 0, g: 0, b: 255 }
    }

    /// A colour with each channel drawn uniformly at random.
    pub fn random() -> (c: Rgb) {
        let r: u8 = rand::random::<u8>();
        let g: u8 = rand::random::<u8>();
        let b: u8 = rand::random::<u8>();
        Rgb { r, g, b }
    }

    /// Interpolates each channel from `self` (ratio 0) to `other` (ratio 1),
    /// the ratio being `num / den`; the result is rounded down.
    pub fn mix(&self, other: Rgb, num: u32, den: u32) -> (c: Rgb)
        requires
            0 < den,
            num <= den,
        ensures
            c.r == mix_channel(self.r, other.r, num, den),
            c.g == mix_channel(self.g, other.g, num, den),
            c.b == mix_channel(self.b, other.b, num, den),
            c == mix_rgb(*self, other, num, den),
    {
        Rgb {
            r: mix_channel_exec(self.r, other.r, num, den),
            g: mix_channel_exec(self.g, other.g, num, den),
            b: mix_channel_exec(self.b, other.b, num, den),
        }
    }
}

} // verus!
