use vstd::prelude::*;

verus! {

/// One step of the xorshift32 generator (shifts 13, 17, 5).
pub open spec fn xorshift_step(x: u32) -> u32 {
    let a = x ^ ((x << 13u32) as u32);
    let b = a ^ (a >> 17u32);
    b ^ ((b << 5u32) as u32)
}

/// The value drawn from `x` in `[min, max)`, or `min` when the range is empty.
pub open spec fn range_draw(min: u64, max: u64, x: u32) -> u64 {
    if max > min {
        (min + (x as u64) % ((max - min) as u64)) as u64
    } else {
        min
    }
}

/// A small seedable generator: the same seed and the same calls give the
/// same values on every platform.
#[derive(Clone, Copy, Debug)]
pub struct XorShift32 {
    state: u32,
}

impl View for XorShift32 {
    type V = u32;

    closed spec fn view(&self) -> u32 {
        self.state
    }
}

impl XorShift32 {
    /// A generator seeded with `seed`; the seed 0, which xorshift cannot
    /// leave, is taken as 1.
    pub fn new(seed: u32) -> (r: Self)
        ensures
            r@ == if seed == 0 { 1u32 } else { seed },
    {
        XorShift32 { state: if seed == 0 { 1 } else { seed } }
    }

    pub fn next_u32(&mut self) -> (r: u32)
        ensures
            r == xorshift_step(old(self)@),
            final(self)@ == r,
    {
        let mut x = self.state;
        x = x ^ (x << 13u32);
        x = x ^ (x >> 17u32);
        x = x ^ (x << 5u32);
        self.state = x;
        x
    }

    /// A draw in `[min, max)`; `min` when `max <= min`. One value of the
    /// sequence is used in either case.
    pub fn range_u64(&mut self, min: u64, max: u64) -> (r: u64)
        ensures
            final(self)@ == xorshift_step(old(self)@),
            r == range_draw(min, max, final(self)@),
            max > min ==> min <= r < max,
            max <= min ==> r == min,
    {
        let x = self.next_u32();
        if max > min {
            min + (x as u64) % (max - min)
        } else {
            min
        }
    }
}

} // verus!
