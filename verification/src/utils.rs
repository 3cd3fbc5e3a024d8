use vstd::prelude::*;

verus! {

/// Unsigned ("logical") right shift of a signed byte: the bits of `self`, read as unsigned,
/// shifted right by `n`.
pub trait I8MathExt {
    fn ushr(self, n: u32) -> u8
        requires
            1 < n < 8,
    ;
}

/// Unsigned right shift of a signed half-word.
pub trait I16MathExt {
    fn ushr(self, n: u32) -> u16
        requires
            1 < n < 16,
    ;
}

/// Right shifts of an unsigned half-word (both are logical on an unsigned value).
pub trait U16MathExt {
    fn shr(self, n: u32) -> u16
        requires
            n < 16,
    ;

    fn ushr(self, n: u32) -> u16
        requires
            n < 16,
    ;
}

/// Unsigned right shift of a signed word.
pub trait I32MathExt {
    fn ushr(self, n: u32) -> u32
        requires
            1 < n < 32,
    ;
}

impl I8MathExt for i8 {
    fn ushr(self, n: u32) -> (r: u8)
        ensures
            r == (self as u8) >> n,
    {
        let x = self;
        assert((((x >> n) & (((1i8 << ((8 - n) as u32)) - 1) as i8)) as u8) == (x as u8) >> n) by (bit_vector)
            requires
                1 < n < 8,
        ;
        assert((1i8 << ((8 - n) as u32)) >= 1) by (bit_vector)
            requires
                1 < n < 8,
        ;
        ((self >> n) & ((1i8 << (8 - n)) - 1)) as u8
    }
}

impl I16MathExt for i16 {
    fn ushr(self, n: u32) -> (r: u16)
        ensures
            r == (self as u16) >> n,
    {
        let x = self;
        assert((((x >> n) & (((1i16 << ((16 - n) as u32)) - 1) as i16)) as u16) == (x as u16) >> n) by (bit_vector)
            requires
                1 < n < 16,
        ;
        assert((1i16 << ((16 - n) as u32)) >= 1) by (bit_vector)
            requires
                1 < n < 16,
        ;
        ((self >> n) & ((1i16 << (16 - n)) - 1)) as u16
    }
}

impl U16MathExt for u16 {
    fn shr(self, n: u32) -> (r: u16)
        ensures
            r == self >> n,
    {
        self >> n
    }

    fn ushr(self, n: u32) -> (r: u16)
        ensures
            r == self >> n,
    {
        self >> n
    }
}

impl I32MathExt for i32 {
    fn ushr(self, n: u32) -> (r: u32)
        ensures
            r == (self as u32) >> n,
    {
        let x = self;
        assert((((x >> n) & (((1i32 << ((32 - n) as u32)) - 1) as i32)) as u32) == (x as u32) >> n) by (bit_vector)
            requires
                1 < n < 32,
        ;
        assert((1i32 << ((32 - n) as u32)) >= 1) by (bit_vector)
            requires
                1 < n < 32,
        ;
        ((self >> n) & ((1i32 << (32 - n)) - 1)) as u32
    }
}

} // verus!
