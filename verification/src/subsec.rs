use vstd::prelude::*;

verus! {

/// Top byte of a packed sub-second count.
///
/// A nanosecond count is less than 1_000_000_000 = 0x3B9A_CA00, so the most
/// significant byte of its four-byte representation is at most 0x3B (59).
/// Listing the 64 byte values that can legally occur as a closed enum leaves
/// the byte values 64..=255 structurally unreachable, which lets the compiler
/// pack the discriminant of an enclosing `Option` or `Result` into this byte
/// instead of adding a separate tag field.
#[derive(Clone, Copy, Debug, PartialEq, Eq, PartialOrd, Ord, Hash)]
enum MaxByte {
    V0,
    V1,
    V2,
    V3,
    V4,
    V5,
    V6,
    V7,
    V8,
    V9,
    V10,
    V11,
    V12,
    V13,
    V14,
    V15,
    V16,
    V17,
    V18,
    V19,
    V20,
    V21,
    V22,
    V23,
    V24,
    V25,
    V26,
    V27,
    V28,
    V29,
    V30,
    V31,
    V32,
    V33,
    V34,
    V35,
    V36,
    V37,
    V38,
    V39,
    V40,
    V41,
    V42,
    V43,
    V44,
    V45,
    V46,
    V47,
    V48,
    V49,
    V50,
    V51,
    V52,
    V53,
    V54,
    V55,
    V56,
    V57,
    V58,
    V59,
    V60,
    V61,
    V62,
    V63,
}

impl MaxByte {
    /// The numeric value this top byte stands for.
    spec fn value(self) -> u32 {
        match self {
            MaxByte::V0 => 0,
            MaxByte::V1 => 1,
            MaxByte::V2 => 2,
            MaxByte::V3 => 3,
            MaxByte::V4 => 4,
            MaxByte::V5 => 5,
            MaxByte::V6 => 6,
            MaxByte::V7 => 7,
            MaxByte::V8 => 8,
            MaxByte::V9 => 9,
            MaxByte::V10 => 10,
            MaxByte::V11 => 11,
            MaxByte::V12 => 12,
            MaxByte::V13 => 13,
            MaxByte::V14 => 14,
            MaxByte::V15 => 15,
            MaxByte::V16 => 16,
            MaxByte::V17 => 17,
            MaxByte::V18 => 18,
            MaxByte::V19 => 19,
            MaxByte::V20 => 20,
            MaxByte::V21 => 21,
            MaxByte::V22 => 22,
            MaxByte::V23 => 23,
            MaxByte::V24 => 24,
            MaxByte::V25 => 25,
            MaxByte::V26 => 26,
            MaxByte::V27 => 27,
            MaxByte::V28 => 28,
            MaxByte::V29 => 29,
            MaxByte::V30 => 30,
            MaxByte::V31 => 31,
            MaxByte::V32 => 32,
            MaxByte::V33 => 33,
            MaxByte::V34 => 34,
            MaxByte::V35 => 35,
            MaxByte::V36 => 36,
            MaxByte::V37 => 37,
            MaxByte::V38 => 38,
            MaxByte::V39 => 39,
            MaxByte::V40 => 40,
            MaxByte::V41 => 41,
            MaxByte::V42 => 42,
            MaxByte::V43 => 43,
            MaxByte::V44 => 44,
            MaxByte::V45 => 45,
            MaxByte::V46 => 46,
            MaxByte::V47 => 47,
            MaxByte::V48 => 48,
            MaxByte::V49 => 49,
            MaxByte::V50 => 50,
            MaxByte::V51 => 51,
            MaxByte::V52 => 52,
            MaxByte::V53 => 53,
            MaxByte::V54 => 54,
            MaxByte::V55 => 55,
            MaxByte::V56 => 56,
            MaxByte::V57 => 57,
            MaxByte::V58 => 58,
            MaxByte::V59 => 59,
            MaxByte::V60 => 60,
            MaxByte::V61 => 61,
            MaxByte::V62 => 62,
            MaxByte::V63 => 63,
        }
    }

    /// Read the numeric value of the top byte.
    fn get(self) -> (r: u32)
        ensures
            r == self.value(),
    {
        match self {
            MaxByte::V0 => 0,
            MaxByte::V1 => 1,
            MaxByte::V2 => 2,
            MaxByte::V3 => 3,
            MaxByte::V4 => 4,
            MaxByte::V5 => 5,
            MaxByte::V6 => 6,
            MaxByte::V7 => 7,
            MaxByte::V8 => 8,
            MaxByte::V9 => 9,
            MaxByte::V10 => 10,
            MaxByte::V11 => 11,
            MaxByte::V12 => 12,
            MaxByte::V13 => 13,
            MaxByte::V14 => 14,
            MaxByte::V15 => 15,
            MaxByte::V16 => 16,
            MaxByte::V17 => 17,
            MaxByte::V18 => 18,
            MaxByte::V19 => 19,
            MaxByte::V20 => 20,
            MaxByte::V21 => 21,
            MaxByte::V22 => 22,
            MaxByte::V23 => 23,
            MaxByte::V24 => 24,
            MaxByte::V25 => 25,
            MaxByte::V26 => 26,
            MaxByte::V27 => 27,
            MaxByte::V28 => 28,
            MaxByte::V29 => 29,
            MaxByte::V30 => 30,
            MaxByte::V31 => 31,
            MaxByte::V32 => 32,
            MaxByte::V33 => 33,
            MaxByte::V34 => 34,
            MaxByte::V35 => 35,
            MaxByte::V36 => 36,
            MaxByte::V37 => 37,
            MaxByte::V38 => 38,
            MaxByte::V39 => 39,
            MaxByte::V40 => 40,
            MaxByte::V41 => 41,
            MaxByte::V42 => 42,
            MaxByte::V43 => 43,
            MaxByte::V44 => 44,
            MaxByte::V45 => 45,
            MaxByte::V46 => 46,
            MaxByte::V47 => 47,
            MaxByte::V48 => 48,
            MaxByte::V49 => 49,
            MaxByte::V50 => 50,
            MaxByte::V51 => 51,
            MaxByte::V52 => 52,
            MaxByte::V53 => 53,
            MaxByte::V54 => 54,
            MaxByte::V55 => 55,
            MaxByte::V56 => 56,
            MaxByte::V57 => 57,
            MaxByte::V58 => 58,
            MaxByte::V59 => 59,
            MaxByte::V60 => 60,
            MaxByte::V61 => 61,
            MaxByte::V62 => 62,
            MaxByte::V63 => 63,
        }
    }

    /// The top byte standing for a value below 64.
    fn from_u32(v: u32) -> (r: MaxByte)
        requires
            v < 64,
        ensures
            r.value() == v,
    {
        match v {
            0 => MaxByte::V0,
            1 => MaxByte::V1,
            2 => MaxByte::V2,
            3 => MaxByte::V3,
            4 => MaxByte::V4,
            5 => MaxByte::V5,
            6 => MaxByte::V6,
            7 => MaxByte::V7,
            8 => MaxByte::V8,
            9 => MaxByte::V9,
            10 => MaxByte::V10,
            11 => MaxByte::V11,
            12 => MaxByte::V12,
            13 => MaxByte::V13,
            14 => MaxByte::V14,
            15 => MaxByte::V15,
            16 => MaxByte::V16,
            17 => MaxByte::V17,
            18 => MaxByte::V18,
            19 => MaxByte::V19,
            20 => MaxByte::V20,
            21 => MaxByte::V21,
            22 => MaxByte::V22,
            23 => MaxByte::V23,
            24 => MaxByte::V24,
            25 => MaxByte::V25,
            26 => MaxByte::V26,
            27 => MaxByte::V27,
            28 => MaxByte::V28,
            29 => MaxByte::V29,
            30 => MaxByte::V30,
            31 => MaxByte::V31,
            32 => MaxByte::V32,
            33 => MaxByte::V33,
            34 => MaxByte::V34,
            35 => MaxByte::V35,
            36 => MaxByte::V36,
            37 => MaxByte::V37,
            38 => MaxByte::V38,
            39 => MaxByte::V39,
            40 => MaxByte::V40,
            41 => MaxByte::V41,
            42 => MaxByte::V42,
            43 => MaxByte::V43,
            44 => MaxByte::V44,
            45 => MaxByte::V45,
            46 => MaxByte::V46,
            47 => MaxByte::V47,
            48 => MaxByte::V48,
            49 => MaxByte::V49,
            50 => MaxByte::V50,
            51 => MaxByte::V51,
            52 => MaxByte::V52,
            53 => MaxByte::V53,
            54 => MaxByte::V54,
            55 => MaxByte::V55,
            56 => MaxByte::V56,
            57 => MaxByte::V57,
            58 => MaxByte::V58,
            59 => MaxByte::V59,
            60 => MaxByte::V60,
            61 => MaxByte::V61,
            62 => MaxByte::V62,
            _ => MaxByte::V63,
        }
    }
}

/// An unsigned integer less than 1_000_000_000, stored base-256 in four bytes.
///
/// The most significant byte is a [`MaxByte`], so a well-formed value leaves
/// a niche for an enclosing `Option` or `Result`: `Option<U30>` is exactly as
/// large as `U30`, and the same holds for any type that embeds a `U30`.
/// The zero-length array pins the alignment to that of a plain `u32`.
#[derive(Clone, Copy, Debug, PartialEq, Eq, PartialOrd, Ord, Hash)]
pub struct U30 {
    align: [u32; 0],
    top: MaxByte,
    hi: u8,
    mid: u8,
    lo: u8,
}

impl View for U30 {
    type V = int;

    closed spec fn view(&self) -> int {
        self.top.value() * 0x100_0000 + self.hi * 0x1_0000 + self.mid * 0x100 + self.lo
    }
}

impl U30 {
    /// Every well-formed `U30` holds a value in the nanosecond domain.
    #[verifier::type_invariant]
    spec fn inv(self) -> bool {
        0 <= self@ < 1_000_000_000
    }

    /// Pack a nanosecond count. The caller guarantees the range; a rogue
    /// unverified caller trips the guard instead of breaking the invariant.
    pub fn new_unchecked(v: u32) -> (r: Self)
        requires
            v < 1_000_000_000,
        ensures
            r@ == v,
    {
        if v >= 1_000_000_000 {
            return vstd::pervasive::unreached();
        }
        let q1: u32 = v / 0x100;
        let q2: u32 = q1 / 0x100;
        let q3: u32 = q2 / 0x100;
        let r = U30 {
            align: [],
            top: MaxByte::from_u32(q3),
            hi: (q2 % 0x100) as u8,
            mid: (q1 % 0x100) as u8,
            lo: (v % 0x100) as u8,
        };
        r
    }

    /// Unpack the stored nanosecond count.
    pub fn get(self) -> (r: u32)
        ensures
            r == self@,
            r < 1_000_000_000,
    {
        proof {
            use_type_invariant(self);
        }
        self.top.get() * 0x100_0000 + (self.hi as u32) * 0x1_0000 + (self.mid as u32) * 0x100
            + (self.lo as u32)
    }

    /// The zero count.
    pub fn zero() -> (r: Self)
        ensures
            r@ == 0,
    {
        U30 { align: [], top: MaxByte::V0, hi: 0, mid: 0, lo: 0 }
    }
}

impl Default for U30 {
    /// The additive identity.
    fn default() -> (r: Self)
        ensures
            r@ == 0,
    {
        U30::zero()
    }
}

} // verus!
