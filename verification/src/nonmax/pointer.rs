//! The pointer-width member of the family.

use std::cmp::Ordering;
use vstd::prelude::*;
use vstd::std_specs::cmp::{PartialEqSpec, PartialOrdSpec};
use vstd::std_specs::convert::TryFromSpec;

use crate::nonmax::byte::NonMaxU8;
use crate::nonmax::RangeError;

verus! {

/// `usize` with a niche for its maximum values.
///
/// The illegal values are those from `255 << (usize::BITS - 8)` up: the ones
/// whose most significant byte is `0xFF`. That byte is held as a
/// [`NonMaxU8`], so the whole type has a niche. The type is laid out for
/// 64-bit targets, where it is as large as `usize`; where `usize` has 32
/// bits its values are still right, in the first three of the other bytes.
#[derive(Clone, Copy, Debug, Eq, Ord)]
pub struct NonMaxUsize {
    top: NonMaxU8,
    bottom: [u8; 7],
    align: [usize; 0],
}

impl View for NonMaxUsize {
    type V = nat;

    /// The number that the bytes stand for, most significant byte first.
    closed spec fn view(&self) -> nat {
        if usize::BITS == 64 {
            ((((((((self.top@) * 256 + self.bottom[0]) * 256 + self.bottom[1]) * 256 + self.bottom[2]) * 256 + self.bottom[3]) * 256 + self.bottom[4]) * 256 + self.bottom[5]) * 256 + self.bottom[6]) as nat
        } else {
            ((((self.top@) * 256 + self.bottom[0]) * 256 + self.bottom[1]) * 256 + self.bottom[2]) as nat
        }
    }
}

impl NonMaxUsize {
    /// Maximum value representable by this type.
    pub const MAX: usize = (usize::MAX / 256 + 1) * 255 - 1;

    /// The value that stands for `n`, for `n` up to `MAX`.
    pub closed spec fn from_value(n: usize) -> Self {
        if usize::BITS == 64 {
            let q1 = n / 256;
            let q2 = q1 / 256;
            let q3 = q2 / 256;
            let q4 = q3 / 256;
            let q5 = q4 / 256;
            let q6 = q5 / 256;
            let q7 = q6 / 256;
            NonMaxUsize {
                top: NonMaxU8::from_value(q7 as u8),
                bottom: [(q6 % 256) as u8, (q5 % 256) as u8, (q4 % 256) as u8, (q3 % 256) as u8, (q2 % 256) as u8, (q1 % 256) as u8, (n % 256) as u8],
                align: [],
            }
        } else {
            let q1 = n / 256;
            let q2 = q1 / 256;
            let q3 = q2 / 256;
            NonMaxUsize {
                top: NonMaxU8::from_value(q3 as u8),
                bottom: [(q2 % 256) as u8, (q1 % 256) as u8, (n % 256) as u8, 0, 0, 0, 0],
                align: [],
            }
        }
    }

    /// Create a `NonMaxUsize` from a `usize`.
    ///
    /// Stops the program if `n` is greater than `MAX`; verified callers
    /// show that it is not.
    pub fn new(n: usize) -> (r: Self)
        requires
            n <= Self::MAX,
        ensures
            r@ == n,
            r == Self::from_value(n),
    {
        vstd::pervasive::runtime_assert(n <= Self::MAX);
        Self::new_unchecked(n)
    }

    /// Create a `NonMaxUsize` from a `usize` that the caller knows to be legal.
    pub fn new_unchecked(n: usize) -> (r: Self)
        requires
            n <= Self::MAX,
        ensures
            r@ == n,
            r == Self::from_value(n),
    {
        if usize::BITS == 64 {
            let b6: u8 = (n % 256) as u8;
            let q1: usize = n / 256;
            let b5: u8 = (q1 % 256) as u8;
            let q2: usize = q1 / 256;
            let b4: u8 = (q2 % 256) as u8;
            let q3: usize = q2 / 256;
            let b3: u8 = (q3 % 256) as u8;
            let q4: usize = q3 / 256;
            let b2: u8 = (q4 % 256) as u8;
            let q5: usize = q4 / 256;
            let b1: u8 = (q5 % 256) as u8;
            let q6: usize = q5 / 256;
            let b0: u8 = (q6 % 256) as u8;
            let q7: usize = q6 / 256;
            NonMaxUsize { top: NonMaxU8::new_unchecked(q7 as u8), bottom: [b0, b1, b2, b3, b4, b5, b6], align: [] }
        } else {
            let b2: u8 = (n % 256) as u8;
            let q1: usize = n / 256;
            let b1: u8 = (q1 % 256) as u8;
            let q2: usize = q1 / 256;
            let b0: u8 = (q2 % 256) as u8;
            let q3: usize = q2 / 256;
            NonMaxUsize { top: NonMaxU8::new_unchecked(q3 as u8), bottom: [b0, b1, b2, 0, 0, 0, 0], align: [] }
        }
    }

    /// The text of the number, as `usize` prints it.
    pub fn to_string(&self) -> (s: String)
        ensures
            vstd::string::to_string_from_display_ensures::<usize>(&(self@ as usize), s),
    {
        self.to_native().to_string()
    }

    /// Convert to `usize`.
    pub fn to_native(self) -> (n: usize)
        ensures
            n == self@,
            n <= Self::MAX,
    {
        if usize::BITS == 64 {
            let mut n: usize = self.top.to_native() as usize;
            n = n * 256 + self.bottom[0] as usize;
            n = n * 256 + self.bottom[1] as usize;
            n = n * 256 + self.bottom[2] as usize;
            n = n * 256 + self.bottom[3] as usize;
            n = n * 256 + self.bottom[4] as usize;
            n = n * 256 + self.bottom[5] as usize;
            n = n * 256 + self.bottom[6] as usize;
            n
        } else {
            let mut n: usize = self.top.to_native() as usize;
            n = n * 256 + self.bottom[0] as usize;
            n = n * 256 + self.bottom[1] as usize;
            n = n * 256 + self.bottom[2] as usize;
            n
        }
    }
}

impl PartialEq for NonMaxUsize {
    /// Two values are equal when they stand for the same number.
    fn eq(&self, other: &Self) -> (r: bool) {
        self.to_native() == other.to_native()
    }
}

impl vstd::std_specs::cmp::PartialEqSpecImpl for NonMaxUsize {
    open spec fn obeys_eq_spec() -> bool {
        true
    }

    open spec fn eq_spec(&self, other: &Self) -> bool {
        self@ == other@
    }
}

impl PartialOrd for NonMaxUsize {
    /// The order is that of the numbers the values stand for.
    fn partial_cmp(&self, other: &Self) -> (r: Option<Ordering>) {
        let a: usize = self.to_native();
        let b: usize = other.to_native();
        if a < b {
            Some(Ordering::Less)
        } else if a == b {
            Some(Ordering::Equal)
        } else {
            Some(Ordering::Greater)
        }
    }
}

impl vstd::std_specs::cmp::PartialOrdSpecImpl for NonMaxUsize {
    open spec fn obeys_partial_cmp_spec() -> bool {
        true
    }

    open spec fn partial_cmp_spec(&self, other: &Self) -> Option<Ordering> {
        if self@ < other@ {
            Some(Ordering::Less)
        } else if self@ == other@ {
            Some(Ordering::Equal)
        } else {
            Some(Ordering::Greater)
        }
    }
}

impl From<NonMaxUsize> for usize {
    /// Convert to `usize`.
    fn from(n: NonMaxUsize) -> (r: usize) {
        n.to_native()
    }
}

impl vstd::std_specs::convert::FromSpecImpl<NonMaxUsize> for usize {
    open spec fn obeys_from_spec() -> bool {
        true
    }

    open spec fn from_spec(n: NonMaxUsize) -> usize {
        n@ as usize
    }
}

impl TryFrom<usize> for NonMaxUsize {
    type Error = RangeError;

    /// Convert from `usize`, or say that `n` is out of range.
    fn try_from(n: usize) -> (r: Result<Self, RangeError>) {
        if n <= Self::MAX {
            Ok(Self::new_unchecked(n))
        } else {
            Err(RangeError)
        }
    }
}

impl vstd::std_specs::convert::TryFromSpecImpl<usize> for NonMaxUsize {
    open spec fn obeys_try_from_spec() -> bool {
        true
    }

    open spec fn try_from_spec(n: usize) -> Result<Self, RangeError> {
        if n <= Self::MAX {
            Ok(Self::from_value(n))
        } else {
            Err(RangeError)
        }
    }
}

impl NonMaxUsize {
    /// Round trip: the value made from a legal `n` stands for `n`.
    pub proof fn round_trip(n: usize)
        requires
            n <= Self::MAX,
        ensures
            Self::from_value(n)@ == n,
    {
        if usize::BITS == 64 {
            let q1 = n / 256;
            let q2 = q1 / 256;
            let q3 = q2 / 256;
            let q4 = q3 / 256;
            let q5 = q4 / 256;
            let q6 = q5 / 256;
            let q7 = q6 / 256;
            NonMaxU8::round_trip(q7 as u8);
        } else {
            let q1 = n / 256;
            let q2 = q1 / 256;
            let q3 = q2 / 256;
            NonMaxU8::round_trip(q3 as u8);
        }
    }

    /// Range: whatever the value, the number it stands for is legal.
    pub proof fn in_range(self)
        ensures
            self@ <= Self::MAX,
    {
        self.top.in_range();
    }

    /// Rejection: the fallible conversion fails on exactly the numbers above
    /// `MAX`, and on the others gives the value that stands for the number.
    pub proof fn rejection(n: usize)
        ensures
            n > Self::MAX <==> Self::try_from_spec(n) is Err,
            n <= Self::MAX ==> Self::try_from_spec(n) == Ok::<Self, RangeError>(Self::from_value(n)),
            n <= Self::MAX ==> Self::try_from_spec(n)->Ok_0@ == n,
    {
        if n <= Self::MAX {
            Self::round_trip(n);
        }
    }

    /// Order preservation: two values made from legal numbers compare as the
    /// numbers do, and are equal exactly when the numbers are.
    pub proof fn order_preserved(a: usize, b: usize)
        requires
            a <= Self::MAX,
            b <= Self::MAX,
        ensures
            Self::from_value(a).eq_spec(&Self::from_value(b)) <==> a == b,
            Self::from_value(a).partial_cmp_spec(&Self::from_value(b)) == Some(Ordering::Less) <==> a < b,
            Self::from_value(a).partial_cmp_spec(&Self::from_value(b)) == Some(Ordering::Equal) <==> a == b,
            Self::from_value(a).partial_cmp_spec(&Self::from_value(b)) == Some(Ordering::Greater) <==> a > b,
    {
        Self::round_trip(a);
        Self::round_trip(b);
    }

    /// `MAX` is one below `255 << (usize::BITS - 8)`, and the legal numbers
    /// are those whose most significant byte is not `0xFF`.
    pub proof fn niche(n: usize)
        ensures
            usize::BITS == 32 ==> Self::MAX == (255usize << 24) - 1,
            usize::BITS == 32 ==> (n <= Self::MAX <==> (n >> 24) != 0xFF),
            usize::BITS == 64 ==> Self::MAX == (255usize << 56) - 1,
            usize::BITS == 64 ==> (n <= Self::MAX <==> (n >> 56) != 0xFF),
    {
        assert(usize::BITS == 32 ==> (255usize << 24) == 0xFF00_0000) by (bit_vector);
        assert(usize::BITS == 64 ==> (255usize << 56) == 0xFF00_0000_0000_0000) by (bit_vector);
        assert(usize::BITS == 32 ==> (n < 0xFF00_0000 <==> (n >> 24) != 0xFF)) by (bit_vector);
        assert(usize::BITS == 64 ==> (n < 0xFF00_0000_0000_0000 <==> (n >> 56) != 0xFF)) by (bit_vector);
    }
}

} // verus!
