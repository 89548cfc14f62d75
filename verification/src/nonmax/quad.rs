//! The 16-byte member of the family.

use std::cmp::Ordering;
use vstd::prelude::*;
use vstd::std_specs::cmp::{PartialEqSpec, PartialOrdSpec};
use vstd::std_specs::convert::TryFromSpec;

use crate::nonmax::byte::NonMaxU8;
use crate::nonmax::RangeError;

verus! {

/// `u128` with a niche for its maximum values.
///
/// The illegal values are those from `255 << 120` up: the ones whose most
/// significant byte is `0xFF`. That byte is held as a [`NonMaxU8`], so the
/// whole type has a niche, and `Option<NonMaxU128>` is no larger than `u128`.
#[derive(Clone, Copy, Debug, Eq, Ord)]
pub struct NonMaxU128 {
    top: NonMaxU8,
    bottom: [u8; 15],
    align: [u128; 0],
}

impl View for NonMaxU128 {
    type V = nat;

    /// The number that the bytes stand for, most significant byte first.
    closed spec fn view(&self) -> nat {
        ((((((((((((((((self.top@) * 256 + self.bottom[0]) * 256 + self.bottom[1]) * 256 + self.bottom[2]) * 256 + self.bottom[3]) * 256 + self.bottom[4]) * 256 + self.bottom[5]) * 256 + self.bottom[6]) * 256 + self.bottom[7]) * 256 + self.bottom[8]) * 256 + self.bottom[9]) * 256 + self.bottom[10]) * 256 + self.bottom[11]) * 256 + self.bottom[12]) * 256 + self.bottom[13]) * 256 + self.bottom[14]) as nat
    }
}

impl NonMaxU128 {
    /// Maximum value representable by this type.
    pub const MAX: u128 = 338953138925153547590470800371487866879;

    /// The value that stands for `n`, for `n` up to `MAX`.
    pub closed spec fn from_value(n: u128) -> Self {
        let q1 = n / 256;
        let q2 = q1 / 256;
        let q3 = q2 / 256;
        let q4 = q3 / 256;
        let q5 = q4 / 256;
        let q6 = q5 / 256;
        let q7 = q6 / 256;
        let q8 = q7 / 256;
        let q9 = q8 / 256;
        let q10 = q9 / 256;
        let q11 = q10 / 256;
        let q12 = q11 / 256;
        let q13 = q12 / 256;
        let q14 = q13 / 256;
        let q15 = q14 / 256;
        NonMaxU128 {
            top: NonMaxU8::from_value(q15 as u8),
            bottom: [(q14 % 256) as u8, (q13 % 256) as u8, (q12 % 256) as u8, (q11 % 256) as u8, (q10 % 256) as u8, (q9 % 256) as u8, (q8 % 256) as u8, (q7 % 256) as u8, (q6 % 256) as u8, (q5 % 256) as u8, (q4 % 256) as u8, (q3 % 256) as u8, (q2 % 256) as u8, (q1 % 256) as u8, (n % 256) as u8],
            align: [],
        }
    }

    /// Create a `NonMaxU128` from a `u128`.
    ///
    /// Stops the program if `n` is greater than `MAX`; verified callers
    /// show that it is not.
    pub fn new(n: u128) -> (r: Self)
        requires
            n <= Self::MAX,
        ensures
            r@ == n,
            r == Self::from_value(n),
    {
        vstd::pervasive::runtime_assert(n <= Self::MAX);
        Self::new_unchecked(n)
    }

    /// Create a `NonMaxU128` from a `u128` that the caller knows to be legal.
    pub fn new_unchecked(n: u128) -> (r: Self)
        requires
            n <= Self::MAX,
        ensures
            r@ == n,
            r == Self::from_value(n),
    {
        let b14: u8 = (n % 256) as u8;
        let q1: u128 = n / 256;
        let b13: u8 = (q1 % 256) as u8;
        let q2: u128 = q1 / 256;
        let b12: u8 = (q2 % 256) as u8;
        let q3: u128 = q2 / 256;
        let b11: u8 = (q3 % 256) as u8;
        let q4: u128 = q3 / 256;
        let b10: u8 = (q4 % 256) as u8;
        let q5: u128 = q4 / 256;
        let b9: u8 = (q5 % 256) as u8;
        let q6: u128 = q5 / 256;
        let b8: u8 = (q6 % 256) as u8;
        let q7: u128 = q6 / 256;
        let b7: u8 = (q7 % 256) as u8;
        let q8: u128 = q7 / 256;
        let b6: u8 = (q8 % 256) as u8;
        let q9: u128 = q8 / 256;
        let b5: u8 = (q9 % 256) as u8;
        let q10: u128 = q9 / 256;
        let b4: u8 = (q10 % 256) as u8;
        let q11: u128 = q10 / 256;
        let b3: u8 = (q11 % 256) as u8;
        let q12: u128 = q11 / 256;
        let b2: u8 = (q12 % 256) as u8;
        let q13: u128 = q12 / 256;
        let b1: u8 = (q13 % 256) as u8;
        let q14: u128 = q13 / 256;
        let b0: u8 = (q14 % 256) as u8;
        let q15: u128 = q14 / 256;
        NonMaxU128 { top: NonMaxU8::new_unchecked(q15 as u8), bottom: [b0, b1, b2, b3, b4, b5, b6, b7, b8, b9, b10, b11, b12, b13, b14], align: [] }
    }

    /// The text of the number, as `u128` prints it.
    pub fn to_string(&self) -> (s: String)
        ensures
            vstd::string::to_string_from_display_ensures::<u128>(&(self@ as u128), s),
    {
        self.to_native().to_string()
    }

    /// Convert to `u128`.
    pub fn to_native(self) -> (n: u128)
        ensures
            n == self@,
            n <= Self::MAX,
    {
        let mut n: u128 = self.top.to_native() as u128;
        n = n * 256 + self.bottom[0] as u128;
        n = n * 256 + self.bottom[1] as u128;
        n = n * 256 + self.bottom[2] as u128;
        n = n * 256 + self.bottom[3] as u128;
        n = n * 256 + self.bottom[4] as u128;
        n = n * 256 + self.bottom[5] as u128;
        n = n * 256 + self.bottom[6] as u128;
        n = n * 256 + self.bottom[7] as u128;
        n = n * 256 + self.bottom[8] as u128;
        n = n * 256 + self.bottom[9] as u128;
        n = n * 256 + self.bottom[10] as u128;
        n = n * 256 + self.bottom[11] as u128;
        n = n * 256 + self.bottom[12] as u128;
        n = n * 256 + self.bottom[13] as u128;
        n = n * 256 + self.bottom[14] as u128;
        n
    }
}

impl PartialEq for NonMaxU128 {
    /// Two values are equal when they stand for the same number.
    fn eq(&self, other: &Self) -> (r: bool) {
        self.to_native() == other.to_native()
    }
}

impl vstd::std_specs::cmp::PartialEqSpecImpl for NonMaxU128 {
    open spec fn obeys_eq_spec() -> bool {
        true
    }

    open spec fn eq_spec(&self, other: &Self) -> bool {
        self@ == other@
    }
}

impl PartialOrd for NonMaxU128 {
    /// The order is that of the numbers the values stand for.
    fn partial_cmp(&self, other: &Self) -> (r: Option<Ordering>) {
        let a: u128 = self.to_native();
        let b: u128 = other.to_native();
        if a < b {
            Some(Ordering::Less)
        } else if a == b {
            Some(Ordering::Equal)
        } else {
            Some(Ordering::Greater)
        }
    }
}

impl vstd::std_specs::cmp::PartialOrdSpecImpl for NonMaxU128 {
    open spec fn obeys_partial_cmp_spec() -> bool {
        true
    }

    open spec fn partial_cmp_spec(&self, other: &Self) -> Option<Ordering> {
        if self@ < other@ {
            Some(Ordering::Less)
        } else if self@ == other@ {
            Some(Ordering::Equal)
        } else {
            Some(Ordering::Greater)
        }
    }
}

impl From<NonMaxU128> for u128 {
    /// Convert to `u128`.
    fn from(n: NonMaxU128) -> (r: u128) {
        n.to_native()
    }
}

impl vstd::std_specs::convert::FromSpecImpl<NonMaxU128> for u128 {
    open spec fn obeys_from_spec() -> bool {
        true
    }

    open spec fn from_spec(n: NonMaxU128) -> u128 {
        n@ as u128
    }
}

impl TryFrom<u128> for NonMaxU128 {
    type Error = RangeError;

    /// Convert from `u128`, or say that `n` is out of range.
    fn try_from(n: u128) -> (r: Result<Self, RangeError>) {
        if n <= Self::MAX {
            Ok(Self::new_unchecked(n))
        } else {
            Err(RangeError)
        }
    }
}

impl vstd::std_specs::convert::TryFromSpecImpl<u128> for NonMaxU128 {
    open spec fn obeys_try_from_spec() -> bool {
        true
    }

    open spec fn try_from_spec(n: u128) -> Result<Self, RangeError> {
        if n <= Self::MAX {
            Ok(Self::from_value(n))
        } else {
            Err(RangeError)
        }
    }
}

impl NonMaxU128 {
    /// Round trip: the value made from a legal `n` stands for `n`.
    pub proof fn round_trip(n: u128)
        requires
            n <= Self::MAX,
        ensures
            Self::from_value(n)@ == n,
    {
        let q1 = n / 256;
        let q2 = q1 / 256;
        let q3 = q2 / 256;
        let q4 = q3 / 256;
        let q5 = q4 / 256;
        let q6 = q5 / 256;
        let q7 = q6 / 256;
        let q8 = q7 / 256;
        let q9 = q8 / 256;
        let q10 = q9 / 256;
        let q11 = q10 / 256;
        let q12 = q11 / 256;
        let q13 = q12 / 256;
        let q14 = q13 / 256;
        let q15 = q14 / 256;
        NonMaxU8::round_trip(q15 as u8);
    }

    /// Range: whatever the value, the number it stands for is legal.
    pub proof fn in_range(self)
        ensures
            self@ <= Self::MAX,
    {
        self.top.in_range();
    }

    /// Back again: a value is the one made from the number it stands for.
    pub proof fn back_again(self)
        ensures
            Self::from_value(self@ as u128) == self,
    {
        self.in_range();
        self.top.in_range();
        let n = self@ as u128;
        let q1 = n / 256;
        let q2 = q1 / 256;
        let q3 = q2 / 256;
        let q4 = q3 / 256;
        let q5 = q4 / 256;
        let q6 = q5 / 256;
        let q7 = q6 / 256;
        let q8 = q7 / 256;
        let q9 = q8 / 256;
        let q10 = q9 / 256;
        let q11 = q10 / 256;
        let q12 = q11 / 256;
        let q13 = q12 / 256;
        let q14 = q13 / 256;
        let q15 = q14 / 256;
        assert(q15 == self.top@);
        self.top.back_again();
        let made = Self::from_value(n);
        assert(made.top == self.top);
        assert(made.bottom =~= self.bottom);
        assert(made.align =~= self.align);
    }

    /// Two values that stand for the same number are the same value.
    pub proof fn one_value_per_number(a: Self, b: Self)
        requires
            a@ == b@,
        ensures
            a == b,
    {
        a.back_again();
        b.back_again();
    }

    /// Rejection: the fallible conversion fails on exactly the numbers above
    /// `MAX`, and on the others gives the value that stands for the number.
    pub proof fn rejection(n: u128)
        ensures
            n > Self::MAX <==> Self::try_from_spec(n) is Err,
            n <= Self::MAX ==> Self::try_from_spec(n) == Ok::<Self, RangeError>(Self::from_value(n)),
            n <= Self::MAX ==> Self::try_from_spec(n)->Ok_0@ == n,
    {
        if n <= Self::MAX {
            Self::round_trip(n);
        }
    }

    /// Order preservation: two values made from legal numbers compare as the
    /// numbers do, and are equal exactly when the numbers are.
    pub proof fn order_preserved(a: u128, b: u128)
        requires
            a <= Self::MAX,
            b <= Self::MAX,
        ensures
            Self::from_value(a).eq_spec(&Self::from_value(b)) <==> a == b,
            Self::from_value(a).partial_cmp_spec(&Self::from_value(b)) == Some(Ordering::Less) <==> a < b,
            Self::from_value(a).partial_cmp_spec(&Self::from_value(b)) == Some(Ordering::Equal) <==> a == b,
            Self::from_value(a).partial_cmp_spec(&Self::from_value(b)) == Some(Ordering::Greater) <==> a > b,
    {
        Self::round_trip(a);
        Self::round_trip(b);
    }

    /// `MAX` is one below `255 << 120`, and the legal numbers are those
    /// whose most significant byte is not `0xFF`.
    pub proof fn niche(n: u128)
        ensures
            Self::MAX == (255u128 << 120) - 1,
            n <= Self::MAX <==> (n >> 120) != 0xFF,
    {
        assert((255u128 << 120) == 338953138925153547590470800371487866880u128) by (bit_vector);
        assert(n <= 338953138925153547590470800371487866879u128 <==> (n >> 120) != 0xFF) by (bit_vector);
    }
}

} // verus!
