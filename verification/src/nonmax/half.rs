//! The 2-byte member of the family.

use std::cmp::Ordering;
use vstd::prelude::*;
use vstd::std_specs::cmp::{PartialEqSpec, PartialOrdSpec};
use vstd::std_specs::convert::TryFromSpec;

use crate::nonmax::byte::NonMaxU8;
use crate::nonmax::RangeError;

verus! {

/// `u16` with a niche for its maximum values.
///
/// The illegal values are those from `255 << 8` up: the ones whose most
/// significant byte is `0xFF`. That byte is held as a [`NonMaxU8`], so the
/// whole type has a niche, and `Option<NonMaxU16>` is no larger than `u16`.
#[derive(Clone, Copy, Debug, Eq, Ord)]
pub struct NonMaxU16 {
    top: NonMaxU8,
    bottom: [u8; 1],
    align: [u16; 0],
}

impl View for NonMaxU16 {
    type V = nat;

    /// The number that the bytes stand for, most significant byte first.
    closed spec fn view(&self) -> nat {
        ((self.top@) * 256 + self.bottom[0]) as nat
    }
}

impl NonMaxU16 {
    /// Maximum value representable by this type.
    pub const MAX: u16 = 65279;

    /// The value that stands for `n`, for `n` up to `MAX`.
    pub closed spec fn from_value(n: u16) -> Self {
        let q1 = n / 256;
        NonMaxU16 {
            top: NonMaxU8::from_value(q1 as u8),
            bottom: [(n % 256) as u8],
            align: [],
        }
    }

    /// Create a `NonMaxU16` from a `u16`.
    ///
    /// Stops the program if `n` is greater than `MAX`; verified callers
    /// show that it is not.
    pub fn new(n: u16) -> (r: Self)
        requires
            n <= Self::MAX,
        ensures
            r@ == n,
            r == Self::from_value(n),
    {
        vstd::pervasive::runtime_assert(n <= Self::MAX);
        Self::new_unchecked(n)
    }

    /// Create a `NonMaxU16` from a `u16` that the caller knows to be legal.
    pub fn new_unchecked(n: u16) -> (r: Self)
        requires
            n <= Self::MAX,
        ensures
            r@ == n,
            r == Self::from_value(n),
    {
        let b0: u8 = (n % 256) as u8;
        let q1: u16 = n / 256;
        NonMaxU16 { top: NonMaxU8::new_unchecked(q1 as u8), bottom: [b0], align: [] }
    }

    /// The text of the number, as `u16` prints it.
    pub fn to_string(&self) -> (s: String)
        ensures
            vstd::string::to_string_from_display_ensures::<u16>(&(self@ as u16), s),
    {
        self.to_native().to_string()
    }

    /// Convert to `u16`.
    pub fn to_native(self) -> (n: u16)
        ensures
            n == self@,
            n <= Self::MAX,
    {
        let mut n: u16 = self.top.to_native() as u16;
        n = n * 256 + self.bottom[0] as u16;
        n
    }
}

impl PartialEq for NonMaxU16 {
    /// Two values are equal when they stand for the same number.
    fn eq(&self, other: &Self) -> (r: bool) {
        self.to_native() == other.to_native()
    }
}

impl vstd::std_specs::cmp::PartialEqSpecImpl for NonMaxU16 {
    open spec fn obeys_eq_spec() -> bool {
        true
    }

    open spec fn eq_spec(&self, other: &Self) -> bool {
        self@ == other@
    }
}

impl PartialOrd for NonMaxU16 {
    /// The order is that of the numbers the values stand for.
    fn partial_cmp(&self, other: &Self) -> (r: Option<Ordering>) {
        let a: u16 = self.to_native();
        let b: u16 = other.to_native();
        if a < b {
            Some(Ordering::Less)
        } else if a == b {
            Some(Ordering::Equal)
        } else {
            Some(Ordering::Greater)
        }
    }
}

impl vstd::std_specs::cmp::PartialOrdSpecImpl for NonMaxU16 {
    open spec fn obeys_partial_cmp_spec() -> bool {
        true
    }

    open spec fn partial_cmp_spec(&self, other: &Self) -> Option<Ordering> {
        if self@ < other@ {
            Some(Ordering::Less)
        } else if self@ == other@ {
            Some(Ordering::Equal)
        } else {
            Some(Ordering::Greater)
        }
    }
}

impl From<NonMaxU16> for u16 {
    /// Convert to `u16`.
    fn from(n: NonMaxU16) -> (r: u16) {
        n.to_native()
    }
}

impl vstd::std_specs::convert::FromSpecImpl<NonMaxU16> for u16 {
    open spec fn obeys_from_spec() -> bool {
        true
    }

    open spec fn from_spec(n: NonMaxU16) -> u16 {
        n@ as u16
    }
}

impl TryFrom<u16> for NonMaxU16 {
    type Error = RangeError;

    /// Convert from `u16`, or say that `n` is out of range.
    fn try_from(n: u16) -> (r: Result<Self, RangeError>) {
        if n <= Self::MAX {
            Ok(Self::new_unchecked(n))
        } else {
            Err(RangeError)
        }
    }
}

impl vstd::std_specs::convert::TryFromSpecImpl<u16> for NonMaxU16 {
    open spec fn obeys_try_from_spec() -> bool {
        true
    }

    open spec fn try_from_spec(n: u16) -> Result<Self, RangeError> {
        if n <= Self::MAX {
            Ok(Self::from_value(n))
        } else {
            Err(RangeError)
        }
    }
}

impl NonMaxU16 {
    /// Round trip: the value made from a legal `n` stands for `n`.
    pub proof fn round_trip(n: u16)
        requires
            n <= Self::MAX,
        ensures
            Self::from_value(n)@ == n,
    {
        let q1 = n / 256;
        NonMaxU8::round_trip(q1 as u8);
    }

    /// Range: whatever the value, the number it stands for is legal.
    pub proof fn in_range(self)
        ensures
            self@ <= Self::MAX,
    {
        self.top.in_range();
    }

    /// Back again: a value is the one made from the number it stands for.
    pub proof fn back_again(self)
        ensures
            Self::from_value(self@ as u16) == self,
    {
        self.in_range();
        self.top.in_range();
        let n = self@ as u16;
        let q1 = n / 256;
        assert(q1 == self.top@);
        self.top.back_again();
        let made = Self::from_value(n);
        assert(made.top == self.top);
        assert(made.bottom =~= self.bottom);
        assert(made.align =~= self.align);
    }

    /// Two values that stand for the same number are the same value.
    pub proof fn one_value_per_number(a: Self, b: Self)
        requires
            a@ == b@,
        ensures
            a == b,
    {
        a.back_again();
        b.back_again();
    }

    /// Rejection: the fallible conversion fails on exactly the numbers above
    /// `MAX`, and on the others gives the value that stands for the number.
    pub proof fn rejection(n: u16)
        ensures
            n > Self::MAX <==> Self::try_from_spec(n) is Err,
            n <= Self::MAX ==> Self::try_from_spec(n) == Ok::<Self, RangeError>(Self::from_value(n)),
            n <= Self::MAX ==> Self::try_from_spec(n)->Ok_0@ == n,
    {
        if n <= Self::MAX {
            Self::round_trip(n);
        }
    }

    /// Order preservation: two values made from legal numbers compare as the
    /// numbers do, and are equal exactly when the numbers are.
    pub proof fn order_preserved(a: u16, b: u16)
        requires
            a <= Self::MAX,
            b <= Self::MAX,
        ensures
            Self::from_value(a).eq_spec(&Self::from_value(b)) <==> a == b,
            Self::from_value(a).partial_cmp_spec(&Self::from_value(b)) == Some(Ordering::Less) <==> a < b,
            Self::from_value(a).partial_cmp_spec(&Self::from_value(b)) == Some(Ordering::Equal) <==> a == b,
            Self::from_value(a).partial_cmp_spec(&Self::from_value(b)) == Some(Ordering::Greater) <==> a > b,
    {
        Self::round_trip(a);
        Self::round_trip(b);
    }

    /// `MAX` is one below `255 << 8`, and the legal numbers are those
    /// whose most significant byte is not `0xFF`.
    pub proof fn niche(n: u16)
        ensures
            Self::MAX == (255u16 << 8) - 1,
            n <= Self::MAX <==> (n >> 8) != 0xFF,
    {
        assert((255u16 << 8) == 65280u16) by (bit_vector);
        assert(n <= 65279u16 <==> (n >> 8) != 0xFF) by (bit_vector);
    }
}

} // verus!
