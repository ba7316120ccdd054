//! 256-bit unsigned integers and 256-bit digests.
//!
//! A `U256` holds four 64-bit limbs, least significant first, which is the
//! layout of `primitive_types::U256`. Its arithmetic is that crate's; this
//! module states what each operation returns over the natural number that the
//! limbs stand for.

use crate::endian::{le_bytes, le_value};
use vstd::prelude::*;
use vstd::std_specs::cmp::PartialEqSpecImpl;
use vstd::std_specs::convert::FromSpecImpl;

verus! {

/// 2 to the power 64.
pub open spec fn limb_base() -> nat {
    0x1_0000_0000_0000_0000nat
}

/// The largest number that a `U256` can hold, 2 to the power 256 less one.
pub open spec fn u256_max() -> nat {
    0xffff_ffff_ffff_ffff_ffff_ffff_ffff_ffff_ffff_ffff_ffff_ffff_ffff_ffff_ffff_ffffnat
}

/// An unsigned integer of 256 bits.
#[derive(Copy, Clone, Debug, Hash)]
pub struct U256(pub [u64; 4]);

impl View for U256 {
    type V = nat;

    open spec fn view(&self) -> nat {
        self.0[0] as nat + limb_base() * (self.0[1] as nat + limb_base() * (self.0[2] as nat
            + limb_base() * (self.0[3] as nat)))
    }
}

impl U256 {
    /// Every value is at most `u256_max`, and two values that stand for the
    /// same number are the same value.
    pub proof fn lemma_view(self, other: U256)
        ensures
            self@ <= u256_max(),
            self@ == other@ <==> self == other,
    {
        if self@ == other@ {
            assert(self.0[0] == other.0[0]);
            assert(self.0[1] == other.0[1]);
            assert(self.0[2] == other.0[2]);
            assert(self.0[3] == other.0[3]);
            assert(self.0 =~= other.0);
        }
    }

    /// The number 0.
    pub fn zero() -> (r: U256)
        ensures
            r@ == 0,
    {
        U256([0, 0, 0, 0])
    }

    /// The largest number, which as a target is the easiest one.
    pub fn max_value() -> (r: U256)
        ensures
            r@ == u256_max(),
    {
        U256([u64::MAX, u64::MAX, u64::MAX, u64::MAX])
    }

    /// Whether this is the number 0.
    pub fn is_zero(&self) -> (r: bool)
        ensures
            r == (self@ == 0),
    {
        self.0[0] == 0 && self.0[1] == 0 && self.0[2] == 0 && self.0[3] == 0
    }

    /// The lowest 64 bits.
    pub fn low_u64(&self) -> (r: u64)
        ensures
            r as nat == self@ % limb_base(),
    {
        self.0[0]
    }

    /// Whether `self` is at most `other`.
    pub fn le(&self, other: &U256) -> (r: bool)
        ensures
            r == (self@ <= other@),
    {
        if self.0[3] != other.0[3] {
            self.0[3] < other.0[3]
        } else if self.0[2] != other.0[2] {
            self.0[2] < other.0[2]
        } else if self.0[1] != other.0[1] {
            self.0[1] < other.0[1]
        } else {
            self.0[0] <= other.0[0]
        }
    }

    /// Whether `self` is below `other`.
    pub fn lt(&self, other: &U256) -> (r: bool)
        ensures
            r == (self@ < other@),
    {
        !other.le(self)
    }
}

impl PartialEq for U256 {
    fn eq(&self, other: &U256) -> (r: bool) {
        self.0[0] == other.0[0] && self.0[1] == other.0[1] && self.0[2] == other.0[2] && self.0[3]
            == other.0[3]
    }
}

impl PartialEqSpecImpl for U256 {
    open spec fn obeys_eq_spec() -> bool {
        true
    }

    open spec fn eq_spec(&self, other: &U256) -> bool {
        self@ == other@
    }
}

impl Eq for U256 {

}

impl From<u64> for U256 {
    fn from(value: u64) -> (r: U256)
        ensures
            r@ == value,
    {
        U256([value, 0, 0, 0])
    }
}

impl FromSpecImpl<u64> for U256 {
    open spec fn obeys_from_spec() -> bool {
        true
    }

    open spec fn from_spec(v: u64) -> U256 {
        U256([v, 0, 0, 0])
    }
}

/// A digest of 256 bits, as 32 bytes.
#[derive(Copy, Clone, Debug, Hash)]
pub struct H256(pub [u8; 32]);

impl View for H256 {
    type V = Seq<u8>;

    open spec fn view(&self) -> Seq<u8> {
        self.0@
    }
}

impl PartialEq for H256 {
    fn eq(&self, other: &H256) -> (r: bool) {
        let mut i: usize = 0;
        while i < 32
            invariant
                i <= 32,
                forall|k: int| 0 <= k < i ==> self.0@[k] == other.0@[k],
            decreases 32 - i,
        {
            if self.0[i] != other.0[i] {
                return false;
            }
            i = i + 1;
        }
        assert(self.0@ =~= other.0@);
        true
    }
}

impl PartialEqSpecImpl for H256 {
    open spec fn obeys_eq_spec() -> bool {
        true
    }

    open spec fn eq_spec(&self, other: &H256) -> bool {
        self@ == other@
    }
}

impl Eq for H256 {

}

/// `primitive_types::U256::checked_add`: the sum, or `None` when it does not
/// fit in 256 bits.
#[verifier::external_body]
pub(crate) fn checked_add(a: U256, b: U256) -> (r: Option<U256>)
    ensures
        match r {
            Some(sum) => sum@ == a@ + b@,
            None => a@ + b@ > u256_max(),
        },
{
    match primitive_types::U256(a.0).checked_add(primitive_types::U256(b.0)) {
        Some(sum) => Some(U256(sum.0)),
        None => None,
    }
}

/// `primitive_types::U256::checked_mul`: the product, or `None` when it does
/// not fit in 256 bits.
#[verifier::external_body]
pub(crate) fn checked_mul(a: U256, b: U256) -> (r: Option<U256>)
    ensures
        match r {
            Some(product) => product@ == a@ * b@,
            None => a@ * b@ > u256_max(),
        },
{
    match primitive_types::U256(a.0).checked_mul(primitive_types::U256(b.0)) {
        Some(product) => Some(U256(product.0)),
        None => None,
    }
}

/// `primitive_types::U256::div_mod`: quotient and remainder of the division
/// of `a` by `b`. The outside function panics on a zero divisor, which is
/// left out here.
#[verifier::external_body]
pub(crate) fn div_mod(a: U256, b: U256) -> (r: (U256, U256))
    requires
        b@ != 0,
    ensures
        r.0@ == a@ / b@,
        r.1@ == a@ % b@,
{
    let (q, m) = primitive_types::U256(a.0).div_mod(primitive_types::U256(b.0));
    (U256(q.0), U256(m.0))
}

/// `primitive_types::U256::to_little_endian`: fills the 32 bytes of `bytes`
/// with the number, least significant byte first.
#[verifier::external_body]
pub(crate) fn write_little_endian(u: &U256, bytes: &mut Vec<u8>)
    requires
        old(bytes).len() == 32,
    ensures
        final(bytes)@ == le_bytes(u@, 32),
{
    primitive_types::U256(u.0).to_little_endian(bytes.as_mut_slice())
}

/// `primitive_types::U256::from_little_endian`: the number that 32 bytes
/// hold, least significant byte first.
#[verifier::external_body]
pub(crate) fn from_little_endian(bytes: &[u8; 32]) -> (r: U256)
    ensures
        r@ == le_value(bytes@),
{
    U256(primitive_types::U256::from_little_endian(bytes).0)
}

/// The 32 bytes of `u`, least significant byte first.
pub fn u256_to_vec(u: U256) -> (t: Vec<u8>)
    ensures
        t@ == le_bytes(u@, 32),
{
    let mut t = vec![0u8; 32];
    write_little_endian(&u, &mut t);
    t
}

} // verus!
