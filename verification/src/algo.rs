//! Identifiers of the proof-of-work algorithms and their wire encoding.

use vstd::prelude::*;
use vstd::std_specs::convert::FromSpecImpl;

verus! {

/// The closed set of proof-of-work algorithms.
#[allow(non_camel_case_types)]
#[derive(Copy, Clone, Debug, PartialEq, Eq, Structural)]
pub enum Algo {
    CUCKOO,
    SCRYPT,
}

impl Algo {
    /// The number that stands for this algorithm on the wire.
    pub open spec fn code(self) -> u32 {
        match self {
            Algo::CUCKOO => 0,
            Algo::SCRYPT => 1,
        }
    }

    /// The algorithm that a wire number stands for. Numbers that name no
    /// algorithm fall back to `CUCKOO`.
    pub open spec fn decode(code: u32) -> Algo {
        if code == 1 {
            Algo::SCRYPT
        } else {
            Algo::CUCKOO
        }
    }

    /// Decoding is total, inverts `code`, and sends every number above 1 to
    /// `CUCKOO`.
    pub proof fn lemma_decode_total(code: u32)
        ensures
            Algo::decode(code) == Algo::CUCKOO || Algo::decode(code) == Algo::SCRYPT,
            Algo::decode(0) == Algo::CUCKOO && Algo::CUCKOO.code() == 0,
            Algo::decode(1) == Algo::SCRYPT && Algo::SCRYPT.code() == 1,
            code > 1 ==> Algo::decode(code) == Algo::CUCKOO,
    {
    }

    /// Encoding an algorithm and decoding the number gives the algorithm back.
    pub proof fn lemma_code_round_trip(algo: Algo)
        ensures
            algo.code() <= 1,
            Algo::decode(algo.code()) == algo,
    {
    }
}

impl From<u32> for Algo {
    fn from(algo: u32) -> (r: Algo) {
        match algo {
            0 => Algo::CUCKOO,
            1 => Algo::SCRYPT,
            _ => Algo::CUCKOO,
        }
    }
}

impl FromSpecImpl<u32> for Algo {
    open spec fn obeys_from_spec() -> bool {
        true
    }

    open spec fn from_spec(v: u32) -> Algo {
        Algo::decode(v)
    }
}

impl From<Algo> for u32 {
    fn from(algo: Algo) -> (r: u32) {
        match algo {
            Algo::CUCKOO => 0,
            Algo::SCRYPT => 1,
        }
    }
}

impl FromSpecImpl<Algo> for u32 {
    open spec fn obeys_from_spec() -> bool {
        true
    }

    open spec fn from_spec(v: Algo) -> u32 {
        v.code()
    }
}

} // verus!
