//! The cycle proof of a solved puzzle: a buffer of exactly 336 bytes that
//! can also be read as 42 little-endian 64-bit lanes.

use crate::digest::{blake2b_256, blake2b_digest};
use crate::endian::{
    bytes_to_lanes, lanes_to_bytes, lemma_lane_bytes_round_trip, lemma_lanes_round_trip,
    read_u64_into, write_u64_into,
};
use crate::numeric::H256;
use crate::{CYCLE_LENGTH_U8, PROOF_SIZE};
use vstd::prelude::*;
use vstd::std_specs::cmp::PartialEqSpecImpl;
use vstd::std_specs::convert::FromSpecImpl;

verus! {

/// A cycle proof. The buffer always has `CYCLE_LENGTH_U8` bytes.
#[derive(Debug)]
pub struct Solution([u8; CYCLE_LENGTH_U8]);

/// The buffer whose first `n` bytes are those of `bytes` and whose other
/// bytes are zero.
spec fn buffer_of(bytes: Seq<u8>, n: nat) -> [u8; CYCLE_LENGTH_U8]
    decreases n,
{
    if n == 0 {
        vstd::array::spec_array_fill_for_copy_type(0u8)
    } else {
        vstd::array::spec_array_update(
            buffer_of(bytes, (n - 1) as nat),
            n - 1,
            bytes[n - 1],
        )
    }
}

proof fn lemma_buffer_of(bytes: Seq<u8>, n: nat)
    requires
        n <= CYCLE_LENGTH_U8,
    ensures
        forall|i: int| 0 <= i < n ==> buffer_of(bytes, n)@[i] == bytes[i],
    decreases n,
{
    if n > 0 {
        let shorter = buffer_of(bytes, (n - 1) as nat);
        lemma_buffer_of(bytes, (n - 1) as nat);
        vstd::array::axiom_spec_array_update(shorter, n - 1, bytes[n - 1]);
    }
}

impl View for Solution {
    type V = Seq<u8>;

    closed spec fn view(&self) -> Seq<u8> {
        self.0@
    }
}

impl Solution {
    /// The solution that holds the given bytes.
    pub closed spec fn of_bytes(bytes: Seq<u8>) -> Solution
        recommends
            bytes.len() == CYCLE_LENGTH_U8,
    {
        Solution(buffer_of(bytes, CYCLE_LENGTH_U8 as nat))
    }

    /// The solution that holds the given lanes.
    pub open spec fn of_lanes(lanes: Seq<u64>) -> Solution
        recommends
            lanes.len() == PROOF_SIZE,
    {
        Solution::of_bytes(lanes_to_bytes(lanes))
    }

    /// The 42 lanes of the solution.
    pub open spec fn lanes(&self) -> Seq<u64> {
        bytes_to_lanes(self@)
    }

    /// A solution has exactly 336 bytes, and its bytes say which solution it is.
    pub proof fn lemma_bytes(self, other: Solution)
        ensures
            self@.len() == CYCLE_LENGTH_U8,
            self.lanes().len() == PROOF_SIZE,
            self@ == other@ ==> self == other,
    {
        if self@ == other@ {
            assert(self.0 =~= other.0);
        }
    }

    /// Packing 336 bytes into a solution and reading its bytes gives the same
    /// bytes.
    pub proof fn lemma_byte_round_trip(bytes: Seq<u8>)
        requires
            bytes.len() == CYCLE_LENGTH_U8,
        ensures
            Solution::of_bytes(bytes)@ == bytes,
    {
        lemma_buffer_of(bytes, CYCLE_LENGTH_U8 as nat);
        assert(Solution::of_bytes(bytes)@ =~= bytes);
    }

    /// A solution is the packing of its own bytes.
    pub proof fn lemma_bytes_repacked(self)
        ensures
            Solution::of_bytes(self@) == self,
    {
        lemma_buffer_of(self@, CYCLE_LENGTH_U8 as nat);
        assert(Solution::of_bytes(self@).0 =~= self.0);
    }

    /// Packing 42 lanes into a solution and reading its lanes gives the same
    /// lanes.
    pub proof fn lemma_lane_round_trip(lanes: Seq<u64>)
        requires
            lanes.len() == PROOF_SIZE,
        ensures
            Solution::of_lanes(lanes).lanes() == lanes,
    {
        lemma_lanes_round_trip(lanes);
        Solution::lemma_byte_round_trip(lanes_to_bytes(lanes));
    }

    /// A solution is the packing of its own lanes.
    pub proof fn lemma_lanes_repacked(self)
        ensures
            Solution::of_lanes(self.lanes()) == self,
    {
        lemma_lane_bytes_round_trip(self@);
        self.lemma_bytes_repacked();
    }

    /// The digest that names this solution: BLAKE2b over its bytes.
    pub fn hash(&self) -> (digest: H256)
        ensures
            digest@ == blake2b_256(self@),
    {
        H256(blake2b_digest(&self.0))
    }

    /// The solution that holds the bytes of `s`.
    pub fn from_bytes(s: Vec<u8>) -> (r: Solution)
        requires
            s.len() == CYCLE_LENGTH_U8,
        ensures
            r == Solution::of_bytes(s@),
            r@ == s@,
    {
        let mut sol = [0u8; CYCLE_LENGTH_U8];
        let mut i: usize = 0;
        while i < CYCLE_LENGTH_U8
            invariant
                i <= CYCLE_LENGTH_U8,
                s.len() == CYCLE_LENGTH_U8,
                forall|k: int| 0 <= k < i ==> sol@[k] == s@[k],
            decreases CYCLE_LENGTH_U8 - i,
        {
            sol[i] = s[i];
            i = i + 1;
        }
        let r = Solution(sol);
        proof {
            assert(r@ =~= s@);
            r.lemma_bytes_repacked();
        }
        r
    }

    /// The solution that holds the lanes of `s`, each lane least significant
    /// byte first.
    pub fn from_lanes(s: Vec<u64>) -> (r: Solution)
        requires
            s.len() == PROOF_SIZE,
        ensures
            r == Solution::of_lanes(s@),
            r.lanes() == s@,
    {
        let mut sol = [0u8; CYCLE_LENGTH_U8];
        write_u64_into(s.as_slice(), &mut sol);
        let r = Solution(sol);
        proof {
            r.lemma_bytes_repacked();
            Solution::lemma_lane_round_trip(s@);
        }
        r
    }
}

impl Clone for Solution {
    fn clone(&self) -> (r: Solution)
        ensures
            r == *self,
    {
        Solution(self.0)
    }
}

impl Default for Solution {
    /// The solution of 336 zero bytes.
    fn default() -> (r: Solution)
        ensures
            r@ == Seq::new(CYCLE_LENGTH_U8 as nat, |i: int| 0u8),
    {
        let r = Solution([0u8; CYCLE_LENGTH_U8]);
        assert(r@ =~= Seq::new(CYCLE_LENGTH_U8 as nat, |i: int| 0u8));
        r
    }
}

impl PartialEq for Solution {
    fn eq(&self, other: &Solution) -> (r: bool) {
        let mut i: usize = 0;
        while i < CYCLE_LENGTH_U8
            invariant
                i <= CYCLE_LENGTH_U8,
                forall|k: int| 0 <= k < i ==> self.0@[k] == other.0@[k],
            decreases CYCLE_LENGTH_U8 - i,
        {
            if self.0[i] != other.0[i] {
                return false;
            }
            i = i + 1;
        }
        assert(self.0@ =~= other.0@);
        true
    }
}

impl PartialEqSpecImpl for Solution {
    open spec fn obeys_eq_spec() -> bool {
        true
    }

    open spec fn eq_spec(&self, other: &Solution) -> bool {
        self@ == other@
    }
}

impl Eq for Solution {

}

impl From<[u64; PROOF_SIZE]> for Solution {
    /// The solution that holds the given lanes, each lane least significant
    /// byte first.
    fn from(solution: [u64; PROOF_SIZE]) -> (r: Solution) {
        let mut sol = [0u8; CYCLE_LENGTH_U8];
        write_u64_into(&solution, &mut sol);
        let r = Solution(sol);
        proof {
            r.lemma_bytes_repacked();
        }
        r
    }
}

impl FromSpecImpl<[u64; PROOF_SIZE]> for Solution {
    open spec fn obeys_from_spec() -> bool {
        true
    }

    open spec fn from_spec(v: [u64; PROOF_SIZE]) -> Solution {
        Solution::of_lanes(v@)
    }
}

impl From<Solution> for [u64; PROOF_SIZE] {
    /// The 42 lanes of a solution.
    fn from(value: Solution) -> (r: [u64; PROOF_SIZE])
        ensures
            r@ == value.lanes(),
    {
        let mut dst = [0u64; PROOF_SIZE];
        read_u64_into(&value.0, &mut dst);
        dst
    }
}

impl FromSpecImpl<Solution> for [u64; PROOF_SIZE] {
    open spec fn obeys_from_spec() -> bool {
        false
    }

    open spec fn from_spec(v: Solution) -> [u64; PROOF_SIZE] {
        arbitrary()
    }
}

impl From<Solution> for Vec<u64> {
    /// The 42 lanes of a solution.
    fn from(value: Solution) -> (r: Vec<u64>)
        ensures
            r@ == value.lanes(),
    {
        let sol: [u64; PROOF_SIZE] = value.into();
        let mut out: Vec<u64> = Vec::new();
        let mut i: usize = 0;
        while i < PROOF_SIZE
            invariant
                i <= PROOF_SIZE,
                out@ == sol@.subrange(0, i as int),
            decreases PROOF_SIZE - i,
        {
            out.push(sol[i]);
            i = i + 1;
        }
        assert(out@ =~= sol@);
        out
    }
}

impl FromSpecImpl<Solution> for Vec<u64> {
    open spec fn obeys_from_spec() -> bool {
        false
    }

    open spec fn from_spec(v: Solution) -> Vec<u64> {
        arbitrary()
    }
}

impl From<Solution> for Vec<u8> {
    /// The 336 bytes of a solution.
    fn from(value: Solution) -> (r: Vec<u8>)
        ensures
            r@ == value@,
    {
        let mut out: Vec<u8> = Vec::new();
        let mut i: usize = 0;
        while i < CYCLE_LENGTH_U8
            invariant
                i <= CYCLE_LENGTH_U8,
                out@ == value.0@.subrange(0, i as int),
            decreases CYCLE_LENGTH_U8 - i,
        {
            out.push(value.0[i]);
            i = i + 1;
        }
        assert(out@ =~= value.0@);
        out
    }
}

impl FromSpecImpl<Solution> for Vec<u8> {
    open spec fn obeys_from_spec() -> bool {
        false
    }

    open spec fn from_spec(v: Solution) -> Vec<u8> {
        arbitrary()
    }
}

} // verus!
