//! Verification of cycle proofs.
//!
//! Four keys span a graph of `EDGE_COUNT` edges between two sides of
//! `EDGE_COUNT` nodes each: edge `e` joins node `node(keys, e, 0)` of the one
//! side to node `node(keys, e, 1)` of the other. A cycle proof lists
//! `PROOF_SIZE` edges in ascending order that form one cycle: walking from
//! the first edge, every node on the way is shared by exactly two edges of
//! the proof, and the walk is back at its start after `PROOF_SIZE` steps and
//! not before.

use crate::PROOF_SIZE;
use vstd::prelude::*;
use vstd::wrapping::u64_specs::wrapping_add;

verus! {

/// Number of edges of the graph, and of nodes on each of its sides.
pub const EDGE_COUNT: u64 = 0x1_0000;

/// The largest edge, which is also the mask that cuts a hash down to a node.
pub const EDGE_MASK: u64 = 0xffff;

/// `x` rotated to the left by `n` bits, for `n` between 1 and 63.
pub open spec fn rotl(x: u64, n: u64) -> u64 {
    (x << n) | (x >> ((64 - n) as u64))
}

/// The four words of the SipHash state.
pub struct SipState {
    pub v0: u64,
    pub v1: u64,
    pub v2: u64,
    pub v3: u64,
}

/// One round of SipHash.
pub open spec fn sip_round(s: SipState) -> SipState {
    let v0 = wrapping_add(s.v0, s.v1);
    let v2 = wrapping_add(s.v2, s.v3);
    let v1 = rotl(s.v1, 13) ^ v0;
    let v3 = rotl(s.v3, 16) ^ v2;
    let v0 = rotl(v0, 32);
    let v2 = wrapping_add(v2, v1);
    let v0 = wrapping_add(v0, v3);
    let v1 = rotl(v1, 17) ^ v2;
    let v3 = rotl(v3, 21) ^ v0;
    let v2 = rotl(v2, 32);
    SipState { v0, v1, v2, v3 }
}

/// SipHash-2-4 of one 64-bit word under four key words, as Cuckoo Cycle
/// uses it: the keys are the state, the word goes in before two rounds and
/// after them, and four rounds close.
pub open spec fn sip_hash(keys: Seq<u64>, word: u64) -> u64
    recommends
        keys.len() == 4,
{
    let start = SipState { v0: keys[0], v1: keys[1], v2: keys[2], v3: keys[3] ^ word };
    let s = sip_round(sip_round(start));
    let s = SipState { v0: s.v0 ^ word, v1: s.v1, v2: s.v2 ^ 0xff, v3: s.v3 };
    let s = sip_round(sip_round(sip_round(sip_round(s))));
    (s.v0 ^ s.v1) ^ (s.v2 ^ s.v3)
}

/// The node at which an edge ends on the given side, 0 or 1.
pub open spec fn node(keys: Seq<u64>, edge: u64, side: int) -> u64
    recommends
        keys.len() == 4,
        edge <= EDGE_MASK,
        side == 0 || side == 1,
{
    sip_hash(keys, (2 * edge + side) as u64) & EDGE_MASK
}

/// The ends of a row of edges: ends `2 * i` and `2 * i + 1` are the nodes of
/// edge `i` on side 0 and on side 1.
pub open spec fn ends_of(keys: Seq<u64>, edges: Seq<u64>) -> Seq<u64> {
    Seq::new(2 * edges.len(), |k: int| node(keys, edges[k / 2], k % 2))
}

/// End `j` is another end at the node of end `i`, on the same side.
pub open spec fn meets(ends: Seq<u64>, i: int, j: int) -> bool {
    0 <= j < ends.len() && j != i && j % 2 == i % 2 && ends[j] == ends[i]
}

/// End `j` is the only other end at the node of end `i`.
pub open spec fn sole_partner(ends: Seq<u64>, i: int, j: int) -> bool {
    meets(ends, i, j) && forall|k: int| meets(ends, i, k) ==> k == j
}

/// The other end of the edge that end `j` belongs to.
pub open spec fn across(j: int) -> int {
    if j % 2 == 0 {
        j + 1
    } else {
        j - 1
    }
}

/// Where one step of the walk leads from end `i`: through the only other
/// edge at its node, to the far end of that edge. `None` where the node has
/// no other edge, or more than one.
pub open spec fn step(ends: Seq<u64>, i: int) -> Option<int> {
    if exists|j: int| sole_partner(ends, i, j) {
        Some(across(choose|j: int| sole_partner(ends, i, j)))
    } else {
        None
    }
}

/// The walk from end `i` is back at end 0 after exactly `steps` steps, and
/// not before.
pub open spec fn closes_after(ends: Seq<u64>, i: int, steps: nat) -> bool
    decreases steps,
{
    if steps == 0 {
        false
    } else {
        match step(ends, i) {
            None => false,
            Some(next) => if steps == 1 {
                next == 0
            } else {
                next != 0 && closes_after(ends, next, (steps - 1) as nat)
            },
        }
    }
}

/// The ends are those of edges that form one cycle through all of them.
pub open spec fn closes_cycle(ends: Seq<u64>) -> bool {
    closes_after(ends, 0, ends.len() / 2)
}

/// The edges are a cycle proof for the keys: `PROOF_SIZE` edges of the
/// graph, in strictly ascending order, that form one cycle.
pub open spec fn is_cycle_proof(keys: Seq<u64>, edges: Seq<u64>) -> bool {
    &&& edges.len() == PROOF_SIZE
    &&& forall|i: int| 0 <= i < edges.len() ==> edges[i] <= EDGE_MASK
    &&& forall|i: int| 0 <= i < edges.len() - 1 ==> #[trigger] edges[i] < edges[i + 1]
    &&& closes_cycle(ends_of(keys, edges))
}

fn rotate_left(x: u64, n: u32) -> (r: u64)
    requires
        0 < n < 64,
    ensures
        r == rotl(x, n as u64),
{
    (x << n) | (x >> (64 - n))
}

fn round(s: SipState) -> (r: SipState)
    ensures
        r == sip_round(s),
{
    let v0 = s.v0.wrapping_add(s.v1);
    let v2 = s.v2.wrapping_add(s.v3);
    let v1 = rotate_left(s.v1, 13) ^ v0;
    let v3 = rotate_left(s.v3, 16) ^ v2;
    let v0 = rotate_left(v0, 32);
    let v2 = v2.wrapping_add(v1);
    let v0 = v0.wrapping_add(v3);
    let v1 = rotate_left(v1, 17) ^ v2;
    let v3 = rotate_left(v3, 21) ^ v0;
    let v2 = rotate_left(v2, 32);
    SipState { v0, v1, v2, v3 }
}

/// SipHash-2-4 of `word` under the four keys.
pub fn siphash24(keys: &[u64; 4], word: u64) -> (hash: u64)
    ensures
        hash == sip_hash(keys@, word),
{
    let start = SipState { v0: keys[0], v1: keys[1], v2: keys[2], v3: keys[3] ^ word };
    let s = round(round(start));
    let s = SipState { v0: s.v0 ^ word, v1: s.v1, v2: s.v2 ^ 0xff, v3: s.v3 };
    let s = round(round(round(round(s))));
    (s.v0 ^ s.v1) ^ (s.v2 ^ s.v3)
}

/// The node at which `edge` ends on side 0 (`far` false) or side 1 (`far`
/// true).
pub fn edge_node(keys: &[u64; 4], edge: u64, far: bool) -> (n: u64)
    requires
        edge <= EDGE_MASK,
    ensures
        n == node(keys@, edge, if far { 1 } else { 0 }),
        n <= EDGE_MASK,
{
    let side: u64 = if far { 1 } else { 0 };
    let hash = siphash24(keys, 2 * edge + side);
    assert(hash & EDGE_MASK <= EDGE_MASK) by (bit_vector);
    hash & EDGE_MASK
}

/// The only other end at the node of end `i`, if there is exactly one.
fn find_partner(ends: &Vec<u64>, i: usize) -> (found: Option<usize>)
    requires
        ends.len() == 2 * PROOF_SIZE,
        i < ends.len(),
    ensures
        match found {
            Some(j) => sole_partner(ends@, i as int, j as int),
            None => forall|j: int| !sole_partner(ends@, i as int, j),
        },
{
    let mut found: Option<usize> = None;
    let mut k: usize = i % 2;
    while k < ends.len()
        invariant
            ends.len() == 2 * PROOF_SIZE,
            i < ends.len(),
            k % 2 == i % 2,
            k <= ends.len() + 1,
            match found {
                Some(j) => j < k && meets(ends@, i as int, j as int),
                None => true,
            },
            forall|m: int| 0 <= m < k && meets(ends@, i as int, m) ==> found == Some(m as usize),
        decreases ends.len() + 2 - k,
    {
        if k != i && ends[k] == ends[i] {
            if found.is_some() {
                proof {
                    let first = found.unwrap() as int;
                    assert(meets(ends@, i as int, first) && meets(ends@, i as int, k as int));
                    assert forall|j: int| !sole_partner(ends@, i as int, j) by {
                        if sole_partner(ends@, i as int, j) {
                            assert(first == j && k == j);
                        }
                    }
                }
                return None;
            }
            found = Some(k);
        }
        k = k + 2;
    }
    found
}

/// Whether the ends are those of edges that form one cycle through all of
/// them.
fn walk_closes(ends: &Vec<u64>) -> (ok: bool)
    requires
        ends.len() == 2 * PROOF_SIZE,
    ensures
        ok == closes_cycle(ends@),
{
    let mut i: usize = 0;
    let mut n: usize = 0;
    while n < PROOF_SIZE
        invariant
            ends.len() == 2 * PROOF_SIZE,
            n <= PROOF_SIZE,
            i < ends.len(),
            n < PROOF_SIZE ==> closes_cycle(ends@) == closes_after(
                ends@,
                i as int,
                (PROOF_SIZE - n) as nat,
            ),
            n == PROOF_SIZE ==> closes_cycle(ends@) == (i == 0),
        decreases PROOF_SIZE - n,
    {
        let found = find_partner(ends, i);
        let j = match found {
            Some(j) => j,
            None => {
                return false;
            },
        };
        let next = if j % 2 == 0 {
            j + 1
        } else {
            j - 1
        };
        assert(step(ends@, i as int) == Some(next as int)) by {
            let chosen = choose|c: int| sole_partner(ends@, i as int, c);
            assert(sole_partner(ends@, i as int, j as int));
            assert(chosen == j);
        }
        n = n + 1;
        if n < PROOF_SIZE && next == 0 {
            return false;
        }
        i = next;
    }
    i == 0
}

/// Whether `edges` is a cycle proof for `keys`.
pub fn verify_cycle(keys: &[u64; 4], edges: &[u64; PROOF_SIZE]) -> (ok: bool)
    ensures
        ok == is_cycle_proof(keys@, edges@),
{
    let mut ends: Vec<u64> = Vec::new();
    let mut n: usize = 0;
    while n < PROOF_SIZE
        invariant
            n <= PROOF_SIZE,
            ends.len() == 2 * n,
            forall|i: int| 0 <= i < n ==> edges@[i] <= EDGE_MASK,
            forall|i: int| 0 <= i < n - 1 ==> #[trigger] edges@[i] < edges@[i + 1],
            forall|k: int| 0 <= k < 2 * n ==> ends@[k] == node(keys@, edges@[k / 2], k % 2),
        decreases PROOF_SIZE - n,
    {
        let edge = edges[n];
        if edge > EDGE_MASK {
            return false;
        }
        if n > 0 && edge <= edges[n - 1] {
            return false;
        }
        let near = edge_node(keys, edge, false);
        let far = edge_node(keys, edge, true);
        ends.push(near);
        ends.push(far);
        n = n + 1;
    }
    assert(ends@ =~= ends_of(keys@, edges@));
    walk_closes(&ends)
}

} // verus!
