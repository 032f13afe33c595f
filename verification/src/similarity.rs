//! Similarity scores and the choice of the best candidate.
//!
//! A score is the 64-bit pattern of a double-precision number: one sign bit,
//! eleven exponent bits, fifty-two fraction bits. Scores are compared as the
//! numbers they encode. A pattern that encodes no number compares neither
//! above nor below anything, and the two zeros compare equal.

use vstd::prelude::*;

verus! {

/// The pattern of -1.0: the similarity given to a candidate whose similarity
/// to the query cannot be evaluated, and the level a candidate has to exceed
/// to be considered at all.
pub const WORST_SIMILARITY: u64 = 0xBFF0_0000_0000_0000;

/// The sign bit of a pattern.
pub const SIGN_BIT: u64 = 0x8000_0000_0000_0000;

/// The pattern of positive infinity: the largest magnitude that encodes a
/// number.
pub const INFINITY_BITS: u64 = 0x7FF0_0000_0000_0000;

/// The pattern without its sign bit.
pub open spec fn magnitude(bits: u64) -> int {
    if bits >= SIGN_BIT {
        bits - SIGN_BIT
    } else {
        bits as int
    }
}

/// Whether the pattern encodes a number, infinities included.
pub open spec fn is_number(bits: u64) -> bool {
    magnitude(bits) <= INFINITY_BITS
}

/// An integer that orders the patterns that encode numbers as those numbers
/// are ordered.
pub open spec fn rank(bits: u64) -> int {
    if bits >= SIGN_BIT {
        -magnitude(bits)
    } else {
        magnitude(bits)
    }
}

/// `a > b`, as numbers.
pub open spec fn exceeds(a: u64, b: u64) -> bool {
    is_number(a) && is_number(b) && rank(a) > rank(b)
}

/// `a == b`, as numbers.
pub open spec fn ties(a: u64, b: u64) -> bool {
    is_number(a) && is_number(b) && rank(a) == rank(b)
}

/// The rank of a pattern, or `None` where it encodes no number.
pub fn rank_of(bits: u64) -> (r: Option<i64>)
    ensures
        r is Some <==> is_number(bits),
        r matches Some(value) ==> value == rank(bits),
{
    if bits >= SIGN_BIT {
        let magnitude: u64 = bits - SIGN_BIT;
        if magnitude <= INFINITY_BITS {
            Some(-(magnitude as i64))
        } else {
            None
        }
    } else if bits <= INFINITY_BITS {
        Some(bits as i64)
    } else {
        None
    }
}

/// Compares two scores as numbers: whether `a` is strictly greater than `b`.
pub fn similarity_exceeds(a: u64, b: u64) -> (greater: bool)
    ensures
        greater == exceeds(a, b),
{
    match (rank_of(a), rank_of(b)) {
        (Some(x), Some(y)) => x > y,
        _ => false,
    }
}

/// A stored vector together with its similarity to a query, where that could
/// be evaluated.
#[derive(Debug)]
pub struct Candidate {
    pub vector: Vec<u64>,
    pub similarity: Option<u64>,
}

/// The score that counts for candidate `i`: the one computed for it, or the
/// worst one where none could be computed.
pub open spec fn score_at(candidates: Seq<Candidate>, i: int) -> u64 {
    match candidates[i].similarity {
        Some(score) => score,
        None => WORST_SIMILARITY,
    }
}

/// Candidate `i` wins the scan: its score exceeds the worst similarity, no
/// candidate's score exceeds it, and no earlier candidate ties with it.
pub open spec fn is_winner(candidates: Seq<Candidate>, i: int) -> bool {
    &&& 0 <= i < candidates.len()
    &&& exceeds(score_at(candidates, i), WORST_SIMILARITY)
    &&& forall|j: int|
        0 <= j < candidates.len() ==> !exceeds(
            #[trigger] score_at(candidates, j),
            score_at(candidates, i),
        )
    &&& forall|j: int|
        0 <= j < i ==> !ties(#[trigger] score_at(candidates, j), score_at(candidates, i))
}

/// The index of the winner, if there is one.
pub open spec fn winner(candidates: Seq<Candidate>) -> Option<int> {
    if exists|i: int| is_winner(candidates, i) {
        Some(choose|i: int| is_winner(candidates, i))
    } else {
        None
    }
}

/// What a scan returns: the winner's vector where its score exceeds the
/// threshold, and nothing otherwise.
pub open spec fn best_of(candidates: Seq<Candidate>, threshold: u64) -> Option<Seq<u64>> {
    match winner(candidates) {
        Some(i) => if exceeds(score_at(candidates, i), threshold) {
            Some(candidates[i].vector@)
        } else {
            None
        },
        None => None,
    }
}

/// At most one candidate wins.
pub proof fn lemma_winner_unique(candidates: Seq<Candidate>, i: int, j: int)
    requires
        is_winner(candidates, i),
        is_winner(candidates, j),
    ensures
        i == j,
{
    if i < j {
        assert(!exceeds(score_at(candidates, j), score_at(candidates, i)));
        assert(!ties(score_at(candidates, i), score_at(candidates, j)));
    } else if j < i {
        assert(!exceeds(score_at(candidates, i), score_at(candidates, j)));
        assert(!ties(score_at(candidates, j), score_at(candidates, i)));
    }
}

/// What a vector that may be absent is to a contract.
pub open spec fn vector_view(vector: Option<Vec<u64>>) -> Option<Seq<u64>> {
    match vector {
        Some(v) => Some(v@),
        None => None,
    }
}

/// Picks the best candidate. The candidates are scanned in order; one
/// replaces the best so far only if its score is strictly greater, so the
/// first to reach the maximum keeps it. The best is returned only if its
/// score is strictly greater than `threshold`.
pub fn best_match(candidates: &Vec<Candidate>, threshold: u64) -> (best: Option<Vec<u64>>)
    ensures
        vector_view(best) == best_of(candidates@, threshold),
{
    let mut best_sim: u64 = WORST_SIMILARITY;
    let mut best_index: Option<usize> = None;
    let mut i: usize = 0;
    while i < candidates.len()
        invariant
            0 <= i <= candidates.len(),
            is_number(best_sim),
            best_index is None ==> best_sim == WORST_SIMILARITY,
            best_index is None ==> forall|j: int|
                0 <= j < i ==> !exceeds(#[trigger] score_at(candidates@, j), WORST_SIMILARITY),
            best_index matches Some(b) ==> {
                &&& b < i
                &&& best_sim == score_at(candidates@, b as int)
                &&& exceeds(best_sim, WORST_SIMILARITY)
                &&& forall|j: int|
                    0 <= j < i ==> !exceeds(#[trigger] score_at(candidates@, j), best_sim)
                &&& forall|j: int|
                    0 <= j < b ==> !ties(#[trigger] score_at(candidates@, j), best_sim)
            },
        decreases candidates.len() - i,
    {
        let sim: u64 = match candidates[i].similarity {
            Some(score) => score,
            None => WORST_SIMILARITY,
        };
        assert(sim == score_at(candidates@, i as int));
        if similarity_exceeds(sim, best_sim) {
            best_sim = sim;
            best_index = Some(i);
        }
        i += 1;
    }
    match best_index {
        Some(b) => {
            assert(is_winner(candidates@, b as int));
            proof {
                lemma_winner_unique(candidates@, b as int, winner(candidates@).unwrap());
            }
            if similarity_exceeds(best_sim, threshold) {
                Some(candidates[b].vector.clone())
            } else {
                None
            }
        },
        None => {
            assert(forall|j: int| !is_winner(candidates@, j));
            None
        },
    }
}

} // verus!
