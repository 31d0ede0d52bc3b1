//! The majority reducer: given the payload-status answers collected from the
//! pool, pick the modal answer if it meets the configured threshold, with the
//! safety rule that any single invalid answer forces a stall.

use crate::types::{PayloadStatusV1, PayloadStatusValue};
use vstd::arithmetic::div_mod::{lemma_div_is_ordered, lemma_div_multiples_vanish};
use vstd::arithmetic::mul::lemma_mul_inequality;
use vstd::prelude::*;

verus! {

/// Why the reducer could not produce an authoritative answer.
#[derive(Clone, Copy, Debug, PartialEq, Eq, Structural)]
pub enum FcuLogicError {
    /// No node answered at all.
    NoResponses,
    /// No answer reached the configured share of the responses.
    NoMajority,
    /// The majority answer was not invalid, but some node answered invalid.
    OneNodeIsInvalid,
}

/// How many of the answers in `s` are, as answers, equal to `x`.
pub open spec fn count_matching(s: Seq<PayloadStatusV1>, x: PayloadStatusValue) -> nat
    decreases s.len(),
{
    if s.len() == 0 {
        0
    } else {
        count_matching(s.drop_last(), x) + if s.last()@ == x {
            1nat
        } else {
            0nat
        }
    }
}

/// `s[i]` is the modal answer: no answer occurs more often, and every earlier
/// answer occurs strictly less often (so `i` is also the first position where
/// the modal answer appears).
pub open spec fn is_mode_at(s: Seq<PayloadStatusV1>, i: int) -> bool {
    &&& 0 <= i < s.len()
    &&& forall|j: int|
        0 <= j < s.len() ==> count_matching(s, s[j]@) <= count_matching(s, s[i]@)
    &&& forall|j: int| 0 <= j < i ==> count_matching(s, s[j]@) < count_matching(s, s[i]@)
}

/// The position of the modal answer.
pub open spec fn mode_index(s: Seq<PayloadStatusV1>) -> int {
    choose|i: int| is_mode_at(s, i)
}

/// The number of matching answers needed for a majority: the floor of the
/// response count times the threshold, the latter in thousandths.
pub open spec fn spec_majority_count(n: nat, majority_milli: u64) -> nat {
    ((n * majority_milli) / 1000) as nat
}

/// Whether any answer in `s` declares the block invalid.
pub open spec fn has_invalid(s: Seq<PayloadStatusV1>) -> bool {
    exists|i: int| 0 <= i < s.len() && s[i]@.status.spec_is_invalid()
}

/// The whole reducer decision on the answer sequence `s` under a threshold of
/// `majority_milli` thousandths.
pub open spec fn spec_fcu_logic(s: Seq<PayloadStatusV1>, majority_milli: u64) -> Result<
    PayloadStatusValue,
    FcuLogicError,
> {
    if s.len() == 0 {
        Err(FcuLogicError::NoResponses)
    } else {
        let m = s[mode_index(s)]@;
        if count_matching(s, m) < spec_majority_count(s.len(), majority_milli) {
            Err(FcuLogicError::NoMajority)
        } else if m.status.spec_is_invalid() {
            Ok(m)
        } else if has_invalid(s) {
            Err(FcuLogicError::OneNodeIsInvalid)
        } else {
            Ok(m)
        }
    }
}

/// Counting one more element extends the count by whether it matches.
proof fn lemma_count_take_step(s: Seq<PayloadStatusV1>, x: PayloadStatusValue, j: int)
    requires
        0 <= j < s.len(),
    ensures
        count_matching(s.take(j + 1), x) == count_matching(s.take(j), x) + if s[j]@ == x {
            1nat
        } else {
            0nat
        },
{
    assert(s.take(j + 1).drop_last() =~= s.take(j));
    assert(s.take(j + 1).last() == s[j]);
}

/// There is only one position that satisfies `is_mode_at`.
pub proof fn lemma_mode_unique(s: Seq<PayloadStatusV1>, i: int, j: int)
    requires
        is_mode_at(s, i),
        is_mode_at(s, j),
    ensures
        i == j,
{
    if i < j {
        assert(count_matching(s, s[i]@) < count_matching(s, s[j]@));
        assert(count_matching(s, s[j]@) <= count_matching(s, s[i]@));
    }
    if j < i {
        assert(count_matching(s, s[j]@) < count_matching(s, s[i]@));
        assert(count_matching(s, s[i]@) <= count_matching(s, s[j]@));
    }
}

/// Counts how many answers in `resps` equal `x` as answers.
fn count_same(resps: &Vec<PayloadStatusV1>, x: &PayloadStatusV1) -> (c: usize)
    ensures
        c == count_matching(resps@, x@),
{
    let mut c: usize = 0;
    let mut j: usize = 0;
    while j < resps.len()
        invariant
            j <= resps@.len(),
            c <= j,
            c == count_matching(resps@.take(j as int), x@),
        decreases resps@.len() - j,
    {
        proof {
            lemma_count_take_step(resps@, x@, j as int);
        }
        if resps[j].same(x) {
            c += 1;
        }
        j += 1;
    }
    proof {
        assert(resps@.take(resps@.len() as int) =~= resps@);
    }
    c
}

/// Returns the modal answer if it accounts for at least the configured share
/// of the responses, in thousandths; `None` if there is no such majority.
/// When counts tie, the answer appearing first wins.
pub fn fcu_majority(resps: &Vec<PayloadStatusV1>, majority_milli: u64) -> (r: Option<
    PayloadStatusV1,
>)
    requires
        majority_milli <= 1000,
    ensures
        resps@.len() == 0 ==> r is None,
        resps@.len() > 0 ==> is_mode_at(resps@, mode_index(resps@)),
        resps@.len() > 0 ==> {
            let m = resps@[mode_index(resps@)]@;
            if count_matching(resps@, m) >= spec_majority_count(resps@.len(), majority_milli) {
                r matches Some(x) && x@ == m
            } else {
                r is None
            }
        },
{
    let n = resps.len();
    if n == 0 {
        return None;
    }
    let mut best_i: usize = 0;
    let mut best_count: usize = count_same(resps, &resps[0]);
    let mut i: usize = 1;
    while i < n
        invariant
            n == resps@.len(),
            1 <= i <= n,
            0 <= best_i < i,
            best_count == count_matching(resps@, resps@[best_i as int]@),
            forall|j: int|
                0 <= j < i ==> count_matching(resps@, resps@[j]@) <= count_matching(
                    resps@,
                    resps@[best_i as int]@,
                ),
            forall|j: int|
                0 <= j < best_i ==> count_matching(resps@, resps@[j]@) < count_matching(
                    resps@,
                    resps@[best_i as int]@,
                ),
        decreases n - i,
    {
        let c = count_same(resps, &resps[i]);
        if c > best_count {
            best_i = i;
            best_count = c;
        }
        i += 1;
    }
    assert(is_mode_at(resps@, best_i as int));
    proof {
        lemma_mode_unique(resps@, best_i as int, mode_index(resps@));
    }
    let ghost len = resps@.len();
    proof {
        lemma_mul_inequality(majority_milli as int, 1000, len as int);
        lemma_div_is_ordered((len * majority_milli) as int, (len * 1000) as int, 1000);
        lemma_div_multiples_vanish(len as int, 1000);
    }
    let needed = ((n as u128) * (majority_milli as u128) / 1000) as usize;
    if best_count >= needed {
        Some(resps[best_i].duplicate())
    } else {
        None
    }
}

/// The reducer: picks the majority answer from `resps`, declaring the block
/// invalid only when the majority does, and stalling (via an error) when any
/// single node disagrees by declaring it invalid.
pub fn fcu_logic(resps: &Vec<PayloadStatusV1>, majority_milli: u64) -> (r: Result<
    PayloadStatusV1,
    FcuLogicError,
>)
    requires
        majority_milli <= 1000,
    ensures
        ({
            let d = spec_fcu_logic(resps@, majority_milli);
            match r {
                Ok(x) => d == Ok::<PayloadStatusValue, FcuLogicError>(x@),
                Err(e) => d == Err::<PayloadStatusValue, FcuLogicError>(e),
            }
        }),
{
    if resps.len() == 0 {
        return Err(FcuLogicError::NoResponses);
    }
    let majority = match fcu_majority(resps, majority_milli) {
        Some(majority) => majority,
        None => {
            return Err(FcuLogicError::NoMajority);
        },
    };
    if majority.status.is_invalid() {
        return Ok(majority);
    }
    let mut i: usize = 0;
    while i < resps.len()
        invariant
            i <= resps@.len(),
            resps@.len() > 0,
            is_mode_at(resps@, mode_index(resps@)),
            majority@ == resps@[mode_index(resps@)]@,
            count_matching(resps@, majority@) >= spec_majority_count(
                resps@.len(),
                majority_milli,
            ),
            !majority@.status.spec_is_invalid(),
            forall|j: int| 0 <= j < i ==> !resps@[j]@.status.spec_is_invalid(),
        decreases resps@.len() - i,
    {
        if resps[i].status.is_invalid() {
            return Err(FcuLogicError::OneNodeIsInvalid);
        }
        i += 1;
    }
    assert(!has_invalid(resps@));
    Ok(majority)
}

/// Reducer safety: when the modal answer meets the threshold, the reducer
/// stalls if any node answered invalid while the majority did not, and it
/// returns the invalid majority verbatim when the majority itself is invalid.
pub proof fn lemma_reducer_safety(s: Seq<PayloadStatusV1>, majority_milli: u64)
    requires
        s.len() > 0,
        count_matching(s, s[mode_index(s)]@) >= spec_majority_count(s.len(), majority_milli),
    ensures
        has_invalid(s) && !s[mode_index(s)]@.status.spec_is_invalid() ==> spec_fcu_logic(
            s,
            majority_milli,
        ) == Err::<PayloadStatusValue, FcuLogicError>(FcuLogicError::OneNodeIsInvalid),
        s[mode_index(s)]@.status.spec_is_invalid() ==> spec_fcu_logic(s, majority_milli)
            == Ok::<PayloadStatusValue, FcuLogicError>(s[mode_index(s)]@),
{
}

} // verus!
