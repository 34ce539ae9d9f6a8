//! The run-time policy of the generated routine: greedy first-match
//! selection.
//!
//! The generated parsing routine tries each variant's inner parser in
//! declaration order and keeps the first success. [`greedy_parse`] is that
//! policy over the outcomes of the attempts: handed one outcome per variant,
//! in declaration order, it returns the earliest success, or a
//! [`ParseError`] carrying the input when every attempt failed.
use crate::ParseError;
use vstd::prelude::*;

verus! {

/// The first successful outcome of `s`, in order, if any.
pub open spec fn first_success<T>(s: Seq<Option<T>>) -> Option<T>
    decreases s.len(),
{
    if s.len() == 0 {
        None
    } else if s[0] is Some {
        s[0]
    } else {
        first_success(s.drop_first())
    }
}

/// What greedy selection returns for the outcomes `s` and the input string
/// `input`: the first successful outcome, or an error whose span is the
/// input when there is none.
pub open spec fn selection_post<T>(
    s: Seq<Option<T>>,
    input: Seq<char>,
    r: Result<T, ParseError>,
) -> bool {
    match r {
        Ok(v) => first_success(s) == Some(v),
        Err(e) => first_success(s) is None && e.span@ == input,
    }
}

/// Selection fails exactly when every outcome failed.
pub proof fn lemma_first_success_none<T>(s: Seq<Option<T>>)
    ensures
        first_success(s) is None <==> (forall|k: int| 0 <= k < s.len() ==> s[k] is None),
    decreases s.len(),
{
    if s.len() > 0 {
        lemma_first_success_none(s.drop_first());
        assert(forall|k: int|
            0 <= k < s.drop_first().len() ==> s.drop_first()[k] == #[trigger] s[k + 1]);
        if s[0] is None && forall|k: int|
            0 <= k < s.drop_first().len() ==> #[trigger] s.drop_first()[k] is None {
            assert forall|k: int| 0 <= k < s.len() implies s[k] is None by {
                if k > 0 {
                    assert(s.drop_first()[k - 1] is None);
                }
            }
        }
    }
}

/// Greedy selection returns the success of least index: if the outcome at
/// `k` succeeded and every earlier outcome failed, the selection is exactly
/// the outcome at `k`.
pub proof fn lemma_first_success_least<T>(s: Seq<Option<T>>, k: int)
    requires
        0 <= k < s.len(),
        s[k] is Some,
        forall|j: int| 0 <= j < k ==> s[j] is None,
    ensures
        first_success(s) == s[k],
    decreases s.len(),
{
    if k > 0 {
        lemma_first_success_least(s.drop_first(), k - 1);
    }
}

/// Greedy selection is deterministic: any two results that satisfy the
/// selection contract for the same outcomes and the same input are
/// structurally equal — the same success value, or errors with the same
/// span.
pub proof fn lemma_selection_deterministic<T>(
    s: Seq<Option<T>>,
    input: Seq<char>,
    r1: Result<T, ParseError>,
    r2: Result<T, ParseError>,
)
    requires
        selection_post(s, input, r1),
        selection_post(s, input, r2),
    ensures
        match (r1, r2) {
            (Ok(v1), Ok(v2)) => v1 == v2,
            (Err(e1), Err(e2)) => e1.span@ == e2.span@,
            _ => false,
        },
{
}

/// Reordering the outcomes never changes the result for an input that
/// exactly one variant matches. `p` carries the rearrangement: position `j`
/// of `s2` holds what position `p[j]` of `s1` held, and some position of
/// `s2` holds the match (any true rearrangement satisfies both). If `s1`
/// succeeds only at position `i`, selection over `s2` returns that same
/// success.
pub proof fn lemma_reorder_unique_match<T>(
    s1: Seq<Option<T>>,
    s2: Seq<Option<T>>,
    p: Seq<int>,
    i: int,
)
    requires
        s2.len() == s1.len(),
        p.len() == s1.len(),
        forall|j: int| 0 <= j < p.len() ==> 0 <= #[trigger] p[j] < s1.len(),
        forall|j: int| 0 <= j < s2.len() ==> s2[j] == s1[#[trigger] p[j]],
        exists|j: int| 0 <= j < p.len() && #[trigger] p[j] == i,
        0 <= i < s1.len(),
        s1[i] is Some,
        forall|j: int| 0 <= j < s1.len() && j != i ==> s1[j] is None,
    ensures
        first_success(s2) == first_success(s1),
        first_success(s2) == s1[i],
{
    lemma_first_success_least(s1, i);
    let j0 = choose|j: int| 0 <= j < p.len() && #[trigger] p[j] == i;
    assert(s2[j0] is Some);
    assert forall|j: int| 0 <= j < s2.len() && #[trigger] s2[j] is Some implies s2[j] == s1[i] by {
        assert(s2[j] == s1[p[j]]);
    }
    lemma_first_success_some_unique_value(s2, s1[i]);
}

/// If some outcome of `s` succeeded and every successful outcome of `s` is
/// the same value `v`, then selection over `s` is `v`.
proof fn lemma_first_success_some_unique_value<T>(s: Seq<Option<T>>, v: Option<T>)
    requires
        v is Some,
        exists|j: int| 0 <= j < s.len() && #[trigger] s[j] is Some,
        forall|j: int| 0 <= j < s.len() && #[trigger] s[j] is Some ==> s[j] == v,
    ensures
        first_success(s) == v,
    decreases s.len(),
{
    if s[0] is Some {
    } else {
        let j = choose|j: int| 0 <= j < s.len() && #[trigger] s[j] is Some;
        assert(s.drop_first()[j - 1] is Some);
        assert(forall|j: int|
            0 <= j < s.drop_first().len() ==> s.drop_first()[j] == #[trigger] s[j + 1]);
        lemma_first_success_some_unique_value(s.drop_first(), v);
    }
}

/// Greedy first-match selection over the outcomes of trying each variant's
/// parser on `input`, in declaration order: the earliest success is
/// returned; when every attempt failed, the result is a [`ParseError`]
/// whose span is `input` itself.
#[verifier::loop_isolation(false)]
pub fn greedy_parse<T>(outcomes: Vec<Option<T>>, input: &str) -> (r: Result<T, ParseError>)
    ensures
        selection_post(outcomes@, input@, r),
{
    let ghost s = outcomes@;
    let mut attempts = outcomes;
    let mut i: usize = 0;
    while i < attempts.len()
        invariant
            attempts@ == s,
            0 <= i <= s.len(),
            forall|j: int| 0 <= j < i ==> s[j] is None,
        decreases s.len() - i,
    {
        if attempts[i].is_some() {
            proof {
                lemma_first_success_least(s, i as int);
            }
            let slot = attempts.remove(i);
            match slot {
                Some(v) => {
                    return Ok(v);
                },
                None => {
                    return unreached();
                },
            }
        }
        i += 1;
    }
    proof {
        lemma_first_success_none(s);
    }
    Err(ParseError::new(input.to_owned()))
}

} // verus!
