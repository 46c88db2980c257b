use vstd::prelude::*;
use crate::document::File;
use crate::report::{CritiqueReport, Outcome, PipelineError};

verus! {

/// The reports of the successful outcomes, in order.
pub open spec fn successes(s: Seq<Outcome>) -> Seq<CritiqueReport>
    decreases s.len(),
{
    if s.len() == 0 {
        Seq::empty()
    } else {
        let rest = successes(s.subrange(1, s.len() as int));
        match s[0] {
            Ok(rep) => seq![rep] + rest,
            Err(_) => rest,
        }
    }
}

/// How many outcomes are failures.
pub open spec fn failure_count(s: Seq<Outcome>) -> nat
    decreases s.len(),
{
    if s.len() == 0 {
        0
    } else {
        let rest = failure_count(s.subrange(1, s.len() as int));
        if s[0] is Err {
            rest + 1
        } else {
            rest
        }
    }
}

/// Runs the per-document work once for every document. The outcomes stand
/// in input order, one for each document, whatever each of them is.
pub fn batch_execute<T, F: Fn(&File) -> T>(docs: &Vec<File>, run: F) -> (r: Vec<T>)
    requires
        forall|i: int| 0 <= i < docs.len() ==> run.requires((&docs[i],)),
    ensures
        r.len() == docs.len(),
        forall|i: int| 0 <= i < docs.len() ==> run.ensures((&docs[i],), #[trigger] r[i]),
{
    let mut out: Vec<T> = Vec::new();
    let mut i: usize = 0;
    while i < docs.len()
        invariant
            i <= docs.len(),
            out.len() == i,
            forall|k: int| 0 <= k < docs.len() ==> run.requires((&docs[k],)),
            forall|k: int| 0 <= k < i ==> run.ensures((&docs[k],), #[trigger] out[k]),
        decreases docs.len() - i,
    {
        let o = run(&docs[i]);
        out.push(o);
        i = i + 1;
    }
    out
}

/// Keeps the reports of the successful outcomes, in order, and drops the failures.
pub fn collect_reports(outcomes: Vec<Outcome>) -> (r: Vec<CritiqueReport>)
    ensures
        r@ == successes(outcomes@),
{
    let ghost all = outcomes@;
    let mut rest = outcomes;
    let mut out: Vec<CritiqueReport> = Vec::new();
    while rest.len() > 0
        invariant
            successes(all) == out@ + successes(rest@),
        decreases rest.len(),
    {
        let ghost before = rest@;
        let o = rest.remove(0);
        assert(before.subrange(1, before.len() as int) =~= rest@);
        match o {
            Ok(rep) => {
                out.push(rep);
                assert(successes(all) == out@ + successes(rest@));
            },
            Err(_) => {},
        }
    }
    assert(out@ + successes(rest@) =~= out@);
    out
}

/// Every collected report is the report of some successful outcome.
pub proof fn lemma_collected_are_successes(s: Seq<Outcome>, k: int)
    requires
        0 <= k < successes(s).len(),
    ensures
        exists|i: int| 0 <= i < s.len() && s[i] == Ok::<CritiqueReport, PipelineError>(successes(s)[k]),
    decreases s.len(),
{
    let tail = s.subrange(1, s.len() as int);
    match s[0] {
        Ok(rep) => {
            if k == 0 {
                assert(s[0] == Ok::<CritiqueReport, PipelineError>(successes(s)[k]));
            } else {
                lemma_collected_are_successes(tail, k - 1);
                let i = choose|i: int| 0 <= i < tail.len() && tail[i] == Ok::<CritiqueReport, PipelineError>(successes(tail)[k - 1]);
                assert(s[i + 1] == tail[i]);
            }
        },
        Err(_) => {
            lemma_collected_are_successes(tail, k);
            let i = choose|i: int| 0 <= i < tail.len() && tail[i] == Ok::<CritiqueReport, PipelineError>(successes(tail)[k]);
            assert(s[i + 1] == tail[i]);
        },
    }
}

/// The collected reports number the outcomes less the failures, so never
/// more than the outcomes.
pub proof fn lemma_collected_count(s: Seq<Outcome>)
    ensures
        successes(s).len() + failure_count(s) == s.len(),
        successes(s).len() <= s.len(),
    decreases s.len(),
{
    if s.len() > 0 {
        lemma_collected_count(s.subrange(1, s.len() as int));
    }
}

/// With no outcomes there is nothing to collect.
pub proof fn lemma_collect_empty(s: Seq<Outcome>)
    requires
        s.len() == 0,
    ensures
        successes(s) == Seq::<CritiqueReport>::empty(),
{
}

} // verus!
