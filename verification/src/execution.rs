//! Executing planned fixtures: the cache key of a fixture in a run, the
//! result an execution failure is recorded as, and how a cached result
//! takes the place of running a fixture.

use vstd::prelude::*;

use crate::cache::CacheKey;
use crate::errors::CanaryError;
use crate::model::{CompatibilityResult, ExecutionContext, ProtocolVersion, Status, Surface};
use crate::text::owned;
use crate::xdr::{xdr_result_matches, DefaultXdrRunner, XdrFixture, XdrRunner};

verus! {

/// The result recorded for a fixture that could not be executed.
pub open spec fn is_error_result(r: CompatibilityResult, fixture_id: Seq<char>, protocol: ProtocolVersion, surface: Surface, message: Seq<char>) -> bool {
    &&& r.test_id@ == fixture_id
    &&& r.protocol == protocol
    &&& r.surface == surface
    &&& r.status == Status::Error
    &&& r.summary@ == "failed to execute fixture"@
    &&& r.details matches Some(d) && d@ == message
    &&& r.duration_ms == 0
    &&& r.fixture_id matches Some(f) && f@ == fixture_id
}

pub fn error_result(fixture_id: &str, protocol: ProtocolVersion, surface: Surface, message: &str) -> (r: CompatibilityResult)
    ensures
        is_error_result(r, fixture_id@, protocol, surface, message@),
{
    CompatibilityResult {
        test_id: owned(fixture_id),
        protocol,
        surface,
        status: Status::Error,
        summary: owned("failed to execute fixture"),
        details: Some(owned(message)),
        duration_ms: 0,
        fixture_id: Some(owned(fixture_id)),
    }
}

/// The project fingerprint a run's cache entries are keyed by: the Git
/// commit (marked `-dirty` when the working tree is known to be dirty),
/// or the project name outside Git.
pub open spec fn fingerprint_text(context: ExecutionContext) -> Seq<char> {
    match context.git.commit {
        Some(c) => if context.git.is_dirty == Some(true) {
            c@ + "-dirty"@
        } else {
            c@
        },
        None => context.project.name@,
    }
}

/// The cache key of fixture `fixture_id` in this run.
pub fn cache_key(context: &ExecutionContext, fixture_id: &str) -> (k: CacheKey)
    ensures
        k.fixture_id@ == fixture_id@,
        k.protocol == context.protocol,
        k.project_fingerprint@ == fingerprint_text(*context),
        k.rpc_endpoint == context.network.rpc_url,
        k.observed_protocol == context.network.observed_protocol,
{
    let project_fingerprint = match &context.git.commit {
        Some(commit) => {
            if context.git.is_dirty == Some(true) {
                let mut f = commit.clone();
                f.append("-dirty");
                f
            } else {
                commit.clone()
            }
        },
        None => context.project.name.clone(),
    };
    CacheKey {
        fixture_id: owned(fixture_id),
        protocol: context.protocol,
        project_fingerprint,
        rpc_endpoint: context.network.rpc_url.clone(),
        observed_protocol: context.network.observed_protocol,
    }
}

/// The result of one XDR fixture in a run, given what the cache holds for
/// it: a cached result is reused as it is; otherwise the fixture is run,
/// and a run that fails to execute is recorded as an execution error. The
/// flag says whether the result is new (and so may be stored).
pub fn run_xdr_fixture(fixture: &XdrFixture, context: &ExecutionContext, cached: Option<CompatibilityResult>) -> (r: (CompatibilityResult, bool))
    ensures
        match cached {
            Some(c) => r.0 == c && !r.1,
            None => r.1 && xdr_result_matches(r.0, *fixture, r.0.duration_ms),
        },
{
    match cached {
        Some(c) => (c, false),
        None => {
            let runner = DefaultXdrRunner;
            match runner.run(fixture, context) {
                Ok(result) => (result, true),
                Err(e) => {
                    let message = e.message();
                    let r = error_result(fixture.metadata.id.as_str(), fixture.metadata.protocol, Surface::Xdr, message.as_str());
                    (r, true)
                },
            }
        },
    }
}

/// `r` is what a run gives for `fixture` when the cache held `cached` for it.
pub open spec fn xdr_outcome(r: (CompatibilityResult, bool), fixture: XdrFixture, cached: Option<CompatibilityResult>) -> bool {
    match cached {
        Some(c) => r.0 == c && !r.1,
        None => r.1 && xdr_result_matches(r.0, fixture, r.0.duration_ms),
    }
}

/// Runs XDR fixtures one after another, in order; `cached[i]` is what the
/// cache holds for `fixtures[i]`. Result `i` belongs to fixture `i`.
pub fn run_xdr(fixtures: &Vec<XdrFixture>, context: &ExecutionContext, cached: Vec<Option<CompatibilityResult>>) -> (r: Vec<(CompatibilityResult, bool)>)
    requires
        cached.len() == fixtures.len(),
    ensures
        r.len() == fixtures.len(),
        forall|i: int| 0 <= i < r.len() ==> #[trigger] xdr_outcome(r[i], fixtures[i], cached@[i]),
{
    let ghost all = cached@;
    let mut rest = cached;
    let mut results: Vec<(CompatibilityResult, bool)> = Vec::new();
    let mut i: usize = 0;
    while i < fixtures.len()
        invariant
            i <= fixtures.len(),
            all.len() == fixtures.len(),
            rest@ == all.subrange(i as int, all.len() as int),
            results.len() == i,
            forall|j: int| 0 <= j < i ==> #[trigger] xdr_outcome(results[j], fixtures[j], all[j]),
        decreases fixtures.len() - i,
    {
        let c = rest.remove(0);
        let r = run_xdr_fixture(&fixtures[i], context, c);
        results.push(r);
        i = i + 1;
    }
    results
}

/// Whether indexed results are in fixture order.
pub open spec fn in_fixture_order(s: Seq<(usize, CompatibilityResult)>) -> bool {
    forall|a: int, b: int| 0 <= a < b < s.len() ==> s[a].0 <= s[b].0
}

/// The results carrying fixture index `k`, in the order they stand in `s`.
pub open spec fn results_at(s: Seq<(usize, CompatibilityResult)>, k: usize) -> Seq<CompatibilityResult>
    decreases s.len(),
{
    if s.len() == 0 {
        Seq::empty()
    } else {
        results_at(s.drop_last(), k) + if s.last().0 == k {
            seq![s.last().1]
        } else {
            Seq::empty()
        }
    }
}

proof fn lemma_results_at_concat(a: Seq<(usize, CompatibilityResult)>, b: Seq<(usize, CompatibilityResult)>, k: usize)
    ensures
        results_at(a + b, k) == results_at(a, k) + results_at(b, k),
    decreases b.len(),
{
    if b.len() == 0 {
        assert(a + b =~= a);
        assert(results_at(a, k) + results_at(b, k) =~= results_at(a, k));
    } else {
        assert((a + b).drop_last() =~= a + b.drop_last());
        lemma_results_at_concat(a, b.drop_last(), k);
        assert((a + b).last() == b.last());
        let tail = if b.last().0 == k { seq![b.last().1] } else { Seq::<CompatibilityResult>::empty() };
        assert(results_at(a, k) + results_at(b.drop_last(), k) + tail =~= results_at(a, k) + (results_at(b.drop_last(), k) + tail));
    }
}

proof fn lemma_results_at_absent(s: Seq<(usize, CompatibilityResult)>, k: usize)
    requires
        forall|q: int| 0 <= q < s.len() ==> (#[trigger] s[q]).0 != k,
    ensures
        results_at(s, k) == Seq::<CompatibilityResult>::empty(),
    decreases s.len(),
{
    if s.len() > 0 {
        assert(s.last() == s[s.len() - 1]);
        lemma_results_at_absent(s.drop_last(), k);
        assert(results_at(s, k) =~= Seq::<CompatibilityResult>::empty());
    }
}

/// Puts results that finished in any order back in fixture order: the
/// same results, sorted by their fixture index; results with the same
/// index keep the order they came in (the sort is stable).
pub fn restore_fixture_order(indexed: Vec<(usize, CompatibilityResult)>) -> (r: Vec<(usize, CompatibilityResult)>)
    ensures
        in_fixture_order(r@),
        r@.to_multiset() == indexed@.to_multiset(),
        forall|k: usize| #[trigger] results_at(r@, k) == results_at(indexed@, k),
{
    broadcast use vstd::seq_lib::group_to_multiset_ensures;

    let ghost all = indexed@;
    let n = indexed.len();
    let mut rest = indexed;
    let mut sorted: Vec<(usize, CompatibilityResult)> = Vec::new();
    let mut i: usize = 0;
    while i < n
        invariant
            n == all.len(),
            i <= all.len(),
            rest@ == all.subrange(i as int, all.len() as int),
            in_fixture_order(sorted@),
            sorted@.to_multiset() == all.take(i as int).to_multiset(),
            forall|k: usize| #[trigger] results_at(sorted@, k) == results_at(all.take(i as int), k),
        decreases all.len() - i,
    {
        let item = rest.remove(0);
        assert(item == all[i as int]);
        let mut p: usize = sorted.len();
        while p > 0 && sorted[p - 1].0 > item.0
            invariant
                p <= sorted.len(),
                in_fixture_order(sorted@),
                forall|q: int| p <= q < sorted.len() ==> sorted@[q].0 > item.0,
            decreases p,
        {
            p = p - 1;
        }
        let ghost before = sorted@;
        sorted.insert(p, item);
        assert(sorted@ == before.insert(p as int, item));
        assert(in_fixture_order(sorted@)) by {
            assert forall|a: int, b: int| 0 <= a < b < sorted@.len() implies sorted@[a].0 <= sorted@[b].0 by {
                if b < p {
                } else if b == p {
                    if a < p {
                        assert(before[a].0 <= before[p - 1].0);
                    }
                } else if a < p {
                    assert(before[a].0 <= before[b - 1].0);
                } else if a == p {
                } else {
                    assert(before[a - 1].0 <= before[b - 1].0);
                }
            }
        }
        proof {
            let pre = before.take(p as int);
            let post = before.skip(p as int);
            assert(before =~= pre + post);
            assert(sorted@ =~= pre + seq![item] + post);
            assert(all.take(i + 1).drop_last() =~= all.take(i as int));
            assert forall|k: usize| #[trigger] results_at(sorted@, k) == results_at(all.take(i + 1), k) by {
                lemma_results_at_concat(pre, post, k);
                lemma_results_at_concat(pre + seq![item], post, k);
                lemma_results_at_concat(pre, seq![item], k);
                assert(seq![item].drop_last() =~= Seq::<(usize, CompatibilityResult)>::empty());
                assert(seq![item].last() == item);
                let single = if item.0 == k { seq![item.1] } else { Seq::<CompatibilityResult>::empty() };
                let one = seq![item];
                assert(one.len() == 1);
                assert(results_at(one.drop_last(), k) =~= Seq::<CompatibilityResult>::empty());
                assert(results_at(one, k) == results_at(one.drop_last(), k) + single);
                assert(results_at(one, k) =~= single);
                assert(results_at(sorted@, k) == results_at(pre, k) + single + results_at(post, k));
                assert(results_at(before, k) == results_at(pre, k) + results_at(post, k));
                assert(results_at(all.take(i + 1), k) =~= results_at(all.take(i as int), k) + single);
                if k == item.0 {
                    assert forall|q: int| 0 <= q < post.len() implies (#[trigger] post[q]).0 != k by {
                        assert(post[q] == sorted@[p + 1 + q]);
                    }
                    lemma_results_at_absent(post, k);
                    assert(results_at(sorted@, k) =~= results_at(before, k) + seq![item.1]);
                } else {
                    assert(results_at(sorted@, k) =~= results_at(before, k));
                }
            }
            vstd::seq_lib::to_multiset_insert(before, p as int, item);
            assert(all.take(i + 1) == all.take(i as int).push(item));
            vstd::seq_lib::to_multiset_build(all.take(i as int), item);
        }
        i = i + 1;
    }
    assert(all.take(all.len() as int) == all);
    sorted
}

} // verus!
