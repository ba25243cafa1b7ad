//! Runs: the polls that a driver makes of one wrapped unit, one after the
//! other, with the records it writes and the results it hands back.

use vstd::prelude::*;
use crate::record::{RecordView, entering_text, returned_text, occurs_in, window};
use crate::span::SpanView;
use crate::trace::TraceView;

verus! {

/// One poll, as its driver saw it.
pub struct Polled<R> {
    /// The span that was entered.
    pub span: SpanView,
    /// What the unit returned.
    pub outcome: R,
    /// How that result renders.
    pub rendering: Seq<char>,
}

/// What a driver has written and handed back so far.
#[verifier::ext_equal]
pub struct Run<R> {
    /// The records, in the order in which they were written.
    pub records: Seq<RecordView>,
    /// The results handed back to the caller, one for each poll.
    pub results: Seq<R>,
}

impl<R> Run<R> {
    /// Nothing polled yet.
    pub open spec fn start() -> Self {
        Run { records: Seq::empty(), results: Seq::empty() }
    }

    /// One more poll: the record of the entry, then the record of the
    /// result, and the result handed back.
    pub open spec fn with(self, polled: Polled<R>) -> Self {
        Run {
            records: self.records.push(polled.span.entering()).push(
                polled.span.returned(polled.rendering),
            ),
            results: self.results.push(polled.outcome),
        }
    }

    /// The run that consists of `polls`, in that order.
    pub open spec fn of(polls: Seq<Polled<R>>) -> Self
        decreases polls.len(),
    {
        if polls.len() == 0 {
            Self::start()
        } else {
            Self::of(polls.drop_last()).with(polls.last())
        }
    }
}

/// The wrapper is transparent: whatever the polls of a run, the results
/// handed back are the results that the unit returned, one for one and in
/// the same order.
pub proof fn lemma_results_are_the_units<R>(polls: Seq<Polled<R>>)
    ensures
        Run::of(polls).results.len() == polls.len(),
        forall|i: int| 0 <= i < polls.len() ==> Run::of(polls).results[i] == polls[i].outcome,
    decreases polls.len(),
{
    if polls.len() > 0 {
        lemma_results_are_the_units(polls.drop_last());
    }
}

/// Each poll of a run writes exactly two records, and they stand in the
/// order of the polls: the `i`-th poll's entry at `2 * i`, its result right
/// behind it at `2 * i + 1`.
pub proof fn lemma_records_in_call_order<R>(polls: Seq<Polled<R>>)
    ensures
        Run::of(polls).records.len() == 2 * polls.len(),
        forall|i: int|
            0 <= i < polls.len() ==> {
                &&& Run::of(polls).records[2 * i] == (#[trigger] polls[i]).span.entering()
                &&& Run::of(polls).records[2 * i + 1] == polls[i].span.returned(polls[i].rendering)
            },
    decreases polls.len(),
{
    if polls.len() > 0 {
        let earlier = polls.drop_last();
        lemma_records_in_call_order(earlier);
        assert forall|i: int| 0 <= i < polls.len() implies {
            &&& Run::of(polls).records[2 * i] == (#[trigger] polls[i]).span.entering()
            &&& Run::of(polls).records[2 * i + 1] == polls[i].span.returned(polls[i].rendering)
        } by {
            if i < earlier.len() {
                assert(earlier[i] == polls[i]);
            }
        }
    }
}

/// A run is only ever added to: the records and results of the first `n`
/// polls stay as they are, whatever is polled after them.
pub proof fn lemma_past_is_kept<R>(polls: Seq<Polled<R>>, n: int)
    requires
        0 <= n <= polls.len(),
    ensures
        Run::of(polls.take(n)).records == Run::of(polls).records.take(2 * n),
        Run::of(polls.take(n)).results == Run::of(polls).results.take(n),
    decreases polls.len(),
{
    if n == polls.len() {
        lemma_records_in_call_order(polls);
        lemma_results_are_the_units(polls);
        assert(polls.take(n) == polls);
        assert(Run::of(polls).records.take(2 * n) == Run::of(polls).records);
        assert(Run::of(polls).results.take(n) == Run::of(polls).results);
    } else {
        lemma_past_is_kept(polls.drop_last(), n);
        lemma_records_in_call_order(polls.drop_last());
        lemma_results_are_the_units(polls.drop_last());
        assert(polls.drop_last().take(n) == polls.take(n));
        assert(Run::of(polls).records.take(2 * n) == Run::of(polls.drop_last()).records.take(2 * n));
        assert(Run::of(polls).results.take(n) == Run::of(polls.drop_last()).results.take(n));
    }
}

/// The two records of one poll are written at the same severity, that of
/// the span; both begin with the span's identity, and the second holds the
/// rendering of the result.
pub proof fn lemma_pair_agrees(span: SpanView, rendering: Seq<char>)
    ensures
        span.entering().level == span.level,
        span.returned(rendering).level == span.level,
        span.identity.is_prefix_of(span.entering().text),
        span.identity.is_prefix_of(span.returned(rendering).text),
        occurs_in(rendering, span.returned(rendering).text),
{
    let text = span.returned(rendering).text;
    let at = span.identity.len() + ".poll() -> "@.len();
    assert(window(text, at as int, rendering.len()) == rendering);
}

/// In a run, the two records of each poll are written at the same severity,
/// that of its span, and the second of them holds the rendering of the
/// result that the poll handed back.
pub proof fn lemma_pairs_agree_in_a_run<R>(polls: Seq<Polled<R>>)
    ensures
        forall|i: int|
            0 <= i < polls.len() ==> {
                &&& Run::of(polls).records[2 * i].level == (#[trigger] polls[i]).span.level
                &&& Run::of(polls).records[2 * i + 1].level == polls[i].span.level
                &&& occurs_in(polls[i].rendering, Run::of(polls).records[2 * i + 1].text)
                &&& Run::of(polls).results[i] == polls[i].outcome
            },
{
    lemma_records_in_call_order(polls);
    lemma_results_are_the_units(polls);
    assert forall|i: int| 0 <= i < polls.len() implies occurs_in(
        (#[trigger] polls[i]).rendering,
        Run::of(polls).records[2 * i + 1].text,
    ) by {
        lemma_pair_agrees(polls[i].span, polls[i].rendering);
    }
}

/// A name, once set, is the identity of every span entered afterwards,
/// however the unit renders; without a name the identity is the unit's own
/// rendering, and nothing of the wrapper shows in it. Either way the span
/// has the severity that the wrapper is set to.
pub proof fn lemma_name_precedence<T>(trace: TraceView<T>, rendering: Seq<char>)
    ensures
        trace.span(rendering).level == trace.level,
        trace.name matches Some(name) ==> trace.span(rendering).identity == name,
        trace.name is None ==> trace.span(rendering).identity == rendering,
{
}

/// From the poll on at which a name is in force, every record of a run is
/// made of that name, whatever the unit renders as.
pub proof fn lemma_named_from<R>(polls: Seq<Polled<R>>, name: Seq<char>, from: int)
    requires
        0 <= from <= polls.len(),
        forall|i: int| from <= i < polls.len() ==> (#[trigger] polls[i]).span.identity == name,
    ensures
        forall|i: int|
            from <= i < polls.len() ==> {
                &&& Run::of(polls).records[2 * i].text == entering_text(name)
                &&& Run::of(polls).records[2 * i + 1].text == returned_text(
                    name,
                    (#[trigger] polls[i]).rendering,
                )
            },
{
    lemma_records_in_call_order(polls);
}

} // verus!
