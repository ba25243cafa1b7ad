//! One intercepted poll, from the record that announces it to the record
//! that reports its result.

use vstd::prelude::*;
use crate::level::Level;
use crate::record::{Record, RecordView, entering_text, returned_text};
use crate::render::{debug_text, show, shown};

verus! {

/// Mathematical model of a [`Span`].
#[verifier::ext_equal]
pub struct SpanView {
    /// The severity of both records of the poll.
    pub level: Level,
    /// The name under which the unit is logged during the poll.
    pub identity: Seq<char>,
}

impl SpanView {
    /// The record written before the unit is polled.
    pub open spec fn entering(self) -> RecordView {
        RecordView { level: self.level, text: entering_text(self.identity) }
    }

    /// The record written after the unit has returned a result that renders
    /// as `outcome`.
    pub open spec fn returned(self, outcome: Seq<char>) -> RecordView {
        RecordView { level: self.level, text: returned_text(self.identity, outcome) }
    }
}

/// A poll that has been announced and whose result is still to be reported.
///
/// The severity and the identity are fixed when the poll is entered, so the
/// two records of one poll always agree on both.
pub struct Span {
    level: Level,
    identity: String,
}

impl View for Span {
    type V = SpanView;

    closed spec fn view(&self) -> SpanView {
        SpanView { level: self.level, identity: self.identity@ }
    }
}

impl Span {
    /// Enters a poll of the unit known as `identity`: returns the span and
    /// the record to write before the unit is polled.
    pub fn enter(level: Level, identity: String) -> (entered: (Span, Record))
        ensures
            entered.0@ == (SpanView { level, identity: identity@ }),
            entered.1@ == entered.0@.entering(),
    {
        let record = Record::entering(level, identity.as_str());
        (Span { level, identity }, record)
    }

    /// The severity of the records of this poll.
    pub fn level(&self) -> (level: Level)
        ensures
            level == self@.level,
    {
        self.level
    }

    /// The name under which the unit is logged during this poll.
    pub fn identity(&self) -> (identity: &str)
        ensures
            identity@ == self@.identity,
    {
        self.identity.as_str()
    }

    /// Leaves the poll with the unit's result, `rendering` being the text
    /// that stands for the result in the log: returns the record to write
    /// and the result itself, as the unit gave it.
    pub fn exit_with<R>(self, outcome: R, rendering: &str) -> (left: (Record, R))
        ensures
            left.0@ == self@.returned(rendering@),
            left.1 == outcome,
    {
        let record = Record::returned(self.level, self.identity.as_str(), rendering);
        (record, outcome)
    }

    /// Leaves the poll with the unit's result, which is logged as `{:?}`
    /// renders it, or as [`unrendered`](crate::render::unrendered) where that
    /// fails: returns the record to write and the result itself, as the unit
    /// gave it.
    pub fn exit<R: core::fmt::Debug>(self, outcome: R) -> (left: (Record, R))
        ensures
            exists|rendering: Option<Seq<char>>|
                left.0@ == self@.returned(#[trigger] shown(rendering)),
            left.1 == outcome,
    {
        let rendering = debug_text(&outcome);
        let ghost seen = rendering.deep_view();
        let text = show(rendering);
        assert(text@ == shown(seen));
        self.exit_with(outcome, text.as_str())
    }
}

} // verus!
