//! The wrapper around a poll-driven unit.

use vstd::prelude::*;
use vstd::string::*;
use crate::level::Level;
use crate::record::Record;
use crate::render::{debug_text, show, shown};
use crate::span::{Span, SpanView};

verus! {

/// The name under which a unit is logged: the override where one is set,
/// else the unit's own rendering.
pub open spec fn resolve_identity(name: Option<Seq<char>>, rendering: Seq<char>) -> Seq<char> {
    match name {
        Some(n) => n,
        None => rendering,
    }
}

/// Mathematical model of a [`Trace`].
#[verifier::ext_equal]
pub struct TraceView<T> {
    /// The name override, if any.
    pub name: Option<Seq<char>>,
    /// The severity of the records.
    pub level: Level,
    /// The wrapped unit.
    pub inner: T,
}

impl<T> TraceView<T> {
    /// The span of a poll that begins while the unit renders as `rendering`.
    pub open spec fn span(self, rendering: Seq<char>) -> SpanView {
        SpanView { level: self.level, identity: resolve_identity(self.name, rendering) }
    }
}

/// A wrapper around a future or a stream that describes each call of its
/// `poll`, and each result, in a pair of log records.
pub struct Trace<T> {
    name: Option<&'static str>,
    level: Level,
    inner: T,
}

impl<T> View for Trace<T> {
    type V = TraceView<T>;

    closed spec fn view(&self) -> TraceView<T> {
        TraceView { name: self.name.deep_view(), level: self.level, inner: self.inner }
    }
}

impl<T: Clone> Clone for Trace<T> {
    /// A wrapper with the same name and severity around a clone of the unit.
    fn clone(&self) -> (copy: Self)
        ensures
            copy@.name == self@.name,
            copy@.level == self@.level,
            cloned::<T>(self@.inner, copy@.inner),
    {
        Trace { name: self.name, level: self.level, inner: self.inner.clone() }
    }
}

impl<T> From<T> for Trace<T> {
    /// Wraps `inner`: no name, and the most verbose severity.
    fn from(inner: T) -> (trace: Self)
        ensures
            trace@ == (TraceView { name: None, level: Level::Trace, inner }),
    {
        Trace { name: None, level: Level::Trace, inner }
    }
}

impl<T> vstd::std_specs::convert::FromSpecImpl<T> for Trace<T> {
    open spec fn obeys_from_spec() -> bool {
        true
    }

    open spec fn from_spec(inner: T) -> Self {
        Trace::wrapping(inner)
    }
}

impl<T> Trace<T> {
    /// The wrapper that `from` makes of `inner`: no name, and the most
    /// verbose severity.
    pub closed spec fn wrapping(inner: T) -> Self {
        Trace { name: None, level: Level::Trace, inner }
    }

    /// Gives the unit a name, used in the records in place of its rendering.
    pub fn named(self, name: &'static str) -> (trace: Self)
        ensures
            trace@ == (TraceView { name: Some(name@), ..self@ }),
    {
        let mut trace = self;
        trace.name = Some(name);
        trace
    }

    /// Sets the severity of the records.
    pub fn at_level(self, level: Level) -> (trace: Self)
        ensures
            trace@ == (TraceView { level, ..self@ }),
    {
        let mut trace = self;
        trace.level = level;
        trace
    }

    /// The name override, if one is set.
    pub fn name(&self) -> (name: Option<&'static str>)
        ensures
            name.deep_view() == self@.name,
    {
        self.name
    }

    /// The severity of the records.
    pub fn level(&self) -> (level: Level)
        ensures
            level == self@.level,
    {
        self.level
    }

    /// The wrapped unit.
    pub fn get_ref(&self) -> (inner: &T)
        ensures
            *inner == self@.inner,
    {
        &self.inner
    }

    /// The name under which the unit is logged while it renders as
    /// `rendering`.
    pub fn identity_with(&self, rendering: &str) -> (identity: String)
        ensures
            identity@ == resolve_identity(self@.name, rendering@),
    {
        match self.name {
            Some(name) => String::from_str(name),
            None => String::from_str(rendering),
        }
    }

    /// Enters a poll while the unit renders as `rendering`: returns the span,
    /// the record to write before the unit is polled, and the unit, to be
    /// polled. The unit is handed out as it was wrapped.
    pub fn enter_with(&mut self, rendering: &str) -> (entered: (Span, Record, &mut T))
        ensures
            entered.0@ == old(self)@.span(rendering@),
            entered.1@ == entered.0@.entering(),
            *entered.2 == old(self)@.inner,
            final(self)@ == (TraceView { inner: *final(entered.2), ..old(self)@ }),
    {
        let identity = self.identity_with(rendering);
        let (span, record) = Span::enter(self.level, identity);
        (span, record, &mut self.inner)
    }
}

impl<T: core::fmt::Debug> Trace<T> {
    /// The name under which the unit is logged: the override where one is
    /// set, else what `{:?}` renders the unit as, which is asked for only
    /// then. `None` where that rendering failed.
    pub fn identity(&self) -> (identity: Option<String>)
        ensures
            self@.name matches Some(name) ==> (identity matches Some(text) && text@ == name),
            identity matches Some(text) ==> exists|rendering: Seq<char>|
                text@ == #[trigger] resolve_identity(self@.name, rendering),
    {
        match self.name {
            Some(name) => {
                assert(name@ == resolve_identity(self@.name, Seq::empty()));
                Some(String::from_str(name))
            },
            None => {
                let rendering = debug_text(&self.inner);
                proof {
                    if rendering is Some {
                        let text = rendering->0@;
                        assert(text == resolve_identity(self@.name, text));
                    }
                }
                rendering
            },
        }
    }

    /// Enters a poll: returns the span, the record to write before the unit
    /// is polled, and the unit, to be polled. An unnamed unit is logged as
    /// `{:?}` renders it, or as [`unrendered`](crate::render::unrendered)
    /// where that fails. The unit is handed out as it was wrapped: to render
    /// it changes nothing of it.
    pub fn enter(&mut self) -> (entered: (Span, Record, &mut T))
        ensures
            exists|rendering: Option<Seq<char>>|
                entered.0@ == old(self)@.span(#[trigger] shown(rendering)),
            entered.1@ == entered.0@.entering(),
            *entered.2 == old(self)@.inner,
            final(self)@ == (TraceView { inner: *final(entered.2), ..old(self)@ }),
    {
        let identity = match self.name {
            Some(name) => {
                assert(self@.span(shown(None)).identity == name@);
                String::from_str(name)
            },
            None => {
                let rendering = debug_text(&self.inner);
                let ghost seen = rendering.deep_view();
                let text = show(rendering);
                assert(self@.span(shown(seen)).identity == text@);
                text
            },
        };
        let (span, record) = Span::enter(self.level, identity);
        (span, record, &mut self.inner)
    }
}

} // verus!
