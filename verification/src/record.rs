//! Log records and the text they carry.

use vstd::prelude::*;
use vstd::string::*;
use crate::level::Level;

verus! {

/// Text of the record written when a poll of the unit known as `identity`
/// begins.
pub open spec fn entering_text(identity: Seq<char>) -> Seq<char> {
    identity + ".poll();"@
}

/// Text of the record written when that poll has returned a result that
/// renders as `outcome`.
pub open spec fn returned_text(identity: Seq<char>, outcome: Seq<char>) -> Seq<char> {
    identity + ".poll() -> "@ + outcome + ";"@
}

/// The `len` items of `text` that begin at `at`.
pub open spec fn window(text: Seq<char>, at: int, len: nat) -> Seq<char> {
    text.subrange(at, at + len)
}

/// Whether `part` stands somewhere in `text`, item for item.
pub open spec fn occurs_in(part: Seq<char>, text: Seq<char>) -> bool {
    exists|at: int|
        0 <= at && at + part.len() <= text.len() && #[trigger] window(text, at, part.len()) == part
}

/// Mathematical model of a [`Record`].
#[verifier::ext_equal]
pub struct RecordView {
    pub level: Level,
    pub text: Seq<char>,
}

/// One log record: a severity and the formatted text.
#[derive(Debug, PartialEq, Eq)]
pub struct Record {
    pub level: Level,
    pub text: String,
}

impl View for Record {
    type V = RecordView;

    open spec fn view(&self) -> RecordView {
        RecordView { level: self.level, text: self.text@ }
    }
}

impl Clone for Record {
    fn clone(&self) -> (copy: Self)
        ensures
            copy@ == self@,
    {
        Record { level: self.level, text: self.text.clone() }
    }
}

impl Record {
    /// The record that announces a poll of the unit known as `identity`.
    pub fn entering(level: Level, identity: &str) -> (record: Record)
        ensures
            record@ == (RecordView { level, text: entering_text(identity@) }),
    {
        let mut text = String::from_str(identity);
        text.append(".poll();");
        Record { level, text }
    }

    /// The record that reports what a poll of the unit known as `identity`
    /// returned, `outcome` being the rendering of the result.
    pub fn returned(level: Level, identity: &str, outcome: &str) -> (record: Record)
        ensures
            record@ == (RecordView { level, text: returned_text(identity@, outcome@) }),
    {
        let mut text = String::from_str(identity);
        text.append(".poll() -> ");
        text.append(outcome);
        text.append(";");
        Record { level, text }
    }
}

} // verus!
