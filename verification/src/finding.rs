//! What the detector reports.

use vstd::prelude::*;

verus! {

/// The kinds of finding; there is only one.
#[derive(Clone, Copy, Debug, PartialEq, Eq)]
pub enum FindingKind {
    /// The closure does nothing but pass its parameters on.
    Redundant,
}

/// A redundant closure, with the text that can stand in its place.
///
/// The text is missing where the source of the callee cannot be recovered;
/// the closure is reported all the same.
#[derive(Debug, PartialEq, Eq)]
pub struct Finding {
    pub kind: FindingKind,
    pub replacement_text: Option<String>,
}

impl Finding {
    /// The message that goes with every finding.
    pub fn message(&self) -> (message: &'static str)
        ensures
            message@ == "redundant closure found"@,
    {
        "redundant closure found"
    }

    /// The words that introduce the replacement text.
    pub fn help(&self) -> (help: &'static str)
        ensures
            help@ == "remove closure as shown"@,
    {
        "remove closure as shown"
    }
}

/// A finding with its text as a sequence of characters.
pub struct FindingView {
    pub kind: FindingKind,
    pub replacement_text: Option<Seq<char>>,
}

impl View for Finding {
    type V = FindingView;

    open spec fn view(&self) -> FindingView {
        FindingView {
            kind: self.kind,
            replacement_text: match self.replacement_text {
                Some(t) => Some(t@),
                None => None,
            },
        }
    }
}

/// The view of a finding that may be absent.
pub open spec fn outcome(found: Option<Finding>) -> Option<FindingView> {
    match found {
        Some(f) => Some(f@),
        None => None,
    }
}

} // verus!
