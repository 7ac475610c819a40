//! Result cache and outcome classification for a link checker.
//!
//! The crate keeps the verdict of every checked resource in a concurrent
//! map keyed by the resource's canonical identifier, classifies raw
//! transport outcomes into a closed verdict taxonomy, and serializes the
//! cache to a text snapshot that restores without loss.

pub mod cache;
pub mod codec;
pub mod error;
pub mod status;
pub mod text;

use vstd::prelude::*;

verus! {

/// A canonical handle for a checkable resource: a URL, a mail address,
/// or a file path. Two identifiers are equal iff their canonical string
/// forms are equal.
pub struct Identifier {
    value: String,
}

impl View for Identifier {
    type V = Seq<char>;

    closed spec fn view(&self) -> Seq<char> {
        self.value@
    }
}

impl PartialEq for Identifier {
    /// Identifiers are equal iff their canonical string forms are.
    fn eq(&self, other: &Self) -> (r: bool) {
        self.value.eq(&other.value)
    }
}

impl vstd::std_specs::cmp::PartialEqSpecImpl for Identifier {
    open spec fn obeys_eq_spec() -> bool {
        true
    }

    open spec fn eq_spec(&self, other: &Self) -> bool {
        self@ == other@
    }
}

impl Eq for Identifier {}

impl Identifier {
    /// Wraps an already-normalized string form.
    pub fn new(value: String) -> (r: Identifier)
        ensures
            r@ == value@,
    {
        Identifier { value }
    }

    /// The canonical string form.
    pub fn as_str(&self) -> (r: &str)
        ensures
            r@ == self@,
    {
        self.value.as_str()
    }
}

} // verus!
