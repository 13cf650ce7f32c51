//! The identifier that a client gives to a request.

use vstd::prelude::*;
use vstd::string::*;

verus! {

/// A string or an integer, as the client chose. A string and an integer are
/// never equal, whatever they hold.
#[derive(Debug, Hash)]
pub enum RequestId {
    String(String),
    Number(i64),
}

/// What a [`RequestId`] holds.
pub enum RequestIdView {
    String(Seq<char>),
    Number(int),
}

impl View for RequestId {
    type V = RequestIdView;

    open spec fn view(&self) -> RequestIdView {
        match self {
            RequestId::String(s) => RequestIdView::String(s@),
            RequestId::Number(n) => RequestIdView::Number(*n as int),
        }
    }
}

impl RequestId {
    /// Whether the two identifiers are of the same kind and hold the same.
    pub fn same(&self, other: &RequestId) -> (r: bool)
        ensures
            r == (self@ == other@),
    {
        match (self, other) {
            (RequestId::String(x), RequestId::String(y)) => *x == *y,
            (RequestId::Number(x), RequestId::Number(y)) => *x == *y,
            _ => false,
        }
    }
}

impl Clone for RequestId {
    fn clone(&self) -> (r: Self)
        ensures
            r@ == self@,
    {
        match self {
            RequestId::String(s) => RequestId::String(s.clone()),
            RequestId::Number(n) => RequestId::Number(*n),
        }
    }
}

impl PartialEq for RequestId {
    fn eq(&self, other: &Self) -> (r: bool) {
        self.same(other)
    }
}

impl Eq for RequestId {}

impl vstd::std_specs::cmp::PartialEqSpecImpl for RequestId {
    open spec fn obeys_eq_spec() -> bool {
        true
    }

    open spec fn eq_spec(&self, other: &Self) -> bool {
        self@ == other@
    }
}

} // verus!
