//! Error types.
//!
//! `UnitError` is the engine's own failure kind: a conversion was requested
//! for which no factor is defined, or an exact arithmetic result would not
//! fit in the machine representation.  `ApiError` aggregates the
//! human-readable messages reported by the external data service; the
//! engine never produces one itself.
use vstd::prelude::*;

use vstd::string::StringExecFns;

verus! {

/// Why a unit operation failed.
#[derive(Clone, Copy, Debug, PartialEq, Eq, Structural)]
pub enum UnitError {
    /// No conversion factor is defined between the two units (for example
    /// volume to mass, or a conversion through an unrecognized unit).
    UnsupportedUnitConversion,
    /// The exact result would not fit in the numeric representation.
    Overflow,
}

/// The messages of `msgs`, each followed by a newline, concatenated in
/// order.
pub open spec fn joined_lines(msgs: Seq<Seq<char>>) -> Seq<char>
    decreases msgs.len(),
{
    if msgs.len() == 0 {
        Seq::empty()
    } else {
        joined_lines(msgs.drop_last()) + msgs.last() + seq!['\n']
    }
}

/// One or more errors reported by the external data service.
#[derive(Debug)]
pub struct ApiError {
    messages: Vec<String>,
    err_count: usize,
}

impl ApiError {
    /// The reported messages, in order.
    pub closed spec fn spec_messages(&self) -> Seq<Seq<char>> {
        self.messages.deep_view()
    }

    /// How many messages were reported.
    pub closed spec fn spec_err_count(&self) -> int {
        self.err_count as int
    }

    /// The count always matches the number of messages.
    pub open spec fn wf(&self) -> bool {
        self.spec_err_count() == self.spec_messages().len()
    }

    pub fn new(messages: Vec<String>) -> (r: Self)
        ensures
            r.spec_messages() == messages.deep_view(),
            r.wf(),
    {
        let len = messages.len();
        ApiError { messages, err_count: len }
    }

    pub fn err_count(&self) -> (r: usize)
        ensures
            r == self.spec_err_count(),
    {
        self.err_count
    }

    pub fn messages(&self) -> (r: &Vec<String>)
        ensures
            r.deep_view() == self.spec_messages(),
    {
        &self.messages
    }

    /// All messages joined into one report, each on its own line.
    pub fn joined_messages(&self) -> (r: String)
        ensures
            r@ == joined_lines(self.spec_messages()),
    {
        let ghost all = self.messages.deep_view();
        let mut out = String::new();
        let mut i: usize = 0;
        while i < self.messages.len()
            invariant
                i <= self.messages.len(),
                all == self.messages.deep_view(),
                all.len() == self.messages.len(),
                out@ == joined_lines(all.take(i as int)),
            decreases self.messages.len() - i,
        {
            proof {
                reveal_strlit("\n");
                assert(all.take(i + 1).drop_last() =~= all.take(i as int));
                assert(all.take(i + 1).last() == self.messages.deep_view()[i as int]);
            }
            out.append(self.messages[i].as_str());
            out.append("\n");
            i = i + 1;
        }
        proof {
            assert(all.take(self.messages.len() as int) =~= all);
        }
        out
    }
}

} // verus!
