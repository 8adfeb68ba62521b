//! Outcomes that are neither a plain success nor a plain failure.

use crate::error::Errno;
use crate::text::{decimal, with_decimal};
use vstd::prelude::*;
use vstd::string::StringExecFns;

verus! {

/// How a cancel ended.
#[derive(Clone, Copy, Debug, PartialEq, Eq, Structural)]
pub enum CancelOutcome {
    /// Requests were cancelled.
    Cancelled {
        /// How many the kernel counted; it counts only when asked for all.
        count: u32,
    },
    /// No request matched.
    NotFound,
    /// The request was past stopping.
    AlreadyRunning,
    /// The kernel refused for another reason.
    Failed(Errno),
}

impl CancelOutcome {
    /// Classify a raw result.
    #[verifier::allow_in_spec]
    pub fn from_raw(result: i32) -> Self
        returns
            (if result == -2 {
                CancelOutcome::NotFound
            } else if result == -114 {
                CancelOutcome::AlreadyRunning
            } else if result < 0 {
                CancelOutcome::Failed(Errno::from_negated(result))
            } else {
                CancelOutcome::Cancelled { count: result as u32 }
            }),
    {
        if result == -2 {
            CancelOutcome::NotFound
        } else if result == -114 {
            CancelOutcome::AlreadyRunning
        } else if result < 0 {
            CancelOutcome::Failed(Errno::from_negated(result))
        } else {
            CancelOutcome::Cancelled { count: result as u32 }
        }
    }

    /// What [`message`](Self::message) says.
    pub open spec fn text(self) -> Seq<char> {
        match self {
            CancelOutcome::Cancelled { count } => decimal(count as nat) + " requests cancelled"@,
            CancelOutcome::NotFound => "no matching request"@,
            CancelOutcome::AlreadyRunning => "request is already running"@,
            CancelOutcome::Failed(e) => "cancel failed: "@ + e.text(),
        }
    }

    /// Every case says what happened, in its own words and with its own numbers.
    pub proof fn texts_say_what_happened(self)
        ensures
            self matches CancelOutcome::Cancelled { count } ==> self.text()
                == decimal(count as nat) + " requests cancelled"@,
            self is NotFound ==> self.text() == "no matching request"@,
            self is AlreadyRunning ==> self.text() == "request is already running"@,
            self matches CancelOutcome::Failed(e) ==> self.text() == "cancel failed: "@ + e.text(),
    {
    }

    /// A description for people.
    pub fn message(&self) -> (s: String)
        ensures
            s@ == self.text(),
    {
        match *self {
            CancelOutcome::Cancelled { count } => {
                let digits = with_decimal(String::from_str(""), count as u64);
                proof {
                    reveal_strlit("");
                    assert(""@ + decimal(count as nat) =~= decimal(count as nat));
                }
                digits.concat(" requests cancelled")
            },
            CancelOutcome::NotFound => String::from_str("no matching request"),
            CancelOutcome::AlreadyRunning => String::from_str("request is already running"),
            CancelOutcome::Failed(e) => String::from_str("cancel failed: ").concat(
                e.message().as_str(),
            ),
        }
    }
}

/// Only a result that is no error counts as a cancellation, and no two
/// results are taken for one another.
pub proof fn cancel_results_stay_apart(a: i32, b: i32)
    ensures
        CancelOutcome::from_raw(a) is Cancelled <==> a >= 0,
        CancelOutcome::from_raw(a) == CancelOutcome::from_raw(b) ==> a == b,
{
}

/// A cancel succeeded unless its result is negative, and the result is the
/// count. Error 2 means that nothing matched, 114 that it was too late; any
/// other keeps its number.
pub proof fn cancel_results_are_named(result: i32)
    ensures
        CancelOutcome::from_raw(result) is Cancelled <==> result >= 0,
        CancelOutcome::from_raw(result) is NotFound <==> result == -2,
        CancelOutcome::from_raw(result) is AlreadyRunning <==> result == -114,
        CancelOutcome::from_raw(result) matches CancelOutcome::Failed(e) ==> {
            &&& result < 0
            &&& e.0 == (if result == -0x8000_0000 { result as int } else { 0 - result })
        },
        CancelOutcome::from_raw(result) matches CancelOutcome::Cancelled { count } ==> count
            == result,
{
}

} // verus!
