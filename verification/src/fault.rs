//! The fault interceptor's decision core: only the stack-overflow
//! classification code produces a backtrace report; every other fault is
//! passed through untouched to the next handler in the dispatch chain.
use vstd::prelude::*;

use crate::render::{render_report, report_spec};
use crate::symbol::SymbolRecord;

verus! {

/// The operating system's classification code for a stack-overflow fault.
pub const STACK_OVERFLOW_CODE: u32 = 0xC00000FD;

/// What the fault interceptor does with a delivered exception.
#[derive(Clone, Copy, PartialEq, Eq, Structural, Debug)]
pub enum FaultDisposition {
    /// The fault is a stack overflow: emit a backtrace, then abort.
    EmitAndAbort,
    /// Any other fault: signal "not handled" so dispatch continues.
    ContinueSearch,
}

/// Decides, from the exception's classification code alone, whether the
/// interceptor emits a backtrace and aborts or passes the fault through.
pub fn classify_fault(code: u32) -> (d: FaultDisposition)
    ensures
        d == FaultDisposition::EmitAndAbort <==> code == STACK_OVERFLOW_CODE,
        d == FaultDisposition::ContinueSearch <==> code != STACK_OVERFLOW_CODE,
{
    if code == STACK_OVERFLOW_CODE {
        FaultDisposition::EmitAndAbort
    } else {
        FaultDisposition::ContinueSearch
    }
}

/// The interceptor's whole observable response to one fault, given the
/// resolved frames of the faulting thread: the exact report text to emit
/// before aborting when the code is stack overflow, and nothing at all —
/// no output, pass the fault through — for every other code.
pub fn fault_response(code: u32, records: &Vec<SymbolRecord>) -> (out: Option<String>)
    ensures
        out is Some <==> code == STACK_OVERFLOW_CODE,
        out matches Some(report) ==> report@ == report_spec(records@),
{
    match classify_fault(code) {
        FaultDisposition::EmitAndAbort => Some(render_report(records)),
        FaultDisposition::ContinueSearch => None,
    }
}

} // verus!
