use vstd::prelude::*;
use crate::cli_args::{ascii_lower_seq, to_ascii_lower, ParseError};

verus! {

/// Kind of operation that a run measures.
#[derive(Debug, Clone, Copy, PartialEq, Eq, Structural)]
pub enum OperationType {
    Sign,
}

pub open spec fn operation_type_of(s: Seq<char>) -> Result<OperationType, ParseError> {
    if ascii_lower_seq(s) == "sign"@ {
        Ok(OperationType::Sign)
    } else {
        Err(ParseError::UnknownOperationType)
    }
}

impl OperationType {
    /// Reads an operation type, ignoring ASCII case.
    pub fn parse(s: &str) -> (r: Result<OperationType, ParseError>)
        ensures
            r == operation_type_of(s@),
    {
        let l = to_ascii_lower(s);
        if l == "sign".to_owned() {
            Ok(OperationType::Sign)
        } else {
            Err(ParseError::UnknownOperationType)
        }
    }

    /// The name under which the operation is reported.
    pub fn name(&self) -> (r: &'static str)
        ensures
            *self == OperationType::Sign ==> r@ == "Sign"@,
    {
        match self {
            OperationType::Sign => "Sign",
        }
    }
}

/// One unit of benchmarked work: `before` makes a worker's private state before
/// the timer starts, `operation` is applied to that state again and again while
/// the timer runs, and `after` gets the state once the timer has stopped.
#[derive(Debug, Clone)]
pub struct Operation<B, O, A> {
    pub operation_type: OperationType,
    pub before: B,
    pub operation: O,
    pub after: A,
}

} // verus!
