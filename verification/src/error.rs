use vstd::prelude::*;

verus! {

/// Why an operation on an aggregator was refused.
#[derive(Clone, Copy, Debug, PartialEq, Eq, Structural)]
pub enum AggregatorError {
    /// A magnitude would have exceeded the limit.
    Overflow,
    /// A magnitude would have dropped below zero.
    Underflow,
    /// The resolver could not produce the stored value.
    ResolutionFailed,
}

impl AggregatorError {
    /// The text of the diagnostic that goes with each kind of failure.
    pub open spec fn message_text(self) -> Seq<char> {
        match self {
            AggregatorError::Overflow => "aggregator overflowed its limit"@,
            AggregatorError::Underflow => "aggregator dropped below zero"@,
            AggregatorError::ResolutionFailed => "could not find the value of the aggregator"@,
        }
    }

    /// A short diagnostic for the failure.
    pub fn message(&self) -> (text: String)
        ensures
            text@ == self.message_text(),
    {
        match self {
            AggregatorError::Overflow => "aggregator overflowed its limit".to_owned(),
            AggregatorError::Underflow => "aggregator dropped below zero".to_owned(),
            AggregatorError::ResolutionFailed => {
                "could not find the value of the aggregator".to_owned()
            },
        }
    }
}

} // verus!
