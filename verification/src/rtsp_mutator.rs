//! The mutator for targets that read RTSP.

use vstd::prelude::*;
use crate::error::Error;
use crate::mutator::header_end;
use crate::mutator::MutationResult;

verus! {

/// The mutator that appends the end of a header to each input that the mutator inside
/// it has changed. A server takes a request only once the header has ended.
#[derive(Debug)]
pub struct RtspMutator {
    name: String,
}

impl RtspMutator {
    /// The name of the mutator as contracts speak of it.
    pub closed spec fn spec_name(&self) -> Seq<char> {
        self.name@
    }

    /// The mutator around a mutator of the given name.
    pub fn new(inner_name: &str) -> (r: Self)
        ensures
            r.spec_name() == "RtspMutator["@ + inner_name@ + "]"@,
    {
        RtspMutator { name: String::from_str("RtspMutator[").concat(inner_name).concat("]") }
    }

    /// Finishes a mutation: takes what the mutator inside returned for the
    /// input, and appends the terminator to the input if the input was
    /// changed. What the mutator inside returned is handed on.
    pub fn mutate(&mut self, inner_result: MutationResult, input: &mut Vec<u8>) -> (r: Result<
        MutationResult,
        Error,
    >)
        ensures
            r == Ok::<MutationResult, Error>(inner_result),
            final(self).spec_name() == old(self).spec_name(),
            final(input)@ == (if inner_result is Mutated {
                old(input)@ + header_end()
            } else {
                old(input)@
            }),
    {
        match inner_result {
            MutationResult::Mutated => {
                input.push(13u8);
                input.push(10u8);
                input.push(13u8);
                input.push(10u8);
                assert(input@ =~= old(input)@ + header_end());
                Ok(MutationResult::Mutated)
            },
            MutationResult::Skipped => Ok(MutationResult::Skipped),
        }
    }

    /// The name of the mutator.
    pub fn name(&self) -> (r: &str)
        ensures
            r@ == self.spec_name(),
    {
        self.name.as_str()
    }
}

} // verus!
