//! Mutators for the protocol of one target: here FTP, as LightFTP reads it.

use vstd::prelude::*;
use crate::error::Error;

verus! {

/// Whether a mutator changed the input.
#[derive(Debug, Clone, Copy, PartialEq, Eq, Structural)]
pub enum MutationResult {
    /// The input was changed.
    Mutated,
    /// The input was left as it was.
    Skipped,
}

/// The end of a line: a carriage return and a line feed.
pub open spec fn line_end() -> Seq<u8> {
    seq![13u8, 10u8]
}

/// The end of a header: two ends of line.
pub open spec fn header_end() -> Seq<u8> {
    seq![13u8, 10u8, 13u8, 10u8]
}

/// The mutator that appends an end of line to each input that the mutator inside
/// it has changed. The parser of LightFTP needs it.
#[derive(Debug)]
pub struct FtpLightMutator {
    name: String,
}

impl FtpLightMutator {
    /// The name of the mutator as contracts speak of it.
    pub closed spec fn spec_name(&self) -> Seq<char> {
        self.name@
    }

    /// The mutator around a mutator of the given name.
    pub fn new(inner_name: &str) -> (r: Self)
        ensures
            r.spec_name() == "FtpLightMutator["@ + inner_name@ + "]"@,
    {
        FtpLightMutator { name: String::from_str("FtpLightMutator[").concat(inner_name).concat("]") }
    }

    /// Finishes a mutation: takes what the mutator inside returned for the
    /// input, and appends the terminator to the input if the input was
    /// changed. What the mutator inside returned is handed on.
    pub fn mutate(&mut self, inner_result: MutationResult, input: &mut Vec<u8>) -> (r: Result<
        MutationResult,
        Error,
    >)
        ensures
            r == Ok::<MutationResult, Error>(inner_result),
            final(self).spec_name() == old(self).spec_name(),
            final(input)@ == (if inner_result is Mutated {
                old(input)@ + line_end()
            } else {
                old(input)@
            }),
    {
        match inner_result {
            MutationResult::Mutated => {
                input.push(13u8);
                input.push(10u8);
                assert(input@ =~= old(input)@ + line_end());
                Ok(MutationResult::Mutated)
            },
            MutationResult::Skipped => Ok(MutationResult::Skipped),
        }
    }

    /// The name of the mutator.
    pub fn name(&self) -> (r: &str)
        ensures
            r@ == self.spec_name(),
    {
        self.name.as_str()
    }
}

} // verus!
