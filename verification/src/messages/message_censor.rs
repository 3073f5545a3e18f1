//! The step that cleans a chat message before it is sent on.
use vstd::prelude::*;

verus! {

/// Something that rewrites the text of a chat message, for instance to mask
/// words that should not be shown. Users supply their own.
pub trait MessageCensorer {
    /// Whether `output` is a text that this censor may make of `input`. A
    /// censor that says nothing of itself may make anything of any text.
    open spec fn censors(&self, input: Seq<char>, output: Seq<char>) -> bool {
        true
    }

    fn censor(&self, message: &str) -> (r: String)
        ensures
            self.censors(message@, r@),
    ;
}

} // verus!
