use vstd::prelude::*;
use crate::decimal::push_decimal;
use crate::layout::length_message;

verus! {

/// The error returned by a transform that is handed a buffer of the wrong length.
pub struct FftError {
    desc: String,
}

impl View for FftError {
    type V = Seq<char>;

    /// The error's description.
    closed spec fn view(&self) -> Seq<char> {
        self.desc@
    }
}

impl FftError {
    /// An error with the given description.
    pub fn new(desc: &str) -> (e: Self)
        ensures
            e@ == desc@,
    {
        FftError { desc: desc.to_owned() }
    }

    /// The error's description.
    pub fn description(&self) -> (d: &str)
        ensures
            d@ == self@,
    {
        self.desc.as_str()
    }

    /// The error for a buffer (named by `buffer`) of `got` elements where `expected` were due.
    pub(crate) fn wrong_length(buffer: &str, expected: usize, got: usize) -> (e: Self)
        ensures
            e@ == length_message(buffer@, expected as nat, got as nat),
    {
        let mut s = String::new();
        s.append("Wrong length of ");
        s.append(buffer);
        s.append(", expected ");
        push_decimal(&mut s, expected);
        s.append(", got ");
        push_decimal(&mut s, got);
        FftError::new(s.as_str())
    }
}

} // verus!
