//! An error that carries a description.
use vstd::prelude::*;

verus! {

/// An error described by a text.
#[derive(Debug, Clone)]
pub struct MyError {
    message: String,
}

impl View for MyError {
    type V = Seq<char>;

    closed spec fn view(&self) -> Seq<char> {
        self.message@
    }
}

impl MyError {
    /// The error described by `whats_wrong`.
    pub fn new(whats_wrong: String) -> (r: Self)
        ensures
            r@ == whats_wrong@,
    {
        MyError { message: whats_wrong }
    }

    /// The description, as the error's `Display` shows it.
    pub fn to_string(&self) -> (r: String)
        ensures
            r@ == self@,
    {
        self.message.clone()
    }
}

} // verus!
