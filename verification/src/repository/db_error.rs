use vstd::prelude::*;

verus! {

/// An error raised by the store layer, carrying a human-readable message.
#[derive(Debug, PartialEq, Eq)]
pub struct DbError {
    pub details: String,
}

impl View for DbError {
    type V = Seq<char>;

    open spec fn view(&self) -> Seq<char> {
        self.details@
    }
}

impl DbError {
    /// Wraps `msg` as the error's details.
    pub fn new(msg: String) -> (e: DbError)
        ensures
            e.details@ == msg@,
            e@ == msg@,
    {
        DbError { details: msg }
    }

    /// The message, as the error prints.
    pub fn description(&self) -> (s: &str)
        ensures
            s@ == self@,
    {
        self.details.as_str()
    }
}

} // verus!
