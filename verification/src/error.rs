use vstd::prelude::*;

verus! {

/// Why a query on a window could not be answered.
#[derive(Debug, Clone, Copy, PartialEq, Eq, Structural)]
pub enum WindowError {
    /// Nothing has been pushed yet.
    EmptyBuffer,
    /// Fewer values than the window is long have been pushed, or an array
    /// of another length than the window's was asked for.
    NotFilled,
}

impl WindowError {
    /// The text of the error, as a sequence of characters.
    pub open spec fn text(self) -> Seq<char> {
        match self {
            WindowError::EmptyBuffer => "Array is empty. Add some elements to the array first"@,
            WindowError::NotFilled => "Array is not yet filled. Add some elements to the array first"@,
        }
    }

    /// The text of the error.
    pub fn message(&self) -> (s: String)
        ensures
            s@ == self.text(),
    {
        match self {
            WindowError::EmptyBuffer => "Array is empty. Add some elements to the array first".to_owned(),
            WindowError::NotFilled => "Array is not yet filled. Add some elements to the array first".to_owned(),
        }
    }
}

} // verus!
