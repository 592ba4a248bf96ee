//! The one error the evaluation core itself can surface: asking for the
//! type of a node that carries none (permitted only for the top sort).
use vstd::prelude::*;

verus! {

/// The specific type error.
#[derive(Debug)]
pub enum TypeMessage {
    /// The node is the top sort and has no type.
    Sort,
    /// A described error, as text bytes.
    Custom(Vec<u8>),
}

/// A structured type error.
#[derive(Debug)]
pub struct TypeError {
    pub message: TypeMessage,
}

impl TypeError {
    pub(crate) fn new(message: TypeMessage) -> (r: Self)
        ensures
            r.message == message,
    {
        TypeError { message }
    }

    /// Whether this is the error of asking the top sort for its type.
    pub fn is_sort(&self) -> (r: bool)
        ensures
            r == (self.message is Sort),
    {
        match self.message {
            TypeMessage::Sort => true,
            _ => false,
        }
    }
}

} // verus!
