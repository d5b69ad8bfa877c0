//! Arguments as they arrive from the host, and the one way they can be wrong.

use vstd::prelude::*;

verus! {

/// A value that the host passed in an invocation.
#[derive(Debug)]
pub enum Argument {
    /// A value that the host could convert to text, with that text.
    Text(String),
    /// A value that the host could not convert to text.
    Unconvertible,
}

/// Why an operation refused its arguments.
#[derive(Debug, Clone, Copy, PartialEq, Eq, Structural)]
pub enum BindingError {
    /// A required argument was absent or could not be converted to text.
    InvalidArgument,
}

impl Argument {
    /// The text of this argument, if it has one.
    pub open spec fn text(&self) -> Option<Seq<char>> {
        match self {
            Argument::Text(s) => Some(s@),
            Argument::Unconvertible => None,
        }
    }
}

/// The text of the argument at `index`: `None` where the list is too short or
/// the argument there has no text.
pub open spec fn text_at(args: Seq<Argument>, index: int) -> Option<Seq<char>> {
    if 0 <= index < args.len() {
        args[index].text()
    } else {
        None
    }
}

/// Takes the text of the argument at `index`. Fails with
/// `InvalidArgument` exactly when that argument is absent or has no text.
pub fn require_text(args: &Vec<Argument>, index: usize) -> (r: Result<String, BindingError>)
    ensures
        match text_at(args@, index as int) {
            Some(t) => r is Ok && r->Ok_0@ == t,
            None => r == Err::<String, BindingError>(BindingError::InvalidArgument),
        },
{
    if index >= args.len() {
        return Err(BindingError::InvalidArgument);
    }
    match &args[index] {
        Argument::Text(s) => Ok(s.clone()),
        Argument::Unconvertible => Err(BindingError::InvalidArgument),
    }
}

} // verus!
