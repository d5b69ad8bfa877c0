//! What holds of the operations taken together.

use vstd::prelude::*;
use crate::argument::{Argument, BindingError, text_at};
use crate::greeter::{Greeter, greeting_message};

verus! {

/// Constructing a greeter from arguments whose first is the text `g`, and then
/// calling `hello` on it with arguments whose first is the text `n`, succeeds
/// both times and returns exactly `g`, a comma and a space, `n`, and an
/// exclamation mark.
pub proof fn lemma_construct_then_hello(
    construct_args: Seq<Argument>,
    hello_args: Seq<Argument>,
    g: Seq<char>,
    n: Seq<char>,
)
    requires
        text_at(construct_args, 0) == Some(g),
        text_at(hello_args, 0) == Some(n),
    ensures
        Greeter::construct_outcome(construct_args) == Ok::<Seq<char>, BindingError>(g),
        Greeter::hello_outcome(g, hello_args) == Ok::<Seq<char>, BindingError>(greeting_message(g, n)),
        greeting_message(g, n) =~= g + seq![',', ' '] + n + seq!['!'],
        greeting_message(g, n).len() == g.len() + n.len() + 3,
{
}

} // verus!
