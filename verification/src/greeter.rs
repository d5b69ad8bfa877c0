//! The greeter: one greeting, fixed at construction, and the messages made
//! from it.

use vstd::prelude::*;
use vstd::string::StringExecFns;
use crate::argument::{Argument, BindingError, require_text, text_at};

verus! {

/// What invoking the greeter's constructor as a plain function returns.
pub const CALL_RESULT: i32 = 3;

/// The message that greets `name` with `greeting`: the greeting, a comma and a
/// space, the name, and an exclamation mark.
pub open spec fn greeting_message(greeting: Seq<char>, name: Seq<char>) -> Seq<char> {
    greeting + seq![',', ' '] + name + seq!['!']
}

/// A native object that holds one greeting, which never changes.
#[derive(Debug)]
pub struct Greeter {
    greeting: String,
}

/// How the host invoked a constructor.
#[derive(Debug, Clone, Copy, PartialEq, Eq, Structural)]
pub enum InvocationMode {
    /// As a constructor, to make a new object.
    Construct,
    /// As a plain function.
    Call,
}

/// What an invocation of the greeter's constructor yields.
#[derive(Debug)]
pub enum Invocation {
    /// A new greeter, from an invocation as a constructor.
    Constructed(Greeter),
    /// An integer, from an invocation as a plain function.
    CallResult(i32),
}

impl View for Greeter {
    type V = Seq<char>;

    /// A greeter is its greeting.
    closed spec fn view(&self) -> Seq<char> {
        self.greeting@
    }
}

impl Greeter {
    /// What `construct` yields on `args`: the greeting of the new greeter, or
    /// the error.
    pub open spec fn construct_outcome(args: Seq<Argument>) -> Result<Seq<char>, BindingError> {
        match text_at(args, 0) {
            Some(g) => Ok(g),
            None => Err(BindingError::InvalidArgument),
        }
    }

    /// What `hello` yields on `args` for a greeter with `greeting`: the
    /// message, or the error.
    pub open spec fn hello_outcome(greeting: Seq<char>, args: Seq<Argument>) -> Result<
        Seq<char>,
        BindingError,
    > {
        match text_at(args, 0) {
            Some(n) => Ok(greeting_message(greeting, n)),
            None => Err(BindingError::InvalidArgument),
        }
    }

    /// A greeter with the given greeting.
    pub fn new(greeting: String) -> (g: Greeter)
        ensures
            g@ == greeting@,
    {
        Greeter { greeting }
    }

    /// The greeting this greeter was made with.
    pub fn greeting(&self) -> (s: &str)
        ensures
            s@ == self@,
    {
        self.greeting.as_str()
    }

    /// Constructs a greeter from the arguments of an invocation: the first
    /// argument is the greeting. Fails with `InvalidArgument` exactly when
    /// that argument is absent or has no text.
    pub fn construct(args: &Vec<Argument>) -> (r: Result<Greeter, BindingError>)
        ensures
            match Self::construct_outcome(args@) {
                Ok(g) => r is Ok && r->Ok_0@ == g,
                Err(e) => r is Err && r->Err_0 == e,
            },
    {
        match require_text(args, 0) {
            Ok(greeting) => Ok(Greeter::new(greeting)),
            Err(e) => Err(e),
        }
    }

    /// The constructor invoked as a plain function: yields `CALL_RESULT`
    /// whatever the arguments, and makes no greeter.
    pub fn call_as_function(args: &Vec<Argument>) -> (n: i32)
        ensures
            n == CALL_RESULT,
            n == 3,
    {
        CALL_RESULT
    }

    /// One invocation of the constructor. As a plain function it yields
    /// `CallResult(CALL_RESULT)` whatever the arguments; as a constructor it
    /// yields the greeter that `construct` makes, or its error.
    pub fn invoke(mode: InvocationMode, args: &Vec<Argument>) -> (r: Result<
        Invocation,
        BindingError,
    >)
        ensures
            mode == InvocationMode::Call ==> r is Ok && r->Ok_0 is CallResult
                && r->Ok_0->CallResult_0 == CALL_RESULT,
            mode == InvocationMode::Construct ==> match Self::construct_outcome(args@) {
                Ok(g) => r is Ok && r->Ok_0 is Constructed && r->Ok_0->Constructed_0@ == g,
                Err(e) => r is Err && r->Err_0 == e,
            },
    {
        match mode {
            InvocationMode::Call => Ok(Invocation::CallResult(Greeter::call_as_function(args))),
            InvocationMode::Construct => match Greeter::construct(args) {
                Ok(g) => Ok(Invocation::Constructed(g)),
                Err(e) => Err(e),
            },
        }
    }

    /// The message that greets `name`.
    pub fn greet(&self, name: &str) -> (msg: String)
        ensures
            msg@ == greeting_message(self@, name@),
    {
        let mut msg = self.greeting.clone();
        msg.append(", ");
        msg.append(name);
        msg.append("!");
        proof {
            reveal_strlit(", ");
            reveal_strlit("!");
            assert(", "@ =~= seq![',', ' ']);
            assert("!"@ =~= seq!['!']);
        }
        msg
    }

    /// The `hello` operation: the first argument is the name to greet. Fails
    /// with `InvalidArgument` exactly when that argument is absent or has no
    /// text; the greeter itself is left as it was.
    pub fn hello(&self, args: &Vec<Argument>) -> (r: Result<String, BindingError>)
        ensures
            match Self::hello_outcome(self@, args@) {
                Ok(m) => r is Ok && r->Ok_0@ == m,
                Err(e) => r is Err && r->Err_0 == e,
            },
    {
        match require_text(args, 0) {
            Ok(name) => Ok(self.greet(name.as_str())),
            Err(e) => Err(e),
        }
    }
}

} // verus!
