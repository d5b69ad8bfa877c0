//! Native objects offered to a scripting host: a `Greeter` that holds a
//! greeting and formats messages with it, and an `Uncallable` that can only be
//! constructed. The host layer hands over the arguments of each invocation as
//! plain values and gets plain values back.

pub mod argument;
pub mod greeter;
pub mod uncallable;
pub mod laws;

pub use argument::{Argument, BindingError, require_text, text_at};
pub use greeter::{Greeter, Invocation, InvocationMode, greeting_message, CALL_RESULT};
pub use uncallable::{Uncallable, SNARF_RESULT};
