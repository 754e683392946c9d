//! The stand-in for an argument that conditional compilation has removed.

use vstd::prelude::*;
use vstd::string::*;

verus! {

/// A value that stands for an argument which is not compiled in. A generated logging call
/// shows it in place of the argument.
#[derive(Clone, Copy, PartialEq, Eq, Hash)]
pub struct DummyDebug {
    /// What is shown.
    pub text: &'static str,
}

impl DummyDebug {
    /// What the value is shown as: its text, without quotes.
    pub fn fmt(&self) -> (r: String)
        ensures
            r@ == self.text@,
    {
        String::from_str(self.text)
    }
}

} // verus!
