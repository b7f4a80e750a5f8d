//! The response model and the hello route handler.

use vstd::prelude::*;
use vstd::string::*;

verus! {

/// The JSON payload returned by the hello endpoint: a record with one
/// textual field.
pub struct MessageResponse {
    /// The message content.
    pub message: String,
}

/// The greeting that the hello handler always returns.
pub open spec fn hello_text() -> Seq<char> {
    "Hello from Kratestack!"@
}

impl MessageResponse {
    /// A response is well formed when its message is non-empty, which holds
    /// of every value the library constructs.
    pub open spec fn wf(self) -> bool {
        self.message@.len() > 0
    }
}

/// The hello route handler: no inputs, no error conditions, and the same
/// greeting for every request.
pub fn hello() -> (r: MessageResponse)
    ensures
        r.message@ == hello_text(),
        r.wf(),
{
    proof {
        reveal_strlit("Hello from Kratestack!");
    }
    MessageResponse { message: String::from_str("Hello from Kratestack!") }
}

} // verus!
