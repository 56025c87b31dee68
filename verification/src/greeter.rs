//! The greeting service: answers a name with "Hello <name>!".

use vstd::prelude::*;

verus! {

/// Text around the name in a greeting.
pub const GREETING_PREFIX: &'static str = "Hello ";
pub const GREETING_SUFFIX: &'static str = "!";

/// A greeting request.
pub struct HelloRequest {
    pub name: String,
}

/// A greeting reply.
pub struct HelloReply {
    pub message: String,
}

/// The greeting for `name`.
pub open spec fn greeting(name: Seq<char>) -> Seq<char> {
    GREETING_PREFIX@ + name + GREETING_SUFFIX@
}

/// The greeting service. It keeps no state.
#[derive(Debug)]
pub struct MyGreeter {}

impl Default for MyGreeter {
    fn default() -> (g: MyGreeter)
        ensures
            g == (MyGreeter {}),
    {
        MyGreeter {}
    }
}

impl MyGreeter {
    /// Greets the requester by name. It always succeeds.
    pub fn say_hello(&self, request: HelloRequest) -> (reply: HelloReply)
        ensures
            reply.message@ == greeting(request.name@),
    {
        let mut message = String::from_str(GREETING_PREFIX);
        message.append(request.name.as_str());
        message.append(GREETING_SUFFIX);
        HelloReply { message }
    }
}

} // verus!
