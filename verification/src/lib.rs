//! Backend logic of a desktop tool that turns a video into PNG frames and
//! crops batches of frames in place.
//!
//! The crate holds the decisions; the surrounding application performs the
//! file-system, process and GUI work and reports what happened.
use vstd::prelude::*;
use vstd::string::StringExecFns;

pub mod batch;
pub mod crop;
pub mod extract;
pub mod frame;
pub mod order;
pub mod paths;
pub mod text;

verus! {

/// The greeting for `name`.
pub open spec fn greeting(name: Seq<char>) -> Seq<char> {
    "Hello, "@ + name + "! You've been greeted from Rust!"@
}

/// Greets `name`.
pub fn greet(name: &str) -> (s: String)
    ensures
        s@ == greeting(name@),
{
    let mut s = String::from_str("Hello, ");
    s.append(name);
    s.append("! You've been greeted from Rust!");
    s
}

} // verus!
