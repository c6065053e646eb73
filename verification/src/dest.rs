//! Destination descriptor: the immutable configuration of where log
//! messages go — the parent channel and the thread's display name,
//! which carries a disambiguating runtime context (such as the
//! invoking working directory).

use vstd::prelude::*;
use vstd::string::StringExecFns;

verus! {

/// The display name built from a base name and a runtime context.
pub open spec fn thread_name_spec(base: Seq<char>, runtime_context: Seq<char>) -> Seq<char> {
    base + " ["@ + runtime_context + "]"@
}

/// Where log messages are published: a parent channel and the display
/// name of the discussion thread created under it. Built once before
/// the tasks start and read-only afterwards.
#[derive(Debug)]
pub struct Destination {
    pub channel_id: u64,
    pub thread_name: String,
}

impl Destination {
    /// Build the descriptor, appending the runtime context to the
    /// base display name in brackets.
    pub fn new(channel_id: u64, base_name: &str, runtime_context: &str) -> (d: Destination)
        ensures
            d.channel_id == channel_id,
            d.thread_name@ == thread_name_spec(base_name@, runtime_context@),
    {
        let mut name = String::from_str(base_name);
        name.append(" [");
        name.append(runtime_context);
        name.append("]");
        Destination { channel_id, thread_name: name }
    }
}

} // verus!
