//! How the worker's launch command is assembled.
//!
//! The interpreter comes from an environment-provided override when present,
//! otherwise a fixed default name is used; the worker's entry point is made
//! absolute against the host's resource root when it is not already absolute,
//! so the launch does not depend on the host's current working directory.

use vstd::prelude::*;

verus! {

/// The fixed interpreter name used when no override is given.
pub open spec fn default_interpreter() -> Seq<char> {
    "python3"@
}

/// The interpreter that launches the worker: the override when one is set,
/// the fixed default otherwise.
pub open spec fn spec_interpreter(overriding: Option<Seq<char>>) -> Seq<char> {
    match overriding {
        Some(s) => s,
        None => default_interpreter(),
    }
}

/// A path is absolute when it begins with the root separator.
pub open spec fn spec_is_absolute(p: Seq<char>) -> bool {
    p.len() > 0 && p[0] == '/'
}

/// The worker entry point, resolved: kept as given when absolute, otherwise
/// joined onto the host's resource root.
pub open spec fn spec_resolved_entry(entry: Seq<char>, base: Seq<char>) -> Seq<char> {
    if spec_is_absolute(entry) {
        entry
    } else {
        base + "/"@ + entry
    }
}

/// Everything the host needs to spawn the worker process.
pub struct LaunchPlan {
    /// The executable that runs the worker.
    pub interpreter: String,
    /// The worker's entry-point file, resolved to a stable location.
    pub entry: String,
}

/// Picks the interpreter: the override when present, the default otherwise.
pub fn interpreter_for(overriding: Option<String>) -> (r: String)
    ensures
        r@ == spec_interpreter(overriding.deep_view()),
{
    match overriding {
        Some(s) => s,
        None => String::from_str("python3"),
    }
}

/// Whether `p` is an absolute path.
pub fn is_absolute(p: &str) -> (r: bool)
    ensures
        r == spec_is_absolute(p@),
{
    p.unicode_len() > 0 && p.get_char(0) == '/'
}

/// Resolves the worker entry point against the host's resource root.
pub fn resolve_entry(entry: &str, base: &str) -> (r: String)
    ensures
        r@ == spec_resolved_entry(entry@, base@),
{
    if is_absolute(entry) {
        String::from_str(entry)
    } else {
        let mut r = String::from_str(base);
        r.append("/");
        r.append(entry);
        r
    }
}

impl LaunchPlan {
    /// Assembles the launch plan from the interpreter override and the
    /// entry-point location.
    pub fn new(overriding: Option<String>, entry: &str, base: &str) -> (p: Self)
        ensures
            p.interpreter@ == spec_interpreter(overriding.deep_view()),
            p.entry@ == spec_resolved_entry(entry@, base@),
    {
        LaunchPlan { interpreter: interpreter_for(overriding), entry: resolve_entry(entry, base) }
    }
}

} // verus!
