//! The child session's environment.
//!
//! The child does not inherit the launcher's environment: it starts
//! empty and receives exactly the caller-supplied key/value pairs plus
//! a `SHELL` variable naming the launched shell.

use vstd::prelude::*;

verus! {

/// Build the full environment of the child session: the `SHELL`
/// variable first, then exactly the supplied pairs, in order, and
/// nothing else.  Applied to an empty environment this is everything
/// the child observes, whatever the launcher's own environment holds.
pub fn build_environment(shell: &String, vars: Vec<(String, String)>) -> (env: Vec<
    (String, String),
>)
    ensures
        env@.len() == vars@.len() + 1,
        env@[0].0@ == "SHELL"@,
        env@[0].1@ == shell@,
        forall|i: int| 1 <= i < env@.len() ==> env@[i] == vars@[i - 1],
{
    let mut env = vars;
    let name: String = "SHELL".to_owned();
    env.insert(0, (name, shell.clone()));
    env
}

} // verus!
