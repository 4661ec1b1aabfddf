use vstd::prelude::*;

verus! {

/// The settings the service takes from its environment.
pub struct Env {
    /// The log filter (the `RUST_LOG` variable).
    pub rust_log: String,
}

/// Builds the settings from the value of the `RUST_LOG` variable.
pub fn get_env(rust_log: String) -> (env: Env)
    ensures
        env.rust_log@ == rust_log@,
{
    Env { rust_log }
}

} // verus!
