use vstd::prelude::*;
use std::collections::HashMap;

verus! {

/// What the supervisor does when a service's process exits.
#[derive(Debug, Clone, Copy, PartialEq, Eq, Structural)]
pub enum RestartPolicy {
    Never,
    Always,
    OnFailure,
}

impl Default for RestartPolicy {
    fn default() -> (r: Self)
        ensures
            r == RestartPolicy::Always,
    {
        RestartPolicy::Always
    }
}

/// How to launch one service and how to react to its exit.
#[derive(Debug, Clone)]
pub struct ServiceConfig {
    pub name: String,
    pub command: String,
    pub args: Vec<String>,
    pub env: HashMap<String, String>,
    pub restart_policy: RestartPolicy,
    pub max_restarts: u32,
}

/// The full set of declared services, in declaration order.
#[derive(Debug, Clone)]
pub struct Config {
    pub services: Vec<ServiceConfig>,
}

} // verus!
