//! A description of one external-process invocation. The verified logic
//! assembles these plans; the unverified shell spawns them.

use vstd::prelude::*;
use crate::config::KeyValue;

verus! {

/// One external command: program path, arguments, extra environment
/// variables, and an optional working directory.
#[derive(Debug)]
pub struct CommandPlan {
    pub program: String,
    pub args: Vec<String>,
    pub envs: Vec<KeyValue>,
    pub cwd: Option<String>,
}

/// The environment entry `e` binds `key` to `value`.
pub open spec fn env_is(e: KeyValue, key: Seq<char>, value: Seq<char>) -> bool {
    e.key@ == key && e.value@ == value
}

} // verus!
