//! The command builder: pairs a resolved entry-point path with the
//! runtime binary and the fixed invocation arguments.

use crate::errors::LocateError;
use vstd::prelude::*;
use vstd::string::StringExecFns;

verus! {

/// The flag that tells the server to speak its protocol over standard
/// input/output rather than a socket.
pub open spec fn stdio_flag() -> Seq<char> {
    "--stdio"@
}

/// A launch command: the runtime binary, its ordered arguments, and the
/// environment the spawned process inherits.
#[derive(Debug)]
pub struct InvocationPlan {
    pub command: String,
    pub args: Vec<String>,
    pub env: Vec<(String, String)>,
}

/// Builds the launch command: the runtime binary runs the resolved entry
/// point with the protocol flag second, in the given environment.
pub fn build(resolved_path: String, runtime_binary: String, shell_env: Vec<(String, String)>) -> (plan:
    InvocationPlan)
    ensures
        plan.command == runtime_binary,
        plan.args@.len() == 2,
        plan.args@[0] == resolved_path,
        plan.args@[1]@ == stdio_flag(),
        plan.env == shell_env,
{
    let mut args: Vec<String> = Vec::new();
    args.push(resolved_path);
    args.push(String::from_str("--stdio"));
    InvocationPlan { command: runtime_binary, args, env: shell_env }
}

/// Builds the launch command from the host's answer for the runtime
/// binary: a plan when the host supplied one, and a `RuntimeBinaryNotFound`
/// error carrying the host's detail when it did not.
pub fn plan_launch(
    runtime_binary: Result<String, String>,
    resolved_path: String,
    shell_env: Vec<(String, String)>,
) -> (r: Result<InvocationPlan, LocateError>)
    ensures
        match runtime_binary {
            Ok(binary) => r matches Ok(plan) && plan.command == binary && plan.args@.len() == 2
                && plan.args@[0] == resolved_path && plan.args@[1]@ == stdio_flag() && plan.env
                == shell_env,
            Err(detail) => r matches Err(LocateError::RuntimeBinaryNotFound { detail: d }) && d
                == detail,
        },
{
    match runtime_binary {
        Ok(binary) => Ok(build(resolved_path, binary, shell_env)),
        Err(detail) => Err(LocateError::RuntimeBinaryNotFound { detail }),
    }
}

} // verus!
