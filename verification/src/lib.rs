use vstd::prelude::*;

pub mod client;
pub mod fdops;
pub mod fdtable;
pub mod reparent;
pub mod report;
pub mod request;
pub mod server;
pub mod spawner;

verus! {

/// A shell command to be executed remotely on the spawn server.
pub struct Command {
    pub command: String,
}

/// Exit code and captured output of a remotely executed shell command.
pub struct CommandResponse {
    pub code: i32,
    pub stdout: String,
    pub stderr: String,
}

/// URL of the spawn server's shell-command endpoint.
pub fn get_spawner_url() -> (r: String)
    ensures
        r@ == "http://localhost:8099/command"@,
{
    "http://localhost:8099/command".to_string()
}

/// The identity document served on the diagnostics endpoint.
pub fn server_identity_document() -> (r: String)
    ensures
        r@ == "{\"server\": \"spawn_server\", \"version\": \"0.1.0\"}"@,
{
    "{\"server\": \"spawn_server\", \"version\": \"0.1.0\"}".to_string()
}

/// How one remote shell-command call went, as the transport saw it.
pub enum RemoteCallOutcome {
    /// A success status with a parsed response body.
    Completed { response: CommandResponse },
    /// A status that indicates no success.
    FailedStatus,
    /// The request could not be sent, or the response not be read.
    SendFailed,
}

/// The `(code, stdout, stderr)` tuple the remote-execute wrappers hand
/// their caller for each transport outcome.
pub fn command_result_tuple(outcome: RemoteCallOutcome) -> (r: (i32, String, String))
    ensures
        outcome matches RemoteCallOutcome::Completed { response } ==> (r.0 == response.code
            && r.1@ == response.stdout@ && r.2@ == response.stderr@),
        outcome is FailedStatus ==> (r.0 == -2 && r.1@ == ""@ && r.2@
            == "No Success Error (ERROR 8192-173-10620)"@),
        outcome is SendFailed ==> (r.0 == -1 && r.1@ == ""@ && r.2@
            == "RPC Error  (ERROR 67132-2323-78224)"@),
{
    match outcome {
        RemoteCallOutcome::Completed { response } => (
            response.code,
            response.stdout,
            response.stderr,
        ),
        RemoteCallOutcome::FailedStatus => (
            -2,
            "".to_string(),
            "No Success Error (ERROR 8192-173-10620)".to_string(),
        ),
        RemoteCallOutcome::SendFailed => (
            -1,
            "".to_string(),
            "RPC Error  (ERROR 67132-2323-78224)".to_string(),
        ),
    }
}

impl Default for Command {
    /// An empty command.
    fn default() -> (r: Self)
        ensures
            r.command@ == ""@,
    {
        Command { command: "".to_string() }
    }
}

impl Default for CommandResponse {
    /// Exit code 0 with empty output.
    fn default() -> (r: Self)
        ensures
            r.code == 0,
            r.stdout@ == ""@,
            r.stderr@ == ""@,
    {
        CommandResponse { code: 0, stdout: "".to_string(), stderr: "".to_string() }
    }
}

} // verus!
