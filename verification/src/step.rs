//! The individual container-engine invocations and their argument vectors.

use vstd::prelude::*;

verus! {

/// One call into the container engine's command line. Each step expands to a
/// fixed argument vector ([`Step::args`]); the driver spawns the engine with
/// exactly that vector and reports back whether the child exited successfully.
#[derive(Clone, Copy, PartialEq, Eq, Structural, Debug)]
pub enum Step {
    /// Create a container from the fixed base image with an interactive shell.
    Create,
    /// Start a container by name.
    Start,
    /// Run the fixed package-provisioning command inside a container.
    BaseInstall,
    /// Stop a running container by name.
    Stop,
    /// Remove a container by name.
    Delete,
    /// Attach the terminal to a running container (blocking, interactive).
    Attach,
    /// List all containers, including stopped ones.
    ListAll,
}

/// The exact argument vector handed to the engine binary for `step`, as
/// sequences of characters; `name` is the user-supplied container name,
/// passed through verbatim.
pub open spec fn args_spec(step: Step, name: Seq<char>) -> Seq<Seq<char>> {
    match step {
        Step::Create => seq![
            "create"@,
            "--name"@,
            name,
            "-t"@,
            "-i"@,
            "fedora:latest"@,
            "bash"@,
        ],
        Step::Start => seq!["start"@, name],
        Step::BaseInstall => seq![
            "exec"@,
            name,
            "dnf"@,
            "install"@,
            "-y"@,
            "@development-tools"@,
            "gpg"@,
            "which"@,
            "curl"@,
            "wget"@,
            "vim"@,
            "fish"@,
            "openssh"@,
            "sshfs"@,
        ],
        Step::Stop => seq!["stop"@, name],
        Step::Delete => seq!["rm"@, name],
        Step::Attach => seq!["attach"@, name],
        Step::ListAll => seq!["container"@, "list"@, "--all"@],
    }
}

/// The diagnostic printed when `step`'s child process exits with a
/// non-success status.
pub open spec fn failure_message_spec(step: Step) -> Seq<char> {
    match step {
        Step::Create => "Failed to run create command!"@,
        Step::Start => "Failed to run start command!"@,
        Step::BaseInstall => "Failed to run install command!"@,
        Step::Stop => "Failed to run stop command!"@,
        Step::Delete => "Failed to run delete command!"@,
        Step::Attach => "Failed to run attach command!"@,
        Step::ListAll => "Failed to run list command!"@,
    }
}

/// The name of the engine binary, looked up on the system path.
pub open spec fn engine_spec() -> Seq<char> {
    "docker"@
}

/// The engine binary's name.
pub fn engine() -> (r: &'static str)
    ensures
        r@ == engine_spec(),
{
    "docker"
}

impl Step {
    /// Build the argument vector for this step: an explicit typed list,
    /// never a pre-joined string split on whitespace, so a name containing
    /// whitespace stays a single argument.
    pub fn args<'a>(&self, name: &'a str) -> (r: Vec<&'a str>)
        ensures
            r.deep_view() == args_spec(*self, name@),
    {
        let mut v: Vec<&'a str> = Vec::new();
        match self {
            Step::Create => {
                v.push("create");
                v.push("--name");
                v.push(name);
                v.push("-t");
                v.push("-i");
                v.push("fedora:latest");
                v.push("bash");
            },
            Step::Start => {
                v.push("start");
                v.push(name);
            },
            Step::BaseInstall => {
                v.push("exec");
                v.push(name);
                v.push("dnf");
                v.push("install");
                v.push("-y");
                v.push("@development-tools");
                v.push("gpg");
                v.push("which");
                v.push("curl");
                v.push("wget");
                v.push("vim");
                v.push("fish");
                v.push("openssh");
                v.push("sshfs");
            },
            Step::Stop => {
                v.push("stop");
                v.push(name);
            },
            Step::Delete => {
                v.push("rm");
                v.push(name);
            },
            Step::Attach => {
                v.push("attach");
                v.push(name);
            },
            Step::ListAll => {
                v.push("container");
                v.push("list");
                v.push("--all");
            },
        }
        proof {
            assert(v.deep_view() =~= args_spec(*self, name@));
        }
        v
    }

    /// The diagnostic for a failed run of this step.
    pub fn failure_message(&self) -> (r: &'static str)
        ensures
            r@ == failure_message_spec(*self),
    {
        match self {
            Step::Create => "Failed to run create command!",
            Step::Start => "Failed to run start command!",
            Step::BaseInstall => "Failed to run install command!",
            Step::Stop => "Failed to run stop command!",
            Step::Delete => "Failed to run delete command!",
            Step::Attach => "Failed to run attach command!",
            Step::ListAll => "Failed to run list command!",
        }
    }
}

} // verus!
