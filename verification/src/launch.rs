//! What is handed to the container launcher and what it reports back.

use crate::text::{decimal, render_decimal};
use vstd::prelude::*;
use vstd::string::*;

verus! {

/// A host port published to a port inside the container.
#[derive(Clone, Copy, Debug, PartialEq, Eq)]
pub struct PortBinding {
    pub host_port: u16,
    pub container_port: u16,
}

impl PortBinding {
    /// The binding as the launcher takes it: host port, a colon, container port.
    pub open spec fn rendered(&self) -> Seq<char> {
        decimal(self.host_port as nat) + seq![':'] + decimal(self.container_port as nat)
    }

    /// Renders the binding for the launcher's command line.
    pub fn render(&self) -> (text: String)
        ensures
            text@ == self.rendered(),
    {
        proof {
            reveal_strlit(":");
        }
        let mut text = render_decimal(self.host_port as u64);
        text.append(":");
        let container = render_decimal(self.container_port as u64);
        text.append(container.as_str());
        assert(":"@ =~= seq![':']);
        text
    }
}

/// A program and its arguments, as values.
#[derive(Debug, PartialEq, Eq)]
pub struct CommandLine {
    pub program: String,
    pub arguments: Vec<String>,
}

/// The text of a command line.
pub struct CommandLineView {
    pub program: Seq<char>,
    pub arguments: Seq<Seq<char>>,
}

/// The texts of a list of strings.
pub open spec fn texts(strings: Seq<String>) -> Seq<Seq<char>> {
    Seq::new(strings.len(), |i: int| strings[i]@)
}

impl View for CommandLine {
    type V = CommandLineView;

    open spec fn view(&self) -> CommandLineView {
        CommandLineView { program: self.program@, arguments: texts(self.arguments@) }
    }
}

/// The command that starts a detached, self-removing container from `descriptor`
/// with `binding` published.
pub open spec fn launch_line(descriptor: Seq<char>, binding: PortBinding) -> CommandLineView {
    CommandLineView {
        program: "docker"@,
        arguments: seq!["run"@, "-d"@, "--rm"@, "-p"@, binding.rendered(), descriptor],
    }
}

/// The command that stops the container `id`.
pub open spec fn teardown_line(id: Seq<char>) -> CommandLineView {
    CommandLineView { program: "docker"@, arguments: seq!["stop"@, id] }
}

/// Builds the command that launches a container from `descriptor`.
pub fn launch_command(descriptor: &str, binding: &PortBinding) -> (command: CommandLine)
    ensures
        command@ == launch_line(descriptor@, *binding),
{
    let mut arguments: Vec<String> = Vec::new();
    arguments.push(String::from_str("run"));
    arguments.push(String::from_str("-d"));
    arguments.push(String::from_str("--rm"));
    arguments.push(String::from_str("-p"));
    arguments.push(binding.render());
    arguments.push(String::from_str(descriptor));
    let command = CommandLine { program: String::from_str("docker"), arguments };
    assert(command@.arguments =~= launch_line(descriptor@, *binding).arguments);
    command
}

/// Builds the command that stops the container `id`.
pub fn teardown_command(id: &str) -> (command: CommandLine)
    ensures
        command@ == teardown_line(id@),
{
    let mut arguments: Vec<String> = Vec::new();
    arguments.push(String::from_str("stop"));
    arguments.push(String::from_str(id));
    let command = CommandLine { program: String::from_str("docker"), arguments };
    assert(command@.arguments =~= teardown_line(id@).arguments);
    command
}

/// What the launcher reported: whether it exited with success, and the text it
/// wrote to its standard output and to its standard error.
#[derive(Debug, PartialEq, Eq)]
pub struct LaunchOutput {
    pub success: bool,
    pub stdout: String,
    pub stderr: String,
}

/// Why no resource was started.
#[derive(Debug, PartialEq, Eq)]
pub enum LaunchError {
    /// The launcher exited with failure; `diagnostic` is what it wrote to its
    /// standard error.
    Failed { diagnostic: String },
    /// The launcher exited with success but named no resource.
    MalformedResponse,
}

impl LaunchError {
    /// The text of the error message.
    pub open spec fn message_text(&self) -> Seq<char> {
        match self {
            LaunchError::Failed { diagnostic } => "Failed to start docker container: "@
                + diagnostic@,
            LaunchError::MalformedResponse => "Launcher reported success but returned no container id"@,
        }
    }

    /// A message for the user.
    pub fn message(&self) -> (text: String)
        ensures
            text@ == self.message_text(),
    {
        match self {
            LaunchError::Failed { diagnostic } => {
                let mut text = String::from_str("Failed to start docker container: ");
                text.append(diagnostic.as_str());
                text
            },
            LaunchError::MalformedResponse => String::from_str(
                "Launcher reported success but returned no container id",
            ),
        }
    }
}

} // verus!
