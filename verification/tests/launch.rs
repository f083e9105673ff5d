use ephemeral_resource::launch::{
    launch_command, teardown_command, CommandLine, LaunchError, PortBinding,
};

#[test]
fn port_binding_renders_host_then_container() {
    let binding = PortBinding { host_port: 3000, container_port: 3000 };
    assert_eq!(binding.render(), "3000:3000");
    let binding = PortBinding { host_port: 8080, container_port: 4444 };
    assert_eq!(binding.render(), "8080:4444");
}

#[test]
fn port_binding_renders_extreme_ports() {
    let binding = PortBinding { host_port: 0, container_port: 65535 };
    assert_eq!(binding.render(), "0:65535");
}

#[test]
fn launch_command_runs_detached_and_self_removing() {
    let binding = PortBinding { host_port: 3000, container_port: 3000 };
    let command = launch_command("ghcr.io/browserless/chromium", &binding);
    assert_eq!(command.program, "docker");
    assert_eq!(
        command.arguments,
        vec!["run", "-d", "--rm", "-p", "3000:3000", "ghcr.io/browserless/chromium"]
    );
}

#[test]
fn launch_command_uses_the_given_binding() {
    let binding = PortBinding { host_port: 4444, container_port: 4444 };
    let command = launch_command("seleniarm/standalone-chromium:latest", &binding);
    let expected = CommandLine {
        program: String::from("docker"),
        arguments: vec![
            String::from("run"),
            String::from("-d"),
            String::from("--rm"),
            String::from("-p"),
            String::from("4444:4444"),
            String::from("seleniarm/standalone-chromium:latest"),
        ],
    };
    assert_eq!(command, expected);
}

#[test]
fn teardown_command_stops_the_named_container() {
    let command = teardown_command("0f3c9a1b77d2");
    assert_eq!(command.program, "docker");
    assert_eq!(command.arguments, vec!["stop", "0f3c9a1b77d2"]);
}

#[test]
fn failed_launch_message_carries_the_diagnostic() {
    let error = LaunchError::Failed { diagnostic: String::from("port already in use") };
    assert_eq!(error.message(), "Failed to start docker container: port already in use");
}

#[test]
fn malformed_response_message() {
    let error = LaunchError::MalformedResponse;
    assert_eq!(error.message(), "Launcher reported success but returned no container id");
}
