use ipc_bridge::command::{parse_invocation, Invocation};
use ipc_bridge::error::{exit_status, BridgeError};

fn words(args: &[&str]) -> Vec<String> {
    args.iter().map(|arg| String::from(*arg)).collect()
}

#[test]
fn parse_connect() {
    assert_eq!(
        parse_invocation(&words(&["connect", "/tmp/app.world-1"])),
        Ok(Invocation::Connect { address: String::from("/tmp/app.world-1") })
    );
}

#[test]
fn parse_init_without_program_arguments() {
    assert_eq!(
        parse_invocation(&words(&["init", "/usr/bin/companion"])),
        Ok(Invocation::Init { program: String::from("/usr/bin/companion"), args: vec![] })
    );
}

#[test]
fn parse_init_keeps_the_program_arguments_in_order() {
    assert_eq!(
        parse_invocation(&words(&["init", "node", "server.js", "--port", "0"])),
        Ok(Invocation::Init {
            program: String::from("node"),
            args: words(&["server.js", "--port", "0"]),
        })
    );
}

#[test]
fn parse_exec() {
    assert_eq!(
        parse_invocation(&words(&["exec", "@app.world-9", "0xdeadbeef"])),
        Ok(Invocation::Exec {
            address: String::from("@app.world-9"),
            payload: String::from("0xdeadbeef"),
        })
    );
}

#[test]
fn parse_terminate_with_a_message() {
    assert_eq!(
        parse_invocation(&words(&["terminate", "@app.world-9", "out of gas"])),
        Ok(Invocation::Terminate {
            address: String::from("@app.world-9"),
            message: String::from("out of gas"),
        })
    );
}

#[test]
fn parse_terminate_defaults_the_message() {
    assert_eq!(
        parse_invocation(&words(&["terminate", "@app.world-9"])),
        Ok(Invocation::Terminate {
            address: String::from("@app.world-9"),
            message: String::from("termination"),
        })
    );
}

#[test]
fn parse_ignores_what_a_command_does_not_take() {
    assert_eq!(
        parse_invocation(&words(&["connect", "a", "b"])),
        Ok(Invocation::Connect { address: String::from("a") })
    );
    assert_eq!(
        parse_invocation(&words(&["exec", "a", "b", "c"])),
        Ok(Invocation::Exec { address: String::from("a"), payload: String::from("b") })
    );
    assert_eq!(
        parse_invocation(&words(&["terminate", "a", "b", "c"])),
        Ok(Invocation::Terminate { address: String::from("a"), message: String::from("b") })
    );
}

#[test]
fn parse_without_a_command() {
    assert_eq!(parse_invocation(&words(&[])), Err(BridgeError::MissingCommand));
}

#[test]
fn parse_unrecognized_command() {
    for command in ["", "run", "Exec", "exec ", "connects", "--help", "ipc:/tmp/x"] {
        assert_eq!(
            parse_invocation(&words(&[command, "a", "b"])),
            Err(BridgeError::UnrecognizedCommand)
        );
    }
    assert_eq!(parse_invocation(&words(&["bogus"])), Err(BridgeError::UnrecognizedCommand));
}

#[test]
fn parse_missing_arguments() {
    assert_eq!(parse_invocation(&words(&["connect"])), Err(BridgeError::MissingArgument));
    assert_eq!(parse_invocation(&words(&["init"])), Err(BridgeError::MissingArgument));
    assert_eq!(parse_invocation(&words(&["exec"])), Err(BridgeError::MissingArgument));
    assert_eq!(parse_invocation(&words(&["exec", "a"])), Err(BridgeError::MissingArgument));
    assert_eq!(parse_invocation(&words(&["terminate"])), Err(BridgeError::MissingArgument));
}

#[test]
fn request_text_carries_the_tag() {
    let exec = Invocation::Exec { address: String::from("a"), payload: String::from("hello") };
    assert_eq!(exec.request(), Some(String::from("response:hello")));
    let terminate =
        Invocation::Terminate { address: String::from("a"), message: String::from("bye") };
    assert_eq!(terminate.request(), Some(String::from("terminate:bye")));
}

#[test]
fn only_exec_and_terminate_send_a_request() {
    let connect = Invocation::Connect { address: String::from("a") };
    assert_eq!(connect.request(), None);
    let init = Invocation::Init { program: String::from("p"), args: vec![] };
    assert_eq!(init.request(), None);
}

#[test]
fn exit_status_is_zero_only_without_an_error() {
    assert_eq!(exit_status(None), 0);
    let errors = [
        BridgeError::MissingCommand,
        BridgeError::UnrecognizedCommand,
        BridgeError::MissingArgument,
        BridgeError::LaunchFailed,
        BridgeError::ConnectExhausted,
        BridgeError::Transport,
        BridgeError::OversizedFrame,
        BridgeError::InvalidText,
        BridgeError::OutOfTurn,
    ];
    for error in errors {
        assert_eq!(exit_status(Some(error)), 1);
    }
}
