//! The command line of the bridge: one command and its arguments.
//!
//! ```text
//! connect <address>
//! init <program> [program-args...]
//! exec <address> <payload>
//! terminate <address> [message]
//! ```

use crate::error::{exit_status_of, BridgeError};
use vstd::prelude::*;
use vstd::string::*;

verus! {

/// What one invocation of the bridge is asked to do.
#[derive(Debug, PartialEq, Eq)]
pub enum Invocation {
    /// Open the channel and close it again: a probe of whether the companion
    /// listens.
    Connect { address: String },
    /// Launch a companion and wait until it listens.
    Init { program: String, args: Vec<String> },
    /// Send one request and hand the reply to the host.
    Exec { address: String, payload: String },
    /// Tell the companion to end.
    Terminate { address: String, message: String },
}

/// An invocation as plain text.
pub enum InvocationView {
    Connect { address: Seq<char> },
    Init { program: Seq<char>, args: Seq<Seq<char>> },
    Exec { address: Seq<char>, payload: Seq<char> },
    Terminate { address: Seq<char>, message: Seq<char> },
}

impl View for Invocation {
    type V = InvocationView;

    open spec fn view(&self) -> InvocationView {
        match self {
            Invocation::Connect { address } => InvocationView::Connect { address: address@ },
            Invocation::Init { program, args } => InvocationView::Init {
                program: program@,
                args: args.deep_view(),
            },
            Invocation::Exec { address, payload } => InvocationView::Exec {
                address: address@,
                payload: payload@,
            },
            Invocation::Terminate { address, message } => InvocationView::Terminate {
                address: address@,
                message: message@,
            },
        }
    }
}

/// The invocation that the arguments after the program's own name ask for.
///
/// Arguments beyond those that a command takes are not looked at. A
/// `terminate` without a message carries the message `termination`.
pub open spec fn parsed_invocation(args: Seq<Seq<char>>) -> Result<InvocationView, BridgeError> {
    if args.len() < 1 {
        Err(BridgeError::MissingCommand)
    } else if args[0] == "connect"@ {
        if args.len() < 2 {
            Err(BridgeError::MissingArgument)
        } else {
            Ok(InvocationView::Connect { address: args[1] })
        }
    } else if args[0] == "init"@ {
        if args.len() < 2 {
            Err(BridgeError::MissingArgument)
        } else {
            Ok(InvocationView::Init { program: args[1], args: args.skip(2) })
        }
    } else if args[0] == "exec"@ {
        if args.len() < 3 {
            Err(BridgeError::MissingArgument)
        } else {
            Ok(InvocationView::Exec { address: args[1], payload: args[2] })
        }
    } else if args[0] == "terminate"@ {
        if args.len() < 2 {
            Err(BridgeError::MissingArgument)
        } else {
            Ok(
                InvocationView::Terminate {
                    address: args[1],
                    message: if args.len() > 2 {
                        args[2]
                    } else {
                        "termination"@
                    },
                },
            )
        }
    } else {
        Err(BridgeError::UnrecognizedCommand)
    }
}

/// A command line whose first word is none of the four commands asks for
/// nothing: it is refused, and the process that refuses it exits with a
/// status other than zero.
pub proof fn lemma_unrecognized_command(args: Seq<Seq<char>>)
    requires
        args.len() >= 1,
        args[0] != "connect"@,
        args[0] != "init"@,
        args[0] != "exec"@,
        args[0] != "terminate"@,
    ensures
        parsed_invocation(args) == Err::<InvocationView, BridgeError>(
            BridgeError::UnrecognizedCommand,
        ),
        exit_status_of(Some(BridgeError::UnrecognizedCommand)) != 0,
{
}

/// The text of the frame that an invocation sends once the channel is open:
/// the payload of an `exec` after the tag `response:`, the message of a
/// `terminate` after the tag `terminate:`. The other commands send nothing.
pub open spec fn request_text(invocation: InvocationView) -> Option<Seq<char>> {
    match invocation {
        InvocationView::Exec { address, payload } => Some("response:"@ + payload),
        InvocationView::Terminate { address, message } => Some("terminate:"@ + message),
        _ => None,
    }
}

impl Invocation {
    /// The text of the frame to send once the channel is open, if any.
    pub fn request(&self) -> (text: Option<String>)
        ensures
            match text {
                Some(t) => request_text(self@) == Some(t@),
                None => request_text(self@) is None,
            },
    {
        match self {
            Invocation::Exec { address, payload } => {
                let mut text = String::from_str("response:");
                text.append(payload.as_str());
                Some(text)
            },
            Invocation::Terminate { address, message } => {
                let mut text = String::from_str("terminate:");
                text.append(message.as_str());
                Some(text)
            },
            _ => None,
        }
    }
}

/// Whether `text` reads `word`.
fn reads(text: &String, word: &str) -> (same: bool)
    ensures
        same == (text@ == word@),
{
    let word = String::from_str(word);
    *text == word
}

/// A copy of the arguments from `from` on.
fn arguments_from(args: &[String], from: usize) -> (rest: Vec<String>)
    requires
        from <= args.len(),
    ensures
        rest.deep_view() == args.deep_view().skip(from as int),
{
    let mut rest: Vec<String> = Vec::new();
    let mut i: usize = from;
    while i < args.len()
        invariant
            from <= i <= args.len(),
            rest.len() == i - from,
            forall|j: int| 0 <= j < rest.len() ==> rest@[j]@ == args@[from + j]@,
        decreases args.len() - i,
    {
        rest.push(args[i].clone());
        i = i + 1;
    }
    assert(rest.deep_view() =~= args.deep_view().skip(from as int));
    rest
}

/// Reads the command line: `args` are the arguments after the program's own
/// name.
pub fn parse_invocation(args: &[String]) -> (parsed: Result<Invocation, BridgeError>)
    ensures
        match parsed {
            Ok(invocation) => parsed_invocation(args.deep_view()) == Ok::<
                InvocationView,
                BridgeError,
            >(invocation@),
            Err(e) => parsed_invocation(args.deep_view()) == Err::<InvocationView, BridgeError>(e),
        },
{
    let count = args.len();
    if count < 1 {
        return Err(BridgeError::MissingCommand);
    }
    let command = &args[0];
    if reads(command, "connect") {
        if count < 2 {
            return Err(BridgeError::MissingArgument);
        }
        Ok(Invocation::Connect { address: args[1].clone() })
    } else if reads(command, "init") {
        if count < 2 {
            return Err(BridgeError::MissingArgument);
        }
        Ok(Invocation::Init { program: args[1].clone(), args: arguments_from(args, 2) })
    } else if reads(command, "exec") {
        if count < 3 {
            return Err(BridgeError::MissingArgument);
        }
        Ok(Invocation::Exec { address: args[1].clone(), payload: args[2].clone() })
    } else if reads(command, "terminate") {
        if count < 2 {
            return Err(BridgeError::MissingArgument);
        }
        let message = if count > 2 {
            args[2].clone()
        } else {
            String::from_str("termination")
        };
        Ok(Invocation::Terminate { address: args[1].clone(), message })
    } else {
        Err(BridgeError::UnrecognizedCommand)
    }
}

} // verus!
