//! Decisions taken while a terminal is attached to a command in a
//! devcontainer.

use crate::text::{chars_of, contains_chars, contains_run};
use vstd::prelude::*;

verus! {

/// What is read of an error that the Docker client returned: a response of
/// the Docker server with its status code and message, or any other error.
#[derive(Clone, Debug)]
pub enum DockerError {
    ServerResponse { status_code: u16, message: String },
    Other,
}

/// The message with which the Docker server refuses to resize the terminal
/// of a command that has already exited.
pub open spec fn stopped_resize_message() -> Seq<char> {
    "cannot resize a stopped container"@
}

/// An error is the refusal to resize the terminal of a stopped command: a
/// server response with status 500 whose message contains
/// `cannot resize a stopped container`.
pub open spec fn is_stopped_resize_refusal(error: DockerError) -> bool {
    match error {
        DockerError::ServerResponse { status_code, message } => status_code == 500 && contains_run(
            message@,
            stopped_resize_message(),
        ),
        DockerError::Other => false,
    }
}

/// Whether `error` is the refusal to resize the terminal of a command that
/// has already exited (which resizing tolerates).
pub fn is_stopped_exec_resize_error(error: &DockerError) -> (r: bool)
    ensures
        r == is_stopped_resize_refusal(*error),
{
    match error {
        DockerError::ServerResponse { status_code, message } => {
            if *status_code != 500 {
                return false;
            }
            let hay = chars_of(message.as_str());
            let pattern = chars_of("cannot resize a stopped container");
            contains_chars(&hay, &pattern)
        },
        DockerError::Other => false,
    }
}

} // verus!
