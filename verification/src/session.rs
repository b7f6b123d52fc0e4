//! The decisions of an attached command session: the order in which a
//! command is created, started, resized, connected and inspected, what each
//! terminal event becomes, and the exit status of the program.

use crate::keys::{key_bytes, key_event_bytes, KeyEvent, KeyEventKind};
use crate::terminal::{is_stopped_exec_resize_error, is_stopped_resize_refusal, DockerError};
use crate::text::push_str_bytes;
use vstd::prelude::*;
use vstd::utf8::encode_utf8;

verus! {

/// Where a command session stands.
#[derive(Clone, Copy, Debug, PartialEq, Eq, Structural)]
pub enum ExecStage {
    /// The command is being created.
    Creating,
    /// The command is being started, with input and output attached.
    Starting,
    /// The command's terminal is being sized to the local terminal.
    Resizing,
    /// Input and output are being forwarded until the command's output ends.
    Forwarding,
    /// The command's exit code is being read.
    Inspecting,
    /// The session is over.
    Finished,
}

/// What the outside work of the current stage came to.
#[derive(Clone, Debug)]
pub enum ExecEvent {
    /// The command was created.
    Created,
    /// Starting the command gave a session; `attached` when its input and
    /// output are attached.
    Started { attached: bool },
    /// The terminal was resized.
    Resized,
    /// Resizing the terminal failed with this error.
    ResizeFailed(DockerError),
    /// The command's output ended.
    Forwarded,
    /// Reading the command gave this exit code, if any.
    Inspected { exit_code: Option<i64> },
    /// The Docker client or the local terminal failed.
    Failed,
}

/// Why a session ended without an exit code.
#[derive(Clone, Copy, Debug, PartialEq, Eq, Structural)]
pub enum ExecFailure {
    /// The Docker client or the local terminal failed; the caller returns
    /// that error.
    Client,
    /// Starting the command gave a session without attached input and output.
    NotAttached,
    /// The finished command has no exit code.
    NoExitCode,
}

/// What to do next in a session.
#[derive(Clone, Copy, Debug, PartialEq, Eq, Structural)]
pub enum ExecAction {
    /// Create the command.
    CreateExec,
    /// Start the command with input and output attached.
    StartExec,
    /// Size the command's terminal to the local terminal.
    ResizeToTerminal,
    /// Forward local input to the command and its output to the local
    /// terminal, until the output ends.
    ForwardIo,
    /// Read the command's exit code.
    InspectExec,
    /// End the session with this exit code.
    Finish(i64),
    /// End the session with this failure.
    Fail(ExecFailure),
}

/// An event can come in a stage: the outcome of that stage's own work.
pub open spec fn event_fits(stage: ExecStage, event: ExecEvent) -> bool {
    match event {
        ExecEvent::Failed => stage != ExecStage::Finished,
        ExecEvent::Created => stage == ExecStage::Creating,
        ExecEvent::Started { .. } => stage == ExecStage::Starting,
        ExecEvent::Resized | ExecEvent::ResizeFailed(_) => stage == ExecStage::Resizing,
        ExecEvent::Forwarded => stage == ExecStage::Forwarding,
        ExecEvent::Inspected { .. } => stage == ExecStage::Inspecting,
    }
}

/// The next stage and action after `event` in `stage`; which work comes next
/// follows from the outcome of the current work.
pub open spec fn exec_transition(stage: ExecStage, event: ExecEvent) -> (ExecStage, ExecAction) {
    match event {
        ExecEvent::Failed => (ExecStage::Finished, ExecAction::Fail(ExecFailure::Client)),
        ExecEvent::Created => (ExecStage::Starting, ExecAction::StartExec),
        ExecEvent::Started { attached } => if attached {
            (ExecStage::Resizing, ExecAction::ResizeToTerminal)
        } else {
            (ExecStage::Finished, ExecAction::Fail(ExecFailure::NotAttached))
        },
        ExecEvent::Resized => (ExecStage::Forwarding, ExecAction::ForwardIo),
        ExecEvent::ResizeFailed(e) => if is_stopped_resize_refusal(e) {
            (ExecStage::Forwarding, ExecAction::ForwardIo)
        } else {
            (ExecStage::Finished, ExecAction::Fail(ExecFailure::Client))
        },
        ExecEvent::Forwarded => (ExecStage::Inspecting, ExecAction::InspectExec),
        ExecEvent::Inspected { exit_code } => match exit_code {
            Some(code) => (ExecStage::Finished, ExecAction::Finish(code)),
            None => (ExecStage::Finished, ExecAction::Fail(ExecFailure::NoExitCode)),
        },
    }
}

/// The position of a stage in a session.
pub open spec fn stage_rank(stage: ExecStage) -> int {
    match stage {
        ExecStage::Creating => 0,
        ExecStage::Starting => 1,
        ExecStage::Resizing => 2,
        ExecStage::Forwarding => 3,
        ExecStage::Inspecting => 4,
        ExecStage::Finished => 5,
    }
}

/// Whether `event` can come in `stage`: whether it is the outcome of that
/// stage's own work.
pub fn event_fits_stage(stage: ExecStage, event: &ExecEvent) -> (r: bool)
    ensures
        r == event_fits(stage, *event),
{
    match event {
        ExecEvent::Failed => stage != ExecStage::Finished,
        ExecEvent::Created => stage == ExecStage::Creating,
        ExecEvent::Started { .. } => stage == ExecStage::Starting,
        ExecEvent::Resized | ExecEvent::ResizeFailed(_) => stage == ExecStage::Resizing,
        ExecEvent::Forwarded => stage == ExecStage::Forwarding,
        ExecEvent::Inspected { .. } => stage == ExecStage::Inspecting,
    }
}

/// How a session begins: create the command.
pub fn exec_begin() -> (r: (ExecStage, ExecAction))
    ensures
        r == (ExecStage::Creating, ExecAction::CreateExec),
{
    (ExecStage::Creating, ExecAction::CreateExec)
}

/// The next stage and action of a session after `event`, the outcome of the
/// work of `stage`. A refusal to resize the terminal of a command that has
/// already exited does not end the session.
pub fn exec_step(stage: ExecStage, event: ExecEvent) -> (r: (ExecStage, ExecAction))
    requires
        event_fits(stage, event),
    ensures
        r == exec_transition(stage, event),
{
    match event {
        ExecEvent::Failed => (ExecStage::Finished, ExecAction::Fail(ExecFailure::Client)),
        ExecEvent::Created => (ExecStage::Starting, ExecAction::StartExec),
        ExecEvent::Started { attached } => {
            if attached {
                (ExecStage::Resizing, ExecAction::ResizeToTerminal)
            } else {
                (ExecStage::Finished, ExecAction::Fail(ExecFailure::NotAttached))
            }
        },
        ExecEvent::Resized => (ExecStage::Forwarding, ExecAction::ForwardIo),
        ExecEvent::ResizeFailed(e) => {
            if is_stopped_exec_resize_error(&e) {
                (ExecStage::Forwarding, ExecAction::ForwardIo)
            } else {
                (ExecStage::Finished, ExecAction::Fail(ExecFailure::Client))
            }
        },
        ExecEvent::Forwarded => (ExecStage::Inspecting, ExecAction::InspectExec),
        ExecEvent::Inspected { exit_code } => match exit_code {
            Some(code) => (ExecStage::Finished, ExecAction::Finish(code)),
            None => (ExecStage::Finished, ExecAction::Fail(ExecFailure::NoExitCode)),
        },
    }
}

/// An event of the local terminal while a command is attached.
#[derive(Clone, Debug)]
pub enum TerminalEvent {
    /// A key event.
    Key(KeyEvent),
    /// Text pasted into the terminal.
    Paste(String),
    /// The terminal was resized to `columns` by `rows`.
    Resize { columns: u16, rows: u16 },
    /// The terminal gained focus.
    FocusGained,
    /// The terminal lost focus.
    FocusLost,
    /// A mouse event.
    Mouse,
}

/// What a terminal event becomes.
#[derive(Clone, Debug)]
pub enum TerminalAction {
    /// Write these bytes to the command's input.
    Write(Vec<u8>),
    /// Resize the command's terminal to `columns` by `rows`.
    Resize { columns: u16, rows: u16 },
    /// Nothing.
    Ignore,
}

/// The value of a [`TerminalAction`]: the bytes to write, a resize, or nothing.
pub enum TerminalActionModel {
    Write(Seq<u8>),
    Resize { columns: u16, rows: u16 },
    Ignore,
}

impl View for TerminalAction {
    type V = TerminalActionModel;

    open spec fn view(&self) -> TerminalActionModel {
        match self {
            TerminalAction::Write(b) => TerminalActionModel::Write(b@),
            TerminalAction::Resize { columns, rows } => TerminalActionModel::Resize {
                columns: *columns,
                rows: *rows,
            },
            TerminalAction::Ignore => TerminalActionModel::Ignore,
        }
    }
}

/// What a terminal event becomes: a pressed or repeated key its bytes (if it
/// has any), pasted text its UTF-8 bytes, a resize a resize of the command's
/// terminal; everything else nothing.
pub open spec fn terminal_event_model(event: TerminalEvent) -> TerminalActionModel {
    match event {
        TerminalEvent::Key(key) => if key.kind == KeyEventKind::Press || key.kind
            == KeyEventKind::Repeat {
            match key_bytes(key.code, key.modifiers) {
                Some(b) => TerminalActionModel::Write(b),
                None => TerminalActionModel::Ignore,
            }
        } else {
            TerminalActionModel::Ignore
        },
        TerminalEvent::Paste(text) => TerminalActionModel::Write(encode_utf8(text@)),
        TerminalEvent::Resize { columns, rows } => TerminalActionModel::Resize { columns, rows },
        _ => TerminalActionModel::Ignore,
    }
}

/// What a terminal event becomes while a command is attached.
pub fn terminal_event_action(event: TerminalEvent) -> (r: TerminalAction)
    ensures
        r@ == terminal_event_model(event),
{
    match event {
        TerminalEvent::Key(key) => {
            if key.kind == KeyEventKind::Press || key.kind == KeyEventKind::Repeat {
                match key_event_bytes(key) {
                    Some(bytes) => TerminalAction::Write(bytes),
                    None => TerminalAction::Ignore,
                }
            } else {
                TerminalAction::Ignore
            }
        },
        TerminalEvent::Paste(text) => {
            let mut bytes: Vec<u8> = Vec::new();
            push_str_bytes(&mut bytes, text.as_str());
            assert(bytes@ =~= encode_utf8(text@));
            TerminalAction::Write(bytes)
        },
        TerminalEvent::Resize { columns, rows } => TerminalAction::Resize { columns, rows },
        TerminalEvent::FocusGained | TerminalEvent::FocusLost | TerminalEvent::Mouse => {
            TerminalAction::Ignore
        },
    }
}

/// The exit status of the program after a command: success when there was
/// no command or it exited with 0, its exit code when that fits in a byte,
/// and nothing (a failure) otherwise.
pub open spec fn exit_status_model(status: Option<i64>) -> Option<u8> {
    match status {
        None => Some(0u8),
        Some(code) => if 0 <= code <= 255 {
            Some(code as u8)
        } else {
            None
        },
    }
}

/// The exit status of the program after a command's status, if it fits in a
/// byte.
pub fn exit_status_code(status: Option<i64>) -> (r: Option<u8>)
    ensures
        r == exit_status_model(status),
{
    match status {
        None => Some(0),
        Some(code) => {
            if 0 <= code && code <= 255 {
                Some(code as u8)
            } else {
                None
            }
        },
    }
}

} // verus!

verus! {

// ---------------------------------------------------------------------------
// Laws of a command session.
// ---------------------------------------------------------------------------

/// Every step of a session moves it forward, so a session ends after at most
/// five events.
pub proof fn session_moves_forward(stage: ExecStage, event: ExecEvent)
    requires
        event_fits(stage, event),
    ensures
        stage_rank(exec_transition(stage, event).0) > stage_rank(stage),
{
}

/// A session ends with an exit code only after reading the command's exit
/// code, and then with exactly that code; every action that ends a session
/// leaves it finished.
pub proof fn session_ends_with_the_exit_code(stage: ExecStage, event: ExecEvent, code: i64)
    ensures
        exec_transition(stage, event).1 == ExecAction::Finish(code) ==> (event matches ExecEvent::Inspected {
            exit_code,
        } && exit_code == Some(code)),
        (event matches ExecEvent::Inspected { exit_code } && exit_code == Some(code)) ==> exec_transition(
            stage,
            event,
        ) == (ExecStage::Finished, ExecAction::Finish(code)),
        (exec_transition(stage, event).1 is Finish || exec_transition(stage, event).1 is Fail)
            ==> exec_transition(stage, event).0 == ExecStage::Finished,
{
}

/// Resizing the terminal is best effort: a refusal because the command has
/// already exited goes on to forwarding, any other resize failure ends the
/// session.
pub proof fn stopped_resize_refusal_is_tolerated(error: DockerError)
    ensures
        exec_transition(ExecStage::Resizing, ExecEvent::ResizeFailed(error)) == if is_stopped_resize_refusal(
            error,
        ) {
            (ExecStage::Forwarding, ExecAction::ForwardIo)
        } else {
            (ExecStage::Finished, ExecAction::Fail(ExecFailure::Client))
        },
{
}

/// Released keys are never forwarded.
pub proof fn released_keys_are_ignored(key: KeyEvent)
    requires
        key.kind == KeyEventKind::Release,
    ensures
        terminal_event_model(TerminalEvent::Key(key)) == TerminalActionModel::Ignore,
{
}

/// The program exits with success when no command ran or the command exited
/// with 0, and passes on every exit code that fits in a byte.
pub proof fn exit_status_passes_codes_on(code: i64)
    ensures
        exit_status_model(None) == Some(0u8),
        0 <= code <= 255 ==> exit_status_model(Some(code)) == Some(code as u8),
        !(0 <= code <= 255) ==> exit_status_model(Some(code)) is None,
{
}

} // verus!

verus! {

/// Holding a key down forwards it again and again: a repeated key event
/// becomes exactly what the same key pressed becomes, and a pressed key that
/// has bytes is forwarded as those bytes (nothing when it has none).
pub proof fn repeated_keys_are_forwarded_like_pressed_keys(key: KeyEvent)
    ensures
        key.kind == KeyEventKind::Repeat ==> terminal_event_model(TerminalEvent::Key(key))
            == terminal_event_model(TerminalEvent::Key(KeyEvent { kind: KeyEventKind::Press, ..key })),
        key.kind == KeyEventKind::Press ==> terminal_event_model(TerminalEvent::Key(key)) == match key_bytes(
            key.code,
            key.modifiers,
        ) {
            Some(b) => TerminalActionModel::Write(b),
            None => TerminalActionModel::Ignore,
        },
{
}

} // verus!
