//! The command gateway: the operations that the UI may call, each of which
//! validates its own input and answers with success or a typed failure.

use vstd::prelude::*;
use vstd::string::StringExecFns;
use crate::window::{toggle_ops, MainWindow, WindowOp};

verus! {

/// The largest badge count that is accepted.
pub const MAX_BADGE_COUNT: u32 = 99_999;

/// Why a command failed.
#[derive(Clone, Debug, PartialEq, Eq)]
pub enum CommandError {
    /// The caller's value lies outside its domain: a badge count that is too
    /// large.
    InvalidArgument,
    /// The main window does not exist.
    NotFound,
    /// A call on the host failed; the cause is the host's own description.
    HostError(String),
}

impl CommandError {
    /// The text by which the failure is reported to the caller.
    pub open spec fn text(self) -> Seq<char> {
        match self {
            CommandError::InvalidArgument => "Badge count must be between 0 and 99999"@,
            CommandError::NotFound => "Main window not found"@,
            CommandError::HostError(cause) => cause@,
        }
    }

    /// The text by which the failure is reported to the caller.
    pub fn message(&self) -> (m: String)
        ensures
            m@ == self.text(),
    {
        match self {
            CommandError::InvalidArgument => String::from_str(
                "Badge count must be between 0 and 99999",
            ),
            CommandError::NotFound => String::from_str("Main window not found"),
            CommandError::HostError(cause) => cause.clone(),
        }
    }
}

/// The version of the application, fixed when it is built.
pub fn get_app_version() -> (version: String)
    ensures
        version@ == "0.1.0"@,
{
    String::from_str("0.1.0")
}

/// The platform identifier `<os>-<arch>` of the given operating system and
/// processor architecture.
pub fn get_platform(os: &str, arch: &str) -> (id: String)
    ensures
        id@ == os@ + seq!['-'] + arch@,
{
    proof {
        reveal_strlit("-");
        assert("-"@ =~= seq!['-']);
    }
    String::from_str(os).concat("-").concat(arch)
}

/// Accepts a badge count from 0 to 99999 and rejects every larger one.
/// Nothing is stored and no platform call is made.
pub fn set_badge_count(count: u32) -> (r: Result<(), CommandError>)
    ensures
        r is Ok <==> count <= MAX_BADGE_COUNT,
        r is Err ==> r == Err::<(), CommandError>(CommandError::InvalidArgument),
{
    if count > MAX_BADGE_COUNT {
        return Err(CommandError::InvalidArgument);
    }
    Ok(())
}

/// Decides one toggle of the main window from what the host reports of it
/// now. Without a window the command fails and asks nothing of the host. A
/// window that is shown is hidden; any other is shown and then focused.
pub fn toggle_window_visibility(window: MainWindow) -> (r: Result<Vec<WindowOp>, CommandError>)
    ensures
        match window {
            MainWindow::Missing => r == Err::<Vec<WindowOp>, CommandError>(CommandError::NotFound),
            MainWindow::Present { .. } => r is Ok && r->Ok_0@ == toggle_ops(window.shown()),
        },
{
    match window {
        MainWindow::Missing => Err(CommandError::NotFound),
        MainWindow::Present { visible } => {
            let mut ops: Vec<WindowOp> = Vec::new();
            let shown = match visible {
                Some(v) => v,
                None => false,
            };
            if shown {
                ops.push(WindowOp::Hide);
            } else {
                ops.push(WindowOp::Show);
                ops.push(WindowOp::Focus);
            }
            assert(ops@ =~= toggle_ops(window.shown()));
            Ok(ops)
        },
    }
}

/// What comes next while the calls of a toggle are carried out.
#[derive(Debug, PartialEq, Eq)]
pub enum ToggleStep {
    /// The host is to make this call and report how it went.
    Perform(WindowOp),
    /// The command is over, with this answer.
    Finished(Result<(), CommandError>),
}

/// What comes next once the first `done` calls of `ops` were made, where
/// `failure` is the cause that the host gave if the last of them failed.
/// The calls are made in order; the first failure ends the command with a
/// host error, and the command succeeds once every call has succeeded.
pub fn toggle_step(ops: &Vec<WindowOp>, done: usize, failure: Option<String>) -> (step: ToggleStep)
    ensures
        step == (match failure {
            Some(cause) => ToggleStep::Finished(Err(CommandError::HostError(cause))),
            None => if done < ops@.len() {
                ToggleStep::Perform(ops@[done as int])
            } else {
                ToggleStep::Finished(Ok(()))
            },
        }),
{
    match failure {
        Some(cause) => ToggleStep::Finished(Err(CommandError::HostError(cause))),
        None => if done < ops.len() {
            ToggleStep::Perform(ops[done])
        } else {
            ToggleStep::Finished(Ok(()))
        },
    }
}

} // verus!
