//! A process that runs a command.

use crate::process::operations::{Pipe, ProcessError, ProcessOperations};
use std::path::PathBuf;
use tokio::sync::mpsc::Sender;
use vstd::prelude::*;

verus! {

/// Runs a command and passes its output on.
pub struct Command {
    inner: crate::commander::Command,
}

impl View for Command {
    type V = crate::commander::CommandView;

    closed spec fn view(&self) -> crate::commander::CommandView {
        self.inner@
    }
}

impl Command {
    /// A process that runs `command`.
    pub fn new(command: crate::commander::Command) -> (process: Command)
        ensures
            process@ == command@,
    {
        Command { inner: command }
    }

    /// A process that runs the command made of the given parts.
    pub fn line(
        command: &str,
        args: Vec<String>,
        working_dir: Option<PathBuf>,
        capture_output: bool,
        stdout_senders: Vec<Sender<String>>,
        stderr_senders: Vec<Sender<String>>,
    ) -> (process: Command)
        ensures
            process@ == (crate::commander::CommandView {
                program: command@,
                args: crate::strings::texts(args@),
                current_dir: working_dir,
                capture_output,
                stdout_senders: stdout_senders@,
                stderr_senders: stderr_senders@,
            }),
    {
        Command {
            inner: crate::commander::Command::line(
                command,
                args,
                working_dir,
                capture_output,
                stdout_senders,
                stderr_senders,
            ),
        }
    }

    /// Sets whether the output of the command is kept.
    pub fn set_capture_output(&mut self, capture_output: bool) -> (this: &mut Command)
        ensures
            this@ == (crate::commander::CommandView { capture_output, ..old(self)@ }),
            *final(self) == *final(this),
    {
        self.inner.set_capture_output(capture_output);
        self
    }

    /// Adds a sender that gets each line of standard output.
    pub fn append_stdout(&mut self, sender: Sender<String>) -> (this: &mut Command)
        ensures
            this@ == (crate::commander::CommandView {
                stdout_senders: old(self)@.stdout_senders.push(sender),
                ..old(self)@
            }),
            *final(self) == *final(this),
    {
        self.inner.append_stdout(sender);
        self
    }

    /// Adds a sender that gets each line of standard error.
    pub fn append_stderr(&mut self, sender: Sender<String>) -> (this: &mut Command)
        ensures
            this@ == (crate::commander::CommandView {
                stderr_senders: old(self)@.stderr_senders.push(sender),
                ..old(self)@
            }),
            *final(self) == *final(this),
    {
        self.inner.append_stderr(sender);
        self
    }

    /// The directory to run the command in, if one is set.
    pub fn get_current_dir(&self) -> (dir: Option<&PathBuf>)
        ensures
            match dir {
                Some(d) => self@.current_dir == Some(*d),
                None => self@.current_dir is None,
            },
    {
        self.inner.get_current_dir()
    }

    /// The command, given up together with the process.
    pub fn into_inner(self) -> (command: crate::commander::Command)
        ensures
            command@ == self@,
    {
        self.inner
    }
}

impl ProcessOperations for Command {
    open spec fn attached(&self, pipe: Pipe) -> Seq<Sender<String>> {
        match pipe {
            Pipe::STDOUT => self@.stdout_senders,
            Pipe::STDERR => self@.stderr_senders,
        }
    }

    fn pipe(&mut self, pipe: Pipe, sender: Sender<String>) -> (r: Result<(), ProcessError>)
        ensures
            final(self)@ == match pipe {
                Pipe::STDOUT => crate::commander::CommandView {
                    stdout_senders: old(self)@.stdout_senders.push(sender),
                    ..old(self)@
                },
                Pipe::STDERR => crate::commander::CommandView {
                    stderr_senders: old(self)@.stderr_senders.push(sender),
                    ..old(self)@
                },
            },
    {
        match pipe {
            Pipe::STDOUT => {
                self.append_stdout(sender);
                Ok(())
            },
            Pipe::STDERR => {
                self.append_stderr(sender);
                Ok(())
            },
        }
    }
}

} // verus!
