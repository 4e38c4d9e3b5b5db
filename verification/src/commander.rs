//! The description of a command to run: the program, its arguments, where to
//! run it, and who gets its output. Running it is left to whoever holds the
//! description; what is decided before and after the run is decided here.

use crate::strings::join;
use std::path::PathBuf;
use tokio::sync::mpsc::Sender;
use vstd::prelude::*;
use vstd::string::StringExecFns;

verus! {

/// A command in contracts.
pub struct CommandView {
    pub program: Seq<char>,
    pub args: Seq<Seq<char>>,
    pub current_dir: Option<PathBuf>,
    pub capture_output: bool,
    pub stdout_senders: Seq<Sender<String>>,
    pub stderr_senders: Seq<Sender<String>>,
}

/// A command to run.
pub struct Command {
    program: String,
    args: Vec<String>,
    current_dir: Option<PathBuf>,
    capture_output: bool,
    stdout_senders: Vec<Sender<String>>,
    stderr_senders: Vec<Sender<String>>,
}

impl View for Command {
    type V = CommandView;

    closed spec fn view(&self) -> CommandView {
        CommandView {
            program: self.program@,
            args: crate::strings::texts(self.args@),
            current_dir: self.current_dir,
            capture_output: self.capture_output,
            stdout_senders: self.stdout_senders@,
            stderr_senders: self.stderr_senders@,
        }
    }
}

/// A line of output as it is passed on: the line and a line feed.
pub open spec fn passed_on(line: Seq<char>) -> Seq<char> {
    line + seq!['\n']
}

/// What a run gives once the command has ended: the captured standard output
/// (nothing where none was captured) if it ended well, else words about the
/// failure with the captured standard error.
pub open spec fn ended(
    command: CommandView,
    success: bool,
    stdout: Option<Seq<char>>,
    stderr: Option<Seq<char>>,
) -> Result<Seq<char>, Seq<char>> {
    if success {
        Ok(
            match stdout {
                Some(text) => text,
                None => Seq::empty(),
            },
        )
    } else {
        Err(
            "Command "@ + command.program + " failed with args "@ + crate::strings::joined(
                command.args,
                " "@,
            ) + "\nError Output: "@ + match stderr {
                Some(text) => text,
                None => "Unknown error"@,
            },
        )
    }
}

/// A line of output as it is passed on to the senders and kept in a capture.
pub fn output_line(line: &str) -> (passed: String)
    ensures
        passed@ == passed_on(line@),
{
    proof {
        reveal_strlit("\n");
        assert("\n"@ =~= seq!['\n']);
    }
    String::from_str(line).concat("\n")
}

/// The output kept in memory during a run.
pub struct Capture {
    kept: Option<String>,
}

impl Capture {
    /// What has been kept: `None` where nothing is to be kept.
    pub closed spec fn kept(&self) -> Option<Seq<char>> {
        crate::strings::text_view(self.kept)
    }

    /// A capture that keeps output if `capture_output` says so.
    pub fn new(capture_output: bool) -> (capture: Capture)
        ensures
            capture.kept() == if capture_output {
                Some(Seq::<char>::empty())
            } else {
                None
            },
    {
        if capture_output {
            Capture { kept: Some(String::new()) }
        } else {
            Capture { kept: None }
        }
    }

    /// Takes a line of output: returns it as it is to be passed on, and keeps
    /// that where output is kept.
    pub fn take_line(&mut self, line: &str) -> (passed: String)
        ensures
            passed@ == passed_on(line@),
            final(self).kept() == match old(self).kept() {
                Some(text) => Some(text + passed_on(line@)),
                None => None,
            },
    {
        let passed = output_line(line);
        match &mut self.kept {
            Some(text) => {
                text.append(passed.as_str());
            },
            None => {},
        }
        passed
    }

    /// What has been kept.
    pub fn into_text(self) -> (text: Option<String>)
        ensures
            crate::strings::text_view(text) == self.kept(),
    {
        self.kept
    }
}

impl Command {
    /// A command that runs `program` without arguments in the directory of
    /// its caller.
    pub fn new(
        program: &str,
        capture_output: bool,
        stdout_senders: Vec<Sender<String>>,
        stderr_senders: Vec<Sender<String>>,
    ) -> (command: Command)
        ensures
            command@ == (CommandView {
                program: program@,
                args: Seq::empty(),
                current_dir: None,
                capture_output,
                stdout_senders: stdout_senders@,
                stderr_senders: stderr_senders@,
            }),
    {
        let command = Command {
            program: String::from_str(program),
            args: Vec::new(),
            current_dir: None,
            capture_output,
            stdout_senders,
            stderr_senders,
        };
        assert(crate::strings::texts(command.args@) =~= Seq::empty());
        command
    }

    /// A command from its parts.
    pub fn line(
        command: &str,
        args: Vec<String>,
        working_dir: Option<PathBuf>,
        capture_output: bool,
        stdout_senders: Vec<Sender<String>>,
        stderr_senders: Vec<Sender<String>>,
    ) -> (made: Command)
        ensures
            made@ == (CommandView {
                program: command@,
                args: crate::strings::texts(args@),
                current_dir: working_dir,
                capture_output,
                stdout_senders: stdout_senders@,
                stderr_senders: stderr_senders@,
            }),
    {
        Command {
            program: String::from_str(command),
            args,
            current_dir: working_dir,
            capture_output,
            stdout_senders,
            stderr_senders,
        }
    }

    /// Adds an argument.
    pub fn arg(&mut self, arg: &str) -> (this: &mut Command)
        ensures
            this@ == (CommandView { args: old(self)@.args.push(arg@), ..old(self)@ }),
            *final(self) == *final(this),
    {
        let part = String::from_str(arg);
        proof {
            crate::strings::lemma_texts_push(self.args@, part);
        }
        self.args.push(part);
        self
    }

    /// Adds arguments.
    pub fn args(&mut self, args: &Vec<String>) -> (this: &mut Command)
        ensures
            this@ == (CommandView {
                args: old(self)@.args + crate::strings::texts(args@),
                ..old(self)@
            }),
            *final(self) == *final(this),
    {
        let mut i: usize = 0;
        while i < args.len()
            invariant
                i <= args.len(),
                self@ == (CommandView {
                    args: old(self)@.args + crate::strings::texts(args@).take(i as int),
                    ..old(self)@
                }),
            decreases args.len() - i,
        {
            let ghost before = self.args@;
            let part = String::from_str(args[i].as_str());
            proof {
                crate::strings::lemma_texts_push(before, part);
                assert(crate::strings::texts(args@).take(i + 1) =~= crate::strings::texts(
                    args@,
                ).take(i as int).push(args[i as int]@));
                assert((old(self)@.args + crate::strings::texts(args@).take(i as int)).push(part@)
                    =~= old(self)@.args + crate::strings::texts(args@).take(i + 1));
            }
            self.args.push(part);
            i = i + 1;
        }
        assert(crate::strings::texts(args@).take(args.len() as int) =~= crate::strings::texts(
            args@,
        ));
        self
    }

    /// Sets whether the output of the command is kept.
    pub fn set_capture_output(&mut self, capture_output: bool) -> (this: &mut Command)
        ensures
            this@ == (CommandView { capture_output, ..old(self)@ }),
            *final(self) == *final(this),
    {
        self.capture_output = capture_output;
        self
    }

    /// Adds a sender that gets each line of standard output.
    pub fn append_stdout(&mut self, sender: Sender<String>) -> (this: &mut Command)
        ensures
            this@ == (CommandView {
                stdout_senders: old(self)@.stdout_senders.push(sender),
                ..old(self)@
            }),
            *final(self) == *final(this),
    {
        self.stdout_senders.push(sender);
        self
    }

    /// Adds a sender that gets each line of standard error.
    pub fn append_stderr(&mut self, sender: Sender<String>) -> (this: &mut Command)
        ensures
            this@ == (CommandView {
                stderr_senders: old(self)@.stderr_senders.push(sender),
                ..old(self)@
            }),
            *final(self) == *final(this),
    {
        self.stderr_senders.push(sender);
        self
    }

    /// Sets the directory to run the command in.
    pub fn current_dir(&mut self, dir: PathBuf) -> (this: &mut Command)
        ensures
            this@ == (CommandView { current_dir: Some(dir), ..old(self)@ }),
            *final(self) == *final(this),
    {
        self.current_dir = Some(dir);
        self
    }

    /// The directory to run the command in, if one is set.
    pub fn get_current_dir(&self) -> (dir: Option<&PathBuf>)
        ensures
            match dir {
                Some(d) => self@.current_dir == Some(*d),
                None => self@.current_dir is None,
            },
    {
        self.current_dir.as_ref()
    }

    /// The program.
    pub fn program(&self) -> (program: &str)
        ensures
            program@ == self@.program,
    {
        self.program.as_str()
    }

    /// The arguments.
    pub fn arguments(&self) -> (args: &Vec<String>)
        ensures
            crate::strings::texts(args@) == self@.args,
    {
        &self.args
    }

    /// Whether the output is kept.
    pub fn captures_output(&self) -> (b: bool)
        ensures
            b == self@.capture_output,
    {
        self.capture_output
    }

    /// The senders that get each line of standard output.
    pub fn stdout_senders(&self) -> (senders: &Vec<Sender<String>>)
        ensures
            senders@ == self@.stdout_senders,
    {
        &self.stdout_senders
    }

    /// The senders that get each line of standard error.
    pub fn stderr_senders(&self) -> (senders: &Vec<Sender<String>>)
        ensures
            senders@ == self@.stderr_senders,
    {
        &self.stderr_senders
    }

    /// The arguments in one line, a blank between each two.
    pub fn args_display(&self) -> (shown: String)
        ensures
            shown@ == crate::strings::joined(self@.args, " "@),
    {
        join(&self.args, " ")
    }

    /// What a run gives once the command has ended, given whether it ended
    /// well and what was kept of its output.
    pub fn finish(&self, success: bool, stdout: Option<String>, stderr: Option<String>) -> (r: Result<
        String,
        String,
    >)
        ensures
            match r {
                Ok(text) => ended(self@, success, crate::strings::text_view(stdout), crate::strings::text_view(stderr)) == Ok::<
                    Seq<char>,
                    Seq<char>,
                >(text@),
                Err(words) => ended(self@, success, crate::strings::text_view(stdout), crate::strings::text_view(stderr)) == Err::<
                    Seq<char>,
                    Seq<char>,
                >(words@),
            },
    {
        if success {
            match stdout {
                Some(text) => Ok(text),
                None => Ok(String::new()),
            }
        } else {
            let shown = self.args_display();
            let words = String::from_str("Command ").concat(self.program.as_str()).concat(
                " failed with args ",
            ).concat(shown.as_str()).concat("\nError Output: ");
            match stderr {
                Some(text) => Err(words.concat(text.as_str())),
                None => Err(words.concat("Unknown error")),
            }
        }
    }
}

} // verus!
