//! Processes that run a binary of the cargo workspace.

use crate::strings::chars_of;
use crate::process::command::Command;
use crate::process::operations::{Pipe, ProcessError, ProcessOperations};
use convert_case::{Case, Casing};
use std::path::PathBuf;
use tokio::sync::mpsc::Sender;
use vstd::prelude::*;
use vstd::string::StringExecFns;

verus! {

/// The upper-case form of an ASCII lower-case letter; any other character
/// as it is.
pub open spec fn upper(c: char) -> char {
    if 'a' <= c && c <= 'z' {
        ((c as u8) - 32) as char
    } else {
        c
    }
}

/// A name in kebab case turned into Pascal case: hyphens go, and each
/// character that starts the name or follows a hyphen is put in upper case.
/// `capitalize` says whether the next character starts a word.
pub open spec fn pascal(name: Seq<char>, capitalize: bool) -> Seq<char>
    decreases name.len(),
{
    if name.len() == 0 {
        Seq::empty()
    } else if name[0] == '-' {
        pascal(name.drop_first(), true)
    } else if capitalize {
        seq![upper(name[0])] + pascal(name.drop_first(), false)
    } else {
        seq![name[0]] + pascal(name.drop_first(), false)
    }
}

/// The upper-case form of an ASCII lower-case letter.
pub fn to_upper(c: char) -> (u: char)
    ensures
        u == upper(c),
{
    if c >= 'a' && c <= 'z' {
        ((c as u8) - 32) as char
    } else {
        c
    }
}

/// The name of a package in Pascal case: `my-crate` becomes `MyCrate`.
pub fn kebab_to_pascal(name: &str) -> (result: String)
    ensures
        result@ == pascal(name@, true),
{
    let chars = chars_of(name);
    let mut result = String::new();
    let mut capitalize = true;
    let mut i: usize = 0;
    proof {
        assert(chars@.skip(0) =~= name@);
        assert(result@ + pascal(name@, true) =~= pascal(name@, true));
    }
    while i < chars.len()
        invariant
            i <= chars.len(),
            chars@ == name@,
            result@ + pascal(chars@.skip(i as int), capitalize) == pascal(name@, true),
        decreases chars.len() - i,
    {
        let ch = chars[i];
        proof {
            let rest = chars@.skip(i as int);
            assert(rest[0] == ch);
            assert(rest.drop_first() =~= chars@.skip(i + 1));
        }
        let ghost before = result@;
        if ch == '-' {
            capitalize = true;
        } else if capitalize {
            result.push(to_upper(ch));
            capitalize = false;
            assert((before + seq![upper(ch)]) + pascal(chars@.skip(i + 1), false) =~= before + (
            seq![upper(ch)] + pascal(chars@.skip(i + 1), false)));
            assert(before.push(upper(ch)) =~= before + seq![upper(ch)]);
        } else {
            result.push(ch);
            assert((before + seq![ch]) + pascal(chars@.skip(i + 1), false) =~= before + (seq![ch]
                + pascal(chars@.skip(i + 1), false)));
            assert(before.push(ch) =~= before + seq![ch]);
        }
        i = i + 1;
    }
    proof {
        assert(chars@.skip(chars.len() as int) =~= Seq::empty());
        assert(result@ + Seq::<char>::empty() =~= result@);
    }
    result
}

/// A name in Pascal case, as the crate `convert_case` writes it.
pub uninterp spec fn pascal_case(name: Seq<char>) -> Seq<char>;

/// Calls `Casing::to_case` of `convert_case` with `Case::Pascal`. The result
/// is the named function [`pascal_case`] of the text; nothing else is claimed
/// of it.
#[verifier::external_body]
fn to_pascal_case(name: &str) -> (converted: String)
    ensures
        converted@ == pascal_case(name@),
{
    name.to_case(Case::Pascal)
}

/// The name of the type that stands for the binary of the package
/// `crate_name`: the package's name in Pascal case.
pub fn kestrelize(crate_name: &str) -> (struct_name: String)
    ensures
        struct_name@ == pascal_case(crate_name@),
{
    to_pascal_case(crate_name)
}

/// Where the binary of a package lies: below the target directory of the
/// workspace that the package's manifest belongs to, or, outside a
/// workspace, wherever the search path finds the bare name.
pub open spec fn bin_path(
    in_workspace: bool,
    manifest_dir: Seq<char>,
    profile: Seq<char>,
    bin: Seq<char>,
) -> Seq<char> {
    if in_workspace {
        manifest_dir + "/target/"@ + profile + "/"@ + bin
    } else {
        bin
    }
}

/// The name of the build profile.
pub fn profile_name(release: bool) -> (name: &'static str)
    ensures
        name@ == if release {
            "release"@
        } else {
            "debug"@
        },
{
    if release {
        "release"
    } else {
        "debug"
    }
}

/// The arguments with which cargo builds the workspace.
pub fn build_args(release: bool) -> (args: Vec<String>)
    ensures
        args.len() == 2,
        args[0]@ == "build"@,
        args[1]@ == if release {
            "--release"@
        } else {
            ""@
        },
{
    let mut args: Vec<String> = Vec::new();
    args.push(String::from_str("build"));
    if release {
        args.push(String::from_str("--release"));
    } else {
        args.push(String::from_str(""));
    }
    args
}

/// A binary that belongs to a package of the workspace.
pub trait RegisteredBin {
    /// The name of the binary: that of its package.
    fn cargo_bin() -> (name: String);

    /// The directory of the package's manifest.
    fn manifest_dir() -> (dir: String);

    /// Whether the build is a release build.
    fn is_release() -> (release: bool);

    /// Whether the build is a debug or a release build, in a word.
    fn debug_or_release() -> (profile: &'static str)
        ensures
            exists|release: bool| #[trigger]
                call_ensures(Self::is_release, (), release) && profile@ == if release {
                    "release"@
                } else {
                    "debug"@
                },
    {
        let release = Self::is_release();
        assert(call_ensures(Self::is_release, (), release));
        profile_name(release)
    }

    /// The path of the binary, given whether the package lies in a cargo
    /// workspace: made of the directory of the manifest, the profile and the
    /// name of the binary as [`bin_path`] says.
    fn cargo_bin_path(in_workspace: bool) -> (path: String)
        ensures
            exists|bin: String, dir: String, release: bool|
                #![trigger call_ensures(Self::cargo_bin, (), bin), call_ensures(Self::manifest_dir, (), dir), call_ensures(Self::is_release, (), release)]
                call_ensures(Self::cargo_bin, (), bin) && call_ensures(Self::manifest_dir, (), dir)
                    && call_ensures(Self::is_release, (), release) && path@ == bin_path(
                    in_workspace,
                    dir@,
                    if release {
                        "release"@
                    } else {
                        "debug"@
                    },
                    bin@,
                ),
    {
        let bin = Self::cargo_bin();
        let dir = Self::manifest_dir();
        let release = Self::is_release();
        assert(call_ensures(Self::cargo_bin, (), bin));
        assert(call_ensures(Self::manifest_dir, (), dir));
        assert(call_ensures(Self::is_release, (), release));
        binary_path(in_workspace, dir.as_str(), profile_name(release), bin.as_str())
    }
}

/// The path of a binary.
pub fn binary_path(in_workspace: bool, manifest_dir: &str, profile: &str, bin: &str) -> (path: String)
    ensures
        path@ == bin_path(in_workspace, manifest_dir@, profile@, bin@),
{
    if in_workspace {
        String::from_str(manifest_dir).concat("/target/").concat(profile).concat("/").concat(bin)
    } else {
        String::from_str(bin)
    }
}

/// A process that runs a binary of the workspace, after the workspace has
/// been built.
pub struct Bin<B> where B: RegisteredBin {
    phantom: std::marker::PhantomData<B>,
    runtime: Command,
}

impl<B> Bin<B> where B: RegisteredBin {
    /// The command that the process runs.
    pub closed spec fn command(&self) -> crate::commander::CommandView {
        self.runtime@
    }

    /// A process that runs the command made of the given parts.
    pub fn line(
        command: &str,
        args: Vec<String>,
        working_dir: Option<PathBuf>,
        capture_output: bool,
        stdout_senders: Vec<Sender<String>>,
        stderr_senders: Vec<Sender<String>>,
    ) -> (process: Bin<B>)
        ensures
            process.command() == (crate::commander::CommandView {
                program: command@,
                args: crate::strings::texts(args@),
                current_dir: working_dir,
                capture_output,
                stdout_senders: stdout_senders@,
                stderr_senders: stderr_senders@,
            }),
    {
        Bin {
            phantom: std::marker::PhantomData,
            runtime: Command::line(
                command,
                args,
                working_dir,
                capture_output,
                stdout_senders,
                stderr_senders,
            ),
        }
    }

    /// The command, given up together with the process.
    pub fn into_command(self) -> (command: Command)
        ensures
            command@ == self.command(),
    {
        self.runtime
    }
}

impl<B> ProcessOperations for Bin<B> where B: RegisteredBin {
    open spec fn attached(&self, pipe: Pipe) -> Seq<Sender<String>> {
        match pipe {
            Pipe::STDOUT => self.command().stdout_senders,
            Pipe::STDERR => self.command().stderr_senders,
        }
    }

    fn pipe(&mut self, pipe: Pipe, sender: Sender<String>) -> (r: Result<(), ProcessError>) {
        self.runtime.pipe(pipe, sender)
    }
}

} // verus!
