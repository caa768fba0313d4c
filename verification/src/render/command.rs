//! Command lines and what a finished process leaves behind, as plain data.

use vstd::prelude::*;

verus! {

/// A program to run: its name or path, its arguments, the directory it
/// runs in and the variables added to its environment.
#[derive(Debug, PartialEq, Eq)]
pub struct CommandLine {
    pub program: String,
    pub args: Vec<String>,
    pub current_dir: Option<String>,
    pub env: Vec<(String, String)>,
}

/// A command line as texts.
pub ghost struct CommandLineView {
    pub program: Seq<char>,
    pub args: Seq<Seq<char>>,
    pub current_dir: Option<Seq<char>>,
    pub env: Seq<(Seq<char>, Seq<char>)>,
}

impl View for CommandLine {
    type V = CommandLineView;

    open spec fn view(&self) -> CommandLineView {
        CommandLineView {
            program: self.program@,
            args: self.args.deep_view(),
            current_dir: self.current_dir.deep_view(),
            env: self.env.deep_view(),
        }
    }
}

/// What a process that ran to its end leaves: the exit code, absent where
/// a signal ended it, and all that it wrote to its two output streams.
#[derive(Debug, PartialEq, Eq)]
pub struct ProcessOutput {
    pub exit_code: Option<i32>,
    pub stdout: Vec<u8>,
    pub stderr: Vec<u8>,
}

/// The output of a process as sequences of bytes.
pub ghost struct ProcessOutputView {
    pub exit_code: Option<i32>,
    pub stdout: Seq<u8>,
    pub stderr: Seq<u8>,
}

impl View for ProcessOutput {
    type V = ProcessOutputView;

    open spec fn view(&self) -> ProcessOutputView {
        ProcessOutputView { exit_code: self.exit_code, stdout: self.stdout@, stderr: self.stderr@ }
    }
}

/// A process succeeded when it ended by itself with exit code zero.
pub open spec fn exit_ok(exit_code: Option<i32>) -> bool {
    exit_code == Some(0i32)
}

/// Whether a process ended by itself with exit code zero.
pub fn succeeded(exit_code: Option<i32>) -> (r: bool)
    ensures
        r == exit_ok(exit_code),
{
    match exit_code {
        Some(code) => code == 0,
        None => false,
    }
}

/// The texts of `parts` in a row, with `separator` between each two.
pub open spec fn joined(parts: Seq<Seq<char>>, separator: Seq<char>) -> Seq<char>
    decreases parts.len(),
{
    if parts.len() == 0 {
        Seq::empty()
    } else if parts.len() == 1 {
        parts[0]
    } else {
        joined(parts.drop_last(), separator) + separator + parts.last()
    }
}

/// Joins texts with a separator.
pub fn join(parts: &Vec<String>, separator: &str) -> (r: String)
    ensures
        r@ == joined(parts.deep_view(), separator@),
{
    let mut r: String = String::new();
    let mut i: usize = 0;
    while i < parts.len()
        invariant
            i <= parts@.len(),
            r@ == joined(parts.deep_view().take(i as int), separator@),
        decreases parts@.len() - i,
    {
        let ghost before = parts.deep_view().take(i as int);
        if i > 0 {
            r.append(separator);
        }
        r.append(parts[i].as_str());
        i = i + 1;
        proof {
            let now = parts.deep_view().take(i as int);
            assert(now.drop_last() =~= before);
            assert(now.last() == parts[i - 1]@);
            assert(r@ =~= joined(now, separator@));
        }
    }
    assert(parts.deep_view().take(i as int) =~= parts.deep_view());
    r
}

/// A command line in one line of text: the program and its arguments with
/// one blank between each two.
pub open spec fn command_text(command: CommandLineView) -> Seq<char> {
    joined(seq![command.program] + command.args, seq![' '])
}

impl CommandLine {
    /// The command line in one line of text, for messages.
    pub fn text(&self) -> (r: String)
        ensures
            r@ == command_text(self@),
    {
        let mut r: String = self.program.clone();
        let mut i: usize = 0;
        proof {
            assert((seq![self@.program] + self@.args).take(1) =~= seq![self@.program]);
        }
        while i < self.args.len()
            invariant
                i <= self.args@.len(),
                r@ == joined((seq![self@.program] + self@.args).take(i + 1), seq![' ']),
            decreases self.args@.len() - i,
        {
            let ghost all = seq![self@.program] + self@.args;
            let ghost before = all.take(i + 1);
            r.append(" ");
            r.append(self.args[i].as_str());
            i = i + 1;
            proof {
                reveal_strlit(" ");
                assert(" "@ =~= seq![' ']);
                let now = all.take(i + 1);
                assert(now.drop_last() =~= before);
                assert(now.last() == self.args[i - 1]@);
                assert(r@ =~= joined(now, seq![' ']));
            }
        }
        assert((seq![self@.program] + self@.args).take(i + 1) =~= seq![self@.program]
            + self@.args);
        r
    }
}

} // verus!
