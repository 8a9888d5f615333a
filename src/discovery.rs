//! Finding a package's embedded test scripts, and the command each one runs.
use vstd::prelude::*;
use crate::activation::ShellKind;
use crate::text::{ends_with, str_ends_with, str_eq};

verus! {

/// One entry of the directory that holds a package's tests.
#[derive(Debug)]
pub struct DirEntryInfo {
    /// The full path of the entry.
    pub path: String,
    /// The last component of the path.
    pub file_name: String,
    /// Whether the entry is a directory.
    pub is_dir: bool,
}

/// An embedded test script, by the path of its file.
#[derive(Debug)]
pub enum Tests {
    /// `run_test.sh` or `run_test.bat`: shell commands.
    Commands(String),
    /// `run_test.py`: run by the Python interpreter.
    Python(String),
}

/// A test script as a value of the model.
pub ghost enum TestScript {
    Commands(Seq<char>),
    Python(Seq<char>),
}

impl View for Tests {
    type V = TestScript;

    open spec fn view(&self) -> TestScript {
        match self {
            Tests::Commands(p) => TestScript::Commands(p@),
            Tests::Python(p) => TestScript::Python(p@),
        }
    }
}

pub open spec fn run_test_sh() -> Seq<char> {
    seq!['r', 'u', 'n', '_', 't', 'e', 's', 't', '.', 's', 'h']
}

pub open spec fn run_test_bat() -> Seq<char> {
    seq!['r', 'u', 'n', '_', 't', 'e', 's', 't', '.', 'b', 'a', 't']
}

pub open spec fn run_test_py() -> Seq<char> {
    seq!['r', 'u', 'n', '_', 't', 'e', 's', 't', '.', 'p', 'y']
}

/// The test script that a directory entry is, if any: only files named
/// exactly `run_test.sh`, `run_test.bat` or `run_test.py` are.
pub open spec fn test_of(e: DirEntryInfo) -> Option<TestScript> {
    if e.is_dir {
        None
    } else if e.file_name@ == run_test_sh() || e.file_name@ == run_test_bat() {
        Some(TestScript::Commands(e.path@))
    } else if e.file_name@ == run_test_py() {
        Some(TestScript::Python(e.path@))
    } else {
        None
    }
}

/// The test scripts among `entries`, in listing order.
pub open spec fn tests_of(entries: Seq<DirEntryInfo>) -> Seq<TestScript>
    decreases entries.len(),
{
    if entries.len() == 0 {
        Seq::empty()
    } else {
        let before = tests_of(entries.drop_last());
        match test_of(entries.last()) {
            Some(t) => before.push(t),
            None => before,
        }
    }
}

pub open spec fn scripts_view(ts: Seq<Tests>) -> Seq<TestScript> {
    ts.map_values(|t: Tests| t@)
}

/// Classifies one directory entry.
pub fn test_from_entry(e: &DirEntryInfo) -> (r: Option<Tests>)
    ensures
        match r {
            Some(t) => test_of(*e) == Some(t@),
            None => test_of(*e) is None,
        },
{
    proof {
        reveal_strlit("run_test.sh");
        reveal_strlit("run_test.bat");
        reveal_strlit("run_test.py");
        assert("run_test.sh"@ =~= run_test_sh());
        assert("run_test.bat"@ =~= run_test_bat());
        assert("run_test.py"@ =~= run_test_py());
    }
    if e.is_dir {
        None
    } else if str_eq(e.file_name.as_str(), "run_test.sh") || str_eq(
        e.file_name.as_str(),
        "run_test.bat",
    ) {
        Some(Tests::Commands(e.path.clone()))
    } else if str_eq(e.file_name.as_str(), "run_test.py") {
        Some(Tests::Python(e.path.clone()))
    } else {
        None
    }
}

/// The test scripts of a package's test directory, from the listing of its
/// direct children, in listing order; directories and other names are skipped.
pub fn tests_from_entries(entries: &Vec<DirEntryInfo>) -> (r: Vec<Tests>)
    ensures
        scripts_view(r@) == tests_of(entries@),
{
    let mut out: Vec<Tests> = Vec::new();
    let mut i: usize = 0;
    assert(entries@.subrange(0, 0) =~= Seq::<DirEntryInfo>::empty());
    assert(scripts_view(out@) =~= Seq::<TestScript>::empty());
    while i < entries.len()
        invariant
            i <= entries@.len(),
            scripts_view(out@) == tests_of(entries@.subrange(0, i as int)),
        decreases entries@.len() - i,
    {
        assert(entries@.subrange(0, i + 1).drop_last() =~= entries@.subrange(0, i as int));
        assert(entries@.subrange(0, i + 1).last() == entries@[i as int]);
        match test_from_entry(&entries[i]) {
            Some(t) => {
                out.push(t);
                assert(scripts_view(out@) =~= tests_of(entries@.subrange(0, i + 1)));
            },
            None => {},
        }
        i = i + 1;
    }
    assert(entries@.subrange(0, i as int) =~= entries@);
    out
}

pub open spec fn dot_sh() -> Seq<char> {
    seq!['.', 's', 'h']
}

pub open spec fn dot_bat() -> Seq<char> {
    seq!['.', 'b', 'a', 't']
}

/// Whether a command script at `path` belongs to the platform of `shell`.
pub open spec fn native_script(shell: ShellKind, path: Seq<char>) -> bool {
    match shell {
        ShellKind::Bash => ends_with(path, dot_sh()),
        ShellKind::CmdExe => ends_with(path, dot_bat()),
    }
}

/// The command that runs the interpreter on `path`.
pub open spec fn python_command(path: Seq<char>) -> Seq<char> {
    seq!['p', 'y', 't', 'h', 'o', 'n', ' '] + path
}

/// What a test script runs under `shell`: `None` for a command script of the
/// other platform; the script's own text for a native command script; the
/// interpreter on the script's path for a Python script.
pub open spec fn command_of(t: TestScript, shell: ShellKind, text: Seq<char>) -> Option<Seq<char>> {
    match t {
        TestScript::Commands(p) => if native_script(shell, p) {
            Some(text)
        } else {
            None
        },
        TestScript::Python(p) => Some(python_command(p)),
    }
}

impl Tests {
    /// The command that this test runs under `shell`, given the text of its
    /// script file; `None` where it belongs to the other platform and passes
    /// without running.
    pub fn command(&self, shell: ShellKind, script_text: String) -> (r: Option<String>)
        ensures
            match r {
                Some(c) => command_of(self@, shell, script_text@) == Some(c@),
                None => command_of(self@, shell, script_text@) is None,
            },
    {
        proof {
            reveal_strlit(".sh");
            reveal_strlit(".bat");
            reveal_strlit("python ");
            assert(".sh"@ =~= dot_sh());
            assert(".bat"@ =~= dot_bat());
        }
        match self {
            Tests::Commands(path) => {
                let native = match shell {
                    ShellKind::Bash => str_ends_with(path.as_str(), ".sh"),
                    ShellKind::CmdExe => str_ends_with(path.as_str(), ".bat"),
                };
                if native {
                    Some(script_text)
                } else {
                    None
                }
            },
            Tests::Python(path) => {
                let mut c = String::from_str("python ");
                c.append(path.as_str());
                assert(c@ =~= python_command(path@));
                Some(c)
            },
        }
    }
}

/// A command script of the other platform passes without running, and a
/// Python script runs under every shell.
pub proof fn lemma_foreign_scripts_skipped(path: Seq<char>, text: Seq<char>)
    ensures
        ends_with(path, dot_bat()) ==> command_of(TestScript::Commands(path), ShellKind::Bash, text)
            is None,
        ends_with(path, dot_sh()) ==> command_of(TestScript::Commands(path), ShellKind::CmdExe, text)
            is None,
        command_of(TestScript::Python(path), ShellKind::Bash, text) is Some,
        command_of(TestScript::Python(path), ShellKind::CmdExe, text) is Some,
{
    if ends_with(path, dot_bat()) && ends_with(path, dot_sh()) {
        assert(path[path.len() - 1] == dot_bat()[3]);
        assert(path[path.len() - 1] == dot_sh()[2]);
    }
}

} // verus!
