//! The environment probe's decisions: which interpreters to try, what their
//! version output says, whether the backend package answered, and what the
//! backend's diagnostic command reported.

use vstd::prelude::*;
use vstd::string::*;
use crate::text::{
    contains, contains_spec, lines, lines_spec, parse_usize, parse_usize_spec, same_text, starts_with,
    starts_with_spec, trim, trim_spec,
};
use crate::error::NodeError;
use crate::types::{BackendInfo, CommandOutput};

verus! {

/// Interpreter names to try, in order; the first accepted one wins.
pub open spec fn candidates_spec() -> Seq<Seq<char>> {
    seq!["python"@, "python3"@, "python3.14"@, "python3.13"@, "python3.12"@]
}

/// The interpreter names to try, in order.
pub fn python_candidates() -> (r: Vec<String>)
    ensures
        r@.len() == candidates_spec().len(),
        forall|i: int| 0 <= i < r@.len() ==> #[trigger] r@[i]@ == candidates_spec()[i],
{
    let mut r: Vec<String> = Vec::new();
    r.push(String::from_str("python"));
    r.push(String::from_str("python3"));
    r.push(String::from_str("python3.14"));
    r.push(String::from_str("python3.13"));
    r.push(String::from_str("python3.12"));
    r
}

/// The version line of `--version` output: standard output when it names
/// Python, else standard error (older interpreters print there), trimmed.
pub open spec fn version_text_spec(out: CommandOutput) -> Seq<char> {
    if contains_spec(out.stdout@, "Python"@) {
        trim_spec(out.stdout@)
    } else {
        trim_spec(out.stderr@)
    }
}

/// A candidate is accepted when it ran successfully and reports Python 3.
pub open spec fn accepts_spec(out: CommandOutput) -> bool {
    out.success && starts_with_spec(version_text_spec(out), "Python 3"@)
}

/// Reads the version line out of `--version` output.
pub fn version_text(out: &CommandOutput) -> (r: String)
    ensures
        r@ == version_text_spec(*out),
{
    if contains(out.stdout.as_str(), "Python") {
        trim(out.stdout.as_str())
    } else {
        trim(out.stderr.as_str())
    }
}

/// Whether the `--version` output of a candidate interpreter accepts it.
pub fn accepts_interpreter(out: &CommandOutput) -> (r: bool)
    ensures
        r == accepts_spec(*out),
{
    if !out.success {
        return false;
    }
    let v = version_text(out);
    starts_with(v.as_str(), "Python 3")
}

/// Decides whether a launch may go ahead: it needs an interpreter and the
/// backend package installed under it. Returns the interpreter to run.
pub fn check_environment(python: Option<String>, package_installed: bool) -> (r: Result<
    String,
    NodeError,
>)
    ensures
        python is None ==> r == Result::<String, NodeError>::Err(NodeError::InterpreterMissing),
        python is Some && !package_installed ==> r == Result::<String, NodeError>::Err(
            NodeError::BackendMissing,
        ),
        python is Some && package_installed ==> r == Result::<String, NodeError>::Ok(
            python->Some_0,
        ),
{
    match python {
        None => Err(NodeError::InterpreterMissing),
        Some(p) => if package_installed {
            Ok(p)
        } else {
            Err(NodeError::BackendMissing)
        },
    }
}

/// Whether the backend package imported, and the version it printed.
pub open spec fn package_spec(out: Option<CommandOutput>) -> (bool, Seq<char>) {
    match out {
        Some(o) => if o.success {
            (true, trim_spec(o.stdout@))
        } else {
            (false, Seq::empty())
        },
        None => (false, Seq::empty()),
    }
}

/// Reads the outcome of the import check of the backend package.
pub fn package_status(out: &Option<CommandOutput>) -> (r: (bool, String))
    ensures
        r.0 == package_spec(*out).0,
        r.1@ == package_spec(*out).1,
{
    match out {
        Some(o) => if o.success {
            (true, trim(o.stdout.as_str()))
        } else {
            (false, String::new())
        },
        None => (false, String::new()),
    }
}

/// What the diagnostic command printed: its first line is `True` when the
/// native inference binary is present, its second the number of local
/// models. A line that is missing or unreadable counts as absent or zero.
pub open spec fn diagnostics_spec(out: Option<CommandOutput>) -> (bool, usize) {
    match out {
        Some(o) => if o.success {
            let ls = lines_spec(trim_spec(o.stdout@));
            (
                ls.len() > 0 && ls[0] == "True"@,
                if ls.len() > 1 {
                    match parse_usize_spec(ls[1]) {
                        Some(n) => n,
                        None => 0,
                    }
                } else {
                    0
                },
            )
        } else {
            (false, 0)
        },
        None => (false, 0),
    }
}

/// Reads the output of the diagnostic command.
pub fn diagnostics(out: &Option<CommandOutput>) -> (r: (bool, usize))
    ensures
        r == diagnostics_spec(*out),
{
    match out {
        Some(o) => if o.success {
            let t = trim(o.stdout.as_str());
            let ls = lines(t.as_str());
            let cli = ls.len() > 0 && same_text(ls[0].as_str(), "True");
            let models = if ls.len() > 1 {
                match parse_usize(ls[1].as_str()) {
                    Some(n) => n,
                    None => 0,
                }
            } else {
                0
            };
            (cli, models)
        } else {
            (false, 0)
        },
        None => (false, 0),
    }
}

/// Assembles the probe's report. `python_path` is the selected interpreter,
/// empty when none was found; the outputs are those of its `--version`, of
/// the package import check, and of the diagnostic command, `None` for one
/// that was not or could not be run. A later step counts only when the
/// earlier ones succeeded.
pub fn backend_info(
    python_path: String,
    version_out: &Option<CommandOutput>,
    package_out: &Option<CommandOutput>,
    diag_out: &Option<CommandOutput>,
) -> (r: BackendInfo)
    ensures
        r.python_path@ == python_path@,
        r.python_found == (python_path@.len() > 0),
        r.python_version@ == (if r.python_found {
            match *version_out {
                Some(o) => version_text_spec(o),
                None => Seq::empty(),
            }
        } else {
            Seq::empty()
        }),
        r.aria_installed == (r.python_found && package_spec(*package_out).0),
        r.aria_version@ == (if r.python_found {
            package_spec(*package_out).1
        } else {
            Seq::empty()
        }),
        r.llama_cli_found == (r.aria_installed && diagnostics_spec(*diag_out).0),
        r.models_found == (if r.aria_installed {
            diagnostics_spec(*diag_out).1
        } else {
            0
        }),
{
    let python_found = python_path.unicode_len() > 0;
    let python_version = if python_found {
        match version_out {
            Some(o) => version_text(o),
            None => String::new(),
        }
    } else {
        String::new()
    };
    let (aria_installed, aria_version) = if python_found {
        package_status(package_out)
    } else {
        (false, String::new())
    };
    let (llama_cli_found, models_found) = if aria_installed {
        diagnostics(diag_out)
    } else {
        (false, 0)
    };
    BackendInfo {
        python_found,
        python_path,
        python_version,
        aria_installed,
        aria_version,
        llama_cli_found,
        models_found,
    }
}

} // verus!
