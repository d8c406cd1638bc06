use aria_desktop::probe::{
    accepts_interpreter, backend_info, diagnostics, package_status, python_candidates,
    check_environment, version_text,
};
use aria_desktop::text::{contains, decimal, lines, parse_usize, same_text, starts_with, trim};
use aria_desktop::types::CommandOutput;

fn out(success: bool, stdout: &str, stderr: &str) -> CommandOutput {
    CommandOutput { success, stdout: stdout.to_string(), stderr: stderr.to_string() }
}

#[test]
fn candidates_in_order() {
    let c = python_candidates();
    assert_eq!(c, vec!["python", "python3", "python3.14", "python3.13", "python3.12"]);
}

#[test]
fn version_from_stdout_or_stderr() {
    assert_eq!(version_text(&out(true, "Python 3.12.1\n", "")), "Python 3.12.1");
    assert_eq!(version_text(&out(true, "", "Python 2.7.18\n")), "Python 2.7.18");
    assert!(accepts_interpreter(&out(true, "Python 3.11.0\r\n", "")));
    assert!(!accepts_interpreter(&out(true, "", "Python 2.7.18\n")));
    assert!(!accepts_interpreter(&out(false, "Python 3.11.0\n", "")));
}

#[test]
fn launch_needs_interpreter_and_package() {
    let e = check_environment(None, true).unwrap_err();
    assert!(matches!(e, aria_desktop::error::NodeError::InterpreterMissing));
    let e = check_environment(Some("python3".to_string()), false).unwrap_err();
    assert!(matches!(e, aria_desktop::error::NodeError::BackendMissing));
    assert_eq!(check_environment(Some("python3".to_string()), true).unwrap(), "python3");
}

#[test]
fn package_check() {
    let (ok, v) = package_status(&Some(out(true, " 0.5.2\n", "")));
    assert!(ok);
    assert_eq!(v, "0.5.2");
    let (ok, v) = package_status(&Some(out(false, "0.5.2", "ModuleNotFoundError")));
    assert!(!ok);
    assert_eq!(v, "");
    assert!(!package_status(&None).0);
}

#[test]
fn diagnostics_lines() {
    assert_eq!(diagnostics(&Some(out(true, "True\n3\n", ""))), (true, 3));
    assert_eq!(diagnostics(&Some(out(true, "False\r\n12\r\n", ""))), (false, 12));
    assert_eq!(diagnostics(&Some(out(true, "True\nmany\n", ""))), (true, 0));
    assert_eq!(diagnostics(&Some(out(true, "True", ""))), (true, 0));
    assert_eq!(diagnostics(&Some(out(false, "True\n3", ""))), (false, 0));
    assert_eq!(diagnostics(&None), (false, 0));
}

#[test]
fn backend_info_assembly() {
    let info = backend_info(
        "python3".to_string(),
        &Some(out(true, "Python 3.12.2\n", "")),
        &Some(out(true, "0.5.2\n", "")),
        &Some(out(true, "True\n2\n", "")),
    );
    assert!(info.python_found);
    assert_eq!(info.python_path, "python3");
    assert_eq!(info.python_version, "Python 3.12.2");
    assert!(info.aria_installed);
    assert_eq!(info.aria_version, "0.5.2");
    assert!(info.llama_cli_found);
    assert_eq!(info.models_found, 2);

    let none = backend_info(String::new(), &None, &Some(out(true, "1", "")), &Some(out(true, "True\n2", "")));
    assert!(!none.python_found);
    assert!(!none.aria_installed);
    assert!(!none.llama_cli_found);
    assert_eq!(none.models_found, 0);

    let no_pkg = backend_info(
        "python".to_string(),
        &Some(out(true, "Python 3.10.0", "")),
        &Some(out(false, "", "err")),
        &Some(out(true, "True\n2", "")),
    );
    assert!(no_pkg.python_found);
    assert!(!no_pkg.aria_installed);
    assert!(!no_pkg.llama_cli_found);
    assert_eq!(no_pkg.models_found, 0);
}

#[test]
fn text_routines() {
    assert_eq!(trim("  \t a b \n"), "a b");
    assert_eq!(trim("   "), "");
    assert_eq!(trim("\u{3000}x\u{a0}"), "x");
    assert!(contains("the Python 3", "Python"));
    assert!(!contains("pyth", "Python"));
    assert!(contains("abc", ""));
    assert!(starts_with("Python 3.1", "Python 3"));
    assert!(!starts_with("Python", "Python 3"));
    assert!(same_text("True", "True"));
    assert!(!same_text("True ", "True"));
    assert_eq!(decimal(0), "0");
    assert_eq!(decimal(1234567890), "1234567890");
    assert_eq!(decimal(u64::MAX), u64::MAX.to_string());
}

#[test]
fn line_splitting() {
    assert_eq!(lines("a\nb\r\n\nc"), vec!["a", "b", "", "c"]);
    assert_eq!(lines("a\n"), vec!["a"]);
    assert!(lines("").is_empty());
    assert_eq!(lines("x\r"), vec!["x\r"]);
}

#[test]
fn usize_parsing() {
    assert_eq!(parse_usize("42"), Some(42));
    assert_eq!(parse_usize("+7"), Some(7));
    assert_eq!(parse_usize("007"), Some(7));
    assert_eq!(parse_usize(""), None);
    assert_eq!(parse_usize("+"), None);
    assert_eq!(parse_usize("-1"), None);
    assert_eq!(parse_usize("12a"), None);
    assert_eq!(parse_usize(" 1"), None);
    assert_eq!(parse_usize(&usize::MAX.to_string()), Some(usize::MAX));
    assert_eq!(parse_usize("99999999999999999999999"), None);
}
