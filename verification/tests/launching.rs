use envexec::{evaluate, CompletionResult, Executor, Invocation, LaunchError};

fn pairs(bindings: &[(&str, &str)]) -> Vec<(String, String)> {
    bindings.iter().map(|(k, v)| (k.to_string(), v.to_string())).collect()
}

fn tokens(toks: &[&str]) -> Vec<String> {
    toks.iter().map(|t| t.to_string()).collect()
}

fn prepared(ex: &Executor, toks: &[&str]) -> Invocation {
    match ex.prepare(&tokens(toks)) {
        Ok(inv) => inv,
        Err(_) => panic!("preparation failed"),
    }
}

#[test]
fn binding_pass_through() {
    let ex = Executor::new(pairs(&[("FOO", "BAR")]));
    let inv = prepared(&ex, &["/bin/sh", "-c", "[ \"$FOO\" = \"BAR\" ]"]);
    assert_eq!(inv.cmd, "/bin/sh");
    assert_eq!(inv.args, vec!["-c".to_string(), "[ \"$FOO\" = \"BAR\" ]".to_string()]);
    assert_eq!(inv.env, vec![("FOO".to_string(), "BAR".to_string())]);
}

#[test]
fn duplicate_bindings_kept_in_order() {
    let ex = Executor::new(pairs(&[("K", "first"), ("K", "second")]));
    let inv = prepared(&ex, &["env"]);
    assert_eq!(
        inv.env,
        vec![("K".to_string(), "first".to_string()), ("K".to_string(), "second".to_string())]
    );
}

#[test]
fn missing_command() {
    let ex = Executor::new(pairs(&[("FOO", "BAR")]));
    match ex.prepare(&tokens(&[])) {
        Err(LaunchError::MissingCommand) => {}
        _ => panic!("an empty token sequence must fail for want of a command"),
    }
    assert_eq!(LaunchError::MissingCommand.message(), "Missing command");
}

#[test]
fn missing_command_without_bindings() {
    let ex = Executor::new(Vec::new());
    assert!(matches!(ex.prepare(&tokens(&[])), Err(LaunchError::MissingCommand)));
}

#[test]
fn success_passthrough() {
    let ex = Executor::new(Vec::new());
    let inv = prepared(&ex, &["/bin/true"]);
    let completion = CompletionResult {
        success: true,
        code: Some(0),
        stdout: b"noise on stdout".to_vec(),
        stderr: b"noise on stderr".to_vec(),
    };
    assert!(evaluate(&inv, &completion).is_ok());
}

#[test]
fn mismatch_detection() {
    // A child whose check of an expected binding fails exits non-zero; the
    // launch must fail fatally.
    let ex = Executor::new(pairs(&[("FOO", "BAZINGA")]));
    let inv = prepared(&ex, &["/bin/sh", "-c", "[ \"$FOO\" = \"BAR\" ]"]);
    let completion =
        CompletionResult { success: false, code: Some(1), stdout: Vec::new(), stderr: Vec::new() };
    assert!(evaluate(&inv, &completion).is_err());
}

#[test]
fn failure_diagnostic_contents() {
    let ex = Executor::new(Vec::new());
    let inv = prepared(&ex, &["/bin/sh", "-c", "exit 1"]);
    let completion = CompletionResult {
        success: false,
        code: Some(1),
        stdout: b"hello".to_vec(),
        stderr: b"oops".to_vec(),
    };
    let diagnostic = match evaluate(&inv, &completion) {
        Err(LaunchError::NonSuccessExit { diagnostic }) => diagnostic,
        _ => panic!("a non-success exit must yield the diagnostic"),
    };
    assert_eq!(
        diagnostic,
        "\u{1b}[95m/bin/sh -c exit 1\u{1b}[0m\nexit status: 1\n\u{1b}[92mhello\u{1b}[0m\n\u{1b}[91moops\u{1b}[0m"
    );
    assert!(diagnostic.contains("/bin/sh -c exit 1"));
    assert!(diagnostic.contains("exit status: 1"));
    assert!(diagnostic.contains("hello"));
    assert!(diagnostic.contains("oops"));
}

#[test]
fn empty_streams_are_omitted() {
    let ex = Executor::new(Vec::new());
    let inv = prepared(&ex, &["/bin/false"]);
    let completion =
        CompletionResult { success: false, code: Some(1), stdout: Vec::new(), stderr: Vec::new() };
    match evaluate(&inv, &completion) {
        Err(LaunchError::NonSuccessExit { diagnostic }) => {
            assert_eq!(diagnostic, "\u{1b}[95m/bin/false\u{1b}[0m\nexit status: 1");
        }
        _ => panic!("a non-success exit must yield the diagnostic"),
    }
}

#[test]
fn signal_status_line() {
    let ex = Executor::new(Vec::new());
    let inv = prepared(&ex, &["/bin/sleep", "100"]);
    let completion =
        CompletionResult { success: false, code: None, stdout: Vec::new(), stderr: Vec::new() };
    match evaluate(&inv, &completion) {
        Err(LaunchError::NonSuccessExit { diagnostic }) => {
            assert!(diagnostic.contains("terminated by signal"));
        }
        _ => panic!("a non-success exit must yield the diagnostic"),
    }
}

#[test]
fn invalid_output_is_fatal_at_format_time() {
    let ex = Executor::new(Vec::new());
    let inv = prepared(&ex, &["/bin/false"]);
    let completion = CompletionResult {
        success: false,
        code: Some(1),
        stdout: vec![0xff, 0xfe, 0x80],
        stderr: Vec::new(),
    };
    match evaluate(&inv, &completion) {
        Err(LaunchError::OutputDecodeFailure) => {}
        _ => panic!("invalid UTF-8 in a captured stream must be fatal"),
    }
    assert_eq!(
        LaunchError::OutputDecodeFailure.message(),
        "captured output is not valid UTF-8"
    );
}

#[test]
fn spawn_failure_message() {
    let e = LaunchError::SpawnFailure { message: "No such file or directory".to_string() };
    assert_eq!(e.message(), "Failed to execute command: No such file or directory");
}

#[test]
fn reuse_across_calls() {
    let ex = Executor::new(pairs(&[("A", "1")]));
    let first = prepared(&ex, &["/bin/sh", "-c", "[ \"$A\" = \"1\" ]"]);
    let first_completion =
        CompletionResult { success: true, code: Some(0), stdout: Vec::new(), stderr: Vec::new() };
    let first_outcome = evaluate(&first, &first_completion);

    let second = prepared(&ex, &["/bin/sh", "-c", "[ \"$A\" = \"1\" ] && exit 3"]);
    let second_completion =
        CompletionResult { success: false, code: Some(3), stdout: Vec::new(), stderr: Vec::new() };
    let second_outcome = evaluate(&second, &second_completion);

    // Both launches observe the holder's bindings independently, and the
    // second launch's failure leaves the first launch's outcome untouched.
    assert_eq!(first.env, vec![("A".to_string(), "1".to_string())]);
    assert_eq!(second.env, vec![("A".to_string(), "1".to_string())]);
    assert!(first_outcome.is_ok());
    assert!(second_outcome.is_err());
}
