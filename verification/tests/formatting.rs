use envexec::diagnostic::{render_command_line, render_diagnostic_text, render_status};
use envexec::text::format_i32;

#[test]
fn decimal_rendering() {
    assert_eq!(format_i32(0), "0");
    assert_eq!(format_i32(7), "7");
    assert_eq!(format_i32(42), "42");
    assert_eq!(format_i32(-12), "-12");
    assert_eq!(format_i32(i32::MAX), "2147483647");
    assert_eq!(format_i32(i32::MIN), "-2147483648");
}

#[test]
fn command_line_join() {
    let cmd = "git".to_string();
    let args = vec!["commit".to_string(), "-m".to_string(), "msg".to_string()];
    assert_eq!(render_command_line(&cmd, &args), "git commit -m msg");
    assert_eq!(render_command_line(&cmd, &Vec::new()), "git");
}

#[test]
fn status_lines() {
    assert_eq!(render_status(&Some(3)), "exit status: 3");
    assert_eq!(render_status(&Some(-1)), "exit status: -1");
    assert_eq!(render_status(&None), "terminated by signal");
}

#[test]
fn successful_run_renders_without_status() {
    let cmd = "/bin/echo".to_string();
    let args = vec!["hi".to_string()];
    let rendered = render_diagnostic_text(
        &cmd,
        &args,
        true,
        &Some(0),
        &"hi\n".to_string(),
        &String::new(),
    );
    assert_eq!(rendered, "\u{1b}[95m/bin/echo hi\u{1b}[0m\n\u{1b}[92mhi\n\u{1b}[0m");
}
