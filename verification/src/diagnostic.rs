//! The diagnostic formatter: a human-readable, ANSI-colored, multi-line
//! report of what was run and what it produced, built for the failure path.

use vstd::prelude::*;
use crate::text::{dec_str, format_i32, push_char, push_str};

verus! {

/// The view of a sequence of owned strings as a sequence of character
/// sequences.
pub open spec fn views_of(s: Seq<String>) -> Seq<Seq<char>> {
    s.map_values(|x: String| x@)
}

/// The tokens joined by single spaces: empty for no tokens, otherwise the
/// tokens in order with one `' '` between neighbours.
pub open spec fn join_with_spaces(toks: Seq<Seq<char>>) -> Seq<char>
    decreases toks.len(),
{
    if toks.len() == 0 {
        Seq::empty()
    } else if toks.len() == 1 {
        toks[0]
    } else {
        join_with_spaces(toks.drop_last()) + seq![' '] + toks.last()
    }
}

/// `s` wrapped in the ANSI escapes that show it magenta (the command line).
pub open spec fn magenta(s: Seq<char>) -> Seq<char> {
    "\u{1b}[95m"@ + s + "\u{1b}[0m"@
}

/// `s` wrapped in the ANSI escapes that show it green (captured stdout).
pub open spec fn green(s: Seq<char>) -> Seq<char> {
    "\u{1b}[92m"@ + s + "\u{1b}[0m"@
}

/// `s` wrapped in the ANSI escapes that show it red (captured stderr).
pub open spec fn red(s: Seq<char>) -> Seq<char> {
    "\u{1b}[91m"@ + s + "\u{1b}[0m"@
}

/// The description of a non-success exit status: the exit code when the
/// process exited, otherwise a note that a signal ended it.
pub open spec fn status_line(code: Option<i32>) -> Seq<char> {
    match code {
        Some(c) => "exit status: "@ + dec_str(c as int),
        None => "terminated by signal"@,
    }
}

/// The full diagnostic text: the colored command line; then, when the exit
/// status was not success, the status description on its own line; then each
/// non-empty captured stream, colored, on its own line.
pub open spec fn diagnostic_text(
    cmd: Seq<char>,
    args: Seq<Seq<char>>,
    success: bool,
    code: Option<i32>,
    out_text: Seq<char>,
    err_text: Seq<char>,
) -> Seq<char> {
    magenta(join_with_spaces(seq![cmd] + args)) + (if !success {
        seq!['\n'] + status_line(code)
    } else {
        Seq::empty()
    }) + (if out_text.len() > 0 {
        seq!['\n'] + green(out_text)
    } else {
        Seq::empty()
    }) + (if err_text.len() > 0 {
        seq!['\n'] + red(err_text)
    } else {
        Seq::empty()
    })
}

/// Renders the command and its arguments as one line, joined by single
/// spaces.
pub fn render_command_line(cmd: &String, args: &Vec<String>) -> (r: String)
    ensures
        r@ == join_with_spaces(seq![cmd@] + views_of(args@)),
{
    let ghost toks: Seq<Seq<char>> = seq![cmd@] + views_of(args@);
    let mut r = cmd.clone();
    assert(r@ =~= join_with_spaces(toks.take(1)));
    let mut i: usize = 0;
    while i < args.len()
        invariant
            i <= args.len(),
            toks == seq![cmd@] + views_of(args@),
            toks.len() == 1 + args@.len(),
            r@ == join_with_spaces(toks.take(i + 1)),
        decreases args.len() - i,
    {
        push_char(&mut r, ' ');
        push_str(&mut r, args[i].as_str());
        proof {
            assert(toks.take(i + 2).drop_last() =~= toks.take(i + 1));
            assert(toks.take(i + 2).last() == args@[i as int]@);
            assert(r@ =~= join_with_spaces(toks.take(i + 2)));
        }
        i = i + 1;
    }
    proof {
        assert(toks.take(toks.len() as int) =~= toks);
    }
    r
}

/// Renders the status description of a completed run that did not succeed.
pub fn render_status(code: &Option<i32>) -> (r: String)
    ensures
        r@ == status_line(*code),
{
    match code {
        Some(c) => {
            let mut r = String::new();
            push_str(&mut r, "exit status: ");
            let digits = format_i32(*c);
            push_str(&mut r, digits.as_str());
            proof {
                assert(r@ =~= status_line(Some(*c)));
            }
            r
        },
        None => {
            let mut r = String::new();
            push_str(&mut r, "terminated by signal");
            proof {
                assert(r@ =~= status_line(None));
            }
            r
        },
    }
}

/// Renders the full diagnostic from the command tokens, the exit status and
/// the already-decoded captured output, exactly as `diagnostic_text`
/// describes.
pub fn render_diagnostic_text(
    cmd: &String,
    args: &Vec<String>,
    success: bool,
    code: &Option<i32>,
    out_text: &String,
    err_text: &String,
) -> (r: String)
    ensures
        r@ == diagnostic_text(cmd@, views_of(args@), success, *code, out_text@, err_text@),
{
    let mut r = String::new();
    push_str(&mut r, "\u{1b}[95m");
    let line = render_command_line(cmd, args);
    push_str(&mut r, line.as_str());
    push_str(&mut r, "\u{1b}[0m");
    if !success {
        push_char(&mut r, '\n');
        let status = render_status(code);
        push_str(&mut r, status.as_str());
    }
    if !out_text.as_str().is_empty() {
        push_char(&mut r, '\n');
        push_str(&mut r, "\u{1b}[92m");
        push_str(&mut r, out_text.as_str());
        push_str(&mut r, "\u{1b}[0m");
    }
    if !err_text.as_str().is_empty() {
        push_char(&mut r, '\n');
        push_str(&mut r, "\u{1b}[91m");
        push_str(&mut r, err_text.as_str());
        push_str(&mut r, "\u{1b}[0m");
    }
    proof {
        assert(r@ =~= diagnostic_text(cmd@, views_of(args@), success, *code, out_text@, err_text@));
    }
    r
}

} // verus!
