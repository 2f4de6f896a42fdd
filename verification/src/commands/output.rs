//! What an invocation left behind, and how it is shown to the user.

use crate::style::{paint, painted, Paint};
use crate::text::{decimal, decimal_text, join, joined, lines, lines_of};
use vstd::prelude::*;
use vstd::string::StringExecFns;

verus! {

/// What an invocation left behind once it had ended.
#[derive(Debug, PartialEq, Eq)]
pub struct ExecutionResult {
    /// Everything it wrote to its standard output.
    pub stdout: String,
    /// Everything it wrote to its standard error.
    pub stderr: String,
    /// Its exit status, or nothing where it ended without one (a signal
    /// killed it).
    pub status: Option<i32>,
}

/// What an [`ExecutionResult`] holds, as plain text.
pub struct ResultView {
    pub stdout: Seq<char>,
    pub stderr: Seq<char>,
    pub status: Option<i32>,
}

impl View for ExecutionResult {
    type V = ResultView;

    open spec fn view(&self) -> ResultView {
        ResultView { stdout: self.stdout@, stderr: self.stderr@, status: self.status }
    }
}

/// The number a status is shown as: the status, or -1 where there is none.
pub open spec fn shown_status(status: Option<i32>) -> int {
    match status {
        Some(code) => code as int,
        None => -1,
    }
}

/// The exit code that reports a status: its lowest eight bits, so 255 where
/// there is no status.
pub open spec fn exit_code_of(status: Option<i32>) -> u8 {
    (shown_status(status) % 256) as u8
}

/// The exit code that reports `status`.
pub fn exit_code(status: Option<i32>) -> (code: u8)
    ensures
        code == exit_code_of(status),
        status is None ==> code == 255,
        status matches Some(c) ==> (0 <= c < 256 ==> code == c),
{
    match status {
        None => 255,
        Some(c) => {
            if c >= 0 {
                (c % 256) as u8
            } else {
                let under: i32 = (-(c + 1)) % 256;
                (255 - under) as u8
            }
        },
    }
}

/// The invocation as it is echoed before each line: in square brackets, its
/// arguments with a space between each two, and a space behind the bracket.
pub open spec fn echo(argv: Seq<Seq<char>>) -> Seq<char> {
    "["@ + joined(argv, " "@) + "] "@
}

/// Whether `prefix` is what starts every line: nothing, or when `verbose` the
/// echo of the invocation in bright black.
pub open spec fn is_prefix(prefix: Seq<char>, argv: Seq<Seq<char>>, verbose: bool) -> bool {
    if verbose {
        painted(prefix, Paint::BrightBlack, echo(argv))
    } else {
        prefix.len() == 0
    }
}

/// A line of the standard output as it is shown: unchanged behind the prefix.
pub open spec fn output_line(prefix: Seq<char>, text: Seq<char>) -> Seq<char> {
    prefix + text
}

/// A line of the standard error as it is shown, given the tag and the text
/// as they are to be printed.
pub open spec fn error_line(prefix: Seq<char>, tag: Seq<char>, text: Seq<char>) -> Seq<char> {
    prefix + tag + " "@ + text
}

/// The line that reports the status, given the number as it is to be printed.
pub open spec fn status_line(prefix: Seq<char>, code: Seq<char>) -> Seq<char> {
    prefix + "Returned with code "@ + code
}

/// Whether `line` shows the line `text` of the standard error: the tag
/// `[Err]` and the text, both in red.
pub open spec fn is_error_line(line: Seq<char>, prefix: Seq<char>, text: Seq<char>) -> bool {
    exists|tag: Seq<char>, body: Seq<char>|
        {
            &&& #[trigger] painted(tag, Paint::Red, "[Err]"@)
            &&& #[trigger] painted(body, Paint::Red, text)
            &&& line == error_line(prefix, tag, body)
        }
}

/// The style of the reported status: bold green for zero, bold red for
/// anything else and for none.
pub open spec fn status_paint(status: Option<i32>) -> Paint {
    if status == Some(0i32) {
        Paint::BoldGreen
    } else {
        Paint::BoldRed
    }
}

/// Whether `line` reports `status`.
pub open spec fn is_status_line(line: Seq<char>, prefix: Seq<char>, status: Option<i32>) -> bool {
    exists|code: Seq<char>|
        {
            &&& #[trigger] painted(code, status_paint(status), decimal(shown_status(status)))
            &&& line == status_line(prefix, code)
        }
}

/// Whether `out` shows what the invocation `argv` left behind: one prefix for
/// all lines; first the lines of its standard output, then those of its
/// standard error, each marked as an error, and last the status.
pub open spec fn is_rendering(
    out: Seq<Seq<char>>,
    argv: Seq<Seq<char>>,
    result: ResultView,
    verbose: bool,
) -> bool {
    let shown = lines(result.stdout);
    let errors = lines(result.stderr);
    exists|prefix: Seq<char>|
        {
            &&& #[trigger] is_prefix(prefix, argv, verbose)
            &&& out.len() == shown.len() + errors.len() + 1
            &&& forall|i: int|
                0 <= i < shown.len() ==> #[trigger] out[i] == output_line(prefix, shown[i])
            &&& forall|i: int|
                0 <= i < errors.len() ==> is_error_line(
                    out[shown.len() + i],
                    prefix,
                    #[trigger] errors[i],
                )
            &&& is_status_line(out[out.len() - 1], prefix, result.status)
        }
}

/// Puts a line of the standard error together from its parts as they are to
/// be printed.
pub fn make_error_line(prefix: &str, tag: &str, text: &str) -> (out: String)
    ensures
        out@ == error_line(prefix@, tag@, text@),
{
    let mut out = String::from_str(prefix);
    out.append(tag);
    out.append(" ");
    out.append(text);
    out
}

/// Puts the line that reports the status together from its parts as they are
/// to be printed.
pub fn make_status_line(prefix: &str, code: &str) -> (out: String)
    ensures
        out@ == status_line(prefix@, code@),
{
    let mut out = String::from_str(prefix);
    out.append("Returned with code ");
    out.append(code);
    out
}

/// What starts every line of the output of `args`.
fn make_prefix(args: &Vec<String>, verbose: bool) -> (prefix: String)
    ensures
        is_prefix(prefix@, args.deep_view(), verbose),
{
    if verbose {
        let mut text = String::from_str("[");
        text.append(join(args, " ").as_str());
        text.append("] ");
        paint(Paint::BrightBlack, text.as_str())
    } else {
        String::new()
    }
}

/// The lines that show the user what the invocation `args` left behind.
///
/// The lines of the standard output come first and unchanged, then the lines
/// of the standard error, marked and in red, then the exit status, green for
/// zero and red otherwise. When `verbose`, each line starts with the
/// invocation.
pub fn wrap_command(args: &Vec<String>, result: &ExecutionResult, verbose: bool) -> (out: Vec<
    String,
>)
    ensures
        is_rendering(out.deep_view(), args.deep_view(), result@, verbose),
{
    let prefix = make_prefix(args, verbose);
    let shown = lines_of(result.stdout.as_str());
    let errors = lines_of(result.stderr.as_str());
    let mut out: Vec<String> = Vec::new();
    let mut i: usize = 0;
    while i < shown.len()
        invariant
            i <= shown.len(),
            out.len() == i,
            forall|k: int|
                0 <= k < i ==> #[trigger] out.deep_view()[k] == output_line(
                    prefix@,
                    shown.deep_view()[k],
                ),
        decreases shown.len() - i,
    {
        let mut line = String::from_str(prefix.as_str());
        line.append(shown[i].as_str());
        let ghost before = out.deep_view();
        out.push(line);
        assert forall|k: int| 0 <= k < i + 1 implies #[trigger] out.deep_view()[k] == output_line(
            prefix@,
            shown.deep_view()[k],
        ) by {
            if k < i {
                assert(out.deep_view()[k] == before[k]);
            }
        }
        i += 1;
    }
    let mut j: usize = 0;
    while j < errors.len()
        invariant
            j <= errors.len(),
            out.len() == shown.len() + j,
            forall|k: int|
                0 <= k < shown.len() ==> #[trigger] out.deep_view()[k] == output_line(
                    prefix@,
                    shown.deep_view()[k],
                ),
            forall|k: int|
                0 <= k < j ==> is_error_line(
                    out.deep_view()[shown.len() + k],
                    prefix@,
                    #[trigger] errors.deep_view()[k],
                ),
        decreases errors.len() - j,
    {
        let tag = paint(Paint::Red, "[Err]");
        let body = paint(Paint::Red, errors[j].as_str());
        let line = make_error_line(prefix.as_str(), tag.as_str(), body.as_str());
        let ghost before = out.deep_view();
        out.push(line);
        assert forall|k: int| 0 <= k < shown.len() implies #[trigger] out.deep_view()[k]
            == output_line(prefix@, shown.deep_view()[k]) by {
            assert(out.deep_view()[k] == before[k]);
        }
        j += 1;
    }
    let number = match result.status {
        Some(code) => decimal_text(code as i64),
        None => decimal_text(-1),
    };
    let code = match result.status {
        Some(0) => paint(Paint::BoldGreen, number.as_str()),
        _ => paint(Paint::BoldRed, number.as_str()),
    };
    let last = make_status_line(prefix.as_str(), code.as_str());
    assert(painted(code@, status_paint(result.status), decimal(shown_status(result.status))));
    let ghost before = out.deep_view();
    out.push(last);
    assert forall|k: int| 0 <= k < shown.len() implies #[trigger] out.deep_view()[k]
        == output_line(prefix@, lines(result@.stdout)[k]) by {
        assert(out.deep_view()[k] == before[k]);
    }
    out
}

} // verus!
