//! The answer of the MCP tool that runs the command-line tool: the outcome
//! of the run, and the text shown for it.

use vstd::prelude::*;
use crate::text::{i32_decimal, signed_decimal, string_of};

verus! {

broadcast use vstd::string::group_string_axioms;

/// How a run of the command-line tool ended.
pub struct NjuCliResponse {
    /// Whether it exited with status 0.
    pub success: bool,
    /// Its exit code; `None` where a signal ended it.
    pub code: Option<i32>,
    /// What it wrote to standard output.
    pub stdout: String,
    /// What it wrote to standard error.
    pub stderr: String,
}

/// A stream's section of the text: a blank line, `{name}:`, the stream, and a
/// final line break where the stream has none; nothing for an empty stream.
pub open spec fn stream_section(name: Seq<char>, stream: Seq<char>) -> Seq<char> {
    if stream.len() == 0 {
        Seq::empty()
    } else if stream.last() == '\n' {
        "\n"@ + name + ":\n"@ + stream
    } else {
        "\n"@ + name + ":\n"@ + stream + "\n"@
    }
}

/// The text shown for a run: whether it succeeded, its code (`null` where it
/// has none), then its standard output and standard error.
pub open spec fn render_response_spec(success: bool, code: Option<i32>, stdout: Seq<char>, stderr: Seq<char>) -> Seq<char> {
    "success: "@ + (if success { "true"@ } else { "false"@ }) + "\ncode: "@ + (match code {
        Some(c) => signed_decimal(c as int),
        None => "null"@,
    }) + "\n"@ + stream_section("stdout"@, stdout) + stream_section("stderr"@, stderr)
}

/// Appends the section of the stream `stream` named `name` to `s`.
fn push_stream(s: &mut String, name: &str, stream: &str)
    ensures
        final(s)@ == old(s)@ + stream_section(name@, stream@),
{
    if stream.is_empty() {
        assert(old(s)@ + Seq::<char>::empty() == old(s)@);
        return;
    }
    s.append("\n");
    s.append(name);
    s.append(":\n");
    s.append(stream);
    let c = crate::text::chars_of(stream);
    if c[c.len() - 1] != '\n' {
        s.append("\n");
    }
}

/// The text shown for `response`.
pub fn render_response(response: &NjuCliResponse) -> (r: String)
    ensures
        r@ == render_response_spec(
            response.success,
            response.code,
            response.stdout@,
            response.stderr@,
        ),
{
    let mut s = "success: ".to_string();
    if response.success {
        s.append("true");
    } else {
        s.append("false");
    }
    s.append("\ncode: ");
    match response.code {
        Some(c) => {
            let d = i32_decimal(c);
            s.append(string_of(d.as_slice()).as_str());
        },
        None => s.append("null"),
    }
    s.append("\n");
    push_stream(&mut s, "stdout", response.stdout.as_str());
    push_stream(&mut s, "stderr", response.stderr.as_str());
    s
}

/// The answer given where the tool could not be run at all: a failure
/// without code, with the error's text as standard error.
pub fn failed_run(error: String) -> (r: NjuCliResponse)
    ensures
        !r.success,
        r.code is None,
        r.stdout@ == Seq::<char>::empty(),
        r.stderr == error,
{
    NjuCliResponse { success: false, code: None, stdout: String::new(), stderr: error }
}

/// The text shown for a run always ends with a line break, so that what
/// follows it starts on a line of its own.
pub proof fn lemma_render_ends_with_newline(success: bool, code: Option<i32>, stdout: Seq<char>, stderr: Seq<char>)
    ensures
        render_response_spec(success, code, stdout, stderr).len() > 0,
        render_response_spec(success, code, stdout, stderr).last() == '\n',
{
    reveal_strlit("\n");
    reveal_strlit(":\n");
    let head = "success: "@ + (if success { "true"@ } else { "false"@ }) + "\ncode: "@ + (match code {
        Some(c) => signed_decimal(c as int),
        None => "null"@,
    }) + "\n"@;
    let out = stream_section("stdout"@, stdout);
    let err = stream_section("stderr"@, stderr);
    assert(head.last() == '\n');
    assert(out.len() > 0 ==> out.last() == '\n');
    assert(err.len() > 0 ==> err.last() == '\n');
    let r = head + out + err;
    assert(r == render_response_spec(success, code, stdout, stderr));
    if err.len() > 0 {
        assert(r.last() == err.last());
    } else if out.len() > 0 {
        assert(r == head + out + Seq::<char>::empty());
        assert(r.last() == out.last());
    } else {
        assert(r =~= head);
    }
}

} // verus!
