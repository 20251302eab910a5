use vstd::prelude::*;

verus! {

/// What the controller reported for one run: `ok` is whether it exited with
/// status zero, `code` its exit code (absent when it ended without one, as on
/// a signal), and its output and error streams as text.
#[derive(Debug, Clone)]
pub struct CommandResult {
    pub ok: bool,
    pub code: Option<i32>,
    pub stdout: String,
    pub stderr: String,
}

/// The text that `String::from_utf8_lossy` makes of `b`: valid UTF-8 decoded,
/// each invalid sequence replaced by U+FFFD.
pub uninterp spec fn lossy_utf8(b: Seq<u8>) -> Seq<char>;

/// Relies on `String::from_utf8_lossy`: decodes bytes as UTF-8, replacing
/// invalid sequences instead of failing.
#[verifier::external_body]
fn decode_lossy(b: &[u8]) -> (r: String)
    ensures
        r@ == lossy_utf8(b@),
        b@.len() == 0 ==> r@.len() == 0,
{
    String::from_utf8_lossy(b).into_owned()
}

/// The result of a run that ended with exit code `code` (none when the
/// process was ended without one) and wrote `stdout` and `stderr`.
pub fn command_result(code: Option<i32>, stdout: &[u8], stderr: &[u8]) -> (r: CommandResult)
    ensures
        r.ok == (code == Some(0i32)),
        r.code == code,
        r.stdout@ == lossy_utf8(stdout@),
        r.stderr@ == lossy_utf8(stderr@),
{
    let ok = match code {
        Some(c) => c == 0,
        None => false,
    };
    CommandResult { ok, code, stdout: decode_lossy(stdout), stderr: decode_lossy(stderr) }
}

} // verus!
