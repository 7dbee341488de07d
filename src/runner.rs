//! Decoding what an external program printed, and the command lines of a
//! plain shell invocation.

use vstd::prelude::*;
use vstd::string::*;

verus! {

/// The text that `encoding_rs::UTF_8.decode` gives for `bytes`.
pub uninterp spec fn utf8_decoded(bytes: Seq<u8>) -> Seq<char>;

/// The text that `encoding_rs::SHIFT_JIS.decode` gives for `bytes`.
pub uninterp spec fn shift_jis_decoded(bytes: Seq<u8>) -> Seq<char>;

/// Relies on `encoding_rs::Encoding::decode` of `UTF_8`: lossy decoding with
/// byte order mark sniffing, whose text depends on the bytes alone.
#[verifier::external_body]
fn decode_utf8(bytes: &[u8]) -> (r: String)
    ensures
        r@ == utf8_decoded(bytes@),
{
    encoding_rs::UTF_8.decode(bytes).0.into_owned()
}

/// Relies on `encoding_rs::Encoding::decode` of `SHIFT_JIS`: lossy decoding
/// with byte order mark sniffing, whose text depends on the bytes alone.
#[verifier::external_body]
fn decode_shift_jis(bytes: &[u8]) -> (r: String)
    ensures
        r@ == shift_jis_decoded(bytes@),
{
    encoding_rs::SHIFT_JIS.decode(bytes).0.into_owned()
}

/// The text encoding of a program's output.
#[derive(Debug, Clone, Copy, PartialEq, Eq, Structural)]
pub enum TextEncoding {
    Utf8,
    ShiftJis,
}

pub open spec fn decoded(encoding: TextEncoding, bytes: Seq<u8>) -> Seq<char> {
    match encoding {
        TextEncoding::Utf8 => utf8_decoded(bytes),
        TextEncoding::ShiftJis => shift_jis_decoded(bytes),
    }
}

/// Decodes `bytes` in `encoding`; malformed input is replaced, never refused.
pub fn decode(encoding: TextEncoding, bytes: &[u8]) -> (r: String)
    ensures
        r@ == decoded(encoding, bytes@),
{
    match encoding {
        TextEncoding::Utf8 => decode_utf8(bytes),
        TextEncoding::ShiftJis => decode_shift_jis(bytes),
    }
}

/// Runs git for the workers: it knows the encoding that output comes in.
pub struct GitController {
    pub encoding: TextEncoding,
}

impl GitController {
    /// Output is Shift JIS on Windows and UTF-8 elsewhere.
    pub fn new(on_windows: bool) -> (r: GitController)
        ensures
            r.encoding == if on_windows {
                TextEncoding::ShiftJis
            } else {
                TextEncoding::Utf8
            },
    {
        if on_windows {
            GitController { encoding: TextEncoding::ShiftJis }
        } else {
            GitController { encoding: TextEncoding::Utf8 }
        }
    }

    /// The combined output of a program: its decoded standard output, then
    /// its decoded standard error.
    pub fn decode_output(&self, stdout: &[u8], stderr: &[u8]) -> (r: String)
        ensures
            r@ == decoded(self.encoding, stdout@) + decoded(self.encoding, stderr@),
    {
        let mut out = decode(self.encoding, stdout);
        let err = decode(self.encoding, stderr);
        out.append(err.as_str());
        out
    }
}

/// The shell command line that runs git with `sub_cmd`.
pub fn exec_git_command(sub_cmd: &str) -> (r: String)
    ensures
        r@ == "git "@ + sub_cmd@,
{
    let mut r = String::from_str("git ");
    r.append(sub_cmd);
    r
}

/// The shell command line that shows the status of the current checkout.
pub fn git_status() -> (r: String)
    ensures
        r@ == "git status"@,
{
    let r = exec_git_command("status");
    proof {
        reveal_strlit("git ");
        reveal_strlit("status");
        reveal_strlit("git status");
        assert(r@ =~= "git status"@);
    }
    r
}

/// The shell command line that clones `repo_name` into the current directory.
pub fn git_clone(repo_name: &str) -> (r: String)
    ensures
        r@ == "git clone "@ + repo_name@,
{
    let mut sub = String::from_str("clone ");
    sub.append(repo_name);
    let r = exec_git_command(sub.as_str());
    proof {
        reveal_strlit("git ");
        reveal_strlit("clone ");
        reveal_strlit("git clone ");
        assert(r@ =~= "git clone "@ + repo_name@);
    }
    r
}

} // verus!
