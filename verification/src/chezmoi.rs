//! Text handling around the external dotfile manager.
//!
//! The tool itself runs outside the library. What the library owns is the
//! text work on either side of a call: building the path arguments that a
//! mutating invocation receives, and cleaning the raw diff output before it
//! is shown.

use vstd::prelude::*;
use vstd::string::*;

verus! {

/// The bytes with their ANSI escape sequences removed.
pub uninterp spec fn ansi_stripped(b: Seq<u8>) -> Seq<u8>;

/// The text that stands for a byte sequence when invalid UTF-8 is replaced.
pub uninterp spec fn utf8_lossy(b: Seq<u8>) -> Seq<char>;

/// Relies on strip_ansi_escapes::strip: it feeds the bytes through a
/// terminal-escape parser and keeps only printable text and line feeds,
/// dropping ANSI escape sequences and the other control bytes; its result
/// depends on the bytes alone.
#[verifier::external_body]
fn strip_ansi(b: &Vec<u8>) -> (r: Vec<u8>)
    ensures
        r@ == ansi_stripped(b@),
{
    strip_ansi_escapes::strip(b)
}

/// Relies on String::from_utf8_lossy: it replaces invalid UTF-8 with the
/// replacement character, and its result depends on the bytes alone.
#[verifier::external_body]
fn utf8_lossy_string(b: &Vec<u8>) -> (r: String)
    ensures
        r@ == utf8_lossy(b@),
{
    String::from_utf8_lossy(b).into_owned()
}

/// Turns the tool's raw diff output into plain text: escape sequences and
/// the other unprintable control bytes are stripped, and what remains is
/// decoded with invalid UTF-8 replaced.
pub fn clean_diff(raw: &Vec<u8>) -> (r: String)
    ensures
        r@ == utf8_lossy(ansi_stripped(raw@)),
{
    let stripped = strip_ansi(raw);
    utf8_lossy_string(&stripped)
}

/// The home-directory indicator every path argument is prefixed with.
pub open spec fn home_prefix() -> Seq<char> {
    seq!['~', '/']
}

/// Prefixes one repository-relative path with the home-directory indicator.
pub fn home_path(path: &str) -> (r: String)
    ensures
        r@ == home_prefix() + path@,
{
    proof {
        reveal_strlit("~/");
        assert("~/"@ =~= home_prefix());
    }
    let mut s = String::new();
    s.append("~/");
    s.append(path);
    proof {
        assert(s@ =~= home_prefix() + path@);
    }
    s
}

/// Builds the argument list of a mutating invocation: each selected path,
/// in order, prefixed with the home-directory indicator, one argument per
/// path.
pub fn home_args(paths: &Vec<String>) -> (args: Vec<String>)
    ensures
        args@.len() == paths@.len(),
        forall|i: int|
            0 <= i < paths@.len() ==> #[trigger] args@[i]@ == home_prefix() + paths@[i]@,
{
    let mut args: Vec<String> = Vec::new();
    let mut i: usize = 0;
    while i < paths.len()
        invariant
            i <= paths@.len(),
            args@.len() == i,
            forall|j: int|
                0 <= j < i ==> #[trigger] args@[j]@ == home_prefix() + paths@[j]@,
        decreases paths@.len() - i,
    {
        args.push(home_path(paths[i].as_str()));
        i += 1;
    }
    args
}

} // verus!
