use vstd::prelude::*;
use vstd::string::StringExecFns;
use vstd::utf8::{decode_utf8, valid_utf8};

verus! {

/// The failure text for output that is not valid UTF-8.
pub open spec fn decode_error_text() -> Seq<char> {
    "decode error"@
}

/// A reply of text on both sides, seen as character sequences.
pub open spec fn reply_view(r: Result<String, String>) -> Result<Seq<char>, Seq<char>> {
    match r {
        Ok(s) => Ok(s@),
        Err(e) => Err(e@),
    }
}

/// What a spawn produced, seen as values: the captured bytes, or the text
/// describing why the program could not be run.
pub open spec fn spawn_view(spawned: Result<Vec<u8>, String>) -> Result<Seq<u8>, Seq<char>> {
    match spawned {
        Ok(b) => Ok(b@),
        Err(e) => Err(e@),
    }
}

/// The reply for captured output: its text when the bytes are valid UTF-8,
/// the decode failure otherwise.
pub open spec fn output_reply(stdout: Seq<u8>) -> Result<Seq<char>, Seq<char>> {
    if valid_utf8(stdout) {
        Ok(decode_utf8(stdout))
    } else {
        Err(decode_error_text())
    }
}

/// The reply for a program run: a spawn failure passes its description on,
/// captured output is decoded.
pub open spec fn run_reply(spawned: Result<Seq<u8>, Seq<char>>) -> Result<Seq<char>, Seq<char>> {
    match spawned {
        Ok(b) => output_reply(b),
        Err(e) => Err(e),
    }
}

/// Relies on `String::from_utf8`: it succeeds exactly when the bytes are
/// valid UTF-8, and the string then holds the characters they encode.
#[verifier::external_body]
fn string_from_utf8(bytes: Vec<u8>) -> (r: Option<String>)
    ensures
        r is Some <==> valid_utf8(bytes@),
        r is Some ==> r->Some_0@ == decode_utf8(bytes@),
{
    String::from_utf8(bytes).ok()
}

/// Turns a program's captured standard output into the command's reply.
pub fn decode_output(stdout: Vec<u8>) -> (r: Result<String, String>)
    ensures
        reply_view(r) == output_reply(stdout@),
{
    match string_from_utf8(stdout) {
        Some(text) => Ok(text),
        None => Err(String::from_str("decode error")),
    }
}

/// The process command once the program has run: `spawned` holds its
/// captured standard output, or the description of the spawn failure.
pub fn term_from_output(spawned: Result<Vec<u8>, String>) -> (r: Result<String, String>)
    ensures
        reply_view(r) == run_reply(spawn_view(spawned)),
{
    match spawned {
        Ok(stdout) => decode_output(stdout),
        Err(e) => Err(e),
    }
}

/// Output that is not valid UTF-8 is never handed back, in whole or in
/// part: the reply is the decode failure.
pub proof fn binary_output_is_decode_failure(stdout: Seq<u8>)
    requires
        !valid_utf8(stdout),
    ensures
        run_reply(Ok(stdout)) == Err::<Seq<char>, Seq<char>>(decode_error_text()),
{
}

/// A spawn failure is reported with its own description, which a caller
/// can tell apart from the decode failure whenever the description is
/// not that very text.
pub proof fn spawn_failure_is_distinct(description: Seq<char>)
    requires
        description.len() > 0,
        description != decode_error_text(),
    ensures
        run_reply(Err(description)) == Err::<Seq<char>, Seq<char>>(description),
        run_reply(Err(description)) != Err::<Seq<char>, Seq<char>>(decode_error_text()),
{
}

/// The reply depends on what the run produced alone: two runs that
/// produced the same output or the same failure get the same reply.
pub proof fn run_reply_is_deterministic(a: Result<Seq<u8>, Seq<char>>, b: Result<Seq<u8>, Seq<char>>)
    requires
        a == b,
    ensures
        run_reply(a) == run_reply(b),
{
}

} // verus!
