//! The outcome of running a PowerShell command, and the interpretation of
//! its standard output.

use vstd::prelude::*;
use crate::error::{operation_failed, HvError};
use crate::text::{chars_of, push_char, str_eq, trim, trim_seq, starts_with_seq};

verus! {

/// What a finished PowerShell command reported.
pub struct CommandOutput {
    /// Whether the process exited successfully.
    pub success: bool,
    /// Standard output, decoded as text.
    pub stdout: String,
    /// Standard error, decoded as text.
    pub stderr: String,
}

/// How a command's JSON output (from `ConvertTo-Json`) is shaped.
#[derive(Debug, Clone, PartialEq, Eq)]
pub enum JsonOutput {
    /// Nothing, or the literal `null`: no objects.
    Empty,
    /// A JSON array of objects (the trimmed text).
    Array(String),
    /// A single JSON object (the trimmed text).
    Single(String),
}

/// The kind of JSON in `stdout`, after trimming: 0 when empty or "null"
/// (no objects), 1 when it starts with `[` (an array), 2 otherwise (one
/// object).
pub open spec fn json_kind(stdout: Seq<char>) -> nat {
    let t = trim_seq(stdout);
    if t.len() == 0 || t == "null"@ {
        0
    } else if starts_with_seq(t, seq!['[']) {
        1
    } else {
        2
    }
}

/// Whether `r` classifies a command's standard output `stdout`.
pub open spec fn classifies(stdout: Seq<char>, r: JsonOutput) -> bool {
    match r {
        JsonOutput::Empty => json_kind(stdout) == 0,
        JsonOutput::Array(s) => json_kind(stdout) == 1 && s@ == trim_seq(stdout),
        JsonOutput::Single(s) => json_kind(stdout) == 2 && s@ == trim_seq(stdout),
    }
}

/// Classifies the JSON that a command printed.
pub fn classify_json_output(stdout: &str) -> (r: JsonOutput)
    ensures
        classifies(stdout@, r),
{
    let t = trim(stdout);
    let cs = chars_of(t.as_str());
    if cs.len() == 0 || str_eq(t.as_str(), "null") {
        JsonOutput::Empty
    } else if cs[0] == '[' {
        assert(t@.subrange(0, 1) =~= seq!['[']);
        JsonOutput::Array(t)
    } else {
        assert(t@.subrange(0, 1)[0] != seq!['['][0]);
        JsonOutput::Single(t)
    }
}

/// The trimmed output, or `None` when nothing but whitespace was printed.
pub fn optional_text(stdout: &str) -> (r: Option<String>)
    ensures
        match r {
            Some(s) => s@ == trim_seq(stdout@) && s@.len() > 0,
            None => trim_seq(stdout@).len() == 0,
        },
{
    let t = trim(stdout);
    let cs = chars_of(t.as_str());
    if cs.len() == 0 {
        None
    } else {
        Some(t)
    }
}

/// The pieces of `s` between newline characters, in order (there is one
/// more piece than there are newlines; pieces may be empty).
pub open spec fn newline_pieces(s: Seq<char>) -> Seq<Seq<char>>
    decreases s.len(),
{
    if s.len() == 0 {
        seq![Seq::empty()]
    } else {
        let rest = newline_pieces(s.drop_last());
        if s.last() == '\n' {
            rest.push(Seq::empty())
        } else {
            rest.update(rest.len() - 1, rest.last().push(s.last()))
        }
    }
}

/// The pieces, trimmed, without those that were blank.
pub open spec fn trimmed_nonblank(pieces: Seq<Seq<char>>) -> Seq<Seq<char>>
    decreases pieces.len(),
{
    if pieces.len() == 0 {
        Seq::empty()
    } else {
        let rest = trimmed_nonblank(pieces.drop_last());
        if trim_seq(pieces.last()).len() > 0 {
            rest.push(trim_seq(pieces.last()))
        } else {
            rest
        }
    }
}

proof fn lemma_newline_pieces_nonempty(s: Seq<char>)
    ensures
        newline_pieces(s).len() >= 1,
    decreases s.len(),
{
    if s.len() > 0 {
        lemma_newline_pieces_nonempty(s.drop_last());
    }
}

/// The lines of `stdout`, each trimmed, without the blank ones.
pub fn nonblank_lines(stdout: &str) -> (r: Vec<String>)
    ensures
        r@.map_values(|x: String| x@) == trimmed_nonblank(newline_pieces(stdout@)),
{
    let cs = chars_of(stdout);
    let mut done: Vec<String> = Vec::new();
    let mut cur = String::new();
    let mut i: usize = 0;
    proof {
        assert(stdout@.subrange(0, 0) =~= Seq::<char>::empty());
        assert(newline_pieces(Seq::<char>::empty()).drop_last() =~= Seq::<Seq<char>>::empty());
        assert(done@.map_values(|x: String| x@) =~= Seq::<Seq<char>>::empty());
    }
    while i < cs.len()
        invariant
            cs@ == stdout@,
            i <= cs@.len(),
            ({
                let ps = newline_pieces(stdout@.subrange(0, i as int));
                &&& ps.len() >= 1
                &&& cur@ == ps.last()
                &&& done@.map_values(|x: String| x@) == trimmed_nonblank(ps.drop_last())
            }),
        decreases cs@.len() - i,
    {
        let ghost prefix = stdout@.subrange(0, i as int);
        let ghost next = stdout@.subrange(0, i + 1);
        let c = cs[i];
        assert(next.drop_last() =~= prefix);
        assert(next.last() == c);
        proof {
            lemma_newline_pieces_nonempty(prefix);
        }
        if c == '\n' {
            let t = trim(cur.as_str());
            let tc = chars_of(t.as_str());
            let ghost before = done@.map_values(|x: String| x@);
            if tc.len() > 0 {
                done.push(t);
                assert(done@.map_values(|x: String| x@) =~= before.push(t@));
            }
            cur = String::new();
            proof {
                let ps = newline_pieces(prefix);
                let ps2 = newline_pieces(next);
                assert(ps2 == ps.push(Seq::<char>::empty()));
                assert(ps2.drop_last() =~= ps);
                assert(ps.drop_last().push(ps.last()) =~= ps);
            }
        } else {
            push_char(&mut cur, c);
            proof {
                let ps = newline_pieces(prefix);
                let ps2 = newline_pieces(next);
                assert(ps2.drop_last() =~= ps.drop_last());
            }
        }
        i = i + 1;
    }
    assert(stdout@.subrange(0, i as int) =~= stdout@);
    let ghost ps = newline_pieces(stdout@);
    let t = trim(cur.as_str());
    let tc = chars_of(t.as_str());
    let ghost before = done@.map_values(|x: String| x@);
    if tc.len() > 0 {
        done.push(t);
        assert(done@.map_values(|x: String| x@) =~= before.push(t@));
    }
    assert(ps.drop_last().push(ps.last()) =~= ps);
    done
}

/// The outcome of an action command: nothing on success; on failure an
/// operation failure "<context>: <stderr>".
pub fn action_result(out: &CommandOutput, context: &str) -> (r: Result<(), HvError>)
    ensures
        out.success ==> r is Ok,
        !out.success ==> (r matches Err(HvError::OperationFailed(m)) && m@ == context@ + ": "@
            + out.stderr@),
{
    if out.success {
        Ok(())
    } else {
        Err(operation_failed(context, out.stderr.as_str()))
    }
}

/// The JSON that a listing command printed, where a failed command is an
/// error: an operation failure "<context>: <stderr>".
pub fn listing_json(out: &CommandOutput, context: &str) -> (r: Result<JsonOutput, HvError>)
    ensures
        out.success ==> (r matches Ok(j) && classifies(out.stdout@, j)),
        !out.success ==> (r matches Err(HvError::OperationFailed(m)) && m@ == context@ + ": "@
            + out.stderr@),
{
    if out.success {
        Ok(classify_json_output(out.stdout.as_str()))
    } else {
        Err(operation_failed(context, out.stderr.as_str()))
    }
}

/// The JSON that a listing command printed, where a failed command lists
/// nothing.
pub fn listing_json_or_empty(out: &CommandOutput) -> (r: JsonOutput)
    ensures
        out.success ==> classifies(out.stdout@, r),
        !out.success ==> r == JsonOutput::Empty,
{
    if out.success {
        classify_json_output(out.stdout.as_str())
    } else {
        JsonOutput::Empty
    }
}

/// The records a listing's JSON decoded to; none when it did not decode.
pub open spec fn decoded_records<R>(decoded: Option<Vec<R>>) -> Seq<R> {
    match decoded {
        Some(v) => v@,
        None => Seq::empty(),
    }
}

/// What a listing whose command succeeded gives, over the records it
/// lists: none when it printed no JSON; when the JSON did not decode, the
/// JSON error text "<array_context>: <why>" for an array or
/// "<single_context>: <why>" for a single object; otherwise the decoded
/// records.
pub open spec fn decode_outcome<R>(
    stdout: Seq<char>,
    decoded: Result<Vec<R>, String>,
    array_context: Seq<char>,
    single_context: Seq<char>,
) -> Result<Seq<R>, Seq<char>> {
    if json_kind(stdout) == 0 {
        Ok(Seq::empty())
    } else {
        match decoded {
            Ok(rs) => Ok(rs@),
            Err(why) => Err((if json_kind(stdout) == 1 {
                array_context
            } else {
                single_context
            }) + ": "@ + why@),
        }
    }
}

/// The records that a successful listing command printed, as
/// `decode_outcome` describes them; a decoding failure is a JSON error.
pub fn decode_listing<R>(
    stdout: &str,
    decoded: Result<Vec<R>, String>,
    array_context: &str,
    single_context: &str,
) -> (r: Result<Vec<R>, HvError>)
    ensures
        match decode_outcome(stdout@, decoded, array_context@, single_context@) {
            Ok(rs) => r matches Ok(v) && v@ == rs,
            Err(m) => r matches Err(HvError::JsonError(e)) && e@ == m,
        },
{
    match classify_json_output(stdout) {
        JsonOutput::Empty => Ok(Vec::new()),
        JsonOutput::Array(_) => match decoded {
            Ok(rs) => Ok(rs),
            Err(why) => Err(
                HvError::JsonError(String::from_str(array_context).concat(": ").concat(why.as_str())),
            ),
        },
        JsonOutput::Single(_) => match decoded {
            Ok(rs) => Ok(rs),
            Err(why) => Err(
                HvError::JsonError(String::from_str(single_context).concat(": ").concat(why.as_str())),
            ),
        },
    }
}

} // verus!
