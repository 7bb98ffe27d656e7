//! Turning what a step's command reported into the step's outcome.
//!
//! An outcome is `Ok` with the step's output, or `Err` with the reason it
//! failed.
use vstd::prelude::*;
use vstd::string::*;
use crate::mux::{ExitInfo, MuxError};

verus! {

/// Whether `c` has the Unicode property White_Space.
pub open spec fn is_white_space(c: char) -> bool {
    let u = c as u32;
    (0x9 <= u && u <= 0xd) || u == 0x20 || u == 0x85 || u == 0xa0 || u == 0x1680 || (0x2000 <= u
        && u <= 0x200a) || u == 0x2028 || u == 0x2029 || u == 0x202f || u == 0x205f || u == 0x3000
}

/// Whether `r` is `s` without its leading and trailing White_Space.
pub open spec fn is_trim_of(r: Seq<char>, s: Seq<char>) -> bool {
    exists|i: int, j: int|
        {
            &&& 0 <= i <= j <= s.len()
            &&& r == s.subrange(i, j)
            &&& forall|k: int| 0 <= k < i ==> is_white_space(#[trigger] s[k])
            &&& forall|k: int| j <= k < s.len() ==> is_white_space(#[trigger] s[k])
            &&& i < j ==> !is_white_space(s[i]) && !is_white_space(s[j - 1])
        }
}

/// Relies on `str::trim`: removes the leading and trailing characters with
/// the Unicode property White_Space, and nothing else.
#[verifier::external_body]
fn trim(s: &String) -> (r: String)
    ensures
        is_trim_of(r@, s@),
{
    s.trim().to_string()
}

/// The decimal digits of `n`, most significant first, without leading zeros.
pub open spec fn digits_of(n: nat) -> Seq<char>
    decreases n,
{
    let d = n % 10;
    let c = if d == 0 {
        '0'
    } else if d == 1 {
        '1'
    } else if d == 2 {
        '2'
    } else if d == 3 {
        '3'
    } else if d == 4 {
        '4'
    } else if d == 5 {
        '5'
    } else if d == 6 {
        '6'
    } else if d == 7 {
        '7'
    } else if d == 8 {
        '8'
    } else {
        '9'
    };
    if n < 10 {
        seq![c]
    } else {
        digits_of(n / 10).push(c)
    }
}

/// `n` in decimal, with a minus sign when negative.
pub open spec fn decimal(n: int) -> Seq<char> {
    if n < 0 {
        seq!['-'] + digits_of((-n) as nat)
    } else {
        digits_of(n as nat)
    }
}

/// Relies on `i32::to_string` (its `Display`): the number in decimal, with a
/// leading `-` when negative.
#[verifier::external_body]
fn i32_to_decimal(n: i32) -> (r: String)
    ensures
        r@ == decimal(n as int),
{
    n.to_string()
}

/// How an exit code is shown: in decimal, or `<unknown>` when the process
/// was ended by a signal.
pub open spec fn code_text(code: Option<i32>) -> Seq<char> {
    match code {
        Some(c) => decimal(c as int),
        None => "<unknown>"@,
    }
}

/// The text of an exit code, as [`code_text`] gives it.
pub fn exit_code_text(code: Option<i32>) -> (r: String)
    ensures
        r@ == code_text(code),
{
    match code {
        Some(c) => i32_to_decimal(c),
        None => String::from_str("<unknown>"),
    }
}

pub open spec fn hash_failure_message(dir: Seq<char>, stderr: Seq<char>) -> Seq<char> {
    "Could not execute `nix-hash "@ + dir + "` command, with stderr:\n"@ + stderr
}

pub open spec fn hash_decode_message() -> Seq<char> {
    "Could not decode nix-hash's output as UTF-8"@
}

/// The outcome of hashing the directory `dir`: on a zero exit, the output
/// without surrounding whitespace; a non-zero exit, or an output that was not
/// UTF-8 (`stdout` is `None`), is a failure.
pub fn hash_outcome(exit: ExitInfo, dir: &String, stdout: &Option<String>, stderr: &String) -> (r: Result<String, String>)
    ensures
        r is Ok <==> exit.succeeded() && stdout is Some,
        r matches Ok(h) ==> is_trim_of(h@, stdout->Some_0@),
        r matches Err(m) ==> m@ == if exit.succeeded() {
            hash_decode_message()
        } else {
            hash_failure_message(dir@, stderr@)
        },
{
    if !exit.success() {
        return Err(
            String::from_str("Could not execute `nix-hash ").concat(dir.as_str()).concat(
                "` command, with stderr:\n",
            ).concat(stderr.as_str()),
        );
    }
    match stdout {
        Some(out) => Ok(trim(out)),
        None => Err(String::from_str("Could not decode nix-hash's output as UTF-8")),
    }
}

pub open spec fn copy_failure_message(location: Seq<char>, code: Option<i32>, stderr: Seq<char>) -> Seq<char> {
    "Could not rsync files to location `"@ + location + "` (rsync exited with "@ + code_text(code)
        + "), with stderr of:\n"@ + stderr
}

/// The outcome of copying the configuration to the node at `location`:
/// success when the copy exited with code zero.
pub fn copy_outcome(exit: ExitInfo, location: &String, stderr: &String) -> (r: Result<String, String>)
    ensures
        r is Ok <==> exit.succeeded(),
        r matches Ok(o) ==> o@.len() == 0,
        r matches Err(m) ==> m@ == copy_failure_message(location@, exit.code, stderr@),
{
    if exit.success() {
        Ok(String::new())
    } else {
        Err(String::from_str("Could not rsync files to location `").concat(location.as_str()).concat(
            "` (rsync exited with ",
        ).concat(exit_code_text(exit.code).as_str()).concat("), with stderr of:\n").concat(
            stderr.as_str(),
        ))
    }
}

pub open spec fn build_failure_message(status: Result<ExitInfo, MuxError>) -> Seq<char> {
    match status {
        Ok(_) => "Rebuild failed"@,
        Err(MuxError::SpawnFailed(m)) => "Could not spawn process: "@ + m@,
        Err(MuxError::WaitFailed(m)) => "Could not wait for child status: "@ + m@,
    }
}

/// The outcome of the remote build: success when it ran and exited with code
/// zero; a non-zero exit and a failure to run it are both failures.
pub fn build_outcome(status: Result<ExitInfo, MuxError>) -> (r: Result<String, String>)
    ensures
        r is Ok <==> (status matches Ok(st) && st.succeeded()),
        r matches Ok(o) ==> o@.len() == 0,
        r matches Err(m) ==> m@ == build_failure_message(status),
{
    match status {
        Ok(st) => {
            if st.success() {
                Ok(String::new())
            } else {
                Err(String::from_str("Rebuild failed"))
            }
        },
        Err(MuxError::SpawnFailed(m)) => Err(String::from_str("Could not spawn process: ").concat(m.as_str())),
        Err(MuxError::WaitFailed(m)) => Err(String::from_str("Could not wait for child status: ").concat(m.as_str())),
    }
}

pub open spec fn link_failure_message(status: Result<ExitInfo, String>) -> Seq<char> {
    match status {
        Ok(st) => "ln exited with "@ + code_text(st.code),
        Err(m) => m@,
    }
}

/// The outcome of pointing the `latest` marker: success when `ln` ran and
/// exited with code zero; `status` is `Err` when it could not be run.
pub fn link_outcome(status: Result<ExitInfo, String>) -> (r: Result<String, String>)
    ensures
        r is Ok <==> (status matches Ok(st) && st.succeeded()),
        r matches Ok(o) ==> o@.len() == 0,
        r matches Err(m) ==> m@ == link_failure_message(status),
{
    match status {
        Ok(st) => {
            if st.success() {
                Ok(String::new())
            } else {
                Err(String::from_str("ln exited with ").concat(exit_code_text(st.code).as_str()))
            }
        },
        Err(m) => Err(m),
    }
}

} // verus!
