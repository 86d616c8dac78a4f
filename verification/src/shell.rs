//! The pure decisions of the shell bridge: which command to run, the
//! environment handed to it, the initial terminal size, and the exit code
//! the local process reports when the remote one finishes.

use crate::data::PtySize;
use vstd::prelude::*;

verus! {

/// The environment handed to the remote process, as ordered pairs.
pub type Environment = Vec<(String, String)>;

/// Whether the environment binds `name`.
pub open spec fn env_has_key(env: Seq<(String, String)>, name: Seq<char>) -> bool {
    exists|i: int| 0 <= i < env.len() && env[i].0@ == name
}

/// Injects `TERM=xterm-256color` unless the environment already sets `TERM`.
pub fn prepare_environment(env: &mut Environment)
    ensures
        env_has_key(old(env)@, "TERM"@) ==> final(env)@ == old(env)@,
        !env_has_key(old(env)@, "TERM"@) ==> {
            &&& final(env)@.len() == old(env)@.len() + 1
            &&& final(env)@.take(old(env)@.len() as int) == old(env)@
            &&& final(env)@.last().0@ == "TERM"@
            &&& final(env)@.last().1@ == "xterm-256color"@
        },
{
    let n: usize = env.len();
    let mut i: usize = 0;
    while i < n
        invariant
            n == env@.len(),
            i <= n,
            env@ == old(env)@,
            forall|k: int| 0 <= k < i ==> env@[k].0@ != "TERM"@,
        decreases n - i,
    {
        if crate::text::str_eq(env[i].0.as_str(), "TERM") {
            return ;
        }
        i = i + 1;
    }
    let ghost pre = env@;
    env.push((("TERM").to_owned(), ("xterm-256color").to_owned()));
    proof {
        assert(env@.take(pre.len() as int) =~= pre);
    }
}

/// Whether two byte sequences are equal up to ASCII case.
pub open spec fn ascii_lower_byte(b: u8) -> u8 {
    if 0x41 <= b <= 0x5a {
        (b + 0x20) as u8
    } else {
        b
    }
}

/// Case-insensitive ASCII equality of two strings, byte by byte.
pub open spec fn eq_ignore_ascii_case_spec(a: Seq<u8>, b: Seq<u8>) -> bool {
    a.len() == b.len() && forall|i: int|
        0 <= i < a.len() ==> ascii_lower_byte(a[i]) == ascii_lower_byte(b[i])
}

/// Compares two strings ignoring ASCII case.
pub fn eq_ignore_ascii_case(a: &str, b: &str) -> (r: bool)
    ensures
        r == eq_ignore_ascii_case_spec(
            vstd::utf8::encode_utf8(a@),
            vstd::utf8::encode_utf8(b@),
        ),
{
    let ab: &[u8] = a.as_bytes();
    let bb: &[u8] = b.as_bytes();
    if ab.len() != bb.len() {
        return false;
    }
    let n: usize = ab.len();
    let mut i: usize = 0;
    while i < n
        invariant
            n == ab@.len(),
            ab@.len() == bb@.len(),
            ab@ == vstd::utf8::encode_utf8(a@),
            bb@ == vstd::utf8::encode_utf8(b@),
            i <= n,
            forall|k: int| 0 <= k < i ==> ascii_lower_byte(ab@[k]) == ascii_lower_byte(bb@[k]),
        decreases n - i,
    {
        let ca: u8 = ab[i];
        let cb: u8 = bb[i];
        let la: u8 = if 0x41 <= ca && ca <= 0x5a {
            ca + 0x20
        } else {
            ca
        };
        let lb: u8 = if 0x41 <= cb && cb <= 0x5a {
            cb + 0x20
        } else {
            cb
        };
        if la != lb {
            return false;
        }
        i = i + 1;
    }
    true
}

/// The shell run on the remote host when none was named: `cmd.exe` on a
/// Windows family, `/bin/sh` otherwise.
pub open spec fn default_shell_for(family: Seq<char>) -> Seq<char> {
    if eq_ignore_ascii_case_spec(
        vstd::utf8::encode_utf8(family),
        vstd::utf8::encode_utf8("windows"@),
    ) {
        "cmd.exe"@
    } else {
        "/bin/sh"@
    }
}

/// Picks the shell for the reported operating-system family.
pub fn choose_shell(family: &str) -> (r: &'static str)
    ensures
        r@ == default_shell_for(family@),
{
    if eq_ignore_ascii_case(family, "windows") {
        "cmd.exe"
    } else {
        "/bin/sh"
    }
}

/// Whether the remote family must be queried before spawning: only when no
/// command was supplied.
pub fn needs_system_info(cmd: &Option<String>) -> (r: bool)
    ensures
        r == (cmd is None),
{
    cmd.is_none()
}

/// The command actually spawned: the one supplied, or the family's default
/// shell.
pub fn resolve_cmd(cmd: Option<String>, family: &str) -> (r: String)
    ensures
        cmd matches Option::Some(c) ==> r@ == c@,
        cmd is None ==> r@ == default_shell_for(family@),
{
    match cmd {
        Option::Some(c) => c,
        Option::None => choose_shell(family).to_owned(),
    }
}

/// The initial PTY size from a measured terminal size, if one could be
/// measured: the measurement arrives as columns then rows.
pub fn initial_pty_size(dims: Option<(u16, u16)>) -> (r: Option<PtySize>)
    ensures
        dims matches Option::Some(d) ==> r == Option::Some(PtySize { rows: d.1, cols: d.0 }),
        dims is None ==> r is None,
{
    match dims {
        Option::Some((cols, rows)) => Option::Some(PtySize::from_rows_and_cols(rows, cols)),
        Option::None => Option::None,
    }
}

/// How the local process exits once the remote one is done.
#[derive(Copy, Clone, Debug, PartialEq, Eq, Structural)]
pub enum SpawnExit {
    /// The remote process succeeded; exit zero.
    Success,
    /// The remote process failed with a code; exit with its low byte.
    Code(u8),
    /// The remote process failed without a code; exit with a generic
    /// failure.
    Failure,
}

/// Maps the remote completion to the local exit: success exits cleanly, a
/// failure code is forwarded as its low byte, and a failure without a code
/// becomes the generic failure.
pub fn exit_outcome(success: bool, code: Option<i32>) -> (r: SpawnExit)
    ensures
        success ==> r == SpawnExit::Success,
        !success ==> match code {
            Option::Some(c) => r == SpawnExit::Code(c as u8),
            Option::None => r == SpawnExit::Failure,
        },
{
    if success {
        SpawnExit::Success
    } else {
        match code {
            Option::Some(c) => SpawnExit::Code(#[verifier::truncate] (c as u8)),
            Option::None => SpawnExit::Failure,
        }
    }
}

} // verus!
