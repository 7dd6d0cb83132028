//! Command construction for the foreground writer.
//!
//! One operator input line becomes one byte command: verbatim in raw
//! mode, decoded from hexadecimal tokens in hex mode.  Every command
//! ends with a line terminator — one is appended exactly when the
//! transformed line does not already end with one — and a command
//! ending in the exit word tells the bridge to stop.

use vstd::prelude::*;
use vstd::string::StringSliceAdditionalSpecFns;

use crate::hex::LINE_TERMINATOR;
use crate::hex::parse_hex_line;
use crate::hex::spec_parse_hex_line;

verus! {

/// How operator input lines are turned into byte commands.
#[derive(Clone, Copy, PartialEq, Eq, Structural, Debug)]
pub enum WriterMode {
    /// The line's bytes are forwarded verbatim.
    Raw,
    /// The line is read as space-separated two-digit hexadecimal
    /// tokens, each decoding to one byte.
    HexBytes,
}

/// The transformation a mode applies to the bytes of one line.
pub open spec fn transformed_line(s: Seq<u8>, mode: WriterMode) -> Seq<u8> {
    match mode {
        WriterMode::Raw => s,
        WriterMode::HexBytes => spec_parse_hex_line(s),
    }
}

/// A sequence, terminated: itself if it already ends with the line
/// terminator, else with one terminator appended.
pub open spec fn with_terminator(s: Seq<u8>) -> Seq<u8> {
    if s.len() > 0 && s.last() == LINE_TERMINATOR {
        s
    } else {
        s.push(LINE_TERMINATOR)
    }
}

/// The byte command written for one operator line in the given mode.
pub open spec fn spec_command(s: Seq<u8>, mode: WriterMode) -> Seq<u8> {
    with_terminator(transformed_line(s, mode))
}

/// Build the byte command for one operator input line.
pub fn make_command(line: &str, mode: WriterMode) -> (cmd: Vec<u8>)
    ensures
        cmd@ == spec_command(line.spec_bytes(), mode),
        cmd@.len() > 0,
        cmd@.last() == LINE_TERMINATOR,
{
    let mut cmd: Vec<u8> = match mode {
        WriterMode::Raw => vstd::slice::slice_to_vec(line.as_bytes()),
        WriterMode::HexBytes => parse_hex_line(line.as_bytes()),
    };
    if cmd.len() == 0 || cmd[cmd.len() - 1] != LINE_TERMINATOR {
        cmd.push(LINE_TERMINATOR);
    }
    cmd
}

/// The bytes of the exit word followed by a terminator.
pub open spec fn exit_suffix() -> Seq<u8> {
    seq![101u8, 120u8, 105u8, 116u8, 10u8]
}

/// Does a command end with the exit word and a terminator?
pub open spec fn is_exit(s: Seq<u8>) -> bool {
    s.len() >= 5 && s.subrange(s.len() - 5, s.len() as int) == exit_suffix()
}

/// Decide whether the command just written ends the bridge: it does
/// exactly when it ends with the exit word and a terminator.
pub fn is_exit_command(cmd: &[u8]) -> (r: bool)
    ensures
        r == is_exit(cmd@),
{
    let len: usize = cmd.len();
    if len < 5 {
        return false;
    }
    let r = cmd[len - 5] == 101 && cmd[len - 4] == 120 && cmd[len - 3] == 105 && cmd[len - 2]
        == 116 && cmd[len - 1] == 10;
    proof {
        let tail = cmd@.subrange(len - 5, len as int);
        if r {
            assert(tail =~= exit_suffix());
        } else {
            if tail == exit_suffix() {
                assert(tail[0] == 101 && tail[1] == 120 && tail[2] == 105 && tail[3] == 116
                    && tail[4] == 10);
                assert(false);
            }
        }
    }
    r
}

/// An operator input line: a terminator byte stands nowhere but at
/// its very end.
pub open spec fn line_shaped(s: Seq<u8>) -> bool {
    forall|i: int| 0 <= i < s.len() - 1 ==> s[i] != LINE_TERMINATOR
}

/// A sequence ending in two terminator bytes.
pub open spec fn double_terminated(s: Seq<u8>) -> bool {
    s.len() >= 2 && s.last() == LINE_TERMINATOR && s[s.len() - 2] == LINE_TERMINATOR
}

/// Trailing-terminator law: for every operator input line, in either
/// mode, the byte command ends with exactly one terminator byte — one
/// is never appended when the transformed line already carries one.
/// In hex mode this holds for every line whose decoded bytes do not
/// themselves end in two terminators.
pub proof fn lemma_command_single_terminator(s: Seq<u8>, mode: WriterMode)
    requires
        line_shaped(s),
        mode is HexBytes ==> !double_terminated(spec_parse_hex_line(s)),
    ensures
        spec_command(s, mode).len() > 0,
        spec_command(s, mode).last() == LINE_TERMINATOR,
        spec_command(s, mode).len() >= 2 ==> spec_command(s, mode)[spec_command(
            s,
            mode,
        ).len() - 2] != LINE_TERMINATOR,
{
    let t = transformed_line(s, mode);
    let c = spec_command(s, mode);
    if t.len() > 0 && t.last() == LINE_TERMINATOR {
        assert(c == t);
        if c.len() >= 2 {
            match mode {
                WriterMode::Raw => {
                    assert(s[s.len() - 2] != LINE_TERMINATOR);
                },
                WriterMode::HexBytes => {
                    assert(!double_terminated(t));
                },
            }
        }
    } else {
        assert(c == t.push(LINE_TERMINATOR));
        if c.len() >= 2 {
            assert(c[c.len() - 2] == t.last());
        }
    }
}

} // verus!
