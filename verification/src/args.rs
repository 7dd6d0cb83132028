//! Command-line configuration of one bridge run.
//!
//! The operator may name the shell to launch and pick the writer
//! mode; a help flag suppresses the run.  An option at the end of the
//! line with its value missing stops parsing where it stands, keeping
//! whatever was gathered so far; unknown arguments and unknown mode
//! values are passed over.

use vstd::prelude::*;

use crate::writer::WriterMode;

verus! {

/// What one run was asked to do: which shell to launch, and how
/// operator lines become byte commands.
pub struct Config {
    /// The program spawned as the interactive session.
    pub shell: String,
    /// The writer mode, fixed for the whole run.
    pub mode: WriterMode,
}

/// Parsing state after the first `i` arguments: the shell named so
/// far, if any, and the mode picked so far.  The result is the final
/// pair, or nothing when the help flag was met.
pub open spec fn spec_parse(
    args: Seq<Seq<char>>,
    i: int,
    shell: Option<Seq<char>>,
    mode: WriterMode,
) -> Option<(Option<Seq<char>>, WriterMode)>
    recommends
        0 <= i,
    decreases args.len() - i,
{
    if i < 0 || i >= args.len() {
        Some((shell, mode))
    } else if args[i] == "--shell"@ {
        if i + 1 >= args.len() {
            Some((shell, mode))
        } else {
            spec_parse(args, i + 2, Some(args[i + 1]), mode)
        }
    } else if args[i] == "--mod"@ {
        if i + 1 >= args.len() {
            Some((shell, mode))
        } else {
            spec_parse(
                args,
                i + 2,
                shell,
                if args[i + 1] == "str"@ {
                    WriterMode::Raw
                } else if args[i + 1] == "bytes"@ {
                    WriterMode::HexBytes
                } else {
                    mode
                },
            )
        }
    } else if args[i] == "--help"@ {
        None
    } else {
        spec_parse(args, i + 1, shell, mode)
    }
}

/// What a whole argument list (the program name already dropped)
/// parses to: the configuration of the run, the shell defaulting to
/// the system's standard shell and the mode to raw, or nothing when
/// help was asked for.
pub open spec fn spec_parse_args(args: Seq<Seq<char>>) -> Option<(Seq<char>, WriterMode)> {
    match spec_parse(args, 0, None, WriterMode::Raw) {
        None => None,
        Some(p) => Some(
            (
                match p.0 {
                    Some(s) => s,
                    None => "/bin/bash"@,
                },
                p.1,
            ),
        ),
    }
}

/// Parse the argument list into a run configuration, or into nothing
/// when the help flag asks to suppress the run.
pub fn parse_args(args: &Vec<String>) -> (r: Option<Config>)
    ensures
        r is Some <==> spec_parse_args(args.deep_view()) is Some,
        r matches Some(c) ==> spec_parse_args(args.deep_view()) == Some((c.shell@, c.mode)),
{
    let flag_shell: String = "--shell".to_owned();
    let flag_mode: String = "--mod".to_owned();
    let flag_help: String = "--help".to_owned();
    let val_str: String = "str".to_owned();
    let val_bytes: String = "bytes".to_owned();
    let ghost dv = args.deep_view();
    let n: usize = args.len();
    let mut shell: Option<String> = None;
    let mut mode: WriterMode = WriterMode::Raw;
    let mut i: usize = 0;
    while i < n
        invariant_except_break
            i <= n == args@.len(),
            dv == args.deep_view(),
            flag_shell@ == "--shell"@,
            flag_mode@ == "--mod"@,
            flag_help@ == "--help"@,
            val_str@ == "str"@,
            val_bytes@ == "bytes"@,
            spec_parse(dv, 0, None, WriterMode::Raw) == spec_parse(
                dv,
                i as int,
                shell.deep_view(),
                mode,
            ),
        ensures
            spec_parse(dv, 0, None, WriterMode::Raw) == Some((shell.deep_view(), mode)),
            flag_help@ == "--help"@,
        decreases n - i,
    {
        proof {
            assert(dv[i as int] == args@[i as int]@);
        }
        let a = &args[i];
        if String::eq(a, &flag_shell) {
            if i + 1 < n {
                proof {
                    assert(dv[i + 1] == args@[i + 1]@);
                }
                shell = Some(args[i + 1].clone());
                i = i + 2;
            } else {
                break;
            }
        } else if String::eq(a, &flag_mode) {
            if i + 1 < n {
                proof {
                    assert(dv[i + 1] == args@[i + 1]@);
                }
                let v = &args[i + 1];
                if String::eq(v, &val_str) {
                    mode = WriterMode::Raw;
                } else if String::eq(v, &val_bytes) {
                    mode = WriterMode::HexBytes;
                }
                i = i + 2;
            } else {
                break;
            }
        } else if String::eq(a, &flag_help) {
            return None;
        } else {
            i = i + 1;
        }
    }
    let sh: String = match shell {
        Some(s) => s,
        None => "/bin/bash".to_owned(),
    };
    Some(Config { shell: sh, mode })
}

} // verus!
