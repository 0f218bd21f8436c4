//! Command line: the options the program takes, and the rewriting of the
//! engine's traditional single-dash flags into double-dash ones.

use vstd::prelude::*;
use vstd::string::*;

verus! {

/// The options of the command line, once parsed.
#[derive(Debug)]
pub struct Cli {
    /// Path of the IWAD to load.
    pub iwad: Option<String>,
    /// Additional WAD files.
    pub file: Vec<String>,
    /// IWAD given as a bare argument.
    pub positional_iwad: Option<String>,
    /// Episode and map, or map alone, to start on.
    pub warp: Vec<u8>,
    /// Skill level.
    pub skill: Option<u8>,
    pub deathmatch: bool,
    pub respawn: bool,
    pub fast: bool,
    pub nomonsters: bool,
    /// Demo to record.
    pub record: Option<String>,
    /// Demo to play.
    pub playdemo: Option<String>,
    /// Demo to time.
    pub timedemo: Option<String>,
    /// Width of the window.
    pub width: u32,
    /// Height of the window.
    pub height: u32,
    pub fullscreen: bool,
}

/// The character is one of `a` to `z` or `A` to `Z`.
pub open spec fn is_ascii_letter(c: char) -> bool {
    ('a' <= c && c <= 'z') || ('A' <= c && c <= 'Z')
}

/// The argument is a traditional long flag: a single dash, then a letter,
/// then at least one more character, as in `-iwad`. A lone `-`, a short flag
/// such as `-f`, and anything that begins with `--` are not.
pub open spec fn is_legacy_flag(arg: Seq<char>) -> bool {
    &&& arg.len() > 2
    &&& arg[0] == '-'
    &&& arg[1] != '-'
    &&& is_ascii_letter(arg[1])
}

/// The argument with a traditional long flag given its second dash.
pub open spec fn normalized_arg(arg: Seq<char>) -> Seq<char> {
    if is_legacy_flag(arg) {
        seq!['-'] + arg
    } else {
        arg
    }
}

fn is_ascii_alphabetic(c: char) -> (b: bool)
    ensures
        b == is_ascii_letter(c),
{
    ('a' <= c && c <= 'z') || ('A' <= c && c <= 'Z')
}

/// Rewrites one argument: `-word` becomes `--word`, anything else stays.
pub fn normalize_arg(arg: &str) -> (out: String)
    ensures
        out@ == normalized_arg(arg@),
{
    let legacy = arg.unicode_len() > 2 && arg.get_char(0) == '-' && arg.get_char(1) != '-'
        && is_ascii_alphabetic(arg.get_char(1));
    if legacy {
        proof {
            reveal_strlit("-");
        }
        let mut out = String::from_str("-");
        out.append(arg);
        assert(out@ =~= seq!['-'] + arg@);
        out
    } else {
        String::from_str(arg)
    }
}

/// Rewrites the engine's traditional single-dash long flags, such as `-iwad`
/// and `-file`, to the double-dash form. Every argument keeps its place.
pub fn normalize_doom_args(args: Vec<String>) -> (out: Vec<String>)
    ensures
        out@.len() == args@.len(),
        forall|i: int| 0 <= i < args@.len() ==> #[trigger] out@[i]@ == normalized_arg(args@[i]@),
{
    let mut out: Vec<String> = Vec::new();
    let n: usize = args.len();
    let mut i: usize = 0;
    while i < n
        invariant
            n == args@.len(),
            i <= n,
            out@.len() == i,
            forall|j: int| 0 <= j < i ==> #[trigger] out@[j]@ == normalized_arg(args@[j]@),
        decreases n - i,
    {
        out.push(normalize_arg(args[i].as_str()));
        i = i + 1;
    }
    out
}

/// Rewriting is idempotent: an argument that has been rewritten is left alone
/// by a second pass.
pub proof fn lemma_normalize_idempotent(arg: Seq<char>)
    ensures
        normalized_arg(normalized_arg(arg)) == normalized_arg(arg),
{
    if is_legacy_flag(arg) {
        let once = seq!['-'] + arg;
        assert(once[1] == '-');
    }
}

/// Only traditional long flags change: `-`, `--`, short flags and arguments
/// that do not begin with a dash come out as they went in.
pub proof fn lemma_normalize_leaves_others(arg: Seq<char>)
    requires
        arg.len() <= 2 || arg[0] != '-' || arg[1] == '-',
    ensures
        normalized_arg(arg) == arg,
{
}

} // verus!
