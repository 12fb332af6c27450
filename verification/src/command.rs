//! The command grammar of the protocol.
//!
//! Every inbound frame carries one quoted string literal. Inner quotes are
//! escaped as a backslash-quote pair, and the raw data block of `add` is
//! fenced by three such pairs. The grammar per verb:
//!
//! - `"version"`, `"help"`, `"mount"`, `"exit"` — exact literals;
//! - `"list"`, or `"list --path \"P\""` — any other text starting with
//!   `"list` also lists, with the default root (the path clause is taken
//!   only when it is well formed);
//! - `"open --loc \"LOC\""`;
//! - `"rm --name \"NAME\""` or `"rm --path \"PATH\""`;
//! - `"add --name \"N\" --format \"F\" [--path \"P\"] --data \"\"\"D\"\"\""`,
//!   where `D` is a comma-separated list of byte values and trailing
//!   backslash-slash pairs of `D` are stripped;
//! - anything else is `Unknown` and is echoed back by the dispatcher.
//!
//! A message that starts with a known verb but does not fit its grammar is a
//! format error, answered with a structured "invalid format" response.

use vstd::prelude::*;
use vstd::string::StrSliceExecFns;

use crate::text::{
    chars_of, find_from, has_lit_at, eq_lit, lit_at, skip_ws, spec_find_from, spec_skip_ws,
};

verus! {

/// One parsed command, constructed fresh from each inbound frame.
#[derive(Debug)]
pub enum Command {
    Version,
    Help,
    Mount,
    Exit,
    /// Recursive listing, rooted at `path` under the mount point when given.
    List { path: Option<String> },
    /// Read one file at an absolute location, returned base64-encoded.
    Open { loc: String },
    /// Delete one file: by name under the mount point, or by full path.
    Remove { arg: String, by_name: bool },
    /// Write a file `name.format` under the mount point (or `path` below it)
    /// from a comma-separated byte list.
    Add { name: String, format: String, path: Option<String>, data: String },
    /// Anything else; the dispatcher echoes it back.
    Unknown { raw: String },
}

/// The mathematical value of a [`Command`].
pub enum CommandView {
    Version,
    Help,
    Mount,
    Exit,
    List { path: Option<Seq<char>> },
    Open { loc: Seq<char> },
    Remove { arg: Seq<char>, by_name: bool },
    Add { name: Seq<char>, format: Seq<char>, path: Option<Seq<char>>, data: Seq<char> },
    Unknown { raw: Seq<char> },
}

impl View for Command {
    type V = CommandView;

    open spec fn view(&self) -> CommandView {
        match self {
            Command::Version => CommandView::Version,
            Command::Help => CommandView::Help,
            Command::Mount => CommandView::Mount,
            Command::Exit => CommandView::Exit,
            Command::List { path } => CommandView::List {
                path: match path {
                    Some(p) => Some(p@),
                    None => None,
                },
            },
            Command::Open { loc } => CommandView::Open { loc: loc@ },
            Command::Remove { arg, by_name } => CommandView::Remove {
                arg: arg@,
                by_name: *by_name,
            },
            Command::Add { name, format, path, data } => CommandView::Add {
                name: name@,
                format: format@,
                path: match path {
                    Some(p) => Some(p@),
                    None => None,
                },
                data: data@,
            },
            Command::Unknown { raw } => CommandView::Unknown { raw: raw@ },
        }
    }
}

/// A grammar mismatch, by verb.
#[derive(Debug, Clone, Copy, PartialEq, Eq, Structural)]
pub enum CommandFormatError {
    Open,
    Remove,
    Add,
}

/// One quoted argument value at position `i`: a backslash-quote pair, one or
/// more characters other than `"`, and a closing backslash-quote pair. Yields
/// the value and the position just past the closing pair.
pub open spec fn spec_arg_at(s: Seq<char>, i: int) -> Option<(Seq<char>, int)> {
    if lit_at(s, i, "\\\""@) {
        let j = spec_find_from(s, i + 2, '"');
        if j < s.len() && i + 4 <= j && s[j - 1] == '\\' {
            Some((s.subrange(i + 2, j - 1), j + 1))
        } else {
            None
        }
    } else {
        None
    }
}

/// The location argument of a well-formed `open` message (which starts with
/// `"open`): whitespace, `--loc`, whitespace, one argument, and the closing
/// quote of the message.
pub open spec fn spec_parse_open(s: Seq<char>) -> Option<Seq<char>> {
    let i1 = spec_skip_ws(s, 5);
    if i1 == 5 || !lit_at(s, i1, "--loc"@) {
        None
    } else {
        let i2 = spec_skip_ws(s, i1 + 5);
        if i2 == i1 + 5 {
            None
        } else {
            match spec_arg_at(s, i2) {
                Some((val, next)) => if next + 1 == s.len() && s[next] == '"' {
                    Some(val)
                } else {
                    None
                },
                None => None,
            }
        }
    }
}

/// The target of a well-formed `rm` message (which starts with `"rm`): the
/// argument of `--name` or of `--path`, and whether it was `--name`.
pub open spec fn spec_parse_rm(s: Seq<char>) -> Option<(Seq<char>, bool)> {
    let i1 = spec_skip_ws(s, 3);
    if i1 == 3 {
        None
    } else {
        let by_name = lit_at(s, i1, "--name"@);
        if !by_name && !lit_at(s, i1, "--path"@) {
            None
        } else {
            let i2 = spec_skip_ws(s, i1 + 6);
            if i2 == i1 + 6 {
                None
            } else {
                match spec_arg_at(s, i2) {
                    Some((val, next)) => if next + 1 == s.len() && s[next] == '"' {
                        Some((val, by_name))
                    } else {
                        None
                    },
                    None => None,
                }
            }
        }
    }
}

/// The path argument of a `list` message (which starts with `"list`), when
/// the whole message is the well-formed `--path` form; anything else lists
/// the default root.
pub open spec fn spec_parse_list(s: Seq<char>) -> Option<Seq<char>> {
    let i1 = spec_skip_ws(s, 5);
    if i1 == 5 || !lit_at(s, i1, "--path"@) {
        None
    } else {
        let i2 = spec_skip_ws(s, i1 + 6);
        if i2 == i1 + 6 {
            None
        } else {
            match spec_arg_at(s, i2) {
                Some((val, next)) => if next + 1 == s.len() && s[next] == '"' {
                    Some(val)
                } else {
                    None
                },
                None => None,
            }
        }
    }
}

/// The data fence: three backslash-quote pairs.
pub open spec fn spec_fence() -> Seq<char> {
    "\\\"\\\"\\\""@
}

/// The position of the first fence at or after `i` (`s.len()` when none).
pub open spec fn spec_find_fence(s: Seq<char>, i: int) -> int
    decreases s.len() - i,
{
    if i < s.len() {
        if lit_at(s, i, spec_fence()) {
            i
        } else {
            spec_find_fence(s, i + 1)
        }
    } else {
        s.len() as int
    }
}

/// Strips every trailing backslash-slash pair, as the raw data block of a
/// well-formed `add` message carries them only as an escaping artifact.
pub open spec fn spec_trim_bs_slash(s: Seq<char>) -> Seq<char>
    decreases s.len(),
{
    if s.len() >= 2 && s[s.len() - 2] == '\\' && s[s.len() - 1] == '/' {
        spec_trim_bs_slash(s.subrange(0, s.len() - 2))
    } else {
        s
    }
}

/// The data block at position `i` of an `add` message: `--data`, whitespace,
/// a fence, the raw block up to the first closing fence, and the closing
/// quote of the message.
pub open spec fn spec_parse_data(s: Seq<char>, i: int) -> Option<Seq<char>> {
    if !lit_at(s, i, "--data"@) {
        None
    } else {
        let i8 = spec_skip_ws(s, i + 6);
        if i8 == i + 6 || !lit_at(s, i8, spec_fence()) {
            None
        } else {
            let f = spec_find_fence(s, i8 + 6);
            if f < s.len() && f + 7 == s.len() && s[f + 6] == '"' {
                Some(spec_trim_bs_slash(s.subrange(i8 + 6, f)))
            } else {
                None
            }
        }
    }
}

/// The fields of a well-formed `add` message (which starts with `"add`):
/// name, format, optional path, and the trimmed raw data block.
pub open spec fn spec_parse_add(s: Seq<char>) -> Option<
    (Seq<char>, Seq<char>, Option<Seq<char>>, Seq<char>),
> {
    let i1 = spec_skip_ws(s, 4);
    if i1 == 4 || !lit_at(s, i1, "--name"@) {
        None
    } else {
        let i2 = spec_skip_ws(s, i1 + 6);
        if i2 == i1 + 6 {
            None
        } else {
            match spec_arg_at(s, i2) {
                None => None,
                Some((name, p1)) => {
                    let i3 = spec_skip_ws(s, p1);
                    if i3 == p1 || !lit_at(s, i3, "--format"@) {
                        None
                    } else {
                        let i4 = spec_skip_ws(s, i3 + 8);
                        if i4 == i3 + 8 {
                            None
                        } else {
                            match spec_arg_at(s, i4) {
                                None => None,
                                Some((format, p2)) => {
                                    let i5 = spec_skip_ws(s, p2);
                                    if i5 == p2 {
                                        None
                                    } else if lit_at(s, i5, "--path"@) {
                                        let i6 = spec_skip_ws(s, i5 + 6);
                                        if i6 == i5 + 6 {
                                            None
                                        } else {
                                            match spec_arg_at(s, i6) {
                                                None => None,
                                                Some((path, p3)) => {
                                                    let i7 = spec_skip_ws(s, p3);
                                                    if i7 == p3 {
                                                        None
                                                    } else {
                                                        match spec_parse_data(s, i7) {
                                                            None => None,
                                                            Some(data) => Some(
                                                                (name, format, Some(path), data),
                                                            ),
                                                        }
                                                    }
                                                },
                                            }
                                        }
                                    } else {
                                        match spec_parse_data(s, i5) {
                                            None => None,
                                            Some(data) => Some((name, format, None, data)),
                                        }
                                    }
                                },
                            }
                        }
                    }
                },
            }
        }
    }
}

/// The grammar as a whole: exact literals first, then the prefixed verbs,
/// then the echoed fallback.
pub open spec fn spec_parse_command(s: Seq<char>) -> Result<CommandView, CommandFormatError> {
    if s == "\"version\""@ {
        Ok(CommandView::Version)
    } else if s == "\"help\""@ {
        Ok(CommandView::Help)
    } else if s == "\"mount\""@ {
        Ok(CommandView::Mount)
    } else if s == "\"exit\""@ {
        Ok(CommandView::Exit)
    } else if lit_at(s, 0, "\"list"@) {
        Ok(CommandView::List { path: spec_parse_list(s) })
    } else if lit_at(s, 0, "\"open"@) {
        match spec_parse_open(s) {
            Some(loc) => Ok(CommandView::Open { loc }),
            None => Err(CommandFormatError::Open),
        }
    } else if lit_at(s, 0, "\"rm"@) {
        match spec_parse_rm(s) {
            Some((arg, by_name)) => Ok(CommandView::Remove { arg, by_name }),
            None => Err(CommandFormatError::Remove),
        }
    } else if lit_at(s, 0, "\"add"@) {
        match spec_parse_add(s) {
            Some((name, format, path, data)) => Ok(
                CommandView::Add { name, format, path, data },
            ),
            None => Err(CommandFormatError::Add),
        }
    } else {
        Ok(CommandView::Unknown { raw: s })
    }
}

/// The view of a parse result, for stating [`parse_command`]'s contract.
pub open spec fn spec_of_result(r: Result<Command, CommandFormatError>) -> Result<
    CommandView,
    CommandFormatError,
> {
    match r {
        Ok(c) => Ok(c@),
        Err(e) => Err(e),
    }
}

/// Parses one quoted argument at position `i` of the message.
pub fn parse_arg(msg: &str, v: &Vec<char>, i: usize) -> (r: Option<(String, usize)>)
    requires
        v@ == msg@,
        i <= v@.len(),
    ensures
        match r {
            Some((val, next)) => spec_arg_at(v@, i as int) == Some((val@, next as int)) && i
                < next <= v@.len(),
            None => spec_arg_at(v@, i as int) is None,
        },
{
    proof {
        reveal_strlit("\\\"");
    }
    let n = v.len();
    if !has_lit_at(v, i, "\\\"") {
        return None;
    }
    let j = find_from(v, i + 2, '"');
    proof {
        crate::text::lemma_spec_find_from_bounds(v@, i + 2, '"');
    }
    if j < n && j - i >= 4 && v[j - 1] == '\\' {
        let val = msg.substring_char(i + 2, j - 1).to_owned();
        Some((val, j + 1))
    } else {
        None
    }
}

/// Parses the tail shared by `open`, `rm` and `list`: whitespace, the given
/// flag, whitespace, one argument, and the closing quote of the message.
/// `start` is the position just past the verb; `flag` is `--loc`, `--name`
/// or `--path`.
fn parse_flag_arg_tail(msg: &str, v: &Vec<char>, start: usize, flag: &str) -> (r: Option<String>)
    requires
        v@ == msg@,
        start <= v@.len(),
        flag@.len() == 5 || flag@.len() == 6,
    ensures
        ({
            let i1 = spec_skip_ws(v@, start as int);
            let tail = if i1 == start || !lit_at(v@, i1, flag@) {
                None::<Seq<char>>
            } else {
                let i2 = spec_skip_ws(v@, i1 + flag@.len());
                if i2 == i1 + flag@.len() {
                    None
                } else {
                    match spec_arg_at(v@, i2) {
                        Some((val, next)) => if next + 1 == v@.len() && v@[next] == '"' {
                            Some(val)
                        } else {
                            None
                        },
                        None => None,
                    }
                }
            };
            match r {
                Some(val) => tail == Some(val@),
                None => tail is None,
            }
        }),
{
    let n = v.len();
    let i1 = skip_ws(v, start);
    if i1 == start || !has_lit_at(v, i1, flag) {
        return None;
    }
    let flag_len = flag.unicode_len();
    proof {
        crate::text::lemma_spec_skip_ws_bounds(v@, start as int);
    }
    let i2 = skip_ws(v, i1 + flag_len);
    if i2 == i1 + flag_len {
        return None;
    }
    match parse_arg(msg, v, i2) {
        Some((val, next)) => {
            if next < v.len() && v.len() - next == 1 && v[next] == '"' {
                Some(val)
            } else {
                None
            }
        },
        None => None,
    }
}

/// Finds the first fence at or after `i`.
fn find_fence(v: &Vec<char>, i: usize) -> (r: usize)
    requires
        i <= v@.len(),
    ensures
        r == spec_find_fence(v@, i as int),
        i <= r <= v@.len(),
{
    proof {
        reveal_strlit("\\\"\\\"\\\"");
    }
    let mut j: usize = i;
    while j < v.len() && !has_lit_at(v, j, "\\\"\\\"\\\"")
        invariant
            i <= j <= v@.len(),
            spec_find_fence(v@, i as int) == spec_find_fence(v@, j as int),
        decreases v@.len() - j,
    {
        j = j + 1;
    }
    proof {
        reveal_strlit("\\\"\\\"\\\"");
        if j < v@.len() {
            assert(lit_at(v@, j as int, spec_fence()));
        }
    }
    j
}

/// Parses the data block at position `i`, yielding the trimmed raw block.
fn parse_data(msg: &str, v: &Vec<char>, i: usize) -> (r: Option<String>)
    requires
        v@ == msg@,
        i <= v@.len(),
    ensures
        match r {
            Some(data) => spec_parse_data(v@, i as int) == Some(data@),
            None => spec_parse_data(v@, i as int) is None,
        },
{
    proof {
        reveal_strlit("--data");
        reveal_strlit("\\\"\\\"\\\"");
    }
    let n = v.len();
    if !has_lit_at(v, i, "--data") {
        return None;
    }
    let i8 = skip_ws(v, i + 6);
    if i8 == i + 6 || !has_lit_at(v, i8, "\\\"\\\"\\\"") {
        return None;
    }
    let f = find_fence(v, i8 + 6);
    if !(f < n && n - f == 7 && v[f + 6] == '"') {
        return None;
    }
    let d0 = i8 + 6;
    let mut end: usize = f;
    proof {
        assert(v@.subrange(d0 as int, end as int) == v@.subrange(d0 as int, f as int));
    }
    while end - d0 >= 2 && v[end - 2] == '\\' && v[end - 1] == '/'
        invariant
            d0 <= end <= v@.len(),
            spec_trim_bs_slash(v@.subrange(d0 as int, f as int)) == spec_trim_bs_slash(
                v@.subrange(d0 as int, end as int),
            ),
        decreases end,
    {
        proof {
            let cur = v@.subrange(d0 as int, end as int);
            assert(cur.subrange(0, cur.len() - 2) =~= v@.subrange(d0 as int, end - 2));
        }
        end = end - 2;
    }
    let data = msg.substring_char(d0, end).to_owned();
    proof {
        let cur = v@.subrange(d0 as int, end as int);
        assert(!(cur.len() >= 2 && cur[cur.len() - 2] == '\\' && cur[cur.len() - 1] == '/'));
        assert(data@ == spec_trim_bs_slash(v@.subrange(d0 as int, f as int)));
    }
    Some(data)
}

/// Parses the tail of an `add` message, past the verb.
fn parse_add_tail(msg: &str, v: &Vec<char>) -> (r: Option<
    (String, String, Option<String>, String),
>)
    requires
        v@ == msg@,
        4 <= v@.len(),
    ensures
        match r {
            Some((name, format, path, data)) => spec_parse_add(v@) == Some(
                (
                    name@,
                    format@,
                    match path {
                        Some(p) => Some(p@),
                        None => None,
                    },
                    data@,
                ),
            ),
            None => spec_parse_add(v@) is None,
        },
{
    proof {
        reveal_strlit("--name");
        reveal_strlit("--format");
        reveal_strlit("--path");
    }
    let n = v.len();
    let i1 = skip_ws(v, 4);
    if i1 == 4 || !has_lit_at(v, i1, "--name") {
        return None;
    }
    let i2 = skip_ws(v, i1 + 6);
    if i2 == i1 + 6 {
        return None;
    }
    let (name, p1) = match parse_arg(msg, v, i2) {
        Some(x) => x,
        None => {
            return None;
        },
    };
    let i3 = skip_ws(v, p1);
    if i3 == p1 || !has_lit_at(v, i3, "--format") {
        return None;
    }
    let i4 = skip_ws(v, i3 + 8);
    if i4 == i3 + 8 {
        return None;
    }
    let (format, p2) = match parse_arg(msg, v, i4) {
        Some(x) => x,
        None => {
            return None;
        },
    };
    let i5 = skip_ws(v, p2);
    if i5 == p2 {
        return None;
    }
    if has_lit_at(v, i5, "--path") {
        let i6 = skip_ws(v, i5 + 6);
        if i6 == i5 + 6 {
            return None;
        }
        let (path, p3) = match parse_arg(msg, v, i6) {
            Some(x) => x,
            None => {
                return None;
            },
        };
        let i7 = skip_ws(v, p3);
        if i7 == p3 {
            return None;
        }
        match parse_data(msg, v, i7) {
            Some(data) => Some((name, format, Some(path), data)),
            None => None,
        }
    } else {
        match parse_data(msg, v, i5) {
            Some(data) => Some((name, format, None, data)),
            None => None,
        }
    }
}

/// Parses the tail of an `rm` message, past the verb.
fn parse_rm_tail(msg: &str, v: &Vec<char>) -> (r: Option<(String, bool)>)
    requires
        v@ == msg@,
        3 <= v@.len(),
    ensures
        match r {
            Some((arg, by_name)) => spec_parse_rm(v@) == Some((arg@, by_name)),
            None => spec_parse_rm(v@) is None,
        },
{
    proof {
        reveal_strlit("--name");
        reveal_strlit("--path");
    }
    let n = v.len();
    let i1 = skip_ws(v, 3);
    if i1 == 3 {
        return None;
    }
    let by_name = has_lit_at(v, i1, "--name");
    if !by_name && !has_lit_at(v, i1, "--path") {
        return None;
    }
    let i2 = skip_ws(v, i1 + 6);
    if i2 == i1 + 6 {
        return None;
    }
    match parse_arg(msg, v, i2) {
        Some((val, next)) => {
            if next < n && n - next == 1 && v[next] == '"' {
                Some((val, by_name))
            } else {
                None
            }
        },
        None => None,
    }
}

/// A decimal digit.
pub open spec fn is_digit_char(c: char) -> bool {
    0x30 <= c as u32 && c as u32 <= 0x39
}

/// The value of a digit string, most significant digit first.
pub open spec fn spec_digits_val(s: Seq<char>) -> int
    decreases s.len(),
{
    if s.len() == 0 {
        0
    } else {
        spec_digits_val(s.drop_last()) * 10 + (s[s.len() - 1] as u32 - 0x30)
    }
}

pub open spec fn all_digits(s: Seq<char>) -> bool {
    forall|i: int| 0 <= i < s.len() ==> is_digit_char(s[i])
}

/// One token of the byte list, as an unsigned byte value: an optional `+`,
/// then one or more digits, with a value of at most 255. Anything else is
/// not a byte value and is skipped by the lenient decode.
pub open spec fn spec_u8_token(t: Seq<char>) -> Option<u8> {
    let body = if t.len() > 0 && t[0] == '+' {
        t.drop_first()
    } else {
        t
    };
    if body.len() > 0 && all_digits(body) && spec_digits_val(body) <= 255 {
        Some(spec_digits_val(body) as u8)
    } else {
        None
    }
}

pub open spec fn spec_token_bytes(t: Seq<char>) -> Seq<u8> {
    match spec_u8_token(t) {
        Some(b) => seq![b],
        None => Seq::empty(),
    }
}

/// The bytes decoded from a comma-separated list: each token that is a byte
/// value contributes one byte, and every other token is silently skipped.
/// The skipping is a deliberate lenient-decode policy of the protocol.
pub open spec fn spec_decode_byte_list(s: Seq<char>) -> Seq<u8>
    decreases s.len(),
{
    let j = spec_find_from(s, 0, ',');
    if 0 <= j && j < s.len() {
        spec_token_bytes(s.subrange(0, j)) + spec_decode_byte_list(s.subrange(j + 1, s.len() as int))
    } else {
        spec_token_bytes(s)
    }
}

/// Parses the token in `[start, end)` as a byte value.
fn parse_u8_range(v: &Vec<char>, start: usize, end: usize) -> (r: Option<u8>)
    requires
        start <= end <= v@.len(),
    ensures
        r == spec_u8_token(v@.subrange(start as int, end as int)),
{
    let ghost tok = v@.subrange(start as int, end as int);
    let t0 = if start < end && v[start] == '+' {
        start + 1
    } else {
        start
    };
    let ghost body = v@.subrange(t0 as int, end as int);
    proof {
        if start < t0 {
            assert(body =~= tok.drop_first());
        } else {
            assert(body =~= tok);
        }
    }
    if t0 == end {
        return None;
    }
    let mut acc: u32 = 0;
    let mut k: usize = t0;
    while k < end
        invariant
            start <= t0 <= k <= end <= v@.len(),
            tok == v@.subrange(start as int, end as int),
            body == (if tok.len() > 0 && tok[0] == '+' {
                tok.drop_first()
            } else {
                tok
            }),
            body == v@.subrange(t0 as int, end as int),
            all_digits(v@.subrange(t0 as int, k as int)),
            (spec_digits_val(v@.subrange(t0 as int, k as int)) <= 255 && acc == spec_digits_val(
                v@.subrange(t0 as int, k as int),
            )) || (spec_digits_val(v@.subrange(t0 as int, k as int)) > 255 && 255 < acc <= 2559),
        decreases end - k,
    {
        let u = v[k] as u32;
        if u < 0x30 || u > 0x39 {
            proof {
                assert(!is_digit_char(body[k - t0]));
            }
            return None;
        }
        let d = u - 0x30;
        let ghost prev = v@.subrange(t0 as int, k as int);
        if acc <= 255 {
            acc = acc * 10 + d;
        }
        k = k + 1;
        proof {
            let cur = v@.subrange(t0 as int, k as int);
            assert(cur.drop_last() =~= prev);
            assert(forall|i: int| 0 <= i < cur.len() ==> is_digit_char(cur[i]));
        }
    }
    proof {
        assert(body =~= v@.subrange(t0 as int, end as int));
    }
    if acc <= 255 {
        Some(acc as u8)
    } else {
        None
    }
}

/// Decodes a comma-separated byte list, skipping tokens that are not byte
/// values.
pub fn decode_byte_list(data: &str) -> (r: Vec<u8>)
    ensures
        r@ == spec_decode_byte_list(data@),
{
    let v = chars_of(data);
    let n = v.len();
    let mut r: Vec<u8> = Vec::new();
    let mut pos: usize = 0;
    proof {
        assert(v@.subrange(0, n as int) =~= data@);
        assert(r@ + spec_decode_byte_list(data@) =~= spec_decode_byte_list(data@));
    }
    loop
        invariant
            pos <= n,
            n == v@.len(),
            v@ == data@,
            spec_decode_byte_list(data@) == r@ + spec_decode_byte_list(
                v@.subrange(pos as int, n as int),
            ),
        decreases n - pos,
    {
        let ghost rest = v@.subrange(pos as int, n as int);
        let ghost r_old = r@;
        let j = find_from(&v, pos, ',');
        proof {
            crate::text::lemma_spec_find_from_bounds(v@, pos as int, ',');
            assert forall|k: int| 0 <= k < j - pos implies rest[k] != ',' by {
                assert(rest[k] == v@[pos + k]);
            }
            if j < n {
                assert(rest[j - pos] == ',');
            }
            crate::text::lemma_spec_find_from_is(rest, 0, ',', j - pos);
        }
        if j < n {
            let ghost token = v@.subrange(pos as int, j as int);
            let ghost tail = v@.subrange(j + 1, n as int);
            proof {
                assert(rest.subrange(0, j - pos) =~= token);
                assert(rest.subrange(j - pos + 1, rest.len() as int) =~= tail);
                assert(spec_decode_byte_list(rest) == spec_token_bytes(token)
                    + spec_decode_byte_list(tail));
            }
            match parse_u8_range(&v, pos, j) {
                Some(b) => {
                    r.push(b);
                    proof {
                        assert(r@ =~= r_old + spec_token_bytes(token));
                    }
                },
                None => {
                    proof {
                        assert(r@ =~= r_old + spec_token_bytes(token));
                    }
                },
            }
            pos = j + 1;
            proof {
                assert(r@ + spec_decode_byte_list(tail) =~= r_old + (spec_token_bytes(token)
                    + spec_decode_byte_list(tail)));
            }
        } else {
            proof {
                assert(rest =~= v@.subrange(pos as int, n as int));
                assert(spec_decode_byte_list(rest) == spec_token_bytes(rest));
            }
            match parse_u8_range(&v, pos, n) {
                Some(b) => {
                    r.push(b);
                },
                None => {},
            }
            proof {
                assert(r@ =~= r_old + spec_token_bytes(rest));
            }
            return r;
        }
    }
}

/// Parses one inbound message into a [`Command`], or reports the verb whose
/// grammar it does not fit.
pub fn parse_command(msg: &str) -> (r: Result<Command, CommandFormatError>)
    ensures
        spec_of_result(r) == spec_parse_command(msg@),
{
    let v = chars_of(msg);
    if eq_lit(&v, "\"version\"") {
        return Ok(Command::Version);
    }
    if eq_lit(&v, "\"help\"") {
        return Ok(Command::Help);
    }
    if eq_lit(&v, "\"mount\"") {
        return Ok(Command::Mount);
    }
    if eq_lit(&v, "\"exit\"") {
        return Ok(Command::Exit);
    }
    if has_lit_at(&v, 0, "\"list") {
        proof {
            reveal_strlit("\"list");
            reveal_strlit("--path");
        }
        let path = parse_flag_arg_tail(msg, &v, 5, "--path");
        return Ok(Command::List { path });
    }
    if has_lit_at(&v, 0, "\"open") {
        proof {
            reveal_strlit("\"open");
            reveal_strlit("--loc");
        }
        return match parse_flag_arg_tail(msg, &v, 5, "--loc") {
            Some(loc) => Ok(Command::Open { loc }),
            None => Err(CommandFormatError::Open),
        };
    }
    if has_lit_at(&v, 0, "\"rm") {
        proof {
            reveal_strlit("\"rm");
        }
        return match parse_rm_tail(msg, &v) {
            Some((arg, by_name)) => Ok(Command::Remove { arg, by_name }),
            None => Err(CommandFormatError::Remove),
        };
    }
    if has_lit_at(&v, 0, "\"add") {
        proof {
            reveal_strlit("\"add");
        }
        return match parse_add_tail(msg, &v) {
            Some((name, format, path, data)) => Ok(Command::Add { name, format, path, data }),
            None => Err(CommandFormatError::Add),
        };
    }
    Ok(Command::Unknown { raw: msg.to_owned() })
}

} // verus!
