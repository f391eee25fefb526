//! The command-line grammar: one line of user text becomes one typed
//! [`Command`] or a recoverable parse error. A command word is checked as
//! a prefix of the raw line; arguments are taken from the trimmed line;
//! and every malformed line is answered by an error, never a panic: a
//! missing argument and an unknown command word are both reported and the
//! line is discarded. Whether connect's address
//! text names a real endpoint is the transport substrate's to decide;
//! here it is carried as text.

use vstd::prelude::*;
use vstd::string::{StrSliceExecFns, StringExecFns};
use crate::peer::Multiaddress;
use crate::Command;

verus! {

/// Why a line parsed to no command.
#[derive(Clone, Copy, Debug, PartialEq, Eq, Structural)]
pub enum ParseError {
    /// The command word is there but its argument is not.
    MissingArgument,
    /// The line starts with no known command word.
    UnknownCommand,
}

/// The whitespace the grammar strips and splits on.
pub open spec fn is_space(c: char) -> bool {
    c == ' ' || c == '\t' || c == '\n' || c == '\r'
}

/// The first index at or after `from` holding whitespace, or the length:
/// the end of the token starting at `from`.
pub open spec fn token_end(s: Seq<char>, from: int) -> int
    decreases s.len() - from,
    when 0 <= from <= s.len()
{
    if from >= s.len() {
        s.len() as int
    } else if is_space(s[from]) {
        from
    } else {
        token_end(s, from + 1)
    }
}

/// The first index at or after `from` holding a non-whitespace character,
/// or the length: where the next token starts.
pub open spec fn skip_spaces(s: Seq<char>, from: int) -> int
    decreases s.len() - from,
    when 0 <= from <= s.len()
{
    if from >= s.len() {
        s.len() as int
    } else if is_space(s[from]) {
        skip_spaces(s, from + 1)
    } else {
        from
    }
}

/// The first index at or after `from` holding a literal space, or the
/// length. Argument tails split on the space character alone, not on
/// wider whitespace, so a path may begin with a tab or a second space.
pub open spec fn space_end(s: Seq<char>, from: int) -> int
    decreases s.len() - from,
    when 0 <= from <= s.len()
{
    if from >= s.len() {
        s.len() as int
    } else if s[from] == ' ' {
        from
    } else {
        space_end(s, from + 1)
    }
}

/// One past the last non-whitespace character strictly below `upto`, or
/// zero when there is none.
pub open spec fn trim_end_idx(s: Seq<char>, upto: int) -> int
    decreases upto,
    when 0 <= upto <= s.len()
{
    if upto <= 0 {
        0
    } else if is_space(s[upto - 1]) {
        trim_end_idx(s, upto - 1)
    } else {
        upto
    }
}

/// The line with leading and trailing whitespace stripped.
pub open spec fn spec_trim(s: Seq<char>) -> Seq<char> {
    let a = skip_spaces(s, 0);
    let b = trim_end_idx(s, s.len() as int);
    if a <= b {
        s.subrange(a, b)
    } else {
        Seq::empty()
    }
}

/// Whether `p` is a prefix of `s`.
pub open spec fn spec_starts_with(s: Seq<char>, p: Seq<char>) -> bool {
    p.len() <= s.len() && s.subrange(0, p.len() as int) == p
}

proof fn lemma_token_end_bounds(s: Seq<char>, from: int)
    requires
        0 <= from <= s.len(),
    ensures
        from <= token_end(s, from) <= s.len(),
    decreases s.len() - from,
{
    if from < s.len() && !is_space(s[from]) {
        lemma_token_end_bounds(s, from + 1);
    }
}

proof fn lemma_skip_spaces_bounds(s: Seq<char>, from: int)
    requires
        0 <= from <= s.len(),
    ensures
        from <= skip_spaces(s, from) <= s.len(),
    decreases s.len() - from,
{
    if from < s.len() && is_space(s[from]) {
        lemma_skip_spaces_bounds(s, from + 1);
    }
}

proof fn lemma_skip_spaces_char(s: Seq<char>, from: int)
    requires
        0 <= from <= s.len(),
    ensures
        skip_spaces(s, from) < s.len() ==> !is_space(s[skip_spaces(s, from)]),
    decreases s.len() - from,
{
    if from < s.len() && is_space(s[from]) {
        lemma_skip_spaces_char(s, from + 1);
    }
}

proof fn lemma_space_end_bounds(s: Seq<char>, from: int)
    requires
        0 <= from <= s.len(),
    ensures
        from <= space_end(s, from) <= s.len(),
    decreases s.len() - from,
{
    if from < s.len() && s[from] != ' ' {
        lemma_space_end_bounds(s, from + 1);
    }
}

proof fn lemma_trim_end_bounds(s: Seq<char>, upto: int)
    requires
        0 <= upto <= s.len(),
    ensures
        0 <= trim_end_idx(s, upto) <= upto,
    decreases upto,
{
    if upto > 0 && is_space(s[upto - 1]) {
        lemma_trim_end_bounds(s, upto - 1);
    }
}

/// Whether `c` is one of the whitespace characters the grammar strips.
fn is_space_char(c: char) -> (r: bool)
    ensures
        r == is_space(c),
{
    c == ' ' || c == '\t' || c == '\n' || c == '\r'
}

/// The end of the token starting at `from`, per [`token_end`].
fn scan_token_end(s: &str, from: usize) -> (r: usize)
    requires
        from <= s@.len(),
    ensures
        r == token_end(s@, from as int),
        from <= r <= s@.len(),
{
    let n: usize = s.unicode_len();
    let mut i: usize = from;
    while i < n && !is_space_char(s.get_char(i))
        invariant
            from <= i <= n,
            n == s@.len(),
            token_end(s@, from as int) == token_end(s@, i as int),
        decreases n - i,
    {
        i = i + 1;
    }
    proof {
        lemma_token_end_bounds(s@, i as int);
    }
    i
}

/// Where the next token starts at or after `from`, per [`skip_spaces`].
fn scan_skip_spaces(s: &str, from: usize) -> (r: usize)
    requires
        from <= s@.len(),
    ensures
        r == skip_spaces(s@, from as int),
        from <= r <= s@.len(),
{
    let n: usize = s.unicode_len();
    let mut i: usize = from;
    while i < n && is_space_char(s.get_char(i))
        invariant
            from <= i <= n,
            n == s@.len(),
            skip_spaces(s@, from as int) == skip_spaces(s@, i as int),
        decreases n - i,
    {
        i = i + 1;
    }
    proof {
        lemma_skip_spaces_bounds(s@, i as int);
    }
    i
}

/// The first literal space at or after `from`, per [`space_end`].
fn scan_space_end(s: &str, from: usize) -> (r: usize)
    requires
        from <= s@.len(),
    ensures
        r == space_end(s@, from as int),
        from <= r <= s@.len(),
{
    let n: usize = s.unicode_len();
    let mut i: usize = from;
    while i < n && s.get_char(i) != ' '
        invariant
            from <= i <= n,
            n == s@.len(),
            space_end(s@, from as int) == space_end(s@, i as int),
        decreases n - i,
    {
        i = i + 1;
    }
    proof {
        lemma_space_end_bounds(s@, i as int);
    }
    i
}

/// The line without leading and trailing whitespace, per [`spec_trim`].
fn trim_of<'a>(s: &'a str) -> (t: &'a str)
    ensures
        t@ == spec_trim(s@),
{
    let n: usize = s.unicode_len();
    let a: usize = scan_skip_spaces(s, 0);
    proof {
        lemma_skip_spaces_bounds(s@, 0);
    }
    let mut b: usize = n;
    while b > a && is_space_char(s.get_char(b - 1))
        invariant
            a <= b <= n,
            n == s@.len(),
            a == skip_spaces(s@, 0),
            trim_end_idx(s@, n as int) == trim_end_idx(s@, b as int),
            forall|k: int| b <= k < n ==> is_space(#[trigger] s@[k]),
        decreases b,
    {
        b = b - 1;
    }
    proof {
        lemma_trim_end_bounds(s@, b as int);
        if b > a {
            assert(!is_space(s@[b - 1]));
            assert(trim_end_idx(s@, b as int) == b as int);
        } else {
            if a < n {
                lemma_skip_spaces_char(s@, 0);
                assert(is_space(s@[a as int]));
                assert(false);
            }
            lemma_trim_end_bounds(s@, s@.len() as int);
            assert(spec_trim(s@) =~= s@.subrange(a as int, b as int));
        }
    }
    s.substring_char(a, b)
}

/// Whether `p` is a prefix of `s`, per [`spec_starts_with`].
fn starts_with_str(s: &str, p: &str) -> (r: bool)
    ensures
        r == spec_starts_with(s@, p@),
{
    let sn: usize = s.unicode_len();
    let pn: usize = p.unicode_len();
    if pn > sn {
        return false;
    }
    let mut i: usize = 0;
    while i < pn
        invariant
            i <= pn <= sn,
            sn == s@.len(),
            pn == p@.len(),
            forall|k: int| 0 <= k < i ==> s@[k] == p@[k],
        decreases pn - i,
    {
        if s.get_char(i) != p.get_char(i) {
            proof {
                assert(s@.subrange(0, pn as int)[i as int] != p@[i as int]);
            }
            return false;
        }
        i = i + 1;
    }
    proof {
        assert(s@.subrange(0, pn as int) =~= p@);
    }
    true
}

/// Whether the two strings hold the same characters.
fn str_eq(a: &str, b: &str) -> (r: bool)
    ensures
        r == (a@ == b@),
{
    let an: usize = a.unicode_len();
    let bn: usize = b.unicode_len();
    if an != bn {
        return false;
    }
    let mut i: usize = 0;
    while i < an
        invariant
            i <= an,
            an == a@.len(),
            an == b@.len(),
            forall|k: int| 0 <= k < i ==> a@[k] == b@[k],
        decreases an - i,
    {
        if a.get_char(i) != b.get_char(i) {
            return false;
        }
        i = i + 1;
    }
    proof {
        assert(a@ =~= b@);
    }
    true
}

/// What parsing the line `s` must yield. The command word is recognized
/// as a prefix of the raw line; arguments come from the trimmed line:
/// `connect` takes its second whitespace-separated token, `request` and
/// `send` take everything after the first literal space, `info` and
/// `accept` are the whole trimmed line. A known word without its argument
/// is a missing-argument error; anything else is an unknown command.
pub open spec fn spec_parse(s: Seq<char>, r: Result<Command, ParseError>) -> bool {
    let t = spec_trim(s);
    if spec_starts_with(s, "connect"@) {
        let e0 = token_end(t, 0);
        let a1 = skip_spaces(t, e0);
        let e1 = token_end(t, a1);
        if a1 < t.len() {
            r matches Ok(c) && c matches Command::Connect { remote } && remote@ == t.subrange(
                a1,
                e1,
            )
        } else {
            r == Err::<Command, ParseError>(ParseError::MissingArgument)
        }
    } else if spec_starts_with(s, "request"@) {
        let sp = space_end(t, 0);
        if sp < t.len() {
            r matches Ok(c) && c matches Command::Request { file_path } && file_path@
                == t.subrange(sp + 1, t.len() as int)
        } else {
            r == Err::<Command, ParseError>(ParseError::MissingArgument)
        }
    } else if spec_starts_with(s, "send"@) {
        let sp = space_end(t, 0);
        if sp < t.len() {
            r matches Ok(c) && c matches Command::Send { message } && message@ == t.subrange(
                sp + 1,
                t.len() as int,
            )
        } else {
            r == Err::<Command, ParseError>(ParseError::MissingArgument)
        }
    } else if t == "info"@ {
        r matches Ok(c) && c is Info
    } else if t == "accept"@ {
        r matches Ok(c) && c is Accept
    } else {
        r == Err::<Command, ParseError>(ParseError::UnknownCommand)
    }
}

/// The library's line parser. Reading lines is the surrounding
/// application's; this type owns only the grammar.
pub struct CommandParser;

impl CommandParser {
    /// Parses one line of user text, exactly as [`spec_parse`] says:
    /// every line gets a command or a recoverable error.
    pub fn parse(input: &str) -> (r: Result<Command, ParseError>)
        ensures
            spec_parse(input@, r),
    {
        let t: &str = trim_of(input);
        let n: usize = t.unicode_len();
        if starts_with_str(input, "connect") {
            let e0: usize = scan_token_end(t, 0);
            let a1: usize = scan_skip_spaces(t, e0);
            if a1 < n {
                let e1: usize = scan_token_end(t, a1);
                proof {
                    lemma_token_end_bounds(t@, a1 as int);
                }
                let remote_text: &str = t.substring_char(a1, e1);
                Ok(
                    Command::Connect {
                        remote: Multiaddress::new(String::from_str(remote_text)),
                    },
                )
            } else {
                Err(ParseError::MissingArgument)
            }
        } else if starts_with_str(input, "request") {
            let sp: usize = scan_space_end(t, 0);
            if sp < n {
                let path: &str = t.substring_char(sp + 1, n);
                Ok(Command::Request { file_path: String::from_str(path) })
            } else {
                Err(ParseError::MissingArgument)
            }
        } else if starts_with_str(input, "send") {
            let sp: usize = scan_space_end(t, 0);
            if sp < n {
                let message: &str = t.substring_char(sp + 1, n);
                Ok(Command::Send { message: String::from_str(message) })
            } else {
                Err(ParseError::MissingArgument)
            }
        } else if str_eq(t, "info") {
            Ok(Command::Info)
        } else if str_eq(t, "accept") {
            Ok(Command::Accept)
        } else {
            Err(ParseError::UnknownCommand)
        }
    }
}

} // verus!
