//! The messages between the print loop and the window, and the choice of
//! how the program runs.
use vstd::prelude::*;
use crate::job::Job;

verus! {

/// What the print loop tells the window.
#[derive(Debug)]
pub enum Message {
    /// The server waits for a print stream.
    WaitSocket,
    /// The user must sign in at this URL.
    QRCode(String),
    /// The job must be confirmed.
    CheckJob(Job),
    /// The job was submitted.
    Success,
}

/// What the window tells the print loop.
#[derive(Debug, Clone, Copy, PartialEq, Eq, Structural)]
pub enum AppMessage {
    /// Listen on this port.
    Port(u16),
    /// Submit the job (`true`) or drop it (`false`).
    Confirm(bool),
}

/// The port the server listens on unless the window says otherwise.
pub const DEFAULT_PORT: u16 = 6981;

/// How the program runs.
#[derive(Debug)]
pub enum OS {
    /// As the Windows client's print handler, for a job queued at a printer:
    /// the job id and the printer name.
    Windows((u32, String)),
    /// As a print server.
    Others,
}

/// The first capture group of the first match of the regular expression
/// `pattern` in `haystack`, as the `regex` crate finds it: `None` when the
/// pattern does not compile, `Some(None)` when nothing matches or the group
/// takes no part in the match.
pub uninterp spec fn regex_first_group(pattern: Seq<char>, haystack: Seq<char>) -> Option<
    Option<Seq<char>>,
>;

/// `Regex::new(pattern)`, then `captures(haystack)` and its group 1. The
/// result is named `regex_first_group(pattern, haystack)`; nothing more of
/// the regex engine is stated.
#[verifier::external_body]
fn first_group(pattern: &str, haystack: &str) -> (r: Option<Option<String>>)
    ensures
        match (r, regex_first_group(pattern@, haystack@)) {
            (None, None) => true,
            (Some(None), Some(None)) => true,
            (Some(Some(g)), Some(Some(h))) => g@ == h,
            _ => false,
        },
{
    let re = match regex::Regex::new(pattern) {
        Ok(re) => re,
        Err(_) => return None,
    };
    match re.captures(haystack) {
        Some(caps) => match caps.get(1) {
            Some(m) => Some(Some(m.as_str().to_string())),
            None => Some(None),
        },
        None => Some(None),
    }
}

/// The value of a decimal numeral of ASCII digits.
pub open spec fn numeral_value(s: Seq<char>) -> nat
    decreases s.len(),
{
    if s.len() == 0 {
        0
    } else {
        numeral_value(s.drop_last()) * 10 + (s.last() as nat - 48) as nat
    }
}

/// `s` is a non-empty numeral of ASCII digits whose value fits a `u32`:
/// what `str::parse::<u32>` accepts among digit strings.
pub open spec fn is_u32_numeral(s: Seq<char>) -> bool {
    &&& s.len() > 0
    &&& forall|i: int| 0 <= i < s.len() ==> '0' <= #[trigger] s[i] <= '9'
    &&& numeral_value(s) <= u32::MAX
}

proof fn lemma_numeral_value_mono(s: Seq<char>, k: int)
    requires
        0 <= k <= s.len(),
        forall|i: int| 0 <= i < s.len() ==> '0' <= #[trigger] s[i] <= '9',
    ensures
        numeral_value(s.take(k)) <= numeral_value(s),
    decreases s.len() - k,
{
    if k < s.len() {
        lemma_numeral_value_mono(s, k + 1);
        assert(s.take(k + 1).drop_last() =~= s.take(k));
    } else {
        assert(s.take(k) =~= s);
    }
}

/// Parses a string of ASCII digits as a `u32`, as `str::parse::<u32>` does
/// for such strings.
fn parse_u32(s: &str) -> (r: Option<u32>)
    ensures
        match r {
            Some(v) => is_u32_numeral(s@) && v == numeral_value(s@),
            None => !is_u32_numeral(s@),
        },
{
    let n = s.unicode_len();
    if n == 0 {
        return None;
    }
    let mut i: usize = 0;
    while i < n
        invariant
            n == s@.len(),
            i <= n,
            forall|k: int| 0 <= k < i ==> '0' <= #[trigger] s@[k] <= '9',
        decreases n - i,
    {
        let c = s.get_char(i);
        if !('0' <= c && c <= '9') {
            return None;
        }
        i = i + 1;
    }
    let mut v: u64 = 0;
    i = 0;
    while i < n
        invariant
            n == s@.len(),
            i <= n,
            forall|k: int| 0 <= k < n ==> '0' <= #[trigger] s@[k] <= '9',
            v == numeral_value(s@.take(i as int)),
            v <= u32::MAX,
        decreases n - i,
    {
        let c = s.get_char(i);
        assert(s@.take(i + 1).drop_last() =~= s@.take(i as int));
        assert(s@.take(i + 1).last() == c);
        let next: u64 = v * 10 + (c as u64 - 48);
        if next > 4294967295 {
            proof {
                lemma_numeral_value_mono(s@, i + 1);
            }
            return None;
        }
        v = next;
        i = i + 1;
    }
    assert(s@.take(n as int) =~= s@);
    Some(v as u32)
}

/// The pattern the job id is taken from.
pub const JOBID_PATTERN: &'static str = r"/JOBID:(\d+)";

/// The pattern the printer name is taken from.
pub const PRINTER_PATTERN: &'static str = r"/PRINTER:(\w+)";

/// What the Windows arguments `/JOBID:<id> /PRINTER:<name>` give: the job
/// id where its digits are a `u32` numeral, and the printer name.
pub open spec fn windows_args_of(arg_1: Seq<char>, arg_2: Seq<char>) -> Option<(u32, Seq<char>)> {
    match regex_first_group(JOBID_PATTERN@, arg_1) {
        Some(Some(id)) => if is_u32_numeral(id) {
            match regex_first_group(PRINTER_PATTERN@, arg_2) {
                Some(Some(name)) => Some((numeral_value(id) as u32, name)),
                _ => None,
            }
        } else {
            None
        },
        _ => None,
    }
}

/// The arguments the program understands: the program alone (run the
/// server), or on Windows the program with `/JOBID:<id>` and
/// `/PRINTER:<name>` arguments that give a job id and a printer name.
pub open spec fn args_accepted(args: Seq<String>, on_windows: bool) -> bool {
    ||| args.len() == 1
    ||| args.len() == 3 && on_windows && windows_args_of(args[1]@, args[2]@) is Some
}

/// `os` is how accepted arguments `args` run the program: the server for
/// the program alone, otherwise the print handler for the job and printer
/// they give.
pub open spec fn run_mode_of(os: OS, args: Seq<String>) -> bool {
    if args.len() == 1 {
        os is Others
    } else {
        match windows_args_of(args[1]@, args[2]@) {
            Some((id, name)) => os matches OS::Windows((i, n)) && i == id && n@ == name,
            None => false,
        }
    }
}

impl OS {
    fn parse_windows_args(arg_1: &str, arg_2: &str) -> (r: Option<OS>)
        ensures
            match windows_args_of(arg_1@, arg_2@) {
                Some((id, name)) => r matches Some(OS::Windows((i, n))) && i == id && n@ == name,
                None => r is None,
            },
    {
        let id = match first_group(JOBID_PATTERN, arg_1) {
            Some(Some(digits)) => match parse_u32(digits.as_str()) {
                Some(v) => v,
                None => return None,
            },
            _ => return None,
        };
        match first_group(PRINTER_PATTERN, arg_2) {
            Some(Some(name)) => Some(OS::Windows((id, name))),
            _ => None,
        }
    }

    /// Whether the arguments are understood (see `args_accepted`); the
    /// program refuses all others with its usage.
    pub fn accepts_args(args: &Vec<String>, on_windows: bool) -> (r: bool)
        ensures
            r == args_accepted(args@, on_windows),
    {
        if args.len() == 1 {
            return true;
        }
        if args.len() == 3 && on_windows {
            return Self::parse_windows_args(args[1].as_str(), args[2].as_str()).is_some();
        }
        false
    }

    /// How the program runs for arguments it understands. `on_windows`
    /// tells whether the program runs on Windows, where the print-handler
    /// arguments are understood.
    pub fn parse_args(args: &Vec<String>, on_windows: bool) -> (r: OS)
        requires
            args_accepted(args@, on_windows),
        ensures
            run_mode_of(r, args@),
    {
        if args.len() == 1 {
            return OS::Others;
        }
        match Self::parse_windows_args(args[1].as_str(), args[2].as_str()) {
            Some(os) => os,
            None => OS::Others,
        }
    }

    /// How the program runs for its arguments, or `None` for arguments it
    /// refuses.
    pub fn try_parse_args(args: &Vec<String>, on_windows: bool) -> (r: Option<OS>)
        ensures
            r is None <==> !args_accepted(args@, on_windows),
            r matches Some(os) ==> run_mode_of(os, args@),
    {
        if Self::accepts_args(args, on_windows) {
            Some(Self::parse_args(args, on_windows))
        } else {
            None
        }
    }
}

/// A job id is read as decimal, most significant digit first: a digit
/// appended to a numeral multiplies its value by ten and adds the digit,
/// and a leading zero changes nothing.
pub proof fn law_numeral_decimal(s: Seq<char>, d: char)
    requires
        '0' <= d <= '9',
    ensures
        numeral_value(s.push(d)) == 10 * numeral_value(s) + (d as nat - 48),
        numeral_value(seq!['0'] + s) == numeral_value(s),
    decreases s.len(),
{
    assert(s.push(d).drop_last() =~= s);
    if s.len() > 0 {
        law_numeral_decimal(s.drop_last(), d);
        assert((seq!['0'] + s).drop_last() =~= seq!['0'] + s.drop_last());
        assert((seq!['0'] + s).last() == s.last());
        let t = seq!['0'] + s;
        assert(numeral_value(t.drop_last()) == numeral_value(s.drop_last()));
        assert(numeral_value(t) == numeral_value(t.drop_last()) * 10 + (t.last() as nat - 48) as nat);
        assert(numeral_value(s) == numeral_value(s.drop_last()) * 10 + (s.last() as nat - 48) as nat);
        assert(numeral_value(t) == numeral_value(s));
    } else {
        assert(seq!['0'] + s =~= seq!['0']);
        assert(seq!['0'].drop_last() =~= Seq::<char>::empty());
        assert(seq!['0'].last() == '0');
        assert('0' as nat == 48);
        assert(numeral_value(Seq::<char>::empty()) == 0);
        assert(numeral_value(seq!['0']) == 0);
    }
}

} // verus!
