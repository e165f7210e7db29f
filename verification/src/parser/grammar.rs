//! The PCL commands that the job header is read from, written out over
//! bytes.
//!
//! A parameterised PCL command here is `ESC & l <value> <letter>`, the
//! letter in either case. Some commands take a single digit from a fixed
//! range, others a run of decimal digits. A search finds the leftmost
//! position where a whole command stands; for a run of digits the whole
//! run is taken, so it must be followed directly by the letter.
use vstd::prelude::*;

verus! {

/// The escape byte that starts every PCL command.
pub const ESC: u8 = 0x1B;

/// An ASCII decimal digit.
pub open spec fn is_digit(b: u8) -> bool {
    48 <= b <= 57
}

/// `ESC & l` stands at position `i`.
pub open spec fn prefix_at(s: Seq<u8>, i: int) -> bool {
    &&& 0 <= i
    &&& i + 3 <= s.len()
    &&& s[i] == ESC
    &&& s[i + 1] == 38
    &&& s[i + 2] == 108
}

/// `b` is the upper-case letter `upper` or its lower-case form.
pub open spec fn letter_is(b: u8, upper: u8) -> bool {
    b == upper || b == upper + 32
}

/// `ESC & l d L` stands at `i`, with a digit `d` from `lo` to `hi` and the
/// letter `L` in either case.
pub open spec fn single_at(s: Seq<u8>, i: int, lo: u8, hi: u8, upper: u8) -> bool {
    &&& prefix_at(s, i)
    &&& i + 5 <= s.len()
    &&& lo <= s[i + 3] <= hi
    &&& letter_is(s[i + 4], upper)
}

/// The end of the run of digits that starts at `j`: the first position at
/// or after `j` that holds no digit (or the end of `s`).
pub open spec fn digits_end(s: Seq<u8>, j: int) -> int
    decreases s.len() - j,
{
    if 0 <= j < s.len() && is_digit(s[j]) {
        digits_end(s, j + 1)
    } else {
        j
    }
}

/// `ESC & l <digits> L` stands at `i`, the whole run of digits followed
/// by the letter `L` in either case.
pub open spec fn run_at(s: Seq<u8>, i: int, upper: u8) -> bool {
    &&& prefix_at(s, i)
    &&& i + 3 < s.len()
    &&& is_digit(s[i + 3])
    &&& digits_end(s, i + 3) < s.len()
    &&& letter_is(s[digits_end(s, i + 3)], upper)
}

/// The leftmost position at or after `k` where a single-digit command
/// stands.
pub open spec fn first_single_from(s: Seq<u8>, lo: u8, hi: u8, upper: u8, k: int) -> Option<int>
    decreases s.len() - k,
{
    if k < 0 || k >= s.len() {
        None
    } else if single_at(s, k, lo, hi, upper) {
        Some(k)
    } else {
        first_single_from(s, lo, hi, upper, k + 1)
    }
}

/// The leftmost position where a single-digit command stands.
pub open spec fn first_single(s: Seq<u8>, lo: u8, hi: u8, upper: u8) -> Option<int> {
    first_single_from(s, lo, hi, upper, 0)
}

/// The leftmost position at or after `k` where a digit-run command stands.
pub open spec fn first_run_from(s: Seq<u8>, upper: u8, k: int) -> Option<int>
    decreases s.len() - k,
{
    if k < 0 || k >= s.len() {
        None
    } else if run_at(s, k, upper) {
        Some(k)
    } else {
        first_run_from(s, upper, k + 1)
    }
}

/// The leftmost position where a digit-run command stands.
pub open spec fn first_run(s: Seq<u8>, upper: u8) -> Option<int> {
    first_run_from(s, upper, 0)
}

/// The number that the decimal digits `s[a..b]` spell.
pub open spec fn digits_value(s: Seq<u8>, a: int, b: int) -> nat
    decreases b - a,
{
    if b <= a {
        0
    } else {
        digits_value(s, a, b - 1) * 10 + (s[b - 1] - 48) as nat
    }
}

/// The number given in the first digit-run command, if there is one.
pub open spec fn first_run_value(s: Seq<u8>, upper: u8) -> Option<nat> {
    match first_run(s, upper) {
        Some(i) => Some(digits_value(s, i + 3, digits_end(s, i + 3))),
        None => None,
    }
}

/// The run of digits from `j` ends within `s`, at or after `j`, and holds
/// only digits.
pub proof fn lemma_digits_end(s: Seq<u8>, j: int)
    requires
        0 <= j <= s.len(),
    ensures
        j <= digits_end(s, j) <= s.len(),
        forall|k: int| j <= k < digits_end(s, j) ==> is_digit(#[trigger] s[k]),
        digits_end(s, j) < s.len() ==> !is_digit(s[digits_end(s, j)]),
    decreases s.len() - j,
{
    if j < s.len() && is_digit(s[j]) {
        lemma_digits_end(s, j + 1);
    }
}

/// A longer run of digits spells a number at least as large.
pub proof fn lemma_digits_value_mono(s: Seq<u8>, a: int, b: int, c: int)
    requires
        a <= b <= c <= s.len(),
        0 <= a,
        forall|k: int| a <= k < c ==> is_digit(#[trigger] s[k]),
    ensures
        digits_value(s, a, b) <= digits_value(s, a, c),
    decreases c - b,
{
    if b < c {
        lemma_digits_value_mono(s, a, b, c - 1);
    }
}

/// A run of digits that ends inside `s` ends at the same place whatever
/// follows `s`.
pub proof fn lemma_digits_end_append(s: Seq<u8>, t: Seq<u8>, j: int)
    requires
        0 <= j <= s.len(),
        digits_end(s, j) < s.len(),
    ensures
        digits_end(s + t, j) == digits_end(s, j),
    decreases s.len() - j,
{
    assert((s + t)[j] == s[j]);
    if is_digit(s[j]) {
        lemma_digits_end_append(s, t, j + 1);
    }
}

/// The digits inside `s` spell the same number whatever follows `s`.
pub proof fn lemma_digits_value_append(s: Seq<u8>, t: Seq<u8>, a: int, b: int)
    requires
        0 <= a,
        b <= s.len(),
    ensures
        digits_value(s + t, a, b) == digits_value(s, a, b),
    decreases b - a,
{
    if a < b {
        lemma_digits_value_append(s, t, a, b - 1);
        assert((s + t)[b - 1] == s[b - 1]);
    }
}

/// The first single-digit command of `s` is the first of `s + t`.
pub proof fn lemma_first_single_append(s: Seq<u8>, t: Seq<u8>, lo: u8, hi: u8, upper: u8, k: int)
    requires
        0 <= k,
        first_single_from(s, lo, hi, upper, k) is Some,
    ensures
        first_single_from(s + t, lo, hi, upper, k) == first_single_from(s, lo, hi, upper, k),
    decreases s.len() - k,
{
    if k < s.len() {
        if k + 5 <= s.len() {
            assert forall|m: int| k <= m < k + 5 implies (s + t)[m] == s[m] by {}
        }
        if !single_at(s, k, lo, hi, upper) {
            lemma_first_single_append(s, t, lo, hi, upper, k + 1);
            lemma_first_single_bounds(s, lo, hi, upper, k + 1);
        }
    }
}

/// The first single-digit command from `k` stands at or after `k`, and
/// stands whole.
pub proof fn lemma_first_single_bounds(s: Seq<u8>, lo: u8, hi: u8, upper: u8, k: int)
    ensures
        first_single_from(s, lo, hi, upper, k) matches Some(i) ==> k <= i && single_at(
            s,
            i,
            lo,
            hi,
            upper,
        ),
    decreases s.len() - k,
{
    if 0 <= k < s.len() && !single_at(s, k, lo, hi, upper) {
        lemma_first_single_bounds(s, lo, hi, upper, k + 1);
    }
}

/// The first digit-run command from `k` stands at or after `k`, and
/// stands whole.
pub proof fn lemma_first_run_bounds(s: Seq<u8>, upper: u8, k: int)
    ensures
        first_run_from(s, upper, k) matches Some(i) ==> k <= i && run_at(s, i, upper),
    decreases s.len() - k,
{
    if 0 <= k < s.len() && !run_at(s, k, upper) {
        lemma_first_run_bounds(s, upper, k + 1);
    }
}

/// The first digit-run command of `s` is the first of `s + t`, with the
/// same digits.
pub proof fn lemma_first_run_append(s: Seq<u8>, t: Seq<u8>, upper: u8, k: int)
    requires
        0 <= k,
        first_run_from(s, upper, k) is Some,
    ensures
        first_run_from(s + t, upper, k) == first_run_from(s, upper, k),
    decreases s.len() - k,
{
    lemma_first_run_bounds(s, upper, k);
    let i = first_run_from(s, upper, k)->Some_0;
    if k < s.len() {
        lemma_digits_end(s, i + 3);
        if run_at(s, k, upper) {
            lemma_digits_end_append(s, t, k + 3);
            assert((s + t)[digits_end(s, k + 3)] == s[digits_end(s, k + 3)]);
            assert(prefix_at(s + t, k));
        } else {
            lemma_first_run_append(s, t, upper, k + 1);
            assert(k < i);
            assert forall|m: int| k <= m <= k + 3 implies (s + t)[m] == s[m] by {}
            if prefix_at(s, k) && is_digit(s[k + 3]) {
                lemma_digits_end(s, k + 3);
                if digits_end(s, k + 3) < s.len() {
                    lemma_digits_end_append(s, t, k + 3);
                    assert((s + t)[digits_end(s, k + 3)] == s[digits_end(s, k + 3)]);
                } else {
                    if k + 3 <= i {
                        assert(is_digit(s[i]));
                    } else if k == i - 1 {
                        assert(s[k + 1] == s[i]);
                    } else {
                        assert(s[k + 2] == s[i]);
                    }
                }
            }
            assert(!run_at(s + t, k, upper));
        }
    }
}

/// What follows `s` never changes the digit of its first single-digit
/// command.
pub proof fn lemma_first_single_value_append(s: Seq<u8>, t: Seq<u8>, lo: u8, hi: u8, upper: u8)
    requires
        first_single_value(s, lo, hi, upper) is Some,
    ensures
        first_single_value(s + t, lo, hi, upper) == first_single_value(s, lo, hi, upper),
{
    lemma_first_single_append(s, t, lo, hi, upper, 0);
    lemma_first_single_bounds(s, lo, hi, upper, 0);
    let i = first_single(s, lo, hi, upper)->Some_0;
    assert((s + t)[i + 3] == s[i + 3]);
}

/// What follows `s` never changes the number of its first digit-run
/// command.
pub proof fn lemma_first_run_value_append(s: Seq<u8>, t: Seq<u8>, upper: u8)
    requires
        first_run_value(s, upper) is Some,
    ensures
        first_run_value(s + t, upper) == first_run_value(s, upper),
{
    lemma_first_run_append(s, t, upper, 0);
    lemma_first_run_bounds(s, upper, 0);
    let i = first_run(s, upper)->Some_0;
    lemma_digits_end(s, i + 3);
    lemma_digits_end_append(s, t, i + 3);
    lemma_digits_value_append(s, t, i + 3, digits_end(s, i + 3));
}

/// The leftmost single-digit command, found by a scan.
pub fn find_single(s: &[u8], lo: u8, hi: u8, upper: u8) -> (r: Option<usize>)
    requires
        upper <= 200,
    ensures
        match r {
            Some(i) => first_single(s@, lo, hi, upper) == Some(i as int),
            None => first_single(s@, lo, hi, upper) is None,
        },
        r matches Some(i) ==> single_at(s@, i as int, lo, hi, upper),
{
    let n = s.len();
    let mut i: usize = 0;
    while i < n
        invariant
            n == s@.len(),
            i <= n,
            upper <= 200,
            first_single(s@, lo, hi, upper) == first_single_from(s@, lo, hi, upper, i as int),
        decreases n - i,
    {
        if n - i >= 5 && s[i] == ESC && s[i + 1] == 38 && s[i + 2] == 108 && lo <= s[i + 3]
            && s[i + 3] <= hi && (s[i + 4] == upper || s[i + 4] == upper + 32) {
            return Some(i);
        }
        i = i + 1;
    }
    None
}

/// The end of the run of digits that starts at `j`, found by a scan.
pub fn find_digits_end(s: &[u8], j: usize) -> (e: usize)
    requires
        j <= s@.len(),
    ensures
        e == digits_end(s@, j as int),
{
    let n = s.len();
    let mut e: usize = j;
    while e < n && 48 <= s[e] && s[e] <= 57
        invariant
            n == s@.len(),
            j <= e <= n,
            digits_end(s@, e as int) == digits_end(s@, j as int),
        decreases n - e,
    {
        e = e + 1;
    }
    e
}

/// The leftmost digit-run command, found by a scan: its position and the
/// end of its digits.
pub fn find_run(s: &[u8], upper: u8) -> (r: Option<(usize, usize)>)
    requires
        upper <= 200,
    ensures
        match r {
            Some((i, e)) => first_run(s@, upper) == Some(i as int) && e == digits_end(
                s@,
                i + 3,
            ),
            None => first_run(s@, upper) is None,
        },
        r matches Some((i, e)) ==> run_at(s@, i as int, upper),
{
    let n = s.len();
    let mut i: usize = 0;
    while i < n
        invariant
            n == s@.len(),
            i <= n,
            upper <= 200,
            first_run(s@, upper) == first_run_from(s@, upper, i as int),
        decreases n - i,
    {
        if n - i >= 4 && s[i] == ESC && s[i + 1] == 38 && s[i + 2] == 108 && 48 <= s[i + 3]
            && s[i + 3] <= 57 {
            let e = find_digits_end(s, i + 3);
            if e < n && (s[e] == upper || s[e] == upper + 32) {
                return Some((i, e));
            }
        }
        i = i + 1;
    }
    None
}

/// The number spelled by the digits `s[a..b]`, where it is at most
/// `u64::MAX`.
pub fn read_digits(s: &[u8], a: usize, b: usize) -> (v: u64)
    requires
        a <= b <= s@.len(),
        forall|k: int| a <= k < b ==> is_digit(#[trigger] s@[k]),
        digits_value(s@, a as int, b as int) <= u64::MAX,
    ensures
        v == digits_value(s@, a as int, b as int),
{
    let mut v: u64 = 0;
    let mut k: usize = a;
    while k < b
        invariant
            a <= k <= b <= s@.len(),
            forall|m: int| a <= m < b ==> is_digit(#[trigger] s@[m]),
            digits_value(s@, a as int, b as int) <= u64::MAX,
            v == digits_value(s@, a as int, k as int),
        decreases b - k,
    {
        proof {
            lemma_digits_value_mono(s@, a as int, (k + 1) as int, b as int);
            assert(is_digit(s@[k as int]));
        }
        v = v * 10 + (s[k] - 48) as u64;
        k = k + 1;
    }
    v
}


/// The digit given in the first single-digit command, if there is one.
pub open spec fn first_single_value(s: Seq<u8>, lo: u8, hi: u8, upper: u8) -> Option<nat> {
    match first_single(s, lo, hi, upper) {
        Some(i) => Some((s[i + 3] - 48) as nat),
        None => None,
    }
}

/// The digit given in the first single-digit command, found by a scan.
pub fn read_single(s: &[u8], lo: u8, hi: u8, upper: u8) -> (r: Option<u8>)
    requires
        48 <= lo,
        hi <= 57,
        upper <= 200,
    ensures
        match r {
            Some(d) => first_single_value(s@, lo, hi, upper) == Some(d as nat),
            None => first_single_value(s@, lo, hi, upper) is None,
        },
        r matches Some(d) ==> lo - 48 <= d <= hi - 48,
{
    match find_single(s, lo, hi, upper) {
        Some(i) => {
            let n = s.len();
            assert(single_at(s@, i as int, lo, hi, upper));
            assert(i + 5 <= n);
            Some(s[i + 3] - 48)
        },
        None => None,
    }
}

/// The number given in the first digit-run command, found by a scan.
pub fn read_run(s: &[u8], upper: u8) -> (r: Option<u64>)
    requires
        upper <= 200,
        first_run_value(s@, upper) matches Some(v) ==> v <= u64::MAX,
    ensures
        match first_run_value(s@, upper) {
            Some(v) => r == Some(v as u64),
            None => r is None,
        },
{
    match find_run(s, upper) {
        Some((i, e)) => {
            proof {
                lemma_digits_end(s@, i + 3);
            }
            Some(read_digits(s, i + 3, e))
        },
        None => None,
    }
}

/// The number spelled by the digits `s[a..b]` when it is at most `max`.
pub fn read_digits_bounded(s: &[u8], a: usize, b: usize, max: u64) -> (r: Option<u64>)
    requires
        a <= b <= s@.len(),
        forall|k: int| a <= k < b ==> is_digit(#[trigger] s@[k]),
    ensures
        match r {
            Some(v) => v == digits_value(s@, a as int, b as int) && v <= max,
            None => digits_value(s@, a as int, b as int) > max,
        },
{
    let mut v: u64 = 0;
    let mut k: usize = a;
    while k < b
        invariant
            a <= k <= b <= s@.len(),
            forall|m: int| a <= m < b ==> is_digit(#[trigger] s@[m]),
            v == digits_value(s@, a as int, k as int),
            v <= max,
        decreases b - k,
    {
        assert(is_digit(s@[k as int]));
        let d = (s[k] - 48) as u64;
        if d > max || v > (max - d) / 10 {
            proof {
                lemma_digits_value_mono(s@, a as int, (k + 1) as int, b as int);
            }
            return None;
        }
        v = v * 10 + d;
        k = k + 1;
    }
    Some(v)
}

/// The number given in the first digit-run command, where it is at most
/// `max`: `Some(None)` when there is no such command, `None` when its
/// number is larger than `max`.
pub fn read_run_bounded(s: &[u8], upper: u8, max: u64) -> (r: Option<Option<u64>>)
    requires
        upper <= 200,
    ensures
        match first_run_value(s@, upper) {
            Some(v) => if v <= max {
                r == Some(Some(v as u64))
            } else {
                r is None
            },
            None => r == Some(None::<u64>),
        },
{
    match find_run(s, upper) {
        Some((i, e)) => {
            proof {
                lemma_digits_end(s@, i + 3);
            }
            match read_digits_bounded(s, i + 3, e, max) {
                Some(v) => Some(Some(v)),
                None => None,
            }
        },
        None => Some(None),
    }
}

/// The bytes of `s` below 128, in order: what is left of a print stream
/// once everything outside ASCII is dropped.
pub open spec fn ascii_filter(s: Seq<u8>) -> Seq<u8>
    decreases s.len(),
{
    if s.len() == 0 {
        Seq::<u8>::empty()
    } else if s.last() < 128 {
        ascii_filter(s.drop_last()).push(s.last())
    } else {
        ascii_filter(s.drop_last())
    }
}

/// Dropping the non-ASCII bytes of two pieces one by one gives what
/// dropping them from the whole gives.
pub proof fn lemma_ascii_filter_concat(a: Seq<u8>, b: Seq<u8>)
    ensures
        ascii_filter(a + b) == ascii_filter(a) + ascii_filter(b),
    decreases b.len(),
{
    if b.len() == 0 {
        assert(a + b =~= a);
        assert(ascii_filter(a) + ascii_filter(b) =~= ascii_filter(a));
    } else {
        lemma_ascii_filter_concat(a, b.drop_last());
        assert((a + b).drop_last() =~= a + b.drop_last());
        assert((a + b).last() == b.last());
        if b.last() < 128 {
            assert(ascii_filter(a) + ascii_filter(b.drop_last()).push(b.last()) =~= (ascii_filter(a)
                + ascii_filter(b.drop_last())).push(b.last()));
        }
    }
}

/// A byte outside ASCII is dropped wherever it stands.
pub proof fn lemma_ascii_filter_drops(a: Seq<u8>, b: u8, c: Seq<u8>)
    requires
        b >= 128,
    ensures
        ascii_filter(a + seq![b] + c) == ascii_filter(a + c),
{
    lemma_ascii_filter_concat(a + seq![b], c);
    lemma_ascii_filter_concat(a, seq![b]);
    lemma_ascii_filter_concat(a, c);
    assert(seq![b].drop_last() =~= Seq::<u8>::empty());
    assert(seq![b].last() == b);
    assert(ascii_filter(Seq::<u8>::empty()) =~= Seq::<u8>::empty());
    assert(ascii_filter(seq![b]) =~= Seq::<u8>::empty());
    assert(ascii_filter(a) + ascii_filter(seq![b]) =~= ascii_filter(a));
}

/// Drops every byte outside ASCII.
pub fn keep_ascii(s: &[u8]) -> (r: Vec<u8>)
    ensures
        r@ == ascii_filter(s@),
{
    let mut r: Vec<u8> = Vec::new();
    let n = s.len();
    let mut i: usize = 0;
    while i < n
        invariant
            n == s@.len(),
            i <= n,
            r@ == ascii_filter(s@.take(i as int)),
        decreases n - i,
    {
        assert(s@.take(i + 1).drop_last() =~= s@.take(i as int));
        if s[i] < 128 {
            r.push(s[i]);
        }
        i = i + 1;
    }
    assert(s@.take(n as int) =~= s@);
    r
}

/// A raster-data command `ESC * b <digits> W` stands at `k`.
pub open spec fn raster_at(s: Seq<u8>, k: int) -> bool {
    &&& 0 <= k
    &&& k + 3 < s.len()
    &&& s[k] == ESC
    &&& s[k + 1] == 42
    &&& s[k + 2] == 98
    &&& is_digit(s[k + 3])
    &&& digits_end(s, k + 3) < s.len()
    &&& s[digits_end(s, k + 3)] == 87
}

/// `s` from `k` on, with every raster-data command taken out, scanning left
/// to right and resuming after each command that was taken out.
pub open spec fn strip_raster_from(s: Seq<u8>, k: int) -> Seq<u8>
    decreases s.len() - k,
{
    if k < 0 || k >= s.len() {
        Seq::<u8>::empty()
    } else if raster_at(s, k) {
        proof {
            lemma_digits_end(s, k + 3);
        }
        strip_raster_from(s, digits_end(s, k + 3) + 1)
    } else {
        seq![s[k]] + strip_raster_from(s, k + 1)
    }
}

/// `s` with every raster-data command taken out.
pub open spec fn strip_raster(s: Seq<u8>) -> Seq<u8> {
    strip_raster_from(s, 0)
}

/// Every raster-data command taken out from `k` on gives a byte count that
/// fits a `usize`.
pub open spec fn raster_counts_fit_from(s: Seq<u8>, k: int) -> bool
    decreases s.len() - k,
{
    if k < 0 || k >= s.len() {
        true
    } else if raster_at(s, k) {
        proof {
            lemma_digits_end(s, k + 3);
        }
        &&& digits_value(s, k + 3, digits_end(s, k + 3)) <= usize::MAX
        &&& raster_counts_fit_from(s, digits_end(s, k + 3) + 1)
    } else {
        raster_counts_fit_from(s, k + 1)
    }
}

/// Every raster-data command in `s` gives a byte count that fits a `usize`.
pub open spec fn raster_counts_fit(s: Seq<u8>) -> bool {
    raster_counts_fit_from(s, 0)
}

/// Takes every raster-data command out of `s`.
pub fn remove_raster(s: &[u8]) -> (r: Vec<u8>)
    ensures
        r@ == strip_raster(s@),
{
    let mut r: Vec<u8> = Vec::new();
    let n = s.len();
    let mut i: usize = 0;
    while i < n
        invariant
            n == s@.len(),
            i <= n,
            r@ + strip_raster_from(s@, i as int) == strip_raster(s@),
        decreases n - i,
    {
        if n - i >= 4 && s[i] == ESC && s[i + 1] == 42 && s[i + 2] == 98 && 48 <= s[i + 3] && s[i
            + 3] <= 57 {
            let e = find_digits_end(s, i + 3);
            proof {
                lemma_digits_end(s@, i + 3);
            }
            if e < n && s[e] == 87 {
                i = e + 1;
                continue;
            }
        }
        assert(!raster_at(s@, i as int));
        let ghost before = r@;
        r.push(s[i]);
        assert(before + strip_raster_from(s@, i as int) =~= r@ + strip_raster_from(
            s@,
            i + 1,
        ));
        i = i + 1;
    }
    assert(r@ + strip_raster_from(s@, n as int) =~= r@);
    r
}

/// The number of form-feed/escape pairs `\x0C\x1B` from `k` on.
pub open spec fn page_breaks_from(s: Seq<u8>, k: int) -> nat
    decreases s.len() - k,
{
    if k < 0 || k + 1 >= s.len() {
        0
    } else if s[k] == 12 && s[k + 1] == ESC {
        1 + page_breaks_from(s, k + 2)
    } else {
        page_breaks_from(s, k + 1)
    }
}

/// How many pieces `s` falls into when split at every `\x0C\x1B`.
pub open spec fn page_count(s: Seq<u8>) -> nat {
    page_breaks_from(s, 0) + 1
}

/// Counts the pieces of `s` split at every `\x0C\x1B`.
pub fn count_pages(s: &[u8]) -> (r: usize)
    ensures
        r == page_count(s@),
{
    let n = s.len();
    let mut c: usize = 0;
    let mut i: usize = 0;
    while i < n
        invariant
            n == s@.len(),
            i <= n + 1,
            2 * c <= i,
            c + page_breaks_from(s@, i as int) == page_breaks_from(s@, 0),
        decreases n + 1 - i,
    {
        if n - i >= 2 && s[i] == 12 && s[i + 1] == ESC {
            c = c + 1;
            i = i + 2;
        } else {
            i = i + 1;
        }
    }
    c + 1
}

} // verus!
