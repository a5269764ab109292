//! Character-level building blocks: the models of `str::lines`, of
//! `str::parse::<u32>` and of decimal formatting, with their verified
//! executable counterparts.

use vstd::prelude::*;

verus! {

broadcast use vstd::string::group_string_axioms;

// ---------------------------------------------------------------------------
// Strings and characters
// ---------------------------------------------------------------------------

/// Appends one character to a `String` (std's `String::push`): the string's
/// characters become the old ones followed by `c`.
#[verifier::external_body]
fn push_char(s: &mut String, c: char)
    ensures
        final(s)@ == old(s)@.push(c),
{
    s.push(c);
}

/// The characters of `s`, in order.
pub fn chars_of(s: &str) -> (res: Vec<char>)
    ensures
        res@ == s@,
{
    let mut res: Vec<char> = Vec::new();
    for c in it: s.chars()
        invariant
            it.seq() == s@,
            res@ == it.seq().take(it.index()),
    {
        res.push(c);
        assert(res@ == it.seq().take(it.index() + 1));
    }
    res
}

/// A `String` holding `chars[lo..hi]`.
pub fn string_from_range(chars: &Vec<char>, lo: usize, hi: usize) -> (res: String)
    requires
        lo <= hi <= chars@.len(),
    ensures
        res@ == chars@.subrange(lo as int, hi as int),
{
    let mut res = String::new();
    let mut i = lo;
    while i < hi
        invariant
            lo <= i <= hi <= chars@.len(),
            res@ == chars@.subrange(lo as int, i as int),
        decreases hi - i,
    {
        push_char(&mut res, chars[i]);
        assert(chars@.subrange(lo as int, i + 1) == chars@.subrange(lo as int, i as int).push(
            chars@[i as int],
        ));
        i += 1;
    }
    res
}

/// Appends the characters of `s` to `out`.
pub fn push_str(out: &mut String, s: &str)
    ensures
        final(out)@ == old(out)@ + s@,
{
    let cs = chars_of(s);
    let mut i: usize = 0;
    while i < cs.len()
        invariant
            i <= cs@.len(),
            cs@ == s@,
            out@ == old(out)@ + cs@.take(i as int),
        decreases cs@.len() - i,
    {
        push_char(out, cs[i]);
        assert(cs@.take(i + 1) == cs@.take(i as int).push(cs@[i as int]));
        i += 1;
    }
    assert(cs@.take(cs@.len() as int) == cs@);
}

/// A `String` holding exactly the characters of `chars`.
pub fn string_from_chars(chars: &Vec<char>) -> (res: String)
    ensures
        res@ == chars@,
{
    let res = string_from_range(chars, 0, chars.len());
    assert(chars@.subrange(0, chars@.len() as int) == chars@);
    res
}

/// Whether two character vectors hold the same characters.
pub fn chars_equal(a: &Vec<char>, b: &Vec<char>) -> (res: bool)
    ensures
        res == (a@ == b@),
{
    if a.len() != b.len() {
        return false;
    }
    let mut i: usize = 0;
    while i < a.len()
        invariant
            a@.len() == b@.len(),
            i <= a@.len(),
            forall|j: int| 0 <= j < i ==> a@[j] == b@[j],
        decreases a@.len() - i,
    {
        if a[i] != b[i] {
            return false;
        }
        i += 1;
    }
    assert(a@ =~= b@);
    true
}

/// Whether the characters of `a` are those of `b`.
pub fn str_equal(a: &str, b: &str) -> (res: bool)
    ensures
        res == (a@ == b@),
{
    let ca = chars_of(a);
    let cb = chars_of(b);
    chars_equal(&ca, &cb)
}

// ---------------------------------------------------------------------------
// Searching
// ---------------------------------------------------------------------------

/// Index of the first occurrence of `x` in `s`, or `s.len()` when `x` does not occur.
pub open spec fn first_index_of<A>(s: Seq<A>, x: A) -> int
    decreases s.len(),
{
    if s.len() == 0 {
        0
    } else if s[0] == x {
        0
    } else {
        1 + first_index_of(s.drop_first(), x)
    }
}

pub proof fn lemma_first_index_of<A>(s: Seq<A>, x: A)
    ensures
        0 <= first_index_of(s, x) <= s.len(),
        forall|i: int| 0 <= i < first_index_of(s, x) ==> s[i] != x,
        first_index_of(s, x) < s.len() ==> s[first_index_of(s, x)] == x,
    decreases s.len(),
{
    if s.len() > 0 && s[0] != x {
        lemma_first_index_of(s.drop_first(), x);
        assert forall|i: int| 0 <= i < first_index_of(s, x) implies s[i] != x by {
            if i > 0 {
                assert(s[i] == s.drop_first()[i - 1]);
            }
        }
    }
}

/// `k` is the first index of `x` in `s` when nothing before `k` is `x` and `k`
/// is either the end of `s` or a position holding `x`.
pub proof fn lemma_first_index_of_is<A>(s: Seq<A>, x: A, k: int)
    requires
        0 <= k <= s.len(),
        forall|i: int| 0 <= i < k ==> s[i] != x,
        k < s.len() ==> s[k] == x,
    ensures
        first_index_of(s, x) == k,
{
    lemma_first_index_of(s, x);
    let f = first_index_of(s, x);
    if f < k {
        assert(s[f] == x);
    } else if f > k {
        assert(s[k] != x);
    }
}

/// Index of the first element of `s` that differs from `x`, or `s.len()`
/// when every element is `x`: the length of the run of `x` that starts `s`.
pub open spec fn run_length<A>(s: Seq<A>, x: A) -> int
    decreases s.len(),
{
    if s.len() == 0 {
        0
    } else if s[0] != x {
        0
    } else {
        1 + run_length(s.drop_first(), x)
    }
}

pub proof fn lemma_run_length_is<A>(s: Seq<A>, x: A, k: int)
    requires
        0 <= k <= s.len(),
        forall|i: int| 0 <= i < k ==> s[i] == x,
        k < s.len() ==> s[k] != x,
    ensures
        run_length(s, x) == k,
    decreases s.len(),
{
    if k > 0 {
        assert forall|i: int| 0 <= i < k - 1 implies s.drop_first()[i] == x by {
            assert(s.drop_first()[i] == s[i + 1]);
        }
        if k - 1 < s.drop_first().len() {
            assert(s.drop_first()[k - 1] == s[k]);
        }
        lemma_run_length_is(s.drop_first(), x, k - 1);
    }
}

/// Position of the first `c` in `chars[lo..hi]`, or `hi` when there is none.
pub fn find_char(chars: &Vec<char>, lo: usize, hi: usize, c: char) -> (res: usize)
    requires
        lo <= hi <= chars@.len(),
    ensures
        res == lo + first_index_of(chars@.subrange(lo as int, hi as int), c),
        lo <= res <= hi,
{
    let mut i = lo;
    while i < hi && chars[i] != c
        invariant
            lo <= i <= hi <= chars@.len(),
            forall|j: int| lo <= j < i ==> chars@[j] != c,
        decreases hi - i,
    {
        i += 1;
    }
    proof {
        lemma_first_index_of_is(chars@.subrange(lo as int, hi as int), c, i - lo);
    }
    i
}

/// End of the run of `c` that starts at `lo` in `chars[lo..hi]`.
pub fn skip_run(chars: &Vec<char>, lo: usize, hi: usize, c: char) -> (res: usize)
    requires
        lo <= hi <= chars@.len(),
    ensures
        res == lo + run_length(chars@.subrange(lo as int, hi as int), c),
        lo <= res <= hi,
{
    let mut i = lo;
    while i < hi && chars[i] == c
        invariant
            lo <= i <= hi <= chars@.len(),
            forall|j: int| lo <= j < i ==> chars@[j] == c,
        decreases hi - i,
    {
        i += 1;
    }
    proof {
        lemma_run_length_is(chars@.subrange(lo as int, hi as int), c, i - lo);
    }
    i
}

// ---------------------------------------------------------------------------
// Lines
// ---------------------------------------------------------------------------

/// A line ended by `"\r\n"` loses its `'\r'`.
pub open spec fn strip_cr(line: Seq<char>) -> Seq<char> {
    if line.len() > 0 && line.last() == '\r' {
        line.drop_last()
    } else {
        line
    }
}

/// The lines that `str::lines` yields for `s`: every piece ended by `'\n'`,
/// without the `'\n'` and without a `'\r'` just before it, then the rest of
/// `s` when it is not empty (kept as it is).
pub open spec fn spec_lines(s: Seq<char>) -> Seq<Seq<char>>
    decreases s.len(),
{
    let k = first_index_of(s, '\n');
    if k < s.len() {
        proof {
            lemma_first_index_of(s, '\n');
        }
        seq![strip_cr(s.take(k))] + spec_lines(s.skip(k + 1))
    } else if s.len() == 0 {
        Seq::empty()
    } else {
        seq![s]
    }
}

/// The characters of each line.
pub open spec fn view_lines(lines: Seq<Vec<char>>) -> Seq<Seq<char>> {
    lines.map_values(|l: Vec<char>| l@)
}

proof fn lemma_lines_step(s: Seq<char>, start: int, j: int)
    requires
        0 <= start <= j < s.len(),
        forall|i: int| start <= i < j ==> s[i] != '\n',
        s[j] == '\n',
    ensures
        spec_lines(s.skip(start)) == seq![strip_cr(s.subrange(start, j))] + spec_lines(
            s.skip(j + 1),
        ),
{
    let t = s.skip(start);
    lemma_first_index_of_is(t, '\n', j - start);
    assert(t.take(j - start) =~= s.subrange(start, j));
    assert(t.skip(j - start + 1) =~= s.skip(j + 1));
}

proof fn lemma_lines_last(s: Seq<char>, start: int)
    requires
        0 <= start <= s.len(),
        forall|i: int| start <= i < s.len() ==> s[i] != '\n',
    ensures
        spec_lines(s.skip(start)) == (if start == s.len() {
            Seq::<Seq<char>>::empty()
        } else {
            seq![s.subrange(start, s.len() as int)]
        }),
{
    let t = s.skip(start);
    lemma_first_index_of_is(t, '\n', t.len() as int);
    assert(t =~= s.subrange(start, s.len() as int));
}

/// Splits `chars` into its lines, as `str::lines` does.
pub fn split_lines(chars: &Vec<char>) -> (res: Vec<Vec<char>>)
    ensures
        view_lines(res@) == spec_lines(chars@),
{
    let n = chars.len();
    let mut out: Vec<Vec<char>> = Vec::new();
    let mut cur: Vec<char> = Vec::new();
    let mut start: usize = 0;
    let mut j: usize = 0;
    assert(chars@.skip(0) =~= chars@);
    while j < n
        invariant
            n == chars@.len(),
            start <= j <= n,
            cur@ == chars@.subrange(start as int, j as int),
            forall|i: int| start <= i < j ==> chars@[i] != '\n',
            view_lines(out@) + spec_lines(chars@.skip(start as int)) == spec_lines(chars@),
        decreases n - j,
    {
        if chars[j] == '\n' {
            proof {
                lemma_lines_step(chars@, start as int, j as int);
            }
            let ghost line = strip_cr(cur@);
            if cur.len() > 0 && cur[cur.len() - 1] == '\r' {
                cur.pop();
            }
            assert(cur@ == line);
            let ghost old_out = out@;
            out.push(cur);
            assert(view_lines(out@) =~= view_lines(old_out).push(line));
            assert(view_lines(out@) + spec_lines(chars@.skip(j + 1)) =~= view_lines(old_out) + (
            seq![line] + spec_lines(chars@.skip(j + 1))));
            cur = Vec::new();
            start = j + 1;
        } else {
            cur.push(chars[j]);
            assert(cur@ =~= chars@.subrange(start as int, j + 1));
        }
        j += 1;
    }
    proof {
        lemma_lines_last(chars@, start as int);
    }
    if cur.len() > 0 {
        let ghost old_out = out@;
        out.push(cur);
        assert(view_lines(out@) =~= view_lines(old_out).push(chars@.subrange(start as int, n as int)));
    } else {
        assert(view_lines(out@) =~= view_lines(out@) + Seq::<Seq<char>>::empty());
    }
    out
}

// ---------------------------------------------------------------------------
// Decimal numbers
// ---------------------------------------------------------------------------

pub open spec fn is_digit(c: char) -> bool {
    '0' <= c && c <= '9'
}

pub open spec fn digit_value(c: char) -> nat {
    (c as int - '0' as int) as nat
}

pub open spec fn all_digits(s: Seq<char>) -> bool {
    forall|i: int| 0 <= i < s.len() ==> is_digit(#[trigger] s[i])
}

/// The value of a string of decimal digits (most significant first).
pub open spec fn digits_value(s: Seq<char>) -> nat
    decreases s.len(),
{
    if s.len() == 0 {
        0
    } else {
        10 * digits_value(s.drop_last()) + digit_value(s.last())
    }
}

/// `s` without one leading `'+'`.
pub open spec fn unsigned_digits(s: Seq<char>) -> Seq<char> {
    if s.len() > 0 && s[0] == '+' {
        s.drop_first()
    } else {
        s
    }
}

/// What `str::parse::<u32>` accepts: an optional `'+'`, then one or more
/// ASCII digits whose value fits in a `u32`.
pub open spec fn spec_parse_u32(s: Seq<char>) -> Option<u32> {
    let d = unsigned_digits(s);
    if d.len() > 0 && all_digits(d) && digits_value(d) <= u32::MAX {
        Some(digits_value(d) as u32)
    } else {
        None
    }
}

/// A `u32` field of a scan pattern: as `spec_parse_u32`, with at most ten digits.
pub open spec fn spec_scan_u32(s: Seq<char>) -> Option<u32> {
    if unsigned_digits(s).len() <= 10 {
        spec_parse_u32(s)
    } else {
        None
    }
}

proof fn lemma_digits_value_prefix(s: Seq<char>, k: int)
    requires
        0 <= k <= s.len(),
    ensures
        digits_value(s.take(k)) <= digits_value(s),
    decreases s.len(),
{
    if k < s.len() {
        lemma_digits_value_prefix(s.drop_last(), k);
        assert(s.drop_last().take(k) =~= s.take(k));
    } else {
        assert(s.take(k) =~= s);
    }
}

/// Parses `chars[lo..hi]` as `str::parse::<u32>` does.
pub fn parse_u32_range(chars: &Vec<char>, lo: usize, hi: usize) -> (res: Option<u32>)
    requires
        lo <= hi <= chars@.len(),
    ensures
        res == spec_parse_u32(chars@.subrange(lo as int, hi as int)),
{
    let ghost s = chars@.subrange(lo as int, hi as int);
    let mut i = lo;
    if i < hi && chars[i] == '+' {
        i += 1;
    }
    let first = i;
    let ghost d = chars@.subrange(first as int, hi as int);
    assert(unsigned_digits(s) =~= d);
    if i >= hi {
        return None;
    }
    let mut acc: u64 = 0;
    assert(chars@.subrange(first as int, first as int) =~= Seq::<char>::empty());
    while i < hi
        invariant
            lo <= first <= i <= hi <= chars@.len(),
            d == chars@.subrange(first as int, hi as int),
            unsigned_digits(chars@.subrange(lo as int, hi as int)) == d,
            acc <= u32::MAX,
            all_digits(chars@.subrange(first as int, i as int)),
            acc == digits_value(chars@.subrange(first as int, i as int)),
        decreases hi - i,
    {
        let c = chars[i];
        if !('0' <= c && c <= '9') {
            assert(d[i - first] == c);
            assert(!is_digit(d[i - first]));
            return None;
        }
        let ghost prefix = chars@.subrange(first as int, i + 1);
        assert(prefix.drop_last() =~= chars@.subrange(first as int, i as int));
        acc = acc * 10 + (c as u64 - '0' as u64);
        assert(acc == digits_value(prefix));
        if acc > u32::MAX as u64 {
            proof {
                assert(d.take(i + 1 - first) =~= prefix);
                lemma_digits_value_prefix(d, i + 1 - first);
            }
            return None;
        }
        i += 1;
    }
    assert(chars@.subrange(first as int, i as int) =~= d);
    Some(acc as u32)
}

/// Parses `chars[lo..hi]` as a `u32` field of a scan pattern (at most ten digits).
pub fn scan_u32_range(chars: &Vec<char>, lo: usize, hi: usize) -> (res: Option<u32>)
    requires
        lo <= hi <= chars@.len(),
    ensures
        res == spec_scan_u32(chars@.subrange(lo as int, hi as int)),
{
    let ghost s = chars@.subrange(lo as int, hi as int);
    let signed = lo < hi && chars[lo] == '+';
    let digits = if signed { hi - lo - 1 } else { hi - lo };
    assert(unsigned_digits(s).len() == digits);
    if digits > 10 {
        None
    } else {
        parse_u32_range(chars, lo, hi)
    }
}

/// The character of a decimal digit.
pub open spec fn digit_char(d: nat) -> char {
    ((d + 48) as u32) as char
}

/// The decimal representation of `n`, as `format!("{}", n)` writes it.
pub open spec fn decimal(n: nat) -> Seq<char>
    decreases n,
{
    if n < 10 {
        seq![digit_char(n)]
    } else {
        decimal(n / 10).push(digit_char(n % 10))
    }
}

fn digit_to_char(d: u32) -> (c: char)
    requires
        d < 10,
    ensures
        c == digit_char(d as nat),
{
    let b: u8 = 48u8 + d as u8;
    b as char
}

/// Appends the decimal representation of `n` to `out`.
pub fn push_decimal(out: &mut String, n: u32)
    ensures
        final(out)@ == old(out)@ + decimal(n as nat),
    decreases n,
{
    if n >= 10 {
        push_decimal(out, n / 10);
    }
    push_char(out, digit_to_char(n % 10));
    assert(final(out)@ =~= old(out)@ + decimal(n as nat));
}


// ---------------------------------------------------------------------------
// Facts about decimal text
// ---------------------------------------------------------------------------

proof fn lemma_digit_char(d: nat)
    requires
        d < 10,
    ensures
        is_digit(digit_char(d)),
        digit_value(digit_char(d)) == d,
{
    assert(((d + 48) as u32) as char as int == d + 48);
}

/// Decimal text is a non-empty run of ASCII digits worth `n`.
pub proof fn lemma_decimal(n: nat)
    ensures
        decimal(n).len() >= 1,
        all_digits(decimal(n)),
        digits_value(decimal(n)) == n,
    decreases n,
{
    if n < 10 {
        lemma_digit_char(n);
        assert(seq![digit_char(n)].drop_last() =~= Seq::<char>::empty());
        assert(digits_value(Seq::<char>::empty()) == 0);
        assert(digits_value(decimal(n)) == 10 * digits_value(Seq::<char>::empty()) + digit_value(
            digit_char(n),
        ));
    } else {
        lemma_decimal(n / 10);
        lemma_digit_char(n % 10);
        let s = decimal(n / 10);
        assert(s.push(digit_char(n % 10)).drop_last() =~= s);
        assert(decimal(n) == s.push(digit_char(n % 10)));
        assert(digits_value(decimal(n)) == 10 * digits_value(s) + digit_value(digit_char(n % 10)));
        assert forall|i: int| 0 <= i < decimal(n).len() implies is_digit(#[trigger] decimal(n)[i]) by {
            if i < s.len() {
                assert(decimal(n)[i] == s[i]);
            }
        }
    }
}

/// A number below `10^10` (every `u32`) has at most ten digits.
pub proof fn lemma_decimal_len(n: nat)
    requires
        n < 10_000_000_000,
    ensures
        decimal(n).len() <= 10,
{
    reveal_with_fuel(pow10, 11);
    lemma_decimal_len_below(n, 10, 10_000_000_000);
}

proof fn lemma_decimal_len_below(n: nat, k: nat, bound: nat)
    requires
        n < bound,
        bound == pow10(k),
        k >= 1,
    ensures
        decimal(n).len() <= k,
    decreases k,
{
    if n >= 10 {
        let b = pow10((k - 1) as nat);
        assert(bound == 10 * b);
        assert(n / 10 < b);
        if k == 1 {
            assert(pow10(0) == 1);
        }
        lemma_decimal_len_below(n / 10, (k - 1) as nat, b);
    }
}

pub open spec fn pow10(k: nat) -> nat
    decreases k,
{
    if k == 0 {
        1
    } else {
        10 * pow10((k - 1) as nat)
    }
}

/// `str::parse::<u32>`, and a scan field, read back the decimal text of any `u32`.
pub proof fn lemma_parse_decimal(n: u32)
    ensures
        spec_parse_u32(decimal(n as nat)) == Some(n),
        spec_scan_u32(decimal(n as nat)) == Some(n),
{
    lemma_decimal(n as nat);
    reveal_with_fuel(pow10, 11);
    lemma_decimal_len(n as nat);
    let d = decimal(n as nat);
    assert(is_digit(d[0]));
    assert(unsigned_digits(d) == d);
}

/// Decimal text holds no character `c` that is not a digit.
pub proof fn lemma_decimal_lacks(n: nat, c: char)
    requires
        !is_digit(c),
    ensures
        first_index_of(decimal(n), c) == decimal(n).len(),
{
    lemma_decimal(n);
    let d = decimal(n);
    assert forall|i: int| 0 <= i < d.len() implies d[i] != c by {
        assert(is_digit(d[i]));
    }
    lemma_first_index_of_is(d, c, d.len() as int);
}


/// A line with no `'\n'`, ended by `'\n'` or by the end of the text, is the only line.
pub proof fn lemma_single_line(line: Seq<char>)
    requires
        line.len() > 0,
        first_index_of(line, '\n') == line.len(),
        line.last() != '\r',
    ensures
        spec_lines(line) == seq![line],
        spec_lines(line + seq!['\n']) == seq![line],
{
    let t = line + seq!['\n'];
    lemma_first_index_of(line, '\n');
    lemma_first_index_of_is(t, '\n', line.len() as int);
    assert(t.take(line.len() as int) =~= line);
    assert(t.skip(line.len() as int + 1) =~= Seq::<char>::empty());
    assert(spec_lines(Seq::<char>::empty()) == Seq::<Seq<char>>::empty());
    assert(spec_lines(t) =~= seq![line]);
}


/// The first `x` of `s + t`: in `s` if it is there, otherwise in `t`.
pub proof fn lemma_first_index_of_concat<A>(s: Seq<A>, t: Seq<A>, x: A)
    ensures
        first_index_of(s + t, x) == (if first_index_of(s, x) < s.len() {
            first_index_of(s, x)
        } else {
            s.len() + first_index_of(t, x)
        }),
{
    lemma_first_index_of(s, x);
    lemma_first_index_of(t, x);
    let st = s + t;
    if first_index_of(s, x) < s.len() {
        let k = first_index_of(s, x);
        assert forall|i: int| 0 <= i < k implies st[i] != x by {
            assert(st[i] == s[i]);
        }
        assert(st[k] == s[k]);
        lemma_first_index_of_is(st, x, k);
    } else {
        let k = s.len() + first_index_of(t, x);
        assert forall|i: int| 0 <= i < k implies st[i] != x by {
            if i < s.len() {
                assert(st[i] == s[i]);
            } else {
                assert(st[i] == t[i - s.len()]);
            }
        }
        if k < st.len() {
            assert(st[k] == t[first_index_of(t, x)]);
        }
        lemma_first_index_of_is(st, x, k);
    }
}

/// Splitting `x + "\n" + y` into lines splits `x + "\n"` and `y` apart.
pub proof fn lemma_lines_concat(x: Seq<char>, y: Seq<char>)
    ensures
        spec_lines(x + seq!['\n'] + y) == spec_lines(x + seq!['\n']) + spec_lines(y),
    decreases x.len(),
{
    let a = x + seq!['\n'];
    let w = a + y;
    lemma_first_index_of(x, '\n');
    lemma_first_index_of_concat(x, seq!['\n'], '\n');
    lemma_first_index_of_concat(a, y, '\n');
    let k = first_index_of(x, '\n');
    assert(seq!['\n'][0] == '\n');
    assert(first_index_of(seq!['\n'], '\n') == 0);
    lemma_first_index_of(a, '\n');
    assert(first_index_of(a, '\n') == k);
    assert(first_index_of(w, '\n') == k);
    assert(w.take(k) =~= a.take(k));
    if k < x.len() {
        let x2 = x.skip(k + 1);
        assert(a.skip(k + 1) =~= x2 + seq!['\n']);
        assert(w.skip(k + 1) =~= x2 + seq!['\n'] + y);
        lemma_lines_concat(x2, y);
        assert(spec_lines(w) =~= spec_lines(a) + spec_lines(y));
    } else {
        assert(a.skip(k + 1) =~= Seq::<char>::empty());
        assert(w.skip(k + 1) =~= y);
        assert(spec_lines(Seq::<char>::empty()) == Seq::<Seq<char>>::empty());
        assert(spec_lines(w) =~= spec_lines(a) + spec_lines(y));
    }
}


/// Decimal text starts with `'0'` only for zero, which is the single digit `"0"`.
pub proof fn lemma_decimal_no_leading_zero(n: nat)
    ensures
        decimal(n)[0] == '0' ==> n == 0,
        n == 0 ==> decimal(n).len() == 1,
    decreases n,
{
    if n < 10 {
        lemma_digit_char(n);
        assert(digit_value('0') == 0);
    } else {
        lemma_decimal_no_leading_zero(n / 10);
        lemma_decimal(n / 10);
        assert(decimal(n)[0] == decimal(n / 10)[0]);
    }
}

/// `s` is the canonical decimal text of `n`: ASCII digits only, no leading
/// zero, and `str::parse::<u32>` reads it back as `n`.
pub open spec fn canonical_decimal(s: Seq<char>, n: u32) -> bool {
    &&& s.len() >= 1
    &&& all_digits(s)
    &&& (s.len() == 1 || s[0] != '0')
    &&& spec_parse_u32(s) == Some(n)
}

/// The decimal text of `n` is canonical.
pub proof fn lemma_decimal_canonical(n: u32)
    ensures
        canonical_decimal(decimal(n as nat), n),
{
    lemma_decimal(n as nat);
    lemma_decimal_no_leading_zero(n as nat);
    lemma_parse_decimal(n);
}

} // verus!
