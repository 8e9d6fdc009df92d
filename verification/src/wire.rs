//! Exact wire text: decimal numbers, JSON string escaping, and the small
//! scanners that the frame and envelope decoders are built from.
//!
//! The service's WebSocket frames and response envelopes are JSON documents
//! of a fixed shape.  This module pins down, character by character, the
//! canonical text of the pieces those shapes are made of, so that the
//! encoders and decoders above it can state exactly which texts they accept
//! and produce.

use vstd::prelude::*;

verus! {

/// Whether `c` is a decimal digit.
pub open spec fn is_digit(c: char) -> bool {
    48 <= c as u32 <= 57
}

/// The numeric value of a digit character.
pub open spec fn digit_val(c: char) -> int {
    c as u32 - 48
}

/// The digit character for a value below ten.
pub open spec fn digit_char(d: int) -> char {
    if d == 0 {
        '0'
    } else if d == 1 {
        '1'
    } else if d == 2 {
        '2'
    } else if d == 3 {
        '3'
    } else if d == 4 {
        '4'
    } else if d == 5 {
        '5'
    } else if d == 6 {
        '6'
    } else if d == 7 {
        '7'
    } else if d == 8 {
        '8'
    } else {
        '9'
    }
}

/// The decimal digit string of `n`, most significant digit first.
pub open spec fn dec_digits(n: nat) -> Seq<char>
    decreases n,
{
    if n < 10 {
        seq![digit_char(n as int)]
    } else {
        dec_digits(n / 10) + seq![digit_char((n % 10) as int)]
    }
}

/// Whether every character of `s` is a decimal digit.
pub open spec fn all_digits(s: Seq<char>) -> bool {
    forall|k: int| 0 <= k < s.len() ==> is_digit(#[trigger] s[k])
}

/// The numeric value of a digit string.
pub open spec fn digits_val(s: Seq<char>) -> int
    decreases s.len(),
{
    if s.len() == 0 {
        0
    } else {
        digits_val(s.drop_last()) * 10 + digit_val(s.last())
    }
}

proof fn lemma_digits_val_nonneg(s: Seq<char>)
    requires
        all_digits(s),
    ensures
        digits_val(s) >= 0,
    decreases s.len(),
{
    if s.len() > 0 {
        assert(all_digits(s.drop_last()));
        lemma_digits_val_nonneg(s.drop_last());
        let v = digits_val(s.drop_last());
        assert(v * 10 >= 0) by (nonlinear_arith)
            requires
                v >= 0,
        ;
        assert(is_digit(s.last()));
    }
}

/// The decimal digit string of `n` is nonempty, all digits, and evaluates
/// back to `n`.
pub proof fn lemma_dec_digits(n: nat)
    ensures
        dec_digits(n).len() >= 1,
        all_digits(dec_digits(n)),
        digits_val(dec_digits(n)) == n,
    decreases n,
{
    if n < 10 {
        let s = dec_digits(n);
        assert(s.len() == 1);
        assert(s.last() == digit_char(n as int));
        assert(s.drop_last() =~= Seq::<char>::empty());
        assert(digits_val(s.drop_last()) == 0);
        assert(is_digit(digit_char(n as int)));
        assert(digit_val(digit_char(n as int)) == n);
        assert(digits_val(s) == 0 * 10 + digit_val(s.last()));
    } else {
        lemma_dec_digits(n / 10);
        let hd = dec_digits(n / 10);
        let s = dec_digits(n);
        let d = (n % 10) as int;
        assert(s == hd + seq![digit_char(d)]);
        assert(s.drop_last() =~= hd);
        assert(s.last() == digit_char(d));
        assert(is_digit(digit_char(d)));
        assert(digit_val(digit_char(d)) == d);
        assert(all_digits(s)) by {
            assert forall|k: int| 0 <= k < s.len() implies is_digit(#[trigger] s[k]) by {
                if k < hd.len() {
                    assert(s[k] == hd[k]);
                } else {
                    assert(s[k] == digit_char(d));
                }
            }
        }
        assert(n == (n / 10) * 10 + n % 10) by (nonlinear_arith);
        assert(digits_val(s) == digits_val(hd) * 10 + d);
    }
}

/// The digit character of `d` as a string slice.
pub fn digit_str(d: u64) -> (r: &'static str)
    requires
        d < 10,
    ensures
        r@ =~= seq![digit_char(d as int)],
{
    let r: &'static str = if d == 0 {
        "0"
    } else if d == 1 {
        "1"
    } else if d == 2 {
        "2"
    } else if d == 3 {
        "3"
    } else if d == 4 {
        "4"
    } else if d == 5 {
        "5"
    } else if d == 6 {
        "6"
    } else if d == 7 {
        "7"
    } else if d == 8 {
        "8"
    } else {
        "9"
    };
    proof {
        reveal_strlit("0");
        reveal_strlit("1");
        reveal_strlit("2");
        reveal_strlit("3");
        reveal_strlit("4");
        reveal_strlit("5");
        reveal_strlit("6");
        reveal_strlit("7");
        reveal_strlit("8");
        reveal_strlit("9");
    }
    r
}

/// The digit characters of the pushed remainders, most recent first.
spec fn rev_digit_chars(rem: Seq<u64>) -> Seq<char> {
    Seq::new(rem.len(), |i: int| digit_char(rem[rem.len() - 1 - i] as int))
}

/// Prints `n` in decimal.
pub fn u64_to_string(n: u64) -> (r: String)
    ensures
        r@ == dec_digits(n as nat),
{
    let mut rem: Vec<u64> = Vec::new();
    let mut m: u64 = n;
    loop
        invariant_except_break
            dec_digits(n as nat) == dec_digits(m as nat) + rev_digit_chars(rem@),
        invariant
            forall|k: int| 0 <= k < rem@.len() ==> #[trigger] rem@[k] < 10,
        ensures
            dec_digits(n as nat) == rev_digit_chars(rem@),
            forall|k: int| 0 <= k < rem@.len() ==> #[trigger] rem@[k] < 10,
        decreases m,
    {
        let ghost rem0 = rem@;
        let ghost m0 = m as nat;
        let d = m % 10;
        rem.push(d);
        proof {
            assert(rev_digit_chars(rem@) =~= seq![digit_char((m0 % 10) as int)]
                + rev_digit_chars(rem0));
        }
        if m < 10 {
            proof {
                assert(m0 % 10 == m0);
                assert(dec_digits(m0) == seq![digit_char((m0 % 10) as int)]);
                assert(dec_digits(n as nat) =~= rev_digit_chars(rem@));
            }
            break ;
        }
        m = m / 10;
        proof {
            assert(dec_digits(m0) == dec_digits(m0 / 10) + seq![digit_char((m0 % 10) as int)]);
            assert(dec_digits(m0) + rev_digit_chars(rem0) =~= dec_digits(m as nat)
                + rev_digit_chars(rem@));
        }
    }
    let mut s = String::new();
    let mut i: usize = rem.len();
    while i > 0
        invariant
            i <= rem@.len(),
            forall|k: int| 0 <= k < rem@.len() ==> #[trigger] rem@[k] < 10,
            dec_digits(n as nat) == rev_digit_chars(rem@),
            s@ == rev_digit_chars(rem@).take(rem@.len() - i),
        decreases i,
    {
        i = i - 1;
        let ghost before = s@;
        s.append(digit_str(rem[i]));
        proof {
            let full = rev_digit_chars(rem@);
            assert(full[rem@.len() - i - 1] == digit_char(rem@[i as int] as int));
            assert(s@ =~= full.take(rem@.len() - i));
        }
    }
    proof {
        assert(rev_digit_chars(rem@).take(rem@.len() - 0) =~= rev_digit_chars(rem@));
    }
    s
}

/// Where the run of digit characters starting at `i` ends.
pub open spec fn digit_run_end(s: Seq<char>, i: int) -> int
    decreases s.len() - i,
{
    if 0 <= i < s.len() && is_digit(s[i]) {
        digit_run_end(s, i + 1)
    } else {
        i
    }
}

pub proof fn lemma_digit_run_end(s: Seq<char>, i: int)
    requires
        0 <= i <= s.len(),
    ensures
        i <= digit_run_end(s, i) <= s.len(),
        forall|k: int| i <= k < digit_run_end(s, i) ==> is_digit(#[trigger] s[k]),
        digit_run_end(s, i) < s.len() ==> !is_digit(s[digit_run_end(s, i)]),
    decreases s.len() - i,
{
    if i < s.len() && is_digit(s[i]) {
        lemma_digit_run_end(s, i + 1);
    }
}

/// A digit run ends exactly where the digits laid down by `dec_digits` end,
/// provided something other than a digit follows them.
pub proof fn lemma_digit_run_end_of_digits(s: Seq<char>, i: int, digits: Seq<char>)
    requires
        0 <= i,
        i + digits.len() <= s.len(),
        digits.len() >= 1,
        all_digits(digits),
        forall|k: int| 0 <= k < digits.len() ==> s[i + k] == digits[k],
        i + digits.len() < s.len() ==> !is_digit(s[i + digits.len()]),
    ensures
        digit_run_end(s, i) == i + digits.len(),
    decreases digits.len(),
{
    assert(s[i + 0] == digits[0]);
    assert(is_digit(s[i]));
    if digits.len() == 1 {
        assert(digit_run_end(s, i + 1) == i + 1);
    } else {
        let rest = digits.skip(1);
        assert(all_digits(rest));
        assert forall|k: int| 0 <= k < rest.len() implies s[i + 1 + k] == rest[k] by {
            assert(s[i + (k + 1)] == digits[k + 1]);
        }
        lemma_digit_run_end_of_digits(s, i + 1, rest);
    }
}

/// Whether the character at position `i` of `s` is a decimal digit.
fn digit_at(s: &str, i: usize) -> (b: bool)
    requires
        i < s@.len(),
    ensures
        b == is_digit(s@[i as int]),
{
    let c = s.get_char(i);
    let v = c as u32;
    48 <= v && v <= 57
}

/// Finds the end of the digit run starting at `i`.
pub fn scan_digits(s: &str, i: usize) -> (j: usize)
    requires
        i <= s@.len(),
        s@.len() <= usize::MAX,
    ensures
        j == digit_run_end(s@, i as int),
        i <= j <= s@.len(),
{
    let n = s.unicode_len();
    let mut j = i;
    while j < n && digit_at(s, j)
        invariant
            i <= j <= n,
            n == s@.len(),
            s@.len() <= usize::MAX,
            digit_run_end(s@, i as int) == digit_run_end(s@, j as int),
        decreases n - j,
    {
        j = j + 1;
    }
    proof {
        lemma_digit_run_end(s@, i as int);
    }
    j
}

proof fn lemma_digits_val_monotone(s: Seq<char>, j: int)
    requires
        all_digits(s),
        0 <= j <= s.len(),
    ensures
        digits_val(s.take(j)) <= digits_val(s),
    decreases s.len() - j,
{
    if j < s.len() {
        lemma_digits_val_monotone(s, j + 1);
        let a = s.take(j);
        let b = s.take(j + 1);
        assert(b.drop_last() =~= a);
        assert(b.last() == s[j]);
        assert(all_digits(a));
        lemma_digits_val_nonneg(a);
        let v = digits_val(a);
        assert(v * 10 >= v) by (nonlinear_arith)
            requires
                v >= 0,
        ;
        assert(is_digit(s[j]));
        assert(digits_val(b) == v * 10 + digit_val(s[j]));
    } else {
        assert(s.take(j) =~= s);
    }
}

/// Evaluates the digit characters of `s` between `from` and `to`, reporting
/// `None` exactly when the value does not fit in a `u64`.
pub fn parse_digits(s: &str, from: usize, to: usize) -> (r: Option<u64>)
    requires
        from <= to <= s@.len(),
        all_digits(s@.subrange(from as int, to as int)),
    ensures
        match r {
            Some(v) => v == digits_val(s@.subrange(from as int, to as int)),
            None => digits_val(s@.subrange(from as int, to as int)) > u64::MAX,
        },
{
    let ghost whole = s@.subrange(from as int, to as int);
    let mut acc: u64 = 0;
    let mut k = from;
    while k < to
        invariant
            from <= k <= to <= s@.len(),
            all_digits(whole),
            whole == s@.subrange(from as int, to as int),
            acc == digits_val(whole.take(k - from)),
        decreases to - k,
    {
        let ghost prefix = whole.take(k - from);
        let c = s.get_char(k);
        proof {
            assert(whole[k - from] == s@[k as int]);
            assert(is_digit(whole[k - from]));
        }
        let d = (c as u32) as u64 - 48;
        let next = match acc.checked_mul(10) {
            Some(t) => t.checked_add(d),
            None => None,
        };
        proof {
            let longer = whole.take(k - from + 1);
            assert(longer.drop_last() =~= prefix);
            assert(longer.last() == whole[k - from]);
            assert(digits_val(longer) == digits_val(prefix) * 10 + digit_val(whole[k - from]));
        }
        match next {
            Some(v) => {
                acc = v;
            },
            None => {
                proof {
                    lemma_digits_val_monotone(whole, k - from + 1);
                }
                return None;
            },
        }
        k = k + 1;
    }
    proof {
        assert(whole.take(to - from) =~= whole);
    }
    Some(acc)
}

/// Whether `p` occurs in `s` exactly at position `i`.
pub open spec fn match_at_spec(s: Seq<char>, i: int, p: Seq<char>) -> bool {
    &&& 0 <= i
    &&& i + p.len() <= s.len()
    &&& s.subrange(i, i + p.len()) == p
}

/// Tests whether `pat` occurs in `s` exactly at position `i`.
pub fn match_at(s: &str, i: usize, pat: &str) -> (b: bool)
    requires
        i <= s@.len(),
        s@.len() <= usize::MAX,
    ensures
        b == match_at_spec(s@, i as int, pat@),
{
    let n = s.unicode_len();
    let m = pat.unicode_len();
    if m > n - i {
        proof {
            assert(i + pat@.len() > s@.len());
        }
        return false;
    }
    let mut k: usize = 0;
    while k < m
        invariant
            k <= m,
            m == pat@.len(),
            n == s@.len(),
            i + m <= n <= usize::MAX,
            forall|j: int| 0 <= j < k ==> s@[i + j] == pat@[j],
        decreases m - k,
    {
        let a = s.get_char(i + k);
        let b = pat.get_char(k);
        if a != b {
            proof {
                assert(s@.subrange(i as int, i + pat@.len())[k as int] != pat@[k as int]);
            }
            return false;
        }
        k = k + 1;
    }
    proof {
        assert(s@.subrange(i as int, i + pat@.len()) =~= pat@);
    }
    true
}

/// Whether `c` is JSON whitespace.
pub open spec fn is_ws(c: char) -> bool {
    c == ' ' || c == '\t' || c == '\n' || c == '\r'
}

/// Where the run of whitespace starting at `i` ends.
pub open spec fn ws_end(s: Seq<char>, i: int) -> int
    decreases s.len() - i,
{
    if 0 <= i < s.len() && is_ws(s[i]) {
        ws_end(s, i + 1)
    } else {
        i
    }
}

proof fn lemma_ws_end(s: Seq<char>, i: int)
    requires
        0 <= i <= s.len(),
    ensures
        i <= ws_end(s, i) <= s.len(),
        ws_end(s, i) < s.len() ==> !is_ws(s[ws_end(s, i)]),
    decreases s.len() - i,
{
    if i < s.len() && is_ws(s[i]) {
        lemma_ws_end(s, i + 1);
    }
}

/// Whether the character at position `i` of `s` is JSON whitespace.
fn ws_at(s: &str, i: usize) -> (b: bool)
    requires
        i < s@.len(),
    ensures
        b == is_ws(s@[i as int]),
{
    let c = s.get_char(i);
    c == ' ' || c == '\t' || c == '\n' || c == '\r'
}

/// Finds the end of the whitespace run starting at `i`.
pub fn skip_ws(s: &str, i: usize) -> (j: usize)
    requires
        i <= s@.len(),
        s@.len() <= usize::MAX,
    ensures
        j == ws_end(s@, i as int),
        i <= j <= s@.len(),
{
    let n = s.unicode_len();
    let mut j = i;
    while j < n && ws_at(s, j)
        invariant
            i <= j <= n,
            n == s@.len(),
            s@.len() <= usize::MAX,
            ws_end(s@, i as int) == ws_end(s@, j as int),
        decreases n - j,
    {
        j = j + 1;
    }
    proof {
        lemma_ws_end(s@, i as int);
    }
    j
}

/// Where the JSON string whose content starts at `i` (just past the opening
/// quote) has its closing quote, honouring backslash escapes; negative when
/// the string never closes.
pub open spec fn string_end(s: Seq<char>, i: int, esc: bool) -> int
    decreases s.len() - i,
{
    if i < 0 || i >= s.len() {
        -1
    } else if esc {
        string_end(s, i + 1, false)
    } else if s[i] == '\\' {
        string_end(s, i + 1, true)
    } else if s[i] == '"' {
        i
    } else {
        string_end(s, i + 1, false)
    }
}

proof fn lemma_string_end(s: Seq<char>, i: int, esc: bool)
    requires
        0 <= i <= s.len(),
    ensures
        string_end(s, i, esc) == -1 || i <= string_end(s, i, esc) < s.len(),
        string_end(s, i, esc) >= 0 ==> s[string_end(s, i, esc)] == '"',
    decreases s.len() - i,
{
    if i < s.len() {
        lemma_string_end(s, i + 1, false);
        lemma_string_end(s, i + 1, true);
    }
}

/// Finds the closing quote of the JSON string whose content starts at `i`.
pub fn scan_string(s: &str, i: usize) -> (r: Option<usize>)
    requires
        i <= s@.len(),
        s@.len() <= usize::MAX,
    ensures
        match r {
            Some(j) => i <= j < s@.len() && j == string_end(s@, i as int, false),
            None => string_end(s@, i as int, false) == -1,
        },
{
    let n = s.unicode_len();
    let mut j = i;
    let mut esc = false;
    loop
        invariant
            i <= j <= n,
            n == s@.len(),
            s@.len() <= usize::MAX,
            string_end(s@, i as int, false) == string_end(s@, j as int, esc),
        ensures
            (j < n && !esc && s@[j as int] == '"' && string_end(s@, i as int, false) == j) || (j
                == n && string_end(s@, i as int, false) == -1),
        decreases n - j,
    {
        if j == n {
            break ;
        }
        let c = s.get_char(j);
        if esc {
            esc = false;
        } else if c == '\\' {
            esc = true;
        } else if c == '"' {
            break ;
        }
        j = j + 1;
    }
    if j < n {
        Some(j)
    } else {
        None
    }
}

/// The spelled-out hexadecimal digit for a value below sixteen.
pub open spec fn hex_char(d: int) -> char {
    if d < 10 {
        digit_char(d)
    } else if d == 10 {
        'a'
    } else if d == 11 {
        'b'
    } else if d == 12 {
        'c'
    } else if d == 13 {
        'd'
    } else if d == 14 {
        'e'
    } else {
        'f'
    }
}

/// How one character is written inside a JSON string: quotes, backslashes
/// and the named control characters get a two-character escape, the other
/// control characters a `\u00..` escape, and everything else stands as
/// itself.
pub open spec fn esc_char(c: char) -> Seq<char> {
    if c == '"' {
        seq!['\\', '"']
    } else if c == '\\' {
        seq!['\\', '\\']
    } else if c == '\n' {
        seq!['\\', 'n']
    } else if c == '\r' {
        seq!['\\', 'r']
    } else if c == '\t' {
        seq!['\\', 't']
    } else if (c as u32) < 32 {
        seq!['\\', 'u', '0', '0', hex_char(c as u32 as int / 16), hex_char(c as u32 as int % 16)]
    } else {
        seq![c]
    }
}

/// The escaped body of a JSON string holding the text `s`.
pub open spec fn json_escape(s: Seq<char>) -> Seq<char>
    decreases s.len(),
{
    if s.len() == 0 {
        Seq::<char>::empty()
    } else {
        esc_char(s[0]) + json_escape(s.skip(1))
    }
}

/// The JSON string literal holding the text `s`, quotes included.
pub open spec fn json_string(s: Seq<char>) -> Seq<char> {
    seq!['"'] + json_escape(s) + seq!['"']
}

/// The hexadecimal digit character for a value below sixteen.
fn hex_str(d: u32) -> (r: &'static str)
    requires
        d < 16,
    ensures
        r@ =~= seq![hex_char(d as int)],
{
    if d < 10 {
        digit_str(d as u64)
    } else {
        let r: &'static str = if d == 10 {
            "a"
        } else if d == 11 {
            "b"
        } else if d == 12 {
            "c"
        } else if d == 13 {
            "d"
        } else if d == 14 {
            "e"
        } else {
            "f"
        };
        proof {
            reveal_strlit("a");
            reveal_strlit("b");
            reveal_strlit("c");
            reveal_strlit("d");
            reveal_strlit("e");
            reveal_strlit("f");
        }
        r
    }
}

proof fn lemma_json_escape_snoc(s: Seq<char>, k: int)
    requires
        0 <= k < s.len(),
    ensures
        json_escape(s.take(k + 1)) == json_escape(s.take(k)) + esc_char(s[k]),
    decreases k,
{
    let a = s.take(k + 1);
    if k == 0 {
        assert(a.skip(1) =~= Seq::<char>::empty());
        assert(s.take(0) =~= Seq::<char>::empty());
        assert(json_escape(a) == esc_char(a[0]) + json_escape(a.skip(1)));
        assert(esc_char(s[0]) + Seq::<char>::empty() =~= esc_char(s[0]));
        assert(Seq::<char>::empty() + esc_char(s[0]) =~= esc_char(s[0]));
    } else {
        lemma_json_escape_snoc(s.skip(1), k - 1);
        let b = s.take(k);
        assert(a.skip(1) =~= s.skip(1).take(k));
        assert(b.skip(1) =~= s.skip(1).take(k - 1));
        assert(a[0] == s[0] && b[0] == s[0]);
        assert(json_escape(a) == esc_char(s[0]) + json_escape(s.skip(1).take(k)));
        assert(json_escape(b) == esc_char(s[0]) + json_escape(s.skip(1).take(k - 1)));
        assert(s.skip(1)[k - 1] == s[k]);
        assert(json_escape(s.skip(1).take(k)) == json_escape(s.skip(1).take(k - 1)) + esc_char(
            s[k],
        ));
        assert(json_escape(a) =~= json_escape(b) + esc_char(s[k]));
    }
}

/// Writes the text `s` as the body of a JSON string, escaping as needed.
pub fn json_escape_str(s: &str) -> (r: String)
    ensures
        r@ == json_escape(s@),
{
    let n = s.unicode_len();
    let mut out = String::new();
    let mut k: usize = 0;
    while k < n
        invariant
            k <= n,
            n == s@.len() <= usize::MAX,
            out@ == json_escape(s@.take(k as int)),
        decreases n - k,
    {
        let c = s.get_char(k);
        let v = c as u32;
        if c == '"' {
            out.append("\\\"");
            proof {
                reveal_strlit("\\\"");
            }
        } else if c == '\\' {
            out.append("\\\\");
            proof {
                reveal_strlit("\\\\");
            }
        } else if c == '\n' {
            out.append("\\n");
            proof {
                reveal_strlit("\\n");
            }
        } else if c == '\r' {
            out.append("\\r");
            proof {
                reveal_strlit("\\r");
            }
        } else if c == '\t' {
            out.append("\\t");
            proof {
                reveal_strlit("\\t");
            }
        } else if v < 32 {
            out.append("\\u00");
            out.append(hex_str(v / 16));
            out.append(hex_str(v % 16));
            proof {
                reveal_strlit("\\u00");
            }
        } else {
            let one = s.substring_char(k, k + 1);
            out.append(one);
            proof {
                assert(one@ =~= seq![s@[k as int]]);
            }
        }
        proof {
            lemma_json_escape_snoc(s@, k as int);
            assert(out@ =~= json_escape(s@.take(k as int)) + esc_char(s@[k as int]));
        }
        k = k + 1;
    }
    proof {
        assert(s@.take(n as int) =~= s@);
    }
    out
}

/// Writes the text `s` as a full JSON string literal, quotes included.
pub fn json_quote(s: &str) -> (r: String)
    ensures
        r@ == json_string(s@),
{
    let mut out = String::new();
    out.append("\"");
    let body = json_escape_str(s);
    out.append(body.as_str());
    out.append("\"");
    proof {
        reveal_strlit("\"");
        assert(out@ =~= json_string(s@));
    }
    out
}

/// Whether two string slices hold the same text.
pub fn str_eq(a: &str, b: &str) -> (r: bool)
    ensures
        r == (a@ == b@),
{
    let n = a.unicode_len();
    let m = b.unicode_len();
    if n != m {
        return false;
    }
    let matched = match_at(a, 0, b);
    proof {
        if matched {
            assert(a@.subrange(0, b@.len() as int) =~= a@);
        } else {
            assert(a@.subrange(0, b@.len() as int) =~= a@);
        }
    }
    matched
}

/// The texts written as JSON strings, joined by comma-space.
pub open spec fn quoted_list(xs: Seq<Seq<char>>) -> Seq<char>
    decreases xs.len(),
{
    if xs.len() == 0 {
        Seq::<char>::empty()
    } else if xs.len() == 1 {
        json_string(xs[0])
    } else {
        json_string(xs[0]) + ", "@ + quoted_list(xs.skip(1))
    }
}

proof fn lemma_quoted_list_snoc(xs: Seq<Seq<char>>, k: int)
    requires
        0 <= k < xs.len(),
    ensures
        k == 0 ==> quoted_list(xs.take(1)) == json_string(xs[0]),
        k > 0 ==> quoted_list(xs.take(k + 1)) == quoted_list(xs.take(k)) + ", "@ + json_string(
            xs[k],
        ),
    decreases k,
{
    if k == 0 {
        let a = xs.take(1);
        assert(a.len() == 1);
        assert(a[0] == xs[0]);
    } else {
        lemma_quoted_list_snoc(xs.skip(1), k - 1);
        let a = xs.take(k + 1);
        let b = xs.take(k);
        assert(a.len() == k + 1 >= 2);
        assert(a[0] == xs[0] && b[0] == xs[0]);
        assert(a.skip(1) =~= xs.skip(1).take(k));
        assert(quoted_list(a) == json_string(xs[0]) + ", "@ + quoted_list(xs.skip(1).take(k)));
        if k == 1 {
            assert(xs.skip(1)[0] == xs[1]);
            assert(quoted_list(xs.skip(1).take(1)) == json_string(xs[1]));
            assert(b.len() == 1);
            assert(quoted_list(b) == json_string(xs[0]));
            assert(quoted_list(a) =~= quoted_list(b) + ", "@ + json_string(xs[k]));
        } else {
            assert(b.skip(1) =~= xs.skip(1).take(k - 1));
            assert(b.len() >= 2);
            assert(quoted_list(b) == json_string(xs[0]) + ", "@ + quoted_list(
                xs.skip(1).take(k - 1),
            ));
            assert(xs.skip(1)[k - 1] == xs[k]);
            assert(quoted_list(xs.skip(1).take(k)) == quoted_list(xs.skip(1).take(k - 1)) + ", "@
                + json_string(xs[k]));
            assert(quoted_list(a) =~= quoted_list(b) + ", "@ + json_string(xs[k]));
        }
    }
}

/// Writes the strings as a bracketed, comma-separated list of JSON string
/// literals.
pub fn quoted_list_str(xs: &Vec<String>) -> (r: String)
    ensures
        r@ == "["@ + quoted_list(xs.deep_view()) + "]"@,
{
    let mut out = String::from_str("[");
    let ghost all = xs.deep_view();
    let mut i: usize = 0;
    while i < xs.len()
        invariant
            i <= xs@.len(),
            all == xs.deep_view(),
            all.len() == xs@.len(),
            forall|k: int| 0 <= k < xs@.len() ==> all[k] == #[trigger] xs@[k]@,
            out@ == "["@ + quoted_list(all.take(i as int)),
        decreases xs@.len() - i,
    {
        if i > 0 {
            out.append(", ");
        }
        let quoted = json_quote(xs[i].as_str());
        out.append(quoted.as_str());
        proof {
            lemma_quoted_list_snoc(all, i as int);
            assert(out@ =~= "["@ + quoted_list(all.take(i + 1)));
        }
        i = i + 1;
    }
    out.append("]");
    proof {
        assert(all.take(all.len() as int) =~= all);
        assert(out@ =~= "["@ + quoted_list(all) + "]"@);
    }
    out
}

} // verus!
