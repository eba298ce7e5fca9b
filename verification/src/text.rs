//! Character-level text utilities: case-insensitive matching, whitespace
//! trimming, line splitting and decimal formatting, all specified over
//! sequences of characters.

use vstd::prelude::*;
use vstd::string::StrSliceExecFns;
use vstd::string::StringExecFns;

verus! {

/// Code point of `c` with ASCII upper-case letters folded to lower case;
/// every other character is left as it is. Folding is deliberately
/// ASCII-only: the whole trigger vocabulary is ASCII, so wider folding
/// could only change which characters of the input count as equal to each
/// other, never whether a trigger matches.
pub open spec fn lower_code(c: char) -> int {
    if 65 <= c as u32 && c as u32 <= 90 {
        c as u32 + 32
    } else {
        c as u32 as int
    }
}

/// `a` and `b` are equal up to ASCII case.
pub open spec fn char_eq_ci(a: char, b: char) -> bool {
    lower_code(a) == lower_code(b)
}

/// `pat` occurs in `text` at position `i`, compared case-insensitively.
pub open spec fn match_at(text: Seq<char>, pat: Seq<char>, i: int) -> bool {
    &&& 0 <= i
    &&& i + pat.len() <= text.len()
    &&& forall|k: int| 0 <= k < pat.len() ==> char_eq_ci(text[i + k], pat[k])
}

/// `pat` occurs somewhere in `text`, compared case-insensitively.
pub open spec fn contains_ci(text: Seq<char>, pat: Seq<char>) -> bool {
    exists|i: int| match_at(text, pat, i)
}

/// ASCII whitespace, deliberately so: the characters that both
/// `char::is_whitespace` and the regex class `\s` accept within the ASCII
/// range. Exotic Unicode spaces do not count as whitespace here.
pub open spec fn is_ws(c: char) -> bool {
    c == ' ' || c == '\t' || c == '\n' || c == '\r' || c == '\x0b' || c == '\x0c'
}

/// The characters of `s` as a vector, one element per `char`.
pub fn str_to_chars(s: &str) -> (r: Vec<char>)
    ensures
        r@ == s@,
{
    let n = s.unicode_len();
    let mut r: Vec<char> = Vec::new();
    let mut i: usize = 0;
    while i < n
        invariant
            n == s@.len(),
            i <= n,
            r@ =~= s@.take(i as int),
        decreases n - i,
    {
        r.push(s.get_char(i));
        i = i + 1;
    }
    proof {
        assert(r@ =~= s@);
    }
    r
}

/// Lower-cased code point of `c`, as executable code.
pub fn lower(c: char) -> (r: u32)
    ensures
        r == lower_code(c),
{
    let u = c as u32;
    if 65 <= u && u <= 90 {
        u + 32
    } else {
        u
    }
}

/// Whether `pat` occurs in `text` at position `i`, compared
/// case-insensitively.
pub fn match_at_exec(text: &Vec<char>, pat: &Vec<char>, i: usize) -> (r: bool)
    requires
        i + pat@.len() <= text@.len(),
    ensures
        r == match_at(text@, pat@, i as int),
{
    let n = text.len();
    let mut k: usize = 0;
    while k < pat.len()
        invariant
            n == text@.len(),
            i + pat@.len() <= text@.len(),
            k <= pat@.len(),
            forall|j: int| 0 <= j < k ==> char_eq_ci(text@[i + j], pat@[j]),
        decreases pat@.len() - k,
    {
        if lower(text[i + k]) != lower(pat[k]) {
            return false;
        }
        k = k + 1;
    }
    true
}

/// Whether `pat` occurs anywhere in `text`, compared case-insensitively.
pub fn contains_pat(text: &Vec<char>, pat: &Vec<char>) -> (r: bool)
    ensures
        r == contains_ci(text@, pat@),
{
    if pat.len() > text.len() {
        return false;
    }
    let last = text.len() - pat.len();
    let mut i: usize = 0;
    while i < last
        invariant
            pat@.len() <= text@.len(),
            last == text@.len() - pat@.len(),
            i <= last,
            forall|j: int| 0 <= j < i ==> !match_at(text@, pat@, j),
        decreases last - i,
    {
        if match_at_exec(text, pat, i) {
            return true;
        }
        i = i + 1;
    }
    match_at_exec(text, pat, last)
}

/// Whether the literal `pat` occurs anywhere in `text`, compared
/// case-insensitively.
pub fn contains_lit(text: &Vec<char>, pat: &str) -> (r: bool)
    ensures
        r == contains_ci(text@, pat@),
{
    let p = str_to_chars(pat);
    contains_pat(text, &p)
}

/// Relies on std's `String::push`: appends the given character to the end of
/// the string.
#[verifier::external_body]
pub fn push_char(s: &mut String, c: char)
    ensures
        final(s)@ == old(s)@ + seq![c],
{
    s.push(c)
}

/// Whether two string slices hold the same characters.
pub fn str_eq(a: &str, b: &str) -> (r: bool)
    ensures
        r == (a@ == b@),
{
    let va = str_to_chars(a);
    let vb = str_to_chars(b);
    if va.len() != vb.len() {
        return false;
    }
    let n = va.len();
    let mut i: usize = 0;
    while i < n
        invariant
            va@ == a@,
            vb@ == b@,
            n == va@.len(),
            n == vb@.len(),
            i <= n,
            forall|j: int| 0 <= j < i ==> va@[j] == vb@[j],
        decreases n - i,
    {
        if va[i] != vb[i] {
            return false;
        }
        i = i + 1;
    }
    proof {
        assert(a@ =~= b@);
    }
    true
}

/// The elements of `v` between `lo` (inclusive) and `hi` (exclusive).
pub fn vec_range(v: &Vec<char>, lo: usize, hi: usize) -> (r: Vec<char>)
    requires
        lo <= hi <= v@.len(),
    ensures
        r@ == v@.subrange(lo as int, hi as int),
{
    let mut r: Vec<char> = Vec::new();
    let mut i: usize = lo;
    while i < hi
        invariant
            lo <= i <= hi <= v@.len(),
            r@ =~= v@.subrange(lo as int, i as int),
        decreases hi - i,
    {
        r.push(v[i]);
        i = i + 1;
    }
    proof {
        assert(r@ =~= v@.subrange(lo as int, hi as int));
    }
    r
}

/// `s` without its leading whitespace.
pub open spec fn trim_leading(s: Seq<char>) -> Seq<char>
    decreases s.len(),
{
    if s.len() > 0 && is_ws(s[0]) {
        trim_leading(s.drop_first())
    } else {
        s
    }
}

/// `s` without its trailing whitespace.
pub open spec fn trim_trailing(s: Seq<char>) -> Seq<char>
    decreases s.len(),
{
    if s.len() > 0 && is_ws(s.last()) {
        trim_trailing(s.drop_last())
    } else {
        s
    }
}

/// `s` without leading or trailing whitespace.
pub open spec fn trimmed(s: Seq<char>) -> Seq<char> {
    trim_trailing(trim_leading(s))
}

/// Narrows the range `[lo, hi)` of `v` to the part that remains after
/// trimming whitespace on both sides.
pub fn trim_range(v: &Vec<char>, lo: usize, hi: usize) -> (r: (usize, usize))
    requires
        lo <= hi <= v@.len(),
    ensures
        lo <= r.0 <= r.1 <= hi,
        v@.subrange(r.0 as int, r.1 as int) == trimmed(v@.subrange(lo as int, hi as int)),
{
    let mut a: usize = lo;
    while a < hi && is_ws_exec(v[a])
        invariant
            lo <= a <= hi <= v@.len(),
            trim_leading(v@.subrange(lo as int, hi as int)) == trim_leading(
                v@.subrange(a as int, hi as int),
            ),
        decreases hi - a,
    {
        proof {
            let seg = v@.subrange(a as int, hi as int);
            assert(seg.drop_first() =~= v@.subrange(a as int + 1, hi as int));
        }
        a = a + 1;
    }
    proof {
        assert(trim_leading(v@.subrange(a as int, hi as int)) == v@.subrange(a as int, hi as int));
    }
    let mut b: usize = hi;
    while b > a && is_ws_exec(v[b - 1])
        invariant
            lo <= a <= b <= hi <= v@.len(),
            trim_leading(v@.subrange(lo as int, hi as int)) == v@.subrange(a as int, hi as int),
            trim_trailing(v@.subrange(a as int, hi as int)) == trim_trailing(
                v@.subrange(a as int, b as int),
            ),
        decreases b,
    {
        proof {
            let seg = v@.subrange(a as int, b as int);
            assert(seg.drop_last() =~= v@.subrange(a as int, b as int - 1));
        }
        b = b - 1;
    }
    proof {
        assert(trim_trailing(v@.subrange(a as int, b as int)) == v@.subrange(
            a as int,
            b as int,
        ));
    }
    (a, b)
}

/// Whether `c` is ASCII whitespace, as executable code.
pub fn is_ws_exec(c: char) -> (r: bool)
    ensures
        r == is_ws(c),
{
    c == ' ' || c == '\t' || c == '\n' || c == '\r' || c == '\x0b' || c == '\x0c'
}

/// Position of the first line feed in `s`, or `s.len()` if there is none.
pub open spec fn first_nl(s: Seq<char>) -> nat
    decreases s.len(),
{
    if s.len() == 0 {
        0
    } else if s[0] == '\n' {
        0
    } else {
        1 + first_nl(s.drop_first())
    }
}

pub proof fn lemma_first_nl_is(s: Seq<char>, e: int)
    requires
        0 <= e <= s.len(),
        forall|j: int| 0 <= j < e ==> s[j] != '\n',
        e < s.len() ==> s[e] == '\n',
    ensures
        first_nl(s) == e,
    decreases s.len(),
{
    if e == 0 {
    } else {
        assert(s[0] != '\n');
        assert forall|j: int| 0 <= j < e - 1 implies s.drop_first()[j] != '\n' by {
            assert(s[j + 1] != '\n');
        }
        lemma_first_nl_is(s.drop_first(), e - 1);
    }
}

/// A segment without a trailing carriage return: the leftover of a
/// two-character line break.
pub open spec fn strip_cr(s: Seq<char>) -> Seq<char> {
    if s.len() > 0 && s.last() == '\r' {
        s.drop_last()
    } else {
        s
    }
}

/// The lines of `s`, in order: the segments between line feeds, where a
/// carriage return directly before a line feed belongs to the break, not to
/// the line. The breaks themselves are not part of any line.
pub open spec fn split_lines(s: Seq<char>) -> Seq<Seq<char>>
    decreases s.len(),
{
    let k = first_nl(s);
    if k >= s.len() {
        seq![s]
    } else {
        seq![strip_cr(s.take(k as int))] + split_lines(s.skip(k as int + 1))
    }
}

/// Signed division truncated toward zero, as machine division is.
pub open spec fn div_trunc(a: int, b: int) -> int {
    if a >= 0 {
        a / b
    } else {
        -((-a) / b)
    }
}

/// The character for the decimal digit `d`.
pub open spec fn spec_digit(d: int) -> char {
    if d == 0 {
        '0'
    } else if d == 1 {
        '1'
    } else if d == 2 {
        '2'
    } else if d == 3 {
        '3'
    } else if d == 4 {
        '4'
    } else if d == 5 {
        '5'
    } else if d == 6 {
        '6'
    } else if d == 7 {
        '7'
    } else if d == 8 {
        '8'
    } else {
        '9'
    }
}

/// The decimal digits of `n`, most significant first.
pub open spec fn dec_nat(n: nat) -> Seq<char>
    decreases n,
{
    if n < 10 {
        seq![spec_digit(n as int)]
    } else {
        dec_nat(n / 10) + seq![spec_digit((n % 10) as int)]
    }
}

/// The decimal form of `n`, with a leading minus sign when negative.
pub open spec fn dec_int(n: int) -> Seq<char> {
    if n >= 0 {
        dec_nat(n as nat)
    } else {
        seq!['-'] + dec_nat((-n) as nat)
    }
}

/// `s` with a comma inserted before every group of three characters,
/// counting groups from the right.
pub open spec fn grouped(s: Seq<char>) -> Seq<char>
    decreases s.len(),
{
    if s.len() <= 3 {
        s
    } else {
        grouped(s.take(s.len() - 3)) + seq![','] + s.skip(s.len() - 3)
    }
}

/// The character for the decimal digit `d`, as executable code.
pub fn digit_char(d: u64) -> (c: char)
    requires
        d < 10,
    ensures
        c == spec_digit(d as int),
{
    if d == 0 {
        '0'
    } else if d == 1 {
        '1'
    } else if d == 2 {
        '2'
    } else if d == 3 {
        '3'
    } else if d == 4 {
        '4'
    } else if d == 5 {
        '5'
    } else if d == 6 {
        '6'
    } else if d == 7 {
        '7'
    } else if d == 8 {
        '8'
    } else {
        '9'
    }
}

/// Appends the decimal digits of `n` to `out`.
pub fn push_dec_u64(out: &mut Vec<char>, n: u64)
    ensures
        final(out)@ == old(out)@ + dec_nat(n as nat),
    decreases n,
{
    if n < 10 {
        out.push(digit_char(n));
        proof {
            assert(out@ =~= old(out)@ + dec_nat(n as nat));
        }
    } else {
        push_dec_u64(out, n / 10);
        out.push(digit_char(n % 10));
        proof {
            assert(out@ =~= old(out)@ + dec_nat(n as nat));
        }
    }
}

/// The decimal form of `n` as a character vector.
pub fn dec_chars_i64(n: i64) -> (r: Vec<char>)
    ensures
        r@ == dec_int(n as int),
{
    let mut r: Vec<char> = Vec::new();
    if n >= 0 {
        push_dec_u64(&mut r, n as u64);
    } else {
        r.push('-');
        let m: u64 = (-(n as i128)) as u64;
        push_dec_u64(&mut r, m);
        proof {
            assert(r@ =~= seq!['-'] + dec_nat(m as nat));
        }
    }
    r
}

/// `v` up to `end`, with comma grouping applied from the right.
pub fn group_chars(v: &Vec<char>, end: usize) -> (r: Vec<char>)
    requires
        end <= v@.len(),
    ensures
        r@ == grouped(v@.take(end as int)),
    decreases end,
{
    if end <= 3 {
        let r = vec_range(v, 0, end);
        proof {
            assert(v@.subrange(0, end as int) =~= v@.take(end as int));
        }
        r
    } else {
        let mut r = group_chars(v, end - 3);
        r.push(',');
        r.push(v[end - 3]);
        r.push(v[end - 2]);
        r.push(v[end - 1]);
        proof {
            let s = v@.take(end as int);
            assert(s.take(s.len() - 3) =~= v@.take(end as int - 3));
            assert(s.skip(s.len() - 3) =~= seq![
                v@[end as int - 3],
                v@[end as int - 2],
                v@[end as int - 1],
            ]);
            assert(r@ =~= grouped(s));
        }
        r
    }
}

/// The decimal form of `n` with comma grouping applied to the digits
/// alone; a minus sign stands outside the grouping.
pub open spec fn grouped_dec_int(n: int) -> Seq<char> {
    if n >= 0 {
        grouped(dec_nat(n as nat))
    } else {
        seq!['-'] + grouped(dec_nat((-n) as nat))
    }
}

/// Whether `c` can appear in a formatted number: a digit, a minus sign or a
/// comma.
pub open spec fn is_number_char(c: char) -> bool {
    (48 <= c as u32 && c as u32 <= 57) || c == '-' || c == ','
}

pub proof fn lemma_grouped_chars(s: Seq<char>)
    requires
        forall|j: int| 0 <= j < s.len() ==> is_number_char(#[trigger] s[j]),
    ensures
        forall|j: int| 0 <= j < grouped(s).len() ==> is_number_char(#[trigger] grouped(s)[j]),
    decreases s.len(),
{
    if s.len() > 3 {
        let head = s.take(s.len() - 3);
        assert(forall|j: int| 0 <= j < head.len() ==> is_number_char(#[trigger] head[j]));
        lemma_grouped_chars(head);
        assert forall|j: int| 0 <= j < grouped(s).len() implies is_number_char(
            #[trigger] grouped(s)[j],
        ) by {
            if j < grouped(head).len() {
                assert(grouped(s)[j] == grouped(head)[j]);
            } else if j == grouped(head).len() {
                assert(grouped(s)[j] == ',');
            } else {
                assert(grouped(s)[j] == s.skip(s.len() - 3)[j - grouped(head).len() - 1]);
            }
        }
    }
}

pub proof fn lemma_digit_is_number_char(d: int)
    ensures
        is_number_char(spec_digit(d)),
{
}

pub proof fn lemma_dec_nat_chars(n: nat)
    ensures
        forall|j: int| 0 <= j < dec_nat(n).len() ==> is_number_char(#[trigger] dec_nat(n)[j]),
    decreases n,
{
    if n < 10 {
        lemma_digit_is_number_char(n as int);
    } else {
        lemma_dec_nat_chars(n / 10);
        lemma_digit_is_number_char((n % 10) as int);
        assert forall|j: int| 0 <= j < dec_nat(n).len() implies is_number_char(
            #[trigger] dec_nat(n)[j],
        ) by {
            if j < dec_nat(n / 10).len() {
                assert(dec_nat(n)[j] == dec_nat(n / 10)[j]);
            } else {
                assert(dec_nat(n)[j] == spec_digit((n % 10) as int));
            }
        }
    }
}

pub proof fn lemma_dec_int_chars(n: int)
    ensures
        forall|j: int| 0 <= j < dec_int(n).len() ==> is_number_char(#[trigger] dec_int(n)[j]),
{
    if n >= 0 {
        lemma_dec_nat_chars(n as nat);
    } else {
        lemma_dec_nat_chars((-n) as nat);
    }
}

/// The one-character string slice for a number character.
pub fn number_char_str(c: char) -> (r: &'static str)
    requires
        is_number_char(c),
    ensures
        r@ == seq![c],
{
    match c {
        '0' => {
            proof {
                reveal_strlit("0");
                assert("0"@ =~= seq!['0']);
            }
            "0"
        },
        '1' => {
            proof {
                reveal_strlit("1");
                assert("1"@ =~= seq!['1']);
            }
            "1"
        },
        '2' => {
            proof {
                reveal_strlit("2");
                assert("2"@ =~= seq!['2']);
            }
            "2"
        },
        '3' => {
            proof {
                reveal_strlit("3");
                assert("3"@ =~= seq!['3']);
            }
            "3"
        },
        '4' => {
            proof {
                reveal_strlit("4");
                assert("4"@ =~= seq!['4']);
            }
            "4"
        },
        '5' => {
            proof {
                reveal_strlit("5");
                assert("5"@ =~= seq!['5']);
            }
            "5"
        },
        '6' => {
            proof {
                reveal_strlit("6");
                assert("6"@ =~= seq!['6']);
            }
            "6"
        },
        '7' => {
            proof {
                reveal_strlit("7");
                assert("7"@ =~= seq!['7']);
            }
            "7"
        },
        '8' => {
            proof {
                reveal_strlit("8");
                assert("8"@ =~= seq!['8']);
            }
            "8"
        },
        '9' => {
            proof {
                reveal_strlit("9");
                assert("9"@ =~= seq!['9']);
            }
            "9"
        },
        '-' => {
            proof {
                reveal_strlit("-");
                assert("-"@ =~= seq!['-']);
            }
            "-"
        },
        ',' => {
            proof {
                reveal_strlit(",");
                assert(","@ =~= seq![',']);
            }
            ","
        },
        _ => {
            proof {
                assert('0' as u32 == 48 && '9' as u32 == 57);
            }
            vstd::pervasive::unreached()
        },
    }
}

/// The decimal form of `n` as a `String`.
pub fn format_u64(n: u64) -> (r: String)
    ensures
        r@ == dec_nat(n as nat),
{
    let mut v: Vec<char> = Vec::new();
    push_dec_u64(&mut v, n);
    proof {
        lemma_dec_nat_chars(n as nat);
    }
    number_chars_to_string(&v)
}

/// Builds a `String` out of number characters.
pub fn number_chars_to_string(v: &Vec<char>) -> (r: String)
    requires
        forall|j: int| 0 <= j < v@.len() ==> is_number_char(#[trigger] v@[j]),
    ensures
        r@ == v@,
{
    let mut r = String::new();
    let n = v.len();
    let mut i: usize = 0;
    while i < n
        invariant
            n == v@.len(),
            i <= n,
            forall|j: int| 0 <= j < v@.len() ==> is_number_char(#[trigger] v@[j]),
            r@ =~= v@.take(i as int),
        decreases n - i,
    {
        r.append(number_char_str(v[i]));
        i = i + 1;
    }
    proof {
        assert(r@ =~= v@);
    }
    r
}

} // verus!
