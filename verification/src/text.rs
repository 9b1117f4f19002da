//! Verified text primitives: whitespace trimming, splitting content into
//! paragraphs and lines, and decimal rendering of numbers.

use vstd::prelude::*;
use vstd::string::StrSliceExecFns;
use vstd::string::StringExecFns;

verus! {

/// The code points treated as whitespace when input is trimmed
/// (the Unicode White_Space set).
pub open spec fn is_ws_char(c: char) -> bool {
    let u = c as u32;
    (0x09 <= u && u <= 0x0d) || u == 0x20 || u == 0x85 || u == 0xa0 || u == 0x1680
        || (0x2000 <= u && u <= 0x200a) || u == 0x2028 || u == 0x2029 || u == 0x202f
        || u == 0x205f || u == 0x3000
}

pub fn is_whitespace(c: char) -> (r: bool)
    ensures
        r == is_ws_char(c),
{
    let u = c as u32;
    (0x09 <= u && u <= 0x0d) || u == 0x20 || u == 0x85 || u == 0xa0 || u == 0x1680
        || (0x2000 <= u && u <= 0x200a) || u == 0x2028 || u == 0x2029 || u == 0x202f
        || u == 0x205f || u == 0x3000
}

pub open spec fn trim_front_spec(s: Seq<char>) -> Seq<char>
    decreases s.len(),
{
    if s.len() > 0 && is_ws_char(s[0]) {
        trim_front_spec(s.drop_first())
    } else {
        s
    }
}

pub open spec fn trim_back_spec(s: Seq<char>) -> Seq<char>
    decreases s.len(),
{
    if s.len() > 0 && is_ws_char(s.last()) {
        trim_back_spec(s.drop_last())
    } else {
        s
    }
}

/// What remains of a string once leading and trailing whitespace is removed.
pub open spec fn trim_spec(s: Seq<char>) -> Seq<char> {
    trim_back_spec(trim_front_spec(s))
}

fn trim_front(s: &str) -> (r: String)
    ensures
        r@ == trim_front_spec(s@),
    decreases s@.len(),
{
    let n = s.unicode_len();
    if n > 0 && is_whitespace(s.get_char(0)) {
        let rest = s.substring_char(1, n);
        proof {
            assert(rest@ =~= s@.drop_first());
        }
        trim_front(rest)
    } else {
        s.to_owned()
    }
}

fn trim_back(s: &str) -> (r: String)
    ensures
        r@ == trim_back_spec(s@),
    decreases s@.len(),
{
    let n = s.unicode_len();
    if n > 0 && is_whitespace(s.get_char(n - 1)) {
        let rest = s.substring_char(0, n - 1);
        proof {
            assert(rest@ =~= s@.drop_last());
        }
        trim_back(rest)
    } else {
        s.to_owned()
    }
}

/// Removes leading and trailing whitespace.
pub fn trim(s: &str) -> (r: String)
    ensures
        r@ == trim_spec(s@),
{
    let front = trim_front(s);
    trim_back(front.as_str())
}

/// Index of the first newline in `s`, or `s.len()` when there is none.
pub open spec fn first_nl(s: Seq<char>) -> nat
    decreases s.len(),
{
    if s.len() == 0 {
        0
    } else if s[0] == '\n' {
        0
    } else {
        (1 + first_nl(s.drop_first())) as nat
    }
}

pub proof fn lemma_first_nl_le(s: Seq<char>)
    ensures
        first_nl(s) <= s.len(),
    decreases s.len(),
{
    if s.len() > 0 && s[0] != '\n' {
        lemma_first_nl_le(s.drop_first());
    }
}

proof fn lemma_first_nl_at(s: Seq<char>, i: int)
    requires
        0 <= i <= s.len(),
        forall|j: int| 0 <= j < i ==> (#[trigger] s[j]) != '\n',
        i < s.len() ==> s[i] == '\n',
    ensures
        first_nl(s) == i,
    decreases s.len(),
{
    if s.len() == 0 {
    } else if i == 0 {
    } else {
        assert(s[0] != '\n');
        let t = s.drop_first();
        assert(forall|j: int| 0 <= j < i - 1 ==> (#[trigger] t[j]) == s[j + 1] && s[j + 1] != '\n');
        assert(i - 1 < t.len() ==> t[i - 1] == s[i]);
        lemma_first_nl_at(t, i - 1);
    }
}

/// Removes one trailing carriage return, as line splitting does.
pub open spec fn strip_cr(s: Seq<char>) -> Seq<char> {
    if s.len() > 0 && s.last() == '\r' {
        s.drop_last()
    } else {
        s
    }
}

/// The lines of `s`: pieces between newlines, a trailing carriage return
/// removed from each, and no empty piece after a final newline.
pub open spec fn lines_spec(s: Seq<char>) -> Seq<Seq<char>>
    decreases s.len(),
    via lines_spec_dec
{
    if s.len() == 0 {
        Seq::empty()
    } else {
        let i = first_nl(s) as int;
        if i == s.len() {
            seq![strip_cr(s)]
        } else {
            seq![strip_cr(s.take(i))] + lines_spec(s.skip(i + 1))
        }
    }
}

#[via_fn]
proof fn lines_spec_dec(s: Seq<char>) {
    lemma_first_nl_le(s);
}

fn find_newline(s: &str) -> (i: usize)
    ensures
        i as nat == first_nl(s@),
{
    let n = s.unicode_len();
    let mut i: usize = 0;
    while i < n
        invariant
            i <= n,
            n == s@.len(),
            forall|j: int| 0 <= j < i ==> (#[trigger] s@[j]) != '\n',
        decreases n - i,
    {
        if s.get_char(i) == '\n' {
            proof {
                lemma_first_nl_at(s@, i as int);
            }
            return i;
        }
        i += 1;
    }
    proof {
        lemma_first_nl_at(s@, n as int);
    }
    n
}

fn strip_cr_exec(s: &str) -> (r: String)
    ensures
        r@ == strip_cr(s@),
{
    let n = s.unicode_len();
    if n > 0 && s.get_char(n - 1) == '\r' {
        let t = s.substring_char(0, n - 1);
        proof {
            assert(t@ =~= s@.drop_last());
        }
        t.to_owned()
    } else {
        s.to_owned()
    }
}

/// Splits `s` into lines as `lines_spec` describes.
pub fn split_lines(s: &str) -> (r: Vec<String>)
    ensures
        r.deep_view() == lines_spec(s@),
    decreases s@.len(),
{
    let n = s.unicode_len();
    if n == 0 {
        let r: Vec<String> = Vec::new();
        proof {
            assert(r.deep_view() =~= lines_spec(s@));
        }
        return r;
    }
    let i = find_newline(s);
    proof {
        lemma_first_nl_le(s@);
    }
    if i == n {
        let piece = strip_cr_exec(s);
        let mut r: Vec<String> = Vec::new();
        r.push(piece);
        proof {
            assert(r.deep_view() =~= lines_spec(s@));
        }
        r
    } else {
        let head = s.substring_char(0, i);
        let first_line = strip_cr_exec(head);
        let rest = s.substring_char(i + 1, n);
        proof {
            assert(head@ =~= s@.take(i as int));
            assert(rest@ =~= s@.skip(i as int + 1));
        }
        let mut r = split_lines(rest);
        r.insert(0, first_line);
        proof {
            assert(r.deep_view() =~= lines_spec(s@));
        }
        r
    }
}

/// Index of the first blank-line separator (two newlines in a row) in `s`,
/// or `s.len()` when there is none.
pub open spec fn first_sep(s: Seq<char>) -> nat
    decreases s.len(),
{
    if s.len() < 2 {
        s.len()
    } else if s[0] == '\n' && s[1] == '\n' {
        0
    } else {
        (1 + first_sep(s.drop_first())) as nat
    }
}

pub proof fn lemma_first_sep_le(s: Seq<char>)
    ensures
        first_sep(s) <= s.len(),
        first_sep(s) < s.len() ==> first_sep(s) + 2 <= s.len(),
    decreases s.len(),
{
    if s.len() >= 2 && !(s[0] == '\n' && s[1] == '\n') {
        lemma_first_sep_le(s.drop_first());
    }
}

proof fn lemma_first_sep_at(s: Seq<char>, i: int)
    requires
        0 <= i,
        i + 1 < s.len(),
        s[i] == '\n',
        s[i + 1] == '\n',
        forall|j: int| 0 <= j < i ==> !((#[trigger] s[j]) == '\n' && s[j + 1] == '\n'),
    ensures
        first_sep(s) == i,
    decreases s.len(),
{
    if i == 0 {
    } else {
        assert(!(s[0] == '\n' && s[1] == '\n'));
        let t = s.drop_first();
        assert(forall|j: int| 0 <= j < i - 1 ==> (#[trigger] t[j]) == s[j + 1] && t[j + 1] == s[j + 2]);
        assert(t[i - 1] == s[i]);
        assert(t[i] == s[i + 1]);
        lemma_first_sep_at(t, i - 1);
    }
}

proof fn lemma_first_sep_none(s: Seq<char>)
    requires
        forall|j: int| 0 <= j && j + 1 < s.len() ==> !((#[trigger] s[j]) == '\n' && s[j + 1] == '\n'),
    ensures
        first_sep(s) == s.len(),
    decreases s.len(),
{
    if s.len() >= 2 {
        assert(!(s[0] == '\n' && s[1] == '\n'));
        let t = s.drop_first();
        assert(forall|j: int| 0 <= j && j + 1 < t.len() ==> (#[trigger] t[j]) == s[j + 1] && t[j + 1] == s[j + 2]);
        lemma_first_sep_none(t);
    }
}

/// The paragraphs of `s`: pieces between blank-line separators, leftmost
/// match first; splitting an empty string gives one empty paragraph.
pub open spec fn paras_spec(s: Seq<char>) -> Seq<Seq<char>>
    decreases s.len(),
    via paras_spec_dec
{
    let i = first_sep(s) as int;
    if i == s.len() {
        seq![s]
    } else {
        seq![s.take(i)] + paras_spec(s.skip(i + 2))
    }
}

#[via_fn]
proof fn paras_spec_dec(s: Seq<char>) {
    lemma_first_sep_le(s);
}

fn find_sep(s: &str) -> (i: usize)
    ensures
        i as nat == first_sep(s@),
{
    let n = s.unicode_len();
    if n < 2 {
        proof {
            lemma_first_sep_none(s@);
        }
        return n;
    }
    let mut i: usize = 0;
    while i + 1 < n
        invariant
            i + 1 <= n,
            n == s@.len(),
            forall|j: int| 0 <= j < i ==> !((#[trigger] s@[j]) == '\n' && s@[j + 1] == '\n'),
        decreases n - i,
    {
        if s.get_char(i) == '\n' && s.get_char(i + 1) == '\n' {
            proof {
                lemma_first_sep_at(s@, i as int);
            }
            return i;
        }
        i += 1;
    }
    proof {
        lemma_first_sep_none(s@);
    }
    n
}

/// Splits `s` into paragraphs as `paras_spec` describes.
pub fn split_paragraphs(s: &str) -> (r: Vec<String>)
    ensures
        r.deep_view() == paras_spec(s@),
    decreases s@.len(),
{
    let n = s.unicode_len();
    let i = find_sep(s);
    proof {
        lemma_first_sep_le(s@);
    }
    if i == n {
        let mut r: Vec<String> = Vec::new();
        r.push(s.to_owned());
        proof {
            assert(r.deep_view() =~= paras_spec(s@));
        }
        r
    } else {
        let head = s.substring_char(0, i);
        let head_owned = head.to_owned();
        let rest = s.substring_char(i + 2, n);
        proof {
            lemma_first_sep_le(s@);
            assert(head@ =~= s@.take(i as int));
            assert(rest@ =~= s@.skip(i as int + 2));
        }
        let mut r = split_paragraphs(rest);
        r.insert(0, head_owned);
        proof {
            assert(r.deep_view() =~= paras_spec(s@));
        }
        r
    }
}

/// Relies on std's `FromIterator` for `String`: collecting characters yields
/// a string of exactly those characters, in order.
#[verifier::external_body]
pub fn string_from_chars(v: &Vec<char>) -> (r: String)
    ensures
        r@ == v@,
{
    v.iter().collect()
}

pub open spec fn digit_char(d: int) -> char {
    if d == 0 {
        '0'
    } else if d == 1 {
        '1'
    } else if d == 2 {
        '2'
    } else if d == 3 {
        '3'
    } else if d == 4 {
        '4'
    } else if d == 5 {
        '5'
    } else if d == 6 {
        '6'
    } else if d == 7 {
        '7'
    } else if d == 8 {
        '8'
    } else {
        '9'
    }
}

/// The decimal digits of a non-negative number, most significant first.
pub open spec fn dec_str(n: int) -> Seq<char>
    decreases n,
{
    if n < 10 {
        seq![digit_char(n)]
    } else {
        dec_str(n / 10) + seq![digit_char(n % 10)]
    }
}

fn digit_str(d: u16) -> (r: &'static str)
    requires
        d < 10,
    ensures
        r@ == seq![digit_char(d as int)],
{
    proof {
        reveal_strlit("0");
        reveal_strlit("1");
        reveal_strlit("2");
        reveal_strlit("3");
        reveal_strlit("4");
        reveal_strlit("5");
        reveal_strlit("6");
        reveal_strlit("7");
        reveal_strlit("8");
        reveal_strlit("9");
    }
    let r = if d == 0 {
        "0"
    } else if d == 1 {
        "1"
    } else if d == 2 {
        "2"
    } else if d == 3 {
        "3"
    } else if d == 4 {
        "4"
    } else if d == 5 {
        "5"
    } else if d == 6 {
        "6"
    } else if d == 7 {
        "7"
    } else if d == 8 {
        "8"
    } else {
        "9"
    };
    proof {
        assert(r@ =~= seq![digit_char(d as int)]);
    }
    r
}

/// Renders `n` in decimal.
pub fn u16_to_dec(n: u16) -> (r: String)
    ensures
        r@ == dec_str(n as int),
    decreases n,
{
    if n < 10 {
        String::from_str(digit_str(n))
    } else {
        let front = u16_to_dec(n / 10);
        front.concat(digit_str(n % 10))
    }
}

} // verus!
