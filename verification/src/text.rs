//! Character-level helpers shared by the parsers of the library.

use vstd::prelude::*;

verus! {

/// The ASCII lower-case form of a character; other characters are unchanged.
pub open spec fn ascii_lower(c: char) -> char {
    if 'A' <= c && c <= 'Z' {
        ((c as u32) + 32) as char
    } else {
        c
    }
}

/// `s` lower-cases to exactly the all-lower-case ASCII keyword `w`.
///
/// For a keyword made of lower-case ASCII letters other than `k`, this is the
/// same as `str::to_lowercase(s) == w`: the only characters outside `A-Z`
/// whose lower-case form contains an ASCII letter are U+212A (to `k`) and
/// U+0130 (to `i` followed by U+0307).
pub open spec fn lower_eq(s: Seq<char>, w: Seq<char>) -> bool {
    &&& s.len() == w.len()
    &&& forall|i: int| 0 <= i < s.len() ==> #[trigger] ascii_lower(s[i]) == w[i]
}

/// The characters of a string slice, in order.
pub fn chars_of(s: &str) -> (r: Vec<char>)
    ensures
        r@ == s@,
{
    let n = s.unicode_len();
    let mut r: Vec<char> = Vec::new();
    let mut i: usize = 0;
    while i < n
        invariant
            n == s@.len(),
            i <= n,
            r@ == s@.subrange(0, i as int),
        decreases n - i,
    {
        r.push(s.get_char(i));
        i = i + 1;
    }
    assert(r@ =~= s@);
    r
}

/// The lower-case form of one character, computed as `ascii_lower` does.
fn lower_char(c: char) -> (r: char)
    ensures
        r == ascii_lower(c),
{
    if 'A' <= c && c <= 'Z' {
        let code: u32 = c as u32;
        let lowered: u8 = (code + 32) as u8;
        lowered as char
    } else {
        c
    }
}

/// Does `s` lower-case to the keyword `w`?
pub fn matches_keyword(s: &Vec<char>, w: &Vec<char>) -> (r: bool)
    ensures
        r == lower_eq(s@, w@),
{
    if s.len() != w.len() {
        return false;
    }
    let mut i: usize = 0;
    while i < s.len()
        invariant
            s.len() == w.len(),
            i <= s.len(),
            forall|j: int| 0 <= j < i ==> #[trigger] ascii_lower(s@[j]) == w@[j],
        decreases s.len() - i,
    {
        if lower_char(s[i]) != w[i] {
            return false;
        }
        i = i + 1;
    }
    true
}


/// A character with the Unicode `White_Space` property (what
/// `char::is_whitespace` and `str::trim` go by).
pub open spec fn is_ws(c: char) -> bool {
    ||| ('\u{9}' <= c && c <= '\u{d}')
    ||| c == ' '
    ||| c == '\u{85}'
    ||| c == '\u{a0}'
    ||| c == '\u{1680}'
    ||| ('\u{2000}' <= c && c <= '\u{200a}')
    ||| c == '\u{2028}'
    ||| c == '\u{2029}'
    ||| c == '\u{202f}'
    ||| c == '\u{205f}'
    ||| c == '\u{3000}'
}

/// `s` without its leading white space.
pub open spec fn trim_start(s: Seq<char>) -> Seq<char>
    decreases s.len(),
{
    if s.len() > 0 && is_ws(s[0]) {
        trim_start(s.drop_first())
    } else {
        s
    }
}

/// `s` without its trailing white space.
pub open spec fn trim_end(s: Seq<char>) -> Seq<char>
    decreases s.len(),
{
    if s.len() > 0 && is_ws(s.last()) {
        trim_end(s.drop_last())
    } else {
        s
    }
}

/// `s` without leading and trailing white space, as `str::trim` gives it.
pub open spec fn trim(s: Seq<char>) -> Seq<char> {
    trim_end(trim_start(s))
}

fn is_ws_char(c: char) -> (r: bool)
    ensures
        r == is_ws(c),
{
    ('\u{9}' <= c && c <= '\u{d}') || c == ' ' || c == '\u{85}' || c == '\u{a0}'
        || c == '\u{1680}' || ('\u{2000}' <= c && c <= '\u{200a}') || c == '\u{2028}'
        || c == '\u{2029}' || c == '\u{202f}' || c == '\u{205f}' || c == '\u{3000}'
}

proof fn lemma_trim_start_skips(s: Seq<char>, lo: int)
    requires
        0 <= lo <= s.len(),
        forall|j: int| 0 <= j < lo ==> is_ws(#[trigger] s[j]),
        lo == s.len() || !is_ws(s[lo]),
    ensures
        trim_start(s) == s.subrange(lo, s.len() as int),
    decreases lo,
{
    if lo == 0 {
        assert(s.subrange(0, s.len() as int) =~= s);
    } else {
        let t = s.drop_first();
        assert forall|j: int| 0 <= j < lo - 1 implies is_ws(#[trigger] t[j]) by {
            assert(t[j] == s[j + 1]);
        }
        lemma_trim_start_skips(t, lo - 1);
        assert(t.subrange(lo - 1, t.len() as int) =~= s.subrange(lo, s.len() as int));
    }
}

proof fn lemma_trim_end_skips(s: Seq<char>, hi: int)
    requires
        0 <= hi <= s.len(),
        forall|j: int| hi <= j < s.len() ==> is_ws(#[trigger] s[j]),
        hi == 0 || !is_ws(s[hi - 1]),
    ensures
        trim_end(s) == s.subrange(0, hi),
    decreases s.len() - hi,
{
    if hi == s.len() {
        assert(s.subrange(0, hi) =~= s);
    } else {
        let t = s.drop_last();
        assert forall|j: int| hi <= j < t.len() implies is_ws(#[trigger] t[j]) by {
            assert(t[j] == s[j]);
        }
        lemma_trim_end_skips(t, hi);
        assert(t.subrange(0, hi) =~= s.subrange(0, hi));
    }
}

/// The characters of `s` without leading and trailing white space.
pub fn trimmed(s: &Vec<char>) -> (r: Vec<char>)
    ensures
        r@ == trim(s@),
{
    let n = s.len();
    let mut lo: usize = 0;
    while lo < n && is_ws_char(s[lo])
        invariant
            n == s.len(),
            lo <= n,
            forall|j: int| 0 <= j < lo ==> is_ws(#[trigger] s@[j]),
        decreases n - lo,
    {
        lo = lo + 1;
    }
    proof {
        lemma_trim_start_skips(s@, lo as int);
    }
    let ghost t = s@.subrange(lo as int, n as int);
    let mut hi: usize = n;
    while hi > lo && is_ws_char(s[hi - 1])
        invariant
            n == s.len(),
            lo <= hi <= n,
            t == s@.subrange(lo as int, n as int),
            forall|j: int| hi <= j < n ==> is_ws(#[trigger] s@[j]),
        decreases hi - lo,
    {
        hi = hi - 1;
    }
    proof {
        assert forall|j: int| hi - lo <= j < t.len() implies is_ws(#[trigger] t[j]) by {
            assert(t[j] == s@[j + lo]);
        }
        lemma_trim_end_skips(t, hi - lo);
    }
    let mut r: Vec<char> = Vec::new();
    let mut i: usize = lo;
    while i < hi
        invariant
            n == s.len(),
            lo <= i <= hi <= n,
            r@ == s@.subrange(lo as int, i as int),
        decreases hi - i,
    {
        r.push(s[i]);
        i = i + 1;
    }
    assert(r@ =~= t.subrange(0, hi - lo));
    r
}


/// An ASCII decimal digit.
pub open spec fn is_digit(c: char) -> bool {
    '0' <= c && c <= '9'
}

/// The value of a decimal digit.
pub open spec fn digit_value(c: char) -> int {
    (c as int) - ('0' as int)
}

/// The value of a sequence of decimal digits, most significant first.
pub open spec fn decimal(d: Seq<char>) -> int
    decreases d.len(),
{
    if d.len() == 0 {
        0
    } else {
        decimal(d.drop_last()) * 10 + digit_value(d.last())
    }
}

/// Every character of `d` is an ASCII digit.
pub open spec fn all_digits(d: Seq<char>) -> bool {
    forall|i: int| 0 <= i < d.len() ==> is_digit(#[trigger] d[i])
}

/// `t` starts with a sign character.
pub open spec fn has_sign(t: Seq<char>) -> bool {
    t.len() > 0 && (t[0] == '-' || t[0] == '+')
}

/// The characters of `t` after its sign, if it has one.
pub open spec fn unsigned_part(t: Seq<char>) -> Seq<char> {
    if has_sign(t) {
        t.drop_first()
    } else {
        t
    }
}

/// The integer that `i32::from_str` reads from `t`: an optional `+` or `-`,
/// then one or more ASCII digits, the value within the range of `i32`.
pub open spec fn spec_parse_i32(t: Seq<char>) -> Option<i32> {
    let digits = unsigned_part(t);
    if t.len() == 0 || digits.len() == 0 || !all_digits(digits) {
        None
    } else {
        let v = if t[0] == '-' { -decimal(digits) } else { decimal(digits) };
        if i32::MIN <= v && v <= i32::MAX {
            Some(v as i32)
        } else {
            None
        }
    }
}

proof fn lemma_decimal_nonneg(d: Seq<char>)
    requires
        forall|i: int| 0 <= i < d.len() ==> is_digit(#[trigger] d[i]),
    ensures
        decimal(d) >= 0,
    decreases d.len(),
{
    if d.len() > 0 {
        let p = d.drop_last();
        assert forall|i: int| 0 <= i < p.len() implies is_digit(#[trigger] p[i]) by {
            assert(p[i] == d[i]);
        }
        lemma_decimal_nonneg(p);
    }
}

/// Parse a decimal `i32` as `i32::from_str` does.
pub fn parse_i32_chars(t: &Vec<char>) -> (r: Option<i32>)
    ensures
        r == spec_parse_i32(t@),
{
    let n = t.len();
    if n == 0 {
        return None;
    }
    let signed = t[0] == '-' || t[0] == '+';
    let negative = t[0] == '-';
    let start: usize = if signed { 1 } else { 0 };
    let ghost digits = unsigned_part(t@);
    assert(digits =~= t@.subrange(start as int, n as int));
    if start == n {
        return None;
    }
    // `acc` is the value read so far while it stays at most 2^31; past that
    // only `big` is kept, as no i32 can be that large in magnitude.
    let mut acc: u64 = 0;
    let mut big = false;
    let mut i: usize = start;
    while i < n
        invariant
            n == t.len(),
            start <= i <= n,
            digits == t@.subrange(start as int, n as int),
            digits == unsigned_part(t@),
            n > 0,
            negative == (t@[0] == '-'),
            forall|j: int| start <= j < i ==> is_digit(#[trigger] t@[j]),
            !big ==> acc == decimal(t@.subrange(start as int, i as int)),
            !big ==> acc <= 2147483648,
            big ==> decimal(t@.subrange(start as int, i as int)) > 2147483648,
        decreases n - i,
    {
        let c = t[i];
        if !('0' <= c && c <= '9') {
            proof {
                assert(digits[i - start] == c);
                assert(!is_digit(digits[i - start]));
            }
            return None;
        }
        let ghost pre = t@.subrange(start as int, i as int);
        let ghost post = t@.subrange(start as int, i + 1);
        assert(post.drop_last() =~= pre);
        assert(post.last() == c);
        proof {
            assert forall|j: int| 0 <= j < pre.len() implies is_digit(#[trigger] pre[j]) by {
                assert(pre[j] == t@[j + start]);
            }
            lemma_decimal_nonneg(pre);
        }
        let d: u64 = (c as u32 - '0' as u32) as u64;
        if !big {
            let next = acc * 10 + d;
            if next > 2147483648 {
                big = true;
            } else {
                acc = next;
            }
        }
        i = i + 1;
    }
    assert(t@.subrange(start as int, n as int) == digits);
    assert forall|j: int| 0 <= j < digits.len() implies is_digit(#[trigger] digits[j]) by {
        assert(digits[j] == t@[j + start]);
    }
    assert(all_digits(digits));
    if big {
        return None;
    }
    if negative {
        let v: i64 = 0 - (acc as i64);
        Some(v as i32)
    } else if acc <= 2147483647 {
        Some(acc as i32)
    } else {
        None
    }
}


/// The pieces of `s` between commas, as `str::split(',')` yields them: one
/// more piece than there are commas, empty pieces included.
pub open spec fn split_commas(s: Seq<char>) -> Seq<Seq<char>>
    decreases s.len(),
{
    if s.len() == 0 {
        seq![Seq::<char>::empty()]
    } else {
        let prev = split_commas(s.drop_last());
        if s.last() == ',' {
            prev.push(Seq::<char>::empty())
        } else {
            prev.update(prev.len() - 1, prev.last().push(s.last()))
        }
    }
}

/// The integers read from the pieces, in order; a piece that does not
/// read as an `i32` once trimmed is left out.
pub open spec fn parsed_pieces(pieces: Seq<Seq<char>>) -> Seq<i32>
    decreases pieces.len(),
{
    if pieces.len() == 0 {
        Seq::empty()
    } else {
        let rest = parsed_pieces(pieces.drop_last());
        match spec_parse_i32(trim(pieces.last())) {
            Some(v) => rest.push(v),
            None => rest,
        }
    }
}

/// The integers of a comma-separated list.
pub open spec fn spec_parse_int_list(s: Seq<char>) -> Seq<i32> {
    parsed_pieces(split_commas(s))
}

/// Read the comma-separated integers of `s`, skipping pieces that are not
/// integers.
pub fn parse_int_list(s: &Vec<char>) -> (r: Vec<i32>)
    ensures
        r@ == spec_parse_int_list(s@),
{
    let n = s.len();
    let mut r: Vec<i32> = Vec::new();
    let mut cur: Vec<char> = Vec::new();
    let mut i: usize = 0;
    proof {
        assert(s@.subrange(0, 0) =~= Seq::<char>::empty());
    }
    while i < n
        invariant
            n == s.len(),
            i <= n,
            split_commas(s@.subrange(0, i as int)).len() >= 1,
            r@ == parsed_pieces(split_commas(s@.subrange(0, i as int)).drop_last()),
            cur@ == split_commas(s@.subrange(0, i as int)).last(),
        decreases n - i,
    {
        let ghost pre = s@.subrange(0, i as int);
        let ghost post = s@.subrange(0, i + 1);
        let ghost prev = split_commas(pre);
        assert(post.drop_last() =~= pre);
        assert(post.last() == s@[i as int]);
        let c = s[i];
        if c == ',' {
            let piece = trimmed(&cur);
            match parse_i32_chars(&piece) {
                Some(v) => r.push(v),
                None => {},
            }
            cur = Vec::new();
            proof {
                assert(split_commas(post) == prev.push(Seq::<char>::empty()));
                assert(split_commas(post).drop_last() =~= prev);
                assert(prev.drop_last().push(prev.last()) =~= prev);
            }
        } else {
            cur.push(c);
            proof {
                let next = prev.update(prev.len() - 1, prev.last().push(c));
                assert(split_commas(post) == next);
                assert(next.drop_last() =~= prev.drop_last());
            }
        }
        i = i + 1;
    }
    let piece = trimmed(&cur);
    match parse_i32_chars(&piece) {
        Some(v) => r.push(v),
        None => {},
    }
    proof {
        let all = split_commas(s@.subrange(0, n as int));
        assert(s@.subrange(0, n as int) =~= s@);
        assert(all.drop_last().push(all.last()) =~= all);
    }
    r
}

/// Appends one character to `s`: `String::push` of std.
#[verifier::external_body]
pub(crate) fn push_char(s: &mut String, c: char)
    ensures
        final(s)@ == old(s)@.push(c),
{
    s.push(c);
}

/// Appends the characters `cs` to `s`.
pub fn push_chars(s: &mut String, cs: &Vec<char>)
    ensures
        final(s)@ == old(s)@ + cs@,
{
    let mut i: usize = 0;
    while i < cs.len()
        invariant
            i <= cs.len(),
            s@ == old(s)@ + cs@.subrange(0, i as int),
        decreases cs.len() - i,
    {
        push_char(s, cs[i]);
        i = i + 1;
        proof {
            assert(s@ =~= old(s)@ + cs@.subrange(0, i as int));
        }
    }
    assert(cs@.subrange(0, cs@.len() as int) =~= cs@);
}

/// The character of a decimal digit.
pub open spec fn digit_char(d: nat) -> char {
    ((('0' as u32) as nat + d) as u32) as char
}

/// The decimal text of a natural number, without leading zeros.
pub open spec fn spec_decimal_text(n: nat) -> Seq<char>
    decreases n,
{
    if n < 10 {
        seq![digit_char(n)]
    } else {
        spec_decimal_text(n / 10).push(digit_char(n % 10))
    }
}

fn digit_char_of(d: u64) -> (r: char)
    requires
        d < 10,
    ensures
        r == digit_char(d as nat),
{
    match d {
        0 => '0',
        1 => '1',
        2 => '2',
        3 => '3',
        4 => '4',
        5 => '5',
        6 => '6',
        7 => '7',
        8 => '8',
        _ => '9',
    }
}

/// The decimal text of `n`, as `{}` formats it.
pub fn decimal_text(n: u64) -> (r: Vec<char>)
    ensures
        r@ == spec_decimal_text(n as nat),
    decreases n,
{
    if n < 10 {
        vec![digit_char_of(n)]
    } else {
        let mut v = decimal_text(n / 10);
        v.push(digit_char_of(n % 10));
        v
    }
}

// ---------------------------------------------------------------------
// Laws
// ---------------------------------------------------------------------

proof fn lemma_split_nonempty(s: Seq<char>)
    ensures
        split_commas(s).len() >= 1,
    decreases s.len(),
{
    if s.len() > 0 {
        lemma_split_nonempty(s.drop_last());
    }
}

proof fn lemma_split_join(s1: Seq<char>, s2: Seq<char>)
    ensures
        split_commas(s1 + seq![','] + s2) == split_commas(s1) + split_commas(s2),
    decreases s2.len(),
{
    let t = s1 + seq![','] + s2;
    if s2.len() == 0 {
        assert(t.drop_last() =~= s1);
        assert(split_commas(s2) =~= seq![Seq::<char>::empty()]);
        assert(split_commas(t) =~= split_commas(s1) + split_commas(s2));
    } else {
        let s2p = s2.drop_last();
        assert(t.drop_last() =~= s1 + seq![','] + s2p);
        assert(t.last() == s2.last());
        lemma_split_join(s1, s2p);
        lemma_split_nonempty(s2p);
        let a = split_commas(s1);
        let b = split_commas(s2p);
        if s2.last() == ',' {
            assert(split_commas(t) =~= a + b.push(Seq::<char>::empty()));
        } else {
            let c = s2.last();
            assert((a + b).last() == b.last());
            assert((a + b).update((a + b).len() - 1, b.last().push(c))
                =~= a + b.update(b.len() - 1, b.last().push(c)));
        }
    }
}

proof fn lemma_parsed_pieces_concat(p: Seq<Seq<char>>, q: Seq<Seq<char>>)
    ensures
        parsed_pieces(p + q) == parsed_pieces(p) + parsed_pieces(q),
    decreases q.len(),
{
    if q.len() == 0 {
        assert(p + q =~= p);
        assert(parsed_pieces(p) + parsed_pieces(q) =~= parsed_pieces(p));
    } else {
        let qp = q.drop_last();
        assert((p + q).drop_last() =~= p + qp);
        assert((p + q).last() == q.last());
        lemma_parsed_pieces_concat(p, qp);
        match spec_parse_i32(trim(q.last())) {
            Some(v) => {
                assert(parsed_pieces(p) + parsed_pieces(qp).push(v)
                    =~= (parsed_pieces(p) + parsed_pieces(qp)).push(v));
            },
            None => {},
        }
    }
}

/// Reading the integers of two lists joined by a comma gives the integers
/// of the first list followed by those of the second.
pub proof fn law_int_list_join(s1: Seq<char>, s2: Seq<char>)
    ensures
        spec_parse_int_list(s1 + seq![','] + s2) == spec_parse_int_list(s1) + spec_parse_int_list(s2),
{
    lemma_split_join(s1, s2);
    lemma_parsed_pieces_concat(split_commas(s1), split_commas(s2));
}

/// Lower-casing turns each upper-case ASCII letter into its lower-case
/// letter (32 code points on) and leaves every other character as it is.
pub proof fn law_ascii_lower(c: char)
    ensures
        'A' <= c <= 'Z' ==> ascii_lower(c) as u32 == c as u32 + 32 && 'a' <= ascii_lower(c) <= 'z',
        !('A' <= c <= 'Z') ==> ascii_lower(c) == c,
        ascii_lower(ascii_lower(c)) == ascii_lower(c),
{
}

} // verus!
