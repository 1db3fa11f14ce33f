//! Character-level text handling shared by the parsers: whitespace
//! trimming as `str::trim` does it, ASCII case folding, substring search,
//! unsigned decimal parsing as `str::parse` does it, and decimal rendering.
//!
//! Everything works on `Seq<char>` in specifications and on `Vec<char>` in
//! executable code, so that contracts speak of characters rather than of
//! UTF-8 byte offsets.

use vstd::prelude::*;

verus! {

/// Unicode `White_Space`, the set `char::is_whitespace` (and so `str::trim`)
/// uses.
pub open spec fn is_ws(c: char) -> bool {
    let u = c as u32;
    ||| (0x09 <= u && u <= 0x0d)
    ||| u == 0x20
    ||| u == 0x85
    ||| u == 0xa0
    ||| u == 0x1680
    ||| (0x2000 <= u && u <= 0x200a)
    ||| u == 0x2028
    ||| u == 0x2029
    ||| u == 0x202f
    ||| u == 0x205f
    ||| u == 0x3000
}

/// The text with leading whitespace removed.
pub open spec fn trim_start(s: Seq<char>) -> Seq<char>
    decreases s.len(),
{
    if s.len() > 0 && is_ws(s[0]) {
        trim_start(s.drop_first())
    } else {
        s
    }
}

/// The text with trailing whitespace removed.
pub open spec fn trim_end(s: Seq<char>) -> Seq<char>
    decreases s.len(),
{
    if s.len() > 0 && is_ws(s.last()) {
        trim_end(s.drop_last())
    } else {
        s
    }
}

/// The text with whitespace removed at both ends.
pub open spec fn trim(s: Seq<char>) -> Seq<char> {
    trim_end(trim_start(s))
}

/// ASCII upper-casing of one character; every other character is kept.
pub open spec fn upper_char(c: char) -> char {
    if 'a' <= c && c <= 'z' {
        ((c as u32) - 32) as char
    } else {
        c
    }
}

/// ASCII lower-casing of one character; every other character is kept.
pub open spec fn lower_char(c: char) -> char {
    if 'A' <= c && c <= 'Z' {
        ((c as u32) + 32) as char
    } else {
        c
    }
}

/// `to_ascii_uppercase` of a whole text.
pub open spec fn upper(s: Seq<char>) -> Seq<char> {
    s.map_values(|c: char| upper_char(c))
}

/// `to_ascii_lowercase` of a whole text.
pub open spec fn lower(s: Seq<char>) -> Seq<char> {
    s.map_values(|c: char| lower_char(c))
}

pub open spec fn is_ascii_digit(c: char) -> bool {
    '0' <= c && c <= '9'
}

pub open spec fn is_ascii_alnum(c: char) -> bool {
    ||| is_ascii_digit(c)
    ||| ('A' <= c && c <= 'Z')
    ||| ('a' <= c && c <= 'z')
}

/// `needle` occurs in `hay` starting at index `i`.
pub open spec fn occurs_at(hay: Seq<char>, needle: Seq<char>, i: int) -> bool {
    &&& 0 <= i
    &&& i + needle.len() <= hay.len()
    &&& hay.subrange(i, i + needle.len()) == needle
}

/// The first index at or after `from` where `needle` occurs in `hay`.
pub open spec fn find_from(hay: Seq<char>, needle: Seq<char>, from: int) -> Option<int>
    decreases hay.len() + 1 - from,
{
    if from < 0 || from > hay.len() || from + needle.len() > hay.len() {
        None
    } else if occurs_at(hay, needle, from) {
        Some(from)
    } else {
        find_from(hay, needle, from + 1)
    }
}

/// `str::find`: the first index where `needle` occurs in `hay`.
pub open spec fn find(hay: Seq<char>, needle: Seq<char>) -> Option<int> {
    find_from(hay, needle, 0)
}

/// The first index at or after `from` holding `a` or `b`, or the length.
pub open spec fn find_either_from(s: Seq<char>, a: char, b: char, from: int) -> int
    decreases s.len() - from,
{
    if from < 0 || from >= s.len() {
        s.len() as int
    } else if s[from] == a || s[from] == b {
        from
    } else {
        find_either_from(s, a, b, from + 1)
    }
}

pub open spec fn all_digits(s: Seq<char>) -> bool {
    forall|i: int| 0 <= i < s.len() ==> is_ascii_digit(#[trigger] s[i])
}

/// The number that a run of decimal digits spells.
pub open spec fn digits_value(s: Seq<char>) -> nat
    decreases s.len(),
{
    if s.len() == 0 {
        0
    } else {
        digits_value(s.drop_last()) * 10 + ((s.last() as nat) - ('0' as nat)) as nat
    }
}

/// `str::parse` for an unsigned integer type whose largest value is `max`:
/// an optional `+`, then at least one ASCII digit and nothing else, with a
/// value that fits.
pub open spec fn parse_unsigned(s: Seq<char>, max: nat) -> Option<nat> {
    let d = if s.len() > 0 && s[0] == '+' {
        s.drop_first()
    } else {
        s
    };
    if d.len() > 0 && all_digits(d) && digits_value(d) <= max {
        Some(digits_value(d))
    } else {
        None
    }
}

pub open spec fn digit_char(d: nat) -> char {
    if d == 0 {
        '0'
    } else if d == 1 {
        '1'
    } else if d == 2 {
        '2'
    } else if d == 3 {
        '3'
    } else if d == 4 {
        '4'
    } else if d == 5 {
        '5'
    } else if d == 6 {
        '6'
    } else if d == 7 {
        '7'
    } else if d == 8 {
        '8'
    } else {
        '9'
    }
}

/// The decimal rendering of `n` (`Display` for unsigned integers).
pub open spec fn decimal(n: nat) -> Seq<char>
    decreases n,
{
    if n < 10 {
        seq![digit_char(n)]
    } else {
        decimal(n / 10).push(digit_char(n % 10))
    }
}

pub fn is_whitespace(c: char) -> (r: bool)
    ensures
        r == is_ws(c),
{
    let u: u32 = c as u32;
    (0x09 <= u && u <= 0x0d) || u == 0x20 || u == 0x85 || u == 0xa0 || u == 0x1680 || (0x2000
        <= u && u <= 0x200a) || u == 0x2028 || u == 0x2029 || u == 0x202f || u == 0x205f || u
        == 0x3000
}

pub fn ascii_upper(c: char) -> (r: char)
    ensures
        r == upper_char(c),
{
    if 'a' <= c && c <= 'z' {
        let b: u8 = (c as u8) - 32;
        b as char
    } else {
        c
    }
}

pub fn is_digit(c: char) -> (r: bool)
    ensures
        r == is_ascii_digit(c),
{
    '0' <= c && c <= '9'
}

pub fn is_alnum(c: char) -> (r: bool)
    ensures
        r == is_ascii_alnum(c),
{
    ('0' <= c && c <= '9') || ('A' <= c && c <= 'Z') || ('a' <= c && c <= 'z')
}

/// The characters of `s`, in order.
pub fn chars_of(s: &str) -> (r: Vec<char>)
    ensures
        r@ == s@,
{
    let n: usize = s.unicode_len();
    let mut v: Vec<char> = Vec::new();
    let mut i: usize = 0;
    while i < n
        invariant
            n == s@.len(),
            i <= n,
            v@ == s@.subrange(0, i as int),
        decreases n - i,
    {
        let c = s.get_char(i);
        v.push(c);
        i = i + 1;
        assert(v@ =~= s@.subrange(0, i as int));
    }
    assert(v@ =~= s@);
    v
}

/// The characters of `v` between `lo` and `hi`.
pub fn sub_chars(v: &Vec<char>, lo: usize, hi: usize) -> (r: Vec<char>)
    requires
        lo <= hi <= v.len(),
    ensures
        r@ == v@.subrange(lo as int, hi as int),
{
    let mut r: Vec<char> = Vec::new();
    let mut i: usize = lo;
    while i < hi
        invariant
            lo <= i <= hi <= v.len(),
            r@ == v@.subrange(lo as int, i as int),
        decreases hi - i,
    {
        r.push(v[i]);
        i = i + 1;
        assert(r@ =~= v@.subrange(lo as int, i as int));
    }
    r
}

/// `to_ascii_uppercase` of a character vector.
pub fn upper_chars(v: &Vec<char>) -> (r: Vec<char>)
    ensures
        r@ == upper(v@),
{
    let mut r: Vec<char> = Vec::new();
    let mut i: usize = 0;
    while i < v.len()
        invariant
            i <= v.len(),
            r@ =~= upper(v@).subrange(0, i as int),
        decreases v.len() - i,
    {
        r.push(ascii_upper(v[i]));
        i = i + 1;
    }
    r
}

/// Whether `v` holds exactly the characters `lit`.
pub fn chars_eq(v: &Vec<char>, lit: &[char]) -> (r: bool)
    ensures
        r == (v@ == lit@),
{
    if v.len() != lit.len() {
        return false;
    }
    let mut i: usize = 0;
    while i < v.len()
        invariant
            v.len() == lit@.len(),
            i <= v.len(),
            forall|j: int| 0 <= j < i ==> v@[j] == lit@[j],
        decreases v.len() - i,
    {
        if v[i] != lit[i] {
            return false;
        }
        i = i + 1;
    }
    assert(v@ =~= lit@);
    true
}

/// Whether `v` begins with the characters `lit`.
pub fn starts_with(v: &Vec<char>, lit: &[char]) -> (r: bool)
    ensures
        r == (lit@.len() <= v@.len() && v@.subrange(0, lit@.len() as int) == lit@),
{
    if v.len() < lit.len() {
        return false;
    }
    let mut i: usize = 0;
    while i < lit.len()
        invariant
            lit@.len() <= v.len(),
            i <= lit@.len(),
            forall|j: int| 0 <= j < i ==> v@[j] == lit@[j],
        decreases lit.len() - i,
    {
        if v[i] != lit[i] {
            assert(v@.subrange(0, lit@.len() as int)[i as int] != lit@[i as int]);
            return false;
        }
        i = i + 1;
    }
    assert(v@.subrange(0, lit@.len() as int) =~= lit@);
    true
}

/// Whether `v` holds exactly the characters of `lit`.
pub fn text_is(v: &Vec<char>, lit: &str) -> (r: bool)
    ensures
        r == (v@ == lit@),
{
    let l = chars_of(lit);
    chars_eq(v, l.as_slice())
}

/// Whether `v` begins with the characters of `lit`.
pub fn text_starts_with(v: &Vec<char>, lit: &str) -> (r: bool)
    ensures
        r == (lit@.len() <= v@.len() && v@.subrange(0, lit@.len() as int) == lit@),
{
    let l = chars_of(lit);
    starts_with(v, l.as_slice())
}

/// `str::trim_start`.
pub fn trim_start_chars(v: &Vec<char>) -> (r: Vec<char>)
    ensures
        r@ == trim_start(v@),
{
    let n: usize = v.len();
    let mut i: usize = 0;
    assert(v@.subrange(0, n as int) =~= v@);
    while i < n && is_whitespace(v[i])
        invariant
            n == v.len(),
            i <= n,
            trim_start(v@) == trim_start(v@.subrange(i as int, n as int)),
        decreases n - i,
    {
        assert(v@.subrange(i as int, n as int).drop_first() =~= v@.subrange(i + 1, n as int));
        i = i + 1;
    }
    sub_chars(v, i, n)
}

/// `str::trim_end`.
pub fn trim_end_chars(v: &Vec<char>) -> (r: Vec<char>)
    ensures
        r@ == trim_end(v@),
{
    let mut k: usize = v.len();
    assert(v@.subrange(0, k as int) =~= v@);
    while k > 0 && is_whitespace(v[k - 1])
        invariant
            k <= v.len(),
            trim_end(v@) == trim_end(v@.subrange(0, k as int)),
        decreases k,
    {
        assert(v@.subrange(0, k as int).drop_last() =~= v@.subrange(0, k - 1));
        k = k - 1;
    }
    sub_chars(v, 0, k)
}

/// `str::trim`.
pub fn trim_chars(v: &Vec<char>) -> (r: Vec<char>)
    ensures
        r@ == trim(v@),
{
    let s = trim_start_chars(v);
    trim_end_chars(&s)
}

/// `str::find` over characters.
pub fn find_chars(hay: &Vec<char>, needle: &[char]) -> (r: Option<usize>)
    ensures
        match r {
            Some(i) => find(hay@, needle@) == Some(i as int) && occurs_at(hay@, needle@, i as int),
            None => find(hay@, needle@) is None,
        },
{
    if needle.len() > hay.len() {
        return None;
    }
    if needle.len() == 0 {
        assert(hay@.subrange(0, 0) =~= needle@);
        return Some(0);
    }
    let last: usize = hay.len() - needle.len();
    let mut i: usize = 0;
    while i <= last
        invariant
            last + needle.len() == hay.len(),
            needle.len() > 0,
            i <= last + 1,
            find(hay@, needle@) == find_from(hay@, needle@, i as int),
        decreases last + 1 - i,
    {
        let mut j: usize = 0;
        let mut same: bool = true;
        while j < needle.len()
            invariant
                i <= last,
                last + needle.len() == hay.len(),
                i + needle.len() <= hay.len(),
                j <= needle@.len(),
                same == (forall|k: int| 0 <= k < j ==> hay@[i + k] == needle@[k]),
            decreases needle.len() - j,
        {
            if hay[i + j] != needle[j] {
                same = false;
            }
            j = j + 1;
        }
        if same {
            assert(hay@.subrange(i as int, i + needle@.len()) =~= needle@);
            return Some(i);
        }
        assert(!occurs_at(hay@, needle@, i as int)) by {
            if occurs_at(hay@, needle@, i as int) {
                assert(forall|k: int|
                    0 <= k < needle@.len() ==> hay@[i + k] == #[trigger] hay@.subrange(
                        i as int,
                        i + needle@.len(),
                    )[k]);
            }
        }
        i = i + 1;
    }
    None
}

/// The index of the first `a` or `b` in `v`, or its length.
pub fn find_either(v: &Vec<char>, a: char, b: char) -> (r: usize)
    ensures
        r as int == find_either_from(v@, a, b, 0),
        r <= v@.len(),
{
    let mut i: usize = 0;
    while i < v.len()
        invariant
            i <= v.len(),
            find_either_from(v@, a, b, 0) == find_either_from(v@, a, b, i as int),
        decreases v.len() - i,
    {
        if v[i] == a || v[i] == b {
            return i;
        }
        i = i + 1;
    }
    i
}

/// `str::parse` into an unsigned integer type whose largest value is `max`.
pub fn parse_unsigned_chars(v: &Vec<char>, max: u64) -> (r: Option<u64>)
    ensures
        match r {
            Some(x) => parse_unsigned(v@, max as nat) == Some(x as nat),
            None => parse_unsigned(v@, max as nat) is None,
        },
{
    let start: usize = if v.len() > 0 && v[0] == '+' {
        1
    } else {
        0
    };
    let ghost d = if v@.len() > 0 && v@[0] == '+' {
        v@.drop_first()
    } else {
        v@
    };
    assert(d =~= v@.subrange(start as int, v@.len() as int));
    if start == v.len() {
        return None;
    }
    let mut acc: u64 = 0;
    let mut over: bool = false;
    let mut i: usize = start;
    assert(d.subrange(0, 0) =~= Seq::<char>::empty());
    while i < v.len()
        invariant
            start <= i <= v.len(),
            start < v.len(),
            d == v@.subrange(start as int, v@.len() as int),
            d == (if v@.len() > 0 && v@[0] == '+' {
                v@.drop_first()
            } else {
                v@
            }),
            forall|k: int| start <= k < i ==> is_ascii_digit(#[trigger] v@[k]),
            !over ==> acc as nat == digits_value(d.subrange(0, i - start)) && acc <= max,
            over ==> digits_value(d.subrange(0, i - start)) > max,
        decreases v.len() - i,
    {
        let c = v[i];
        if !is_digit(c) {
            assert(d[i - start] == c);
            assert(!is_ascii_digit(d[i - start]));
            return None;
        }
        let dig: u64 = (c as u64) - ('0' as u64);
        let ghost prev = d.subrange(0, i - start);
        let ghost next = d.subrange(0, i + 1 - start);
        assert(next.drop_last() =~= prev);
        assert(next.last() == c);
        assert(digits_value(next) == digits_value(prev) * 10 + dig);
        if !over {
            match acc.checked_mul(10) {
                Some(m) => match m.checked_add(dig) {
                    Some(s) => {
                        if s <= max {
                            acc = s;
                        } else {
                            over = true;
                        }
                    },
                    None => {
                        over = true;
                    },
                },
                None => {
                    over = true;
                },
            }
        }
        i = i + 1;
    }
    assert(d.subrange(0, d.len() as int) =~= d);
    assert(all_digits(d));
    if over {
        None
    } else {
        Some(acc)
    }
}

/// The one-character literal naming digit `d`.
pub fn digit_str(d: u64) -> (s: &'static str)
    requires
        d < 10,
    ensures
        s@ == seq![digit_char(d as nat)],
{
    if d == 0 {
        proof {
            reveal_strlit("0");
        }
        "0"
    } else if d == 1 {
        proof {
            reveal_strlit("1");
        }
        "1"
    } else if d == 2 {
        proof {
            reveal_strlit("2");
        }
        "2"
    } else if d == 3 {
        proof {
            reveal_strlit("3");
        }
        "3"
    } else if d == 4 {
        proof {
            reveal_strlit("4");
        }
        "4"
    } else if d == 5 {
        proof {
            reveal_strlit("5");
        }
        "5"
    } else if d == 6 {
        proof {
            reveal_strlit("6");
        }
        "6"
    } else if d == 7 {
        proof {
            reveal_strlit("7");
        }
        "7"
    } else if d == 8 {
        proof {
            reveal_strlit("8");
        }
        "8"
    } else {
        proof {
            reveal_strlit("9");
        }
        "9"
    }
}

/// The decimal rendering of `n`, as `n.to_string()` gives it.
pub fn decimal_string(n: u64) -> (r: String)
    ensures
        r@ == decimal(n as nat),
    decreases n,
{
    if n < 10 {
        String::from_str(digit_str(n))
    } else {
        let mut s = decimal_string(n / 10);
        s.append(digit_str(n % 10));
        s
    }
}

/// Appends the decimal rendering of `n` to `out`.
pub fn push_decimal(out: &mut String, n: u64)
    ensures
        final(out)@ == old(out)@ + decimal(n as nat),
{
    let d = decimal_string(n);
    out.append(d.as_str());
}

/// A digit's character is an ASCII digit whose value is the digit.
pub proof fn lemma_digit_char(d: nat)
    requires
        d < 10,
    ensures
        is_ascii_digit(digit_char(d)),
        (digit_char(d) as nat) - ('0' as nat) == d,
{
}

/// Parsing a decimal rendering gives the number back.
pub proof fn lemma_parse_decimal(n: nat, max: nat)
    requires
        n <= max,
    ensures
        parse_unsigned(decimal(n), max) == Some(n),
{
    lemma_decimal_digits(n);
}

/// A decimal rendering has no surrounding whitespace, and parses back to its
/// number exactly when that number fits under `max`.
pub proof fn lemma_decimal_parses(n: nat, max: nat)
    ensures
        trim(decimal(n)) == decimal(n),
        parse_unsigned(decimal(n), max) == (if n <= max {
            Some(n)
        } else {
            None::<nat>
        }),
{
    lemma_decimal_digits(n);
    let d = decimal(n);
    assert(is_ascii_digit(d[d.len() - 1]));
    lemma_trim_unchanged(d);
}

/// A decimal rendering is a nonempty run of digits spelling the number, and
/// does not begin with `+`.
pub proof fn lemma_decimal_digits(n: nat)
    ensures
        decimal(n).len() > 0,
        all_digits(decimal(n)),
        digits_value(decimal(n)) == n,
        is_ascii_digit(decimal(n)[0]),
    decreases n,
{
    if n < 10 {
        lemma_digit_char(n);
        assert(decimal(n).drop_last() =~= Seq::<char>::empty());
        assert(digits_value(Seq::<char>::empty()) == 0);
    } else {
        lemma_digit_char(n % 10);
        lemma_decimal_digits(n / 10);
        let s = decimal(n);
        assert(s.drop_last() =~= decimal(n / 10));
        assert(s.last() == digit_char(n % 10));
        assert(digits_value(s) == digits_value(decimal(n / 10)) * 10 + (n % 10));
        assert forall|i: int| 0 <= i < s.len() implies is_ascii_digit(#[trigger] s[i]) by {
            if i < s.len() - 1 {
                assert(s[i] == decimal(n / 10)[i]);
            }
        }
    }
}

/// Some character of `needle`, placed at `i`, disagrees with `x` before `x`
/// ends: `needle` cannot occur at `i` in any text that begins with `x`.
pub open spec fn refuted_in(x: Seq<char>, needle: Seq<char>, i: int) -> bool {
    exists|t: int| #![trigger needle[t]] 0 <= t < needle.len() && i + t < x.len() && x[i + t] != needle[t]
}

/// No occurrence of `needle` can start inside `x`, whatever follows it.
pub open spec fn all_refuted(x: Seq<char>, needle: Seq<char>) -> bool {
    forall|i: int| 0 <= i < x.len() ==> #[trigger] refuted_in(x, needle, i)
}

/// A text none of whose characters is `c` refutes every needle that begins
/// with `c`.
pub proof fn lemma_refuted_without(x: Seq<char>, needle: Seq<char>)
    requires
        needle.len() > 0,
        forall|i: int| 0 <= i < x.len() ==> x[i] != needle[0],
    ensures
        all_refuted(x, needle),
{
    assert forall|i: int| 0 <= i < x.len() implies #[trigger] refuted_in(x, needle, i) by {
        assert(x[i + 0] != needle[0]);
    }
}

/// A text in which every position disagrees with `needle` within its first
/// three characters refutes it.
pub proof fn lemma_refuted_within3(x: Seq<char>, needle: Seq<char>)
    requires
        needle.len() >= 3,
        forall|i: int|
            0 <= i < x.len() ==> #[trigger] x[i] != needle[0] || (i + 1 < x.len() && x[i + 1] != needle[1])
                || (i + 2 < x.len() && x[i + 2] != needle[2]),
    ensures
        all_refuted(x, needle),
{
    assert forall|i: int| 0 <= i < x.len() implies #[trigger] refuted_in(x, needle, i) by {
        if x[i] != needle[0] {
            assert(x[i + 0] != needle[0]);
        } else if i + 1 < x.len() && x[i + 1] != needle[1] {
            assert(x[i + 1] != needle[1]);
        } else {
            assert(x[i + 2] != needle[2]);
        }
    }
}

pub proof fn lemma_all_refuted_concat(x: Seq<char>, y: Seq<char>, needle: Seq<char>)
    requires
        all_refuted(x, needle),
        all_refuted(y, needle),
    ensures
        all_refuted(x + y, needle),
{
    let h = x + y;
    assert forall|i: int| 0 <= i < h.len() implies #[trigger] refuted_in(h, needle, i) by {
        if i < x.len() {
            assert(refuted_in(x, needle, i));
            let t = choose|t: int|
                #![trigger needle[t]]
                0 <= t < needle.len() && i + t < x.len() && x[i + t] != needle[t];
            assert(h[i + t] == x[i + t]);
        } else {
            let j = i - x.len();
            assert(refuted_in(y, needle, j));
            let t = choose|t: int|
                #![trigger needle[t]]
                0 <= t < needle.len() && j + t < y.len() && y[j + t] != needle[t];
            assert(h[i + t] == y[j + t]);
        }
    }
}

proof fn lemma_find_skip(hay: Seq<char>, needle: Seq<char>, from: int, to: int)
    requires
        0 <= from <= to,
        forall|i: int| from <= i < to ==> !occurs_at(hay, needle, i),
    ensures
        find_from(hay, needle, from) == find_from(hay, needle, to),
    decreases to - from,
{
    if from < to {
        lemma_find_skip(hay, needle, from + 1, to);
        if from > hay.len() || from + needle.len() > hay.len() {
            assert(find_from(hay, needle, to) is None);
        }
    }
}

proof fn lemma_find_shift(x: Seq<char>, y: Seq<char>, needle: Seq<char>, k: int)
    requires
        0 <= k,
    ensures
        find_from(x + y, needle, x.len() + k) == match find_from(y, needle, k) {
            Some(j) => Some(j + x.len()),
            None => None,
        },
    decreases y.len() + 1 - k,
{
    let h = x + y;
    if k > y.len() || k + needle.len() > y.len() {
    } else {
        assert(h.subrange(x.len() + k, x.len() + k + needle.len()) =~= y.subrange(
            k,
            k + needle.len(),
        ));
        if !occurs_at(y, needle, k) {
            lemma_find_shift(x, y, needle, k + 1);
        }
    }
}

/// Behind a text that refutes it, `needle` is found where it is found in
/// the rest, shifted.
pub proof fn lemma_find_after(x: Seq<char>, y: Seq<char>, needle: Seq<char>)
    requires
        all_refuted(x, needle),
    ensures
        find(x + y, needle) == match find(y, needle) {
            Some(j) => Some(j + x.len()),
            None => None,
        },
{
    let h = x + y;
    assert forall|i: int| 0 <= i < x.len() implies !occurs_at(h, needle, i) by {
        assert(refuted_in(x, needle, i));
        let t = choose|t: int|
            #![trigger needle[t]]
            0 <= t < needle.len() && i + t < x.len() && x[i + t] != needle[t];
        if occurs_at(h, needle, i) {
            assert(h.subrange(i, i + needle.len())[t] == h[i + t]);
        }
    }
    lemma_find_skip(h, needle, 0, x.len() as int);
    lemma_find_shift(x, y, needle, 0);
}

/// Text appended after an occurrence does not change where it is first
/// found.
pub proof fn lemma_find_from_extend(x: Seq<char>, y: Seq<char>, needle: Seq<char>, from: int)
    requires
        find_from(x, needle, from) is Some,
    ensures
        find_from(x + y, needle, from) == find_from(x, needle, from),
    decreases x.len() + 1 - from,
{
    let h = x + y;
    assert(h.subrange(from, from + needle.len()) =~= x.subrange(from, from + needle.len()));
    if !occurs_at(x, needle, from) {
        lemma_find_from_extend(x, y, needle, from + 1);
    }
}

/// A text that begins with `needle` has it at 0.
pub proof fn lemma_find_at_start(y: Seq<char>, needle: Seq<char>)
    requires
        needle.len() <= y.len(),
        y.subrange(0, needle.len() as int) == needle,
    ensures
        find(y, needle) == Some(0int),
{
}

/// In `v + w`, where `v` holds neither `a` nor `b` and `w` begins with one
/// of them, the first `a` or `b` is right behind `v`.
pub proof fn lemma_find_either_after(v: Seq<char>, w: Seq<char>, a: char, b: char, from: int)
    requires
        0 <= from <= v.len(),
        forall|i: int| 0 <= i < v.len() ==> v[i] != a && v[i] != b,
        w.len() > 0,
        w[0] == a || w[0] == b,
    ensures
        find_either_from(v + w, a, b, from) == v.len(),
    decreases v.len() - from,
{
    if from < v.len() {
        assert((v + w)[from] == v[from]);
        lemma_find_either_after(v, w, a, b, from + 1);
    } else {
        assert((v + w)[from] == w[0]);
    }
}

proof fn lemma_trim_start_ws(pad: Seq<char>, w: Seq<char>)
    requires
        forall|i: int| 0 <= i < pad.len() ==> is_ws(#[trigger] pad[i]),
    ensures
        trim_start(pad + w) == trim_start(w),
    decreases pad.len(),
{
    if pad.len() > 0 {
        assert((pad + w)[0] == pad[0]);
        assert((pad + w).drop_first() =~= pad.drop_first() + w);
        assert forall|i: int| 0 <= i < pad.drop_first().len() implies is_ws(
            #[trigger] pad.drop_first()[i],
        ) by {
            assert(pad.drop_first()[i] == pad[i + 1]);
        }
        lemma_trim_start_ws(pad.drop_first(), w);
    } else {
        assert(pad + w =~= w);
    }
}

proof fn lemma_trim_end_ws(w: Seq<char>, pad: Seq<char>)
    requires
        forall|i: int| 0 <= i < pad.len() ==> is_ws(#[trigger] pad[i]),
    ensures
        trim_end(w + pad) == trim_end(w),
    decreases pad.len(),
{
    if pad.len() > 0 {
        assert((w + pad).last() == pad.last());
        assert(is_ws(pad[pad.len() - 1]));
        assert((w + pad).drop_last() =~= w + pad.drop_last());
        assert forall|i: int| 0 <= i < pad.drop_last().len() implies is_ws(
            #[trigger] pad.drop_last()[i],
        ) by {
            assert(pad.drop_last()[i] == pad[i]);
        }
        lemma_trim_end_ws(w, pad.drop_last());
    } else {
        assert(w + pad =~= w);
    }
}

/// Whitespace around a text that neither begins nor ends with whitespace is
/// exactly what trimming removes.
pub proof fn lemma_trim_padded(pad: Seq<char>, v: Seq<char>)
    requires
        forall|i: int| 0 <= i < pad.len() ==> is_ws(#[trigger] pad[i]),
        v.len() > 0,
        !is_ws(v[0]),
        !is_ws(v.last()),
    ensures
        trim(pad + v + pad) == v,
{
    assert(pad + v + pad =~= pad + (v + pad));
    lemma_trim_start_ws(pad, v + pad);
    assert((v + pad)[0] == v[0]);
    assert(trim_start(v + pad) == v + pad);
    lemma_trim_end_ws(v, pad);
    lemma_trim_unchanged(v);
}

/// Trimming changes nothing when the text neither begins nor ends with
/// whitespace.
pub proof fn lemma_trim_unchanged(v: Seq<char>)
    requires
        v.len() > 0,
        !is_ws(v[0]),
        !is_ws(v.last()),
    ensures
        trim(v) == v,
        trim_start(v) == v,
{
}

} // verus!
