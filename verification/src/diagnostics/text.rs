//! Character-level text helpers with exact specifications.
use vstd::prelude::*;

verus! {

/// Unicode `White_Space`, the property that `char::is_whitespace` tests.
pub open spec fn is_ws(c: char) -> bool {
    ||| c == ' '
    ||| ('\t' <= c && c <= '\r')
    ||| c == '\u{85}'
    ||| c == '\u{a0}'
    ||| c == '\u{1680}'
    ||| ('\u{2000}' <= c && c <= '\u{200a}')
    ||| c == '\u{2028}'
    ||| c == '\u{2029}'
    ||| c == '\u{202f}'
    ||| c == '\u{205f}'
    ||| c == '\u{3000}'
}

pub fn is_whitespace(c: char) -> (r: bool)
    ensures
        r == is_ws(c),
{
    c == ' ' || ('\t' <= c && c <= '\r') || c == '\u{85}' || c == '\u{a0}' || c == '\u{1680}'
        || ('\u{2000}' <= c && c <= '\u{200a}') || c == '\u{2028}' || c == '\u{2029}'
        || c == '\u{202f}' || c == '\u{205f}' || c == '\u{3000}'
}

/// `needle` occurs in `hay` as a contiguous block (the empty needle occurs everywhere).
pub open spec fn seq_contains(hay: Seq<char>, needle: Seq<char>) -> bool {
    exists|i: int| 0 <= i <= hay.len() - needle.len() && #[trigger] hay.subrange(i, i + needle.len()) == needle
}

/// `s` with leading white space removed.
pub open spec fn trim_start(s: Seq<char>) -> Seq<char>
    decreases s.len(),
{
    if s.len() > 0 && is_ws(s[0]) {
        trim_start(s.drop_first())
    } else {
        s
    }
}

/// `s` with trailing white space removed.
pub open spec fn trim_end(s: Seq<char>) -> Seq<char>
    decreases s.len(),
{
    if s.len() > 0 && is_ws(s.last()) {
        trim_end(s.drop_last())
    } else {
        s
    }
}

/// `s` with white space removed at both ends, as `str::trim` does.
pub open spec fn trim(s: Seq<char>) -> Seq<char> {
    trim_end(trim_start(s))
}

/// The maximal runs of non-white-space characters of `s`, as `str::split_whitespace` yields them.
pub open spec fn ws_tokens(s: Seq<char>) -> Seq<Seq<char>>
    decreases s.len(),
{
    if s.len() == 0 {
        seq![]
    } else {
        let p = s.drop_last();
        let c = s.last();
        let t = ws_tokens(p);
        if is_ws(c) {
            t
        } else if p.len() == 0 || is_ws(p.last()) {
            t.push(seq![c])
        } else {
            t.update(t.len() - 1, t.last().push(c))
        }
    }
}

/// The pieces of `s` between occurrences of `sep`, as `str::split(sep)` yields them.
pub open spec fn split_on(s: Seq<char>, sep: char) -> Seq<Seq<char>>
    decreases s.len(),
{
    if s.len() == 0 {
        seq![seq![]]
    } else {
        let t = split_on(s.drop_last(), sep);
        if s.last() == sep {
            t.push(seq![])
        } else {
            t.update(t.len() - 1, t.last().push(s.last()))
        }
    }
}

pub open spec fn is_digit(c: char) -> bool {
    '0' <= c && c <= '9'
}

pub open spec fn digit_value(c: char) -> int {
    c as int - '0' as int
}

pub open spec fn all_digits(s: Seq<char>) -> bool {
    forall|i: int| 0 <= i < s.len() ==> is_digit(#[trigger] s[i])
}

/// The number that a string of decimal digits denotes.
pub open spec fn digits_value(s: Seq<char>) -> int
    decreases s.len(),
{
    if s.len() == 0 {
        0
    } else {
        digits_value(s.drop_last()) * 10 + digit_value(s.last())
    }
}

pub open spec fn digits_number(s: Seq<char>) -> Option<int> {
    if s.len() > 0 && all_digits(s) {
        Some(digits_value(s))
    } else {
        None
    }
}

/// The value of a decimal integer literal as `FromStr` for Rust's integer types reads it:
/// an optional `+` (or, when `signed`, `-`) followed by at least one digit.
/// The range of the target type is not checked here.
pub open spec fn int_literal_value(s: Seq<char>, signed: bool) -> Option<int> {
    if s.len() == 0 {
        None
    } else if (s[0] == '+' || s[0] == '-') && s.len() == 1 {
        None
    } else if s[0] == '+' {
        digits_number(s.drop_first())
    } else if s[0] == '-' && signed {
        match digits_number(s.drop_first()) {
            Some(v) => Some(-v),
            None => None,
        }
    } else {
        digits_number(s)
    }
}

/// What `str::parse::<i64>` gives for `s`.
pub open spec fn parse_i64_spec(s: Seq<char>) -> Option<i64> {
    match int_literal_value(s, true) {
        Some(v) => if i64::MIN <= v <= i64::MAX {
            Some(v as i64)
        } else {
            None
        },
        None => None,
    }
}

/// What `str::parse::<u64>` gives for `s`.
pub open spec fn parse_u64_spec(s: Seq<char>) -> Option<u64> {
    match int_literal_value(s, false) {
        Some(v) => if 0 <= v <= u64::MAX {
            Some(v as u64)
        } else {
            None
        },
        None => None,
    }
}

pub open spec fn digit_char(d: nat) -> char {
    (d + 48) as char
}

/// Decimal notation of a natural number, without leading zeros.
pub open spec fn decimal(n: nat) -> Seq<char>
    decreases n,
{
    if n < 10 {
        seq![digit_char(n)]
    } else {
        decimal(n / 10).push(digit_char(n % 10))
    }
}

/// Decimal notation of an integer, as `Display` writes it.
pub open spec fn signed_decimal(n: int) -> Seq<char> {
    if n < 0 {
        seq!['-'] + decimal((-n) as nat)
    } else {
        decimal(n as nat)
    }
}

/// `s` padded on the left with `0` up to `width` characters, as `{:0width}` pads a number.
pub open spec fn zero_pad(s: Seq<char>, width: nat) -> Seq<char> {
    if s.len() < width {
        Seq::new((width - s.len()) as nat, |i: int| '0') + s
    } else {
        s
    }
}

/// The characters of `s`, in order.
pub fn chars_of(s: &str) -> (v: Vec<char>)
    ensures
        v@ == s@,
{
    let mut v: Vec<char> = Vec::new();
    for c in it: s.chars()
        invariant
            v@ == it.seq().take(it.index()),
            it.seq() == s@,
    {
        v.push(c);
    }
    v
}

/// An owned copy of `s`.
pub fn owned(s: &str) -> (r: String)
    ensures
        r@ == s@,
{
    String::from_str(s)
}

/// Whether `hay` begins with `prefix`.
pub fn seq_starts_with(hay: &Vec<char>, prefix: &Vec<char>) -> (r: bool)
    ensures
        r == prefix@.is_prefix_of(hay@),
{
    if prefix.len() > hay.len() {
        return false;
    }
    let mut i: usize = 0;
    while i < prefix.len()
        invariant
            prefix.len() <= hay.len(),
            i <= prefix.len(),
            forall|j: int| 0 <= j < i ==> prefix@[j] == hay@[j],
        decreases prefix.len() - i,
    {
        if prefix[i] != hay[i] {
            return false;
        }
        i = i + 1;
    }
    true
}

/// Whether `hay` begins with `prefix`, as `str::starts_with` decides.
pub fn starts_with(hay: &str, prefix: &str) -> (r: bool)
    ensures
        r == prefix@.is_prefix_of(hay@),
{
    seq_starts_with(&chars_of(hay), &chars_of(prefix))
}

/// Whether `needle` occurs in `hay`.
pub fn seq_find(hay: &Vec<char>, needle: &Vec<char>) -> (r: bool)
    ensures
        r == seq_contains(hay@, needle@),
{
    if needle.len() > hay.len() {
        return false;
    }
    let last = hay.len() - needle.len();
    let mut i: usize = 0;
    loop
        invariant
            i <= last,
            last == hay.len() - needle.len(),
            needle.len() <= hay.len(),
            forall|k: int| 0 <= k < i ==> #[trigger] hay@.subrange(k, k + needle.len()) != needle@,
        decreases last - i,
    {
        let mut j: usize = 0;
        let mut same = true;
        while j < needle.len()
            invariant
                i <= last,
                last == hay.len() - needle.len(),
                j <= needle.len(),
                same ==> forall|m: int| 0 <= m < j ==> hay@[i + m] == needle@[m],
                !same ==> hay@.subrange(i as int, i + needle.len()) != needle@,
            decreases needle.len() - j,
        {
            if same && hay[i + j] != needle[j] {
                same = false;
                assert(hay@.subrange(i as int, i + needle.len())[j as int] != needle@[j as int]);
            }
            j = j + 1;
        }
        if same {
            assert(hay@.subrange(i as int, i + needle.len()) =~= needle@);
            return true;
        }
        if i == last {
            return false;
        }
        i = i + 1;
    }
}

/// Whether `needle` occurs in `hay`, as `str::contains` decides.
pub fn contains(hay: &str, needle: &str) -> (r: bool)
    ensures
        r == seq_contains(hay@, needle@),
{
    seq_find(&chars_of(hay), &chars_of(needle))
}


/// Index of the first character of `s` at or after which no white space is skipped.
fn trim_start_index(v: &Vec<char>) -> (i: usize)
    ensures
        i <= v.len(),
        trim_start(v@) == v@.subrange(i as int, v.len() as int),
{
    let mut i: usize = 0;
    assert(v@.subrange(0, v.len() as int) =~= v@);
    while i < v.len() && is_whitespace(v[i])
        invariant
            i <= v.len(),
            trim_start(v@) == trim_start(v@.subrange(i as int, v.len() as int)),
        decreases v.len() - i,
    {
        assert(v@.subrange(i as int, v.len() as int).drop_first() =~= v@.subrange(i + 1, v.len() as int));
        i = i + 1;
    }
    i
}

/// White space trimmed from both ends of `v`.
pub fn trim_chars(v: &Vec<char>) -> (r: Vec<char>)
    ensures
        r@ == trim(v@),
{
    let start = trim_start_index(v);
    let ghost t = v@.subrange(start as int, v.len() as int);
    let mut end: usize = v.len();
    while end > start && is_whitespace(v[end - 1])
        invariant
            start <= end <= v.len(),
            t == v@.subrange(start as int, v.len() as int),
            trim_end(t) == trim_end(v@.subrange(start as int, end as int)),
        decreases end,
    {
        assert(v@.subrange(start as int, end as int).drop_last() =~= v@.subrange(start as int, end - 1));
        end = end - 1;
    }
    let mut r: Vec<char> = Vec::new();
    let mut i = start;
    while i < end
        invariant
            start <= i <= end <= v.len(),
            r@ == v@.subrange(start as int, i as int),
        decreases end - i,
    {
        r.push(v[i]);
        assert(r@ =~= v@.subrange(start as int, i + 1));
        i = i + 1;
    }
    r
}

/// White space trimmed from both ends of `s`, as `str::trim` does.
pub fn trim_str(s: &str) -> (r: String)
    ensures
        r@ == trim(s@),
{
    let v = chars_of(s);
    let start = trim_start_index(&v);
    let ghost t = v@.subrange(start as int, v.len() as int);
    let mut end: usize = v.len();
    while end > start && is_whitespace(v[end - 1])
        invariant
            start <= end <= v.len(),
            t == v@.subrange(start as int, v.len() as int),
            trim_end(t) == trim_end(v@.subrange(start as int, end as int)),
        decreases end,
    {
        assert(v@.subrange(start as int, end as int).drop_last() =~= v@.subrange(start as int, end - 1));
        end = end - 1;
    }
    owned(s.substring_char(start, end))
}

pub open spec fn deep(v: Seq<Vec<char>>) -> Seq<Seq<char>> {
    v.map_values(|t: Vec<char>| t@)
}

/// The white-space separated words of `v`, as `str::split_whitespace` yields them.
pub fn split_whitespace(v: &Vec<char>) -> (r: Vec<Vec<char>>)
    ensures
        deep(r@) == ws_tokens(v@),
{
    let mut done: Vec<Vec<char>> = Vec::new();
    let mut cur: Vec<char> = Vec::new();
    let mut i: usize = 0;
    while i < v.len()
        invariant
            i <= v.len(),
            cur@.len() > 0 <==> (i > 0 && !is_ws(v@[i - 1])),
            ws_tokens(v@.take(i as int)) == if cur@.len() > 0 {
                deep(done@).push(cur@)
            } else {
                deep(done@)
            },
        decreases v.len() - i,
    {
        let c = v[i];
        assert(v@.take(i + 1).drop_last() =~= v@.take(i as int));
        assert(v@.take(i + 1).last() == c);
        let ghost t = ws_tokens(v@.take(i as int));
        proof {
            if i > 0 {
                assert(v@.take(i as int).last() == v@[i - 1]);
            }
            if !is_ws(c) && cur@.len() > 0 {
                assert(t.update(t.len() - 1, t.last().push(c)) =~= deep(done@).push(cur@.push(c)));
            }
            if !is_ws(c) && cur@.len() == 0 {
                assert(cur@.push(c) =~= seq![c]);
            }
            assert(ws_tokens(v@.take(i + 1)) == if is_ws(c) {
                t
            } else if i == 0 || is_ws(v@[i - 1]) {
                t.push(seq![c])
            } else {
                t.update(t.len() - 1, t.last().push(c))
            });
        }
        if is_whitespace(c) {
            if cur.len() > 0 {
                let finished = cur;
                cur = Vec::new();
                let ghost before = done@;
                done.push(finished);
                assert(deep(done@) =~= deep(before).push(finished@));
            }
        } else {
            cur.push(c);
        }
        i = i + 1;
    }
    assert(v@.take(v.len() as int) =~= v@);
    if cur.len() > 0 {
        let ghost before = done@;
        let ghost last = cur@;
        done.push(cur);
        assert(deep(done@) =~= deep(before).push(last));
    }
    done
}


/// The pieces of `v` between occurrences of `sep`, as `str::split` yields them.
pub fn split_char(v: &Vec<char>, sep: char) -> (r: Vec<Vec<char>>)
    ensures
        deep(r@) == split_on(v@, sep),
{
    let mut done: Vec<Vec<char>> = Vec::new();
    let mut cur: Vec<char> = Vec::new();
    let mut i: usize = 0;
    assert(v@.take(0) =~= seq![]);
    assert(deep(done@).push(cur@) =~= seq![seq![]]);
    while i < v.len()
        invariant
            i <= v.len(),
            split_on(v@.take(i as int), sep) == deep(done@).push(cur@),
        decreases v.len() - i,
    {
        let c = v[i];
        let ghost t = split_on(v@.take(i as int), sep);
        proof {
            assert(v@.take(i + 1).drop_last() =~= v@.take(i as int));
            assert(v@.take(i + 1).last() == c);
            assert(t.update(t.len() - 1, t.last().push(c)) =~= deep(done@).push(cur@.push(c)));
        }
        if c == sep {
            let finished = cur;
            cur = Vec::new();
            let ghost before = done@;
            done.push(finished);
            assert(deep(done@) =~= deep(before).push(finished@));
            assert(deep(done@).push(cur@) =~= t.push(seq![]));
        } else {
            cur.push(c);
        }
        i = i + 1;
    }
    assert(v@.take(v.len() as int) =~= v@);
    let ghost before = done@;
    let ghost last = cur@;
    done.push(cur);
    assert(deep(done@) =~= deep(before).push(last));
    done
}

/// `digits_value` grows with each appended digit, so a prefix never denotes more.
proof fn lemma_digits_prefix(s: Seq<char>, k: int)
    requires
        all_digits(s),
        0 <= k <= s.len(),
    ensures
        0 <= digits_value(s.take(k)) <= digits_value(s),
    decreases s.len(),
{
    if s.len() == 0 {
        assert(s.take(k) =~= s);
    } else if k == s.len() {
        assert(s.take(k) =~= s);
        lemma_digits_prefix(s.drop_last(), 0);
    } else {
        assert(s.drop_last().take(k) =~= s.take(k));
        lemma_digits_prefix(s.drop_last(), k);
    }
}

/// The value of a nonempty run of decimal digits, if it is at most `cap`.
fn digits_at_most(v: &Vec<char>, from: usize, cap: u128) -> (r: Option<u128>)
    requires
        from < v.len(),
        cap <= 0x1_0000_0000_0000_0000u128,
    ensures
        r matches Some(x) ==> x <= cap,
        digits_number(v@.subrange(from as int, v.len() as int)) matches Some(n) ==> n >= 0,
        r == (match digits_number(v@.subrange(from as int, v.len() as int)) {
            Some(n) => if n <= cap {
                Some(n as u128)
            } else {
                None
            },
            None => None,
        }),
{
    let ghost d = v@.subrange(from as int, v.len() as int);
    let mut acc: u128 = 0;
    let mut i: usize = from;
    while i < v.len()
        invariant
            from <= i <= v.len(),
            d == v@.subrange(from as int, v.len() as int),
            d.len() > 0,
            cap <= 0x1_0000_0000_0000_0000u128,
            all_digits(d.take(i - from)),
            acc == digits_value(d.take(i - from)),
            acc <= cap,
        decreases v.len() - i,
    {
        let c = v[i];
        assert(d.take(i - from + 1).drop_last() =~= d.take(i - from));
        assert(d.take(i - from + 1).last() == c);
        if !('0' <= c && c <= '9') {
            assert(!all_digits(d)) by {
                assert(d[i - from] == c);
            }
            return None;
        }
        let dv = (c as u32 - '0' as u32) as u128;
        assert(dv == digit_value(c));
        let next = acc * 10 + dv;
        if next > cap {
            proof {
                if all_digits(d) {
                    lemma_digits_prefix(d, i - from + 1);
                }
            }
            return None;
        }
        acc = next;
        i = i + 1;
    }
    assert(d.take(i - from) =~= d);
    Some(acc)
}

/// `s.parse::<i64>()`.
pub fn parse_i64(v: &Vec<char>) -> (r: Option<i64>)
    ensures
        r == parse_i64_spec(v@),
{
    if v.len() == 0 {
        return None;
    }
    if (v[0] == '+' || v[0] == '-') && v.len() == 1 {
        return None;
    }
    let negative = v[0] == '-';
    let from: usize = if v[0] == '+' || v[0] == '-' { 1 } else { 0 };
    assert(from == 1 ==> v@.subrange(1, v.len() as int) =~= v@.drop_first());
    assert(from == 0 ==> v@.subrange(0, v.len() as int) =~= v@);
    let cap: u128 = if negative { 0x8000_0000_0000_0000 } else { 0x7fff_ffff_ffff_ffff };
    match digits_at_most(v, from, cap) {
        Some(n) => {
            if negative {
                if n == 0x8000_0000_0000_0000 {
                    Some(i64::MIN)
                } else {
                    Some(-(n as i64))
                }
            } else {
                Some(n as i64)
            }
        },
        None => None,
    }
}

/// `s.parse::<u64>()`.
pub fn parse_u64(v: &Vec<char>) -> (r: Option<u64>)
    ensures
        r == parse_u64_spec(v@),
{
    if v.len() == 0 {
        return None;
    }
    if (v[0] == '+' || v[0] == '-') && v.len() == 1 {
        return None;
    }
    let from: usize = if v[0] == '+' { 1 } else { 0 };
    assert(from == 1 ==> v@.subrange(1, v.len() as int) =~= v@.drop_first());
    assert(from == 0 ==> v@.subrange(0, v.len() as int) =~= v@);
    match digits_at_most(v, from, 0xffff_ffff_ffff_ffff) {
        Some(n) => Some(n as u64),
        None => None,
    }
}


/// The one-character text of a decimal digit.
fn digit_str(d: u64) -> (r: &'static str)
    requires
        d < 10,
    ensures
        r@ == seq![digit_char(d as nat)],
{
    if d == 0 {
        proof { reveal_strlit("0"); }
        "0"
    } else if d == 1 {
        proof { reveal_strlit("1"); }
        "1"
    } else if d == 2 {
        proof { reveal_strlit("2"); }
        "2"
    } else if d == 3 {
        proof { reveal_strlit("3"); }
        "3"
    } else if d == 4 {
        proof { reveal_strlit("4"); }
        "4"
    } else if d == 5 {
        proof { reveal_strlit("5"); }
        "5"
    } else if d == 6 {
        proof { reveal_strlit("6"); }
        "6"
    } else if d == 7 {
        proof { reveal_strlit("7"); }
        "7"
    } else if d == 8 {
        proof { reveal_strlit("8"); }
        "8"
    } else if d == 9 {
        proof { reveal_strlit("9"); }
        "9"
    } else {
        proof { reveal_strlit("9"); }
        "9"
    }
}

/// `n.to_string()` for an unsigned integer.
pub fn u64_to_text(n: u64) -> (r: String)
    ensures
        r@ == decimal(n as nat),
    decreases n,
{
    if n < 10 {
        owned(digit_str(n))
    } else {
        let mut head = u64_to_text(n / 10);
        head.append(digit_str(n % 10));
        head
    }
}

/// `n.to_string()` for a signed integer.
pub fn i64_to_text(n: i64) -> (r: String)
    ensures
        r@ == signed_decimal(n as int),
{
    if n < 0 {
        let magnitude: u64 = if n == i64::MIN {
            0x8000_0000_0000_0000
        } else {
            (-n) as u64
        };
        proof { reveal_strlit("-"); }
        let mut r = owned("-");
        r.append(u64_to_text(magnitude).as_str());
        r
    } else {
        u64_to_text(n as u64)
    }
}

/// `format!("{:0w$}", n)` for an unsigned integer.
pub fn zero_padded(n: u64, width: usize) -> (r: String)
    ensures
        r@ == zero_pad(decimal(n as nat), width as nat),
{
    let digits = u64_to_text(n);
    let len = digits.unicode_len();
    if len >= width {
        return digits;
    }
    let mut r = String::new();
    let mut i: usize = len;
    proof { reveal_strlit("0"); }
    while i < width
        invariant
            len <= i <= width,
            len == digits@.len(),
            r@ == Seq::new((i - len) as nat, |k: int| '0'),
        decreases width - i,
    {
        proof { reveal_strlit("0"); }
        r.append("0");
        assert(r@ =~= Seq::new((i + 1 - len) as nat, |k: int| '0'));
        i = i + 1;
    }
    r.append(digits.as_str());
    r
}

} // verus!
