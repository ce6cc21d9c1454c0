//! Character-level helpers shared by the parsers and formatters: splitting,
//! whitespace trimming, hexadecimal and decimal digits.

use vstd::prelude::*;

verus! {

// ---------------------------------------------------------------------------
// Specifications
// ---------------------------------------------------------------------------

/// Unicode `White_Space`, the property that `char::is_whitespace` tests.
pub open spec fn is_white_space(c: char) -> bool {
    let u = c as u32;
    ||| 0x09 <= u && u <= 0x0d
    ||| u == 0x20
    ||| u == 0x85
    ||| u == 0xa0
    ||| u == 0x1680
    ||| 0x2000 <= u && u <= 0x200a
    ||| u == 0x2028
    ||| u == 0x2029
    ||| u == 0x202f
    ||| u == 0x205f
    ||| u == 0x3000
}

/// `s` without its leading whitespace.
pub open spec fn trim_start(s: Seq<char>) -> Seq<char>
    decreases s.len(),
{
    if s.len() > 0 && is_white_space(s[0]) {
        trim_start(s.drop_first())
    } else {
        s
    }
}

/// `s` without its trailing whitespace.
pub open spec fn trim_end(s: Seq<char>) -> Seq<char>
    decreases s.len(),
{
    if s.len() > 0 && is_white_space(s.last()) {
        trim_end(s.drop_last())
    } else {
        s
    }
}

/// `s` without leading and trailing whitespace (what `str::trim` returns).
pub open spec fn trim(s: Seq<char>) -> Seq<char> {
    trim_end(trim_start(s))
}

/// The pieces of `s` between occurrences of `sep` (what `str::split` yields
/// for a one-character pattern). There is always at least one piece.
pub open spec fn split_on(s: Seq<char>, sep: char) -> Seq<Seq<char>>
    decreases s.len(),
{
    if s.len() == 0 {
        seq![Seq::<char>::empty()]
    } else {
        let prev = split_on(s.drop_last(), sep);
        if s.last() == sep {
            prev.push(Seq::<char>::empty())
        } else {
            prev.update(prev.len() - 1, prev.last().push(s.last()))
        }
    }
}

/// Whether `p` is a prefix of `s`.
pub open spec fn has_prefix(s: Seq<char>, p: Seq<char>) -> bool {
    p.len() <= s.len() && s.subrange(0, p.len() as int) == p
}

/// `s` with the prefix `p` removed, if it has it; otherwise `s` itself.
pub open spec fn strip_prefix_or_keep(s: Seq<char>, p: Seq<char>) -> Seq<char> {
    if has_prefix(s, p) {
        s.subrange(p.len() as int, s.len() as int)
    } else {
        s
    }
}

/// The value of a hexadecimal digit (either case), or -1 for any other char.
pub open spec fn hex_digit_value(c: char) -> int {
    let u = c as u32;
    if 0x30 <= u && u <= 0x39 {
        u - 0x30
    } else if 0x61 <= u && u <= 0x66 {
        u - 0x61 + 10
    } else if 0x41 <= u && u <= 0x46 {
        u - 0x41 + 10
    } else {
        -1
    }
}

pub open spec fn is_hex_digit(c: char) -> bool {
    hex_digit_value(c) >= 0
}

pub open spec fn all_hex_digits(s: Seq<char>) -> bool {
    forall|i: int| 0 <= i < s.len() ==> is_hex_digit(#[trigger] s[i])
}

/// The number that a string of hexadecimal digits denotes.
pub open spec fn hex_number(s: Seq<char>) -> nat
    decreases s.len(),
{
    if s.len() == 0 {
        0
    } else {
        (16 * hex_number(s.drop_last()) + hex_digit_value(s.last())) as nat
    }
}

/// What `u8::from_str_radix(s, 16)` returns: an optional `+`, then at least
/// one hexadecimal digit, denoting a number that fits in a byte.
pub open spec fn parse_hex_byte(s: Seq<char>) -> Option<u8> {
    let digits = if s.len() > 0 && s[0] == '+' {
        s.drop_first()
    } else {
        s
    };
    if digits.len() > 0 && all_hex_digits(digits) && hex_number(digits) <= 255 {
        Some(hex_number(digits) as u8)
    } else {
        None
    }
}

/// The lowercase hexadecimal digit for `d < 16`.
pub open spec fn hex_char(d: int) -> char {
    if d < 10 {
        (0x30 + d) as char
    } else {
        (0x61 + d - 10) as char
    }
}

/// A byte as two lowercase hexadecimal digits (the `{:02x}` format).
pub open spec fn hex_byte_text(b: u8) -> Seq<char> {
    seq![hex_char(b as int / 16), hex_char(b as int % 16)]
}

/// The decimal digit for `d < 10`.
pub open spec fn decimal_char(d: int) -> char {
    (0x30 + d) as char
}

/// The decimal digits of `n`, without leading zeros.
pub open spec fn decimal_digits(n: nat) -> Seq<char>
    decreases n,
{
    if n < 10 {
        seq![decimal_char(n as int)]
    } else {
        decimal_digits(n / 10).push(decimal_char((n % 10) as int))
    }
}

/// The decimal text of an integer (what `Display` prints for `i64`).
pub open spec fn int_text(n: int) -> Seq<char> {
    if n < 0 {
        seq!['-'] + decimal_digits((-n) as nat)
    } else {
        decimal_digits(n as nat)
    }
}

// ---------------------------------------------------------------------------
// Lemmas
// ---------------------------------------------------------------------------

pub proof fn lemma_split_nonempty(s: Seq<char>, sep: char)
    ensures
        split_on(s, sep).len() >= 1,
    decreases s.len(),
{
    if s.len() > 0 {
        lemma_split_nonempty(s.drop_last(), sep);
    }
}

/// A string with no separator in it splits into itself alone.
pub proof fn lemma_split_no_sep(p: Seq<char>, sep: char)
    requires
        !p.contains(sep),
    ensures
        split_on(p, sep) == seq![p],
    decreases p.len(),
{
    if p.len() > 0 {
        let q = p.drop_last();
        assert(!q.contains(sep)) by {
            if q.contains(sep) {
                let k = choose|k: int| 0 <= k < q.len() && q[k] == sep;
                assert(p[k] == sep);
            }
        }
        lemma_split_no_sep(q, sep);
        assert(p[p.len() - 1] != sep);
        assert(q.push(p.last()) =~= p);
        assert(split_on(p, sep) =~= seq![p]);
    } else {
        assert(p =~= Seq::<char>::empty());
    }
}

/// Appending a separator and then a separator-free piece adds that piece.
pub proof fn lemma_split_append(x: Seq<char>, sep: char, p: Seq<char>)
    requires
        !p.contains(sep),
    ensures
        split_on(x.push(sep) + p, sep) == split_on(x, sep).push(p),
    decreases p.len(),
{
    let s = x.push(sep) + p;
    if p.len() == 0 {
        assert(s =~= x.push(sep));
        assert(s.drop_last() =~= x);
        assert(p =~= Seq::<char>::empty());
    } else {
        let q = p.drop_last();
        assert(!q.contains(sep)) by {
            if q.contains(sep) {
                let k = choose|k: int| 0 <= k < q.len() && q[k] == sep;
                assert(p[k] == sep);
            }
        }
        lemma_split_append(x, sep, q);
        assert(s.drop_last() =~= x.push(sep) + q);
        assert(s.last() == p.last());
        assert(p[p.len() - 1] != sep);
        lemma_split_nonempty(x, sep);
        let prev = split_on(x, sep).push(q);
        assert(q.push(p.last()) =~= p);
        assert(prev.update(prev.len() - 1, prev.last().push(s.last())) =~= split_on(x, sep).push(
            p,
        ));
    }
}

/// Splitting text joined at a separator gives the pieces of both sides.
pub proof fn lemma_split_concat(x: Seq<char>, sep: char, y: Seq<char>)
    ensures
        split_on(x.push(sep) + y, sep) == split_on(x, sep) + split_on(y, sep),
    decreases y.len(),
{
    let s = x.push(sep) + y;
    if y.len() == 0 {
        assert(s =~= x.push(sep));
        assert(s.drop_last() =~= x);
        assert(split_on(y, sep) =~= seq![Seq::<char>::empty()]);
        assert(split_on(s, sep) =~= split_on(x, sep) + split_on(y, sep));
    } else {
        let q = y.drop_last();
        lemma_split_concat(x, sep, q);
        assert(s.drop_last() =~= x.push(sep) + q);
        assert(s.last() == y.last());
        lemma_split_nonempty(q, sep);
        let left = split_on(x, sep);
        let right = split_on(q, sep);
        if y.last() == sep {
            assert(split_on(s, sep) =~= left + right.push(Seq::<char>::empty()));
        } else {
            let whole = left + right;
            assert(whole.update(whole.len() - 1, whole.last().push(s.last())) =~= left
                + right.update(right.len() - 1, right.last().push(y.last())));
        }
        assert(split_on(s, sep) =~= split_on(x, sep) + split_on(y, sep));
    }
}

/// The number denoted by a digit string is at least that of each prefix.
pub proof fn lemma_hex_number_monotone(s: Seq<char>, k: int)
    requires
        0 <= k <= s.len(),
        all_hex_digits(s),
    ensures
        hex_number(s.subrange(0, k)) <= hex_number(s),
    decreases s.len(),
{
    if k < s.len() {
        let t = s.drop_last();
        assert(all_hex_digits(t)) by {
            assert forall|i: int| 0 <= i < t.len() implies is_hex_digit(#[trigger] t[i]) by {
                assert(t[i] == s[i]);
            }
        }
        lemma_hex_number_monotone(t, k);
        assert(t.subrange(0, k) =~= s.subrange(0, k));
        assert(is_hex_digit(s[s.len() - 1]));
    } else {
        assert(s.subrange(0, k) =~= s);
    }
}

/// Two lowercase hex digits parse back to the byte they were made from.
pub proof fn lemma_hex_byte_round_trip(b: u8)
    ensures
        parse_hex_byte(hex_byte_text(b)) == Some(b),
{
    let t = hex_byte_text(b);
    let hi = b as int / 16;
    let lo = b as int % 16;
    assert(0 <= hi < 16 && 0 <= lo < 16);
    assert(hex_digit_value(hex_char(hi)) == hi);
    assert(hex_digit_value(hex_char(lo)) == lo);
    assert(t[0] != '+');
    let one = seq![hex_char(hi)];
    assert(t.drop_last() =~= one);
    assert(one.drop_last() =~= Seq::<char>::empty());
    assert(one.last() == hex_char(hi));
    assert(hex_number(one.drop_last()) == 0);
    assert(hex_number(one) == hi);
    assert(t.last() == hex_char(lo));
    assert(hex_number(t) == 16 * hi + lo);
    assert(all_hex_digits(t));
}

// ---------------------------------------------------------------------------
// Executable helpers
// ---------------------------------------------------------------------------

/// The characters of `s`, in order.
pub fn chars_of(s: &str) -> (v: Vec<char>)
    ensures
        v@ == s@,
{
    let mut v: Vec<char> = Vec::new();
    for c in it: s.chars()
        invariant
            v@ == it.seq().take(it.index() as int),
            it.seq() == s@,
    {
        v.push(c);
    }
    v
}

/// Appends the characters of `s` to `buf`.
pub fn push_str(buf: &mut Vec<char>, s: &str)
    ensures
        final(buf)@ == old(buf)@ + s@,
{
    let ghost start = buf@;
    for c in it: s.chars()
        invariant
            buf@ == start + it.seq().take(it.index() as int),
            it.seq() == s@,
    {
        buf.push(c);
        assert(start + it.seq().take(it.index() + 1) =~= (start + it.seq().take(
            it.index() as int,
        )).push(c));
    }
    assert(s@.take(s@.len() as int) =~= s@);
}

/// A `String` holding exactly the given characters: std's `FromIterator<char>`
/// for `String` (`collect`), which appends the characters in order.
#[verifier::external_body]
pub fn string_of(chars: &Vec<char>) -> (s: String)
    ensures
        s@ == chars@,
{
    chars.iter().collect::<String>()
}

/// Whether `c` is whitespace in the sense of `char::is_whitespace`.
pub fn is_whitespace(c: char) -> (r: bool)
    ensures
        r == is_white_space(c),
{
    let u = c as u32;
    (0x09 <= u && u <= 0x0d) || u == 0x20 || u == 0x85 || u == 0xa0 || u == 0x1680 || (0x2000
        <= u && u <= 0x200a) || u == 0x2028 || u == 0x2029 || u == 0x202f || u == 0x205f || u
        == 0x3000
}

/// The characters of `s` without leading and trailing whitespace.
pub fn trimmed(s: &Vec<char>) -> (r: Vec<char>)
    ensures
        r@ == trim(s@),
{
    let n = s.len();
    let mut lo: usize = 0;
    assert(s@.subrange(0, n as int) =~= s@);
    while lo < n && is_whitespace(s[lo])
        invariant
            lo <= n,
            n == s@.len(),
            trim_start(s@) == trim_start(s@.subrange(lo as int, n as int)),
        decreases n - lo,
    {
        assert(s@.subrange(lo as int, n as int).drop_first() =~= s@.subrange(lo + 1, n as int));
        lo = lo + 1;
    }
    assert(trim_start(s@) == s@.subrange(lo as int, n as int));
    let mut hi: usize = n;
    while hi > lo && is_whitespace(s[hi - 1])
        invariant
            lo <= hi <= n,
            n == s@.len(),
            trim(s@) == trim_end(s@.subrange(lo as int, hi as int)),
        decreases hi - lo,
    {
        assert(s@.subrange(lo as int, hi as int).drop_last() =~= s@.subrange(
            lo as int,
            hi - 1,
        ));
        hi = hi - 1;
    }
    let mut r: Vec<char> = Vec::new();
    let mut i = lo;
    while i < hi
        invariant
            lo <= i <= hi <= n,
            n == s@.len(),
            r@ == s@.subrange(lo as int, i as int),
        decreases hi - i,
    {
        r.push(s[i]);
        assert(s@.subrange(lo as int, i + 1) =~= s@.subrange(lo as int, i as int).push(
            s@[i as int],
        ));
        i = i + 1;
    }
    r
}

/// The pieces of `s` between occurrences of `sep`.
pub fn split_chars(s: &Vec<char>, sep: char) -> (r: Vec<Vec<char>>)
    ensures
        r@.map_values(|v: Vec<char>| v@) == split_on(s@, sep),
{
    let mut pieces: Vec<Vec<char>> = Vec::new();
    let mut cur: Vec<char> = Vec::new();
    let ghost mut views: Seq<Seq<char>> = Seq::empty();
    let mut i: usize = 0;
    while i < s.len()
        invariant
            i <= s@.len(),
            pieces@.len() == views.len(),
            forall|j: int| 0 <= j < views.len() ==> #[trigger] pieces@[j]@ == views[j],
            views.push(cur@) == split_on(s@.subrange(0, i as int), sep),
        decreases s.len() - i,
    {
        let c = s[i];
        let ghost before = s@.subrange(0, i as int);
        let ghost after = s@.subrange(0, i + 1);
        assert(after.drop_last() =~= before);
        assert(after.last() == c);
        if c == sep {
            proof {
                views = views.push(cur@);
            }
            pieces.push(cur);
            cur = Vec::new();
            assert(views.push(cur@) =~= split_on(after, sep));
        } else {
            let ghost prev = views.push(cur@);
            cur.push(c);
            assert(views.push(cur@) =~= prev.update(prev.len() - 1, prev.last().push(c)));
        }
        i = i + 1;
    }
    assert(s@.subrange(0, s@.len() as int) =~= s@);
    proof {
        views = views.push(cur@);
    }
    pieces.push(cur);
    assert(pieces@.map_values(|v: Vec<char>| v@) =~= views);
    pieces
}

/// Whether the characters of `s` start with those of `p`.
pub fn starts_with(s: &Vec<char>, p: &Vec<char>) -> (r: bool)
    ensures
        r == has_prefix(s@, p@),
{
    if p.len() > s.len() {
        return false;
    }
    let mut i: usize = 0;
    while i < p.len()
        invariant
            i <= p@.len() <= s@.len(),
            forall|j: int| 0 <= j < i ==> s@[j] == p@[j],
        decreases p.len() - i,
    {
        if s[i] != p[i] {
            assert(s@.subrange(0, p@.len() as int)[i as int] != p@[i as int]);
            return false;
        }
        i = i + 1;
    }
    assert(s@.subrange(0, p@.len() as int) =~= p@);
    true
}

/// The characters of `s` from index `from` on.
pub fn suffix_from(s: &Vec<char>, from: usize) -> (r: Vec<char>)
    requires
        from <= s@.len(),
    ensures
        r@ == s@.subrange(from as int, s@.len() as int),
{
    let mut r: Vec<char> = Vec::new();
    let mut i = from;
    while i < s.len()
        invariant
            from <= i <= s@.len(),
            r@ == s@.subrange(from as int, i as int),
        decreases s.len() - i,
    {
        r.push(s[i]);
        assert(s@.subrange(from as int, i + 1) =~= s@.subrange(from as int, i as int).push(
            s@[i as int],
        ));
        i = i + 1;
    }
    r
}

/// The value of a hexadecimal digit, if `c` is one.
pub fn hex_digit(c: char) -> (r: Option<u8>)
    ensures
        match r {
            Some(d) => is_hex_digit(c) && d == hex_digit_value(c),
            None => !is_hex_digit(c),
        },
{
    let u = c as u32;
    if 0x30 <= u && u <= 0x39 {
        Some((u - 0x30) as u8)
    } else if 0x61 <= u && u <= 0x66 {
        Some((u - 0x61 + 10) as u8)
    } else if 0x41 <= u && u <= 0x46 {
        Some((u - 0x41 + 10) as u8)
    } else {
        None
    }
}

/// Parses a byte written in hexadecimal, as `u8::from_str_radix(s, 16)` does.
pub fn parse_hex_u8(s: &Vec<char>) -> (r: Option<u8>)
    ensures
        r == parse_hex_byte(s@),
{
    let start: usize = if s.len() > 0 && s[0] == '+' {
        1
    } else {
        0
    };
    let ghost digits = s@.subrange(start as int, s@.len() as int);
    assert(digits =~= (if s@.len() > 0 && s@[0] == '+' {
        s@.drop_first()
    } else {
        s@
    }));
    if start == s.len() {
        return None;
    }
    let mut acc: u32 = 0;
    let mut i = start;
    while i < s.len()
        invariant
            start <= i <= s@.len(),
            start < s@.len(),
            digits == s@.subrange(start as int, s@.len() as int),
            digits == (if s@.len() > 0 && s@[0] == '+' {
                s@.drop_first()
            } else {
                s@
            }),
            all_hex_digits(s@.subrange(start as int, i as int)),
            acc == hex_number(s@.subrange(start as int, i as int)),
            acc <= 255,
        decreases s.len() - i,
    {
        let ghost pre = s@.subrange(start as int, i as int);
        let ghost next = s@.subrange(start as int, i + 1);
        assert(next.drop_last() =~= pre);
        assert(next.last() == s@[i as int]);
        match hex_digit(s[i]) {
            None => {
                assert(!is_hex_digit(digits[i - start]));
                return None;
            },
            Some(d) => {
                acc = acc * 16 + d as u32;
                assert(all_hex_digits(next)) by {
                    assert forall|j: int| 0 <= j < next.len() implies is_hex_digit(
                        #[trigger] next[j],
                    ) by {
                        if j < pre.len() {
                            assert(next[j] == pre[j]);
                        }
                    }
                }
                if acc > 255 {
                    // Any further digits only make the number larger, or
                    // a later non-digit makes the whole string invalid.
                    proof {
                        if all_hex_digits(digits) {
                            assert(next =~= digits.subrange(0, (i + 1 - start) as int));
                            lemma_hex_number_monotone(digits, (i + 1 - start) as int);
                        }
                    }
                    return None;
                }
            },
        }
        i = i + 1;
    }
    assert(s@.subrange(start as int, i as int) =~= digits);
    Some(acc as u8)
}

/// Appends the two lowercase hexadecimal digits of `b`.
pub fn push_hex_byte(buf: &mut Vec<char>, b: u8)
    ensures
        final(buf)@ == old(buf)@ + hex_byte_text(b),
{
    let hi = b / 16;
    let lo = b % 16;
    let chi = if hi < 10 {
        (0x30 + hi) as char
    } else {
        (0x61 + hi - 10) as char
    };
    let clo = if lo < 10 {
        (0x30 + lo) as char
    } else {
        (0x61 + lo - 10) as char
    };
    buf.push(chi);
    buf.push(clo);
    assert(old(buf)@.push(chi).push(clo) =~= old(buf)@ + hex_byte_text(b));
}

/// Appends the decimal digits of `n`.
pub fn push_decimal(buf: &mut Vec<char>, n: u64)
    ensures
        final(buf)@ == old(buf)@ + decimal_digits(n as nat),
    decreases n,
{
    if n >= 10 {
        push_decimal(buf, n / 10);
    }
    let d = (n % 10) as u8;
    let c = (0x30 + d) as char;
    let ghost mid = buf@;
    buf.push(c);
    if n >= 10 {
        assert(buf@ =~= old(buf)@ + decimal_digits(n as nat));
    } else {
        assert(buf@ =~= old(buf)@ + decimal_digits(n as nat));
    }
}

/// Appends the decimal text of a signed integer, as `Display` writes it.
pub fn push_int(buf: &mut Vec<char>, n: i64)
    ensures
        final(buf)@ == old(buf)@ + int_text(n as int),
{
    if n < 0 {
        buf.push('-');
        let m: u64 = if n == i64::MIN {
            9223372036854775808u64
        } else {
            (-n) as u64
        };
        push_decimal(buf, m);
        assert(buf@ =~= old(buf)@ + int_text(n as int));
    } else {
        push_decimal(buf, n as u64);
    }
}

} // verus!
