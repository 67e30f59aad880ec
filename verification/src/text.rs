//! Text primitives shared by the rest of the library: decimal and hexadecimal
//! notation, Unicode whitespace trimming, line splitting, integer parsing,
//! substring tests and Unix path joining, each with the behaviour of the
//! corresponding `str` / `u64` operation stated over `Seq<char>`.
use vstd::prelude::*;

verus! {

// ---------------------------------------------------------------------------
// Conversions between `str`, `String` and `Vec<char>`
// ---------------------------------------------------------------------------

/// Appends `c` to `s` (`String::push`).
#[verifier::external_body]
pub(crate) fn push_char(s: &mut String, c: char)
    ensures
        final(s)@ == old(s)@.push(c),
{
    s.push(c);
}

/// The characters of `s`, in order.
pub fn chars_of(s: &str) -> (v: Vec<char>)
    ensures
        v@ == s@,
{
    let mut v: Vec<char> = Vec::new();
    for c in it: s.chars()
        invariant
            v@ == it.seq().take(it.index() as int),
            it.seq() == s@,
    {
        v.push(c);
    }
    v
}

/// Appends the characters `v[from..to]` to `out`.
pub fn push_chars(out: &mut String, v: &Vec<char>, from: usize, to: usize)
    requires
        from <= to <= v.len(),
    ensures
        final(out)@ == old(out)@ + v@.subrange(from as int, to as int),
{
    let mut i = from;
    while i < to
        invariant
            from <= i <= to <= v.len(),
            out@ == old(out)@ + v@.subrange(from as int, i as int),
        decreases to - i,
    {
        push_char(out, v[i]);
        assert(v@.subrange(from as int, i + 1) == v@.subrange(from as int, i as int).push(v@[i as int]));
        i += 1;
    }
}

/// A `String` holding the characters `v[from..to]`.
pub fn string_of(v: &Vec<char>, from: usize, to: usize) -> (s: String)
    requires
        from <= to <= v.len(),
    ensures
        s@ == v@.subrange(from as int, to as int),
{
    let mut s = String::new();
    push_chars(&mut s, v, from, to);
    s
}

/// Appends a string slice to `out`.
pub fn push_str(out: &mut String, s: &str)
    ensures
        final(out)@ == old(out)@ + s@,
{
    out.append(s);
}

// ---------------------------------------------------------------------------
// Decimal and hexadecimal notation
// ---------------------------------------------------------------------------

/// The ASCII digit for `d`, which must lie in `0..10`.
pub open spec fn digit_char(d: nat) -> char {
    (48 + d) as char
}

/// Decimal notation of `n` (`Display` for unsigned integers): most
/// significant digit first, no leading zeros.
pub open spec fn decimal(n: nat) -> Seq<char>
    decreases n,
{
    if n < 10 {
        seq![digit_char(n)]
    } else {
        decimal(n / 10).push(digit_char(n % 10))
    }
}

fn digit(d: u64) -> (c: char)
    requires
        d < 10,
    ensures
        c == digit_char(d as nat),
{
    let b: u8 = d as u8;
    (48u8 + b) as char
}

/// Appends the decimal notation of `n` to `out`.
pub fn push_decimal(out: &mut String, n: u64)
    ensures
        final(out)@ == old(out)@ + decimal(n as nat),
    decreases n,
{
    if n < 10 {
        push_char(out, digit(n));
        assert(decimal(n as nat) == seq![digit_char(n as nat)]);
    } else {
        push_decimal(out, n / 10);
        push_char(out, digit(n % 10));
    }
}

/// The decimal notation of `n` as a `String`.
pub fn decimal_string(n: u64) -> (s: String)
    ensures
        s@ == decimal(n as nat),
{
    let mut s = String::new();
    push_decimal(&mut s, n);
    s
}

/// Lower-case hexadecimal digit for `d`, which must lie in `0..16`.
pub open spec fn hex_digit(d: nat) -> char {
    if d < 10 {
        (48 + d) as char
    } else {
        (87 + d) as char
    }
}

/// Two lower-case hexadecimal digits per byte, in order (the `{:02x}`
/// notation of each byte).
pub open spec fn hex_lower(bytes: Seq<u8>) -> Seq<char>
    decreases bytes.len(),
{
    if bytes.len() == 0 {
        seq![]
    } else {
        let b = bytes.last();
        hex_lower(bytes.drop_last()) + seq![hex_digit((b / 16) as nat), hex_digit((b % 16) as nat)]
    }
}

fn hex_char(d: u8) -> (c: char)
    requires
        d < 16,
    ensures
        c == hex_digit(d as nat),
{
    if d < 10 {
        (48u8 + d) as char
    } else {
        (87u8 + d) as char
    }
}

/// Appends the lower-case hexadecimal notation of `bytes` to `out`.
pub fn push_hex(out: &mut String, bytes: &[u8])
    ensures
        final(out)@ == old(out)@ + hex_lower(bytes@),
{
    let ghost start = out@;
    let mut i: usize = 0;
    while i < bytes.len()
        invariant
            i <= bytes@.len(),
            out@ == start + hex_lower(bytes@.take(i as int)),
        decreases bytes.len() - i,
    {
        let b = bytes[i];
        push_char(out, hex_char(b / 16));
        push_char(out, hex_char(b % 16));
        assert(bytes@.take(i + 1).drop_last() == bytes@.take(i as int));
        i += 1;
    }
    assert(bytes@.take(bytes@.len() as int) == bytes@);
}

} // verus!

verus! {

// ---------------------------------------------------------------------------
// Prefixes, suffixes, substrings
// ---------------------------------------------------------------------------

/// `s` begins with `p`.
pub open spec fn has_prefix(s: Seq<char>, p: Seq<char>) -> bool {
    p.len() <= s.len() && s.subrange(0, p.len() as int) == p
}

/// `s` ends with `p`.
pub open spec fn has_suffix(s: Seq<char>, p: Seq<char>) -> bool {
    p.len() <= s.len() && s.subrange(s.len() - p.len(), s.len() as int) == p
}

/// `p` occurs in `s` starting at index `i`.
pub open spec fn occurs_at(s: Seq<char>, p: Seq<char>, i: int) -> bool {
    0 <= i && i + p.len() <= s.len() && s.subrange(i, i + p.len()) == p
}

/// `p` occurs somewhere in `s` (`str::contains` with a string pattern).
pub open spec fn has_infix(s: Seq<char>, p: Seq<char>) -> bool {
    exists|i: int| occurs_at(s, p, i)
}

/// Whether `p` occurs in `s` at `at`.
fn matches_at(s: &Vec<char>, p: &Vec<char>, at: usize) -> (b: bool)
    requires
        at <= s.len(),
    ensures
        b == occurs_at(s@, p@, at as int),
{
    if p.len() > s.len() - at {
        return false;
    }
    let mut j: usize = 0;
    while j < p.len()
        invariant
            at + p.len() <= s.len(),
            j <= p.len(),
            forall|k: int| 0 <= k < j ==> s@[at + k] == p@[k],
        decreases p.len() - j,
    {
        if s[at + j] != p[j] {
            assert(s@.subrange(at as int, at + p.len())[j as int] != p@[j as int]);
            return false;
        }
        j += 1;
    }
    assert(s@.subrange(at as int, at + p.len()) =~= p@);
    true
}

/// `s.starts_with(p)`.
pub fn str_starts_with(s: &str, p: &str) -> (b: bool)
    ensures
        b == has_prefix(s@, p@),
{
    let sv = chars_of(s);
    let pv = chars_of(p);
    matches_at(&sv, &pv, 0)
}

/// `s.ends_with(p)`.
pub fn str_ends_with(s: &str, p: &str) -> (b: bool)
    ensures
        b == has_suffix(s@, p@),
{
    let sv = chars_of(s);
    let pv = chars_of(p);
    if pv.len() > sv.len() {
        false
    } else {
        matches_at(&sv, &pv, sv.len() - pv.len())
    }
}

/// `s.contains(p)`.
pub fn str_contains(s: &str, p: &str) -> (b: bool)
    ensures
        b == has_infix(s@, p@),
{
    let sv = chars_of(s);
    let pv = chars_of(p);
    if pv.len() == 0 {
        assert(sv@.subrange(0, 0) =~= pv@);
        assert(occurs_at(s@, p@, 0));
        return true;
    }
    if pv.len() > sv.len() {
        return false;
    }
    let last = sv.len() - pv.len();
    let mut i: usize = 0;
    while i <= last
        invariant
            1 <= pv.len() <= sv.len(),
            sv@ == s@,
            pv@ == p@,
            last == sv.len() - pv.len(),
            i <= last + 1,
            forall|k: int| 0 <= k < i ==> !occurs_at(sv@, pv@, k),
        decreases last + 1 - i,
    {
        if matches_at(&sv, &pv, i) {
            assert(occurs_at(s@, p@, i as int));
            return true;
        }
        i += 1;
    }
    assert forall|k: int| !occurs_at(sv@, pv@, k) by {
        if 0 <= k && k + pv@.len() <= sv@.len() {
            assert(k < i);
        }
    }
    false
}

/// Equality of two string slices.
pub fn str_eq(a: &str, b: &str) -> (r: bool)
    ensures
        r == (a@ == b@),
{
    let av = chars_of(a);
    let bv = chars_of(b);
    if av.len() != bv.len() {
        return false;
    }
    let r = matches_at(&av, &bv, 0);
    assert(av@.subrange(0, bv@.len() as int) =~= av@);
    r
}

// ---------------------------------------------------------------------------
// Whitespace and trimming
// ---------------------------------------------------------------------------

/// The Unicode `White_Space` property (`char::is_whitespace`).
pub open spec fn is_white_space(c: char) -> bool {
    let u = c as u32;
    ||| 0x09 <= u <= 0x0D
    ||| u == 0x20
    ||| u == 0x85
    ||| u == 0xA0
    ||| u == 0x1680
    ||| 0x2000 <= u <= 0x200A
    ||| u == 0x2028
    ||| u == 0x2029
    ||| u == 0x202F
    ||| u == 0x205F
    ||| u == 0x3000
}

/// `char::is_whitespace`.
pub fn is_white_space_char(c: char) -> (b: bool)
    ensures
        b == is_white_space(c),
{
    let u = c as u32;
    (0x09 <= u && u <= 0x0D) || u == 0x20 || u == 0x85 || u == 0xA0 || u == 0x1680 || (0x2000
        <= u && u <= 0x200A) || u == 0x2028 || u == 0x2029 || u == 0x202F || u == 0x205F || u
        == 0x3000
}

/// `s` without its leading whitespace.
pub open spec fn trim_start(s: Seq<char>) -> Seq<char>
    decreases s.len(),
{
    if s.len() > 0 && is_white_space(s[0]) {
        trim_start(s.drop_first())
    } else {
        s
    }
}

/// `s` without its trailing whitespace.
pub open spec fn trim_end(s: Seq<char>) -> Seq<char>
    decreases s.len(),
{
    if s.len() > 0 && is_white_space(s.last()) {
        trim_end(s.drop_last())
    } else {
        s
    }
}

/// `str::trim`: `s` without leading and trailing whitespace.
pub open spec fn trim(s: Seq<char>) -> Seq<char> {
    trim_end(trim_start(s))
}

/// `s` without its trailing occurrences of `c` (`trim_end_matches(c)`).
pub open spec fn trim_end_char(s: Seq<char>, c: char) -> Seq<char>
    decreases s.len(),
{
    if s.len() > 0 && s.last() == c {
        trim_end_char(s.drop_last(), c)
    } else {
        s
    }
}

/// The bounds `(from, to)` such that `trim(v[lo..hi]) == v[from..to]`.
pub fn trim_bounds(v: &Vec<char>, lo: usize, hi: usize) -> (r: (usize, usize))
    requires
        lo <= hi <= v.len(),
    ensures
        lo <= r.0 <= r.1 <= hi,
        trim(v@.subrange(lo as int, hi as int)) == v@.subrange(r.0 as int, r.1 as int),
{
    let ghost s = v@.subrange(lo as int, hi as int);
    let mut i = lo;
    while i < hi && is_white_space_char(v[i])
        invariant
            lo <= i <= hi <= v.len(),
            trim_start(s) == trim_start(v@.subrange(i as int, hi as int)),
        decreases hi - i,
    {
        assert(v@.subrange(i as int, hi as int).drop_first() =~= v@.subrange(i + 1, hi as int));
        i += 1;
    }
    let ghost t = v@.subrange(i as int, hi as int);
    assert(trim_start(t) == t);
    let mut j = hi;
    while j > i && is_white_space_char(v[j - 1])
        invariant
            lo <= i <= j <= hi <= v.len(),
            trim_end(t) == trim_end(v@.subrange(i as int, j as int)),
        decreases j - i,
    {
        assert(v@.subrange(i as int, j as int).drop_last() =~= v@.subrange(i as int, j - 1));
        j -= 1;
    }
    (i, j)
}

/// `s.trim()` as a `String`.
pub fn trimmed(s: &str) -> (r: String)
    ensures
        r@ == trim(s@),
{
    let v = chars_of(s);
    let (a, b) = trim_bounds(&v, 0, v.len());
    assert(v@.subrange(0, v@.len() as int) =~= v@);
    string_of(&v, a, b)
}

/// The end `to` such that `trim_end_char(v[lo..hi], c) == v[lo..to]`.
pub fn trim_end_char_bound(v: &Vec<char>, lo: usize, hi: usize, c: char) -> (to: usize)
    requires
        lo <= hi <= v.len(),
    ensures
        lo <= to <= hi,
        trim_end_char(v@.subrange(lo as int, hi as int), c) == v@.subrange(lo as int, to as int),
{
    let ghost s = v@.subrange(lo as int, hi as int);
    let mut j = hi;
    while j > lo && v[j - 1] == c
        invariant
            lo <= j <= hi <= v.len(),
            trim_end_char(s, c) == trim_end_char(v@.subrange(lo as int, j as int), c),
        decreases j - lo,
    {
        assert(v@.subrange(lo as int, j as int).drop_last() =~= v@.subrange(lo as int, j - 1));
        j -= 1;
    }
    j
}

} // verus!

verus! {

// ---------------------------------------------------------------------------
// Searching, splitting, line breaking
// ---------------------------------------------------------------------------

/// Index of the first `c` in `s`, or `s.len()` when `c` does not occur.
pub open spec fn index_of(s: Seq<char>, c: char) -> int
    decreases s.len(),
{
    if s.len() == 0 {
        0
    } else if s[0] == c {
        0
    } else {
        1 + index_of(s.drop_first(), c)
    }
}

pub proof fn lemma_index_of(s: Seq<char>, c: char)
    ensures
        0 <= index_of(s, c) <= s.len(),
        index_of(s, c) < s.len() ==> s[index_of(s, c)] == c,
        forall|j: int| 0 <= j < index_of(s, c) ==> s[j] != c,
    decreases s.len(),
{
    if s.len() > 0 && s[0] != c {
        lemma_index_of(s.drop_first(), c);
        assert forall|j: int| 0 <= j < index_of(s, c) implies s[j] != c by {
            if j > 0 {
                assert(s[j] == s.drop_first()[j - 1]);
            }
        }
    }
}

/// `s` with one trailing `'\r'` removed, if present.
pub open spec fn strip_cr(l: Seq<char>) -> Seq<char> {
    if l.len() > 0 && l.last() == '\r' {
        l.drop_last()
    } else {
        l
    }
}

/// `str::lines`: pieces ended by `"\n"` or `"\r\n"`; the final line ending
/// is optional and an empty text has no lines.
pub open spec fn lines(s: Seq<char>) -> Seq<Seq<char>>
    decreases s.len(),
{
    if s.len() == 0 {
        seq![]
    } else {
        let k = index_of(s, '\n');
        if k >= s.len() {
            seq![s]
        } else {
            proof {
                lemma_index_of(s, '\n');
            }
            seq![strip_cr(s.take(k))] + lines(s.skip(k + 1))
        }
    }
}

/// `str::split` on a single character: always at least one piece.
pub open spec fn split_on(s: Seq<char>, c: char) -> Seq<Seq<char>>
    decreases s.len(),
{
    let k = index_of(s, c);
    if k >= s.len() {
        seq![s]
    } else {
        proof {
            lemma_index_of(s, c);
        }
        seq![s.take(k)] + split_on(s.skip(k + 1), c)
    }
}

/// The first line of `s`, or `default` when `s` has no lines
/// (`s.lines().next().unwrap_or(default)`).
pub open spec fn first_line_or(s: Seq<char>, default: Seq<char>) -> Seq<char> {
    if lines(s).len() > 0 {
        lines(s)[0]
    } else {
        default
    }
}

/// Position of the first `c` in `v[from..to]`, or `to`.
pub fn find_char(v: &Vec<char>, from: usize, to: usize, c: char) -> (r: usize)
    requires
        from <= to <= v.len(),
    ensures
        r == from + index_of(v@.subrange(from as int, to as int), c),
        from <= r <= to,
{
    let ghost s = v@.subrange(from as int, to as int);
    let mut i = from;
    while i < to && v[i] != c
        invariant
            from <= i <= to <= v.len(),
            index_of(s, c) == (i - from) + index_of(v@.subrange(i as int, to as int), c),
        decreases to - i,
    {
        assert(v@.subrange(i as int, to as int).drop_first() =~= v@.subrange(i + 1, to as int));
        i += 1;
    }
    i
}

/// Bounds in `v` of the lines of `v[from..to]`.
pub fn line_bounds(v: &Vec<char>, from: usize, to: usize) -> (r: Vec<(usize, usize)>)
    requires
        from <= to <= v.len(),
    ensures
        r.len() == lines(v@.subrange(from as int, to as int)).len(),
        forall|i: int|
            0 <= i < r.len() ==> {
                &&& from <= (#[trigger] r[i]).0 <= r[i].1 <= to
                &&& lines(v@.subrange(from as int, to as int))[i] == v@.subrange(
                    r[i].0 as int,
                    r[i].1 as int,
                )
            },
{
    let ghost whole = lines(v@.subrange(from as int, to as int));
    let mut r: Vec<(usize, usize)> = Vec::new();
    let mut pos = from;
    let ghost mut done: Seq<Seq<char>> = seq![];
    while pos < to
        invariant
            from <= pos <= to <= v.len(),
            whole == done + lines(v@.subrange(pos as int, to as int)),
            r.len() == done.len(),
            forall|i: int|
                0 <= i < r.len() ==> {
                    &&& from <= (#[trigger] r[i]).0 <= r[i].1 <= to
                    &&& done[i] == v@.subrange(r[i].0 as int, r[i].1 as int)
                },
        decreases to - pos,
    {
        let ghost rest = v@.subrange(pos as int, to as int);
        let k = find_char(v, pos, to, '\n');
        proof {
            lemma_index_of(rest, '\n');
        }
        if k == to {
            r.push((pos, to));
            proof {
                done = done.push(rest);
                assert(lines(rest) == seq![rest]);
                assert(lines(v@.subrange(to as int, to as int)) =~= Seq::<Seq<char>>::empty());
            }
            pos = to;
        } else {
            let mut end = k;
            if k > pos && v[k - 1] == '\r' {
                end = k - 1;
            }
            r.push((pos, end));
            proof {
                let line = rest.take(k - pos);
                assert(line =~= v@.subrange(pos as int, k as int));
                assert(strip_cr(line) =~= v@.subrange(pos as int, end as int));
                assert(rest.skip(k - pos + 1) =~= v@.subrange(k + 1, to as int));
                assert(lines(rest) == seq![strip_cr(line)] + lines(rest.skip(k - pos + 1)));
                done = done.push(strip_cr(line));
            }
            pos = k + 1;
        }
    }
    proof {
        assert(lines(v@.subrange(pos as int, to as int)) =~= Seq::<Seq<char>>::empty());
        assert(whole =~= done);
    }
    r
}

/// Bounds in `v` of the pieces of `v[from..to]` split on `c`.
pub fn split_bounds(v: &Vec<char>, from: usize, to: usize, c: char) -> (r: Vec<(usize, usize)>)
    requires
        from <= to <= v.len(),
    ensures
        r.len() == split_on(v@.subrange(from as int, to as int), c).len(),
        forall|i: int|
            0 <= i < r.len() ==> {
                &&& from <= (#[trigger] r[i]).0 <= r[i].1 <= to
                &&& split_on(v@.subrange(from as int, to as int), c)[i] == v@.subrange(
                    r[i].0 as int,
                    r[i].1 as int,
                )
            },
{
    let ghost whole = split_on(v@.subrange(from as int, to as int), c);
    let mut r: Vec<(usize, usize)> = Vec::new();
    let mut pos = from;
    let ghost mut done: Seq<Seq<char>> = seq![];
    loop
        invariant_except_break
            from <= pos <= to <= v.len(),
            whole == done + split_on(v@.subrange(pos as int, to as int), c),
            r.len() == done.len(),
            forall|i: int|
                0 <= i < r.len() ==> {
                    &&& from <= (#[trigger] r[i]).0 <= r[i].1 <= to
                    &&& done[i] == v@.subrange(r[i].0 as int, r[i].1 as int)
                },
        ensures
            whole == done,
            r.len() == done.len(),
            forall|i: int|
                0 <= i < r.len() ==> {
                    &&& from <= (#[trigger] r[i]).0 <= r[i].1 <= to
                    &&& done[i] == v@.subrange(r[i].0 as int, r[i].1 as int)
                },
        decreases to - pos,
    {
        let ghost rest = v@.subrange(pos as int, to as int);
        let k = find_char(v, pos, to, c);
        proof {
            lemma_index_of(rest, c);
        }
        if k == to {
            r.push((pos, to));
            proof {
                assert(split_on(rest, c) == seq![rest]);
                done = done.push(rest);
                assert(whole =~= done);
            }
            break;
        } else {
            r.push((pos, k));
            proof {
                let piece = rest.take(k - pos);
                assert(piece =~= v@.subrange(pos as int, k as int));
                assert(rest.skip(k - pos + 1) =~= v@.subrange(k + 1, to as int));
                assert(split_on(rest, c) == seq![piece] + split_on(rest.skip(k - pos + 1), c));
                done = done.push(piece);
            }
            pos = k + 1;
        }
    }
    r
}

} // verus!

verus! {

// ---------------------------------------------------------------------------
// Unsigned integer parsing (`u64::from_str`, `u32::from_str`)
// ---------------------------------------------------------------------------

/// Why a text is not an unsigned integer of the requested width.
#[derive(Clone, Copy, Debug, PartialEq, Eq, Structural)]
pub enum IntErrorKind {
    /// The text is empty.
    Empty,
    /// A character that is not an ASCII digit (after an optional `+`).
    InvalidDigit,
    /// The value exceeds the maximum of the target type.
    PosOverflow,
}

pub open spec fn is_ascii_digit(c: char) -> bool {
    48 <= (c as u32) <= 57
}

pub open spec fn digit_value(c: char) -> nat {
    ((c as u32) - 48) as nat
}

/// Left-to-right scan of a digit sequence: the first character that is not a
/// digit, or the first prefix whose value exceeds `max`, decides the error.
pub open spec fn scan_digits(s: Seq<char>, max: nat) -> Result<nat, IntErrorKind>
    decreases s.len(),
{
    if s.len() == 0 {
        Ok(0)
    } else {
        match scan_digits(s.drop_last(), max) {
            Err(e) => Err(e),
            Ok(v) => if !is_ascii_digit(s.last()) {
                Err(IntErrorKind::InvalidDigit)
            } else if v * 10 + digit_value(s.last()) > max {
                Err(IntErrorKind::PosOverflow)
            } else {
                Ok(v * 10 + digit_value(s.last()))
            },
        }
    }
}

/// Parsing of an unsigned integer no larger than `max`, as `from_str` of
/// the unsigned integer types does it: an optional leading `+`, then at
/// least one ASCII digit.
pub open spec fn parse_unsigned(s: Seq<char>, max: nat) -> Result<nat, IntErrorKind> {
    if s.len() == 0 {
        Err(IntErrorKind::Empty)
    } else if s.len() == 1 && (s[0] == '+' || s[0] == '-') {
        Err(IntErrorKind::InvalidDigit)
    } else if s[0] == '+' {
        scan_digits(s.drop_first(), max)
    } else {
        scan_digits(s, max)
    }
}

/// Parses `v[from..to]` as an unsigned integer no larger than `max`.
pub fn parse_unsigned_at(v: &Vec<char>, from: usize, to: usize, max: u64) -> (r: Result<
    u64,
    IntErrorKind,
>)
    requires
        from <= to <= v.len(),
    ensures
        match parse_unsigned(v@.subrange(from as int, to as int), max as nat) {
            Ok(n) => r == Ok::<u64, IntErrorKind>(n as u64) && n <= max,
            Err(e) => r == Err::<u64, IntErrorKind>(e),
        },
{
    let ghost s = v@.subrange(from as int, to as int);
    if from == to {
        return Err(IntErrorKind::Empty);
    }
    if to - from == 1 && (v[from] == '+' || v[from] == '-') {
        return Err(IntErrorKind::InvalidDigit);
    }
    let mut start = from;
    assert(s[0] == v@[from as int]);
    if v[from] == '+' {
        start = from + 1;
        assert(s.drop_first() =~= v@.subrange(start as int, to as int));
    } else {
        assert(s =~= v@.subrange(start as int, to as int));
    }
    assert(parse_unsigned(s, max as nat) == scan_digits(v@.subrange(start as int, to as int), max as nat));
    let mut acc: u64 = 0;
    let mut i = start;
    assert(v@.subrange(start as int, start as int) =~= Seq::<char>::empty());
    while i < to
        invariant
            start <= i <= to <= v.len(),
            s == v@.subrange(from as int, to as int),
            parse_unsigned(s, max as nat) == scan_digits(v@.subrange(start as int, to as int), max as nat),
            scan_digits(v@.subrange(start as int, i as int), max as nat) == Ok::<nat, IntErrorKind>(
                acc as nat,
            ),
            acc <= max,
        decreases to - i,
    {
        let c = v[i];
        assert(v@.subrange(start as int, i + 1).drop_last() =~= v@.subrange(start as int, i as int));
        assert(v@.subrange(start as int, i + 1).drop_last() =~= v@.subrange(start as int, i as int));
        let cu: u32 = c as u32;
        if !(cu >= 48 && cu <= 57) {
            // every longer prefix keeps the error
            proof {
                let whole = v@.subrange(start as int, to as int);
                assert(whole.take(i - start + 1) =~= v@.subrange(start as int, i + 1));
                assert(v@.subrange(start as int, i + 1).last() == c);
                assert(scan_digits(v@.subrange(start as int, i + 1), max as nat) == Err::<nat, IntErrorKind>(IntErrorKind::InvalidDigit));
                lemma_scan_error_persists(whole, (i - start) + 1, max as nat);
                assert(whole.take((to - start) as int) =~= whole);
            }
            return Err(IntErrorKind::InvalidDigit);
        }
        let d: u64 = (cu - 48) as u64;
        if (acc as u128) * 10 + (d as u128) > (max as u128) {
            proof {
                let whole = v@.subrange(start as int, to as int);
                assert(whole.take(i - start + 1) =~= v@.subrange(start as int, i + 1));
                assert(v@.subrange(start as int, i + 1).last() == c);
                assert(scan_digits(v@.subrange(start as int, i + 1), max as nat) == Err::<nat, IntErrorKind>(IntErrorKind::PosOverflow));
                lemma_scan_error_persists(whole, (i - start) + 1, max as nat);
                assert(whole.take((to - start) as int) =~= whole);
            }
            return Err(IntErrorKind::PosOverflow);
        }
        acc = acc * 10 + d;
        i += 1;
    }
    assert(v@.subrange(start as int, i as int) =~= v@.subrange(start as int, to as int));
    Ok(acc)
}

/// Once a prefix of `s` fails to scan, so does every longer prefix, with
/// the same error.
pub proof fn lemma_scan_error_persists(s: Seq<char>, k: int, max: nat)
    requires
        0 <= k <= s.len(),
        scan_digits(s.take(k), max) is Err,
    ensures
        scan_digits(s, max) == scan_digits(s.take(k), max),
    decreases s.len() - k,
{
    if k < s.len() {
        assert(s.take(k + 1).drop_last() =~= s.take(k));
        lemma_scan_error_persists(s, k + 1, max);
    } else {
        assert(s.take(k) =~= s);
    }
}

/// The `Display` text of the corresponding `ParseIntError`.
pub open spec fn int_error_text(kind: IntErrorKind) -> Seq<char> {
    match kind {
        IntErrorKind::Empty => "cannot parse integer from empty string"@,
        IntErrorKind::InvalidDigit => "invalid digit found in string"@,
        IntErrorKind::PosOverflow => "number too large to fit in target type"@,
    }
}

/// The `Display` text of a `ParseIntError` of the given kind.
pub fn int_error_message(kind: IntErrorKind) -> (r: &'static str)
    ensures
        r@ == int_error_text(kind),
{
    match kind {
        IntErrorKind::Empty => "cannot parse integer from empty string",
        IntErrorKind::InvalidDigit => "invalid digit found in string",
        IntErrorKind::PosOverflow => "number too large to fit in target type",
    }
}

// ---------------------------------------------------------------------------
// Replacing and joining
// ---------------------------------------------------------------------------

/// `str::replace`: every non-overlapping occurrence of `pat`, scanning left to
/// right, is replaced by `rep`.
pub open spec fn replace_all(s: Seq<char>, pat: Seq<char>, rep: Seq<char>) -> Seq<char>
    recommends
        pat.len() > 0,
    decreases s.len(),
{
    if pat.len() == 0 || s.len() < pat.len() {
        s
    } else if s.take(pat.len() as int) == pat {
        rep + replace_all(s.skip(pat.len() as int), pat, rep)
    } else {
        seq![s[0]] + replace_all(s.drop_first(), pat, rep)
    }
}

/// `s.replace(pat, rep)` for a non-empty pattern.
pub fn replace_str(s: &str, pat: &str, rep: &str) -> (r: String)
    requires
        pat@.len() > 0,
    ensures
        r@ == replace_all(s@, pat@, rep@),
{
    let sv = chars_of(s);
    let pv = chars_of(pat);
    let mut out = String::new();
    let mut i: usize = 0;
    assert(sv@.skip(0) =~= sv@);
    while i < sv.len()
        invariant
            i <= sv.len(),
            sv@ == s@,
            pv@ == pat@,
            pv@.len() > 0,
            replace_all(s@, pat@, rep@) == out@ + replace_all(sv@.skip(i as int), pat@, rep@),
        decreases sv.len() - i,
    {
        let ghost rest = sv@.skip(i as int);
        if matches_at(&sv, &pv, i) {
            assert(rest.take(pv@.len() as int) =~= sv@.subrange(i as int, i + pv@.len()));
            assert(rest.skip(pv@.len() as int) =~= sv@.skip(i + pv@.len()));
            push_str(&mut out, rep);
            i = i + pv.len();
        } else {
            assert(rest.len() >= pv@.len() ==> rest.take(pv@.len() as int) =~= sv@.subrange(
                i as int,
                i + pv@.len(),
            ));
            if sv.len() - i < pv.len() {
                // nothing left to replace
                push_chars(&mut out, &sv, i, sv.len());
                assert(sv@.subrange(i as int, sv@.len() as int) =~= rest);
                assert(sv@.skip(sv@.len() as int) =~= Seq::<char>::empty());
                i = sv.len();
            } else {
                push_char(&mut out, sv[i]);
                assert(rest.drop_first() =~= sv@.skip(i + 1));
                i = i + 1;
            }
        }
    }
    assert(sv@.skip(i as int) =~= Seq::<char>::empty());
    out
}

/// `PathBuf::from(base).join(rhs)` on Unix, as text: an absolute `rhs`
/// replaces `base`; otherwise a `/` separates the two unless `base` is empty
/// or already ends with one.
pub open spec fn join_path(base: Seq<char>, rhs: Seq<char>) -> Seq<char> {
    if rhs.len() > 0 && rhs[0] == '/' {
        rhs
    } else if base.len() == 0 || base.last() == '/' {
        base + rhs
    } else {
        base + seq!['/'] + rhs
    }
}

/// `PathBuf::from(base).join(rhs)` as a `String`.
pub fn join_path_str(base: &str, rhs: &str) -> (r: String)
    ensures
        r@ == join_path(base@, rhs@),
{
    let bv = chars_of(base);
    let rv = chars_of(rhs);
    if rv.len() > 0 && rv[0] == '/' {
        return rhs.to_owned();
    }
    let mut out = base.to_owned();
    if bv.len() > 0 && bv[bv.len() - 1] != '/' {
        push_char(&mut out, '/');
    }
    push_str(&mut out, rhs);
    out
}

} // verus!
