//! Character-level text helpers shared by the parsers and formatters of the
//! library: whitespace trimming, line splitting, decimal conversion, searching.
use vstd::prelude::*;
use vstd::std_specs::iter::IteratorSpec;

verus! {

broadcast use vstd::string::group_string_axioms;

// ── Trusted std helpers ──────────────────────────────────────────────────────

/// What `str::to_lowercase` returns for a string (full Unicode case mapping).
pub uninterp spec fn lowercase(s: Seq<char>) -> Seq<char>;

/// What `str::to_uppercase` returns for a string (full Unicode case mapping).
pub uninterp spec fn uppercase(s: Seq<char>) -> Seq<char>;

/// What `char::is_uppercase` answers for a character (Unicode `Uppercase` property).
pub uninterp spec fn char_is_uppercase(c: char) -> bool;

/// `String::push`: appends the character at the end.
#[verifier::external_body]
pub(crate) fn push_char(s: &mut String, c: char)
    ensures
        final(s)@ == old(s)@.push(c),
{
    s.push(c);
}

/// `String::pop`: removes and returns the last character; `None` on an empty string.
#[verifier::external_body]
pub(crate) fn pop_char(s: &mut String) -> (r: Option<char>)
    ensures
        old(s)@.len() == 0 ==> r.is_none() && final(s)@ == old(s)@,
        old(s)@.len() > 0 ==> r == Some(old(s)@.last()) && final(s)@ == old(s)@.drop_last(),
{
    s.pop()
}

/// `str::to_lowercase`: the result is the named Unicode lowercase mapping of the argument.
#[verifier::external_body]
pub(crate) fn to_lowercase(s: &str) -> (r: String)
    ensures
        r@ == lowercase(s@),
{
    s.to_lowercase()
}

/// `str::to_uppercase`: the result is the named Unicode uppercase mapping of the argument.
#[verifier::external_body]
pub(crate) fn to_uppercase(s: &str) -> (r: String)
    ensures
        r@ == uppercase(s@),
{
    s.to_uppercase()
}

/// `char::is_uppercase`: the answer is the named Unicode `Uppercase` property.
#[verifier::external_body]
pub(crate) fn is_uppercase(c: char) -> (b: bool)
    ensures
        b == char_is_uppercase(c),
{
    c.is_uppercase()
}

/// ASCII upper-casing of one character, as `char::to_ascii_uppercase` defines it.
pub open spec fn ascii_upper(c: char) -> char {
    if 'a' <= c && c <= 'z' {
        ((c as u32) - 32) as char
    } else {
        c
    }
}

/// ASCII lower-casing of one character, as `char::to_ascii_lowercase` defines it.
pub open spec fn ascii_lower(c: char) -> char {
    if 'A' <= c && c <= 'Z' {
        ((c as u32) + 32) as char
    } else {
        c
    }
}

/// `char::to_ascii_uppercase`: maps `a..=z` to `A..=Z`, every other character to itself.
#[verifier::external_body]
pub(crate) fn to_ascii_upper(c: char) -> (r: char)
    ensures
        r == ascii_upper(c),
{
    c.to_ascii_uppercase()
}

/// `char::to_ascii_lowercase`: maps `A..=Z` to `a..=z`, every other character to itself.
#[verifier::external_body]
pub(crate) fn to_ascii_lower(c: char) -> (r: char)
    ensures
        r == ascii_lower(c),
{
    c.to_ascii_lowercase()
}

// ── Conversions between strings and character vectors ───────────────────────

/// The characters of a string slice, in order.
pub fn chars_of(s: &str) -> (v: Vec<char>)
    ensures
        v@ == s@,
{
    let mut v: Vec<char> = Vec::new();
    for c in it: s.chars()
        invariant
            it.seq() == s@,
            v@ == s@.take(it.index() as int),
    {
        v.push(c);
    }
    assert(s@.take(s@.len() as int) == s@);
    v
}

/// Appends the characters `v[from..to]` to `out`.
pub fn push_chars(out: &mut String, v: &Vec<char>, from: usize, to: usize)
    requires
        from <= to <= v.len(),
    ensures
        final(out)@ == old(out)@ + v@.subrange(from as int, to as int),
{
    let mut i = from;
    while i < to
        invariant
            from <= i <= to <= v.len(),
            out@ == old(out)@ + v@.subrange(from as int, i as int),
        decreases to - i,
    {
        push_char(out, v[i]);
        assert(v@.subrange(from as int, i + 1) == v@.subrange(from as int, i as int).push(v@[i as int]));
        i = i + 1;
    }
}

/// Builds a string holding the characters `v[from..to]`.
pub fn string_from(v: &Vec<char>, from: usize, to: usize) -> (s: String)
    requires
        from <= to <= v.len(),
    ensures
        s@ == v@.subrange(from as int, to as int),
{
    let mut s = String::new();
    push_chars(&mut s, v, from, to);
    s
}

/// Appends a whole string slice to `out`.
pub fn push_str(out: &mut String, t: &str)
    ensures
        final(out)@ == old(out)@ + t@,
{
    let v = chars_of(t);
    push_chars(out, &v, 0, v.len());
    assert(v@.subrange(0, v@.len() as int) == v@);
}

/// Character-wise equality of two strings.
pub fn str_eq(a: &str, b: &str) -> (r: bool)
    ensures
        r == (a@ == b@),
{
    let va = chars_of(a);
    let vb = chars_of(b);
    seq_eq(&va, &vb)
}

/// Element-wise equality of two character vectors.
pub fn seq_eq(a: &Vec<char>, b: &Vec<char>) -> (r: bool)
    ensures
        r == (a@ == b@),
{
    if a.len() != b.len() {
        return false;
    }
    let mut i: usize = 0;
    while i < a.len()
        invariant
            a.len() == b.len(),
            i <= a.len(),
            forall|j: int| 0 <= j < i ==> a@[j] == b@[j],
        decreases a.len() - i,
    {
        if a[i] != b[i] {
            return false;
        }
        i = i + 1;
    }
    assert(a@ =~= b@);
    true
}

// ── Whitespace and trimming ─────────────────────────────────────────────────

/// Unicode `White_Space`, which is what `char::is_whitespace` tests.
pub open spec fn is_ws(c: char) -> bool {
    let u = c as u32;
    ||| u == 0x20
    ||| (0x09 <= u && u <= 0x0d)
    ||| u == 0x85
    ||| u == 0xa0
    ||| u == 0x1680
    ||| (0x2000 <= u && u <= 0x200a)
    ||| u == 0x2028
    ||| u == 0x2029
    ||| u == 0x202f
    ||| u == 0x205f
    ||| u == 0x3000
}

/// Executable form of [`is_ws`].
pub fn is_whitespace(c: char) -> (b: bool)
    ensures
        b == is_ws(c),
{
    let u = c as u32;
    u == 0x20 || (0x09 <= u && u <= 0x0d) || u == 0x85 || u == 0xa0 || u == 0x1680 || (0x2000
        <= u && u <= 0x200a) || u == 0x2028 || u == 0x2029 || u == 0x202f || u == 0x205f || u
        == 0x3000
}

/// Drops the leading whitespace characters (`str::trim_start`).
pub open spec fn trim_front(s: Seq<char>) -> Seq<char>
    decreases s.len(),
{
    if s.len() > 0 && is_ws(s[0]) {
        trim_front(s.drop_first())
    } else {
        s
    }
}

/// Drops the trailing whitespace characters (`str::trim_end`).
pub open spec fn trim_back(s: Seq<char>) -> Seq<char>
    decreases s.len(),
{
    if s.len() > 0 && is_ws(s.last()) {
        trim_back(s.drop_last())
    } else {
        s
    }
}

/// `str::trim`: whitespace removed at both ends.
pub open spec fn trim(s: Seq<char>) -> Seq<char> {
    trim_back(trim_front(s))
}

/// Index bounds `(start, end)` such that `v[start..end]` is the trimmed text.
pub fn trim_bounds(v: &Vec<char>) -> (r: (usize, usize))
    ensures
        r.0 <= r.1 <= v.len(),
        v@.subrange(r.0 as int, r.1 as int) == trim(v@),
{
    let mut i: usize = 0;
    assert(v@.subrange(0, v.len() as int) == v@);
    while i < v.len() && is_whitespace(v[i])
        invariant
            i <= v.len(),
            trim_front(v@) == trim_front(v@.subrange(i as int, v.len() as int)),
        decreases v.len() - i,
    {
        assert(v@.subrange(i as int, v.len() as int).drop_first() == v@.subrange(
            i + 1,
            v.len() as int,
        ));
        i = i + 1;
    }
    let ghost f = v@.subrange(i as int, v.len() as int);
    assert(trim_front(f) == f);
    let mut j: usize = v.len();
    while j > i && is_whitespace(v[j - 1])
        invariant
            i <= j <= v.len(),
            f == v@.subrange(i as int, v.len() as int),
            trim_back(f) == trim_back(v@.subrange(i as int, j as int)),
        decreases j,
    {
        assert(v@.subrange(i as int, j as int).drop_last() == v@.subrange(i as int, j - 1));
        j = j - 1;
    }
    (i, j)
}

/// `str::trim` on a character vector.
pub fn trim_chars(v: &Vec<char>) -> (r: Vec<char>)
    ensures
        r@ == trim(v@),
{
    let (a, b) = trim_bounds(v);
    let mut r: Vec<char> = Vec::new();
    let mut k = a;
    while k < b
        invariant
            a <= k <= b <= v.len(),
            r@ == v@.subrange(a as int, k as int),
        decreases b - k,
    {
        r.push(v[k]);
        assert(v@.subrange(a as int, k + 1) == v@.subrange(a as int, k as int).push(v@[k as int]));
        k = k + 1;
    }
    r
}

// ── Searching ───────────────────────────────────────────────────────────────

/// Index of the first occurrence of `c` in `s`, or -1.
pub open spec fn find_char(s: Seq<char>, c: char) -> int
    decreases s.len(),
{
    if s.len() == 0 {
        -1
    } else if s[0] == c {
        0
    } else {
        let r = find_char(s.drop_first(), c);
        if r < 0 {
            -1
        } else {
            r + 1
        }
    }
}

/// [`find_char`] is the first index holding `c`.
pub proof fn lemma_find_char(s: Seq<char>, c: char)
    ensures
        -1 <= find_char(s, c) < s.len(),
        find_char(s, c) == -1 <==> (forall|j: int| 0 <= j < s.len() ==> s[j] != c),
        find_char(s, c) >= 0 ==> s[find_char(s, c)] == c && (forall|j: int|
            0 <= j < find_char(s, c) ==> s[j] != c),
    decreases s.len(),
{
    if s.len() > 0 && s[0] != c {
        lemma_find_char(s.drop_first(), c);
        assert forall|j: int| 0 < j < s.len() implies s[j] == s.drop_first()[j - 1] by {}
        if find_char(s, c) == -1 {
            assert forall|j: int| 0 <= j < s.len() implies s[j] != c by {
                if j > 0 {
                    assert(s[j] == s.drop_first()[j - 1]);
                }
            }
        }
    }
}

/// Position of the first `c` in `v`, as `str::find` with a character pattern.
pub fn find(v: &Vec<char>, c: char) -> (r: Option<usize>)
    ensures
        match r {
            Some(i) => find_char(v@, c) == i,
            None => find_char(v@, c) == -1,
        },
{
    proof {
        lemma_find_char(v@, c);
    }
    let mut i: usize = 0;
    while i < v.len()
        invariant
            i <= v.len(),
            forall|j: int| 0 <= j < i ==> v@[j] != c,
        decreases v.len() - i,
    {
        if v[i] == c {
            proof {
                lemma_find_char(v@, c);
                if find_char(v@, c) != i {
                    assert(v@[find_char(v@, c)] == c);
                }
            }
            return Some(i);
        }
        i = i + 1;
    }
    None
}

/// `needle` occurs in `hay` as a contiguous run.
pub open spec fn contains_seq(hay: Seq<char>, needle: Seq<char>) -> bool {
    exists|i: int|
        0 <= i && i + needle.len() <= hay.len() && #[trigger] hay.subrange(i, i + needle.len())
            == needle
}

/// Substring test, as `str::contains` with a string pattern.
pub fn contains(hay: &Vec<char>, needle: &Vec<char>) -> (r: bool)
    ensures
        r == contains_seq(hay@, needle@),
{
    if needle.len() == 0 {
        assert(hay@.subrange(0int, 0int + needle@.len()) =~= needle@);
        return true;
    }
    if needle.len() > hay.len() {
        return false;
    }
    let last = hay.len() - needle.len();
    let mut i: usize = 0;
    while i < last + 1
        invariant
            needle.len() > 0,
            last + needle.len() == hay.len(),
            i <= last + 1,
            forall|k: int|
                0 <= k < i ==> #[trigger] hay@.subrange(k, k + needle.len()) != needle@,
        decreases last + 1 - i,
    {
        let mut j: usize = 0;
        let mut ok = true;
        while j < needle.len() && ok
            invariant
                i <= last,
                last + needle.len() == hay.len(),
                j <= needle.len(),
                ok ==> forall|m: int| 0 <= m < j ==> hay@[i + m] == needle@[m],
                !ok ==> hay@.subrange(i as int, i + needle.len()) != needle@,
            decreases needle.len() - j + (if ok { 1int } else { 0int }),
        {
            if hay[i + j] != needle[j] {
                ok = false;
                assert(hay@.subrange(i as int, i + needle.len())[j as int] != needle@[j as int]);
            } else {
                j = j + 1;
            }
        }
        if ok {
            assert(hay@.subrange(i as int, i + needle.len()) =~= needle@);
            return true;
        }
        i = i + 1;
    }
    assert forall|k: int| 0 <= k && k + needle.len() <= hay.len() implies #[trigger] hay@.subrange(
        k,
        k + needle.len(),
    ) != needle@ by {
        assert(k <= last);
    }
    false
}

// ── Lines ───────────────────────────────────────────────────────────────────

/// A line piece without its line terminator (`\n`, and a `\r` just before it).
pub open spec fn strip_cr(piece: Seq<char>) -> Seq<char> {
    if piece.len() > 0 && piece.last() == '\r' {
        piece.drop_last()
    } else {
        piece
    }
}

/// `str::lines`: pieces separated by `\n`, a `\r` before the `\n` removed, no
/// trailing empty piece.
pub open spec fn lines(s: Seq<char>) -> Seq<Seq<char>>
    decreases s.len(),
{
    if s.len() == 0 {
        seq![]
    } else {
        let k = find_char(s, '\n');
        if k < 0 {
            seq![s]
        } else {
            if 0 <= k < s.len() {
                seq![strip_cr(s.take(k))] + lines(s.skip(k + 1))
            } else {
                seq![]
            }
        }
    }
}

/// Splits text into lines the way `str::lines` does.
pub fn split_lines(v: &Vec<char>) -> (r: Vec<Vec<char>>)
    ensures
        r@.len() == lines(v@).len(),
        forall|i: int| 0 <= i < r@.len() ==> #[trigger] r@[i]@ == lines(v@)[i],
{
    let mut r: Vec<Vec<char>> = Vec::new();
    let mut start: usize = 0;
    let mut cur: Vec<char> = Vec::new();
    let mut i: usize = 0;
    proof {
        assert(v@.skip(0) == v@);
    }
    while i < v.len()
        invariant
            start <= i <= v.len(),
            cur@ == v@.subrange(start as int, i as int),
            forall|m: int| start <= m < i ==> v@[m] != '\n',
            r@.len() + lines(v@.skip(start as int)).len() == lines(v@).len(),
            forall|m: int| 0 <= m < r@.len() ==> #[trigger] r@[m]@ == lines(v@)[m],
            forall|m: int|
                0 <= m < lines(v@.skip(start as int)).len() ==> lines(v@)[r@.len() + m]
                    == #[trigger] lines(v@.skip(start as int))[m],
        decreases v.len() - i,
    {
        if v[i] == '\n' {
            let ghost s = v@.skip(start as int);
            proof {
                lemma_find_char(s, '\n');
                let k = i - start;
                assert(s[k] == '\n');
                assert forall|m: int| 0 <= m < k implies s[m] != '\n' by {
                    assert(s[m] == v@[start + m]);
                }
                if find_char(s, '\n') != k {
                    assert(s[find_char(s, '\n')] == '\n');
                    assert(v@[start + find_char(s, '\n')] == '\n');
                }
                assert(s.take(k) == cur@);
                assert(s.skip(k + 1) == v@.skip(i + 1));
                assert(lines(s) == seq![strip_cr(cur@)] + lines(v@.skip(i + 1)));
            }
            let ghost old_r = r@;
            let ghost rest = v@.skip(i + 1);
            let mut piece = cur;
            if piece.len() > 0 && piece[piece.len() - 1] == '\r' {
                piece.pop();
            }
            proof {
                assert(piece@ == strip_cr(s.take((i - start) as int)));
                assert(lines(s)[0] == piece@);
                assert forall|m: int| 0 <= m < lines(rest).len() implies lines(s)[1 + m]
                    == lines(rest)[m] by {}
            }
            r.push(piece);
            cur = Vec::new();
            start = i + 1;
            proof {
                assert(v@.skip(start as int) == rest);
                assert(r@.len() == old_r.len() + 1);
                assert forall|m: int| 0 <= m < r@.len() implies #[trigger] r@[m]@ == lines(v@)[m] by {
                    if m < old_r.len() {
                        assert(r@[m] == old_r[m]);
                    } else {
                        assert(lines(v@)[old_r.len() as int] == lines(s)[0]);
                    }
                }
                assert forall|m: int| 0 <= m < lines(rest).len() implies lines(v@)[r@.len() + m]
                    == #[trigger] lines(rest)[m] by {
                    assert(lines(v@)[old_r.len() + (1 + m)] == lines(s)[1 + m]);
                }
                assert(v@.subrange(start as int, (i + 1) as int) =~= Seq::<char>::empty());
            }
        } else {
            cur.push(v[i]);
            assert(v@.subrange(start as int, i + 1) == v@.subrange(start as int, i as int).push(
                v@[i as int],
            ));
        }
        i = i + 1;
    }
    let ghost s = v@.skip(start as int);
    proof {
        lemma_find_char(s, '\n');
        assert(s == cur@);
        if s.len() > 0 {
            assert forall|j: int| 0 <= j < s.len() implies s[j] != '\n' by {
                assert(s[j] == v@[start + j]);
            }
            assert(lines(s) == seq![s]);
        }
    }
    let ghost old_r = r@;
    if cur.len() > 0 {
        r.push(cur);
        proof {
            assert(lines(v@)[old_r.len() as int] == lines(s)[0]);
            assert forall|m: int| 0 <= m < r@.len() implies #[trigger] r@[m]@ == lines(v@)[m] by {
                if m < old_r.len() {
                    assert(r@[m] == old_r[m]);
                }
            }
        }
    }
    r
}

// ── Paths ────────────────────────────────────────────────────────────────────

/// `PathBuf::join` on Unix paths: an absolute component replaces the base, otherwise a
/// `/` separates them unless the base is empty or already ends with one.
pub open spec fn path_join_spec(base: Seq<char>, comp: Seq<char>) -> Seq<char> {
    if comp.len() > 0 && comp[0] == '/' {
        comp
    } else if base.len() == 0 || base.last() == '/' {
        base + comp
    } else {
        base + seq!['/'] + comp
    }
}

/// Joins a path component onto a base path.
pub fn path_join(base: &str, comp: &str) -> (r: String)
    ensures
        r@ == path_join_spec(base@, comp@),
{
    let cv = chars_of(comp);
    if cv.len() > 0 && cv[0] == '/' {
        return string_from(&cv, 0, cv.len());
    }
    let bv = chars_of(base);
    let mut r = string_from(&bv, 0, bv.len());
    if bv.len() > 0 && bv[bv.len() - 1] != '/' {
        push_char(&mut r, '/');
    }
    push_chars(&mut r, &cv, 0, cv.len());
    proof {
        assert(bv@.subrange(0, bv@.len() as int) == bv@);
        assert(cv@.subrange(0, cv@.len() as int) == cv@);
    }
    r
}

// ── Decimal numbers ─────────────────────────────────────────────────────────

/// The ASCII digit for `d` (0..=9).
pub open spec fn digit_char(d: nat) -> char {
    ('0' as u32 + d) as char
}

/// Decimal rendering of a natural number (no sign, no leading zeros).
pub open spec fn decimal(n: nat) -> Seq<char>
    decreases n,
{
    if n < 10 {
        seq![digit_char(n)]
    } else {
        decimal(n / 10).push(digit_char(n % 10))
    }
}

/// ASCII digit for a value below ten.
pub fn digit(d: u64) -> (c: char)
    requires
        d < 10,
    ensures
        c == digit_char(d as nat),
{
    if d == 0 {
        '0'
    } else if d == 1 {
        '1'
    } else if d == 2 {
        '2'
    } else if d == 3 {
        '3'
    } else if d == 4 {
        '4'
    } else if d == 5 {
        '5'
    } else if d == 6 {
        '6'
    } else if d == 7 {
        '7'
    } else if d == 8 {
        '8'
    } else {
        '9'
    }
}

/// Appends the decimal rendering of `n` (as `format!("{n}")` writes it).
pub fn push_decimal(out: &mut String, n: u64)
    ensures
        final(out)@ == old(out)@ + decimal(n as nat),
    decreases n,
{
    if n >= 10 {
        push_decimal(out, n / 10);
    }
    push_char(out, digit(n % 10));
}

/// `n.to_string()` for an unsigned integer.
pub fn decimal_string(n: u64) -> (s: String)
    ensures
        s@ == decimal(n as nat),
{
    let mut s = String::new();
    push_decimal(&mut s, n);
    s
}

/// Two-digit rendering of a number below 100 (zero-padded), as `{:02}` prints it.
pub open spec fn two_digits(n: nat) -> Seq<char> {
    if n < 10 {
        seq!['0', digit_char(n)]
    } else {
        decimal(n)
    }
}

/// A duration in seconds as `m:ss` (`format!("{}:{:02}", s / 60, s % 60)`).
pub open spec fn clock_label(secs: nat) -> Seq<char> {
    decimal(secs / 60) + seq![':'] + two_digits(secs % 60)
}

/// The label is the minutes' digits, a colon and two digits.
pub proof fn lemma_clock_label_len(secs: nat)
    ensures
        clock_label(secs).len() == decimal(secs / 60).len() + 3,
{
    let r = secs % 60;
    if r >= 10 {
        assert(decimal(r / 10).len() == 1);
    }
}

/// Formats a duration in seconds as `m:ss`.
pub fn format_clock(secs: u64) -> (s: String)
    ensures
        s@ == clock_label(secs as nat),
{
    let mut s = decimal_string(secs / 60);
    push_char(&mut s, ':');
    let r = secs % 60;
    if r < 10 {
        push_char(&mut s, '0');
    }
    push_decimal(&mut s, r);
    proof {
        if r < 10 {
            assert(decimal(r as nat) == seq![digit_char(r as nat)]);
        }
    }
    s
}

/// `10^k`.
pub open spec fn pow10(k: nat) -> nat
    decreases k,
{
    if k == 0 {
        1
    } else {
        10 * pow10((k - 1) as nat)
    }
}

/// A number below `10^k` has at most `k` decimal digits.
pub proof fn lemma_decimal_len(n: nat, k: nat)
    requires
        n < pow10(k),
        k >= 1,
    ensures
        decimal(n).len() <= k,
    decreases k,
{
    if n >= 10 {
        assert(k >= 2) by {
            if k == 1 {
                assert(pow10(1) == 10);
            }
        }
        lemma_decimal_len(n / 10, (k - 1) as nat);
    }
}

/// A `u64` has at most 20 decimal digits.
pub proof fn lemma_decimal_len_u64(n: u64)
    ensures
        decimal(n as nat).len() <= 20,
{
    reveal_with_fuel(pow10, 21);
    assert(pow10(20) == 100_000_000_000_000_000_000);
    lemma_decimal_len(n as nat, 20);
}

/// Number of characters of `format_clock(secs)`.
pub fn clock_label_len(secs: u64) -> (n: usize)
    ensures
        n == clock_label(secs as nat).len(),
        n <= 23,
{
    proof {
        lemma_clock_label_len(secs as nat);
        lemma_decimal_len_u64(secs / 60);
    }
    let s = format_clock(secs);
    chars_of(s.as_str()).len()
}

/// `c` is an ASCII decimal digit.
pub open spec fn is_digit(c: char) -> bool {
    '0' <= c && c <= '9'
}

/// Value of an all-digit sequence, most significant digit first.
pub open spec fn digits_value(s: Seq<char>) -> nat
    decreases s.len(),
{
    if s.len() == 0 {
        0
    } else {
        digits_value(s.drop_last()) * 10 + ((s.last() as u32 - '0' as u32) as nat)
    }
}

/// Digits after an optional leading `+`, as unsigned `FromStr` reads them.
pub open spec fn unsigned_digits(s: Seq<char>) -> Seq<char> {
    if s.len() >= 1 && s[0] == '+' {
        s.drop_first()
    } else {
        s
    }
}

/// `str::parse::<u64>()`: an optional `+`, then one or more ASCII digits whose value fits.
pub open spec fn parse_u64(s: Seq<char>) -> Option<u64> {
    let ds = unsigned_digits(s);
    if ds.len() == 0 || !(forall|i: int| 0 <= i < ds.len() ==> is_digit(#[trigger] ds[i]))
        || digits_value(ds) > u64::MAX {
        None
    } else {
        Some(digits_value(ds) as u64)
    }
}

proof fn lemma_digits_value_prefix(s: Seq<char>, i: int)
    requires
        0 <= i <= s.len(),
        forall|j: int| 0 <= j < s.len() ==> is_digit(#[trigger] s[j]),
    ensures
        digits_value(s.take(i)) <= digits_value(s),
    decreases s.len(),
{
    if i < s.len() {
        assert(s.drop_last().take(i) == s.take(i));
        assert forall|j: int| 0 <= j < s.drop_last().len() implies is_digit(
            #[trigger] s.drop_last()[j],
        ) by {
            assert(s.drop_last()[j] == s[j]);
        }
        lemma_digits_value_prefix(s.drop_last(), i);
    } else {
        assert(s.take(i) == s);
    }
}

/// Parses `v[from..to]` as `str::parse::<u64>()` does.
pub fn parse_u64_range(v: &Vec<char>, from: usize, to: usize) -> (r: Option<u64>)
    requires
        from <= to <= v.len(),
    ensures
        r == parse_u64(v@.subrange(from as int, to as int)),
{
    let ghost s = v@.subrange(from as int, to as int);
    let mut start = from;
    if from < to && v[from] == '+' {
        start = from + 1;
    }
    let ghost ds = v@.subrange(start as int, to as int);
    assert(unsigned_digits(s) == ds);
    if start == to {
        return None;
    }
    let mut acc: u64 = 0;
    let mut i = start;
    while i < to
        invariant
            from <= start <= i <= to <= v.len(),
            start < to,
            ds == v@.subrange(start as int, to as int),
            s == v@.subrange(from as int, to as int),
            unsigned_digits(s) == ds,
            forall|j: int| start <= j < i ==> is_digit(#[trigger] v@[j]),
            acc == digits_value(v@.subrange(start as int, i as int)),
        decreases to - i,
    {
        let c = v[i];
        if !('0' <= c && c <= '9') {
            assert(!is_digit(ds[i - start]));
            return None;
        }
        let d = (c as u32 - '0' as u32) as u64;
        assert(v@.subrange(start as int, i + 1).drop_last() == v@.subrange(start as int, i as int));
        if acc > (u64::MAX - d) / 10 {
            proof {
                let p = v@.subrange(start as int, i + 1);
                assert(digits_value(p) > u64::MAX) by (nonlinear_arith)
                    requires
                        digits_value(p) == acc * 10 + d,
                        acc > (u64::MAX - d) / 10,
                        d < 10,
                ;
                if forall|j: int| 0 <= j < ds.len() ==> is_digit(#[trigger] ds[j]) {
                    assert(ds.take(i + 1 - start) == p);
                    lemma_digits_value_prefix(ds, i + 1 - start);
                }
            }
            return None;
        }
        assert(acc * 10 + d <= u64::MAX) by (nonlinear_arith)
            requires
                acc <= (u64::MAX - d) / 10,
                d < 10,
        ;
        acc = acc * 10 + d;
        i = i + 1;
    }
    assert(ds == v@.subrange(start as int, i as int));
    assert forall|j: int| 0 <= j < ds.len() implies is_digit(#[trigger] ds[j]) by {
        assert(ds[j] == v@[start + j]);
    }
    Some(acc)
}

} // verus!
