//! Character-level string operations with their specifications.
//!
//! Strings are modelled by their view, the sequence of Unicode scalar values
//! (`Seq<char>`). The few standard-library calls that the logic needs and that
//! vstd gives no contract are wrapped here; everything else is verified code.

use vstd::prelude::*;

verus! {

/// The character views of a sequence of string slices.
pub open spec fn views(s: Seq<&str>) -> Seq<Seq<char>> {
    s.map_values(|x: &str| x@)
}

/// The character views of a sequence of owned strings.
pub open spec fn string_views(s: Seq<String>) -> Seq<Seq<char>> {
    s.map_values(|x: String| x@)
}

// ---------------------------------------------------------------------------
// Equality and simple searches
// ---------------------------------------------------------------------------

/// Whether two string slices hold the same characters.
pub fn str_eq(a: &str, b: &str) -> (r: bool)
    ensures
        r == (a@ == b@),
{
    let n = a.unicode_len();
    if n != b.unicode_len() {
        return false;
    }
    let mut i: usize = 0;
    while i < n
        invariant
            n == a@.len(),
            n == b@.len(),
            i <= n,
            forall|j: int| 0 <= j < i ==> a@[j] == b@[j],
        decreases n - i,
    {
        if a.get_char(i) != b.get_char(i) {
            return false;
        }
        i = i + 1;
    }
    assert(a@ =~= b@);
    true
}

/// Whether `c` occurs in `s`.
pub fn contains_char(s: &str, c: char) -> (r: bool)
    ensures
        r == s@.contains(c),
{
    let n = s.unicode_len();
    let mut i: usize = 0;
    while i < n
        invariant
            n == s@.len(),
            i <= n,
            forall|j: int| 0 <= j < i ==> s@[j] != c,
        decreases n - i,
    {
        if s.get_char(i) == c {
            assert(s@[i as int] == c);
            return true;
        }
        i = i + 1;
    }
    false
}

/// Whether `s` equals one of the strings in `list`.
pub fn list_contains(list: &[&str], s: &str) -> (r: bool)
    ensures
        r == views(list@).contains(s@),
{
    let n = list.len();
    let mut i: usize = 0;
    while i < n
        invariant
            n == list@.len(),
            i <= n,
            forall|j: int| 0 <= j < i ==> list@[j]@ != s@,
        decreases n - i,
    {
        if str_eq(list[i], s) {
            assert(views(list@)[i as int] == s@);
            return true;
        }
        i = i + 1;
    }
    assert(!views(list@).contains(s@)) by {
        if views(list@).contains(s@) {
            let k = choose|k: int| 0 <= k < views(list@).len() && views(list@)[k] == s@;
            assert(list@[k]@ == s@);
        }
    }
    false
}

/// `prefix` is a prefix of `s`.
pub open spec fn has_prefix(s: Seq<char>, prefix: Seq<char>) -> bool {
    prefix.len() <= s.len() && s.subrange(0, prefix.len() as int) == prefix
}

/// Whether `s` starts with `prefix`.
pub fn starts_with(s: &str, prefix: &str) -> (r: bool)
    ensures
        r == has_prefix(s@, prefix@),
{
    let n = s.unicode_len();
    let m = prefix.unicode_len();
    if m > n {
        return false;
    }
    let mut i: usize = 0;
    while i < m
        invariant
            n == s@.len(),
            m == prefix@.len(),
            m <= n,
            i <= m,
            forall|j: int| 0 <= j < i ==> s@[j] == prefix@[j],
        decreases m - i,
    {
        if s.get_char(i) != prefix.get_char(i) {
            assert(s@.subrange(0, m as int)[i as int] != prefix@[i as int]);
            return false;
        }
        i = i + 1;
    }
    assert(s@.subrange(0, m as int) =~= prefix@);
    true
}

/// `s` without the leading `prefix`, when it has it.
pub open spec fn spec_strip_prefix(s: Seq<char>, prefix: Seq<char>) -> Option<Seq<char>> {
    if has_prefix(s, prefix) {
        Some(s.subrange(prefix.len() as int, s.len() as int))
    } else {
        None
    }
}

/// `s` without the leading `prefix`, or `None` when `s` does not start with it.
pub fn strip_prefix<'a>(s: &'a str, prefix: &str) -> (r: Option<&'a str>)
    ensures
        r matches Some(rest) ==> spec_strip_prefix(s@, prefix@) == Some(rest@),
        r is None ==> spec_strip_prefix(s@, prefix@) is None,
{
    if starts_with(s, prefix) {
        Some(s.substring_char(prefix.unicode_len(), s.unicode_len()))
    } else {
        None
    }
}

// ---------------------------------------------------------------------------
// Whitespace and trimming
// ---------------------------------------------------------------------------

/// The characters with the Unicode `White_Space` property.
pub open spec fn is_white_space(c: char) -> bool {
    let u = c as u32;
    ||| 0x9 <= u <= 0xd
    ||| u == 0x20
    ||| u == 0x85
    ||| u == 0xa0
    ||| u == 0x1680
    ||| 0x2000 <= u <= 0x200a
    ||| u == 0x2028
    ||| u == 0x2029
    ||| u == 0x202f
    ||| u == 0x205f
    ||| u == 0x3000
}

/// `char::is_whitespace`: its documentation defines it as the Unicode
/// `White_Space` property; the contract lists the code points of that property.
#[verifier::external_body]
pub(crate) fn char_is_whitespace(c: char) -> (r: bool)
    ensures
        r == is_white_space(c),
{
    c.is_whitespace()
}

/// The character class removed by a trim: whitespace when `ws`, else the single
/// character `c`.
pub open spec fn trim_class(ws: bool, c: char, x: char) -> bool {
    if ws {
        is_white_space(x)
    } else {
        x == c
    }
}

/// `s` with its leading characters of the class removed.
pub open spec fn trim_start_class(s: Seq<char>, ws: bool, c: char) -> Seq<char>
    decreases s.len(),
{
    if s.len() > 0 && trim_class(ws, c, s[0]) {
        trim_start_class(s.drop_first(), ws, c)
    } else {
        s
    }
}

/// `s` with its trailing characters of the class removed.
pub open spec fn trim_end_class(s: Seq<char>, ws: bool, c: char) -> Seq<char>
    decreases s.len(),
{
    if s.len() > 0 && trim_class(ws, c, s.last()) {
        trim_end_class(s.drop_last(), ws, c)
    } else {
        s
    }
}

/// `s` with leading and trailing whitespace removed (what `str::trim` returns).
pub open spec fn trimmed(s: Seq<char>) -> Seq<char> {
    trim_end_class(trim_start_class(s, true, ' '), true, ' ')
}

/// `s` with every leading and trailing `c` removed (what `str::trim_matches(c)` returns).
pub open spec fn trimmed_char(s: Seq<char>, c: char) -> Seq<char> {
    trim_end_class(trim_start_class(s, false, c), false, c)
}

fn in_trim_class(x: char, ws: bool, c: char) -> (r: bool)
    ensures
        r == trim_class(ws, c, x),
{
    if ws {
        char_is_whitespace(x)
    } else {
        x == c
    }
}

fn trim_with<'a>(s: &'a str, ws: bool, c: char) -> (r: &'a str)
    ensures
        r@ == trim_end_class(trim_start_class(s@, ws, c), ws, c),
{
    let n = s.unicode_len();
    let mut i: usize = 0;
    assert(s@.subrange(0, n as int) =~= s@);
    while i < n && in_trim_class(s.get_char(i), ws, c)
        invariant
            n == s@.len(),
            i <= n,
            trim_start_class(s@, ws, c) == trim_start_class(s@.subrange(i as int, n as int), ws, c),
        decreases n - i,
    {
        assert(s@.subrange(i as int, n as int).drop_first() =~= s@.subrange(i + 1, n as int));
        i = i + 1;
    }
    let ghost start = s@.subrange(i as int, n as int);
    assert(trim_start_class(s@, ws, c) == start);
    let mut j: usize = n;
    while j > i && in_trim_class(s.get_char(j - 1), ws, c)
        invariant
            n == s@.len(),
            i <= j <= n,
            start == s@.subrange(i as int, n as int),
            trim_end_class(start, ws, c) == trim_end_class(s@.subrange(i as int, j as int), ws, c),
        decreases j - i,
    {
        assert(s@.subrange(i as int, j as int).drop_last() =~= s@.subrange(i as int, j - 1));
        j = j - 1;
    }
    s.substring_char(i, j)
}

/// `str::trim`: `s` without leading and trailing whitespace.
pub fn trim<'a>(s: &'a str) -> (r: &'a str)
    ensures
        r@ == trimmed(s@),
{
    trim_with(s, true, ' ')
}

/// `str::trim_matches` with a single character: `s` without leading and
/// trailing occurrences of `c`.
pub fn trim_matches_char<'a>(s: &'a str, c: char) -> (r: &'a str)
    ensures
        r@ == trimmed_char(s@, c),
{
    trim_with(s, false, c)
}

// ---------------------------------------------------------------------------
// Splitting at newlines
// ---------------------------------------------------------------------------

/// The pieces of `s` between newline characters, in order; there is always one
/// more piece than there are newlines.
pub open spec fn split_newlines(s: Seq<char>) -> Seq<Seq<char>>
    decreases s.len(),
{
    if s.len() == 0 {
        seq![Seq::<char>::empty()]
    } else {
        let p = split_newlines(s.drop_last());
        if s.last() == '\n' {
            p.push(Seq::<char>::empty())
        } else {
            p.update(p.len() - 1, p.last().push(s.last()))
        }
    }
}

/// The pieces of `s` between newline characters.
pub fn split_newlines_exec<'a>(s: &'a str) -> (r: Vec<&'a str>)
    ensures
        views(r@) == split_newlines(s@),
{
    let n = s.unicode_len();
    let mut pieces: Vec<&'a str> = Vec::new();
    let mut start: usize = 0;
    let mut i: usize = 0;
    assert(s@.take(0) =~= Seq::<char>::empty());
    assert(views(pieces@).push(s@.subrange(0, 0)) =~= seq![Seq::<char>::empty()]);
    while i < n
        invariant
            n == s@.len(),
            start <= i <= n,
            split_newlines(s@.take(i as int)) == views(pieces@).push(s@.subrange(start as int, i as int)),
        decreases n - i,
    {
        let ch = s.get_char(i);
        let ghost before = views(pieces@);
        let ghost cur = s@.subrange(start as int, i as int);
        assert(s@.take(i + 1).drop_last() =~= s@.take(i as int));
        assert(s@.take(i + 1).last() == ch);
        assert(split_newlines(s@.take(i as int)) == before.push(cur));
        if ch == '\n' {
            let piece = s.substring_char(start, i);
            pieces.push(piece);
            start = i + 1;
            assert(views(pieces@) =~= before.push(cur));
            assert(s@.subrange(i + 1, i + 1) =~= Seq::<char>::empty());
            assert(split_newlines(s@.take(i + 1)) == before.push(cur).push(Seq::<char>::empty()));
        } else {
            let ghost p = before.push(cur);
            assert(p.last() == cur);
            assert(s@.subrange(start as int, i + 1) =~= cur.push(ch));
            assert(split_newlines(s@.take(i + 1)) == p.update(p.len() - 1, cur.push(ch)));
            assert(p.update(p.len() - 1, cur.push(ch)) =~= before.push(cur.push(ch)));
        }
        i = i + 1;
    }
    let ghost before = views(pieces@);
    let last = s.substring_char(start, n);
    pieces.push(last);
    assert(s@.take(n as int) =~= s@);
    assert(views(pieces@) =~= before.push(last@));
    pieces
}

// ---------------------------------------------------------------------------
// Padding and decimal numbers
// ---------------------------------------------------------------------------

/// `width - s.len()` spaces.
pub open spec fn spaces(count: int) -> Seq<char> {
    Seq::new(if count < 0 { 0 } else { count as nat }, |i: int| ' ')
}

/// `s` left-aligned in a field of `width` characters, as `format!("{:<width$}", s)` does.
pub open spec fn pad_right(s: Seq<char>, width: int) -> Seq<char> {
    s + spaces(width - s.len())
}

/// Appends `s`, padded on the right with spaces to `width` characters, to `out`.
pub fn push_padded(out: &mut String, s: &str, width: usize)
    ensures
        final(out)@ == old(out)@ + pad_right(s@, width as int),
{
    out.append(s);
    let n = s.unicode_len();
    let mut k: usize = n;
    while k < width
        invariant
            n == s@.len(),
            n <= k,
            n <= width ==> k <= width,
            n > width ==> k == n,
            out@ == old(out)@ + s@ + spaces(k - n),
        decreases width - k,
    {
        let ghost prev = out@;
        proof {
            reveal_strlit(" ");
        }
        out.append(" ");
        assert(out@ == prev + seq![' ']);
        assert(spaces(k + 1 - n) =~= spaces(k - n).push(' '));
        assert(out@ =~= old(out)@ + s@ + spaces(k + 1 - n));
        k = k + 1;
    }
    if n <= width {
        assert(k == width);
    } else {
        assert(spaces(k - n).len() == 0);
        assert(spaces(width - n).len() == 0);
    }
    assert(spaces(k - n) =~= spaces(width - n));
    assert(out@ =~= old(out)@ + pad_right(s@, width as int));
}

/// The decimal digit for `d` (0 to 9).
pub open spec fn digit_char(d: int) -> char {
    if d == 0 {
        '0'
    } else if d == 1 {
        '1'
    } else if d == 2 {
        '2'
    } else if d == 3 {
        '3'
    } else if d == 4 {
        '4'
    } else if d == 5 {
        '5'
    } else if d == 6 {
        '6'
    } else if d == 7 {
        '7'
    } else if d == 8 {
        '8'
    } else {
        '9'
    }
}

/// The value of a decimal digit character, or -1 for any other character.
pub open spec fn digit_value(c: char) -> int {
    if '0' <= c && c <= '9' {
        (c as u32) - ('0' as u32)
    } else {
        -1
    }
}

/// The decimal representation of `n`, without leading zeros.
pub open spec fn decimal(n: nat) -> Seq<char>
    decreases n,
{
    if n < 10 {
        seq![digit_char(n as int)]
    } else {
        decimal(n / 10).push(digit_char((n % 10) as int))
    }
}

fn digit_str(d: usize) -> (r: &'static str)
    requires
        d < 10,
    ensures
        r@ == seq![digit_char(d as int)],
{
    proof {
        reveal_strlit("0");
        reveal_strlit("1");
        reveal_strlit("2");
        reveal_strlit("3");
        reveal_strlit("4");
        reveal_strlit("5");
        reveal_strlit("6");
        reveal_strlit("7");
        reveal_strlit("8");
        reveal_strlit("9");
    }
    match d {
        0 => "0",
        1 => "1",
        2 => "2",
        3 => "3",
        4 => "4",
        5 => "5",
        6 => "6",
        7 => "7",
        8 => "8",
        _ => "9",
    }
}

/// The decimal representation of `n`, as `n.to_string()` gives it.
pub fn to_decimal(n: usize) -> (r: String)
    ensures
        r@ == decimal(n as nat),
    decreases n,
{
    if n < 10 {
        String::from_str(digit_str(n))
    } else {
        let mut s = to_decimal(n / 10);
        s.append(digit_str(n % 10));
        s
    }
}

/// A digit character's value is the digit.
proof fn lemma_digit_value(d: int)
    requires
        0 <= d < 10,
    ensures
        digit_value(digit_char(d)) == d,
        '0' <= digit_char(d) && digit_char(d) <= '9',
{
    assert(('0' as u32) == 48u32);
    assert(('9' as u32) == 57u32);
}

/// The decimal representation of a number is a non-empty string of digits
/// that reads back as the number, and has no surrounding whitespace.
pub proof fn lemma_decimal_reads_back(n: nat)
    ensures
        decimal(n).len() > 0,
        all_digits(decimal(n)),
        digits_value(decimal(n)) == n,
        trimmed(decimal(n)) == decimal(n),
        n <= usize::MAX ==> spec_parse_usize(decimal(n)) == Some(n as usize),
    decreases n,
{
    let s = decimal(n);
    lemma_digit_value((n % 10) as int);
    if n < 10 {
        assert(s.drop_last() =~= Seq::<char>::empty());
        assert(s.last() == digit_char(n as int));
        assert(digits_value(s) == digits_value(s.drop_last()) * 10 + digit_value(s.last()));
        assert(n % 10 == n);
    } else {
        lemma_decimal_reads_back(n / 10);
        let p = decimal(n / 10);
        assert(s.drop_last() =~= p);
        assert(s.last() == digit_char((n % 10) as int));
        assert(digits_value(s) == digits_value(p) * 10 + digit_value(s.last()));
        assert((n / 10) * 10 + n % 10 == n);
        assert forall|i: int| 0 <= i < s.len() implies '0' <= #[trigger] s[i] && s[i] <= '9' by {
            if i < p.len() {
                assert(s[i] == p[i]);
            }
        }
    }
    assert(!is_white_space(s[0]));
    assert(!is_white_space(s.last()));
    assert(s[0] != '+');
}

// ---------------------------------------------------------------------------
// Standard-library calls with a stated or named result
// ---------------------------------------------------------------------------

/// The value of a non-empty string of decimal digits.
pub open spec fn digits_value(s: Seq<char>) -> int
    decreases s.len(),
{
    if s.len() == 0 {
        0
    } else {
        digits_value(s.drop_last()) * 10 + digit_value(s.last())
    }
}

/// Every character of `s` is a decimal digit.
pub open spec fn all_digits(s: Seq<char>) -> bool {
    forall|i: int| 0 <= i < s.len() ==> '0' <= #[trigger] s[i] && s[i] <= '9'
}

/// What `str::parse::<usize>` accepts: an optional `+` followed by one or more
/// decimal digits whose value fits in a `usize`.
pub open spec fn spec_parse_usize(s: Seq<char>) -> Option<usize> {
    let d = if s.len() > 0 && s[0] == '+' {
        s.drop_first()
    } else {
        s
    };
    if d.len() > 0 && all_digits(d) && digits_value(d) <= usize::MAX {
        Some(digits_value(d) as usize)
    } else {
        None
    }
}

/// `str::parse::<usize>`, with the error turned into `None`. Its documentation
/// (`usize::from_str_radix`) accepts exactly an optional `+` sign followed by
/// digits, and fails on overflow; the contract states that.
#[verifier::external_body]
pub(crate) fn parse_usize(s: &str) -> (r: Option<usize>)
    ensures
        r == spec_parse_usize(s@),
{
    s.parse::<usize>().ok()
}

/// The Unicode lowercase mapping of a string, as `str::to_lowercase` computes it.
pub uninterp spec fn lowercase(s: Seq<char>) -> Seq<char>;

/// Every character of `s` is ASCII.
pub open spec fn is_ascii(s: Seq<char>) -> bool {
    forall|i: int| 0 <= i < s.len() ==> (#[trigger] s[i] as u32) < 128
}

/// The ASCII lowercase of a character: `A` to `Z` become `a` to `z`, anything
/// else is left as it is.
pub open spec fn ascii_lower_char(c: char) -> char {
    if 65 <= (c as u32) <= 90 {
        ((c as u32) + 32) as char
    } else {
        c
    }
}

/// The ASCII lowercase of a string, character by character.
pub open spec fn ascii_lowercase(s: Seq<char>) -> Seq<char> {
    s.map_values(|c: char| ascii_lower_char(c))
}

/// Lowercasing an ASCII string gives an ASCII string that lowercasing leaves
/// as it is.
pub proof fn lemma_ascii_lowercase_idempotent(s: Seq<char>)
    requires
        is_ascii(s),
    ensures
        is_ascii(ascii_lowercase(s)),
        ascii_lowercase(ascii_lowercase(s)) == ascii_lowercase(s),
{
    let l = ascii_lowercase(s);
    assert forall|i: int| 0 <= i < l.len() implies (#[trigger] l[i] as u32) < 128 && ascii_lower_char(l[i]) == l[i] by {
        let c = s[i];
        assert((c as u32) < 128);
        if 65 <= (c as u32) <= 90 {
            assert((((c as u32) + 32) as char) as u32 == (c as u32) + 32);
        }
    }
    assert(ascii_lowercase(l) =~= l);
}

/// A string of decimal digits is ASCII and its own lowercase.
pub proof fn lemma_digits_are_lowercase(s: Seq<char>)
    requires
        all_digits(s),
    ensures
        is_ascii(s),
        ascii_lowercase(s) == s,
{
    assert forall|i: int| 0 <= i < s.len() implies (#[trigger] s[i] as u32) < 128 by {
        assert('0' <= s[i] && s[i] <= '9');
    }
    assert(ascii_lowercase(s) =~= s);
}

/// `str::to_lowercase`. Its result depends on the string alone and is named
/// `lowercase`. Of the Unicode case mapping it follows, the contract states the
/// ASCII part: on an ASCII string it maps `A` to `Z` to `a` to `z` and leaves
/// every other character as it is. The mapping of other characters is not
/// restated here.
#[verifier::external_body]
pub(crate) fn to_lowercase(s: &str) -> (r: String)
    ensures
        r@ == lowercase(s@),
        is_ascii(s@) ==> r@ == ascii_lowercase(s@),
{
    s.to_lowercase()
}

} // verus!
