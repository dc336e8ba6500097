//! Character-level helpers shared by the listing, preview and history code.
//!
//! Contracts speak of strings through their view, a `Seq<char>`.

use vstd::prelude::*;

verus! {

/// `String::push` appends one character.
pub assume_specification[ String::push ](s: &mut String, ch: char)
    ensures
        final(s)@ == old(s)@.push(ch),
;

/// `String::pop` takes the last character off, if there is one.
pub assume_specification[ String::pop ](s: &mut String) -> (last: Option<char>)
    ensures
        match last {
            Some(c) => old(s)@.len() > 0 && c == old(s)@.last() && final(s)@ == old(s)@.drop_last(),
            None => old(s)@.len() == 0 && final(s)@ == old(s)@,
        },
;

/// `String::clear` leaves the string empty.
pub assume_specification[ String::clear ](s: &mut String)
    ensures
        final(s)@ == Seq::<char>::empty(),
;

/// The characters of `s`, in order.
pub fn to_chars(s: &str) -> (out: Vec<char>)
    ensures
        out@ == s@,
{
    let mut out: Vec<char> = Vec::new();
    for c in it: s.chars()
        invariant
            out@ == it.seq().take(it.index() as int),
            it.seq() == s@,
    {
        out.push(c);
    }
    out
}

/// The string made of `chars`, in order.
pub fn from_chars(chars: &Vec<char>) -> (out: String)
    ensures
        out@ == chars@,
{
    let mut out = String::new();
    let mut i: usize = 0;
    while i < chars.len()
        invariant
            i <= chars.len(),
            out@ == chars@.take(i as int),
        decreases chars.len() - i,
    {
        out.push(chars[i]);
        i += 1;
    }
    out
}

/// Appends every character of `tail` to `out`.
pub fn push_all(out: &mut Vec<char>, tail: &Vec<char>)
    ensures
        final(out)@ == old(out)@ + tail@,
{
    let mut i: usize = 0;
    while i < tail.len()
        invariant
            i <= tail.len(),
            out@ == old(out)@ + tail@.take(i as int),
        decreases tail.len() - i,
    {
        out.push(tail[i]);
        i += 1;
    }
}

/// Appends every character of `tail` to `out`.
pub fn push_str(out: &mut Vec<char>, tail: &str)
    ensures
        final(out)@ == old(out)@ + tail@,
{
    let chars = to_chars(tail);
    push_all(out, &chars);
}

/// The character that stands for the hexadecimal digit `d`, in lower case.
pub open spec fn hex_digit(d: int) -> char {
    if d == 0 {
        '0'
    } else if d == 1 {
        '1'
    } else if d == 2 {
        '2'
    } else if d == 3 {
        '3'
    } else if d == 4 {
        '4'
    } else if d == 5 {
        '5'
    } else if d == 6 {
        '6'
    } else if d == 7 {
        '7'
    } else if d == 8 {
        '8'
    } else if d == 9 {
        '9'
    } else if d == 10 {
        'a'
    } else if d == 11 {
        'b'
    } else if d == 12 {
        'c'
    } else if d == 13 {
        'd'
    } else if d == 14 {
        'e'
    } else {
        'f'
    }
}

/// Executable form of [`hex_digit`], for `d` below sixteen.
pub fn hex_digit_char(d: u32) -> (c: char)
    requires
        d < 16,
    ensures
        c == hex_digit(d as int),
{
    if d == 0 {
        '0'
    } else if d == 1 {
        '1'
    } else if d == 2 {
        '2'
    } else if d == 3 {
        '3'
    } else if d == 4 {
        '4'
    } else if d == 5 {
        '5'
    } else if d == 6 {
        '6'
    } else if d == 7 {
        '7'
    } else if d == 8 {
        '8'
    } else if d == 9 {
        '9'
    } else if d == 10 {
        'a'
    } else if d == 11 {
        'b'
    } else if d == 12 {
        'c'
    } else if d == 13 {
        'd'
    } else if d == 14 {
        'e'
    } else {
        'f'
    }
}

/// The decimal digits of `n`, most significant first, without leading zeros.
pub open spec fn decimal(n: nat) -> Seq<char>
    decreases n,
{
    if n < 10 {
        seq![hex_digit(n as int)]
    } else {
        decimal(n / 10).push(hex_digit((n % 10) as int))
    }
}

/// Appends the decimal digits of `n` to `out`.
pub fn push_decimal(out: &mut Vec<char>, n: u64)
    ensures
        final(out)@ == old(out)@ + decimal(n as nat),
    decreases n,
{
    if n >= 10 {
        push_decimal(out, n / 10);
    }
    let d = hex_digit_char((n % 10) as u32);
    out.push(d);
    proof {
        if n >= 10 {
            assert(out@ == old(out)@ + decimal((n / 10) as nat).push(d));
        } else {
            assert(out@ == old(out)@ + seq![d]);
        }
    }
}

/// `count` copies of `c`.
pub open spec fn repeated(c: char, count: nat) -> Seq<char> {
    Seq::new(count, |i: int| c)
}

/// Appends `count` copies of `c` to `out`.
pub fn push_repeated(out: &mut Vec<char>, c: char, count: usize)
    ensures
        final(out)@ == old(out)@ + repeated(c, count as nat),
{
    let mut i: usize = 0;
    while i < count
        invariant
            i <= count,
            out@ == old(out)@ + repeated(c, i as nat),
        decreases count - i,
    {
        out.push(c);
        i += 1;
        assert(out@ == old(out)@ + repeated(c, i as nat));
    }
}

/// `digits` set flush right in a field of `width` columns, filled with spaces
/// on the left; longer text is left as it is.
pub open spec fn right_aligned(digits: Seq<char>, width: nat) -> Seq<char> {
    if digits.len() >= width {
        digits
    } else {
        repeated(' ', (width - digits.len()) as nat) + digits
    }
}

/// Appends the decimal digits of `n`, flush right in `width` columns.
pub fn push_decimal_aligned(out: &mut Vec<char>, n: u64, width: usize)
    ensures
        final(out)@ == old(out)@ + right_aligned(decimal(n as nat), width as nat),
{
    let mut digits: Vec<char> = Vec::new();
    push_decimal(&mut digits, n);
    assert(digits@ == decimal(n as nat));
    if digits.len() < width {
        push_repeated(out, ' ', width - digits.len());
    }
    push_all(out, &digits);
}

/// Whether `c` is a control code: general category Cc, that is U+0000 to
/// U+001F and U+007F to U+009F.
pub open spec fn is_control(c: char) -> bool {
    (c as u32) < 0x20 || (0x7f <= (c as u32) && (c as u32) <= 0x9f)
}

/// Executable form of [`is_control`].
pub fn char_is_control(c: char) -> (r: bool)
    ensures
        r == is_control(c),
{
    let code = c as u32;
    code < 0x20 || (0x7f <= code && code <= 0x9f)
}

/// What one character of a previewed line is shown as: a tab becomes an arrow
/// and three spaces, carriage return `\r`, NUL `\0`, any other control code but
/// the line feed `\x` and its two hexadecimal digits; all else stays.
pub open spec fn escaped_char(c: char) -> Seq<char> {
    if c == '\t' {
        seq!['\u{2192}', ' ', ' ', ' ']
    } else if c == '\r' {
        seq!['\\', 'r']
    } else if c == '\0' {
        seq!['\\', '0']
    } else if is_control(c) && c != '\n' {
        seq!['\\', 'x', hex_digit((c as u32) as int / 16), hex_digit((c as u32) as int % 16)]
    } else {
        seq![c]
    }
}

/// [`escaped_char`] applied to every character of `s`, the results joined.
pub open spec fn escaped(s: Seq<char>) -> Seq<char>
    decreases s.len(),
{
    if s.len() == 0 {
        Seq::<char>::empty()
    } else {
        escaped(s.drop_last()) + escaped_char(s.last())
    }
}

/// Appends what `c` is shown as.
pub fn push_escaped_char(out: &mut Vec<char>, c: char)
    ensures
        final(out)@ == old(out)@ + escaped_char(c),
{
    if c == '\t' {
        out.push('\u{2192}');
        out.push(' ');
        out.push(' ');
        out.push(' ');
        assert(out@ == old(out)@ + seq!['\u{2192}', ' ', ' ', ' ']);
    } else if c == '\r' {
        out.push('\\');
        out.push('r');
        assert(out@ == old(out)@ + seq!['\\', 'r']);
    } else if c == '\0' {
        out.push('\\');
        out.push('0');
        assert(out@ == old(out)@ + seq!['\\', '0']);
    } else if char_is_control(c) && c != '\n' {
        let code = c as u32;
        let high = hex_digit_char(code / 16);
        let low = hex_digit_char(code % 16);
        out.push('\\');
        out.push('x');
        out.push(high);
        out.push(low);
        assert(out@ == old(out)@ + seq!['\\', 'x', high, low]);
    } else {
        out.push(c);
        assert(out@ == old(out)@ + seq![c]);
    }
}

/// Rewrites control characters of `text` into visible escape sequences.
pub fn process_special_characters(text: &str) -> (result: String)
    ensures
        result@ == escaped(text@),
{
    let chars = to_chars(text);
    let mut out: Vec<char> = Vec::new();
    let mut i: usize = 0;
    while i < chars.len()
        invariant
            i <= chars.len(),
            out@ == escaped(chars@.take(i as int)),
        decreases chars.len() - i,
    {
        push_escaped_char(&mut out, chars[i]);
        proof {
            let next = chars@.take(i + 1);
            assert(next.drop_last() == chars@.take(i as int));
            assert(next.last() == chars@[i as int]);
        }
        i += 1;
    }
    assert(chars@.take(chars.len() as int) == chars@);
    from_chars(&out)
}

/// `s` in lower case, as `str::to_lowercase` gives it.
pub uninterp spec fn lowercase_of(s: Seq<char>) -> Seq<char>;

/// Calls `str::to_lowercase`, which maps each character by the Unicode
/// property `Lowercase`. The result is [`lowercase_of`] of the text.
#[verifier::external_body]
pub(crate) fn to_lowercase(s: &str) -> (lower: String)
    ensures
        lower@ == lowercase_of(s@),
{
    s.to_lowercase()
}

/// `s` in upper case, as `str::to_uppercase` gives it.
pub uninterp spec fn uppercase_of(s: Seq<char>) -> Seq<char>;

/// Calls `str::to_uppercase`, which maps each character by the Unicode
/// property `Uppercase`. The result is [`uppercase_of`] of the text.
#[verifier::external_body]
pub(crate) fn to_uppercase(s: &str) -> (upper: String)
    ensures
        upper@ == uppercase_of(s@),
{
    s.to_uppercase()
}

/// Whether two strings hold the same characters.
pub fn str_equals(a: &str, b: &str) -> (r: bool)
    ensures
        r == (a@ == b@),
{
    let x = to_chars(a);
    let y = to_chars(b);
    if x.len() != y.len() {
        return false;
    }
    let mut i: usize = 0;
    while i < x.len()
        invariant
            i <= x.len(),
            x.len() == y.len(),
            x@ == a@,
            y@ == b@,
            x@.take(i as int) == y@.take(i as int),
        decreases x.len() - i,
    {
        if x[i] != y[i] {
            assert(x@[i as int] != y@[i as int]);
            return false;
        }
        i += 1;
        assert(x@.take(i as int) == x@.take(i - 1).push(x@[i - 1]));
        assert(y@.take(i as int) == y@.take(i - 1).push(y@[i - 1]));
    }
    assert(x@.take(x.len() as int) == x@);
    assert(y@.take(y.len() as int) == y@);
    true
}

/// `s` without leading and trailing white space, as `str::trim` gives it.
pub uninterp spec fn trimmed_of(s: Seq<char>) -> Seq<char>;

/// Calls `str::trim`, which drops the leading and trailing characters that
/// have the Unicode property `White_Space`. The result is [`trimmed_of`] of
/// the text.
#[verifier::external_body]
pub(crate) fn trim(s: &str) -> (t: String)
    ensures
        t@ == trimmed_of(s@),
{
    s.trim().to_string()
}

/// The characters of `chars` from `from` up to, not including, `to`.
pub fn slice_to_string(chars: &Vec<char>, from: usize, to: usize) -> (out: String)
    requires
        from <= to <= chars.len(),
    ensures
        out@ == chars@.subrange(from as int, to as int),
{
    let mut out = String::new();
    let mut i: usize = from;
    while i < to
        invariant
            from <= i <= to,
            to <= chars.len(),
            out@ == chars@.subrange(from as int, i as int),
        decreases to - i,
    {
        out.push(chars[i]);
        i += 1;
        assert(out@ == chars@.subrange(from as int, i as int));
    }
    out
}

/// The position of the first line feed in `s`, or the length of `s` where it
/// holds none.
pub open spec fn first_line_feed(s: Seq<char>) -> int
    decreases s.len(),
{
    if s.len() == 0 || s[0] == '\n' {
        0
    } else {
        1 + first_line_feed(s.drop_first())
    }
}

/// `line` without the carriage return at its end, if it has one.
pub open spec fn without_carriage_return(line: Seq<char>) -> Seq<char> {
    if line.len() > 0 && line.last() == '\r' {
        line.drop_last()
    } else {
        line
    }
}

/// The lines of `s`, as `str::lines` cuts them: a line ends at a line feed,
/// or at a carriage return followed by one; the endings are not part of the
/// lines; text after the last line feed is a line of its own, unless it is
/// empty.
pub open spec fn lines_of(s: Seq<char>) -> Seq<Seq<char>>
    decreases s.len(),
{
    let n = first_line_feed(s);
    if s.len() == 0 {
        Seq::<Seq<char>>::empty()
    } else if n < 0 || n >= s.len() {
        seq![s]
    } else {
        seq![without_carriage_return(s.take(n))] + lines_of(s.skip(n + 1))
    }
}

/// Where the first line feed of `s` stands, given that none stands before `k`.
pub proof fn lemma_first_line_feed(s: Seq<char>, k: int)
    requires
        0 <= k <= s.len(),
        forall|j: int| 0 <= j < k ==> s[j] != '\n',
        k == s.len() || s[k] == '\n',
    ensures
        first_line_feed(s) == k,
    decreases k,
{
    if k > 0 {
        let rest = s.drop_first();
        assert forall|j: int| 0 <= j < k - 1 implies rest[j] != '\n' by {
            assert(rest[j] == s[j + 1]);
        }
        if k < s.len() {
            assert(rest[k - 1] == s[k]);
        }
        lemma_first_line_feed(rest, k - 1);
    }
}

/// The lines of `text`.
pub fn split_lines(text: &str) -> (lines: Vec<String>)
    ensures
        lines.deep_view() == lines_of(text@),
{
    let chars = to_chars(text);
    let mut lines: Vec<String> = Vec::new();
    let mut start: usize = 0;
    let mut pos: usize = 0;
    assert(chars@.skip(0) =~= chars@);
    assert(lines.deep_view() =~= Seq::<Seq<char>>::empty());
    while pos < chars.len()
        invariant
            start <= pos <= chars.len(),
            chars@ == text@,
            forall|j: int| start <= j < pos ==> chars@[j] != '\n',
            lines_of(chars@) == lines.deep_view() + lines_of(chars@.skip(start as int)),
        decreases chars.len() - pos,
    {
        if chars[pos] == '\n' {
            let mut end = pos;
            if end > start && chars[end - 1] == '\r' {
                end -= 1;
            }
            let line = slice_to_string(&chars, start, end);
            proof {
                let rest = chars@.skip(start as int);
                assert forall|j: int| 0 <= j < pos - start implies rest[j] != '\n' by {
                    assert(rest[j] == chars@[start + j]);
                }
                assert(rest[pos - start] == chars@[pos as int]);
                lemma_first_line_feed(rest, pos - start);
                assert(rest.take(pos - start) =~= chars@.subrange(start as int, pos as int));
                assert(rest.skip(pos - start + 1) =~= chars@.skip(pos + 1));
                let whole = chars@.subrange(start as int, pos as int);
                if end < pos {
                    assert(whole.last() == chars@[pos - 1]);
                    assert(whole.drop_last() =~= chars@.subrange(start as int, end as int));
                }
                assert(line@ == without_carriage_return(whole));
                assert(lines_of(rest) == seq![line@] + lines_of(chars@.skip(pos + 1)));
            }
            let ghost before = lines.deep_view();
            lines.push(line);
            proof {
                assert(lines.deep_view() =~= before.push(line@));
                assert(before + (seq![line@] + lines_of(chars@.skip(pos + 1))) =~= before.push(
                    line@,
                ) + lines_of(chars@.skip(pos + 1)));
            }
            start = pos + 1;
        }
        pos += 1;
    }
    if start < chars.len() {
        let line = slice_to_string(&chars, start, chars.len());
        proof {
            let rest = chars@.skip(start as int);
            assert forall|j: int| 0 <= j < rest.len() implies rest[j] != '\n' by {
                assert(rest[j] == chars@[start + j]);
            }
            lemma_first_line_feed(rest, rest.len() as int);
            assert(rest =~= chars@.subrange(start as int, chars.len() as int));
            assert(lines_of(rest) == seq![line@]);
        }
        let ghost before = lines.deep_view();
        lines.push(line);
        proof {
            assert(lines.deep_view() =~= before.push(line@));
            assert(before + seq![line@] =~= before.push(line@));
        }
    } else {
        proof {
            let rest = chars@.skip(start as int);
            assert(rest.len() == 0);
            assert(lines.deep_view() + lines_of(rest) =~= lines.deep_view());
        }
    }
    lines
}

/// Whether `a` comes before `b`, or equals it, in the order of `str`: the first
/// character in which they differ decides by its code point, and a proper prefix
/// comes first.
pub open spec fn lex_le(a: Seq<char>, b: Seq<char>) -> bool
    decreases a.len(),
{
    if a.len() == 0 {
        true
    } else if b.len() == 0 {
        false
    } else if (a[0] as u32) < (b[0] as u32) {
        true
    } else if (a[0] as u32) > (b[0] as u32) {
        false
    } else {
        lex_le(a.drop_first(), b.drop_first())
    }
}

/// Executable form of [`lex_le`].
pub fn chars_le(a: &Vec<char>, b: &Vec<char>) -> (r: bool)
    ensures
        r == lex_le(a@, b@),
{
    let mut i: usize = 0;
    assert(a@.skip(0) =~= a@ && b@.skip(0) =~= b@);
    while i < a.len() && i < b.len()
        invariant
            i <= a.len(),
            i <= b.len(),
            lex_le(a@, b@) == lex_le(a@.skip(i as int), b@.skip(i as int)),
        decreases a.len() - i,
    {
        let x = a[i] as u32;
        let y = b[i] as u32;
        proof {
            assert(a@.skip(i as int)[0] == a@[i as int]);
            assert(b@.skip(i as int)[0] == b@[i as int]);
            assert(a@.skip(i as int).drop_first() == a@.skip(i + 1));
            assert(b@.skip(i as int).drop_first() == b@.skip(i + 1));
        }
        if x < y {
            return true;
        }
        if x > y {
            return false;
        }
        i += 1;
    }
    i == a.len()
}

/// The order of `str` relates any two strings one way or the other.
pub proof fn lemma_lex_le_total(a: Seq<char>, b: Seq<char>)
    ensures
        lex_le(a, b) || lex_le(b, a),
    decreases a.len(),
{
    if a.len() > 0 && b.len() > 0 && (a[0] as u32) == (b[0] as u32) {
        lemma_lex_le_total(a.drop_first(), b.drop_first());
    }
}

/// The order of `str` is transitive.
pub proof fn lemma_lex_le_transitive(a: Seq<char>, b: Seq<char>, c: Seq<char>)
    requires
        lex_le(a, b),
        lex_le(b, c),
    ensures
        lex_le(a, c),
    decreases a.len(),
{
    if a.len() > 0 && b.len() > 0 && c.len() > 0 && (a[0] as u32) == (b[0] as u32) && (b[0] as u32)
        == (c[0] as u32) {
        lemma_lex_le_transitive(a.drop_first(), b.drop_first(), c.drop_first());
    }
}

/// Whether `needle` occurs in `hay` as a run of adjacent characters.
pub open spec fn contains_run(hay: Seq<char>, needle: Seq<char>) -> bool {
    exists|i: int|
        0 <= i && i + needle.len() <= hay.len() && #[trigger] hay.subrange(
            i,
            i + needle.len(),
        ) == needle
}

/// Whether `needle` stands in `hay` at position `at`.
pub fn matches_at(hay: &Vec<char>, needle: &Vec<char>, at: usize) -> (r: bool)
    requires
        at + needle.len() <= hay.len(),
    ensures
        r == (hay@.subrange(at as int, at + needle.len()) == needle@),
{
    let mut j: usize = 0;
    while j < needle.len()
        invariant
            j <= needle.len(),
            at + needle.len() <= hay.len(),
            hay@.subrange(at as int, at + j) == needle@.take(j as int),
        decreases needle.len() - j,
    {
        if hay[at + j] != needle[j] {
            proof {
                let window = hay@.subrange(at as int, at + needle.len());
                assert(window[j as int] == hay@[at + j]);
            }
            return false;
        }
        j += 1;
        assert(hay@.subrange(at as int, at + j) == needle@.take(j as int));
    }
    assert(needle@.take(needle.len() as int) == needle@);
    true
}

/// Executable form of [`contains_run`].
pub fn chars_contain(hay: &Vec<char>, needle: &Vec<char>) -> (r: bool)
    ensures
        r == contains_run(hay@, needle@),
{
    if needle.len() > hay.len() {
        return false;
    }
    if needle.len() == 0 {
        assert(hay@.subrange(0, 0 + needle.len()) =~= needle@);
        return true;
    }
    let last = hay.len() - needle.len();
    let mut i: usize = 0;
    while i <= last
        invariant
            i <= last + 1,
            last == hay.len() - needle.len(),
            0 < needle.len() <= hay.len(),
            forall|k: int|
                0 <= k < i ==> #[trigger] hay@.subrange(k, k + needle.len()) != needle@,
        decreases last + 1 - i,
    {
        if matches_at(hay, needle, i) {
            return true;
        }
        i += 1;
    }
    false
}

/// The first position from `from` on at which `needle` stands in `hay`, or
/// the length of `hay` and one more where it stands at none.
pub open spec fn next_match(hay: Seq<char>, needle: Seq<char>, from: int) -> int
    decreases hay.len() - from,
{
    if 0 <= from && from + needle.len() <= hay.len() {
        if hay.subrange(from, from + needle.len()) == needle || from >= hay.len() {
            from
        } else {
            next_match(hay, needle, from + 1)
        }
    } else {
        (hay.len() + 1) as int
    }
}

/// The first position from `from` on at which `needle` stands in `hay`, if it
/// stands at one.
pub fn find_run(hay: &Vec<char>, needle: &Vec<char>, from: usize) -> (at: Option<usize>)
    ensures
        match at {
            Some(i) => i == next_match(hay@, needle@, from as int) && from <= i && i
                + needle.len() <= hay.len(),
            None => next_match(hay@, needle@, from as int) == hay.len() + 1,
        },
{
    if needle.len() > hay.len() || from > hay.len() - needle.len() {
        return None;
    }
    if needle.len() == 0 {
        assert(hay@.subrange(from as int, from + needle.len()) =~= needle@);
        return Some(from);
    }
    let last = hay.len() - needle.len();
    let mut i: usize = from;
    while i <= last
        invariant
            from <= i <= last + 1,
            last == hay.len() - needle.len(),
            0 < needle.len() <= hay.len(),
            next_match(hay@, needle@, from as int) == next_match(hay@, needle@, i as int),
        decreases last + 1 - i,
    {
        if matches_at(hay, needle, i) {
            return Some(i);
        }
        if i == last {
            assert(next_match(hay@, needle@, i + 1) == hay.len() + 1);
            return None;
        }
        i += 1;
    }
    None
}

} // verus!
