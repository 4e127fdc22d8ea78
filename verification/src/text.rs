//! Character-level reading and writing: spans of a character sequence,
//! trimming, splitting, unsigned decimal numbers and hexadecimal digits.
//!
//! A span is a pair of positions `(from, end)` into a sequence of characters,
//! `from` included and `end` excluded.

use vstd::prelude::*;
use vstd::string::*;

verus! {

/// Whether a character is white space: a tab, a line feed, a vertical tab, a
/// form feed, a carriage return, a space, a next line, a no-break space, an
/// ogham space mark, one of the spaces from the en quad to the hair space, a
/// line separator, a paragraph separator, a narrow no-break space, a medium
/// mathematical space or an ideographic space. These are the characters with
/// the Unicode property White_Space.
pub open spec fn has_white_space_property(c: char) -> bool {
    let u = c as u32;
    ||| 0x09 <= u <= 0x0d
    ||| u == 0x20
    ||| u == 0x85
    ||| u == 0xa0
    ||| u == 0x1680
    ||| 0x2000 <= u <= 0x200a
    ||| u == 0x2028
    ||| u == 0x2029
    ||| u == 0x202f
    ||| u == 0x205f
    ||| u == 0x3000
}

/// Whether a character is white space.
pub fn is_white_space(c: char) -> (r: bool)
    ensures
        r == has_white_space_property(c),
{
    let u: u32 = c as u32;
    (0x09 <= u && u <= 0x0d) || u == 0x20 || u == 0x85 || u == 0xa0 || u == 0x1680 || (0x2000 <= u
        && u <= 0x200a) || u == 0x2028 || u == 0x2029 || u == 0x202f || u == 0x205f || u == 0x3000
}

/// What `{:?}` of the standard library writes for the string `s`.
pub uninterp spec fn debug_text(s: Seq<char>) -> Seq<char>;

/// Formats a string slice with `{:?}`, the standard library's `Debug` for
/// `str`: the text between double quotes, with escapes. The contract gives the
/// outcome a name and claims nothing more of it.
#[verifier::external_body]
pub(crate) fn debug_quote(s: &str) -> (r: String)
    ensures
        r@ == debug_text(s@),
{
    format!("{:?}", s)
}

/// A set of characters to strip from the ends of a span.
#[derive(Clone, Copy, Debug, PartialEq, Eq)]
pub enum CharClass {
    /// The characters that are white space.
    WhiteSpace,
    /// One character.
    Exactly(char),
}

impl CharClass {
    /// Whether `c` belongs to the class.
    pub open spec fn holds(self, c: char) -> bool {
        match self {
            CharClass::WhiteSpace => has_white_space_property(c),
            CharClass::Exactly(x) => c == x,
        }
    }

    /// Whether `c` belongs to the class.
    pub fn test(&self, c: char) -> (r: bool)
        ensures
            r == self.holds(c),
    {
        match self {
            CharClass::WhiteSpace => is_white_space(c),
            CharClass::Exactly(x) => c == *x,
        }
    }
}

/// The first position from `from` on, below `end`, whose character is outside
/// the class; `end` where there is none.
pub open spec fn skip_front(s: Seq<char>, class: CharClass, from: int, end: int) -> int
    decreases end - from,
{
    if 0 <= from < end && from < s.len() && class.holds(s[from]) {
        skip_front(s, class, from + 1, end)
    } else {
        from
    }
}

/// The end of the span left when the characters of the class are taken off the
/// back of `(from, end)`.
pub open spec fn skip_back(s: Seq<char>, class: CharClass, from: int, end: int) -> int
    decreases end - from,
{
    if 0 <= from < end && end <= s.len() && class.holds(s[end - 1]) {
        skip_back(s, class, from, end - 1)
    } else {
        end
    }
}

/// The span `(from, end)` without the characters of the class at its front.
pub open spec fn trim_front_span(s: Seq<char>, class: CharClass, span: (int, int)) -> (int, int) {
    (skip_front(s, class, span.0, span.1), span.1)
}

/// The span `(from, end)` without the characters of the class at either end.
pub open spec fn trim_span(s: Seq<char>, class: CharClass, span: (int, int)) -> (int, int) {
    let from = skip_front(s, class, span.0, span.1);
    (from, skip_back(s, class, from, span.1))
}

/// The characters that a span covers.
pub open spec fn span_text(s: Seq<char>, span: (int, int)) -> Seq<char> {
    s.subrange(span.0, span.1)
}

/// Whether a span lies inside a sequence of `len` characters.
pub open spec fn span_within(span: (int, int), len: int) -> bool {
    0 <= span.0 <= span.1 <= len
}

/// A trimmed span lies inside the span it came from, everything cut off is of
/// the class, and what is left neither begins nor ends with a character of the
/// class.
pub proof fn lemma_trim_span(s: Seq<char>, class: CharClass, span: (int, int))
    requires
        span_within(span, s.len() as int),
    ensures
        ({
            let t = trim_span(s, class, span);
            &&& span.0 <= t.0 <= t.1 <= span.1
            &&& forall|i: int| span.0 <= i < t.0 ==> class.holds(#[trigger] s[i])
            &&& forall|i: int| t.1 <= i < span.1 ==> class.holds(#[trigger] s[i])
            &&& t.0 < t.1 ==> !class.holds(s[t.0]) && !class.holds(s[t.1 - 1])
        }),
{
    lemma_skip_front(s, class, span.0, span.1);
    let from = skip_front(s, class, span.0, span.1);
    lemma_skip_back(s, class, from, span.1);
}

proof fn lemma_skip_front(s: Seq<char>, class: CharClass, from: int, end: int)
    requires
        0 <= from <= end <= s.len(),
    ensures
        from <= skip_front(s, class, from, end) <= end,
        forall|i: int| from <= i < skip_front(s, class, from, end) ==> class.holds(#[trigger] s[i]),
        skip_front(s, class, from, end) < end ==> !class.holds(s[skip_front(s, class, from, end)]),
    decreases end - from,
{
    if from < end && class.holds(s[from]) {
        lemma_skip_front(s, class, from + 1, end);
    }
}

proof fn lemma_skip_back(s: Seq<char>, class: CharClass, from: int, end: int)
    requires
        0 <= from <= end <= s.len(),
    ensures
        from <= skip_back(s, class, from, end) <= end,
        forall|i: int| skip_back(s, class, from, end) <= i < end ==> class.holds(#[trigger] s[i]),
        from < skip_back(s, class, from, end) ==> !class.holds(s[skip_back(s, class, from, end) - 1]),
    decreases end - from,
{
    if from < end && class.holds(s[end - 1]) {
        lemma_skip_back(s, class, from, end - 1);
    }
}

/// The characters of a string slice, one by one.
pub fn to_chars(s: &str) -> (v: Vec<char>)
    ensures
        v@ == s@,
{
    let mut v: Vec<char> = Vec::new();
    let n: usize = s.unicode_len();
    let mut i: usize = 0;
    while i < n
        invariant
            n == s@.len(),
            i <= n,
            v@ == s@.take(i as int),
        decreases n - i,
    {
        v.push(s.get_char(i));
        i = i + 1;
        assert(s@.take(i as int) == s@.take(i - 1).push(s@[i - 1]));
    }
    assert(s@.take(n as int) == s@);
    v
}

/// Takes the characters of the class off the front of a span.
pub fn trim_front(chars: &Vec<char>, class: &CharClass, span: (usize, usize)) -> (r: (usize, usize))
    requires
        span.0 <= span.1 <= chars.len(),
    ensures
        (r.0 as int, r.1 as int) == trim_front_span(chars@, *class, (span.0 as int, span.1 as int)),
        span.0 <= r.0 <= r.1 == span.1,
{
    let mut from: usize = span.0;
    while from < span.1 && class.test(chars[from])
        invariant
            span.0 <= from <= span.1 <= chars.len(),
            skip_front(chars@, *class, span.0 as int, span.1 as int) == skip_front(
                chars@,
                *class,
                from as int,
                span.1 as int,
            ),
        decreases span.1 - from,
    {
        from = from + 1;
    }
    (from, span.1)
}

/// Takes the characters of the class off both ends of a span.
pub fn trim(chars: &Vec<char>, class: &CharClass, span: (usize, usize)) -> (r: (usize, usize))
    requires
        span.0 <= span.1 <= chars.len(),
    ensures
        (r.0 as int, r.1 as int) == trim_span(chars@, *class, (span.0 as int, span.1 as int)),
        span.0 <= r.0 <= r.1 <= span.1,
{
    let front = trim_front(chars, class, span);
    let from: usize = front.0;
    let mut end: usize = span.1;
    while from < end && class.test(chars[end - 1])
        invariant
            from <= end <= span.1 <= chars.len(),
            skip_back(chars@, *class, from as int, span.1 as int) == skip_back(
                chars@,
                *class,
                from as int,
                end as int,
            ),
        decreases end - from,
    {
        end = end - 1;
    }
    (from, end)
}

/// Whether a span of `chars` spells `word`.
pub fn span_is(chars: &Vec<char>, span: (usize, usize), word: &str) -> (r: bool)
    requires
        span.0 <= span.1 <= chars.len(),
    ensures
        r == (span_text(chars@, (span.0 as int, span.1 as int)) == word@),
{
    let n: usize = word.unicode_len();
    if span.1 - span.0 != n {
        return false;
    }
    let ghost text = span_text(chars@, (span.0 as int, span.1 as int));
    let mut i: usize = 0;
    while i < n
        invariant
            span.0 <= span.1 <= chars.len(),
            n == word@.len(),
            n == span.1 - span.0,
            i <= n,
            text == chars@.subrange(span.0 as int, span.1 as int),
            forall|j: int| 0 <= j < i ==> text[j] == word@[j],
        decreases n - i,
    {
        if chars[span.0 + i] != word.get_char(i) {
            assert(text[i as int] != word@[i as int]);
            return false;
        }
        i = i + 1;
    }
    assert(text =~= word@);
    true
}

/// The first position from `from` on at which `sep` begins inside
/// `(from, end)`; `end` where it begins nowhere.
pub open spec fn find_sep(s: Seq<char>, sep: Seq<char>, from: int, end: int) -> int
    decreases end - from,
{
    if 0 <= from < end && from + sep.len() <= end && end <= s.len() {
        if s.subrange(from, from + sep.len()) == sep {
            from
        } else {
            find_sep(s, sep, from + 1, end)
        }
    } else {
        end
    }
}

/// The spans of the first two pieces into which `sep` cuts `s`, or `None` where
/// `sep` does not occur. Pieces after the second are not looked at.
pub open spec fn first_two_pieces(s: Seq<char>, sep: Seq<char>) -> Option<((int, int), (int, int))> {
    let len = s.len() as int;
    let cut = find_sep(s, sep, 0, len);
    if cut >= len {
        None
    } else {
        Some(((0, cut), (cut + sep.len(), find_sep(s, sep, cut + sep.len(), len))))
    }
}

/// The separator begins at the position found, and at no earlier one.
pub proof fn lemma_find_sep(s: Seq<char>, sep: Seq<char>, from: int, end: int)
    requires
        0 <= from <= end <= s.len(),
        sep.len() > 0,
    ensures
        ({
            let cut = find_sep(s, sep, from, end);
            &&& from <= cut <= end
            &&& cut < end ==> cut + sep.len() <= end && s.subrange(cut, cut + sep.len()) == sep
            &&& forall|i: int|
                from <= i < cut && i + sep.len() <= end ==> #[trigger] s.subrange(i, i + sep.len())
                    != sep
        }),
    decreases end - from,
{
    if from + sep.len() <= end {
        if s.subrange(from, from + sep.len()) != sep {
            lemma_find_sep(s, sep, from + 1, end);
        }
    }
}

/// Finds where `sep` first begins inside a span.
pub fn find(chars: &Vec<char>, sep: &str, from: usize, end: usize) -> (r: usize)
    requires
        from <= end <= chars.len(),
        sep@.len() > 0,
    ensures
        r == find_sep(chars@, sep@, from as int, end as int),
        from <= r <= end,
{
    let n: usize = sep.unicode_len();
    let mut i: usize = from;
    while n <= end - i
        invariant
            from <= i <= end <= chars.len(),
            n == sep@.len(),
            n > 0,
            find_sep(chars@, sep@, from as int, end as int) == find_sep(
                chars@,
                sep@,
                i as int,
                end as int,
            ),
        decreases end - i,
    {
        if span_is(chars, (i, i + n), sep) {
            return i;
        }
        i = i + 1;
    }
    end
}

/// Cuts `chars` at `sep` and gives the spans of the first two pieces.
pub fn split_two(chars: &Vec<char>, sep: &str) -> (r: Option<((usize, usize), (usize, usize))>)
    requires
        sep@.len() > 0,
    ensures
        match (r, first_two_pieces(chars@, sep@)) {
            (Some(p), Some(q)) => {
                &&& p.0.0 == q.0.0
                &&& p.0.1 == q.0.1
                &&& p.1.0 == q.1.0
                &&& p.1.1 == q.1.1
                &&& p.0.0 <= p.0.1 <= p.1.0 <= p.1.1 <= chars.len()
            },
            (None, None) => true,
            _ => false,
        },
{
    let len: usize = chars.len();
    let n: usize = sep.unicode_len();
    let cut = find(chars, sep, 0, len);
    if cut >= len {
        None
    } else {
        proof {
            lemma_find_sep(chars@, sep@, 0, len as int);
        }
        let second = find(chars, sep, cut + n, len);
        Some(((0, cut), (cut + n, second)))
    }
}

/// Whether `c` is a decimal digit.
pub open spec fn is_digit(c: char) -> bool {
    '0' <= c <= '9'
}

/// The number that a decimal digit stands for.
pub open spec fn digit_value(c: char) -> nat {
    (c as u32 - '0' as u32) as nat
}

/// The number that a sequence of decimal digits spells.
pub open spec fn decimal_value(s: Seq<char>) -> nat
    decreases s.len(),
{
    if s.len() == 0 {
        0
    } else {
        decimal_value(s.drop_last()) * 10 + digit_value(s.last())
    }
}

/// The text of an unsigned number without its optional plus sign.
pub open spec fn unsigned_digits(s: Seq<char>) -> Seq<char> {
    if s.len() > 0 && s[0] == '+' {
        s.skip(1)
    } else {
        s
    }
}

/// The unsigned number that `s` spells: an optional plus sign, then one or
/// more decimal digits and nothing else, with a value of at most `max`.
pub open spec fn parse_unsigned(s: Seq<char>, max: nat) -> Option<nat> {
    let digits = unsigned_digits(s);
    if digits.len() > 0 && (forall|i: int| 0 <= i < digits.len() ==> is_digit(#[trigger] digits[i]))
        && decimal_value(digits) <= max {
        Some(decimal_value(digits))
    } else {
        None
    }
}

/// A longer run of digits never spells a smaller number than its beginning.
proof fn lemma_decimal_value_grows(s: Seq<char>, i: int)
    requires
        0 <= i <= s.len(),
    ensures
        decimal_value(s.take(i)) <= decimal_value(s),
    decreases s.len(),
{
    if i == s.len() {
        assert(s.take(i) == s);
    } else {
        lemma_decimal_value_grows(s.drop_last(), i);
        assert(s.drop_last().take(i) == s.take(i));
    }
}

/// Reads an unsigned decimal number of at most `max`.
pub fn parse_bounded(chars: &Vec<char>, max: u64) -> (r: Option<u64>)
    ensures
        match parse_unsigned(chars@, max as nat) {
            Some(v) => r == Some(v as u64),
            None => r is None,
        },
{
    let len: usize = chars.len();
    let start: usize = if len > 0 && chars[0] == '+' {
        1
    } else {
        0
    };
    let ghost digits = unsigned_digits(chars@);
    assert(digits == chars@.skip(start as int));
    if start == len {
        return None;
    }
    let mut value: u64 = 0;
    let mut i: usize = start;
    while i < len
        invariant
            start <= i <= len,
            len == chars.len(),
            digits == unsigned_digits(chars@),
            digits == chars@.skip(start as int),
            forall|j: int| 0 <= j < i - start ==> is_digit(#[trigger] digits[j]),
            value == decimal_value(digits.take(i - start)),
            value <= max,
        decreases len - i,
    {
        let c: char = chars[i];
        assert(digits[i - start] == c);
        if !(c >= '0' && c <= '9') {
            assert(!is_digit(digits[i - start]));
            return None;
        }
        let d: u64 = (c as u32 - '0' as u32) as u64;
        let ghost next = digits.take(i - start + 1);
        assert(next.drop_last() == digits.take(i - start));
        assert(next.last() == c);
        assert(decimal_value(next) == value * 10 + d);
        if d > max || value > (max - d) / 10 {
            proof {
                lemma_decimal_value_grows(digits, i - start + 1);
            }
            return None;
        }
        value = value * 10 + d;
        i = i + 1;
    }
    assert(digits.take(len - start) == digits);
    Some(value)
}

/// The number that a hexadecimal digit stands for, in either case.
pub open spec fn hex_value(c: char) -> Option<u8> {
    if '0' <= c <= '9' {
        Some((c as u32 - '0' as u32) as u8)
    } else if 'a' <= c <= 'f' {
        Some((c as u32 - 'a' as u32 + 10) as u8)
    } else if 'A' <= c <= 'F' {
        Some((c as u32 - 'A' as u32 + 10) as u8)
    } else {
        None
    }
}

/// The number that a hexadecimal digit stands for, in either case.
pub fn hex_digit(c: char) -> (r: Option<u8>)
    ensures
        r == hex_value(c),
        r matches Some(v) ==> v < 16,
{
    if c >= '0' && c <= '9' {
        Some((c as u32 - '0' as u32) as u8)
    } else if c >= 'a' && c <= 'f' {
        Some((c as u32 - 'a' as u32 + 10) as u8)
    } else if c >= 'A' && c <= 'F' {
        Some((c as u32 - 'A' as u32 + 10) as u8)
    } else {
        None
    }
}

/// The byte that two hexadecimal digits spell.
pub open spec fn hex_pair_value(high: char, low: char) -> Option<u8> {
    match (hex_value(high), hex_value(low)) {
        (Some(h), Some(l)) => Some((h * 16 + l) as u8),
        _ => None,
    }
}

/// Reads the byte that the two hexadecimal digits at `at` spell.
pub fn hex_pair(chars: &Vec<char>, at: usize) -> (r: Option<u8>)
    requires
        at + 2 <= chars.len(),
    ensures
        r == hex_pair_value(chars@[at as int], chars@[at + 1]),
{
    match (hex_digit(chars[at]), hex_digit(chars[at + 1])) {
        (Some(h), Some(l)) => Some(h * 16 + l),
        _ => None,
    }
}

/// The character of a decimal digit.
pub open spec fn digit_char(d: nat) -> char {
    if d == 0 {
        '0'
    } else if d == 1 {
        '1'
    } else if d == 2 {
        '2'
    } else if d == 3 {
        '3'
    } else if d == 4 {
        '4'
    } else if d == 5 {
        '5'
    } else if d == 6 {
        '6'
    } else if d == 7 {
        '7'
    } else if d == 8 {
        '8'
    } else {
        '9'
    }
}

/// The decimal digits of `n`, most significant first, without leading zeros.
pub open spec fn decimal_text(n: nat) -> Seq<char>
    decreases n,
{
    if n < 10 {
        seq![digit_char(n)]
    } else {
        decimal_text(n / 10).push(digit_char(n % 10))
    }
}

fn digit_str(d: u64) -> (r: &'static str)
    requires
        d < 10,
    ensures
        r@ == seq![digit_char(d as nat)],
{
    proof {
        reveal_strlit("0");
        reveal_strlit("1");
        reveal_strlit("2");
        reveal_strlit("3");
        reveal_strlit("4");
        reveal_strlit("5");
        reveal_strlit("6");
        reveal_strlit("7");
        reveal_strlit("8");
        reveal_strlit("9");
    }
    let r = if d == 0 {
        "0"
    } else if d == 1 {
        "1"
    } else if d == 2 {
        "2"
    } else if d == 3 {
        "3"
    } else if d == 4 {
        "4"
    } else if d == 5 {
        "5"
    } else if d == 6 {
        "6"
    } else if d == 7 {
        "7"
    } else if d == 8 {
        "8"
    } else {
        "9"
    };
    assert(r@ =~= seq![digit_char(d as nat)]);
    r
}

/// Writes `n` in decimal at the end of `out`.
pub fn append_decimal(out: &mut String, n: u64)
    ensures
        final(out)@ == old(out)@ + decimal_text(n as nat),
    decreases n,
{
    if n >= 10 {
        append_decimal(out, n / 10);
    }
    out.append(digit_str(n % 10));
    assert(out@ =~= old(out)@ + decimal_text(n as nat));
}

/// The text of `n` in decimal.
pub fn decimal_string(n: u64) -> (r: String)
    ensures
        r@ == decimal_text(n as nat),
{
    let mut out = String::new();
    append_decimal(&mut out, n);
    assert(out@ =~= decimal_text(n as nat));
    out
}

} // verus!
