//! Text handling on bytes and characters: what a subprocess wrote is bytes,
//! what is shown and compared is text.

use vstd::prelude::*;
use vstd::utf8::{
    decode_utf8, encode_utf8, encode_utf8_decode_utf8, encode_utf8_valid_utf8,
    is_ascii_chars_encode_utf8, valid_utf8,
};

verus! {

/// The lower-case form of one byte: the ASCII capitals move to their small
/// letters, every other byte stays.
pub open spec fn lower_byte(b: u8) -> u8 {
    if 0x41 <= b <= 0x5a {
        (b + 0x20) as u8
    } else {
        b
    }
}

/// A byte string with each byte in lower case.
pub open spec fn lower_bytes(s: Seq<u8>) -> Seq<u8> {
    Seq::new(s.len(), |i: int| lower_byte(s[i]))
}

/// Copies `bytes` with the ASCII capitals replaced by their small letters.
pub fn ascii_lowercase(bytes: &[u8]) -> (out: Vec<u8>)
    ensures
        out@ == lower_bytes(bytes@),
{
    let mut out: Vec<u8> = Vec::new();
    let mut i: usize = 0;
    while i < bytes.len()
        invariant
            i <= bytes.len(),
            out@ == lower_bytes(bytes@.take(i as int)),
        decreases bytes.len() - i,
    {
        let b: u8 = bytes[i];
        let low: u8 = if 0x41 <= b && b <= 0x5a {
            b + 0x20
        } else {
            b
        };
        out.push(low);
        i += 1;
    }
    out
}

/// The lower-case form of one character: the ASCII capitals move to their
/// small letters, every other character stays.
pub open spec fn lower_char(c: char) -> char {
    if 'A' <= c <= 'Z' {
        ((c as u8) + 0x20) as char
    } else {
        c
    }
}

/// A text with each character in lower case.
pub open spec fn lower_chars(s: Seq<char>) -> Seq<char> {
    Seq::new(s.len(), |i: int| lower_char(s[i]))
}

/// Copies `s` with the ASCII capitals replaced by their small letters.
pub fn lowercase(s: &str) -> (out: String)
    ensures
        out@ == lower_chars(s@),
{
    let chars = chars_of(s);
    let mut out = String::new();
    let mut i: usize = 0;
    while i < chars.len()
        invariant
            i <= chars.len(),
            out@ == lower_chars(chars@.take(i as int)),
        decreases chars.len() - i,
    {
        let c: char = chars[i];
        let low: char = if 'A' <= c && c <= 'Z' {
            ((c as u8) + 0x20) as char
        } else {
            c
        };
        push_char(&mut out, low);
        i += 1;
    }
    out
}

/// The text that `String::from_utf8_lossy` makes of a byte string: the
/// bytes read as UTF-8, with U+FFFD in place of every sequence that is not
/// valid.
pub uninterp spec fn utf8_lossy(bytes: Seq<u8>) -> Seq<char>;

/// Calls `String::from_utf8_lossy`. The result is a function of the bytes
/// and is named as such; of bytes that are valid UTF-8 it is the text that
/// they encode. Where and how often U+FFFD is put for other bytes is not
/// stated.
#[verifier::external_body]
pub(crate) fn lossy_text(bytes: &[u8]) -> (text: String)
    ensures
        text@ == utf8_lossy(bytes@),
        valid_utf8(bytes@) ==> text@ == decode_utf8(bytes@),
{
    String::from_utf8_lossy(bytes).into_owned()
}

/// The text that a byte string stands for: the text that it encodes where
/// it is valid UTF-8, and that text with U+FFFD for what is not valid
/// elsewhere.
pub open spec fn decoded(bytes: Seq<u8>) -> Seq<char> {
    if valid_utf8(bytes) {
        decode_utf8(bytes)
    } else {
        utf8_lossy(bytes)
    }
}

/// Reads a byte string as text; what is not valid UTF-8 in it becomes
/// U+FFFD.
pub fn decode(bytes: &[u8]) -> (text: String)
    ensures
        text@ == decoded(bytes@),
{
    lossy_text(bytes)
}

/// The ASCII bytes that show on a terminal and are not blank.
pub open spec fn is_graphic(b: u8) -> bool {
    0x21 <= b <= 0x7e
}

/// The characters whose numbers the bytes are, one for each byte.
pub open spec fn as_chars(bytes: Seq<u8>) -> Seq<char> {
    Seq::new(bytes.len(), |i: int| bytes[i] as char)
}

/// Bytes below 128 are read one by one, each as the character of its
/// number.
pub proof fn lemma_decoded_ascii(bytes: Seq<u8>)
    requires
        forall|i: int| 0 <= i < bytes.len() ==> bytes[i] < 0x80,
    ensures
        valid_utf8(bytes),
        decoded(bytes) == as_chars(bytes),
{
    let chars = as_chars(bytes);
    is_ascii_chars_encode_utf8(chars);
    assert(encode_utf8(chars) =~= bytes);
    encode_utf8_valid_utf8(chars);
    encode_utf8_decode_utf8(chars);
}

/// Calls `String::push`: the character is appended, nothing else changes.
#[verifier::external_body]
pub(crate) fn push_char(text: &mut String, c: char)
    ensures
        final(text)@ == old(text)@.push(c),
{
    text.push(c)
}

/// The characters of a string, one element each.
pub fn chars_of(s: &str) -> (out: Vec<char>)
    ensures
        out@ == s@,
{
    let mut out: Vec<char> = Vec::new();
    let it = s.chars();
    for c in iter: it
        invariant
            iter.seq() == s@,
            out@ == s@.take(iter.index() as int),
    {
        out.push(c);
    }
    out
}

/// Appends the characters `chars[from..to]` to `text`.
pub fn append_chars(text: &mut String, chars: &Vec<char>, from: usize, to: usize)
    requires
        from <= to <= chars.len(),
    ensures
        final(text)@ == old(text)@ + chars@.subrange(from as int, to as int),
{
    let mut i: usize = from;
    while i < to
        invariant
            from <= i <= to <= chars.len(),
            text@ == old(text)@ + chars@.subrange(from as int, i as int),
        decreases to - i,
    {
        push_char(text, chars[i]);
        i += 1;
    }
}

/// The string made of the characters `chars[from..to]`.
pub fn text_of(chars: &Vec<char>, from: usize, to: usize) -> (text: String)
    requires
        from <= to <= chars.len(),
    ensures
        text@ == chars@.subrange(from as int, to as int),
{
    let mut text = String::new();
    append_chars(&mut text, chars, from, to);
    text
}

/// White space in the sense of Unicode's `White_Space` property.
pub open spec fn is_space(c: char) -> bool {
    let n = c as u32;
    ||| 0x09 <= n <= 0x0d
    ||| n == 0x20
    ||| n == 0x85
    ||| n == 0xa0
    ||| n == 0x1680
    ||| 0x2000 <= n <= 0x200a
    ||| n == 0x2028
    ||| n == 0x2029
    ||| n == 0x202f
    ||| n == 0x205f
    ||| n == 0x3000
}

/// Tells whether a character is white space.
pub fn char_is_space(c: char) -> (b: bool)
    ensures
        b == is_space(c),
{
    let n: u32 = c as u32;
    (0x09 <= n && n <= 0x0d) || n == 0x20 || n == 0x85 || n == 0xa0 || n == 0x1680 || (0x2000 <= n
        && n <= 0x200a) || n == 0x2028 || n == 0x2029 || n == 0x202f || n == 0x205f || n == 0x3000
}

/// A text without the white space it starts with.
pub open spec fn trim_start(s: Seq<char>) -> Seq<char>
    decreases s.len(),
{
    if s.len() > 0 && is_space(s.first()) {
        trim_start(s.drop_first())
    } else {
        s
    }
}

/// A text without the white space it ends with.
pub open spec fn trim_end(s: Seq<char>) -> Seq<char>
    decreases s.len(),
{
    if s.len() > 0 && is_space(s.last()) {
        trim_end(s.drop_last())
    } else {
        s
    }
}

/// A text without the white space at either end.
pub open spec fn trimmed(s: Seq<char>) -> Seq<char> {
    trim_end(trim_start(s))
}

/// Removes the white space at both ends of `s`.
pub fn trim(s: &str) -> (out: String)
    ensures
        out@ == trimmed(s@),
{
    let chars = chars_of(s);
    let n: usize = chars.len();
    let mut from: usize = 0;
    assert(chars@.skip(0) =~= chars@);
    while from < n && char_is_space(chars[from])
        invariant
            from <= n == chars.len(),
            trim_start(chars@) == trim_start(chars@.skip(from as int)),
        decreases n - from,
    {
        assert(chars@.skip(from as int).drop_first() =~= chars@.skip(from as int + 1));
        from += 1;
    }
    let mut to: usize = n;
    while to > from && char_is_space(chars[to - 1])
        invariant
            from <= to <= n == chars.len(),
            trim_end(chars@.subrange(from as int, n as int)) == trim_end(
                chars@.subrange(from as int, to as int),
            ),
        decreases to,
    {
        assert(chars@.subrange(from as int, to as int).drop_last() =~= chars@.subrange(
            from as int,
            to as int - 1,
        ));
        to -= 1;
    }
    text_of(&chars, from, to)
}

/// Lower case on bytes below 128 is lower case on the characters that they
/// are.
pub proof fn lemma_lower_ascii(bytes: Seq<u8>)
    requires
        forall|i: int| 0 <= i < bytes.len() ==> bytes[i] < 0x80,
    ensures
        lower_chars(as_chars(bytes)) == as_chars(lower_bytes(bytes)),
{
}

/// A text without white space in it, followed by a line feed, is trimmed to
/// that text.
pub proof fn lemma_trimmed_line(s: Seq<char>)
    requires
        forall|i: int| 0 <= i < s.len() ==> !is_space(s[i]),
    ensures
        trimmed(s.push('\n')) == s,
{
    let line = s.push('\n');
    assert(line.drop_last() =~= s);
    assert(trim_start(s) == s);
    assert(trim_end(s) == s);
    if s.len() == 0 {
        assert(line.drop_first() =~= s);
    }
}

/// The digit of `n` in base sixteen, with small letters.
pub open spec fn hex_digit(n: u8) -> char
    recommends
        n < 16,
{
    if n < 10 {
        (0x30 + n) as char
    } else {
        (0x61 + (n - 10)) as char
    }
}

/// One byte written so that it can be read on a terminal: a printable ASCII
/// byte stands for itself, tab, carriage return, line feed, the two quotes
/// and the backslash take a backslash before them, and every other byte is
/// written as `\x` and two hexadecimal digits.
pub open spec fn escaped_byte(b: u8) -> Seq<char> {
    if b == 0x09 {
        seq!['\\', 't']
    } else if b == 0x0d {
        seq!['\\', 'r']
    } else if b == 0x0a {
        seq!['\\', 'n']
    } else if b == 0x27 {
        seq!['\\', '\'']
    } else if b == 0x22 {
        seq!['\\', '"']
    } else if b == 0x5c {
        seq!['\\', '\\']
    } else if 0x20 <= b <= 0x7e {
        seq![b as char]
    } else {
        seq!['\\', 'x', hex_digit(b / 16), hex_digit(b % 16)]
    }
}

/// A byte string written byte by byte as `escaped_byte` says.
pub open spec fn escaped(s: Seq<u8>) -> Seq<char>
    decreases s.len(),
{
    if s.len() == 0 {
        Seq::empty()
    } else {
        escaped(s.drop_last()) + escaped_byte(s.last())
    }
}

/// The bytes that are written as they are: the printable ASCII bytes but
/// the two quotes and the backslash.
pub open spec fn is_plain(b: u8) -> bool {
    0x20 <= b <= 0x7e && b != 0x22 && b != 0x27 && b != 0x5c
}

/// A byte string of plain bytes is written as it is.
pub proof fn lemma_escaped_plain(bytes: Seq<u8>)
    requires
        forall|i: int| 0 <= i < bytes.len() ==> is_plain(bytes[i]),
    ensures
        escaped(bytes) == as_chars(bytes),
    decreases bytes.len(),
{
    if bytes.len() > 0 {
        lemma_escaped_plain(bytes.drop_last());
    }
}

fn hex_digit_of(n: u8) -> (c: char)
    requires
        n < 16,
    ensures
        c == hex_digit(n),
{
    if n < 10 {
        (0x30 + n) as char
    } else {
        (0x61 + (n - 10)) as char
    }
}

fn push_escaped_byte(text: &mut String, b: u8)
    ensures
        final(text)@ == old(text)@ + escaped_byte(b),
{
    if b == 0x09 {
        push_char(text, '\\');
        push_char(text, 't');
    } else if b == 0x0d {
        push_char(text, '\\');
        push_char(text, 'r');
    } else if b == 0x0a {
        push_char(text, '\\');
        push_char(text, 'n');
    } else if b == 0x27 {
        push_char(text, '\\');
        push_char(text, '\'');
    } else if b == 0x22 {
        push_char(text, '\\');
        push_char(text, '"');
    } else if b == 0x5c {
        push_char(text, '\\');
        push_char(text, '\\');
    } else if 0x20 <= b && b <= 0x7e {
        push_char(text, b as char);
    } else {
        push_char(text, '\\');
        push_char(text, 'x');
        push_char(text, hex_digit_of(b / 16));
        push_char(text, hex_digit_of(b % 16));
    }
}

/// Writes `bytes` as text that shows every byte: see `escaped_byte`.
pub fn escape_ascii(bytes: &[u8]) -> (out: String)
    ensures
        out@ == escaped(bytes@),
{
    let mut out = String::new();
    let mut i: usize = 0;
    while i < bytes.len()
        invariant
            i <= bytes.len(),
            out@ == escaped(bytes@.take(i as int)),
        decreases bytes.len() - i,
    {
        push_escaped_byte(&mut out, bytes[i]);
        assert(bytes@.take(i as int + 1).drop_last() =~= bytes@.take(i as int));
        i += 1;
    }
    assert(bytes@.take(i as int) =~= bytes@);
    out
}

/// Where the first line of a text ends: the place of its first line feed, or
/// its length where it has none.
pub open spec fn line_end(s: Seq<char>) -> int
    decreases s.len(),
{
    if s.len() == 0 || s.first() == '\n' {
        0
    } else {
        1 + line_end(s.drop_first())
    }
}

/// What stands before a line feed, without the carriage return that may
/// end it.
pub open spec fn without_cr(s: Seq<char>) -> Seq<char> {
    if s.len() > 0 && s.last() == '\r' {
        s.drop_last()
    } else {
        s
    }
}

/// The lines of a text. A line ends at a line feed or at the end of the
/// text; the line feed, and a carriage return right before it, belong to no
/// line. A carriage return anywhere else stays, also one at the very end of
/// a text that no line feed ends. A text that ends with a line feed has no
/// empty line after it, and the empty text has no line at all.
pub open spec fn lines_of(s: Seq<char>) -> Seq<Seq<char>>
    decreases s.len(),
{
    if s.len() == 0 {
        Seq::empty()
    } else {
        let k = line_end(s);
        if 0 <= k < s.len() {
            seq![without_cr(s.take(k))] + lines_of(s.skip(k + 1))
        } else {
            seq![s]
        }
    }
}

/// `line_end` is the first place that holds a line feed.
pub proof fn lemma_line_end(s: Seq<char>, k: int)
    requires
        0 <= k <= s.len(),
        forall|i: int| 0 <= i < k ==> s[i] != '\n',
        k < s.len() ==> s[k] == '\n',
    ensures
        line_end(s) == k,
    decreases s.len(),
{
    if s.len() > 0 && s.first() != '\n' {
        lemma_line_end(s.drop_first(), k - 1);
    }
}

/// The texts that a vector of strings holds.
pub open spec fn texts(v: Seq<String>) -> Seq<Seq<char>> {
    Seq::new(v.len(), |i: int| v[i]@)
}

/// Splits a text into its lines.
pub fn lines(s: &str) -> (out: Vec<String>)
    ensures
        texts(out@) == lines_of(s@),
{
    let chars = chars_of(s);
    let n: usize = chars.len();
    let mut out: Vec<String> = Vec::new();
    let mut start: usize = 0;
    assert(chars@.skip(0) =~= chars@);
    while start < n
        invariant
            start <= n == chars.len(),
            lines_of(chars@) == texts(out@) + lines_of(chars@.skip(start as int)),
        decreases n - start,
    {
        let mut k: usize = start;
        while k < n && chars[k] != '\n'
            invariant
                start <= k <= n == chars.len(),
                forall|i: int| start <= i < k ==> chars@[i] != '\n',
            decreases n - k,
        {
            k += 1;
        }
        let ghost rest = chars@.skip(start as int);
        proof {
            lemma_line_end(rest, k - start);
            assert(rest.take(k - start) =~= chars@.subrange(start as int, k as int));
        }
        let end: usize = if k < n && k > start && chars[k - 1] == '\r' {
            k - 1
        } else {
            k
        };
        assert(k < n ==> chars@.subrange(start as int, end as int) =~= without_cr(
            chars@.subrange(start as int, k as int),
        ));
        let line = text_of(&chars, start, end);
        out.push(line);
        if k < n {
            assert(rest.skip(k - start + 1) =~= chars@.skip(k as int + 1));
            start = k + 1;
        } else {
            start = n;
        }
    }
    out
}

/// Tells whether `s` ends with `suffix`.
pub open spec fn ends_with(s: Seq<char>, suffix: Seq<char>) -> bool {
    suffix.len() <= s.len() && s.skip(s.len() - suffix.len()) == suffix
}

/// `s` without `suffix` at its end; `s` itself where it does not end so.
pub open spec fn without_suffix(s: Seq<char>, suffix: Seq<char>) -> Seq<char> {
    if ends_with(s, suffix) {
        s.take(s.len() - suffix.len())
    } else {
        s
    }
}

/// Removes `suffix` from the end of `s` where `s` ends with it.
pub fn strip_suffix(s: &str, suffix: &str) -> (out: String)
    ensures
        out@ == without_suffix(s@, suffix@),
{
    let chars = chars_of(s);
    let tail = chars_of(suffix);
    let n: usize = chars.len();
    let m: usize = tail.len();
    if m > n {
        return text_of(&chars, 0, n);
    }
    let base: usize = n - m;
    let mut i: usize = 0;
    while i < m
        invariant
            i <= m == tail.len(),
            n == chars.len(),
            base == n - m,
            chars@ == s@,
            tail@ == suffix@,
            forall|j: int| 0 <= j < i ==> chars@[base + j] == tail@[j],
        decreases m - i,
    {
        if chars[base + i] != tail[i] {
            return text_of(&chars, 0, n);
        }
        i += 1;
    }
    assert(chars@.skip(base as int) =~= tail@);
    text_of(&chars, 0, base)
}

/// The texts of a list written one after the other, with nothing between
/// them.
pub open spec fn concatenated(parts: Seq<Seq<char>>) -> Seq<char>
    decreases parts.len(),
{
    if parts.len() == 0 {
        Seq::empty()
    } else {
        concatenated(parts.drop_last()) + parts.last()
    }
}

/// Writes the strings of `parts` one after the other.
pub fn concatenate(parts: &Vec<String>) -> (text: String)
    ensures
        text@ == concatenated(texts(parts@)),
{
    let mut text = String::new();
    let mut i: usize = 0;
    while i < parts.len()
        invariant
            i <= parts.len(),
            text@ == concatenated(texts(parts@).take(i as int)),
        decreases parts.len() - i,
    {
        text.append(parts[i].as_str());
        assert(texts(parts@).take(i as int + 1).drop_last() =~= texts(parts@).take(i as int));
        i += 1;
    }
    assert(texts(parts@).take(i as int) =~= texts(parts@));
    text
}

} // verus!
