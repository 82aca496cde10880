//! Text building: decimal numbers, padding, cutting to a width, and the escaping that keeps a
//! file name from driving the terminal.
//!
//! Widths are counted in characters, the way the panels lay out their columns.

use vstd::prelude::*;

verus! {

/// `String::push` appends one character.
pub assume_specification[ String::push ](s: &mut String, c: char)
    ensures
        final(s)@ == old(s)@.push(c),
;

/// `String::push_str` appends a whole string slice.
pub assume_specification[ String::push_str ](s: &mut String, t: &str)
    ensures
        final(s)@ == old(s)@ + t@,
;

/// `String::from_utf8_lossy` decodes bytes, replacing what is not UTF-8. What it puts in place
/// of malformed input is left to the name; on well-formed input it is the decoding itself.
pub uninterp spec fn lossy_text(bytes: Seq<u8>) -> Seq<char>;

/// Decodes bytes for display through `String::from_utf8_lossy`.
#[verifier::external_body]
pub(crate) fn decode_lossy(bytes: &Vec<u8>) -> (r: String)
    ensures
        r@ == lossy_text(bytes@),
        vstd::utf8::valid_utf8(bytes@) ==> r@ == vstd::utf8::decode_utf8(bytes@),
{
    String::from_utf8_lossy(bytes).into_owned()
}

// ---------------------------------------------------------------------------------------------
// Characters and cuts.
// ---------------------------------------------------------------------------------------------
/// The characters of a string, in order.
pub fn chars_of(s: &str) -> (r: Vec<char>)
    ensures
        r@ == s@,
{
    let mut out: Vec<char> = Vec::new();
    for c in it: s.chars()
        invariant
            out@ == s@.take(it.index() as int),
            it.seq() == s@,
    {
        out.push(c);
        proof {
            assert(s@.take(it.index() as int).push(c) =~= s@.take(it.index() as int + 1));
        }
    }
    assert(s@.take(s@.len() as int) =~= s@);
    out
}

/// Number of characters in a string.
pub fn char_count(s: &str) -> (n: usize)
    ensures
        n == s@.len(),
{
    s.unicode_len()
}

/// The characters `from..to` as a string of their own.
pub fn slice_chars(chars: &Vec<char>, from: usize, to: usize) -> (r: String)
    requires
        from <= to <= chars@.len(),
    ensures
        r@ == chars@.subrange(from as int, to as int),
{
    let mut out = String::new();
    let mut i: usize = from;
    while i < to
        invariant
            from <= i <= to <= chars@.len(),
            out@ == chars@.subrange(from as int, i as int),
        decreases to - i,
    {
        out.push(chars[i]);
        proof {
            assert(chars@.subrange(from as int, i as int).push(chars@[i as int])
                =~= chars@.subrange(from as int, i as int + 1));
        }
        i = i + 1;
    }
    out
}

/// `n` copies of one character.
pub open spec fn repeated(c: char, n: int) -> Seq<char> {
    Seq::new(
        if n < 0 {
            0
        } else {
            n as nat
        },
        |i: int| c,
    )
}

/// Appends `n` copies of `c`.
pub fn push_repeated(s: &mut String, c: char, n: usize)
    ensures
        final(s)@ == old(s)@ + repeated(c, n as int),
{
    let ghost before = s@;
    let mut i: usize = 0;
    while i < n
        invariant
            i <= n,
            s@ == before + repeated(c, i as int),
        decreases n - i,
    {
        s.push(c);
        i = i + 1;
        assert(s@ =~= before + repeated(c, i as int));
    }
    assert(before + repeated(c, 0) =~= before);
}

/// Text padded with spaces on the right to at least `width` characters.
pub open spec fn padded_right(t: Seq<char>, width: int) -> Seq<char> {
    t + repeated(' ', width - t.len())
}

/// Text padded with spaces on the left to at least `width` characters.
pub open spec fn padded_left(t: Seq<char>, width: int) -> Seq<char> {
    repeated(' ', width - t.len()) + t
}

/// Left-aligns `text` in `width` characters; longer text is kept whole.
pub fn pad_right(text: &str, width: usize) -> (r: String)
    ensures
        r@ == padded_right(text@, width as int),
{
    let n: usize = text.unicode_len();
    let mut out = String::new();
    out.push_str(text);
    assert(out@ =~= text@);
    if n < width {
        push_repeated(&mut out, ' ', width - n);
    }
    assert(out@ =~= padded_right(text@, width as int));
    out
}

/// Right-aligns `text` in `width` characters; longer text is kept whole.
pub fn pad_left(text: &str, width: usize) -> (r: String)
    ensures
        r@ == padded_left(text@, width as int),
{
    let n: usize = text.unicode_len();
    let mut out = String::new();
    if n < width {
        push_repeated(&mut out, ' ', width - n);
    }
    out.push_str(text);
    assert(out@ =~= padded_left(text@, width as int));
    out
}

/// Text cut on the right to `width` characters, the cut shown as `…`.
pub open spec fn fitted(t: Seq<char>, width: int) -> Seq<char> {
    if t.len() <= width {
        t
    } else if width <= 0 {
        Seq::empty()
    } else {
        t.take(width - 1).push('…')
    }
}

/// Truncates a string to `width` characters, appending «…».
pub fn fit(text: &str, width: usize) -> (r: String)
    ensures
        r@ == fitted(text@, width as int),
{
    let chars = chars_of(text);
    if chars.len() <= width {
        slice_chars_whole(&chars)
    } else if width == 0 {
        String::new()
    } else {
        let mut out = slice_chars(&chars, 0, width - 1);
        out.push('…');
        assert(chars@.subrange(0, width - 1) =~= chars@.take(width - 1));
        out
    }
}

/// Text cut on the left to `width` characters, the cut shown as `…`. A width of zero still
/// shows the ellipsis.
pub open spec fn left_cut(t: Seq<char>, width: int) -> Seq<char> {
    if t.len() <= width {
        t
    } else if width <= 1 {
        seq!['…']
    } else {
        seq!['…'] + t.skip(t.len() - (width - 1))
    }
}

/// Truncates a string on the left to `width` characters (the right part of a path stays visible).
pub fn ellipsize_left(text: &str, width: usize) -> (r: String)
    ensures
        r@ == left_cut(text@, width as int),
{
    let chars = chars_of(text);
    if chars.len() <= width {
        return slice_chars_whole(&chars);
    }
    let mut out = String::new();
    out.push('…');
    assert(out@ =~= seq!['…']);
    if width > 1 {
        let tail = slice_chars(&chars, chars.len() - (width - 1), chars.len());
        out.push_str(tail.as_str());
        assert(tail@ =~= text@.skip(text@.len() - (width - 1)));
    }
    out
}

fn slice_chars_whole(chars: &Vec<char>) -> (r: String)
    ensures
        r@ == chars@,
{
    let r = slice_chars(chars, 0, chars.len());
    assert(chars@.subrange(0, chars@.len() as int) =~= chars@);
    r
}

/// A cut never leaves more than the width it was given, except for the lone ellipsis that stands
/// for a path in no room at all; what fits is not touched.
pub proof fn law_cuts_respect_the_width(t: Seq<char>, width: int)
    requires
        width >= 0,
    ensures
        fitted(t, width).len() <= width,
        left_cut(t, width).len() <= width || (width == 0 && left_cut(t, width).len() == 1),
        t.len() <= width ==> fitted(t, width) == t && left_cut(t, width) == t,
{
}

/// The left cut keeps the end of the text: what is shown after the ellipsis is the text's tail.
pub proof fn law_left_cut_keeps_the_tail(t: Seq<char>, width: int)
    requires
        1 < width < t.len(),
    ensures
        left_cut(t, width).len() == width,
        left_cut(t, width).skip(1) == t.skip(t.len() - (width - 1)),
{
    assert(left_cut(t, width).skip(1) =~= t.skip(t.len() - (width - 1)));
}

// ---------------------------------------------------------------------------------------------
// Numbers.
// ---------------------------------------------------------------------------------------------
/// The character of one decimal or hexadecimal digit.
pub open spec fn digit(d: int) -> char {
    if d == 0 {
        '0'
    } else if d == 1 {
        '1'
    } else if d == 2 {
        '2'
    } else if d == 3 {
        '3'
    } else if d == 4 {
        '4'
    } else if d == 5 {
        '5'
    } else if d == 6 {
        '6'
    } else if d == 7 {
        '7'
    } else if d == 8 {
        '8'
    } else if d == 9 {
        '9'
    } else if d == 10 {
        'a'
    } else if d == 11 {
        'b'
    } else if d == 12 {
        'c'
    } else if d == 13 {
        'd'
    } else if d == 14 {
        'e'
    } else {
        'f'
    }
}

fn digit_char(d: u64) -> (c: char)
    requires
        d < 16,
    ensures
        c == digit(d as int),
{
    if d == 0 {
        '0'
    } else if d == 1 {
        '1'
    } else if d == 2 {
        '2'
    } else if d == 3 {
        '3'
    } else if d == 4 {
        '4'
    } else if d == 5 {
        '5'
    } else if d == 6 {
        '6'
    } else if d == 7 {
        '7'
    } else if d == 8 {
        '8'
    } else if d == 9 {
        '9'
    } else if d == 10 {
        'a'
    } else if d == 11 {
        'b'
    } else if d == 12 {
        'c'
    } else if d == 13 {
        'd'
    } else if d == 14 {
        'e'
    } else {
        'f'
    }
}

/// Decimal notation of a natural number, without leading zeroes.
pub open spec fn decimal(n: nat) -> Seq<char>
    decreases n,
{
    if n < 10 {
        seq![digit(n as int)]
    } else {
        decimal(n / 10).push(digit((n % 10) as int))
    }
}

/// Decimal notation of an integer, with a minus sign where it needs one.
pub open spec fn signed_decimal(n: int) -> Seq<char> {
    if n < 0 {
        seq!['-'] + decimal((-n) as nat)
    } else {
        decimal(n as nat)
    }
}

/// Appends the decimal notation of `n`.
pub fn push_u64(s: &mut String, n: u64)
    ensures
        final(s)@ == old(s)@ + decimal(n as nat),
    decreases n,
{
    if n < 10 {
        s.push(digit_char(n));
        assert(s@ =~= old(s)@ + decimal(n as nat));
    } else {
        push_u64(s, n / 10);
        s.push(digit_char(n % 10));
        assert(s@ =~= old(s)@ + decimal(n as nat));
    }
}

/// Appends the decimal notation of `n`.
pub fn push_usize(s: &mut String, n: usize)
    ensures
        final(s)@ == old(s)@ + decimal(n as nat),
{
    push_u64(s, n as u64);
}

/// Appends the decimal notation of a signed number.
pub fn push_i64(s: &mut String, n: i64)
    ensures
        final(s)@ == old(s)@ + signed_decimal(n as int),
{
    if n < 0 {
        s.push('-');
        let magnitude: u64 = (-(n as i128)) as u64;
        push_u64(s, magnitude);
        assert(s@ =~= old(s)@ + signed_decimal(n as int));
    } else {
        push_u64(s, n as u64);
    }
}

/// Appends `n` with at least two digits.
pub fn push_two_digits(s: &mut String, n: u64)
    ensures
        final(s)@ == old(s)@ + two_digits(n as nat),
{
    if n < 10 {
        s.push('0');
        push_u64(s, n);
        assert(s@ =~= old(s)@ + two_digits(n as nat));
    } else {
        push_u64(s, n);
    }
}

/// Decimal notation padded with a zero to two digits.
pub open spec fn two_digits(n: nat) -> Seq<char> {
    if n < 10 {
        seq!['0'] + decimal(n)
    } else {
        decimal(n)
    }
}

/// Bytes in lower-case hexadecimal.
pub open spec fn hex_text(bytes: Seq<u8>) -> Seq<char>
    decreases bytes.len(),
{
    if bytes.len() == 0 {
        Seq::empty()
    } else {
        hex_text(bytes.drop_last()).push(digit(bytes.last() as int / 16)).push(
            digit(bytes.last() as int % 16),
        )
    }
}

/// Writes a digest in lower-case hexadecimal.
pub fn hex_encode(bytes: &[u8; 32]) -> (r: String)
    ensures
        r@ == hex_text(bytes@),
{
    let mut out = String::new();
    let mut i: usize = 0;
    assert(out@ =~= hex_text(bytes@.take(0)));
    while i < 32
        invariant
            i <= 32,
            bytes@.len() == 32,
            out@ == hex_text(bytes@.take(i as int)),
        decreases 32 - i,
    {
        let b: u64 = bytes[i] as u64;
        out.push(digit_char(b / 16));
        out.push(digit_char(b % 16));
        proof {
            assert(bytes@.take(i as int + 1).drop_last() =~= bytes@.take(i as int));
        }
        i = i + 1;
    }
    assert(bytes@.take(32) =~= bytes@);
    out
}

// ---------------------------------------------------------------------------------------------
// What may reach the terminal.
// ---------------------------------------------------------------------------------------------
/// The control characters of Unicode: C0, DEL and C1.
pub open spec fn control(c: char) -> bool {
    (c as u32) < 0x20 || 0x7f <= (c as u32) < 0xa0
}

/// Text that holds no control character, so printing it cannot drive the terminal.
pub open spec fn inert(t: Seq<char>) -> bool {
    forall|i: int| 0 <= i < t.len() ==> !control(#[trigger] t[i])
}

/// A control character in its printed form, `\u{1b}`.
pub open spec fn escaped_char(c: char) -> Seq<char> {
    if control(c) {
        let n = c as u32 as int;
        if n < 16 {
            seq!['\\', 'u', '{', digit(n), '}']
        } else {
            seq!['\\', 'u', '{', digit(n / 16), digit(n % 16), '}']
        }
    } else {
        seq![c]
    }
}

/// Text with every control character in its printed form and everything else as it is.
pub open spec fn escaped(t: Seq<char>) -> Seq<char>
    decreases t.len(),
{
    if t.len() == 0 {
        Seq::empty()
    } else {
        escaped(t.drop_last()) + escaped_char(t.last())
    }
}

/// Makes text safe to print: control characters come out as `\u{..}`, the rest unchanged.
pub fn terminal(text: &str) -> (r: String)
    ensures
        r@ == escaped(text@),
        inert(r@),
{
    let chars = chars_of(text);
    let mut out = String::new();
    let mut i: usize = 0;
    while i < chars.len()
        invariant
            i <= chars@.len(),
            out@ == escaped(chars@.take(i as int)),
        decreases chars@.len() - i,
    {
        let c = chars[i];
        let n: u64 = c as u32 as u64;
        let ghost before = out@;
        if n < 0x20 || (0x7f <= n && n < 0xa0) {
            out.push('\\');
            out.push('u');
            out.push('{');
            if n >= 16 {
                out.push(digit_char(n / 16));
            }
            out.push(digit_char(n % 16));
            out.push('}');
        } else {
            out.push(c);
        }
        proof {
            assert(out@ =~= before + escaped_char(c));
            assert(chars@.take(i as int + 1).drop_last() =~= chars@.take(i as int));
        }
        i = i + 1;
    }
    assert(chars@.take(chars@.len() as int) =~= chars@);
    proof {
        law_escaped_text_is_inert(text@);
    }
    out
}

/// Whatever the text was, its escaped form holds no control character.
pub proof fn law_escaped_text_is_inert(t: Seq<char>)
    ensures
        inert(escaped(t)),
    decreases t.len(),
{
    if t.len() > 0 {
        law_escaped_text_is_inert(t.drop_last());
        let head = escaped(t.drop_last());
        let tail = escaped_char(t.last());
        assert(inert(tail)) by {
            let n = t.last() as u32 as int;
            assert(forall|d: int| !control(#[trigger] digit(d)));
        }
        assert(escaped(t) == head + tail);
        assert forall|i: int| 0 <= i < escaped(t).len() implies !control(#[trigger] escaped(t)[i]) by {
            if i < head.len() {
                assert(escaped(t)[i] == head[i]);
            } else {
                assert(escaped(t)[i] == tail[i - head.len()]);
            }
        }
    }
}

/// Text without control characters comes through the escaping untouched.
pub proof fn law_inert_text_is_untouched(t: Seq<char>)
    requires
        inert(t),
    ensures
        escaped(t) == t,
    decreases t.len(),
{
    if t.len() > 0 {
        assert(inert(t.drop_last())) by {
            assert forall|i: int| 0 <= i < t.drop_last().len() implies !control(
                #[trigger] t.drop_last()[i],
            ) by {
                assert(t.drop_last()[i] == t[i]);
            }
        }
        law_inert_text_is_untouched(t.drop_last());
        assert(!control(t[t.len() - 1]));
        assert(escaped(t) =~= t);
    } else {
        assert(escaped(t) =~= t);
    }
}

/// Cutting inert text leaves it inert: the cut is made after the escaping, so whatever column it
/// lands on, what is left of a sequence is not one.
pub proof fn law_cut_of_inert_text_is_inert(t: Seq<char>, width: int)
    requires
        inert(t),
    ensures
        inert(fitted(t, width)),
        inert(left_cut(t, width)),
{
    assert forall|i: int| 0 <= i < fitted(t, width).len() implies !control(
        #[trigger] fitted(t, width)[i],
    ) by {
        if i < t.len() {
            assert(!control(t[i]));
        }
    }
    let cut = left_cut(t, width);
    assert forall|i: int| 0 <= i < cut.len() implies !control(#[trigger] cut[i]) by {
        if t.len() > width && width > 1 && i > 0 {
            assert(cut[i] == t[t.len() - (width - 1) + (i - 1)]);
        } else if t.len() <= width {
            assert(cut[i] == t[i]);
        }
    }
}

/// Where the first line ends: the index of the first line feed, or the length.
pub open spec fn line_end(t: Seq<char>) -> int
    decreases t.len(),
{
    if t.len() == 0 || t[0] == '\n' {
        0
    } else {
        1 + line_end(t.skip(1))
    }
}

/// The first line ends at a line feed or with the text, and holds no line feed before.
pub proof fn lemma_line_end(t: Seq<char>)
    ensures
        0 <= line_end(t) <= t.len(),
        line_end(t) < t.len() ==> t[line_end(t)] == '\n',
        forall|i: int| 0 <= i < line_end(t) ==> t[i] != '\n',
    decreases t.len(),
{
    if t.len() > 0 && t[0] != '\n' {
        lemma_line_end(t.skip(1));
        assert forall|i: int| 0 <= i < line_end(t) implies t[i] != '\n' by {
            if i > 0 {
                assert(t.skip(1)[i - 1] == t[i]);
            }
        }
    }
}

proof fn lemma_line_ends_here(t: Seq<char>, at: int)
    requires
        0 <= at <= t.len(),
        at < t.len() ==> t[at] == '\n',
        forall|i: int| 0 <= i < at ==> t[i] != '\n',
    ensures
        line_end(t) == at,
{
    lemma_line_end(t);
    if line_end(t) < at {
        assert(t[line_end(t)] == '\n');
    }
}

/// The lines of a text: a line feed ends one, together with a carriage return right before it,
/// and the last needs none.
pub open spec fn text_lines(t: Seq<char>) -> Seq<Seq<char>>
    decreases t.len(),
{
    if t.len() == 0 {
        Seq::empty()
    } else {
        proof {
            lemma_line_end(t);
        }
        let end = line_end(t);
        if end == t.len() {
            seq![t]
        } else {
            seq![
                if end > 0 && t[end - 1] == '\r' {
                    t.take(end - 1)
                } else {
                    t.take(end)
                },
            ] + text_lines(t.skip(end + 1))
        }
    }
}

/// The lines of a text.
pub fn lines_of(text: &str) -> (r: Vec<String>)
    ensures
        crate::browser::strings_model(r@) == text_lines(text@),
{
    let chars = chars_of(text);
    let ghost t = chars@;
    let mut out: Vec<String> = Vec::new();
    let mut start: usize = 0;
    assert(t.skip(0) =~= t);
    assert(crate::browser::strings_model(out@) + text_lines(t.skip(0)) =~= text_lines(t));
    while start < chars.len()
        invariant
            start <= chars@.len(),
            t == chars@,
            crate::browser::strings_model(out@) + text_lines(t.skip(start as int)) == text_lines(t),
        decreases chars@.len() - start,
    {
        let ghost rest = t.skip(start as int);
        let ghost before = crate::browser::strings_model(out@);
        let mut end: usize = start;
        while end < chars.len() && chars[end] != '\n'
            invariant
                start <= end <= chars@.len(),
                rest == chars@.skip(start as int),
                forall|i: int| 0 <= i < end - start ==> rest[i] != '\n',
            decreases chars@.len() - end,
        {
            assert(rest[end - start] == chars@[end as int]);
            end = end + 1;
        }
        proof {
            if end < chars@.len() {
                assert(rest[end - start] == chars@[end as int]);
            }
            lemma_line_ends_here(rest, end - start);
        }
        if end == chars.len() {
            let line = slice_chars(&chars, start, end);
            assert(line@ =~= rest);
            out.push(line);
            assert(crate::browser::strings_model(out@) =~= before + seq![rest]);
            start = end;
            assert(t.skip(start as int) =~= Seq::<char>::empty());
            assert(crate::browser::strings_model(out@) + text_lines(t.skip(start as int))
                =~= before + text_lines(rest));
        } else {
            let stop: usize = if end > start && chars[end - 1] == '\r' {
                end - 1
            } else {
                end
            };
            let line = slice_chars(&chars, start, stop);
            proof {
                if end > start {
                    assert(rest[end - start - 1] == chars@[end - 1]);
                }
                assert(line@ =~= rest.take(stop - start));
            }
            out.push(line);
            assert(crate::browser::strings_model(out@) =~= before + seq![rest.take(stop - start)]);
            start = end + 1;
            assert(t.skip(start as int) =~= rest.skip(line_end(rest) + 1));
            assert(crate::browser::strings_model(out@) + text_lines(t.skip(start as int))
                =~= before + text_lines(rest));
        }
    }
    assert(t.skip(start as int) =~= Seq::<char>::empty());
    assert(crate::browser::strings_model(out@) =~= text_lines(t));
    out
}

} // verus!
