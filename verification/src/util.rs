//! Message framing: a `Content-Length` header, a blank line, and a body
//! of that many bytes.

use vstd::prelude::*;
use vstd::utf8::{encode_utf8, is_ascii_chars_encode_utf8};

verus! {

/// ASCII white space: the space and the bytes from tab to carriage return.
pub open spec fn is_space(b: u8) -> bool {
    b == 32 || (9 <= b && b <= 13)
}

/// The first index from `lo` on, before `hi`, that holds no white space;
/// `hi` where there is none.
pub open spec fn first_solid(s: Seq<u8>, lo: int, hi: int) -> int
    decreases hi - lo,
{
    if 0 <= lo < hi <= s.len() && is_space(s[lo]) {
        first_solid(s, lo + 1, hi)
    } else {
        lo
    }
}

/// The index behind the last byte before `hi`, from `lo` on, that is no
/// white space; `lo` where there is none.
pub open spec fn last_solid(s: Seq<u8>, lo: int, hi: int) -> int
    decreases hi - lo,
{
    if 0 <= lo < hi <= s.len() && is_space(s[hi - 1]) {
        last_solid(s, lo, hi - 1)
    } else {
        hi
    }
}

/// The bytes of `s` from `lo` up to `hi` without the white space in front
/// and behind.
pub open spec fn trimmed(s: Seq<u8>, lo: int, hi: int) -> Seq<u8> {
    let start = first_solid(s, lo, hi);
    s.subrange(start, last_solid(s, start, hi))
}

/// The index of the first colon from `from` on; the length where there is
/// none.
pub open spec fn first_colon(s: Seq<u8>, from: int) -> int
    decreases s.len() - from,
{
    if 0 <= from < s.len() && s[from] != 58 {
        first_colon(s, from + 1)
    } else {
        from
    }
}

/// An ASCII letter in lower case; any other byte as it is.
pub open spec fn lower(b: u8) -> u8 {
    if 65 <= b && b <= 90 {
        (b + 32) as u8
    } else {
        b
    }
}

/// Whether two byte strings are the same but for the case of ASCII letters.
pub open spec fn same_ignoring_case(a: Seq<u8>, b: Seq<u8>) -> bool {
    &&& a.len() == b.len()
    &&& forall|i: int| 0 <= i < a.len() ==> lower(a[i]) == lower(b[i])
}

/// Whether a byte is a decimal digit.
pub open spec fn is_digit(b: u8) -> bool {
    48 <= b && b <= 57
}

/// Whether every byte is a decimal digit.
pub open spec fn all_digits(s: Seq<u8>) -> bool {
    forall|i: int| 0 <= i < s.len() ==> is_digit(s[i])
}

/// The number that a byte stands for as a digit; 0 for what is no digit.
pub open spec fn digit_value(b: u8) -> nat {
    if is_digit(b) {
        (b - 48) as nat
    } else {
        0
    }
}

/// The number that a string of digits stands for in base ten.
pub open spec fn decimal_value(s: Seq<u8>) -> nat
    decreases s.len(),
{
    if s.len() == 0 {
        0
    } else {
        decimal_value(s.drop_last()) * 10 + digit_value(s.last())
    }
}

/// The length that the value of a header states: digits, after a plus sign
/// or without one, that stand for a number which fits a `usize`.
pub open spec fn parse_length(v: Seq<u8>) -> Option<usize> {
    let digits = if v.len() > 0 && v[0] == 43 {
        v.drop_first()
    } else {
        v
    };
    if digits.len() > 0 && all_digits(digits) && decimal_value(digits) <= usize::MAX {
        Some(decimal_value(digits) as usize)
    } else {
        None
    }
}

/// The name of the header that states the length of the body.
pub open spec fn length_header_name() -> Seq<u8> {
    encode_utf8("Content-Length"@)
}

/// What a line of the header section says.
#[derive(Debug, Clone, Copy, PartialEq, Eq, Structural)]
pub enum HeaderLine {
    /// Nothing but white space: the header section ends here.
    Blank,
    /// `Content-Length` and the length it states.
    ContentLength(usize),
    /// Any other line; it says nothing about the frame.
    Other,
}

/// What a line of the header section says. The name of a header ends at
/// the first colon; name and value count without the white space around
/// them, and the name without regard to case.
pub open spec fn classify(line: Seq<u8>) -> HeaderLine {
    if first_solid(line, 0, line.len() as int) == line.len() {
        HeaderLine::Blank
    } else {
        let colon = first_colon(line, 0);
        if colon < line.len() && same_ignoring_case(trimmed(line, 0, colon), length_header_name()) {
            match parse_length(trimmed(line, colon + 1, line.len() as int)) {
                Some(n) => HeaderLine::ContentLength(n),
                None => HeaderLine::Other,
            }
        } else {
            HeaderLine::Other
        }
    }
}

proof fn lemma_first_solid_bounds(s: Seq<u8>, lo: int, hi: int)
    requires
        0 <= lo <= hi <= s.len(),
    ensures
        lo <= first_solid(s, lo, hi) <= hi,
    decreases hi - lo,
{
    if lo < hi && is_space(s[lo]) {
        lemma_first_solid_bounds(s, lo + 1, hi);
    }
}

proof fn lemma_last_solid_bounds(s: Seq<u8>, lo: int, hi: int)
    requires
        0 <= lo <= hi <= s.len(),
    ensures
        lo <= last_solid(s, lo, hi) <= hi,
    decreases hi - lo,
{
    if lo < hi && is_space(s[hi - 1]) {
        lemma_last_solid_bounds(s, lo, hi - 1);
    }
}

proof fn lemma_first_colon_bounds(s: Seq<u8>, from: int)
    requires
        0 <= from <= s.len(),
    ensures
        from <= first_colon(s, from) <= s.len(),
    decreases s.len() - from,
{
    if from < s.len() && s[from] != 58 {
        lemma_first_colon_bounds(s, from + 1);
    }
}

/// A string of digits stands for no less than any of its beginnings.
proof fn lemma_decimal_value_grows(s: Seq<u8>, n: int)
    requires
        0 <= n <= s.len(),
    ensures
        decimal_value(s.subrange(0, n)) <= decimal_value(s),
    decreases s.len() - n,
{
    if n == s.len() {
        assert(s.subrange(0, n) =~= s);
    } else {
        lemma_decimal_value_grows(s.drop_last(), n);
        assert(s.drop_last().subrange(0, n) =~= s.subrange(0, n));
        assert(decimal_value(s) >= decimal_value(s.drop_last())) by (nonlinear_arith)
            requires
                decimal_value(s) == decimal_value(s.drop_last()) * 10 + digit_value(s.last()),
        ;
    }
}

fn find_first_solid(line: &[u8], lo: usize, hi: usize) -> (at: usize)
    requires
        lo <= hi <= line@.len(),
    ensures
        at == first_solid(line@, lo as int, hi as int),
        lo <= at <= hi,
{
    let mut i = lo;
    while i < hi && is_space_byte(line[i])
        invariant
            lo <= i <= hi <= line@.len(),
            first_solid(line@, lo as int, hi as int) == first_solid(line@, i as int, hi as int),
        decreases hi - i,
    {
        i += 1;
    }
    i
}

fn find_last_solid(line: &[u8], lo: usize, hi: usize) -> (at: usize)
    requires
        lo <= hi <= line@.len(),
    ensures
        at == last_solid(line@, lo as int, hi as int),
        lo <= at <= hi,
{
    let mut i = hi;
    while lo < i && is_space_byte(line[i - 1])
        invariant
            lo <= i <= hi <= line@.len(),
            last_solid(line@, lo as int, hi as int) == last_solid(line@, lo as int, i as int),
        decreases i - lo,
    {
        i -= 1;
    }
    i
}

fn is_space_byte(b: u8) -> (space: bool)
    ensures
        space == is_space(b),
{
    b == 32 || (9 <= b && b <= 13)
}

fn lower_byte(b: u8) -> (l: u8)
    ensures
        l == lower(b),
{
    if 65 <= b && b <= 90 {
        b + 32
    } else {
        b
    }
}

fn find_first_colon(line: &[u8]) -> (at: usize)
    ensures
        at == first_colon(line@, 0),
        at <= line@.len(),
{
    let mut i: usize = 0;
    while i < line.len() && line[i] != 58
        invariant
            i <= line@.len(),
            first_colon(line@, 0) == first_colon(line@, i as int),
        decreases line@.len() - i,
    {
        i += 1;
    }
    i
}

fn is_length_header(line: &[u8], lo: usize, hi: usize) -> (same: bool)
    requires
        lo <= hi <= line@.len(),
    ensures
        same == same_ignoring_case(line@.subrange(lo as int, hi as int), length_header_name()),
{
    let name = "Content-Length".as_bytes();
    if hi - lo != name.len() {
        return false;
    }
    let ghost key = line@.subrange(lo as int, hi as int);
    let mut i: usize = 0;
    while i < name.len()
        invariant
            i <= name@.len(),
            lo <= hi <= line@.len(),
            hi - lo == name@.len(),
            name@ == length_header_name(),
            key == line@.subrange(lo as int, hi as int),
            forall|k: int| 0 <= k < i ==> lower(key[k]) == lower(name@[k]),
        decreases name@.len() - i,
    {
        if lower_byte(line[lo + i]) != lower_byte(name[i]) {
            assert(lower(key[i as int]) != lower(name@[i as int]));
            return false;
        }
        i += 1;
    }
    true
}

#[verifier::loop_isolation(false)]
fn read_length(line: &[u8], lo: usize, hi: usize) -> (length: Option<usize>)
    requires
        lo <= hi <= line@.len(),
    ensures
        length == parse_length(line@.subrange(lo as int, hi as int)),
{
    let ghost v = line@.subrange(lo as int, hi as int);
    let start = if lo < hi && line[lo] == 43 {
        lo + 1
    } else {
        lo
    };
    let ghost digits = line@.subrange(start as int, hi as int);
    assert(digits =~= if v.len() > 0 && v[0] == 43 {
        v.drop_first()
    } else {
        v
    });
    if start == hi {
        return None;
    }
    let mut value: usize = 0;
    let mut i = start;
    while i < hi
        invariant
            start <= i <= hi <= line@.len(),
            digits == line@.subrange(start as int, hi as int),
            forall|k: int| 0 <= k < i - start ==> is_digit(digits[k]),
            value == decimal_value(digits.subrange(0, i - start)),
        decreases hi - i,
    {
        let b = line[i];
        if !(48 <= b && b <= 57) {
            assert(!is_digit(digits[i - start]));
            return None;
        }
        let d = (b - 48) as usize;
        let ghost longer = digits.subrange(0, i - start + 1);
        assert(longer.drop_last() =~= digits.subrange(0, i - start));
        assert(longer.last() == b);
        assert(decimal_value(longer) == value * 10 + d);
        if value > (usize::MAX - d) / 10 {
            proof {
                lemma_decimal_value_grows(digits, i - start + 1);
                assert(decimal_value(longer) > usize::MAX);
            }
            return None;
        }
        value = value * 10 + d;
        i += 1;
    }
    assert(digits.subrange(0, i - start) =~= digits);
    Some(value)
}

/// What a line of the header section says.
pub fn header_line(line: &[u8]) -> (kind: HeaderLine)
    ensures
        kind == classify(line@),
{
    let n = line.len();
    if find_first_solid(line, 0, n) == n {
        return HeaderLine::Blank;
    }
    let colon = find_first_colon(line);
    if colon == n {
        return HeaderLine::Other;
    }
    let key_lo = find_first_solid(line, 0, colon);
    let key_hi = find_last_solid(line, key_lo, colon);
    if !is_length_header(line, key_lo, key_hi) {
        return HeaderLine::Other;
    }
    let value_lo = find_first_solid(line, colon + 1, n);
    let value_hi = find_last_solid(line, value_lo, n);
    match read_length(line, value_lo, value_hi) {
        Some(length) => HeaderLine::ContentLength(length),
        None => HeaderLine::Other,
    }
}

/// The decimal digits of a number, the most significant first.
pub open spec fn decimal_digits(n: nat) -> Seq<u8>
    decreases n,
{
    if n < 10 {
        seq![(48 + n) as u8]
    } else {
        decimal_digits(n / 10).push((48 + n % 10) as u8)
    }
}

/// What opens a frame, in front of the length.
pub open spec fn frame_head() -> Seq<u8> {
    encode_utf8("Content-Length: "@)
}

/// What stands between the length and the body: the end of the header line
/// and a blank line.
pub open spec fn frame_gap() -> Seq<u8> {
    encode_utf8("\r\n\r\n"@)
}

/// The frame that carries `body`: the header with the number of its bytes,
/// a blank line, and the bytes.
pub open spec fn frame(body: Seq<u8>) -> Seq<u8> {
    frame_head() + decimal_digits(body.len()) + frame_gap() + body
}

fn append(out: &mut Vec<u8>, bytes: &[u8])
    ensures
        final(out)@ == old(out)@ + bytes@,
{
    let mut i: usize = 0;
    while i < bytes.len()
        invariant
            i <= bytes@.len(),
            out@ == old(out)@ + bytes@.subrange(0, i as int),
        decreases bytes@.len() - i,
    {
        out.push(bytes[i]);
        i += 1;
        assert(out@ =~= old(out)@ + bytes@.subrange(0, i as int));
    }
    assert(bytes@.subrange(0, i as int) =~= bytes@);
}

fn append_decimal(out: &mut Vec<u8>, n: usize)
    ensures
        final(out)@ == old(out)@ + decimal_digits(n as nat),
    decreases n,
{
    if n < 10 {
        out.push(48 + n as u8);
        assert(out@ =~= old(out)@ + decimal_digits(n as nat));
    } else {
        append_decimal(out, n / 10);
        out.push(48 + (n % 10) as u8);
        assert(out@ =~= old(out)@ + decimal_digits(n as nat));
    }
}

/// Writes `message` to `out` as one frame. The length in the header counts
/// the bytes of the message in UTF-8, not its characters.
pub fn write_message(out: &mut Vec<u8>, message: &str)
    ensures
        final(out)@ == old(out)@ + frame(encode_utf8(message@)),
{
    let body = message.as_bytes();
    append(out, "Content-Length: ".as_bytes());
    append_decimal(out, body.len());
    append(out, "\r\n\r\n".as_bytes());
    append(out, body);
    assert(out@ =~= old(out)@ + frame(encode_utf8(message@)));
}

/// What reading one frame off the front of the input came to.
#[derive(Debug, Clone, PartialEq, Eq)]
pub enum ReadOutcome {
    /// A frame with a body; `consumed` bytes of the input are used up.
    Message { body: Vec<u8>, consumed: usize },
    /// A header section that states no length, or the length zero: there
    /// is no message in it, and reading goes on behind it.
    Skipped { consumed: usize },
    /// The input holds no whole frame yet, and more may come.
    NeedMore,
    /// The input ended where a header line was due.
    EndOfInput,
    /// The input ended inside a body.
    Truncated,
}

/// The mathematical model of a [`ReadOutcome`].
pub enum Frame {
    Message { body: Seq<u8>, consumed: int },
    Skipped { consumed: int },
    NeedMore,
    EndOfInput,
    Truncated,
}

impl View for ReadOutcome {
    type V = Frame;

    open spec fn view(&self) -> Frame {
        match self {
            ReadOutcome::Message { body, consumed } => Frame::Message {
                body: body@,
                consumed: *consumed as int,
            },
            ReadOutcome::Skipped { consumed } => Frame::Skipped { consumed: *consumed as int },
            ReadOutcome::NeedMore => Frame::NeedMore,
            ReadOutcome::EndOfInput => Frame::EndOfInput,
            ReadOutcome::Truncated => Frame::Truncated,
        }
    }
}

/// The index behind the first line feed from `from` on; the length of the
/// input where there is none.
pub open spec fn line_end(input: Seq<u8>, from: int) -> int
    decreases input.len() - from,
{
    if 0 <= from < input.len() {
        if input[from] == 10 {
            from + 1
        } else {
            line_end(input, from + 1)
        }
    } else {
        from
    }
}

/// What stands behind the header section that ends at `end`: the body of
/// the length stated, if the input holds all of it.
pub open spec fn close_frame(input: Seq<u8>, end: int, length: usize, at_end: bool) -> Frame {
    if length == 0 {
        Frame::Skipped { consumed: end }
    } else if end + length <= input.len() {
        Frame::Message { body: input.subrange(end, end + length), consumed: end + length }
    } else if at_end {
        Frame::Truncated
    } else {
        Frame::NeedMore
    }
}

/// Reads header lines from `pos` on, with `length` the length stated so
/// far. A line ends with its line feed, or with the input where that has
/// ended. Of several lengths the last one counts.
pub open spec fn read_frame_from(input: Seq<u8>, pos: int, length: usize, at_end: bool) -> Frame
    decreases input.len() - pos,
    via read_frame_from_decreases
{
    if pos < 0 || pos >= input.len() {
        if at_end {
            Frame::EndOfInput
        } else {
            Frame::NeedMore
        }
    } else {
        let end = line_end(input, pos);
        if !at_end && input[end - 1] != 10 {
            Frame::NeedMore
        } else {
            match classify(input.subrange(pos, end)) {
                HeaderLine::Blank => close_frame(input, end, length, at_end),
                HeaderLine::ContentLength(n) => read_frame_from(input, end, n, at_end),
                HeaderLine::Other => read_frame_from(input, end, length, at_end),
            }
        }
    }
}

#[via_fn]
proof fn read_frame_from_decreases(input: Seq<u8>, pos: int, length: usize, at_end: bool) {
    if 0 <= pos < input.len() {
        lemma_line_end_bounds(input, pos);
    }
}

/// The frame at the front of `input`. With `at_end` the input is all there
/// will be; without it more bytes may follow.
pub open spec fn read_frame(input: Seq<u8>, at_end: bool) -> Frame {
    read_frame_from(input, 0, 0, at_end)
}

proof fn lemma_line_end_bounds(input: Seq<u8>, from: int)
    requires
        0 <= from < input.len(),
    ensures
        from < line_end(input, from) <= input.len(),
    decreases input.len() - from,
{
    if input[from] != 10 {
        if from + 1 < input.len() {
            lemma_line_end_bounds(input, from + 1);
        } else {
            assert(line_end(input, from + 1) == from + 1);
        }
    }
}

fn find_line_end(input: &[u8], from: usize) -> (end: usize)
    requires
        from < input@.len(),
    ensures
        end == line_end(input@, from as int),
        from < end <= input@.len(),
{
    let mut i = from;
    while i < input.len() && input[i] != 10
        invariant
            from <= i <= input@.len(),
            line_end(input@, from as int) == line_end(input@, i as int),
        decreases input@.len() - i,
    {
        i += 1;
    }
    if i < input.len() {
        i + 1
    } else {
        proof {
            lemma_line_end_bounds(input@, from as int);
        }
        i
    }
}

fn copy_range(input: &[u8], lo: usize, hi: usize) -> (copy: Vec<u8>)
    requires
        lo <= hi <= input@.len(),
    ensures
        copy@ == input@.subrange(lo as int, hi as int),
{
    let mut copy: Vec<u8> = Vec::new();
    let mut i = lo;
    while i < hi
        invariant
            lo <= i <= hi <= input@.len(),
            copy@ == input@.subrange(lo as int, i as int),
        decreases hi - i,
    {
        copy.push(input[i]);
        i += 1;
        assert(copy@ =~= input@.subrange(lo as int, i as int));
    }
    copy
}

/// Reads one frame off the front of `input`.
pub fn read_message(input: &[u8], at_end: bool) -> (outcome: ReadOutcome)
    ensures
        outcome@ == read_frame(input@, at_end),
{
    let mut pos: usize = 0;
    let mut length: usize = 0;
    while pos < input.len()
        invariant
            pos <= input@.len(),
            read_frame(input@, at_end) == read_frame_from(input@, pos as int, length, at_end),
        decreases input@.len() - pos,
    {
        let end = find_line_end(input, pos);
        if !at_end && input[end - 1] != 10 {
            return ReadOutcome::NeedMore;
        }
        let line = copy_range(input, pos, end);
        match header_line(line.as_slice()) {
            HeaderLine::Blank => {
                if length == 0 {
                    return ReadOutcome::Skipped { consumed: end };
                } else if length <= input.len() - end {
                    let body = copy_range(input, end, end + length);
                    return ReadOutcome::Message { body, consumed: end + length };
                } else if at_end {
                    return ReadOutcome::Truncated;
                } else {
                    return ReadOutcome::NeedMore;
                }
            },
            HeaderLine::ContentLength(n) => {
                length = n;
            },
            HeaderLine::Other => {},
        }
        pos = end;
    }
    if at_end {
        ReadOutcome::EndOfInput
    } else {
        ReadOutcome::NeedMore
    }
}

/// A frame uses up at least one byte of the input and no more than there
/// is; its body has at least one byte.
pub proof fn lemma_read_frame_consumed(input: Seq<u8>, at_end: bool)
    ensures
        read_frame(input, at_end) matches Frame::Skipped { consumed } ==> 0 < consumed
            <= input.len(),
        read_frame(input, at_end) matches Frame::Message { body, consumed } ==> 0 < body.len()
            < consumed <= input.len(),
{
    lemma_read_frame_from_consumed(input, 0, 0, at_end);
}

proof fn lemma_read_frame_from_consumed(input: Seq<u8>, pos: int, length: usize, at_end: bool)
    requires
        0 <= pos,
    ensures
        read_frame_from(input, pos, length, at_end) matches Frame::Skipped { consumed } ==> pos
            < consumed <= input.len(),
        read_frame_from(input, pos, length, at_end) matches Frame::Message { body, consumed }
            ==> 0 < body.len() && pos + body.len() < consumed <= input.len(),
    decreases input.len() - pos,
{
    if pos < input.len() {
        lemma_line_end_bounds(input, pos);
        let end = line_end(input, pos);
        if !at_end && input[end - 1] != 10 {
        } else {
            match classify(input.subrange(pos, end)) {
                HeaderLine::Blank => {},
                HeaderLine::ContentLength(n) => {
                    lemma_read_frame_from_consumed(input, end, n, at_end);
                },
                HeaderLine::Other => {
                    lemma_read_frame_from_consumed(input, end, length, at_end);
                },
            }
        }
    }
}

proof fn lemma_first_colon_at(s: Seq<u8>, from: int, colon: int)
    requires
        0 <= from <= colon < s.len(),
        forall|j: int| from <= j < colon ==> s[j] != 58,
        s[colon] == 58,
    ensures
        first_colon(s, from) == colon,
    decreases colon - from,
{
    if from < colon {
        lemma_first_colon_at(s, from + 1, colon);
    }
}

proof fn lemma_line_end_at(input: Seq<u8>, from: int, feed: int)
    requires
        0 <= from <= feed < input.len(),
        forall|j: int| from <= j < feed ==> input[j] != 10,
        input[feed] == 10,
    ensures
        line_end(input, from) == feed + 1,
    decreases feed - from,
{
    if from < feed {
        lemma_line_end_at(input, from + 1, feed);
    }
}

/// The digits of a number are digits, and stand for the number.
pub proof fn lemma_decimal_digits(n: nat)
    ensures
        decimal_digits(n).len() > 0,
        all_digits(decimal_digits(n)),
        decimal_value(decimal_digits(n)) == n,
    decreases n,
{
    let digits = decimal_digits(n);
    if n < 10 {
        assert(digits.drop_last() =~= Seq::<u8>::empty());
        assert(decimal_value(digits.drop_last()) == 0);
        assert(digits.last() == (48 + n) as u8);
    } else {
        lemma_decimal_digits(n / 10);
        assert(digits.drop_last() =~= decimal_digits(n / 10));
        assert(digits.last() == (48 + n % 10) as u8);
        assert(forall|i: int| 0 <= i < digits.len() - 1 ==> digits[i] == decimal_digits(n / 10)[i]);
    }
}

/// The bytes that open a frame and those that part the header from the
/// body.
proof fn lemma_frame_bytes()
    ensures
        frame_head() =~= seq![67u8, 111, 110, 116, 101, 110, 116, 45, 76, 101, 110, 103, 116, 104, 58, 32],
        length_header_name() =~= seq![67u8, 111, 110, 116, 101, 110, 116, 45, 76, 101, 110, 103, 116, 104],
        frame_gap() =~= seq![13u8, 10, 13, 10],
{
    reveal_strlit("Content-Length: ");
    reveal_strlit("Content-Length");
    reveal_strlit("\r\n\r\n");
    is_ascii_chars_encode_utf8("Content-Length: "@);
    is_ascii_chars_encode_utf8("Content-Length"@);
    is_ascii_chars_encode_utf8("\r\n\r\n"@);
}

/// What was written as a frame is read as that frame: the message comes
/// back byte for byte, and reading goes on right behind it, whatever
/// follows. A frame with an empty body is passed over.
pub proof fn lemma_frame_round_trip(body: Seq<u8>, rest: Seq<u8>, at_end: bool)
    requires
        body.len() <= usize::MAX,
    ensures
        body.len() > 0 ==> read_frame(frame(body) + rest, at_end) == (Frame::Message {
            body,
            consumed: frame(body).len() as int,
        }),
        body.len() == 0 ==> read_frame(frame(body) + rest, at_end) == (Frame::Skipped {
            consumed: frame(body).len() as int,
        }),
{
    let n = body.len();
    let digits = decimal_digits(n);
    let k = digits.len() as int;
    let input = frame(body) + rest;
    lemma_frame_bytes();
    lemma_decimal_digits(n);
    let head = frame_head();
    let gap = frame_gap();
    assert(frame(body).len() == 16 + k + 4 + n);
    assert forall|i: int| 0 <= i < 16 implies input[i] == head[i] by {}
    assert forall|i: int| 0 <= i < k implies input[16 + i] == digits[i] by {}
    assert forall|i: int| 0 <= i < 4 implies input[16 + k + i] == gap[i] by {}
    assert forall|i: int| 0 <= i < n implies input[16 + k + 4 + i] == body[i] by {}
    assert forall|i: int| 0 <= i < k implies is_digit(#[trigger] input[16 + i]) by {
        assert(is_digit(digits[i]));
    }

    // The header line.
    let end = 16 + k + 2;
    assert(input[16 + k + 1] == 10);
    assert forall|j: int| 0 <= j < end - 1 implies input[j] != 10 by {
        if j < 16 {
            assert(input[j] == head[j]);
        } else if j < 16 + k {
            assert(is_digit(input[16 + (j - 16)]));
        } else {
            assert(input[16 + k + 0] == gap[0]);
        }
    }
    lemma_line_end_at(input, 0, end - 1);
    let line = input.subrange(0, end);
    assert(line.len() == end);
    assert forall|i: int| 0 <= i < end implies line[i] == input[i] by {}
    assert(line[0] == 67);
    assert(first_solid(line, 0, end) == 0);
    assert forall|j: int| 0 <= j < 14 implies line[j] != 58 by {
        assert(line[j] == head[j]);
    }
    assert(line[14] == 58);
    lemma_first_colon_at(line, 0, 14);
    assert(first_solid(line, 0, 14) == 0);
    assert(line[13] == 104);
    assert(last_solid(line, 0, 14) == 14);
    assert(trimmed(line, 0, 14) =~= length_header_name());
    assert(line[15] == 32);
    assert(line[16] == digits[0]);
    assert(is_digit(line[16]));
    assert(first_solid(line, 16, end) == 16);
    assert(first_solid(line, 15, end) == 16);
    assert(line[end - 1] == 10);
    assert(line[end - 2] == 13);
    assert(line[end - 3] == digits[k - 1]);
    assert(is_digit(line[end - 3]));
    assert(last_solid(line, 16, end - 2) == end - 2);
    assert(last_solid(line, 16, end - 1) == end - 2);
    assert(last_solid(line, 16, end) == end - 2);
    assert(trimmed(line, 15, end) =~= digits);
    assert(digits[0] != 43);
    assert(parse_length(digits) == Some(n as usize));
    assert(classify(line) == HeaderLine::ContentLength(n as usize));

    // The blank line.
    let blank_end = end + 2;
    assert(input[end] == gap[2]);
    assert(input[end + 1] == gap[3]);
    lemma_line_end_at(input, end, end + 1);
    let blank = input.subrange(end, blank_end);
    assert(blank.len() == 2);
    assert(blank[0] == 13 && blank[1] == 10);
    assert(first_solid(blank, 2, 2) == 2);
    assert(first_solid(blank, 1, 2) == 2);
    assert(first_solid(blank, 0, 2) == 2);
    assert(classify(blank) == HeaderLine::Blank);

    // The body.
    assert(input.subrange(blank_end, blank_end + n) =~= body);
    assert(read_frame_from(input, end, n as usize, at_end) == close_frame(
        input,
        blank_end,
        n as usize,
        at_end,
    ));
    assert(read_frame_from(input, 0, 0, at_end) == read_frame_from(
        input,
        end,
        n as usize,
        at_end,
    ));
}

/// Once the input has ended, reading never asks for more of it.
pub proof fn lemma_ended_input_needs_no_more(input: Seq<u8>)
    ensures
        !(read_frame(input, true) is NeedMore),
{
    lemma_ended_input_needs_no_more_from(input, 0, 0);
}

proof fn lemma_ended_input_needs_no_more_from(input: Seq<u8>, pos: int, length: usize)
    requires
        0 <= pos,
    ensures
        !(read_frame_from(input, pos, length, true) is NeedMore),
    decreases input.len() - pos,
{
    if pos < input.len() {
        lemma_line_end_bounds(input, pos);
        let end = line_end(input, pos);
        match classify(input.subrange(pos, end)) {
            HeaderLine::Blank => {},
            HeaderLine::ContentLength(n) => {
                lemma_ended_input_needs_no_more_from(input, end, n);
            },
            HeaderLine::Other => {
                lemma_ended_input_needs_no_more_from(input, end, length);
            },
        }
    }
}

} // verus!
