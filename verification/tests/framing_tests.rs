use aionr2::util::{header_line, read_message, write_message, HeaderLine, ReadOutcome};

#[test]
fn write_message_counts_bytes_not_characters() {
    let mut out = Vec::new();
    write_message(&mut out, "héllo→");
    assert_eq!(out, "Content-Length: 9\r\n\r\nhéllo→".as_bytes().to_vec());
}

#[test]
fn write_message_appends_to_what_is_there() {
    let mut out = b"abc".to_vec();
    write_message(&mut out, "");
    assert_eq!(out, b"abcContent-Length: 0\r\n\r\n".to_vec());
    write_message(&mut out, "0123456789");
    assert_eq!(
        out,
        b"abcContent-Length: 0\r\n\r\nContent-Length: 10\r\n\r\n0123456789".to_vec()
    );
}

#[test]
fn write_message_writes_lengths_of_several_digits() {
    let message = "x".repeat(1205);
    let mut out = Vec::new();
    write_message(&mut out, &message);
    let mut expected = b"Content-Length: 1205\r\n\r\n".to_vec();
    expected.extend_from_slice(message.as_bytes());
    assert_eq!(out, expected);
}

#[test]
fn read_message_reads_what_write_message_wrote() {
    let mut out = Vec::new();
    write_message(&mut out, "{\"a\":\"é\"}");
    write_message(&mut out, "second");
    let first = read_message(&out, false);
    assert_eq!(
        first,
        ReadOutcome::Message { body: "{\"a\":\"é\"}".as_bytes().to_vec(), consumed: 32 }
    );
    let second = read_message(&out[32..], false);
    assert_eq!(
        second,
        ReadOutcome::Message { body: b"second".to_vec(), consumed: 27 }
    );
    assert_eq!(read_message(&out[59..], false), ReadOutcome::NeedMore);
    assert_eq!(read_message(&out[59..], true), ReadOutcome::EndOfInput);
}

#[test]
fn header_line_tells_the_lines_apart() {
    assert_eq!(header_line(b"\r\n"), HeaderLine::Blank);
    assert_eq!(header_line(b""), HeaderLine::Blank);
    assert_eq!(header_line(b" \t \n"), HeaderLine::Blank);
    assert_eq!(header_line(b"Content-Length: 42\r\n"), HeaderLine::ContentLength(42));
    assert_eq!(header_line(b"content-length:42"), HeaderLine::ContentLength(42));
    assert_eq!(header_line(b"  CONTENT-LENGTH  :  +7  \r\n"), HeaderLine::ContentLength(7));
    assert_eq!(header_line(b"Content-Length: 007\n"), HeaderLine::ContentLength(7));
    assert_eq!(header_line(b"Content-Length: 0\r\n"), HeaderLine::ContentLength(0));
    assert_eq!(header_line(b"Content-Length: \r\n"), HeaderLine::Other);
    assert_eq!(header_line(b"Content-Length: +\r\n"), HeaderLine::Other);
    assert_eq!(header_line(b"Content-Length: -1\r\n"), HeaderLine::Other);
    assert_eq!(header_line(b"Content-Length: 1 2\r\n"), HeaderLine::Other);
    assert_eq!(header_line(b"Content-Length: 12a\r\n"), HeaderLine::Other);
    assert_eq!(header_line(b"Content-Length 12\r\n"), HeaderLine::Other);
    assert_eq!(header_line(b"Content-Type: application/json\r\n"), HeaderLine::Other);
    assert_eq!(header_line(b"Content_Length: 12\r\n"), HeaderLine::Other);
    assert_eq!(header_line(b": 12\r\n"), HeaderLine::Other);
}

#[test]
fn header_line_takes_the_greatest_length_and_no_greater() {
    let greatest = format!("Content-Length: {}\r\n", usize::MAX);
    assert_eq!(header_line(greatest.as_bytes()), HeaderLine::ContentLength(usize::MAX));
    let too_great = format!("Content-Length: {}0\r\n", usize::MAX);
    assert_eq!(header_line(too_great.as_bytes()), HeaderLine::Other);
    assert_eq!(
        header_line(b"Content-Length: 99999999999999999999999999999999999\r\n"),
        HeaderLine::Other
    );
}

#[test]
fn read_message_waits_for_the_rest() {
    assert_eq!(read_message(b"", false), ReadOutcome::NeedMore);
    assert_eq!(read_message(b"Content-Length: 3", false), ReadOutcome::NeedMore);
    assert_eq!(read_message(b"Content-Length: 3\r\n", false), ReadOutcome::NeedMore);
    assert_eq!(read_message(b"Content-Length: 3\r\n\r\n", false), ReadOutcome::NeedMore);
    assert_eq!(read_message(b"Content-Length: 3\r\n\r\nab", false), ReadOutcome::NeedMore);
    assert_eq!(
        read_message(b"Content-Length: 3\r\n\r\nabc", false),
        ReadOutcome::Message { body: b"abc".to_vec(), consumed: 24 }
    );
    assert_eq!(
        read_message(b"Content-Length: 3\r\n\r\nabcdef", false),
        ReadOutcome::Message { body: b"abc".to_vec(), consumed: 24 }
    );
}

#[test]
fn read_message_at_the_end_of_the_input() {
    assert_eq!(read_message(b"", true), ReadOutcome::EndOfInput);
    assert_eq!(read_message(b"Content-Length: 3", true), ReadOutcome::EndOfInput);
    assert_eq!(read_message(b"Content-Length: 3\r\n", true), ReadOutcome::EndOfInput);
    assert_eq!(read_message(b"Content-Length: 3\r\n\r\n", true), ReadOutcome::Truncated);
    assert_eq!(read_message(b"Content-Length: 3\r\n\r\nab", true), ReadOutcome::Truncated);
    assert_eq!(
        read_message(b"Content-Length: 3\r\n  ", true),
        ReadOutcome::Truncated
    );
    assert_eq!(
        read_message(b"Content-Length: 3\r\n\r\nabc", true),
        ReadOutcome::Message { body: b"abc".to_vec(), consumed: 24 }
    );
}

#[test]
fn read_message_skips_a_header_section_without_a_length() {
    assert_eq!(read_message(b"\r\n", false), ReadOutcome::Skipped { consumed: 2 });
    assert_eq!(
        read_message(b"Content-Type: x\r\n\r\nrest", false),
        ReadOutcome::Skipped { consumed: 19 }
    );
    assert_eq!(
        read_message(b"Content-Length: 0\r\n\r\nrest", false),
        ReadOutcome::Skipped { consumed: 21 }
    );
    assert_eq!(read_message(b"   ", true), ReadOutcome::Skipped { consumed: 3 });
}

#[test]
fn read_message_goes_by_the_last_length() {
    assert_eq!(
        read_message(b"Content-Length: 5\r\nContent-Length: 2\r\n\r\nabcde", false),
        ReadOutcome::Message { body: b"ab".to_vec(), consumed: 42 }
    );
    // A length that cannot be read leaves the one before it in place.
    assert_eq!(
        read_message(b"Content-Length: 2\r\nContent-Length: two\r\n\nabcde", false),
        ReadOutcome::Message { body: b"ab".to_vec(), consumed: 43 }
    );
    assert_eq!(
        read_message(b"Content-Length: 2\r\nContent-Length: 0\r\n\r\nabcde", false),
        ReadOutcome::Skipped { consumed: 40 }
    );
}

#[test]
fn read_message_takes_a_body_of_any_bytes() {
    let mut input = b"content-length:4\n\n".to_vec();
    input.extend_from_slice(&[0, 255, 10, 13]);
    assert_eq!(
        read_message(&input, false),
        ReadOutcome::Message { body: vec![0, 255, 10, 13], consumed: 22 }
    );
}
