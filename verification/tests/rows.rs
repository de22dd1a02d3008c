use csv::{init, Parser, RowOutcome, State};

fn feed_str(p: &mut Parser, s: &str) {
    p.feed(s.chars().collect());
}

fn row(fields: &[&str]) -> Vec<String> {
    fields.iter().map(|f| f.to_string()).collect()
}

#[test]
fn single_row_three_fields() {
    let mut p = init();
    feed_str(&mut p, "a,b,c\n");
    assert_eq!(p.next(), Some(row(&["a", "b", "c"])));
    assert_eq!(p.next(), None);
}

#[test]
fn round_trip_with_custom_delimiter() {
    let fields = ["x", "yz", ""];
    let joined = format!("{}\n", fields.join("|"));
    let mut p = init();
    p.delim('|');
    feed_str(&mut p, &joined);
    assert_eq!(p.next(), Some(row(&fields)));
}

#[test]
fn carriage_return_discarded() {
    let mut p = init();
    feed_str(&mut p, "a\r\nb\r\n");
    assert_eq!(p.next(), Some(row(&["a"])));
    assert_eq!(p.next(), Some(row(&["b"])));
    assert_eq!(p.next(), None);
}

#[test]
fn carriage_return_inside_line_discarded() {
    let mut p = init();
    feed_str(&mut p, "a\rb,c\n");
    assert_eq!(p.next(), Some(row(&["ab", "c"])));
}

#[test]
fn crlf_alone_is_a_blank_line() {
    let mut p = init();
    feed_str(&mut p, "\r\n");
    assert_eq!(p.next(), None);
}

#[test]
fn partial_row_on_starvation_exactly_once() {
    let mut p = init();
    feed_str(&mut p, "a,b");
    assert_eq!(p.next(), Some(row(&["a", "b"])));
    assert_eq!(p.next(), None);
}

#[test]
fn starvation_via_explicit_protocol() {
    let mut p = init();
    feed_str(&mut p, "a,b");
    assert!(matches!(p.next_row(), RowOutcome::NeedInput));
    assert_eq!(p.starve(), Some(row(&["a", "b"])));
    assert_eq!(p.starve(), None);
}

#[test]
fn empty_input_yields_nothing() {
    let mut p = init();
    assert_eq!(p.next(), None);
    assert!(matches!(p.next_row(), RowOutcome::NeedInput));
    assert_eq!(p.starve(), None);
}

#[test]
fn blank_line_yields_nothing_then_resumes() {
    let mut p = init();
    feed_str(&mut p, "\nx,y\n");
    assert_eq!(p.next(), None);
    assert_eq!(p.next(), Some(row(&["x", "y"])));
}

#[test]
fn blank_line_outcome_is_not_an_empty_field_row() {
    let mut p = init();
    feed_str(&mut p, "\n");
    assert!(matches!(p.next_row(), RowOutcome::BlankLine));
}

#[test]
fn semicolon_delimiter_resplits() {
    let mut p = init();
    p.delim(';');
    feed_str(&mut p, "x;y\n");
    assert_eq!(p.next(), Some(row(&["x", "y"])));
}

#[test]
fn default_delimiter_ignores_semicolons() {
    let mut p = init();
    feed_str(&mut p, "x;y\n");
    assert_eq!(p.next(), Some(row(&["x;y"])));
}

#[test]
fn three_records() {
    let mut p = init();
    feed_str(&mut p, "id,name\n1,alice\n2,bob\n");
    assert_eq!(p.next(), Some(row(&["id", "name"])));
    assert_eq!(p.next(), Some(row(&["1", "alice"])));
    assert_eq!(p.next(), Some(row(&["2", "bob"])));
    assert_eq!(p.next(), None);
}

#[test]
fn chunk_boundary_inside_field() {
    let mut p = init();
    feed_str(&mut p, "ab");
    assert!(matches!(p.next_row(), RowOutcome::NeedInput));
    feed_str(&mut p, "c,d\n");
    match p.next_row() {
        RowOutcome::Row(r) => assert_eq!(r, row(&["abc", "d"])),
        other => panic!("expected a row, got {:?}", other),
    }
}

#[test]
fn trailing_empty_field_kept() {
    let mut p = init();
    feed_str(&mut p, "a,\n");
    assert_eq!(p.next(), Some(row(&["a", ""])));
}

#[test]
fn lone_delimiter_line_gives_two_empty_fields() {
    let mut p = init();
    feed_str(&mut p, ",\n");
    assert_eq!(p.next(), Some(row(&["", ""])));
}

#[test]
fn feed_bytes_valid_utf8() {
    let mut p = init();
    assert!(p.feed_bytes(b"a,b\n".to_vec()));
    assert_eq!(p.next(), Some(row(&["a", "b"])));
}

#[test]
fn feed_bytes_multibyte_utf8() {
    let mut p = init();
    assert!(p.feed_bytes("caf\u{e9},x\n".as_bytes().to_vec()));
    assert_eq!(p.next(), Some(row(&["caf\u{e9}", "x"])));
}

#[test]
fn feed_bytes_invalid_utf8_chunk_dropped() {
    let mut p = init();
    assert!(!p.feed_bytes(vec![0xff, 0xfe, b'a']));
    assert_eq!(p.next(), None);
}

#[test]
fn parse_char_states() {
    let mut p = init();
    assert_eq!(p.parse_char('x'), State::Continue);
    assert_eq!(p.parse_char(','), State::Continue);
    assert_eq!(p.parse_char('\r'), State::Continue);
    assert_eq!(p.parse_char('\n'), State::EndOfRow);
    assert_eq!(p.extract_row(), row(&["x", ""]));
}

#[test]
fn parse_next_char_waits_on_empty_queue() {
    let mut p = init();
    assert_eq!(p.parse_next_char(), State::Wait);
    feed_str(&mut p, "q");
    assert_eq!(p.parse_next_char(), State::Continue);
    assert_eq!(p.parse_next_char(), State::Wait);
}

#[test]
fn extract_row_resets_the_row_buffer() {
    let mut p = init();
    assert_eq!(p.parse_char(','), State::Continue);
    assert_eq!(p.extract_row(), row(&[""]));
    assert_eq!(p.extract_row(), row(&[]));
}

#[test]
fn newline_as_delimiter_splits_lines_into_fields() {
    let mut p = init();
    p.delim('\n');
    feed_str(&mut p, "a\nb\n");
    assert_eq!(p.next(), Some(row(&["a", "b"])));
}
