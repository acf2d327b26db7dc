use ts_strip::ast::Span;
use ts_strip::text_writer::{compute_line_starts, JsWriter, LineCol};

#[test]
fn line_starts_of_single_line() {
    assert_eq!(compute_line_starts("abc"), vec![0]);
    assert_eq!(compute_line_starts(""), vec![0]);
}

#[test]
fn line_starts_after_each_newline() {
    assert_eq!(compute_line_starts("a\nbc\n"), vec![0, 2, 5]);
}

#[test]
fn carriage_return_pairs_start_no_line() {
    assert_eq!(compute_line_starts("a\r\nb\nc"), vec![0, 5]);
    assert_eq!(compute_line_starts("a\rb"), vec![0]);
}

#[test]
fn line_starts_count_bytes() {
    assert_eq!(compute_line_starts("é\nx"), vec![0, 3]);
}

#[test]
fn writer_indents_each_new_line() {
    let mut w = JsWriter::new("\n", false);
    w.write_keyword(None, "if");
    w.write_space();
    w.write_punct(None, "{");
    w.write_line();
    w.increase_indent();
    w.write_str("x");
    w.write_semi(None);
    w.write_line();
    w.decrease_indent();
    w.write_punct(None, "}");
    assert_eq!(w.output(), "if {\n    x;\n}");
    assert!(!w.care_about_srcmap());
    assert!(w.source_map().is_none());
}

#[test]
fn writer_maps_span_ends() {
    let mut w = JsWriter::new("\n", true);
    w.write_str("ab");
    w.write_symbol(Span { lo: 10, hi: 13 }, "foo");
    let map = w.source_map().unwrap();
    assert_eq!(map, &vec![(10, LineCol { line: 0, col: 2 }), (13, LineCol { line: 0, col: 5 })]);
}

#[test]
fn writer_skips_dummy_and_repeated_positions() {
    let mut w = JsWriter::new("\n", true);
    w.write_symbol(Span { lo: 0, hi: 4 }, "abcd");
    w.add_srcmap(4);
    assert_eq!(w.source_map().unwrap(), &vec![(4, LineCol { line: 0, col: 4 })]);
}

#[test]
fn pending_position_maps_after_indentation() {
    let mut w = JsWriter::new("\n", true);
    w.increase_indent();
    w.add_srcmap(7);
    w.write_str("x");
    assert_eq!(w.output(), "    x");
    assert_eq!(w.source_map().unwrap(), &vec![(7, LineCol { line: 0, col: 4 })]);
}

#[test]
fn multi_line_literal_moves_position() {
    let mut w = JsWriter::new("\n", true);
    w.write_lit(Span { lo: 1, hi: 9 }, "`a\nbé`");
    assert_eq!(w.source_map().unwrap(), &vec![(1, LineCol { line: 0, col: 0 }), (9, LineCol { line: 1, col: 3 })]);
    w.write_comment("/*\n\n*/");
    w.write_line();
    w.add_srcmap(20);
    w.write_str("z");
    assert_eq!(w.source_map().unwrap().last(), Some(&(20, LineCol { line: 4, col: 0 })));
}
