use typst_shared::extended_info::resolve_span;
use typst_shared::extended_info::ExtendedFileDescriptor;
use typst_shared::extended_info::ExtendedTracepoint;
use typst_shared::extended_info::RawDiagnostic;
use typst_shared::extended_info::Severity;
use typst_shared::extended_info::SpanParts;
use typst_shared::source::ParsedSource;
use typst_shared::world::JavaWorld;

fn plain(path: &str) -> ExtendedFileDescriptor {
    ExtendedFileDescriptor { pack: None, path: String::from(path) }
}

#[test]
fn byte_positions_resolve_to_lines_and_columns() {
    let src = ParsedSource::new(String::from("ab\ncd\nxyz"));
    assert_eq!(src.byte_to_line(0), Some(0));
    assert_eq!(src.byte_to_line(2), Some(0));
    assert_eq!(src.byte_to_line(3), Some(1));
    assert_eq!(src.byte_to_line(6), Some(2));
    assert_eq!(src.byte_to_line(9), Some(2));
    assert_eq!(src.byte_to_line(10), None);

    assert_eq!(src.byte_to_column(0), Some(0));
    assert_eq!(src.byte_to_column(1), Some(1));
    assert_eq!(src.byte_to_column(3), Some(0));
    assert_eq!(src.byte_to_column(8), Some(2));
    assert_eq!(src.byte_to_column(10), None);
}

#[test]
fn multibyte_text_counts_characters_not_bytes() {
    // 'ü' takes two bytes; the column counts characters.
    let src = ParsedSource::new(String::from("tür\nx"));
    assert_eq!(src.len_bytes(), 6);
    assert_eq!(src.byte_to_column(4), Some(3));
    // Position inside the two-byte character is no boundary.
    assert_eq!(src.byte_to_column(2), None);
    assert_eq!(src.byte_to_line(2), Some(0));
    assert_eq!(src.byte_to_column(6), Some(1));
}

#[test]
fn detached_span_resolves_to_sentinels() {
    // A span with no owning file must not fail: the file stays absent
    // and every positional field holds the sentinel.
    let span = resolve_span(42, None, Some((3, 7)), None);
    assert_eq!(span.native, 42);
    assert!(span.file.is_none());
    assert_eq!(span.start_ind, -1);
    assert_eq!(span.end_ind, -1);
    assert_eq!(span.start_line, -1);
    assert_eq!(span.start_col, -1);
    assert_eq!(span.end_line, -1);
    assert_eq!(span.end_col, -1);
}

#[test]
fn known_file_resolves_one_based_positions() {
    let src = ParsedSource::new(String::from("= Title\nBody text"));
    let span = resolve_span(7, Some(plain("/main.typ")), Some((2, 12)), Some(&src));
    assert_eq!(span.native, 7);
    assert_eq!(span.file.as_ref().unwrap().path, "/main.typ");
    assert_eq!(span.start_ind, 2);
    assert_eq!(span.end_ind, 12);
    assert_eq!(span.start_line, 1);
    assert_eq!(span.start_col, 3);
    assert_eq!(span.end_line, 2);
    assert_eq!(span.end_col, 5);
}

#[test]
fn missing_range_resolves_to_sentinels_but_keeps_the_file() {
    let src = ParsedSource::new(String::from("text"));
    let span = resolve_span(1, Some(plain("/main.typ")), None, Some(&src));
    assert_eq!(span.file.as_ref().unwrap().path, "/main.typ");
    assert_eq!(span.start_line, -1);
    assert_eq!(span.end_col, -1);
}

#[test]
fn out_of_range_positions_degrade_to_sentinels() {
    let src = ParsedSource::new(String::from("ab"));
    let span = resolve_span(1, Some(plain("/main.typ")), Some((1, 99)), Some(&src));
    assert_eq!(span.start_line, 1);
    assert_eq!(span.start_col, 2);
    assert_eq!(span.end_ind, 99);
    assert_eq!(span.end_line, -1);
    assert_eq!(span.end_col, -1);
}

#[test]
fn world_resolves_spans_against_its_cache() {
    let mut world = JavaWorld::new(None, false);
    let id = plain("/main.typ");
    let idx = world.lookup_or_insert(&id);
    world.source_begin(idx);
    world.source_finish(idx, Ok(b"one\ntwo".to_vec())).unwrap();

    let span = world.resolve_span_here(9, Some(plain("/main.typ")), Some((4, 7)));
    assert_eq!(span.start_line, 2);
    assert_eq!(span.start_col, 1);
    assert_eq!(span.end_line, 2);
    assert_eq!(span.end_col, 4);

    // A file the cache has never seen yields sentinels, not an error.
    let span = world.resolve_span_here(9, Some(plain("/other.typ")), Some((0, 1)));
    assert_eq!(span.start_line, -1);
    assert!(span.file.is_some());

    // A detached span stays detached.
    let span = world.resolve_span_here(9, None, None);
    assert!(span.file.is_none());
    assert_eq!(span.end_ind, -1);
}

#[test]
fn trace_resolution_preserves_order() {
    let mut world = JavaWorld::new(None, false);
    let idx = world.lookup_or_insert(&plain("/main.typ"));
    world.source_begin(idx);
    world.source_finish(idx, Ok(b"abc\ndef".to_vec())).unwrap();

    let raw = RawDiagnostic {
        severity: Severity::Error,
        message: String::from("something went wrong"),
        span: SpanParts { native: 3, file: Some(plain("/main.typ")), range: Some((4, 5)) },
        trace: vec![
            (
                ExtendedTracepoint::Call { function: Some(String::from("outer")) },
                SpanParts { native: 4, file: Some(plain("/main.typ")), range: Some((0, 1)) },
            ),
            (ExtendedTracepoint::Import, SpanParts { native: 5, file: None, range: None }),
        ],
        hints: vec![String::from("try something else")],
    };
    let resolved = world.resolve_diagnostic(raw);
    assert_eq!(resolved.message, "something went wrong");
    assert_eq!(resolved.span.start_line, 2);
    assert_eq!(resolved.trace.len(), 2);
    match &resolved.trace[0].v {
        ExtendedTracepoint::Call { function } => {
            assert_eq!(function.as_deref(), Some("outer"));
        }
        other => panic!("the first frame must stay first: {other:?}"),
    }
    assert_eq!(resolved.trace[0].span.start_line, 1);
    // The detached frame resolves to sentinels, never to an error.
    assert!(matches!(resolved.trace[1].v, ExtendedTracepoint::Import));
    assert_eq!(resolved.trace[1].span.start_line, -1);
    assert_eq!(resolved.hints, vec![String::from("try something else")]);
}
