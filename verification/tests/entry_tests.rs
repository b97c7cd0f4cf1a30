use typst_shared::buffer::ThickBytePtr;
use typst_shared::compile::page_slice_bounds;
use typst_shared::fmt::format_source;
use typst_shared::hash::LazyHash;
use typst_shared::hash::ManuallyHash;
use typst_shared::label::Label;
use typst_shared::query::output_format;
use typst_shared::query::selector_error_message;
use typst_shared::query::OutputFormat;
use typst_shared::stdlib::feature_indices;

#[test]
fn selector_failure_message_is_prefixed_and_ordered() {
    assert_eq!(
        selector_error_message(&Vec::new()),
        "failed to evaluate selector"
    );
    assert_eq!(
        selector_error_message(&vec![String::from("unknown variable: headings")]),
        "failed to evaluate selector: unknown variable: headings"
    );
    assert_eq!(
        selector_error_message(&vec![String::from("first"), String::from("second")]),
        "failed to evaluate selector: first, second"
    );
}

#[test]
fn output_format_tags() {
    assert_eq!(output_format(0), Some(OutputFormat::Json));
    assert_eq!(output_format(1), Some(OutputFormat::JsonCompact));
    assert_eq!(output_format(2), Some(OutputFormat::Yaml));
    assert_eq!(output_format(3), None);
    assert_eq!(output_format(-1), None);
}

#[test]
fn page_bounds_clamp_into_the_document() {
    assert_eq!(page_slice_bounds(0, 5, 3), (0, 3));
    assert_eq!(page_slice_bounds(1, 2, 5), (1, 2));
    assert_eq!(page_slice_bounds(-3, 10, 4), (0, 4));
    assert_eq!(page_slice_bounds(2, 2, 2), (2, 2));
    assert_eq!(page_slice_bounds(7, 9, 4), (4, 4));
}

#[test]
fn feature_bitset_names_the_html_feature() {
    assert_eq!(feature_indices(0), Vec::<usize>::new());
    assert_eq!(feature_indices(1), vec![0]);
    assert_eq!(feature_indices(2), Vec::<usize>::new());
    assert_eq!(feature_indices(3), vec![0]);
}

#[test]
fn formatting_normalizes_source() {
    let out = typst_shared::fmt::format(String::from("#let  x  =  1"), 80, 2);
    assert!(!out.is_empty());
    assert_ne!(out, "#let  x  =  1");
    assert!(out.contains("#let x = 1"));
}

#[test]
fn formatting_failure_degrades_to_empty() {
    // Source with syntax errors makes the formatter fail; the failure
    // is swallowed into an empty result by design.
    let out = typst_shared::fmt::format(String::from("#let ("), 80, 2);
    assert_eq!(out, "");
}

#[test]
fn formatting_works_on_buffer_handles() {
    let handle = ThickBytePtr::from_str(String::from("#let  y  =  2"));
    let out = format_source(handle, 80, 2);
    let text = out.to_str().unwrap();
    assert!(text.contains("#let y = 2"));
}

#[test]
fn label_round_trip_and_repr() {
    let label = Label::new(String::from("intro"));
    assert_eq!(label.repr(), "<intro>");
    assert_eq!(label.resolve(), "intro");
    let label = Label::construct(String::from("b"));
    assert_eq!(label.into_inner(), "b");
}

#[test]
fn lazy_hash_wraps_and_reuses() {
    let wrapped = LazyHash::new(String::from("value"));
    assert_eq!(wrapped.load_hash(), 0);
    let reused: LazyHash<u32> = LazyHash::reuse(7, &wrapped);
    assert_eq!(reused.load_hash(), 0);
    assert_eq!(reused.into_inner(), 7);
    assert_eq!(wrapped.into_inner(), "value");
}

#[test]
fn manually_hash_compares_by_hash_alone() {
    let a = ManuallyHash::new(String::from("left"), 1234);
    let b = ManuallyHash::new(String::from("right"), 1234);
    let c = ManuallyHash::new(String::from("left"), 5678);
    assert!(a.same_hash(&b));
    assert!(!a.same_hash(&c));
    assert_eq!(a.into_inner(), "left");
}
