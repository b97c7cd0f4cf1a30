use typst_shared::cache::CacheCell;
use typst_shared::cache::OfferStep;
use typst_shared::extended_info::ExtendedFileError;
use typst_shared::fingerprint::outcome_fingerprint;

fn loaded(bytes: &[u8]) -> Result<Vec<u8>, ExtendedFileError> {
    Ok(bytes.to_vec())
}

#[test]
fn loader_invoked_once_per_pass() {
    let mut cell: CacheCell<Vec<u8>> = CacheCell::new();
    assert!(!cell.accessed());

    // First access in the pass: the cell demands a load.
    assert!(cell.begin().is_none());
    assert!(cell.accessed());
    let outcome = loaded(b"content");
    let fp = outcome_fingerprint(&outcome);
    let stored = match cell.offer(outcome, fp) {
        OfferStep::Parse(bytes, prev) => {
            assert_eq!(bytes, b"content".to_vec());
            assert!(prev.is_none());
            cell.complete(Ok(bytes))
        }
        OfferStep::Done(_) => panic!("fresh cell cannot reuse"),
    };
    assert_eq!(stored.unwrap(), b"content".to_vec());

    // Second access in the same pass: served without any load.
    let cached = cell.begin().expect("second access must be served");
    assert_eq!(cached.unwrap(), b"content".to_vec());
}

#[test]
fn reset_reloads_then_reuses_on_matching_fingerprint() {
    let mut cell: CacheCell<Vec<u8>> = CacheCell::new();
    assert!(cell.begin().is_none());
    let outcome = loaded(b"stable");
    let fp = outcome_fingerprint(&outcome);
    match cell.offer(outcome, fp) {
        OfferStep::Parse(bytes, _) => {
            cell.complete(Ok(bytes));
        }
        OfferStep::Done(_) => panic!("fresh cell cannot reuse"),
    }

    cell.reset();
    assert!(!cell.accessed());

    // The next access re-invokes the loader even though nothing changed.
    assert!(cell.begin().is_none());

    // Unchanged content: the same fingerprint serves the stored value.
    let outcome = loaded(b"stable");
    let fp = outcome_fingerprint(&outcome);
    match cell.offer(outcome, fp) {
        OfferStep::Done(v) => assert_eq!(v.unwrap(), b"stable".to_vec()),
        OfferStep::Parse(_, _) => panic!("matching fingerprint must reuse"),
    }
}

#[test]
fn changed_content_is_rederived() {
    let mut cell: CacheCell<Vec<u8>> = CacheCell::new();
    assert!(cell.begin().is_none());
    let outcome = loaded(b"one");
    let fp = outcome_fingerprint(&outcome);
    match cell.offer(outcome, fp) {
        OfferStep::Parse(bytes, _) => {
            cell.complete(Ok(bytes));
        }
        OfferStep::Done(_) => panic!("fresh cell cannot reuse"),
    }

    cell.reset();
    assert!(cell.begin().is_none());

    // Different content: the fingerprint differs, the old value is
    // handed over for reuse and the new bytes are derived.
    let outcome = loaded(b"two");
    let fp = outcome_fingerprint(&outcome);
    match cell.offer(outcome, fp) {
        OfferStep::Parse(bytes, prev) => {
            assert_eq!(bytes, b"two".to_vec());
            assert_eq!(prev.unwrap(), b"one".to_vec());
            let out = cell.complete(Ok(bytes));
            assert_eq!(out.unwrap(), b"two".to_vec());
        }
        OfferStep::Done(_) => panic!("changed content must be rederived"),
    }
}

#[test]
fn load_failures_are_cached_like_values() {
    let mut cell: CacheCell<Vec<u8>> = CacheCell::new();
    assert!(cell.begin().is_none());
    let outcome: Result<Vec<u8>, ExtendedFileError> =
        Err(ExtendedFileError::NotFound { path: String::from("/main.typ") });
    let fp = outcome_fingerprint(&outcome);
    match cell.offer(outcome, fp) {
        OfferStep::Done(v) => match v {
            Err(ExtendedFileError::NotFound { path }) => assert_eq!(path, "/main.typ"),
            other => panic!("stored failure expected, got {other:?}"),
        },
        OfferStep::Parse(_, _) => panic!("a failure is stored, not derived"),
    }

    // Within the pass the failure is served back without a retry.
    match cell.begin().expect("failure must be cached") {
        Err(ExtendedFileError::NotFound { path }) => assert_eq!(path, "/main.typ"),
        other => panic!("cached failure expected, got {other:?}"),
    }
}
