use typst_shared::extended_info::ExtendedFileDescriptor;
use typst_shared::extended_info::ExtendedFileError;
use typst_shared::extended_info::ExtendedPackageSpec;
use typst_shared::extended_info::ExtendedPackageVersion;
use typst_shared::world::route_file;
use typst_shared::world::Date;
use typst_shared::world::FileRoute;
use typst_shared::world::JavaWorld;
use typst_shared::world::Now;

fn plain(path: &str) -> ExtendedFileDescriptor {
    ExtendedFileDescriptor { pack: None, path: String::from(path) }
}

fn packaged(namespace: &str, path: &str) -> ExtendedFileDescriptor {
    ExtendedFileDescriptor {
        pack: Some(ExtendedPackageSpec {
            namespace: String::from(namespace),
            name: String::from("example"),
            version: ExtendedPackageVersion { major: 1, minor: 2, patch: 3 },
        }),
        path: String::from(path),
    }
}

#[test]
fn routing_sends_only_the_registry_namespace_to_packages() {
    assert_eq!(route_file(&plain("/main.typ")), FileRoute::HostCallback);
    assert_eq!(route_file(&packaged("local", "/lib.typ")), FileRoute::HostCallback);
    assert_eq!(route_file(&packaged("preview", "/lib.typ")), FileRoute::PackageRegistry);
}

#[test]
fn one_slot_per_file_identity() {
    let mut world = JavaWorld::new(None, false);
    let a = world.lookup_or_insert(&plain("/a.typ"));
    let b = world.lookup_or_insert(&plain("/b.typ"));
    let a_again = world.lookup_or_insert(&plain("/a.typ"));
    assert_ne!(a, b);
    assert_eq!(a, a_again);
    // A packaged file with the same path is a different identity.
    let c = world.lookup_or_insert(&packaged("preview", "/a.typ"));
    assert_ne!(a, c);
}

#[test]
fn source_loaded_once_per_pass() {
    let mut world = JavaWorld::new(None, false);
    let id = plain("/main.typ");
    let idx = world.lookup_or_insert(&id);

    // First access: the world demands a load.
    assert!(world.source_begin(idx).is_none());
    let parsed = world.source_finish(idx, Ok(b"Hello".to_vec())).unwrap();
    assert_eq!(parsed.text().as_str(), "Hello");

    // Second access in the same pass: served from the cache.
    let cached = world.source_begin(idx).expect("must be served without a load");
    assert_eq!(cached.unwrap().text().as_str(), "Hello");
}

#[test]
fn reset_reloads_and_fingerprint_reuses() {
    let mut world = JavaWorld::new(None, false);
    let idx = world.lookup_or_insert(&plain("/main.typ"));
    assert!(world.source_begin(idx).is_none());
    world.source_finish(idx, Ok(b"= Title".to_vec())).unwrap();

    world.reset();

    // The loader must be consulted again after a reset.
    assert!(world.source_begin(idx).is_none());
    // Unchanged bytes: the cached parse is served.
    let reused = world.source_finish(idx, Ok(b"= Title".to_vec())).unwrap();
    assert_eq!(reused.text().as_str(), "= Title");

    world.reset();
    assert!(world.source_begin(idx).is_none());
    // Changed bytes: the parse is rebuilt.
    let rebuilt = world.source_finish(idx, Ok(b"= Other".to_vec())).unwrap();
    assert_eq!(rebuilt.text().as_str(), "= Other");
}

#[test]
fn byte_order_mark_is_stripped() {
    let mut world = JavaWorld::new(None, false);
    let idx = world.lookup_or_insert(&plain("/bom.typ"));
    assert!(world.source_begin(idx).is_none());
    let mut bytes = vec![0xefu8, 0xbb, 0xbf];
    bytes.extend_from_slice(b"content");
    let parsed = world.source_finish(idx, Ok(bytes)).unwrap();
    assert_eq!(parsed.text().as_str(), "content");
}

#[test]
fn invalid_utf8_is_a_typed_failure() {
    let mut world = JavaWorld::new(None, false);
    let idx = world.lookup_or_insert(&plain("/bad.typ"));
    assert!(world.source_begin(idx).is_none());
    match world.source_finish(idx, Ok(vec![0xffu8, 0xfe])) {
        Err(ExtendedFileError::InvalidUtf8) => {}
        other => panic!("expected the UTF-8 failure, got {other:?}"),
    }
}

#[test]
fn raw_bytes_cached_like_sources() {
    let mut world = JavaWorld::new(None, false);
    let idx = world.lookup_or_insert(&plain("/img.png"));
    assert!(world.file_begin(idx).is_none());
    let bytes = world.file_finish(idx, Ok(vec![1u8, 2, 3])).unwrap();
    assert_eq!(bytes, vec![1u8, 2, 3]);
    let cached = world.file_begin(idx).expect("must be served without a load");
    assert_eq!(cached.unwrap(), vec![1u8, 2, 3]);
}

#[test]
fn loader_failure_reported_and_cached() {
    let mut world = JavaWorld::new(None, false);
    let idx = world.lookup_or_insert(&plain("/missing.typ"));
    assert!(world.source_begin(idx).is_none());
    let failure = ExtendedFileError::NotFound { path: String::from("/missing.typ") };
    match world.source_finish(idx, Err(failure)) {
        Err(ExtendedFileError::NotFound { path }) => assert_eq!(path, "/missing.typ"),
        other => panic!("expected the stored failure, got {other:?}"),
    }
    match world.source_begin(idx).expect("failures are cached too") {
        Err(ExtendedFileError::NotFound { path }) => assert_eq!(path, "/missing.typ"),
        other => panic!("expected the cached failure, got {other:?}"),
    }
}

#[test]
fn fixed_clock_answers_from_its_instant() {
    let mut world = JavaWorld::new(Some(Now::Fixed { millis: 0, nanos: 0 }), false);
    // The epoch, unshifted.
    assert_eq!(world.today(Some(0)), Some(Date { year: 1970, month: 1, day: 1 }));
    // Shifted east by five hours it is still the first of January.
    assert_eq!(world.today(Some(5)), Some(Date { year: 1970, month: 1, day: 1 }));
    // Shifted west by one hour it is still New Year's Eve of 1969.
    assert_eq!(world.today(Some(-1)), Some(Date { year: 1969, month: 12, day: 31 }));
    // A whole-hour offset beyond a day is rejected.
    assert_eq!(world.today(Some(24)), None);
    assert_eq!(world.today(Some(-24)), None);
}

#[test]
fn absent_clock_gives_no_date() {
    let mut world = JavaWorld::new(None, false);
    assert_eq!(world.today(Some(0)), None);
}

#[test]
fn wall_clock_latched_within_a_pass() {
    let mut world = JavaWorld::new(Some(Now::System { latched: None }), false);
    let first = world.today(Some(0));
    let second = world.today(Some(0));
    // Repeated queries within one pass observe a consistent "now".
    assert_eq!(first, second);
    assert!(first.is_some());
    let d = first.unwrap();
    assert!((1..=12).contains(&d.month));
    assert!((1..=31).contains(&d.day));
}

#[test]
fn auto_load_flag_is_kept() {
    let world = JavaWorld::new(None, true);
    assert!(world.auto_load_central());
    let world = JavaWorld::new(None, false);
    assert!(!world.auto_load_central());
}
