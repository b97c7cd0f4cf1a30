use parking_lot::Mutex;
use std::collections::HashMap;
use typst::comemo::Track;
use typst::diag::FileError;
use typst::diag::FileResult;
use typst::foundations::Bytes;
use typst::foundations::Datetime;
use typst::foundations::Scope;
use typst::layout::PagedDocument;
use typst::routines::EvalMode;
use typst::syntax::FileId;
use typst::syntax::Source;
use typst::syntax::Span;
use typst::syntax::VirtualPath;
use typst::text::Font;
use typst::text::FontBook;
use typst::utils::LazyHash;
use typst::Library;
use typst::World;
use typst::WorldExt;
use typst_kit::fonts::FontSlot;
use typst_kit::fonts::Fonts;
use typst_shared::extended_info::ExtendedFileDescriptor;
use typst_shared::extended_info::ExtendedFileError;
use typst_shared::query::selector_error_message;
use typst_shared::world::JavaWorld;

/// A host-side adapter around the verified world state, with an
/// in-memory table standing in for the host's file callback.
struct TestWorld {
    library: LazyHash<Library>,
    book: LazyHash<FontBook>,
    fonts: Vec<FontSlot>,
    main: FileId,
    state: Mutex<JavaWorld>,
    loads: Mutex<HashMap<String, Result<Vec<u8>, ExtendedFileError>>>,
    callback_calls: Mutex<usize>,
}

fn descriptor_of(id: FileId) -> ExtendedFileDescriptor {
    ExtendedFileDescriptor {
        pack: None,
        path: id.vpath().as_rooted_path().to_str().unwrap().to_string(),
    }
}

fn to_file_error(e: ExtendedFileError) -> FileError {
    match e {
        ExtendedFileError::NotFound { path } => FileError::NotFound(path.into()),
        ExtendedFileError::AccessDenied => FileError::AccessDenied,
        ExtendedFileError::IsDirectory => FileError::IsDirectory,
        ExtendedFileError::NotSource => FileError::NotSource,
        ExtendedFileError::InvalidUtf8 => FileError::InvalidUtf8,
        ExtendedFileError::Package { error: _ } => FileError::Other(None),
        ExtendedFileError::Other { message } => FileError::Other(message.map(Into::into)),
    }
}

impl TestWorld {
    fn new() -> TestWorld {
        let fonts = Fonts::searcher().include_system_fonts(true).search();
        TestWorld {
            library: LazyHash::new(Library::builder().build()),
            book: LazyHash::new(fonts.book),
            fonts: fonts.fonts,
            main: FileId::new(None, VirtualPath::new("/main.typ")),
            state: Mutex::new(JavaWorld::new(None, false)),
            loads: Mutex::new(HashMap::new()),
            callback_calls: Mutex::new(0),
        }
    }

    /// Places a file's content directly into the verified cache, so a
    /// compilation never reaches the file callback for it.
    fn seed(&self, path: &str, content: &str) {
        let desc = ExtendedFileDescriptor { pack: None, path: String::from(path) };
        let mut st = self.state.lock();
        let idx = st.lookup_or_insert(&desc);
        assert!(st.source_begin(idx).is_none());
        st.source_finish(idx, Ok(content.as_bytes().to_vec())).unwrap();
    }

    fn calls(&self) -> usize {
        *self.callback_calls.lock()
    }
}

impl World for TestWorld {
    fn library(&self) -> &LazyHash<Library> {
        &self.library
    }

    fn book(&self) -> &LazyHash<FontBook> {
        &self.book
    }

    fn main(&self) -> FileId {
        self.main
    }

    fn source(&self, id: FileId) -> FileResult<Source> {
        let desc = descriptor_of(id);
        let mut st = self.state.lock();
        let idx = st.lookup_or_insert(&desc);
        let outcome = match st.source_begin(idx) {
            Some(v) => v,
            None => {
                *self.callback_calls.lock() += 1;
                let loaded = self
                    .loads
                    .lock()
                    .get(&desc.path)
                    .cloned()
                    .unwrap_or(Err(ExtendedFileError::NotFound { path: desc.path.clone() }));
                st.source_finish(idx, loaded)
            }
        };
        match outcome {
            Ok(p) => Ok(Source::new(id, p.text().clone())),
            Err(e) => Err(to_file_error(e)),
        }
    }

    fn file(&self, id: FileId) -> FileResult<Bytes> {
        let desc = descriptor_of(id);
        let mut st = self.state.lock();
        let idx = st.lookup_or_insert(&desc);
        let outcome = match st.file_begin(idx) {
            Some(v) => v,
            None => {
                *self.callback_calls.lock() += 1;
                let loaded = self
                    .loads
                    .lock()
                    .get(&desc.path)
                    .cloned()
                    .unwrap_or(Err(ExtendedFileError::NotFound { path: desc.path.clone() }));
                st.file_finish(idx, loaded)
            }
        };
        match outcome {
            Ok(bytes) => Ok(Bytes::new(bytes)),
            Err(e) => Err(to_file_error(e)),
        }
    }

    fn font(&self, index: usize) -> Option<Font> {
        self.fonts[index].get()
    }

    fn today(&self, offset: Option<i64>) -> Option<Datetime> {
        let mut st = self.state.lock();
        let d = st.today(offset)?;
        Datetime::from_ymd(d.year, d.month, d.day)
    }
}

#[test]
fn hello_compiles_to_one_page_without_the_callback() {
    let world = TestWorld::new();
    world.seed("/main.typ", "Hello");
    let result = typst::compile::<PagedDocument>(&world);
    let document = match result.output {
        Ok(doc) => doc,
        Err(errors) => panic!("compilation failed: {:?}", errors),
    };
    assert_eq!(document.pages.len(), 1);
    assert!(result.warnings.is_empty(), "warnings: {:?}", result.warnings);
    // The single in-memory main file was served from the cache; the
    // file callback was never invoked.
    assert_eq!(world.calls(), 0);
}

#[test]
fn missing_main_file_yields_one_diagnostic_naming_it() {
    let world = TestWorld::new();
    // The callback reports the main file as missing.
    let result = typst::compile::<PagedDocument>(&world);
    let errors = match result.output {
        Ok(_) => panic!("compilation must fail without a main file"),
        Err(errors) => errors,
    };
    assert_eq!(errors.len(), 1);
    let diagnostic = &errors[0];
    assert!(
        diagnostic.message.contains("main.typ"),
        "message must reference the file: {}",
        diagnostic.message
    );

    // Resolving the diagnostic's span through the verified resolver
    // never fails, whatever the engine attached to it.
    let range = world.range(diagnostic.span);
    let file = diagnostic.span.id().map(descriptor_of);
    let resolved = world.state.lock().resolve_span_here(
        diagnostic.span.into_raw().get(),
        file,
        range.map(|r| (r.start, r.end)),
    );
    assert_eq!(resolved.native, diagnostic.span.into_raw().get());
}

#[test]
fn failing_selector_reports_the_prefixed_message() {
    let world = TestWorld::new();
    world.seed("/main.typ", "Hello");
    let result = typst::compile::<PagedDocument>(&world);
    assert!(result.output.is_ok(), "the document itself compiles");

    // Evaluating selector source that references an undefined
    // identifier fails; the entry point reports the prefixed message.
    let selector = typst_eval::eval_string(
        &typst::ROUTINES,
        (&world as &dyn World).track(),
        "this_is_not_defined",
        Span::detached(),
        EvalMode::Code,
        Scope::default(),
    );
    let errors = match selector {
        Ok(_) => panic!("an undefined identifier cannot evaluate"),
        Err(errors) => errors,
    };
    let messages: Vec<String> = errors.iter().map(|e| e.message.to_string()).collect();
    let message = selector_error_message(&messages);
    assert!(
        message.starts_with("failed to evaluate selector"),
        "got: {message}"
    );
    assert!(
        message.contains("unknown variable"),
        "the underlying evaluation error is included: {message}"
    );
}
