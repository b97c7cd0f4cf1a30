//! Boundary-safe forms of engine diagnostics, file errors and file
//! descriptors.
//!
//! The engine's own diagnostic types are interned and engine-internal;
//! the types here carry the same information as plain values that can
//! cross the boundary. Each type has a spec-level view in which text is
//! a character sequence, so contracts can speak of deep equality.

use vstd::prelude::*;

verus! {

/// A package's version.
#[derive(Debug, Clone, Copy, PartialEq, Eq, Structural)]
pub struct ExtendedPackageVersion {
    pub major: u32,
    pub minor: u32,
    pub patch: u32,
}

/// A package identifier: namespace, name and version.
#[derive(Debug)]
pub struct ExtendedPackageSpec {
    pub namespace: String,
    pub name: String,
    pub version: ExtendedPackageVersion,
}

/// The view of a package identifier.
#[verifier::ext_equal]
pub struct PackageSpecView {
    pub namespace: Seq<char>,
    pub name: Seq<char>,
    pub version: ExtendedPackageVersion,
}

impl View for ExtendedPackageSpec {
    type V = PackageSpecView;

    open spec fn view(&self) -> PackageSpecView {
        PackageSpecView { namespace: self.namespace@, name: self.name@, version: self.version }
    }
}

impl Clone for ExtendedPackageSpec {
    fn clone(&self) -> (r: Self)
        ensures
            r@ == self@,
    {
        ExtendedPackageSpec {
            namespace: self.namespace.clone(),
            name: self.name.clone(),
            version: self.version,
        }
    }
}

/// A logical file identity: an optional package plus a rooted path.
/// Immutable once created; the cache key of the world's file cache.
#[derive(Debug)]
pub struct ExtendedFileDescriptor {
    pub pack: Option<ExtendedPackageSpec>,
    pub path: String,
}

/// The view of a file identity.
#[verifier::ext_equal]
pub struct FileDescriptorView {
    pub pack: Option<PackageSpecView>,
    pub path: Seq<char>,
}

impl View for ExtendedFileDescriptor {
    type V = FileDescriptorView;

    open spec fn view(&self) -> FileDescriptorView {
        FileDescriptorView {
            pack: match self.pack {
                Some(p) => Some(p@),
                None => None,
            },
            path: self.path@,
        }
    }
}

impl Clone for ExtendedFileDescriptor {
    fn clone(&self) -> (r: Self)
        ensures
            r@ == self@,
    {
        ExtendedFileDescriptor {
            pack: match &self.pack {
                Some(p) => Some(p.clone()),
                None => None,
            },
            path: self.path.clone(),
        }
    }
}

impl ExtendedFileDescriptor {
    /// Whether two file identities name the same logical file.
    pub fn same_file(&self, other: &ExtendedFileDescriptor) -> (r: bool)
        ensures
            r == (self@ == other@),
    {
        let packs_equal = match (&self.pack, &other.pack) {
            (None, None) => true,
            (Some(a), Some(b)) => {
                let e = a.namespace == b.namespace && a.name == b.name && a.version == b.version;
                proof {
                    if e {
                        assert(a@ =~= b@);
                    }
                }
                e
            },
            _ => false,
        };
        let r = packs_equal && self.path == other.path;
        proof {
            if r {
                assert(self@ =~= other@);
            }
        }
        r
    }
}

/// The ways fetching a package can fail.
#[derive(Debug)]
pub enum ExtendedPackageError {
    NotFound { package: ExtendedPackageSpec },
    VersionNotFound { package: ExtendedPackageSpec, version: ExtendedPackageVersion },
    NetworkFailed { message: Option<String> },
    MalformedArchive { message: Option<String> },
    Other { message: Option<String> },
}

/// The view of a package error.
#[verifier::ext_equal]
pub enum PackageErrorView {
    NotFound { package: PackageSpecView },
    VersionNotFound { package: PackageSpecView, version: ExtendedPackageVersion },
    NetworkFailed { message: Option<Seq<char>> },
    MalformedArchive { message: Option<Seq<char>> },
    Other { message: Option<Seq<char>> },
}

/// The view of an optional string.
pub open spec fn opt_text_view(m: Option<String>) -> Option<Seq<char>> {
    match m {
        Some(s) => Some(s@),
        None => None,
    }
}

impl View for ExtendedPackageError {
    type V = PackageErrorView;

    open spec fn view(&self) -> PackageErrorView {
        match self {
            ExtendedPackageError::NotFound { package } => {
                PackageErrorView::NotFound { package: package@ }
            },
            ExtendedPackageError::VersionNotFound { package, version } => {
                PackageErrorView::VersionNotFound { package: package@, version: *version }
            },
            ExtendedPackageError::NetworkFailed { message } => {
                PackageErrorView::NetworkFailed { message: opt_text_view(*message) }
            },
            ExtendedPackageError::MalformedArchive { message } => {
                PackageErrorView::MalformedArchive { message: opt_text_view(*message) }
            },
            ExtendedPackageError::Other { message } => {
                PackageErrorView::Other { message: opt_text_view(*message) }
            },
        }
    }
}

/// Copies an optional string, preserving its view.
pub fn clone_opt_text(m: &Option<String>) -> (r: Option<String>)
    ensures
        opt_text_view(r) == opt_text_view(*m),
{
    match m {
        Some(s) => Some(s.clone()),
        None => None,
    }
}

impl Clone for ExtendedPackageError {
    fn clone(&self) -> (r: Self)
        ensures
            r@ == self@,
    {
        match self {
            ExtendedPackageError::NotFound { package } => {
                ExtendedPackageError::NotFound { package: package.clone() }
            },
            ExtendedPackageError::VersionNotFound { package, version } => {
                ExtendedPackageError::VersionNotFound {
                    package: package.clone(),
                    version: *version,
                }
            },
            ExtendedPackageError::NetworkFailed { message } => {
                ExtendedPackageError::NetworkFailed { message: clone_opt_text(message) }
            },
            ExtendedPackageError::MalformedArchive { message } => {
                ExtendedPackageError::MalformedArchive { message: clone_opt_text(message) }
            },
            ExtendedPackageError::Other { message } => {
                ExtendedPackageError::Other { message: clone_opt_text(message) }
            },
        }
    }
}

/// The ways loading a file can fail. Loader failures are cached like
/// success values, so the type is cloneable with a faithful view.
#[derive(Debug)]
pub enum ExtendedFileError {
    NotFound { path: String },
    AccessDenied,
    IsDirectory,
    NotSource,
    InvalidUtf8,
    Package { error: ExtendedPackageError },
    Other { message: Option<String> },
}

/// The view of a file error.
#[verifier::ext_equal]
pub enum FileErrorView {
    NotFound { path: Seq<char> },
    AccessDenied,
    IsDirectory,
    NotSource,
    InvalidUtf8,
    Package { error: PackageErrorView },
    Other { message: Option<Seq<char>> },
}

impl View for ExtendedFileError {
    type V = FileErrorView;

    open spec fn view(&self) -> FileErrorView {
        match self {
            ExtendedFileError::NotFound { path } => FileErrorView::NotFound { path: path@ },
            ExtendedFileError::AccessDenied => FileErrorView::AccessDenied,
            ExtendedFileError::IsDirectory => FileErrorView::IsDirectory,
            ExtendedFileError::NotSource => FileErrorView::NotSource,
            ExtendedFileError::InvalidUtf8 => FileErrorView::InvalidUtf8,
            ExtendedFileError::Package { error } => FileErrorView::Package { error: error@ },
            ExtendedFileError::Other { message } => {
                FileErrorView::Other { message: opt_text_view(*message) }
            },
        }
    }
}

impl Clone for ExtendedFileError {
    fn clone(&self) -> (r: Self)
        ensures
            r@ == self@,
    {
        match self {
            ExtendedFileError::NotFound { path } => {
                ExtendedFileError::NotFound { path: path.clone() }
            },
            ExtendedFileError::AccessDenied => ExtendedFileError::AccessDenied,
            ExtendedFileError::IsDirectory => ExtendedFileError::IsDirectory,
            ExtendedFileError::NotSource => ExtendedFileError::NotSource,
            ExtendedFileError::InvalidUtf8 => ExtendedFileError::InvalidUtf8,
            ExtendedFileError::Package { error } => {
                ExtendedFileError::Package { error: error.clone() }
            },
            ExtendedFileError::Other { message } => {
                ExtendedFileError::Other { message: clone_opt_text(message) }
            },
        }
    }
}

/// The result of loading a file across the boundary.
pub type ExtendedFileResult<T> = Result<T, ExtendedFileError>;

/// The severity of an engine diagnostic.
#[derive(Debug, Clone, Copy, PartialEq, Eq, Structural)]
pub enum Severity {
    Error,
    Warning,
}

/// One frame of a diagnostic's call trace.
#[derive(Debug)]
pub enum ExtendedTracepoint {
    Call { function: Option<String> },
    Show { string: String },
    Import,
}

/// The view of a tracepoint.
#[verifier::ext_equal]
pub enum TracepointView {
    Call { function: Option<Seq<char>> },
    Show { string: Seq<char> },
    Import,
}

impl View for ExtendedTracepoint {
    type V = TracepointView;

    open spec fn view(&self) -> TracepointView {
        match self {
            ExtendedTracepoint::Call { function } => {
                TracepointView::Call { function: opt_text_view(*function) }
            },
            ExtendedTracepoint::Show { string } => TracepointView::Show { string: string@ },
            ExtendedTracepoint::Import => TracepointView::Import,
        }
    }
}

/// An interned span resolved to absolute, host-consumable form. A field
/// that could not be resolved holds the sentinel `-1`; positions are
/// 1-based lines and columns.
#[derive(Debug)]
pub struct ExtendedSpan {
    pub native: u64,
    pub file: Option<ExtendedFileDescriptor>,
    pub start_ind: i64,
    pub end_ind: i64,
    pub start_line: i64,
    pub start_col: i64,
    pub end_line: i64,
    pub end_col: i64,
}

/// The view of a resolved span.
#[verifier::ext_equal]
pub struct SpanView {
    pub native: u64,
    pub file: Option<FileDescriptorView>,
    pub start_ind: i64,
    pub end_ind: i64,
    pub start_line: i64,
    pub start_col: i64,
    pub end_line: i64,
    pub end_col: i64,
}

impl View for ExtendedSpan {
    type V = SpanView;

    open spec fn view(&self) -> SpanView {
        SpanView {
            native: self.native,
            file: match self.file {
                Some(f) => Some(f@),
                None => None,
            },
            start_ind: self.start_ind,
            end_ind: self.end_ind,
            start_line: self.start_line,
            start_col: self.start_col,
            end_line: self.end_line,
            end_col: self.end_col,
        }
    }
}

/// A value paired with the resolved span it came from.
#[derive(Debug)]
pub struct ExtendedSpanned<T> {
    pub v: T,
    pub span: ExtendedSpan,
}

/// The view of a spanned value.
#[verifier::ext_equal]
pub struct SpannedView<V> {
    pub v: V,
    pub span: SpanView,
}

impl<T: View> View for ExtendedSpanned<T> {
    type V = SpannedView<T::V>;

    open spec fn view(&self) -> SpannedView<T::V> {
        SpannedView { v: self.v@, span: self.span@ }
    }
}

/// A diagnostic in absolute form: severity, resolved span, message,
/// resolved call trace and hints.
#[derive(Debug)]
pub struct ExtendedSourceDiagnostic {
    pub severity: Severity,
    pub span: ExtendedSpan,
    pub message: String,
    pub trace: Vec<ExtendedSpanned<ExtendedTracepoint>>,
    pub hints: Vec<String>,
}

/// The view of a resolved diagnostic.
#[verifier::ext_equal]
pub struct DiagnosticView {
    pub severity: Severity,
    pub span: SpanView,
    pub message: Seq<char>,
    pub trace: Seq<SpannedView<TracepointView>>,
    pub hints: Seq<Seq<char>>,
}

impl View for ExtendedSourceDiagnostic {
    type V = DiagnosticView;

    open spec fn view(&self) -> DiagnosticView {
        DiagnosticView {
            severity: self.severity,
            span: self.span@,
            message: self.message@,
            trace: self.trace@.map_values(|t: ExtendedSpanned<ExtendedTracepoint>| t@),
            hints: self.hints@.map_values(|h: String| h@),
        }
    }
}

/// The sentinel value of a positional field that could not be resolved.
pub const UNRESOLVED: i64 = -1;

/// A byte index as a span field: the index itself, or the sentinel
/// where it cannot be represented.
pub open spec fn index_field(v: int) -> i64 {
    if v <= i64::MAX as int {
        v as i64
    } else {
        UNRESOLVED
    }
}

/// A zero-based position as a 1-based span field, or the sentinel where
/// the position is undefined or cannot be represented.
pub open spec fn position_field(p: Option<int>) -> i64 {
    match p {
        Some(v) => if v + 1 <= i64::MAX as int {
            (v + 1) as i64
        } else {
            UNRESOLVED
        },
        None => UNRESOLVED,
    }
}

/// The 1-based line field of byte position `p` in text bytes `b`.
pub open spec fn line_field(b: Seq<u8>, p: int) -> i64 {
    if p <= b.len() {
        position_field(Some(crate::source::newlines_before(b, p)))
    } else {
        position_field(None)
    }
}

/// The 1-based column field of byte position `p` in text bytes `b`.
pub open spec fn column_field(b: Seq<u8>, p: int) -> i64 {
    if p <= b.len() && crate::source::is_boundary(b, p) {
        position_field(
            Some(crate::source::char_count(b, crate::source::line_start_before(b, p), p)),
        )
    } else {
        position_field(None)
    }
}

/// Converts a byte index for a span field.
fn to_index_field(v: usize) -> (r: i64)
    ensures
        r == index_field(v as int),
{
    if (v as u64) <= (i64::MAX as u64) {
        v as i64
    } else {
        UNRESOLVED
    }
}

/// Converts an optional zero-based position into a 1-based span field.
fn to_position_field(p: Option<usize>) -> (r: i64)
    ensures
        ({
            let m = match p {
                Some(v) => Some(v as int),
                None => None::<int>,
            };
            r == position_field(m)
        }),
{
    match p {
        Some(v) => {
            if (v as u64) < (i64::MAX as u64) {
                (v as i64) + 1
            } else {
                UNRESOLVED
            }
        },
        None => UNRESOLVED,
    }
}

/// Resolves an interned span to absolute form. A span with no owning
/// file, no byte range or no parsed source — a detached or synthetic
/// span — resolves to the sentinel in every positional field rather
/// than failing; resolution never drops a diagnostic.
pub fn resolve_span(
    native: u64,
    file: Option<ExtendedFileDescriptor>,
    range: Option<(usize, usize)>,
    source: Option<&crate::source::ParsedSource>,
) -> (r: ExtendedSpan)
    ensures
        r.native == native,
        r.file == file,
        file is None ==> r.file is None && all_unresolved(r),
        match (range, source) {
            (Some((s, e)), Some(src)) => {
                let b = vstd::utf8::encode_utf8(src@);
                &&& file is Some ==> {
                    &&& r.start_ind == index_field(s as int)
                    &&& r.end_ind == index_field(e as int)
                    &&& r.start_line == line_field(b, s as int)
                    &&& r.start_col == column_field(b, s as int)
                    &&& r.end_line == line_field(b, e as int)
                    &&& r.end_col == column_field(b, e as int)
                }
                &&& file is None ==> all_unresolved(r)
            },
            _ => all_unresolved(r),
        },
{
    match (&file, range, source) {
        (Some(_), Some((s, e)), Some(src)) => {
            let start_ind = to_index_field(s);
            let end_ind = to_index_field(e);
            let start_line = to_position_field(src.byte_to_line(s));
            let start_col = to_position_field(src.byte_to_column(s));
            let end_line = to_position_field(src.byte_to_line(e));
            let end_col = to_position_field(src.byte_to_column(e));
            ExtendedSpan { native, file, start_ind, end_ind, start_line, start_col, end_line, end_col }
        },
        _ => {
            ExtendedSpan {
                native,
                file,
                start_ind: UNRESOLVED,
                end_ind: UNRESOLVED,
                start_line: UNRESOLVED,
                start_col: UNRESOLVED,
                end_line: UNRESOLVED,
                end_col: UNRESOLVED,
            }
        },
    }
}

/// Whether every positional field of a span holds the sentinel.
pub open spec fn all_unresolved(r: ExtendedSpan) -> bool {
    &&& r.start_ind == UNRESOLVED
    &&& r.end_ind == UNRESOLVED
    &&& r.start_line == UNRESOLVED
    &&& r.start_col == UNRESOLVED
    &&& r.end_line == UNRESOLVED
    &&& r.end_col == UNRESOLVED
}

/// An interned span's raw parts, as the engine reports them: the raw
/// span value, the owning file if any, and the byte range if known.
pub struct SpanParts {
    pub native: u64,
    pub file: Option<ExtendedFileDescriptor>,
    pub range: Option<(usize, usize)>,
}

/// An engine diagnostic before resolution: severity and texts as plain
/// values, spans still in raw parts.
pub struct RawDiagnostic {
    pub severity: Severity,
    pub message: String,
    pub span: SpanParts,
    pub trace: Vec<(ExtendedTracepoint, SpanParts)>,
    pub hints: Vec<String>,
}

/// An output together with the warnings produced while computing it.
#[derive(Debug)]
pub struct ExtendedWarned<T> {
    pub output: T,
    pub warnings: Vec<ExtendedSourceDiagnostic>,
}

/// The view of a warned output.
#[verifier::ext_equal]
pub struct WarnedView<V> {
    pub output: V,
    pub warnings: Seq<DiagnosticView>,
}

impl<T: View> View for ExtendedWarned<T> {
    type V = WarnedView<T::V>;

    open spec fn view(&self) -> WarnedView<T::V> {
        WarnedView {
            output: self.output@,
            warnings: self.warnings@.map_values(|d: ExtendedSourceDiagnostic| d@),
        }
    }
}

} // verus!
