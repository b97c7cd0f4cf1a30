//! The engine-facing world: file cache, routing, and clock.
//!
//! The world answers the engine's questions — "give me file X", "what
//! is today's date" — by consulting its per-file cache cells and its
//! clock configuration. The loads themselves cross the boundary (a
//! host callback or a package fetch) and are performed by the caller:
//! the world decides when a load is needed, routes it, and folds the
//! result back into the cache. Calendar arithmetic comes from chrono
//! behind trusted wrappers from plain values to plain values.

use vstd::prelude::*;
use vstd::utf8::decode_utf8;
use vstd::utf8::valid_utf8;
use crate::cache::CacheCell;
use crate::cache::CellModel;
use crate::cache::OfferStep;
use crate::cache::begin_model;
use crate::cache::complete_model;
use crate::cache::loaded_view;
use crate::cache::offer_model;
use crate::cache::outcome_view;
use crate::cache::reset_model;
use crate::cache::OfferModel;
use crate::extended_info::ExtendedFileDescriptor;
use crate::extended_info::ExtendedFileError;
use crate::extended_info::ExtendedSourceDiagnostic;
use crate::extended_info::ExtendedSpan;
use crate::extended_info::ExtendedSpanned;
use crate::extended_info::ExtendedTracepoint;
use crate::extended_info::RawDiagnostic;
use crate::extended_info::SpanParts;
use crate::extended_info::FileDescriptorView;
use crate::extended_info::FileErrorView;
use crate::extended_info::all_unresolved;
use crate::extended_info::column_field;
use crate::extended_info::index_field;
use crate::extended_info::line_field;
use crate::extended_info::resolve_span;
use crate::fingerprint::fingerprint_of;
use crate::fingerprint::outcome_bytes;
use crate::fingerprint::outcome_fingerprint;
use crate::source::ParsedSource;

verus! {

/// Where a file request is routed: to the host's file callback, or to
/// the package registry's own fetch subsystem.
#[derive(Debug, PartialEq, Eq, Structural)]
pub enum FileRoute {
    HostCallback,
    PackageRegistry,
}

/// The routing rule: only files of the default public package registry
/// namespace go to the package subsystem; everything else — including
/// project-relative files with no package — goes to the host callback.
pub open spec fn route_of(id: FileDescriptorView) -> FileRoute {
    match id.pack {
        Some(p) => if p.namespace == "preview"@ {
            FileRoute::PackageRegistry
        } else {
            FileRoute::HostCallback
        },
        None => FileRoute::HostCallback,
    }
}

/// Routes a file request.
pub fn route_file(id: &ExtendedFileDescriptor) -> (r: FileRoute)
    ensures
        r == route_of(id@),
{
    match &id.pack {
        Some(p) => {
            let preview = "preview".to_owned();
            if p.namespace == preview {
                FileRoute::PackageRegistry
            } else {
                FileRoute::HostCallback
            }
        },
        None => FileRoute::HostCallback,
    }
}

/// The clock configuration: a fixed timestamp for reproducible builds,
/// or wall-clock time latched once per pass.
#[derive(Debug, Clone, Copy, PartialEq, Eq, Structural)]
pub enum Now {
    /// A fixed instant, as milliseconds since the epoch plus a
    /// sub-second nanosecond part.
    Fixed { millis: i64, nanos: u32 },
    /// Wall-clock time, read at most once per pass and then latched.
    System { latched: Option<i64> },
}

/// A calendar date handed to the engine.
#[derive(Debug, Clone, Copy, PartialEq, Eq, Structural)]
pub struct Date {
    pub year: i32,
    pub month: u8,
    pub day: u8,
}

impl Date {
    /// The ranges a calendar date's parts lie in.
    pub open spec fn wf(self) -> bool {
        1 <= self.month <= 12 && 1 <= self.day <= 31
    }
}

/// The calendar date of an instant, shifted east by an offset: a
/// function of the two arguments alone.
pub uninterp spec fn civil_date_of(millis: int, offset_secs: int) -> Option<(int, int, int)>;

/// Relies on chrono: `DateTime::<Utc>::from_timestamp_millis`, shifted
/// by `with_timezone(FixedOffset::east_opt(..))` and read back through
/// `Datelike::year`/`month`/`day`. The result depends on the arguments
/// alone; month and day are documented to lie in 1..=12 and 1..=31, and
/// only an out-of-range millisecond count yields `None`.
#[verifier::external_body]
fn civil_date(millis: i64, offset_secs: i32) -> (r: Option<(i32, u32, u32)>)
    requires
        -86400 < offset_secs < 86400,
    ensures
        match r {
            Some((y, m, d)) => {
                &&& civil_date_of(millis as int, offset_secs as int) == Some(
                    (y as int, m as int, d as int),
                )
                &&& 1 <= m <= 12
                &&& 1 <= d <= 31
            },
            None => civil_date_of(millis as int, offset_secs as int) is None,
        },
{
    let dt = chrono::DateTime::<chrono::Utc>::from_timestamp_millis(millis)?;
    let off = chrono::FixedOffset::east_opt(offset_secs)?;
    let local = dt.with_timezone(&off);
    Some((
        chrono::Datelike::year(&local),
        chrono::Datelike::month(&local),
        chrono::Datelike::day(&local),
    ))
}

/// Relies on chrono: as `civil_date`, but in the machine's local time
/// zone, which depends on the environment; only the documented ranges
/// are promised.
#[verifier::external_body]
fn local_civil_date(millis: i64) -> (r: Option<(i32, u32, u32)>)
    ensures
        r matches Some((y, m, d)) ==> 1 <= m <= 12 && 1 <= d <= 31,
{
    let dt = chrono::DateTime::<chrono::Utc>::from_timestamp_millis(millis)?;
    let local = dt.with_timezone(&chrono::Local);
    Some((
        chrono::Datelike::year(&local),
        chrono::Datelike::month(&local),
        chrono::Datelike::day(&local),
    ))
}

/// Relies on chrono's `Utc::now`: the wall clock, about which nothing
/// is promised.
#[verifier::external_body]
fn wall_clock_millis() -> i64 {
    chrono::Utc::now().timestamp_millis()
}

/// The date parts for a fixed instant and a requested offset in hours,
/// as far as they are a function of the arguments: `None` stands for
/// "no date", which an out-of-range offset always yields.
pub open spec fn fixed_date_of(millis: i64, offset_hours: i64) -> Option<(int, int, int)> {
    if -23 <= offset_hours <= 23 {
        civil_date_of(millis as int, offset_hours * 3600)
    } else {
        None
    }
}

/// One file's cache entry: its identity plus one cell for the parsed
/// source and one for the raw bytes.
pub struct FileSlot {
    pub id: ExtendedFileDescriptor,
    pub source: CacheCell<ParsedSource>,
    pub file: CacheCell<Vec<u8>>,
}

/// The model of a file slot.
#[verifier::ext_equal]
pub struct SlotModel {
    pub id: FileDescriptorView,
    pub source: CellModel<Seq<char>>,
    pub file: CellModel<Seq<u8>>,
}

impl View for FileSlot {
    type V = SlotModel;

    open spec fn view(&self) -> SlotModel {
        SlotModel { id: self.id@, source: self.source@, file: self.file@ }
    }
}

/// The model of a world: its slots in creation order, its clock and
/// its registry auto-load flag.
#[verifier::ext_equal]
pub struct WorldModel {
    pub slots: Seq<SlotModel>,
    pub now: Option<Now>,
    pub auto_load_central: bool,
}

/// The index of a file identity among slots, or `-1` if absent.
pub open spec fn slot_index_of(slots: Seq<SlotModel>, id: FileDescriptorView) -> int
    decreases slots.len(),
{
    if slots.len() == 0 {
        -1
    } else if slots[0].id == id {
        0
    } else {
        let r = slot_index_of(slots.drop_first(), id);
        if r == -1 {
            -1
        } else {
            r + 1
        }
    }
}

/// What resolving a span against a world's cached sources means: the
/// raw value and the file pass through; positions resolve through the
/// owning file's cached parse, and hold the sentinel when the span is
/// detached, the range is missing, or no parse is cached.
pub open spec fn resolves_span(
    slots: Seq<SlotModel>,
    native: u64,
    file: Option<ExtendedFileDescriptor>,
    range: Option<(usize, usize)>,
    r: ExtendedSpan,
) -> bool {
    &&& r.native == native
    &&& r.file == file
    &&& match (file, range) {
        (Some(f), Some((s, e))) => {
            let i = slot_index_of(slots, f@);
            let stored = if 0 <= i < slots.len() {
                slots[i].source.data
            } else {
                None
            };
            match stored {
                Some(Ok(text)) => {
                    let b = vstd::utf8::encode_utf8(text);
                    &&& r.start_ind == index_field(s as int)
                    &&& r.end_ind == index_field(e as int)
                    &&& r.start_line == line_field(b, s as int)
                    &&& r.start_col == column_field(b, s as int)
                    &&& r.end_line == line_field(b, e as int)
                    &&& r.end_col == column_field(b, e as int)
                },
                _ => all_unresolved(r),
            }
        },
        _ => all_unresolved(r),
    }
}

/// Everything the engine needs that can be kept as plain state: the
/// per-file cache, the clock and the auto-load flag. The standard
/// library, the font catalog and the callbacks live with the host
/// adapter that drives this state.
pub struct JavaWorld {
    files: Vec<FileSlot>,
    now: Option<Now>,
    auto_load_central: bool,
}

impl View for JavaWorld {
    type V = WorldModel;

    closed spec fn view(&self) -> WorldModel {
        WorldModel {
            slots: self.files@.map_values(|s: FileSlot| s@),
            now: self.now,
            auto_load_central: self.auto_load_central,
        }
    }
}

/// Distinct identities: one slot per logical file.
pub open spec fn slots_wf(slots: Seq<SlotModel>) -> bool {
    forall|i: int, j: int| 0 <= i < j < slots.len() ==> slots[i].id != slots[j].id
}

impl JavaWorld {
    /// Whether the world is well formed.
    pub open spec fn wf(self) -> bool {
        slots_wf(self@.slots)
    }

    /// A fresh world with an empty cache.
    pub fn new(now: Option<Now>, auto_load_central: bool) -> (r: JavaWorld)
        ensures
            r.wf(),
            r@.slots.len() == 0,
            r@.now == now,
            r@.auto_load_central == auto_load_central,
    {
        JavaWorld { files: Vec::new(), now, auto_load_central }
    }

    /// The auto-load flag the world was created with.
    pub fn auto_load_central(&self) -> (r: bool)
        ensures
            r == self@.auto_load_central,
    {
        self.auto_load_central
    }

    /// The slot index of a file identity, if one exists yet.
    fn slot_index(&self, id: &ExtendedFileDescriptor) -> (r: Option<usize>)
        ensures
            match r {
                Some(i) => i == slot_index_of(self@.slots, id@) && i < self@.slots.len(),
                None => slot_index_of(self@.slots, id@) == -1,
            },
    {
        let mut i: usize = 0;
        while i < self.files.len()
            invariant
                i <= self.files@.len(),
                self@.slots.len() == self.files@.len(),
                forall|k: int| 0 <= k < self@.slots.len() ==> self@.slots[k] == self.files@[k]@,
                forall|k: int| 0 <= k < i ==> self@.slots[k].id != id@,
            decreases self.files@.len() - i,
        {
            if self.files[i].id.same_file(id) {
                proof {
                    lemma_slot_index_found(self@.slots, id@, i as int);
                }
                return Some(i);
            }
            i = i + 1;
        }
        proof {
            lemma_slot_index_absent(self@.slots, id@);
        }
        None
    }

    /// Finds the slot of a file identity, creating it on first access;
    /// one slot exists per identity. Returns the slot's index.
    pub fn lookup_or_insert(&mut self, id: &ExtendedFileDescriptor) -> (r: usize)
        requires
            old(self).wf(),
        ensures
            final(self).wf(),
            final(self)@.now == old(self)@.now,
            final(self)@.auto_load_central == old(self)@.auto_load_central,
            r < final(self)@.slots.len(),
            final(self)@.slots[r as int].id == id@,
            r == slot_index_of(final(self)@.slots, id@),
            slot_index_of(old(self)@.slots, id@) >= 0 ==> final(self)@ == old(self)@ && r
                == slot_index_of(old(self)@.slots, id@),
            slot_index_of(old(self)@.slots, id@) == -1 ==> final(self)@.slots == old(
                self,
            )@.slots.push(
                (SlotModel {
                    id: id@,
                    source: CellModel { data: None, fingerprint: 0, accessed: false },
                    file: CellModel { data: None, fingerprint: 0, accessed: false },
                }),
            ),
    {
        match self.slot_index(id) {
            Some(i) => {
                proof {
                    lemma_slot_index_correct(self@.slots, id@);
                }
                i
            },
            None => {
                let slot = FileSlot {
                    id: id.clone(),
                    source: CacheCell::new(),
                    file: CacheCell::new(),
                };
                let r = self.files.len();
                self.files.push(slot);
                proof {
                    let fresh = self@.slots.last();
                    assert(self@.slots =~= old(self)@.slots.push(fresh));
                    assert(fresh =~= (SlotModel {
                        id: id@,
                        source: CellModel { data: None, fingerprint: 0, accessed: false },
                        file: CellModel { data: None, fingerprint: 0, accessed: false },
                    }));
                    lemma_slot_index_push(old(self)@.slots, id@, fresh);
                    lemma_slot_index_missing(old(self)@.slots, id@);
                    assert forall|i: int, j: int|
                        0 <= i < j < self@.slots.len() implies self@.slots[i].id
                        != self@.slots[j].id by {
                        if j < old(self)@.slots.len() {
                            assert(old(self).wf());
                        }
                    }
                }
                r
            },
        }
    }
}

/// The byte-order mark, dropped from the front of loaded text.
pub open spec fn strip_bom(b: Seq<u8>) -> Seq<u8> {
    if b.len() >= 3 && b[0] == 0xef && b[1] == 0xbb && b[2] == 0xbf {
        b.subrange(3, b.len() as int)
    } else {
        b
    }
}

/// What deriving a parsed source from loaded bytes yields: the decoded
/// text after any byte-order mark, or the UTF-8 failure.
pub open spec fn parse_outcome(bytes: Seq<u8>) -> Result<Seq<char>, FileErrorView> {
    if valid_utf8(strip_bom(bytes)) {
        Ok(decode_utf8(strip_bom(bytes)))
    } else {
        Err(FileErrorView::InvalidUtf8)
    }
}

/// One completed source access on a cell, as `source_finish` performs
/// it: fingerprint the load result, offer it, and derive the text when
/// the content changed.
pub open spec fn source_access_model(
    c: CellModel<Seq<char>>,
    loaded: Result<Seq<u8>, FileErrorView>,
) -> (CellModel<Seq<char>>, Result<Seq<char>, FileErrorView>) {
    let fp = fingerprint_of(outcome_bytes(loaded));
    let (c2, step) = offer_model(c, loaded, fp);
    match step {
        OfferModel::Done(v) => (c2, v),
        OfferModel::Parse(bytes, _prev) => {
            let parsed = parse_outcome(bytes);
            (complete_model(c2, parsed), parsed)
        },
    }
}

/// One completed raw-bytes access on a cell, as `file_finish` performs
/// it: the derived value is the loaded bytes themselves.
pub open spec fn file_access_model(
    c: CellModel<Seq<u8>>,
    loaded: Result<Seq<u8>, FileErrorView>,
) -> (CellModel<Seq<u8>>, Result<Seq<u8>, FileErrorView>) {
    let fp = fingerprint_of(outcome_bytes(loaded));
    let (c2, step) = offer_model(c, loaded, fp);
    match step {
        OfferModel::Done(v) => (c2, v),
        OfferModel::Parse(bytes, _prev) => (complete_model(c2, Ok(bytes)), Ok(bytes)),
    }
}

/// Decodes loaded bytes into text, dropping a leading byte-order mark;
/// rejects exactly the payloads that are not valid UTF-8.
fn decode_text(bytes: Vec<u8>) -> (r: Result<String, ExtendedFileError>)
    ensures
        match r {
            Ok(s) => parse_outcome(bytes@) == Ok::<Seq<char>, FileErrorView>(s@),
            Err(e) => parse_outcome(bytes@) == Err::<Seq<char>, FileErrorView>(e@),
        },
{
    let mut bytes = bytes;
    let has_bom = bytes.len() >= 3 && bytes[0] == 0xef && bytes[1] == 0xbb && bytes[2] == 0xbf;
    let payload = if has_bom {
        bytes.split_off(3)
    } else {
        bytes
    };
    match crate::buffer::bytes_into_string(payload) {
        Some(s) => Ok(s),
        None => Err(ExtendedFileError::InvalidUtf8),
    }
}

/// Whether a date result agrees with a civil-date computation.
pub open spec fn date_matches(r: Option<Date>, spec_date: Option<(int, int, int)>) -> bool {
    match (r, spec_date) {
        (None, None) => true,
        (Some(d), Some((y, m, dd))) => d.year == y && d.month == m && d.day == dd && d.wf(),
        _ => false,
    }
}

impl JavaWorld {
    /// Prepares the next pass: every cell forgets that it was
    /// consulted — values and fingerprints survive — and a latched
    /// wall-clock value is dropped.
    pub fn reset(&mut self)
        requires
            old(self).wf(),
        ensures
            final(self).wf(),
            final(self)@.auto_load_central == old(self)@.auto_load_central,
            final(self)@.slots.len() == old(self)@.slots.len(),
            forall|k: int|
                0 <= k < old(self)@.slots.len() ==> {
                    &&& final(self)@.slots[k].id == old(self)@.slots[k].id
                    &&& final(self)@.slots[k].source == reset_model(old(self)@.slots[k].source)
                    &&& final(self)@.slots[k].file == reset_model(old(self)@.slots[k].file)
                },
            final(self)@.now == (match old(self)@.now {
                Some(Now::System { latched: _ }) => Some(Now::System { latched: None }),
                other => other,
            }),
    {
        let n = self.files.len();
        let mut i: usize = 0;
        while i < n
            invariant
                n == self.files@.len(),
                self.files@.len() == old(self).files@.len(),
                i <= n,
                self.now == old(self).now,
                self.auto_load_central == old(self).auto_load_central,
                forall|k: int| #![trigger self.files@[k]]
                    0 <= k < i ==> {
                        &&& self.files@[k]@.id == old(self).files@[k]@.id
                        &&& self.files@[k]@.source == reset_model(old(self).files@[k]@.source)
                        &&& self.files@[k]@.file == reset_model(old(self).files@[k]@.file)
                    },
                forall|k: int| i <= k < n ==> self.files@[k] == old(self).files@[k],
            decreases n - i,
        {
            let slot = vstd::std_specs::vec::vec_index_mut(&mut self.files, i);
            slot.source.reset();
            slot.file.reset();
            i = i + 1;
        }
        match &mut self.now {
            Some(Now::System { latched }) => {
                *latched = None;
            },
            _ => {},
        }
        proof {
            assert forall|a: int, b: int|
                0 <= a < b < self@.slots.len() implies self@.slots[a].id != self@.slots[b].id by {
                assert(self@.slots[a] == self.files@[a]@);
                assert(self@.slots[b] == self.files@[b]@);
                assert(old(self)@.slots[a] == old(self).files@[a]@);
                assert(old(self)@.slots[b] == old(self).files@[b]@);
                assert(old(self).wf());
                assert(old(self)@.slots[a].id != old(self)@.slots[b].id);
            }
        }
    }

    /// Begins a source access on a slot: serves the cached parse when
    /// the slot was already consulted in this pass, else obliges the
    /// caller to load the file and `source_finish`.
    pub fn source_begin(&mut self, idx: usize) -> (r: Option<Result<ParsedSource, ExtendedFileError>>)
        requires
            old(self).wf(),
            idx < old(self)@.slots.len(),
        ensures
            final(self).wf(),
            final(self)@.now == old(self)@.now,
            final(self)@.auto_load_central == old(self)@.auto_load_central,
            ({
                let (m, cached) = begin_model(old(self)@.slots[idx as int].source);
                &&& final(self)@.slots == old(self)@.slots.update(
                    idx as int,
                    (SlotModel { source: m, ..old(self)@.slots[idx as int] }),
                )
                &&& match r {
                    Some(v) => cached == Some(outcome_view(v)),
                    None => cached is None,
                }
            }),
    {
        let slot = vstd::std_specs::vec::vec_index_mut(&mut self.files, idx);
        let r = slot.source.begin();
        proof {
            assert(self@.slots =~= old(self)@.slots.update(
                idx as int,
                (SlotModel { source: self@.slots[idx as int].source, ..old(self)@.slots[idx as int] }),
            ));
            assert(self.wf());
        }
        r
    }

    /// Finishes a source access with the load result: the cell decides
    /// from the fingerprint whether the previous parse is served
    /// unchanged; otherwise the bytes are decoded — reusing the
    /// previous parse's storage — and the outcome is cached.
    pub fn source_finish(&mut self, idx: usize, loaded: Result<Vec<u8>, ExtendedFileError>) -> (r:
        Result<ParsedSource, ExtendedFileError>)
        requires
            old(self).wf(),
            idx < old(self)@.slots.len(),
        ensures
            final(self).wf(),
            final(self)@.now == old(self)@.now,
            final(self)@.auto_load_central == old(self)@.auto_load_central,
            ({
                let (m, out) = source_access_model(
                    old(self)@.slots[idx as int].source,
                    loaded_view(loaded),
                );
                &&& final(self)@.slots == old(self)@.slots.update(
                    idx as int,
                    (SlotModel { source: m, ..old(self)@.slots[idx as int] }),
                )
                &&& outcome_view(r) == out
            }),
    {
        let fp = outcome_fingerprint(&loaded);
        let slot = vstd::std_specs::vec::vec_index_mut(&mut self.files, idx);
        let r = match slot.source.offer(loaded, fp) {
            OfferStep::Done(v) => v,
            OfferStep::Parse(bytes, prev) => {
                let outcome = match decode_text(bytes) {
                    Ok(text) => match prev {
                        Some(mut p) => {
                            p.replace(text);
                            Ok(p)
                        },
                        None => Ok(ParsedSource::new(text)),
                    },
                    Err(e) => Err(e),
                };
                slot.source.complete(outcome)
            },
        };
        proof {
            assert(self@.slots =~= old(self)@.slots.update(
                idx as int,
                (SlotModel { source: self@.slots[idx as int].source, ..old(self)@.slots[idx as int] }),
            ));
            assert(self.wf());
        }
        r
    }

    /// Begins a raw-bytes access on a slot; as `source_begin`, for the
    /// byte cell.
    pub fn file_begin(&mut self, idx: usize) -> (r: Option<Result<Vec<u8>, ExtendedFileError>>)
        requires
            old(self).wf(),
            idx < old(self)@.slots.len(),
        ensures
            final(self).wf(),
            final(self)@.now == old(self)@.now,
            final(self)@.auto_load_central == old(self)@.auto_load_central,
            ({
                let (m, cached) = begin_model(old(self)@.slots[idx as int].file);
                &&& final(self)@.slots == old(self)@.slots.update(
                    idx as int,
                    (SlotModel { file: m, ..old(self)@.slots[idx as int] }),
                )
                &&& match r {
                    Some(v) => cached == Some(outcome_view(v)),
                    None => cached is None,
                }
            }),
    {
        let slot = vstd::std_specs::vec::vec_index_mut(&mut self.files, idx);
        let r = slot.file.begin();
        proof {
            assert(self@.slots =~= old(self)@.slots.update(
                idx as int,
                (SlotModel { file: self@.slots[idx as int].file, ..old(self)@.slots[idx as int] }),
            ));
            assert(self.wf());
        }
        r
    }

    /// Finishes a raw-bytes access with the load result; the cached
    /// value is the bytes themselves.
    pub fn file_finish(&mut self, idx: usize, loaded: Result<Vec<u8>, ExtendedFileError>) -> (r:
        Result<Vec<u8>, ExtendedFileError>)
        requires
            old(self).wf(),
            idx < old(self)@.slots.len(),
        ensures
            final(self).wf(),
            final(self)@.now == old(self)@.now,
            final(self)@.auto_load_central == old(self)@.auto_load_central,
            ({
                let (m, out) = file_access_model(
                    old(self)@.slots[idx as int].file,
                    loaded_view(loaded),
                );
                &&& final(self)@.slots == old(self)@.slots.update(
                    idx as int,
                    (SlotModel { file: m, ..old(self)@.slots[idx as int] }),
                )
                &&& outcome_view(r) == out
            }),
    {
        let fp = outcome_fingerprint(&loaded);
        let slot = vstd::std_specs::vec::vec_index_mut(&mut self.files, idx);
        let r = match slot.file.offer(loaded, fp) {
            OfferStep::Done(v) => v,
            OfferStep::Parse(bytes, _prev) => slot.file.complete(Ok(bytes)),
        };
        proof {
            assert(self@.slots =~= old(self)@.slots.update(
                idx as int,
                (SlotModel { file: self@.slots[idx as int].file, ..old(self)@.slots[idx as int] }),
            ));
            assert(self.wf());
        }
        r
    }

    /// The cached parsed source of a file identity, if a pass has
    /// stored one.
    pub fn parsed_for(&self, id: &ExtendedFileDescriptor) -> (r: Option<&ParsedSource>)
        ensures
            ({
                let i = slot_index_of(self@.slots, id@);
                match r {
                    Some(p) => i >= 0 && i < self@.slots.len() && self@.slots[i].source.data
                        == Some(Ok::<Seq<char>, FileErrorView>(p@)),
                    None => i == -1 || (i < self@.slots.len() && !(self@.slots[i].source.data
                        matches Some(Ok(_)))),
                }
            }),
    {
        match self.slot_index(id) {
            Some(i) => match self.files[i].source.peek() {
                Some(stored) => match stored {
                    Ok(p) => Some(p),
                    Err(_) => None,
                },
                None => None,
            },
            None => None,
        }
    }

    /// Resolves a span against this world's cache: the owning file's
    /// parsed source, when one is cached, supplies line and column
    /// data; a detached span, an unknown file or a missing range yields
    /// the sentinels.
    pub fn resolve_span_here(
        &self,
        native: u64,
        file: Option<ExtendedFileDescriptor>,
        range: Option<(usize, usize)>,
    ) -> (r: ExtendedSpan)
        ensures
            resolves_span(self@.slots, native, file, range, r),
            file is None ==> r.file is None && all_unresolved(r),
    {
        let src = match &file {
            Some(f) => self.parsed_for(f),
            None => None,
        };
        resolve_span(native, file, range, src)
    }

    /// Resolves a span given in raw parts.
    pub fn resolve_span_parts(&self, parts: SpanParts) -> (r: ExtendedSpan)
        ensures
            resolves_span(self@.slots, parts.native, parts.file, parts.range, r),
            parts.file is None ==> r.file is None && all_unresolved(r),
    {
        self.resolve_span_here(parts.native, parts.file, parts.range)
    }

    /// Resolves a diagnostic's call trace element-wise, preserving
    /// order: each frame keeps its tracepoint and gets its span
    /// resolved against this world's cache.
    #[verifier::loop_isolation(false)]
    pub fn resolve_trace(&self, items: Vec<(ExtendedTracepoint, SpanParts)>) -> (r: Vec<
        ExtendedSpanned<ExtendedTracepoint>,
    >)
        ensures
            r@.len() == items@.len(),
            forall|i: int|
                0 <= i < items@.len() ==> {
                    &&& (#[trigger] r@[i]).v == items@[i].0
                    &&& resolves_span(
                        self@.slots,
                        items@[i].1.native,
                        items@[i].1.file,
                        items@[i].1.range,
                        r@[i].span,
                    )
                },
    {
        let ghost given = items@;
        let mut items = items;
        let mut out: Vec<ExtendedSpanned<ExtendedTracepoint>> = Vec::new();
        while items.len() > 0
            invariant
                out@.len() + items@.len() == given.len(),
                items@ == given.skip(out@.len() as int),
                forall|i: int|
                    0 <= i < out@.len() ==> {
                        &&& (#[trigger] out@[i]).v == given[i].0
                        &&& resolves_span(
                            self@.slots,
                            given[i].1.native,
                            given[i].1.file,
                            given[i].1.range,
                            out@[i].span,
                        )
                    },
            decreases items@.len(),
        {
            let (tracepoint, parts) = items.remove(0);
            proof {
                assert(given[out@.len() as int] == (tracepoint, parts));
                assert(given.skip(out@.len() as int).drop_first() =~= given.skip(
                    out@.len() as int + 1,
                ));
            }
            let span = self.resolve_span_parts(parts);
            out.push(ExtendedSpanned { v: tracepoint, span });
        }
        out
    }

    /// Resolves one engine diagnostic to absolute form: severity,
    /// message and hints pass through; the span and every trace frame
    /// are resolved against this world's cache, the trace in order.
    pub fn resolve_diagnostic(&self, raw: RawDiagnostic) -> (r: ExtendedSourceDiagnostic)
        ensures
            r.severity == raw.severity,
            r.message == raw.message,
            r.hints == raw.hints,
            resolves_span(self@.slots, raw.span.native, raw.span.file, raw.span.range, r.span),
            raw.span.file is None ==> r.span.file is None && all_unresolved(r.span),
            r.trace@.len() == raw.trace@.len(),
            forall|i: int|
                0 <= i < raw.trace@.len() ==> {
                    &&& (#[trigger] r.trace@[i]).v == raw.trace@[i].0
                    &&& resolves_span(
                        self@.slots,
                        raw.trace@[i].1.native,
                        raw.trace@[i].1.file,
                        raw.trace@[i].1.range,
                        r.trace@[i].span,
                    )
                },
    {
        let RawDiagnostic { severity, message, span, trace, hints } = raw;
        ExtendedSourceDiagnostic {
            severity,
            span: self.resolve_span_parts(span),
            message,
            trace: self.resolve_trace(trace),
            hints,
        }
    }

    /// Today's date for the engine. A fixed clock always answers from
    /// its configured instant; the wall clock is read at most once per
    /// pass and latched. The date is shifted by the requested whole-
    /// hour offset, or into the machine's local zone when none is
    /// given.
    pub fn today(&mut self, offset_hours: Option<i64>) -> (r: Option<Date>)
        requires
            old(self).wf(),
        ensures
            final(self).wf(),
            final(self)@.slots == old(self)@.slots,
            final(self)@.auto_load_central == old(self)@.auto_load_central,
            match old(self)@.now {
                None => r is None && final(self)@.now == old(self)@.now,
                Some(Now::Fixed { millis, nanos }) => {
                    &&& final(self)@.now == old(self)@.now
                    &&& match offset_hours {
                        Some(h) => date_matches(r, fixed_date_of(millis, h)),
                        None => r matches Some(d) ==> d.wf(),
                    }
                },
                Some(Now::System { latched }) => {
                    &&& final(self)@.now matches Some(Now::System { latched: Some(m) }) && {
                        &&& (latched matches Some(l) ==> m == l)
                        &&& match offset_hours {
                            Some(h) => date_matches(r, fixed_date_of(m, h)),
                            None => r matches Some(d) ==> d.wf(),
                        }
                    }
                },
            },
    {
        let now_copy = self.now;
        let millis = match now_copy {
            None => {
                return None;
            },
            Some(Now::Fixed { millis, nanos: _ }) => millis,
            Some(Now::System { latched }) => {
                match latched {
                    Some(m) => m,
                    None => {
                        let m = wall_clock_millis();
                        self.now = Some(Now::System { latched: Some(m) });
                        m
                    },
                }
            },
        };
        match offset_hours {
            Some(h) => {
                if h < -23 || h > 23 {
                    return None;
                }
                let secs = (h as i32) * 3600;
                match civil_date(millis, secs) {
                    Some((y, m, d)) => Some(Date { year: y, month: m as u8, day: d as u8 }),
                    None => None,
                }
            },
            None => {
                match local_civil_date(millis) {
                    Some((y, m, d)) => Some(Date { year: y, month: m as u8, day: d as u8 }),
                    None => None,
                }
            },
        }
    }
}

/// If a scan found `id` first at position `i`, the recursive index
/// agrees.
proof fn lemma_slot_index_found(slots: Seq<SlotModel>, id: FileDescriptorView, i: int)
    requires
        0 <= i < slots.len(),
        slots[i].id == id,
        forall|k: int| 0 <= k < i ==> slots[k].id != id,
    ensures
        slot_index_of(slots, id) == i,
    decreases i,
{
    if i > 0 {
        lemma_slot_index_found(slots.drop_first(), id, i - 1);
    }
}

/// If no slot holds `id`, the recursive index reports absence.
proof fn lemma_slot_index_absent(slots: Seq<SlotModel>, id: FileDescriptorView)
    requires
        forall|k: int| 0 <= k < slots.len() ==> slots[k].id != id,
    ensures
        slot_index_of(slots, id) == -1,
    decreases slots.len(),
{
    if slots.len() > 0 {
        lemma_slot_index_absent(slots.drop_first(), id);
    }
}

/// A found index lies in range and names a slot with the identity.
proof fn lemma_slot_index_correct(slots: Seq<SlotModel>, id: FileDescriptorView)
    ensures
        slot_index_of(slots, id) >= 0 ==> {
            &&& slot_index_of(slots, id) < slots.len()
            &&& slots[slot_index_of(slots, id)].id == id
        },
    decreases slots.len(),
{
    if slots.len() > 0 {
        lemma_slot_index_correct(slots.drop_first(), id);
    }
}

/// The index is never below the absence marker.
proof fn lemma_slot_index_range(slots: Seq<SlotModel>, id: FileDescriptorView)
    ensures
        slot_index_of(slots, id) >= -1,
    decreases slots.len(),
{
    if slots.len() > 0 {
        lemma_slot_index_range(slots.drop_first(), id);
    }
}

/// An identity reported absent is held by no slot.
proof fn lemma_slot_index_missing(slots: Seq<SlotModel>, id: FileDescriptorView)
    requires
        slot_index_of(slots, id) == -1,
    ensures
        forall|k: int| 0 <= k < slots.len() ==> slots[k].id != id,
    decreases slots.len(),
{
    if slots.len() > 0 {
        lemma_slot_index_range(slots.drop_first(), id);
        lemma_slot_index_missing(slots.drop_first(), id);
        assert forall|k: int| 0 <= k < slots.len() implies slots[k].id != id by {
            if k > 0 {
                assert(slots.drop_first()[k - 1] == slots[k]);
            }
        }
    }
}

/// Appending a slot with a new identity puts it at the end of the
/// search order.
proof fn lemma_slot_index_push(slots: Seq<SlotModel>, id: FileDescriptorView, slot: SlotModel)
    requires
        slot_index_of(slots, id) == -1,
        slot.id == id,
    ensures
        slot_index_of(slots.push(slot), id) == slots.len(),
    decreases slots.len(),
{
    lemma_slot_index_correct(slots, id);
    if slots.len() > 0 {
        assert(slots.push(slot).drop_first() =~= slots.drop_first().push(slot));
        lemma_slot_index_range(slots.drop_first(), id);
        lemma_slot_index_push(slots.drop_first(), id, slot);
    }
}

} // verus!
