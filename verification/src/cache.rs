//! The per-file memoization cell of the file cache.
//!
//! A cell stores the outcome of loading one file — bytes or a typed
//! failure, transformed into a derived value — together with a 128-bit
//! fingerprint of the raw outcome and an accessed flag for the current
//! compilation pass. The cell itself never performs the load: it tells
//! its caller when a load is needed (`begin`), decides from the
//! fingerprint whether the previously derived value can be served
//! unchanged (`offer`), and stores a freshly derived value
//! (`complete`). Fingerprint equality is deliberately treated as
//! content equality; a 128-bit collision serving a stale value is an
//! accepted risk.

use vstd::prelude::*;
use crate::extended_info::ExtendedFileError;
use crate::extended_info::FileErrorView;

verus! {

/// A value the cache can store: it can be duplicated without changing
/// its model.
pub trait CacheValue: View + Sized {
    /// Produces a value with the same model.
    fn dup(&self) -> (r: Self)
        ensures
            r@ == self@,
    ;
}

impl CacheValue for Vec<u8> {
    fn dup(&self) -> (r: Self)
        ensures
            r@ == self@,
    {
        let r = self.clone();
        proof {
            assert forall|i: int| 0 <= i < self@.len() implies r@[i] == self@[i] by {
                assert(cloned::<u8>(self[i], r[i]));
            }
            assert(r@ =~= self@);
        }
        r
    }
}

/// The model of a stored outcome: the derived value's model or the
/// failure's view.
pub open spec fn outcome_view<T: View>(r: Result<T, ExtendedFileError>) -> Result<
    T::V,
    FileErrorView,
> {
    match r {
        Ok(v) => Ok(v@),
        Err(e) => Err(e@),
    }
}

/// The model of a load result: the raw bytes or the failure's view.
pub open spec fn loaded_view(r: Result<Vec<u8>, ExtendedFileError>) -> Result<
    Seq<u8>,
    FileErrorView,
> {
    match r {
        Ok(b) => Ok(b@),
        Err(e) => Err(e@),
    }
}

/// Duplicates a stored outcome without changing its model.
pub fn dup_outcome<T: CacheValue>(r: &Result<T, ExtendedFileError>) -> (d: Result<
    T,
    ExtendedFileError,
>)
    ensures
        outcome_view(d) == outcome_view(*r),
{
    match r {
        Ok(v) => Ok(v.dup()),
        Err(e) => Err(e.clone()),
    }
}

/// The model of a cache cell.
#[verifier::ext_equal]
pub struct CellModel<V> {
    /// The stored outcome, if any pass has completed an access.
    pub data: Option<Result<V, FileErrorView>>,
    /// The fingerprint of the most recently loaded raw outcome.
    pub fingerprint: u128,
    /// Whether the cell has been consulted in the current pass.
    pub accessed: bool,
}

/// What beginning an access does: a cell already consulted in this pass
/// serves its stored outcome with no load; otherwise the cell is marked
/// consulted and the caller must load.
pub open spec fn begin_model<V>(c: CellModel<V>) -> (CellModel<V>, Option<
    Result<V, FileErrorView>,
>) {
    if c.accessed && c.data is Some {
        (c, c.data)
    } else {
        (CellModel { accessed: true, ..c }, None)
    }
}

/// What resetting does between passes: the accessed flag clears; the
/// stored outcome and the fingerprint survive.
pub open spec fn reset_model<V>(c: CellModel<V>) -> CellModel<V> {
    CellModel { accessed: false, ..c }
}

/// The derived value of the previous successful access, available for
/// structure reuse when rebuilding.
pub open spec fn prev_ok<V>(d: Option<Result<V, FileErrorView>>) -> Option<V> {
    match d {
        Some(Ok(v)) => Some(v),
        _ => None,
    }
}

/// The caller's next duty after offering a load result.
pub enum OfferStep<T> {
    /// The outcome to return: either served unchanged because the
    /// fingerprint matched, or a stored load failure.
    Done(Result<T, ExtendedFileError>),
    /// The content changed: derive a new value from these bytes, with
    /// the previous derived value available for reuse, and `complete`.
    Parse(Vec<u8>, Option<T>),
}

/// The model of an offer step.
pub enum OfferModel<V> {
    Done(Result<V, FileErrorView>),
    Parse(Seq<u8>, Option<V>),
}

/// The model of a caller duty.
pub open spec fn offer_step_view<T: View>(s: OfferStep<T>) -> OfferModel<T::V> {
    match s {
        OfferStep::Done(r) => OfferModel::Done(outcome_view(r)),
        OfferStep::Parse(bytes, prev) => OfferModel::Parse(
            bytes@,
            match prev {
                Some(v) => Some(v@),
                None => None,
            },
        ),
    }
}

/// What offering a load result does. The new fingerprint is always
/// recorded. If it matches the old one and an outcome is stored, that
/// outcome is served unchanged. A load failure is stored and served as
/// is. Otherwise the stored outcome is taken out for reuse and the
/// caller must derive and `complete`.
pub open spec fn offer_model<V>(
    c: CellModel<V>,
    loaded: Result<Seq<u8>, FileErrorView>,
    fp: u128,
) -> (CellModel<V>, OfferModel<V>) {
    if c.fingerprint == fp && c.data is Some {
        (CellModel { fingerprint: fp, ..c }, OfferModel::Done(c.data->0))
    } else {
        match loaded {
            Err(e) => (
                CellModel { data: Some(Err(e)), fingerprint: fp, ..c },
                OfferModel::Done(Err(e)),
            ),
            Ok(bytes) => (
                CellModel { data: None, fingerprint: fp, ..c },
                OfferModel::Parse(bytes, prev_ok(c.data)),
            ),
        }
    }
}

/// What completing an access with a freshly derived outcome does.
pub open spec fn complete_model<V>(c: CellModel<V>, value: Result<V, FileErrorView>) -> CellModel<
    V,
> {
    CellModel { data: Some(value), ..c }
}

/// One full logical access, as a caller performs it: begin; if a load
/// is needed, load, offer, and — when the content changed — derive
/// `parsed` and complete.
pub open spec fn access_model<V>(
    c: CellModel<V>,
    loaded: Result<Seq<u8>, FileErrorView>,
    fp: u128,
    parsed: Result<V, FileErrorView>,
) -> (CellModel<V>, Result<V, FileErrorView>) {
    let (c1, cached) = begin_model(c);
    match cached {
        Some(v) => (c1, v),
        None => {
            let (c2, step) = offer_model(c1, loaded, fp);
            match step {
                OfferModel::Done(v) => (c2, v),
                OfferModel::Parse(_, _) => (complete_model(c2, parsed), parsed),
            }
        },
    }
}

/// Within one pass a given file is loaded at most once: after any
/// completed access, a further access in the same pass requests no
/// load and serves exactly the outcome the first access produced,
/// leaving the cell unchanged.
pub proof fn lemma_loader_invoked_once_per_pass<V>(
    c: CellModel<V>,
    loaded: Result<Seq<u8>, FileErrorView>,
    fp: u128,
    parsed: Result<V, FileErrorView>,
)
    ensures
        ({
            let (c1, r1) = access_model(c, loaded, fp, parsed);
            begin_model(c1) == (c1, Some(r1))
        }),
{
}

/// After a reset the loader must be consulted again even for unchanged
/// content, and a reload whose fingerprint matches the stored one
/// serves the previously stored outcome, whatever the reload returned.
pub proof fn lemma_reset_reloads_then_reuses<V>(
    c: CellModel<V>,
    loaded: Result<Seq<u8>, FileErrorView>,
    parsed: Result<V, FileErrorView>,
)
    requires
        c.data is Some,
    ensures
        ({
            let c1 = reset_model(c);
            let (c2, r2) = access_model(c1, loaded, c.fingerprint, parsed);
            &&& begin_model(c1).1 is None
            &&& Some(r2) == c.data
            &&& c2.data == c.data
            &&& c2.fingerprint == c.fingerprint
            &&& c2.accessed
        }),
{
}

/// Lazily processes data for one file.
pub struct CacheCell<T> {
    /// The processed data.
    data: Option<Result<T, ExtendedFileError>>,
    /// A hash of the raw file contents or of the load failure.
    fingerprint: u128,
    /// Whether the slot has been consulted in the current pass.
    accessed: bool,
}

impl<T: View> View for CacheCell<T> {
    type V = CellModel<T::V>;

    closed spec fn view(&self) -> CellModel<T::V> {
        CellModel {
            data: match self.data {
                Some(r) => Some(outcome_view(r)),
                None => None,
            },
            fingerprint: self.fingerprint,
            accessed: self.accessed,
        }
    }
}

impl<T: CacheValue> CacheCell<T> {
    /// Creates a new, empty cell.
    pub fn new() -> (r: Self)
        ensures
            r@.data is None,
            r@.fingerprint == 0,
            !r@.accessed,
    {
        CacheCell { data: None, fingerprint: 0, accessed: false }
    }

    /// Whether the cell was consulted in the ongoing pass.
    pub fn accessed(&self) -> (r: bool)
        ensures
            r == self@.accessed,
    {
        self.accessed
    }

    /// Marks the cell as not yet consulted, in preparation of the next
    /// pass. The stored outcome and the fingerprint survive.
    pub fn reset(&mut self)
        ensures
            final(self)@ == reset_model(old(self)@),
    {
        self.accessed = false;
    }

    /// Begins an access: serves the stored outcome if the cell was
    /// already consulted in this pass, else marks it consulted and
    /// returns `None`, obliging the caller to load.
    pub fn begin(&mut self) -> (r: Option<Result<T, ExtendedFileError>>)
        ensures
            ({
                let (m, cached) = begin_model(old(self)@);
                &&& final(self)@ == m
                &&& match r {
                    Some(v) => cached == Some(outcome_view(v)),
                    None => cached is None,
                }
            }),
    {
        if self.accessed {
            if let Some(data) = &self.data {
                return Some(dup_outcome(data));
            }
        }
        self.accessed = true;
        None
    }

    /// Offers the result of a load together with its fingerprint; tells
    /// the caller whether the stored outcome is served unchanged or a
    /// new value must be derived.
    pub fn offer(&mut self, loaded: Result<Vec<u8>, ExtendedFileError>, fp: u128) -> (r: OfferStep<
        T,
    >)
        ensures
            ({
                let (m, step) = offer_model(old(self)@, loaded_view(loaded), fp);
                &&& final(self)@ == m
                &&& offer_step_view(r) == step
            }),
    {
        let matches_fp = self.fingerprint == fp;
        self.fingerprint = fp;
        if matches_fp {
            if let Some(data) = &self.data {
                return OfferStep::Done(dup_outcome(data));
            }
        }
        match loaded {
            Err(e) => {
                self.data = Some(Err(e.clone()));
                OfferStep::Done(Err(e))
            },
            Ok(bytes) => {
                let prev = match self.data.take() {
                    Some(Ok(v)) => Some(v),
                    _ => None,
                };
                OfferStep::Parse(bytes, prev)
            },
        }
    }

    /// Reads the stored outcome, if any, without touching the pass
    /// discipline; used when presenting diagnostics after a pass.
    pub fn peek(&self) -> (r: Option<&Result<T, ExtendedFileError>>)
        ensures
            match r {
                Some(v) => self@.data == Some(outcome_view(*v)),
                None => self@.data is None,
            },
    {
        self.data.as_ref()
    }

    /// Completes an access by storing the freshly derived outcome; the
    /// same outcome is returned to the caller.
    pub fn complete(&mut self, value: Result<T, ExtendedFileError>) -> (r: Result<
        T,
        ExtendedFileError,
    >)
        ensures
            final(self)@ == complete_model(old(self)@, outcome_view(value)),
            outcome_view(r) == outcome_view(value),
    {
        let out = dup_outcome(&value);
        self.data = Some(value);
        out
    }
}

} // verus!
