//! The transfer orchestrator's bookkeeping: the single fatal step —
//! creating the destination playlist — and the per-track outcomes that
//! are collected, index-addressed so that concurrent completions cannot
//! disturb source order, into the final transfer report.

use vstd::prelude::*;
use crate::model::{MatchResult, MatchResultView, TransferError, TransferReport};

verus! {

/// What one source track came to in a transfer: its match, and whether
/// the append of the matched identifier went through.
#[derive(Debug)]
pub struct TrackOutcome {
    pub result: MatchResult,
    pub appended: bool,
}

/// The mathematical value of a `TrackOutcome`.
pub struct TrackOutcomeView {
    pub result: MatchResultView,
    pub appended: bool,
}

impl View for TrackOutcome {
    type V = TrackOutcomeView;

    open spec fn view(&self) -> TrackOutcomeView {
        TrackOutcomeView { result: self.result@, appended: self.appended }
    }
}

impl DeepView for TrackOutcome {
    type V = TrackOutcomeView;

    open spec fn deep_view(&self) -> TrackOutcomeView {
        self.view()
    }
}

impl TrackOutcomeView {
    /// An outcome is well formed when an append is claimed only for a
    /// track whose match carries a destination identifier.
    pub open spec fn wf(self) -> bool {
        self.appended ==> self.result.destination_id is Some
    }
}

/// Whether the track this outcome records was carried over whole:
/// matched, and its append accepted.
pub open spec fn spec_carried(o: TrackOutcomeView) -> bool {
    o.appended && o.result.destination_id is Some
}

/// The matches a report carries for these slots: the results of the
/// carried outcomes, in slot order.
pub open spec fn spec_matched_of(slots: Seq<Option<TrackOutcomeView>>) -> Seq<MatchResultView>
    decreases slots.len(),
{
    if slots.len() == 0 {
        Seq::empty()
    } else {
        let rest = spec_matched_of(slots.drop_last());
        match slots.last() {
            Some(o) => if spec_carried(o) {
                rest.push(o.result)
            } else {
                rest
            },
            None => rest,
        }
    }
}

/// How many of these slots hold an outcome that was not carried over.
pub open spec fn spec_failed_count(slots: Seq<Option<TrackOutcomeView>>) -> int
    decreases slots.len(),
{
    if slots.len() == 0 {
        0int
    } else {
        spec_failed_count(slots.drop_last()) + match slots.last() {
            Some(o) => if spec_carried(o) {
                0int
            } else {
                1int
            },
            None => 0int,
        }
    }
}

/// Whether every slot holds an outcome: every source track has been
/// attempted.
pub open spec fn spec_complete(slots: Seq<Option<TrackOutcomeView>>) -> bool {
    forall|k: int| 0 <= k < slots.len() ==> slots[k] is Some
}

/// Collects per-track outcomes for one transfer, each under its source
/// position, so the report lists matches in source order however the
/// per-track work completes.
#[derive(Debug)]
pub struct ReportBuilder {
    pub destination_playlist_id: String,
    pub slots: Vec<Option<TrackOutcome>>,
}

/// The mathematical value of a `ReportBuilder`.
pub struct ReportBuilderView {
    pub destination_playlist_id: Seq<char>,
    pub slots: Seq<Option<TrackOutcomeView>>,
}

impl View for ReportBuilder {
    type V = ReportBuilderView;

    open spec fn view(&self) -> ReportBuilderView {
        ReportBuilderView {
            destination_playlist_id: self.destination_playlist_id@,
            slots: self.slots.deep_view(),
        }
    }
}

impl ReportBuilder {
    /// Opens the bookkeeping for a transfer of `total` source tracks
    /// into the playlist just created: one empty slot per track.
    pub fn new(destination_playlist_id: String, total: usize) -> (r: ReportBuilder)
        ensures
            r@.destination_playlist_id == destination_playlist_id@,
            r@.slots.len() == total,
            forall|k: int| 0 <= k < total ==> r@.slots[k] is None,
    {
        let mut slots: Vec<Option<TrackOutcome>> = Vec::new();
        let mut i: usize = 0;
        while i < total
            invariant
                i <= total,
                slots@.len() == i,
                forall|k: int| 0 <= k < i ==> slots@[k] is None,
            decreases total - i,
        {
            slots.push(None);
            i += 1;
        }
        proof {
            assert forall|k: int| 0 <= k < total implies slots.deep_view()[k] is None by {
                assert(slots@[k] is None);
            }
        }
        ReportBuilder { destination_playlist_id, slots }
    }

    /// How many source tracks this transfer has.
    pub fn total(&self) -> (r: usize)
        ensures
            r == self@.slots.len(),
    {
        self.slots.len()
    }

    /// Records the outcome of the track at source position `index`. Each
    /// track's outcome is produced once per transfer and never retried,
    /// so the slot must still be empty; no other slot moves.
    pub fn record(&mut self, index: usize, outcome: TrackOutcome)
        requires
            index < old(self)@.slots.len(),
            old(self)@.slots[index as int] is None,
            outcome@.wf(),
        ensures
            final(self)@.destination_playlist_id == old(self)@.destination_playlist_id,
            final(self)@.slots == old(self)@.slots.update(index as int, Some(outcome@)),
    {
        self.slots.set(index, Some(outcome));
        proof {
            assert(self@.slots =~= old(self)@.slots.update(index as int, Some(outcome@)));
        }
    }

    /// Whether every source track has been attempted.
    pub fn is_complete(&self) -> (r: bool)
        ensures
            r == spec_complete(self@.slots),
    {
        let n = self.slots.len();
        let mut i: usize = 0;
        while i < n
            invariant
                n == self@.slots.len(),
                i <= n,
                forall|k: int| 0 <= k < i ==> self@.slots[k] is Some,
            decreases n - i,
        {
            if self.slots[i].is_none() {
                proof {
                    assert(self@.slots[i as int] is None);
                }
                return false;
            }
            proof {
                assert(self@.slots[i as int] is Some);
            }
            i += 1;
        }
        true
    }

    /// Closes the transfer once every track has been attempted: the
    /// report lists the carried matches in source order and counts every
    /// other source track as unmatched.
    pub fn finish(self) -> (r: TransferReport)
        requires
            spec_complete(self@.slots),
        ensures
            r.destination_playlist_id@ == self@.destination_playlist_id,
            r.matched.deep_view() == spec_matched_of(self@.slots),
            r.unmatched_count == self@.slots.len() - spec_matched_of(self@.slots).len(),
    {
        let n = self.slots.len();
        let mut matched: Vec<MatchResult> = Vec::new();
        let mut i: usize = 0;
        while i < n
            invariant
                n == self@.slots.len(),
                i <= n,
                matched@.len() <= i,
                matched.deep_view() == spec_matched_of(self@.slots.subrange(0, i as int)),
            decreases n - i,
        {
            proof {
                assert(self@.slots.subrange(0, i + 1).drop_last() =~= self@.slots.subrange(
                    0,
                    i as int,
                ));
                assert(self@.slots.subrange(0, i + 1).last() == self@.slots[i as int]);
            }
            match &self.slots[i] {
                Some(o) => {
                    if o.appended && o.result.destination_id.is_some() {
                        matched.push(o.result.clone());
                        proof {
                            assert(matched.deep_view() =~= spec_matched_of(
                                self@.slots.subrange(0, i + 1),
                            ));
                        }
                    } else {
                        proof {
                            assert(matched.deep_view() =~= spec_matched_of(
                                self@.slots.subrange(0, i + 1),
                            ));
                        }
                    }
                },
                None => {
                    proof {
                        assert(matched.deep_view() =~= spec_matched_of(
                            self@.slots.subrange(0, i + 1),
                        ));
                    }
                },
            }
            i += 1;
        }
        proof {
            assert(self@.slots.subrange(0, n as int) =~= self@.slots);
        }
        let unmatched_count = n - matched.len();
        TransferReport {
            destination_playlist_id: self.destination_playlist_id,
            matched,
            unmatched_count,
        }
    }
}

/// What creating the destination playlist came to: its identifier on a
/// success status whose body carried one, else the raw body as the
/// diagnostic of the single fatal failure.
pub open spec fn spec_create_result(
    status: u16,
    id: Option<Seq<char>>,
    body: Seq<char>,
) -> Result<Seq<char>, Seq<char>> {
    if 200 <= status < 300 {
        match id {
            Some(i) => Ok(i),
            None => Err(body),
        }
    } else {
        Err(body)
    }
}

/// Judges the destination playlist creation response: the extracted
/// identifier on success, else the raw body for diagnostics.
pub fn create_result(status: u16, id: Option<String>, body: String) -> (r: Result<String, String>)
    ensures
        match r {
            Ok(i) => spec_create_result(status, id.deep_view(), body@) == Ok::<
                Seq<char>,
                Seq<char>,
            >(i@),
            Err(b) => spec_create_result(status, id.deep_view(), body@) == Err::<
                Seq<char>,
                Seq<char>,
            >(b@),
        },
{
    if 200 <= status && status < 300 {
        match id {
            Some(i) => Ok(i),
            None => Err(body),
        }
    } else {
        Err(body)
    }
}

/// Opens a transfer. Creating the destination playlist is the one step
/// whose failure is fatal: on failure the error is surfaced at once,
/// nothing is retried, and no bookkeeping exists through which any track
/// could be resolved or appended.
pub fn begin_transfer(create_outcome: Result<String, String>, total: usize) -> (r: Result<
    ReportBuilder,
    TransferError,
>)
    ensures
        match create_outcome {
            Ok(id) => r matches Ok(b) && b@.destination_playlist_id == id@ && b@.slots.len()
                == total && forall|k: int| 0 <= k < total ==> b@.slots[k] is None,
            Err(body) => r matches Err(e) && e matches TransferError::CreateFailed(b) && b@
                == body@,
        },
{
    match create_outcome {
        Ok(id) => Ok(ReportBuilder::new(id, total)),
        Err(body) => Err(TransferError::CreateFailed(body)),
    }
}

/// Every transfer of N tracks reports each of them exactly once: the
/// matches carried over and the unmatched count partition the N slots,
/// so K failures leave exactly N − K matches, however the failures are
/// spread.
pub proof fn lemma_report_partition(slots: Seq<Option<TrackOutcomeView>>)
    requires
        spec_complete(slots),
    ensures
        spec_matched_of(slots).len() + spec_failed_count(slots) == slots.len(),
        slots.len() - spec_matched_of(slots).len() == spec_failed_count(slots),
    decreases slots.len(),
{
    if slots.len() > 0 {
        assert(slots[slots.len() - 1] is Some);
        lemma_report_partition(slots.drop_last());
    }
}

/// Every match a report carries names a destination: only tracks whose
/// search succeeded and whose append was accepted are listed as matched.
pub proof fn lemma_matched_carry_destinations(slots: Seq<Option<TrackOutcomeView>>)
    ensures
        forall|k: int|
            0 <= k < spec_matched_of(slots).len() ==> (#[trigger] spec_matched_of(
                slots,
            )[k]).destination_id is Some,
    decreases slots.len(),
{
    if slots.len() > 0 {
        lemma_matched_carry_destinations(slots.drop_last());
    }
}

/// Recording two different tracks' outcomes in either order leaves the
/// same slots: the report cannot depend on the order in which
/// concurrent per-track work completes.
pub proof fn lemma_record_commutes(
    slots: Seq<Option<TrackOutcomeView>>,
    i: int,
    j: int,
    x: TrackOutcomeView,
    y: TrackOutcomeView,
)
    requires
        0 <= i < slots.len(),
        0 <= j < slots.len(),
        i != j,
    ensures
        slots.update(i, Some(x)).update(j, Some(y)) == slots.update(j, Some(y)).update(i, Some(x)),
{
    assert(slots.update(i, Some(x)).update(j, Some(y)) =~= slots.update(j, Some(y)).update(
        i,
        Some(x),
    ));
}

} // verus!
