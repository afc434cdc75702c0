//! The ingestion gate: load the store from upstream once, when it is empty.
use vstd::prelude::*;

use crate::fetch::{
    page_url, pager_done, pager_start, pager_step, raw_views, PageBody, PageView, Pager, PagerView,
};
use crate::reading::{normalized, RawReadingView, RawSensorReading, ReadingView, SensorReading};

verus! {

/// Why an ingestion pass failed.
#[derive(Debug)]
pub enum IngestError {
    /// The query for existing readings failed.
    Check(String),
    /// An upstream page could not be fetched or read.
    Upstream(String),
    /// Recomputing the per-mesh summaries failed.
    Aggregate(String),
}

pub enum IngestErrorView {
    Check(Seq<char>),
    Upstream(Seq<char>),
    Aggregate(Seq<char>),
}

impl View for IngestError {
    type V = IngestErrorView;

    open spec fn view(&self) -> IngestErrorView {
        match self {
            IngestError::Check(m) => IngestErrorView::Check(m@),
            IngestError::Upstream(m) => IngestErrorView::Upstream(m@),
            IngestError::Aggregate(m) => IngestErrorView::Aggregate(m@),
        }
    }
}

impl IngestError {
    /// A copy of the error.
    pub fn duplicate(&self) -> (r: IngestError)
        ensures
            r@ == self@,
    {
        match self {
            IngestError::Check(m) => IngestError::Check(m.clone()),
            IngestError::Upstream(m) => IngestError::Upstream(m.clone()),
            IngestError::Aggregate(m) => IngestError::Aggregate(m.clone()),
        }
    }
}

pub open spec fn outcome_view(r: Result<(), IngestError>) -> Result<(), IngestErrorView> {
    match r {
        Ok(()) => Ok(()),
        Err(e) => Err(e@),
    }
}

/// What the outside world reports back to an ingestion pass.
pub enum GateEvent {
    /// Answer to `CheckExisting`: whether at least one reading is stored.
    Existence(Result<bool, String>),
    /// Answer to `FetchPage`: the decoded page, or why it could not be had.
    Page(Result<PageBody, String>),
    /// Answer to `StoreRow`.
    Stored(Result<(), String>),
    /// Answer to `RecomputeSummaries`.
    Recomputed(Result<(), String>),
}

pub enum GateEventView {
    Existence(Result<bool, Seq<char>>),
    Page(Result<PageView, Seq<char>>),
    Stored(bool),
    Recomputed(Result<(), Seq<char>>),
}

impl View for GateEvent {
    type V = GateEventView;

    open spec fn view(&self) -> GateEventView {
        match self {
            GateEvent::Existence(Ok(b)) => GateEventView::Existence(Ok(*b)),
            GateEvent::Existence(Err(m)) => GateEventView::Existence(Err(m@)),
            GateEvent::Page(Ok(p)) => GateEventView::Page(Ok(p@)),
            GateEvent::Page(Err(m)) => GateEventView::Page(Err(m@)),
            GateEvent::Stored(r) => GateEventView::Stored(r is Ok),
            GateEvent::Recomputed(Ok(())) => GateEventView::Recomputed(Ok(())),
            GateEvent::Recomputed(Err(m)) => GateEventView::Recomputed(Err(m@)),
        }
    }
}

/// What an ingestion pass asks the outside world to do next.
#[derive(Debug)]
pub enum GateAction {
    /// Ask the store whether any reading exists.
    CheckExisting,
    /// Fetch the upstream page at this address.
    FetchPage(String),
    /// Insert this normalized reading.
    StoreRow(SensorReading),
    /// Recompute the per-mesh summaries over all stored readings.
    RecomputeSummaries,
    /// The pass is over, with this outcome.
    Finished(Result<(), IngestError>),
}

pub enum GateActionView {
    CheckExisting,
    FetchPage(Seq<char>),
    StoreRow(ReadingView),
    RecomputeSummaries,
    Finished(Result<(), IngestErrorView>),
}

impl View for GateAction {
    type V = GateActionView;

    open spec fn view(&self) -> GateActionView {
        match self {
            GateAction::CheckExisting => GateActionView::CheckExisting,
            GateAction::FetchPage(u) => GateActionView::FetchPage(u@),
            GateAction::StoreRow(r) => GateActionView::StoreRow(r@),
            GateAction::RecomputeSummaries => GateActionView::RecomputeSummaries,
            GateAction::Finished(Ok(())) => GateActionView::Finished(Ok(())),
            GateAction::Finished(Err(e)) => GateActionView::Finished(Err(e@)),
        }
    }
}

pub enum GatePhaseView {
    Checking,
    Fetching(PagerView),
    Storing { rows: Seq<RawReadingView>, next: nat },
    Recomputing,
    Done(Result<(), IngestErrorView>),
}

pub struct GateView {
    pub base_url: Seq<char>,
    pub max_pages: nat,
    /// Rows the store accepted during this pass.
    pub stored: nat,
    pub phase: GatePhaseView,
}

/// A pass that has not yet asked anything.
pub open spec fn gate_start(base_url: Seq<char>, max_pages: nat) -> GateView {
    GateView { base_url, max_pages, stored: 0, phase: GatePhaseView::Checking }
}

/// Once all pages are in: store each fetched row, then recompute.
pub open spec fn after_fetch(rows: Seq<RawReadingView>) -> GatePhaseView {
    if rows.len() == 0 {
        GatePhaseView::Recomputing
    } else {
        GatePhaseView::Storing { rows, next: 0 }
    }
}

/// Keep fetching while the pager asks for pages.
pub open spec fn fetch_or_store(p: PagerView) -> GatePhaseView {
    if pager_done(p) {
        after_fetch(p.collected)
    } else {
        GatePhaseView::Fetching(p)
    }
}

/// The decision of an ingestion pass on an event. A failed existence check, page fetch or
/// recompute ends the pass with that error; a failed row insert is skipped.
/// An event that does not answer the current request leaves the pass as it is.
pub open spec fn gate_step(g: GateView, e: GateEventView) -> GateView {
    match (g.phase, e) {
        (GatePhaseView::Checking, GateEventView::Existence(Ok(true))) => GateView {
            phase: GatePhaseView::Done(Ok(())),
            ..g
        },
        (GatePhaseView::Checking, GateEventView::Existence(Ok(false))) => GateView {
            phase: fetch_or_store(pager_start(g.base_url, g.max_pages)),
            ..g
        },
        (GatePhaseView::Checking, GateEventView::Existence(Err(m))) => GateView {
            phase: GatePhaseView::Done(Err(IngestErrorView::Check(m))),
            ..g
        },
        (GatePhaseView::Fetching(p), GateEventView::Page(Ok(page))) => GateView {
            phase: fetch_or_store(pager_step(p, page)),
            ..g
        },
        (GatePhaseView::Fetching(p), GateEventView::Page(Err(m))) => GateView {
            phase: GatePhaseView::Done(Err(IngestErrorView::Upstream(m))),
            ..g
        },
        (GatePhaseView::Storing { rows, next }, GateEventView::Stored(ok)) => GateView {
            stored: if ok {
                g.stored + 1
            } else {
                g.stored
            },
            phase: if next + 1 >= rows.len() {
                GatePhaseView::Recomputing
            } else {
                GatePhaseView::Storing { rows, next: next + 1 }
            },
            ..g
        },
        (GatePhaseView::Recomputing, GateEventView::Recomputed(Ok(()))) => GateView {
            phase: GatePhaseView::Done(Ok(())),
            ..g
        },
        (GatePhaseView::Recomputing, GateEventView::Recomputed(Err(m))) => GateView {
            phase: GatePhaseView::Done(Err(IngestErrorView::Aggregate(m))),
            ..g
        },
        _ => g,
    }
}

/// The request that an ingestion pass makes in each phase.
pub open spec fn gate_action(g: GateView) -> GateActionView {
    match g.phase {
        GatePhaseView::Checking => GateActionView::CheckExisting,
        GatePhaseView::Fetching(p) => GateActionView::FetchPage(page_url(p.base_url, p.cursor)),
        GatePhaseView::Storing { rows, next } => GateActionView::StoreRow(
            normalized(rows[next as int]),
        ),
        GatePhaseView::Recomputing => GateActionView::RecomputeSummaries,
        GatePhaseView::Done(r) => GateActionView::Finished(r),
    }
}

/// Feeds events to an ingestion pass in order.
pub open spec fn gate_run(g: GateView, events: Seq<GateEventView>) -> GateView
    decreases events.len(),
{
    if events.len() == 0 {
        g
    } else {
        gate_run(gate_step(g, events[0]), events.subrange(1, events.len() as int))
    }
}

/// How many upstream pages an ingestion pass asks for while it takes in the events.
pub open spec fn pages_requested(g: GateView, events: Seq<GateEventView>) -> nat
    decreases events.len(),
{
    if events.len() == 0 {
        0
    } else {
        (if gate_action(g) is FetchPage {
            1nat
        } else {
            0nat
        }) + pages_requested(gate_step(g, events[0]), events.subrange(1, events.len() as int))
    }
}

proof fn lemma_done_is_final(g: GateView, events: Seq<GateEventView>)
    requires
        g.phase is Done,
    ensures
        gate_run(g, events) == g,
        pages_requested(g, events) == 0,
    decreases events.len(),
{
    if events.len() > 0 {
        lemma_done_is_final(gate_step(g, events[0]), events.subrange(1, events.len() as int));
    }
}

/// Loading happens once: after a pass that stored at least one row, a later
/// pass whose existence check reports what the store then holds (the rows it
/// had before plus those stored) finishes at once with success, asks for no
/// upstream page and stores nothing, whatever else it is told.
pub proof fn lemma_second_pass_skips_ingest(
    base_url: Seq<char>,
    max_pages: nat,
    rows_before: nat,
    first: Seq<GateEventView>,
    second: Seq<GateEventView>,
)
    requires
        gate_run(gate_start(base_url, max_pages), first).phase == GatePhaseView::Done(Ok(())),
        gate_run(gate_start(base_url, max_pages), first).stored > 0,
        second.len() > 0,
        second[0] == GateEventView::Existence(
            Ok(rows_before + gate_run(gate_start(base_url, max_pages), first).stored > 0),
        ),
    ensures
        gate_run(gate_start(base_url, max_pages), second).phase == GatePhaseView::Done(Ok(())),
        gate_run(gate_start(base_url, max_pages), second).stored == 0,
        pages_requested(gate_start(base_url, max_pages), second) == 0,
{
    let g0 = gate_start(base_url, max_pages);
    let g1 = gate_step(g0, second[0]);
    assert(g1.phase == GatePhaseView::Done(Ok(())));
    lemma_done_is_final(g1, second.subrange(1, second.len() as int));
}

enum GatePhase {
    Checking,
    Fetching(Pager),
    Storing { rows: Vec<RawSensorReading>, next: usize },
    Recomputing,
    Done(Result<(), IngestError>),
}

/// One ingestion pass, as a state machine driven by `action` and `step`.
///
/// The existence check and the loading that follows are separate steps with
/// no lock between them: two passes started together on an empty store can
/// both find it empty and both load it, storing every row twice.
pub struct IngestGate {
    base_url: String,
    max_pages: u32,
    stored: usize,
    phase: GatePhase,
}

spec fn phase_view(phase: GatePhase) -> GatePhaseView {
    match phase {
        GatePhase::Checking => GatePhaseView::Checking,
        GatePhase::Fetching(p) => GatePhaseView::Fetching(p@),
        GatePhase::Storing { rows, next } => GatePhaseView::Storing {
            rows: raw_views(rows@),
            next: next as nat,
        },
        GatePhase::Recomputing => GatePhaseView::Recomputing,
        GatePhase::Done(r) => GatePhaseView::Done(outcome_view(r)),
    }
}

impl View for IngestGate {
    type V = GateView;

    closed spec fn view(&self) -> GateView {
        GateView {
            base_url: self.base_url@,
            max_pages: self.max_pages as nat,
            stored: self.stored as nat,
            phase: phase_view(self.phase),
        }
    }
}

fn phase_after_fetch(rows: Vec<RawSensorReading>) -> (r: GatePhase)
    ensures
        phase_view(r) == after_fetch(raw_views(rows@)),
        r matches GatePhase::Storing { rows: v, next } ==> next < v.len(),
{
    if rows.len() == 0 {
        GatePhase::Recomputing
    } else {
        GatePhase::Storing { rows, next: 0 }
    }
}

impl IngestGate {
    #[verifier::type_invariant]
    closed spec fn inv(self) -> bool {
        match self.phase {
            GatePhase::Checking => self.stored == 0,
            GatePhase::Fetching(p) => !pager_done(p@) && p@.base_url == self.base_url@
                && self.stored == 0,
            GatePhase::Storing { rows, next } => next < rows.len() && self.stored <= next,
            _ => true,
        }
    }

    fn fetch_or_store(p: Pager) -> (r: GatePhase)
        ensures
            phase_view(r) == fetch_or_store(p@),
            r matches GatePhase::Fetching(q) ==> q@ == p@ && !pager_done(q@),
            r matches GatePhase::Storing { rows, next } ==> next < rows.len(),
    {
        if p.is_done() {
            let rows = p.into_readings();
            phase_after_fetch(rows)
        } else {
            GatePhase::Fetching(p)
        }
    }

    /// A pass over the store and the upstream API at `base_url`, fetching at most `max_pages` pages.
    pub fn new(base_url: String, max_pages: u32) -> (r: IngestGate)
        ensures
            r@ == gate_start(base_url@, max_pages as nat),
    {
        IngestGate { base_url, max_pages, stored: 0, phase: GatePhase::Checking }
    }

    /// Whether the pass is over.
    pub fn is_finished(&self) -> (r: bool)
        ensures
            r == (self@.phase is Done),
    {
        match self.phase {
            GatePhase::Done(_) => true,
            _ => false,
        }
    }

    /// The outcome of a finished pass; `None` while the pass goes on.
    pub fn outcome(&self) -> (r: Option<Result<(), IngestError>>)
        ensures
            match self@.phase {
                GatePhaseView::Done(x) => r matches Some(y) && outcome_view(y) == x,
                _ => r is None,
            },
    {
        match &self.phase {
            GatePhase::Done(Ok(())) => Some(Ok(())),
            GatePhase::Done(Err(e)) => Some(Err(e.duplicate())),
            _ => None,
        }
    }

    /// Rows the store accepted during this pass.
    pub fn rows_stored(&self) -> (r: usize)
        ensures
            r == self@.stored,
    {
        self.stored
    }

    /// What the pass needs done next.
    pub fn action(&self) -> (r: GateAction)
        ensures
            r@ == gate_action(self@),
    {
        proof {
            use_type_invariant(self);
        }
        match &self.phase {
            GatePhase::Checking => GateAction::CheckExisting,
            GatePhase::Fetching(p) => {
                let url = p.next_url();
                match url {
                    Some(u) => GateAction::FetchPage(u),
                    None => GateAction::RecomputeSummaries,
                }
            },
            GatePhase::Storing { rows, next } => GateAction::StoreRow(rows[*next].to_transformed()),
            GatePhase::Recomputing => GateAction::RecomputeSummaries,
            GatePhase::Done(Ok(())) => GateAction::Finished(Ok(())),
            GatePhase::Done(Err(e)) => GateAction::Finished(Err(e.duplicate())),
        }
    }

    /// Takes in the answer to the last request.
    pub fn step(self, e: GateEvent) -> (r: IngestGate)
        ensures
            r@ == gate_step(self@, e@),
    {
        proof {
            use_type_invariant(&self);
        }
        let IngestGate { base_url, max_pages, stored, phase } = self;
        match (phase, e) {
            (GatePhase::Checking, GateEvent::Existence(Ok(true))) => {
                IngestGate { base_url, max_pages, stored, phase: GatePhase::Done(Ok(())) }
            },
            (GatePhase::Checking, GateEvent::Existence(Ok(false))) => {
                let p = Pager::new(base_url.clone(), max_pages);
                let phase = IngestGate::fetch_or_store(p);
                IngestGate { base_url, max_pages, stored, phase }
            },
            (GatePhase::Checking, GateEvent::Existence(Err(m))) => {
                IngestGate {
                    base_url,
                    max_pages,
                    stored,
                    phase: GatePhase::Done(Err(IngestError::Check(m))),
                }
            },
            (GatePhase::Fetching(p), GateEvent::Page(Ok(page))) => {
                let mut p = p;
                p.on_page(page);
                let phase = IngestGate::fetch_or_store(p);
                IngestGate { base_url, max_pages, stored, phase }
            },
            (GatePhase::Fetching(_), GateEvent::Page(Err(m))) => {
                IngestGate {
                    base_url,
                    max_pages,
                    stored,
                    phase: GatePhase::Done(Err(IngestError::Upstream(m))),
                }
            },
            (GatePhase::Storing { rows, next }, GateEvent::Stored(res)) => {
                let stored = if res.is_ok() {
                    stored + 1
                } else {
                    stored
                };
                let phase = if next + 1 >= rows.len() {
                    GatePhase::Recomputing
                } else {
                    GatePhase::Storing { rows, next: next + 1 }
                };
                IngestGate { base_url, max_pages, stored, phase }
            },
            (GatePhase::Recomputing, GateEvent::Recomputed(Ok(()))) => {
                IngestGate { base_url, max_pages, stored, phase: GatePhase::Done(Ok(())) }
            },
            (GatePhase::Recomputing, GateEvent::Recomputed(Err(m))) => {
                IngestGate {
                    base_url,
                    max_pages,
                    stored,
                    phase: GatePhase::Done(Err(IngestError::Aggregate(m))),
                }
            },
            (phase, _) => IngestGate { base_url, max_pages, stored, phase },
        }
    }
}

} // verus!
