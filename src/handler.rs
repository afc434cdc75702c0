//! The readings request: validate, ingest once, query, reply.
use vstd::prelude::*;

use crate::config::Config;
use crate::ingest::{
    gate_action, gate_start, gate_step, GateAction, GateActionView, GateEvent, GateEventView,
    GatePhaseView, GateView, IngestError, IngestErrorView, IngestGate,
};
use crate::query::{filtered_query, readings_query, PieceView, ReadingsQuery, ReadingsQueryView, SqlQuery};
use crate::range::{parse_timestamp_range, range_of, range_view, TimestampRange};
use crate::reading::{ReadingView, SensorReading};

verus! {

/// Error code of a request with a malformed `timestamp_range`.
pub const INVALID_RANGE_ERROR: &'static str = "invalid timestamp_range";

/// Usage hint sent with `INVALID_RANGE_ERROR`.
pub const INVALID_RANGE_HINT: &'static str = "use RFC3339 \"start,end\" (e.g. 2025-03-21T00:00:00Z,2025-03-22T00:00:00Z)";

/// Message of a request whose ingestion pass failed.
pub const INGEST_FAILED: &'static str = "ingest failed";

/// Message of a request whose read query failed.
pub const LOAD_FAILED: &'static str = "load failed";

pub const STATUS_OK: u16 = 200;

pub const STATUS_UNPROCESSABLE: u16 = 422;

pub const STATUS_INTERNAL_ERROR: u16 = 500;

/// The answer to a readings request.
#[derive(Debug)]
pub enum Reply {
    /// The readings found, newest first.
    Readings(Vec<SensorReading>),
    /// The `timestamp_range` parameter is malformed; nothing was done.
    InvalidRange,
    /// The ingestion pass failed.
    IngestFailed(IngestError),
    /// The read query failed.
    LoadFailed(String),
}

pub enum ReplyView {
    Readings(Seq<ReadingView>),
    InvalidRange,
    IngestFailed(IngestErrorView),
    LoadFailed(Seq<char>),
}

pub open spec fn reading_views(v: Seq<SensorReading>) -> Seq<ReadingView> {
    v.map_values(|r: SensorReading| r@)
}

impl View for Reply {
    type V = ReplyView;

    open spec fn view(&self) -> ReplyView {
        match self {
            Reply::Readings(v) => ReplyView::Readings(reading_views(v@)),
            Reply::InvalidRange => ReplyView::InvalidRange,
            Reply::IngestFailed(e) => ReplyView::IngestFailed(e@),
            Reply::LoadFailed(m) => ReplyView::LoadFailed(m@),
        }
    }
}

/// HTTP status of a reply.
pub open spec fn reply_status(r: ReplyView) -> u16 {
    match r {
        ReplyView::Readings(_) => STATUS_OK,
        ReplyView::InvalidRange => STATUS_UNPROCESSABLE,
        _ => STATUS_INTERNAL_ERROR,
    }
}

/// Error message of a reply; none for readings.
pub open spec fn reply_error(r: ReplyView) -> Option<Seq<char>> {
    match r {
        ReplyView::Readings(_) => None,
        ReplyView::InvalidRange => Some(INVALID_RANGE_ERROR@),
        ReplyView::IngestFailed(_) => Some(INGEST_FAILED@),
        ReplyView::LoadFailed(_) => Some(LOAD_FAILED@),
    }
}

impl Reply {
    /// The HTTP status.
    pub fn status(&self) -> (r: u16)
        ensures
            r == reply_status(self@),
    {
        match self {
            Reply::Readings(_) => STATUS_OK,
            Reply::InvalidRange => STATUS_UNPROCESSABLE,
            _ => STATUS_INTERNAL_ERROR,
        }
    }

    /// The error message sent to the client; `None` for readings.
    pub fn error_message(&self) -> (r: Option<&'static str>)
        ensures
            match r {
                Some(m) => reply_error(self@) == Some(m@),
                None => reply_error(self@) is None,
            },
    {
        match self {
            Reply::Readings(_) => None,
            Reply::InvalidRange => Some(INVALID_RANGE_ERROR),
            Reply::IngestFailed(_) => Some(INGEST_FAILED),
            Reply::LoadFailed(_) => Some(LOAD_FAILED),
        }
    }

    /// The usage hint sent with a rejected range; `None` otherwise.
    pub fn hint(&self) -> (r: Option<&'static str>)
        ensures
            match r {
                Some(h) => self@ is InvalidRange && h@ == INVALID_RANGE_HINT@,
                None => !(self@ is InvalidRange),
            },
    {
        match self {
            Reply::InvalidRange => Some(INVALID_RANGE_HINT),
            _ => None,
        }
    }
}

/// What the request handler reports back.
pub enum RequestEvent {
    /// An answer for the ingestion gate.
    Gate(GateEvent),
    /// Answer to `RunQuery`: the rows read, or why the read failed.
    Loaded(Result<Vec<SensorReading>, String>),
}

pub enum RequestEventView {
    Gate(GateEventView),
    Loaded(Result<Seq<ReadingView>, Seq<char>>),
}

impl View for RequestEvent {
    type V = RequestEventView;

    open spec fn view(&self) -> RequestEventView {
        match self {
            RequestEvent::Gate(e) => RequestEventView::Gate(e@),
            RequestEvent::Loaded(Ok(v)) => RequestEventView::Loaded(Ok(reading_views(v@))),
            RequestEvent::Loaded(Err(m)) => RequestEventView::Loaded(Err(m@)),
        }
    }
}

/// What the request needs done next.
#[derive(Debug)]
pub enum RequestAction {
    /// Carry out a request of the ingestion gate.
    Gate(GateAction),
    /// Run this read query.
    RunQuery(SqlQuery),
    /// The reply is ready: take it with `into_reply`.
    Respond,
}

pub enum RequestActionView {
    Gate(GateActionView),
    RunQuery(Seq<PieceView>),
    Respond,
}

impl View for RequestAction {
    type V = RequestActionView;

    open spec fn view(&self) -> RequestActionView {
        match self {
            RequestAction::Gate(a) => RequestActionView::Gate(a@),
            RequestAction::RunQuery(q) => RequestActionView::RunQuery(q@),
            RequestAction::Respond => RequestActionView::Respond,
        }
    }
}

pub enum RequestPhaseView {
    Ingesting(GateView),
    Querying,
    Replied(ReplyView),
}

pub struct RequestView {
    pub params: ReadingsQueryView,
    pub range: Option<TimestampRange>,
    pub phase: RequestPhaseView,
}

/// The range text of a request is present and malformed.
pub open spec fn range_rejected(q: ReadingsQueryView) -> bool {
    q.timestamp_range matches Some(t) && range_of(t) is None
}

/// `range` is the parsed form of the request's range text (none without one).
pub open spec fn range_parsed(q: ReadingsQueryView, range: Option<TimestampRange>) -> bool {
    match q.timestamp_range {
        Some(t) => range matches Some(p) && range_of(t) == Some(range_view(p)),
        None => range is None,
    }
}

/// After an ingestion step: query once the pass succeeds, reply with its error if it fails.
pub open spec fn after_gate(g: GateView) -> RequestPhaseView {
    match g.phase {
        GatePhaseView::Done(Ok(())) => RequestPhaseView::Querying,
        GatePhaseView::Done(Err(e)) => RequestPhaseView::Replied(ReplyView::IngestFailed(e)),
        _ => RequestPhaseView::Ingesting(g),
    }
}

/// The handler's decision on an event.
pub open spec fn request_step(r: RequestView, e: RequestEventView) -> RequestView {
    match (r.phase, e) {
        (RequestPhaseView::Ingesting(g), RequestEventView::Gate(ge)) => RequestView {
            phase: after_gate(gate_step(g, ge)),
            ..r
        },
        (RequestPhaseView::Querying, RequestEventView::Loaded(Ok(rows))) => RequestView {
            phase: RequestPhaseView::Replied(ReplyView::Readings(rows)),
            ..r
        },
        (RequestPhaseView::Querying, RequestEventView::Loaded(Err(m))) => RequestView {
            phase: RequestPhaseView::Replied(ReplyView::LoadFailed(m)),
            ..r
        },
        _ => r,
    }
}

/// What the handler asks for in each phase.
pub open spec fn request_action(r: RequestView) -> RequestActionView {
    match r.phase {
        RequestPhaseView::Ingesting(g) => RequestActionView::Gate(gate_action(g)),
        RequestPhaseView::Querying => RequestActionView::RunQuery(readings_query(r.params, r.range)),
        RequestPhaseView::Replied(_) => RequestActionView::Respond,
    }
}

enum RequestPhase {
    Ingesting(IngestGate),
    Querying,
    Replied(Reply),
}

/// One `GET /sql/readings` request, as a state machine driven by `action` and `step`.
pub struct ReadingsRequest {
    params: ReadingsQuery,
    range: Option<TimestampRange>,
    phase: RequestPhase,
}

impl View for ReadingsRequest {
    type V = RequestView;

    closed spec fn view(&self) -> RequestView {
        RequestView {
            params: self.params@,
            range: self.range,
            phase: match self.phase {
                RequestPhase::Ingesting(g) => RequestPhaseView::Ingesting(g@),
                RequestPhase::Querying => RequestPhaseView::Querying,
                RequestPhase::Replied(r) => RequestPhaseView::Replied(r@),
            },
        }
    }
}

impl ReadingsRequest {
    #[verifier::type_invariant]
    closed spec fn inv(self) -> bool {
        self.phase matches RequestPhase::Ingesting(g) ==> !(g@.phase is Done)
    }

    /// Starts a request. A malformed range is answered at once, before any
    /// I/O; otherwise the request begins with an ingestion pass against the
    /// configured upstream.
    pub fn start(params: ReadingsQuery, config: &Config) -> (r: ReadingsRequest)
        ensures
            r@.params == params@,
            range_rejected(params@) ==> r@.phase == RequestPhaseView::Replied(
                ReplyView::InvalidRange,
            ),
            !range_rejected(params@) ==> r@.phase == RequestPhaseView::Ingesting(
                gate_start(config.api_url@, config.api_max_pages as nat),
            ) && range_parsed(params@, r@.range),
    {
        let range = match &params.timestamp_range {
            Some(t) => match parse_timestamp_range(t.as_str()) {
                Some(p) => Some(p),
                None => {
                    return ReadingsRequest { params, range: None, phase: RequestPhase::Replied(Reply::InvalidRange) };
                },
            },
            None => None,
        };
        let gate = IngestGate::new(config.api_url.clone(), config.api_max_pages);
        ReadingsRequest { params, range, phase: RequestPhase::Ingesting(gate) }
    }

    /// What the request needs done next.
    pub fn action(&self) -> (r: RequestAction)
        ensures
            r@ == request_action(self@),
    {
        match &self.phase {
            RequestPhase::Ingesting(g) => RequestAction::Gate(g.action()),
            RequestPhase::Querying => RequestAction::RunQuery(filtered_query(&self.params, self.range)),
            RequestPhase::Replied(_) => RequestAction::Respond,
        }
    }

    /// Takes in the answer to the last request.
    pub fn step(self, e: RequestEvent) -> (r: ReadingsRequest)
        ensures
            r@ == request_step(self@, e@),
    {
        proof {
            use_type_invariant(&self);
        }
        let ReadingsRequest { params, range, phase } = self;
        match (phase, e) {
            (RequestPhase::Ingesting(g), RequestEvent::Gate(ge)) => {
                let g = g.step(ge);
                let phase = match g.outcome() {
                    Some(Ok(())) => RequestPhase::Querying,
                    Some(Err(err)) => RequestPhase::Replied(Reply::IngestFailed(err)),
                    None => RequestPhase::Ingesting(g),
                };
                ReadingsRequest { params, range, phase }
            },
            (RequestPhase::Querying, RequestEvent::Loaded(Ok(rows))) => {
                ReadingsRequest { params, range, phase: RequestPhase::Replied(Reply::Readings(rows)) }
            },
            (RequestPhase::Querying, RequestEvent::Loaded(Err(m))) => {
                ReadingsRequest { params, range, phase: RequestPhase::Replied(Reply::LoadFailed(m)) }
            },
            (phase, _) => ReadingsRequest { params, range, phase },
        }
    }

    /// Whether the reply is ready.
    pub fn is_replied(&self) -> (r: bool)
        ensures
            r == (self@.phase is Replied),
    {
        match self.phase {
            RequestPhase::Replied(_) => true,
            _ => false,
        }
    }

    /// The reply, once ready; `None` before.
    pub fn into_reply(self) -> (r: Option<Reply>)
        ensures
            match self@.phase {
                RequestPhaseView::Replied(x) => r matches Some(y) && y@ == x,
                _ => r is None,
            },
    {
        match self.phase {
            RequestPhase::Replied(r) => Some(r),
            _ => None,
        }
    }
}

} // verus!
