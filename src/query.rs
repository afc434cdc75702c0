//! The filtered read query over stored readings.
use vstd::prelude::*;

use crate::range::{parse_timestamp_range, range_of, range_view, TimestampRange};
use crate::reading::UtcTimestamp;
use crate::text::opt_text;

verus! {

/// Result cap when the request names none.
pub const DEFAULT_LIMIT: u32 = 1000;

/// Selection of the stored reading columns; every predicate is appended after it.
pub const SELECT_READINGS: &'static str = "SELECT mesh_id, device_id, timestamp_utc, temperature_c, humidity, status, temperature_alert, humidity_alert FROM sensor_data WHERE 1=1";

pub const AND_DEVICE: &'static str = " AND device_id = ";

pub const AND_MESH: &'static str = " AND mesh_id = ";

pub const AND_FROM: &'static str = " AND timestamp_utc >= ";

pub const AND_UNTIL: &'static str = " AND timestamp_utc <= ";

pub const ORDER_NEWEST_FIRST: &'static str = " ORDER BY timestamp_utc DESC";

pub const LIMIT_CLAUSE: &'static str = " LIMIT ";

/// Filter parameters of a readings request.
#[derive(Debug)]
pub struct ReadingsQuery {
    pub device_id: Option<String>,
    pub mesh_id: Option<String>,
    /// Range text, `"start,end"` in RFC 3339.
    pub timestamp_range: Option<String>,
    pub limit: Option<u32>,
}

pub struct ReadingsQueryView {
    pub device_id: Option<Seq<char>>,
    pub mesh_id: Option<Seq<char>>,
    pub timestamp_range: Option<Seq<char>>,
    pub limit: Option<u32>,
}

impl View for ReadingsQuery {
    type V = ReadingsQueryView;

    open spec fn view(&self) -> ReadingsQueryView {
        ReadingsQueryView {
            device_id: opt_text(self.device_id),
            mesh_id: opt_text(self.mesh_id),
            timestamp_range: opt_text(self.timestamp_range),
            limit: self.limit,
        }
    }
}

/// A value handed to the store as a bound parameter.
#[derive(Debug, PartialEq)]
pub enum SqlValue {
    Text(String),
    Timestamp(UtcTimestamp),
    BigInt(i64),
}

/// One step of query assembly: literal SQL text, or a bound parameter.
#[derive(Debug, PartialEq)]
pub enum SqlPiece {
    Sql(String),
    Bind(SqlValue),
}

pub enum PieceView {
    Sql(Seq<char>),
    BindText(Seq<char>),
    BindTimestamp(UtcTimestamp),
    BindBigInt(int),
}

impl View for SqlPiece {
    type V = PieceView;

    open spec fn view(&self) -> PieceView {
        match self {
            SqlPiece::Sql(s) => PieceView::Sql(s@),
            SqlPiece::Bind(SqlValue::Text(s)) => PieceView::BindText(s@),
            SqlPiece::Bind(SqlValue::Timestamp(t)) => PieceView::BindTimestamp(*t),
            SqlPiece::Bind(SqlValue::BigInt(n)) => PieceView::BindBigInt(*n as int),
        }
    }
}

/// A parameterized query: SQL text and bound values in the order they are pushed.
#[derive(Debug)]
pub struct SqlQuery {
    pub pieces: Vec<SqlPiece>,
}

pub open spec fn pieces_view(v: Seq<SqlPiece>) -> Seq<PieceView> {
    v.map_values(|p: SqlPiece| p@)
}

impl View for SqlQuery {
    type V = Seq<PieceView>;

    open spec fn view(&self) -> Seq<PieceView> {
        pieces_view(self.pieces@)
    }
}

/// An equality predicate on a column, present only when the filter names a value.
pub open spec fn eq_pieces(clause: Seq<char>, value: Option<Seq<char>>) -> Seq<PieceView> {
    match value {
        Some(v) => seq![PieceView::Sql(clause), PieceView::BindText(v)],
        None => Seq::empty(),
    }
}

/// A bound on `timestamp_utc`, present only when that side of the range is closed.
pub open spec fn bound_pieces(clause: Seq<char>, value: Option<UtcTimestamp>) -> Seq<PieceView> {
    match value {
        Some(t) => seq![PieceView::Sql(clause), PieceView::BindTimestamp(t)],
        None => Seq::empty(),
    }
}

/// The limit in force: the requested one, else the default.
pub open spec fn limit_of(limit: Option<u32>) -> int {
    match limit {
        Some(n) => n as int,
        None => DEFAULT_LIMIT as int,
    }
}

/// The read query for a filter and a validated range: the selection, each
/// present predicate joined by AND, newest first, and the cap as a bound value.
pub open spec fn readings_query(q: ReadingsQueryView, range: Option<TimestampRange>) -> Seq<
    PieceView,
> {
    let (start, end) = match range {
        Some(r) => r,
        None => (None, None),
    };
    seq![PieceView::Sql(SELECT_READINGS@)] + eq_pieces(AND_DEVICE@, q.device_id) + eq_pieces(
        AND_MESH@,
        q.mesh_id,
    ) + bound_pieces(AND_FROM@, start) + bound_pieces(AND_UNTIL@, end) + seq![
        PieceView::Sql(ORDER_NEWEST_FIRST@),
        PieceView::Sql(LIMIT_CLAUSE@),
        PieceView::BindBigInt(limit_of(q.limit)),
    ]
}

fn push_piece(v: &mut Vec<SqlPiece>, p: SqlPiece)
    ensures
        pieces_view(final(v)@) == pieces_view(old(v)@).push(p@),
{
    v.push(p);
    assert(pieces_view(v@) =~= pieces_view(old(v)@).push(p@));
}

fn push_sql(v: &mut Vec<SqlPiece>, s: &str)
    ensures
        pieces_view(final(v)@) == pieces_view(old(v)@).push(PieceView::Sql(s@)),
{
    push_piece(v, SqlPiece::Sql(String::from_str(s)));
}

fn push_eq(v: &mut Vec<SqlPiece>, clause: &str, value: &Option<String>)
    ensures
        pieces_view(final(v)@) == pieces_view(old(v)@) + eq_pieces(clause@, opt_text(*value)),
{
    let ghost before = pieces_view(v@);
    match value {
        Some(x) => {
            push_sql(v, clause);
            push_piece(v, SqlPiece::Bind(SqlValue::Text(x.clone())));
        },
        None => {},
    }
    assert(pieces_view(v@) =~= before + eq_pieces(clause@, opt_text(*value)));
}

fn push_bound(v: &mut Vec<SqlPiece>, clause: &str, value: Option<UtcTimestamp>)
    ensures
        pieces_view(final(v)@) == pieces_view(old(v)@) + bound_pieces(clause@, value),
{
    let ghost before = pieces_view(v@);
    match value {
        Some(t) => {
            push_sql(v, clause);
            push_piece(v, SqlPiece::Bind(SqlValue::Timestamp(t)));
        },
        None => {},
    }
    assert(pieces_view(v@) =~= before + bound_pieces(clause@, value));
}

/// Builds the read query for a filter whose range text, if any, has already
/// been parsed into `range`.
pub fn filtered_query(q: &ReadingsQuery, range: Option<TimestampRange>) -> (r: SqlQuery)
    ensures
        r@ == readings_query(q@, range),
{
    let mut v: Vec<SqlPiece> = Vec::new();
    assert(pieces_view(v@) =~= Seq::<PieceView>::empty());
    push_sql(&mut v, SELECT_READINGS);
    push_eq(&mut v, AND_DEVICE, &q.device_id);
    push_eq(&mut v, AND_MESH, &q.mesh_id);
    let (start, end) = match range {
        Some(r) => r,
        None => (None, None),
    };
    push_bound(&mut v, AND_FROM, start);
    push_bound(&mut v, AND_UNTIL, end);
    push_sql(&mut v, ORDER_NEWEST_FIRST);
    push_sql(&mut v, LIMIT_CLAUSE);
    let limit: u32 = match q.limit {
        Some(n) => n,
        None => DEFAULT_LIMIT,
    };
    push_piece(&mut v, SqlPiece::Bind(SqlValue::BigInt(limit as i64)));
    assert(pieces_view(v@) =~= readings_query(q@, range));
    SqlQuery { pieces: v }
}

/// Builds the read query for a request: its range text is parsed and, when
/// valid, bounds the timestamps; an invalid range adds no bound (requests with
/// one are refused before any query is built).
pub fn build_readings_query(q: &ReadingsQuery) -> (r: SqlQuery)
    ensures
        exists|range: Option<TimestampRange>|
            {
                &&& r@ == readings_query(q@, range)
                &&& match q@.timestamp_range {
                    Some(t) => match range_of(t) {
                        Some(v) => range matches Some(p) && range_view(p) == v,
                        None => range is None,
                    },
                    None => range is None,
                }
            },
{
    let range = match &q.timestamp_range {
        Some(t) => parse_timestamp_range(t.as_str()),
        None => None,
    };
    filtered_query(q, range)
}

} // verus!
