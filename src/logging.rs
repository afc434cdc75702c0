//! Choices for the log output, from the values of its settings.
use vstd::prelude::*;

use crate::text::opt_text;

verus! {

/// Directive added after the level, keeping per-query logs of the database driver quiet.
pub const QUIET_DRIVER_DIRECTIVE: &'static str = ",sqlx::query=warn";

/// Which span events are logged.
#[derive(Debug, Clone, Copy, PartialEq, Eq)]
pub enum SpanEvents {
    /// Enter, exit and close, with timings.
    Full,
    /// Enter and exit.
    EnterExit,
    /// Close only.
    Close,
}

/// How log output is set up.
#[derive(Debug)]
pub struct LogSettings {
    pub span_events: SpanEvents,
    /// Whether output is colored.
    pub ansi: bool,
    /// The filter directives; `None` to take them from `RUST_LOG`.
    pub filter: Option<String>,
}

/// Whether two texts are equal.
pub fn same_text(a: &str, b: &str) -> (r: bool)
    ensures
        r == (a@ == b@),
{
    let n = a.unicode_len();
    if n != b.unicode_len() {
        return false;
    }
    let mut i: usize = 0;
    while i < n
        invariant
            n == a@.len(),
            n == b@.len(),
            i <= n,
            forall|k: int| 0 <= k < i ==> a@[k] == b@[k],
        decreases n - i,
    {
        if a.get_char(i) != b.get_char(i) {
            return false;
        }
        i = i + 1;
    }
    assert(a@ =~= b@);
    true
}

fn is_one_of(v: &Option<String>, a: &str, b: &str, c: &str) -> (r: bool)
    ensures
        r == (opt_text(*v) == Some(a@) || opt_text(*v) == Some(b@) || opt_text(*v) == Some(c@)),
{
    match v {
        Some(s) => same_text(s.as_str(), a) || same_text(s.as_str(), b) || same_text(s.as_str(), c),
        None => false,
    }
}

/// Span events for the `AXUM_SPAN_EVENTS` value: `full`, `enter_exit`, or close only.
pub open spec fn span_events_of(v: Option<Seq<char>>) -> SpanEvents {
    if v == Some("full"@) {
        SpanEvents::Full
    } else if v == Some("enter_exit"@) {
        SpanEvents::EnterExit
    } else {
        SpanEvents::Close
    }
}

/// Color for the `FORCE_COLOR` value: forced on by `1`, `true`, `yes`, off by
/// `0`, `false`, `no`, else on when standard output is a terminal.
pub open spec fn ansi_of(v: Option<Seq<char>>, stdout_is_terminal: bool) -> bool {
    if v == Some("1"@) || v == Some("true"@) || v == Some("yes"@) {
        true
    } else if v == Some("0"@) || v == Some("false"@) || v == Some("no"@) {
        false
    } else {
        stdout_is_terminal
    }
}

/// Level for the `AXUM_LOG_LEVEL` value: one of the five level names, else `debug`.
pub open spec fn level_of(v: Option<Seq<char>>) -> Seq<char> {
    match v {
        Some(l) => if l == "trace"@ || l == "debug"@ || l == "info"@ || l == "warn"@ || l
            == "error"@ {
            l
        } else {
            "debug"@
        },
        None => "debug"@,
    }
}

/// Filter directives: `None` when `RUST_LOG` is set, else the level with the
/// database driver's query logs held at `warn`.
pub open spec fn filter_of(rust_log_set: bool, level: Option<Seq<char>>) -> Option<Seq<char>> {
    if rust_log_set {
        None
    } else {
        Some(level_of(level) + QUIET_DRIVER_DIRECTIVE@)
    }
}

/// Chooses the log settings from `AXUM_SPAN_EVENTS`, `FORCE_COLOR`, whether
/// standard output is a terminal, whether `RUST_LOG` is set, and `AXUM_LOG_LEVEL`.
pub fn log_settings(
    span_events: Option<String>,
    force_color: Option<String>,
    stdout_is_terminal: bool,
    rust_log_set: bool,
    log_level: Option<String>,
) -> (r: LogSettings)
    ensures
        r.span_events == span_events_of(opt_text(span_events)),
        r.ansi == ansi_of(opt_text(force_color), stdout_is_terminal),
        opt_text(r.filter) == filter_of(rust_log_set, opt_text(log_level)),
{
    let events = match &span_events {
        Some(s) => if same_text(s.as_str(), "full") {
            SpanEvents::Full
        } else if same_text(s.as_str(), "enter_exit") {
            SpanEvents::EnterExit
        } else {
            SpanEvents::Close
        },
        None => SpanEvents::Close,
    };
    let ansi = if is_one_of(&force_color, "1", "true", "yes") {
        true
    } else if is_one_of(&force_color, "0", "false", "no") {
        false
    } else {
        stdout_is_terminal
    };
    let filter = if rust_log_set {
        None
    } else {
        let level = match &log_level {
            Some(l) => {
                let t = l.as_str();
                if same_text(t, "trace") || same_text(t, "debug") || same_text(t, "info")
                    || same_text(t, "warn") || same_text(t, "error") {
                    String::from_str(t)
                } else {
                    String::from_str("debug")
                }
            },
            None => String::from_str("debug"),
        };
        Some(level.concat(QUIET_DRIVER_DIRECTIVE))
    };
    LogSettings { span_events: events, ansi, filter }
}

} // verus!
