//! What each command prints and the exit code it ends with, computed from the
//! values that were fetched (or `None` where fetching failed).

use vstd::prelude::*;
use vstd::string::StringExecFns;
use crate::stop::law_line_markup_quotes_escaped;
use crate::stop::line_markup;
use crate::stop::markup_lines;
use crate::stop::stop_lines_text;
use crate::stop::Stop;
use crate::stop::Trip;
use crate::text::contains;
use crate::text::decimal;
use crate::text::decimal_text;
use crate::text::digits_of;
use crate::text::find_text;
use crate::text::join;
use crate::text::lemma_quotes_escaped_concat;
use crate::text::quote_free;
use crate::text::quotes_escaped;
use crate::time::UtcTime;

verus! {

broadcast use vstd::string::group_string_axioms;

/// Exit code of `connected` when the train network was seen.
pub const CONNECTED_CODE: i32 = 0;

/// Exit code of `connected` otherwise.
pub const NOT_CONNECTED_CODE: i32 = 1;

/// Exit code of `speed` when the speed could not be fetched.
pub const SPEED_FAILED_CODE: i32 = 3;

/// Exit code of `stops` when the trip could not be fetched.
pub const STOPS_FAILED_CODE: i32 = 4;

/// Exit code of `waybar` when the speed or the trip could not be fetched.
pub const WAYBAR_FAILED_CODE: i32 = 5;

/// The output of one command: its exit code and what it writes to standard
/// output and to standard error.
#[derive(Debug)]
pub struct Report {
    pub code: i32,
    pub out: String,
    pub err: String,
}

/// The text that the connectivity probe shows when on the train's network.
pub open spec fn network_marker() -> Seq<char> {
    "_SNCF_WIFI_INOUI"@
}

/// The probe's output names the train's network.
pub open spec fn on_train_network(probe: Option<Seq<char>>) -> bool {
    probe is Some && contains(probe->0, network_marker())
}

/// The status-bar JSON object: the speed as `text`, and as `tooltip` the
/// markup lines joined by the escaped carriage return `\r`.
pub open spec fn payload_text(speed: int, stops: Seq<Stop>, now: UtcTime) -> Seq<char> {
    "{\"text\": \""@ + decimal(speed) + "\", \"tooltip\": \""@ + join(
        markup_lines(stops, now),
        "\\r"@,
    ) + "\"}"@
}

/// Whether the probe's output names the train's network.
pub fn connected(probe: &str) -> (r: bool)
    ensures
        r == contains(probe@, network_marker()),
{
    find_text(probe, "_SNCF_WIFI_INOUI")
}

/// The `connected` command: exit code 0 exactly when the probe ran and its
/// output names the train's network, and a line saying which, unless quiet.
pub fn connected_report(probe: Option<&str>, quiet: bool) -> (r: Report)
    ensures
        r.code == (if on_train_network(
            match probe {
                Some(p) => Some(p@),
                None => None,
            },
        ) {
            CONNECTED_CODE
        } else {
            NOT_CONNECTED_CODE
        }),
        r.out@ == (if quiet {
            Seq::empty()
        } else if r.code == CONNECTED_CODE {
            "Connected to the train wifi\n"@
        } else {
            "Not connected to train wifi\n"@
        }),
        r.err@ == Seq::<char>::empty(),
{
    let on = match probe {
        Some(p) => connected(p),
        None => false,
    };
    let mut out = String::new();
    if !quiet {
        if on {
            out.append("Connected to the train wifi\n");
        } else {
            out.append("Not connected to train wifi\n");
        }
    }
    let code = if on { CONNECTED_CODE } else { NOT_CONNECTED_CODE };
    Report { code, out, err: String::new() }
}

/// The `speed` command, given the speed in km/h or `None` where fetching
/// failed: the number with ` km/h` and a newline, or the bare number.
pub fn speed_report(speed: Option<i32>, no_units: bool) -> (r: Report)
    ensures
        match speed {
            Some(v) => {
                &&& r.code == 0
                &&& r.out@ == decimal(v as int) + (if no_units {
                    Seq::empty()
                } else {
                    " km/h\n"@
                })
                &&& r.err@ == Seq::<char>::empty()
            },
            None => {
                &&& r.code == SPEED_FAILED_CODE
                &&& r.out@ == Seq::<char>::empty()
                &&& r.err@
                    == "Could fetch the speed, are you connected to the train\u{2019}s wifi?\n"@
            },
        },
{
    match speed {
        Some(v) => {
            let mut out = decimal_text(v);
            if !no_units {
                out.append(" km/h\n");
            }
            Report { code: 0, out, err: String::new() }
        },
        None => {
            let mut err = String::new();
            err.append("Could fetch the speed, are you connected to the train\u{2019}s wifi?\n");
            Report { code: SPEED_FAILED_CODE, out: String::new(), err }
        },
    }
}

/// The `stops` command, given the trip or `None` where fetching failed.
pub fn stops_report(trip: Option<&Trip>, now: &UtcTime, colors: bool) -> (r: Report)
    requires
        match trip {
            Some(t) => t.wf(),
            None => true,
        },
    ensures
        match trip {
            Some(t) => {
                &&& r.code == 0
                &&& r.out@ == stop_lines_text(t.stops@, *now, colors)
                &&& r.err@ == Seq::<char>::empty()
            },
            None => {
                &&& r.code == STOPS_FAILED_CODE
                &&& r.out@ == Seq::<char>::empty()
                &&& r.err@
                    == "Could not fetch train details, are you connected to the train\u{2019}s wifi?\n"@
            },
        },
{
    match trip {
        Some(t) => Report { code: 0, out: t.display_lines(now, colors), err: String::new() },
        None => {
            let mut err = String::new();
            err.append(
                "Could not fetch train details, are you connected to the train\u{2019}s wifi?\n",
            );
            Report { code: STOPS_FAILED_CODE, out: String::new(), err }
        },
    }
}

/// The status-bar JSON object for a speed in km/h and a trip.
///
/// The object is assembled as text. The quotes of the markup are escaped, and
/// labels only have `&` escaped (as markup); a label holding `"`, `\` or a
/// control character therefore yields invalid JSON.
pub fn status_bar_payload(speed: i32, trip: &Trip, now: &UtcTime) -> (r: String)
    requires
        trip.wf(),
    ensures
        r@ == payload_text(speed as int, trip.stops@, *now),
{
    let mut out = String::new();
    out.append("{\"text\": \"");
    let number = decimal_text(speed);
    out.append(number.as_str());
    out.append("\", \"tooltip\": \"");
    let tooltip = trip.pango_tooltip(now);
    out.append(tooltip.as_str());
    out.append("\"}");
    assert(out@ =~= payload_text(speed as int, trip.stops@, *now));
    out
}

/// The `waybar` command: the payload and a newline when both the speed and
/// the trip were fetched; otherwise nothing at all, with its own exit code.
pub fn waybar_report(speed: Option<i32>, trip: Option<&Trip>, now: &UtcTime) -> (r: Report)
    requires
        match trip {
            Some(t) => t.wf(),
            None => true,
        },
    ensures
        match (speed, trip) {
            (Some(v), Some(t)) => {
                &&& r.code == 0
                &&& r.out@ == payload_text(v as int, t.stops@, *now) + seq!['\n']
                &&& r.err@ == Seq::<char>::empty()
            },
            _ => {
                &&& r.code == WAYBAR_FAILED_CODE
                &&& r.out@ == Seq::<char>::empty()
                &&& r.err@ == Seq::<char>::empty()
            },
        },
{
    match (speed, trip) {
        (Some(v), Some(t)) => {
            let mut out = status_bar_payload(v, t, now);
            out.append("\n");
            proof {
                reveal_strlit("\n");
            }
            Report { code: 0, out, err: String::new() }
        },
        _ => Report { code: WAYBAR_FAILED_CODE, out: String::new(), err: String::new() },
    }
}

/// Decimal digits hold no quote.
proof fn lemma_digits_quote_free(n: nat)
    ensures
        quote_free(digits_of(n)),
    decreases n,
{
    if n >= 10 {
        lemma_digits_quote_free(n / 10);
        let p = digits_of(n / 10);
        let q = p.push(crate::text::digit_char(n as int % 10));
        assert forall|i: int| 0 <= i < q.len() implies #[trigger] q[i] != '"' by {
            if i < p.len() {
                assert(q[i] == p[i]);
            }
        }
    }
}

/// Lines with escaped quotes, joined by the escaped carriage return, keep
/// their quotes escaped.
proof fn lemma_join_quotes_escaped(lines: Seq<Seq<char>>)
    requires
        forall|i: int| 0 <= i < lines.len() ==> quotes_escaped(#[trigger] lines[i]),
    ensures
        quotes_escaped(join(lines, "\\r"@)),
    decreases lines.len(),
{
    reveal_strlit("\\r");
    if lines.len() > 1 {
        let p = lines.drop_last();
        assert forall|i: int| 0 <= i < p.len() implies quotes_escaped(#[trigger] p[i]) by {
            assert(p[i] == lines[i]);
        }
        lemma_join_quotes_escaped(p);
        lemma_quotes_escaped_concat(join(p, "\\r"@), "\\r"@);
        assert(quotes_escaped(lines[lines.len() - 1]));
        lemma_quotes_escaped_concat(join(p, "\\r"@) + "\\r"@, lines.last());
    } else if lines.len() == 1 {
        assert(quotes_escaped(lines[0]));
    }
}

/// The status-bar payload is the JSON object with `text` the speed and
/// `tooltip` the stops' markup lines joined by `\r`; inside both values every
/// quote is escaped, as long as no stop label holds a quote.
pub proof fn law_payload_values_escaped(speed: int, stops: Seq<Stop>, now: UtcTime)
    requires
        forall|i: int| 0 <= i < stops.len() ==> quote_free(#[trigger] stops[i].label@),
    ensures
        ({
            let tooltip = join(markup_lines(stops, now), "\\r"@);
            &&& payload_text(speed, stops, now) == "{\"text\": \""@ + decimal(speed)
                + "\", \"tooltip\": \""@ + tooltip + "\"}"@
            &&& quote_free(decimal(speed))
            &&& quotes_escaped(tooltip)
        }),
{
    let lines = markup_lines(stops, now);
    assert forall|i: int| 0 <= i < lines.len() implies quotes_escaped(#[trigger] lines[i]) by {
        assert(lines[i] == line_markup(stops[i], now));
        law_line_markup_quotes_escaped(stops[i], now);
    }
    lemma_join_quotes_escaped(lines);
    if speed < 0 {
        lemma_digits_quote_free((-speed) as nat);
        let d = seq!['-'] + digits_of((-speed) as nat);
        assert forall|i: int| 0 <= i < d.len() implies #[trigger] d[i] != '"' by {
            if i > 0 {
                assert(d[i] == digits_of((-speed) as nat)[i - 1]);
            }
        }
    } else {
        lemma_digits_quote_free(speed as nat);
    }
}

} // verus!
