use inouifi::report::{
    connected, connected_report, speed_report, status_bar_payload, stops_report, waybar_report,
    CONNECTED_CODE, NOT_CONNECTED_CODE, SPEED_FAILED_CODE, STOPS_FAILED_CODE, WAYBAR_FAILED_CODE,
};
use inouifi::stop::{Status, Stop, Tone, Trip};
use inouifi::text::{decimal_text, escape_ampersands, find_text};
use inouifi::time::{local_clock, past_at, UtcTime};

// 2024-01-15T10:00:00Z, when Paris is one hour ahead of UTC.
const WINTER_10H: i64 = 1_705_312_800;
// 2024-07-15T10:00:00Z, when Paris is two hours ahead of UTC.
const SUMMER_10H: i64 = 1_721_037_600;

fn at(secs: i64) -> UtcTime {
    UtcTime { secs, nanos: 0 }
}

fn stop(label: &str, theoric: i64, real: i64, delayed: bool) -> Stop {
    Stop {
        label: label.to_string(),
        theoric_date: at(theoric),
        real_date: at(real),
        is_delayed: delayed,
        is_created: false,
        is_diversion: false,
        is_removed: false,
    }
}

fn paris_and_lyon() -> Trip {
    Trip {
        stops: vec![
            stop("Paris", WINTER_10H, WINTER_10H, false),
            stop("Lyon", WINTER_10H + 7200, WINTER_10H + 7500, true),
        ],
    }
}

#[test]
fn local_clock_follows_paris_winter_and_summer_time() {
    assert_eq!(local_clock(&at(WINTER_10H)), "11:00");
    assert_eq!(local_clock(&at(SUMMER_10H)), "12:00");
    assert_eq!(local_clock(&at(WINTER_10H + 13 * 3600 + 7 * 60)), "00:07");
    assert_eq!(local_clock(&at(0)), "01:00");
    assert_eq!(local_clock(&at(-60)), "00:59");
}

#[test]
fn decimal_text_of_integers() {
    assert_eq!(decimal_text(0), "0");
    assert_eq!(decimal_text(42), "42");
    assert_eq!(decimal_text(-3), "-3");
    assert_eq!(decimal_text(i32::MAX), "2147483647");
    assert_eq!(decimal_text(i32::MIN), "-2147483648");
}

#[test]
fn escaping_ampersands() {
    assert_eq!(escape_ampersands("A & B&C"), "A &amp; B&amp;C");
    assert_eq!(escape_ampersands(""), "");
    assert_eq!(escape_ampersands("Mâcon"), "Mâcon");
}

#[test]
fn finding_text() {
    assert!(find_text("abcdef", "cde"));
    assert!(find_text("abc", ""));
    assert!(!find_text("abc", "abcd"));
    assert!(!find_text("abcdef", "ce"));
}

#[test]
fn on_time_stop_has_no_actual_time_in_either_flavor() {
    let s = stop("Paris", WINTER_10H, WINTER_10H + 600, false);
    assert_eq!(s.real_label(true), "");
    assert_eq!(s.real_label(false), "");
    assert_eq!(s.pango_real(), "");
}

#[test]
fn delayed_stop_shows_actual_time() {
    let s = stop("Lyon", WINTER_10H, WINTER_10H + 300, true);
    assert_eq!(s.real_label(true), "\u{1b}[32m11:05\u{1b}[0m");
    assert_eq!(s.real_label(false), "11:05");
    assert_eq!(s.pango_real(), "<span foreground=\\\"green\\\">11:05</span>");
}

#[test]
fn status_priority_order() {
    let now = at(WINTER_10H);
    let mut s = stop("X", WINTER_10H, WINTER_10H, false);
    s.is_created = true;
    s.is_diversion = true;
    assert_eq!(s.status(&now), Status { glyph: '+', tone: Tone::Affirmative });
    s.is_created = false;
    s.is_removed = true;
    assert_eq!(s.status(&now), Status { glyph: '-', tone: Tone::Negative });
    s.is_removed = false;
    assert_eq!(s.status(&now), Status { glyph: '~', tone: Tone::Warning });
    s.is_diversion = false;
    assert_eq!(s.status(&now), Status { glyph: '·', tone: Tone::Plain });
    s.is_created = true;
    let later = at(WINTER_10H + 301);
    assert_eq!(s.status(&later), Status { glyph: ' ', tone: Tone::Neutral });
}

#[test]
fn past_boundary_is_strict() {
    let s = stop("X", WINTER_10H, WINTER_10H, false);
    assert!(!s.in_the_past(&at(WINTER_10H + 300)));
    assert!(s.in_the_past(&UtcTime { secs: WINTER_10H + 300, nanos: 1 }));
    assert!(!s.in_the_past(&at(WINTER_10H - 3600)));
    assert!(past_at(&at(10_000), &at(9_000)));
}

#[test]
fn label_escaping_by_flavor() {
    let now = at(WINTER_10H);
    let s = stop("Gare & Quai", WINTER_10H, WINTER_10H, false);
    assert_eq!(
        s.pango_formated_label(&now),
        "<span foreground=\\\"white\\\"><b>·</b></span> Gare &amp; Quai"
    );
    assert_eq!(s.formated_label(&now, false), "· Gare & Quai");
    assert_eq!(s.formated_label(&now, true), "\u{1b}[1m·\u{1b}[0m Gare & Quai");
}

#[test]
fn status_colours_in_both_flavors() {
    let now = at(WINTER_10H);
    let mut s = stop("X", WINTER_10H, WINTER_10H, false);
    s.is_diversion = true;
    assert_eq!(s.formated_label(&now, true), "\u{1b}[33m\u{1b}[1m~\u{1b}[0m X");
    assert_eq!(
        s.pango_formated_label(&now),
        "<span foreground=\\\"yellow\\\"><b>~</b></span> X"
    );
    let later = at(WINTER_10H + 3600);
    assert_eq!(s.formated_label(&later, true), "\u{1b}[37m\u{1b}[1m \u{1b}[0m X");
    assert_eq!(
        s.pango_formated_label(&later),
        "<span foreground=\\\"grey\\\"><b> </b></span> X"
    );
}

#[test]
fn end_to_end_trip_lines() {
    let trip = paris_and_lyon();
    let now = at(WINTER_10H - 3600);
    let paris = &trip.stops[0];
    let lyon = &trip.stops[1];
    assert_eq!(
        paris.display_line(&now, true),
        "\u{1b}[32m11:00\u{1b}[0m  \u{1b}[1m·\u{1b}[0m Paris"
    );
    assert_eq!(
        lyon.display_line(&now, true),
        "\u{1b}[31m13:00\u{1b}[0m \u{1b}[32m13:05\u{1b}[0m \u{1b}[1m·\u{1b}[0m Lyon"
    );
    assert_eq!(
        paris.pango_line(&now),
        "<span foreground=\\\"green\\\">11:00</span><span foreground=\\\"white\\\"><b>·</b></span> Paris"
    );
    assert_eq!(
        lyon.pango_line(&now),
        "<span foreground=\\\"red\\\"><s>13:00</s></span><span foreground=\\\"green\\\">13:05</span><span foreground=\\\"white\\\"><b>·</b></span> Lyon"
    );
    let report = stops_report(Some(&trip), &now, false);
    assert_eq!(report.code, 0);
    assert_eq!(report.out, "11:00  · Paris\n13:00 13:05 · Lyon\n");
    assert_eq!(report.err, "");
}

#[test]
fn status_bar_payload_with_two_stops() {
    let trip = paris_and_lyon();
    let now = at(WINTER_10H - 3600);
    let line1 = trip.stops[0].pango_line(&now);
    let line2 = trip.stops[1].pango_line(&now);
    let expected = format!("{{\"text\": \"42\", \"tooltip\": \"{}\\r{}\"}}", line1, line2);
    assert_eq!(status_bar_payload(42, &trip, &now), expected);
    let empty = Trip { stops: vec![] };
    assert_eq!(status_bar_payload(0, &empty, &now), "{\"text\": \"0\", \"tooltip\": \"\"}");
}

#[test]
fn waybar_report_needs_both_values() {
    let trip = paris_and_lyon();
    let now = at(WINTER_10H - 3600);
    let ok = waybar_report(Some(42), Some(&trip), &now);
    assert_eq!(ok.code, 0);
    assert_eq!(ok.out, format!("{}\n", status_bar_payload(42, &trip, &now)));
    let failed = waybar_report(None, Some(&trip), &now);
    assert_eq!(failed.code, WAYBAR_FAILED_CODE);
    assert_eq!(failed.code, 5);
    assert_eq!(failed.out, "");
    assert_eq!(failed.err, "");
    assert_eq!(waybar_report(Some(42), None, &now).code, 5);
}

#[test]
fn connected_exit_codes() {
    let probe = "wlan0     IEEE 802.11  ESSID:\"_SNCF_WIFI_INOUI\"";
    assert!(connected(probe));
    let yes = connected_report(Some(probe), false);
    assert_eq!(yes.code, CONNECTED_CODE);
    assert_eq!(yes.code, 0);
    assert_eq!(yes.out, "Connected to the train wifi\n");
    let no = connected_report(Some("wlan0  ESSID:\"_SNCF_WIFI_INTERCITES\""), false);
    assert_eq!(no.code, NOT_CONNECTED_CODE);
    assert_eq!(no.code, 1);
    assert_eq!(no.out, "Not connected to train wifi\n");
    let failed = connected_report(None, true);
    assert_eq!(failed.code, 1);
    assert_eq!(failed.out, "");
    assert_eq!(connected_report(Some(probe), true).out, "");
}

#[test]
fn speed_report_lines_and_failure() {
    let with_units = speed_report(Some(36), false);
    assert_eq!(with_units.code, 0);
    assert_eq!(with_units.out, "36 km/h\n");
    assert_eq!(speed_report(Some(-3), true).out, "-3");
    let failed = speed_report(None, false);
    assert_eq!(failed.code, SPEED_FAILED_CODE);
    assert_eq!(failed.code, 3);
    assert_eq!(failed.out, "");
    assert_eq!(
        failed.err,
        "Could fetch the speed, are you connected to the train\u{2019}s wifi?\n"
    );
    let no_trip = stops_report(None, &at(0), false);
    assert_eq!(no_trip.code, STOPS_FAILED_CODE);
    assert_eq!(no_trip.code, 4);
    assert_eq!(no_trip.out, "");
}

#[test]
fn theoric_time_by_delay() {
    let on_time = stop("X", SUMMER_10H, SUMMER_10H, false);
    assert_eq!(on_time.theoric(true), "\u{1b}[32m12:00\u{1b}[0m");
    assert_eq!(on_time.theoric(false), "12:00");
    assert_eq!(on_time.pango_theoric(), "<span foreground=\\\"green\\\">12:00</span>");
    let late = stop("X", SUMMER_10H, SUMMER_10H + 900, true);
    assert_eq!(late.theoric(true), "\u{1b}[31m12:00\u{1b}[0m");
    assert_eq!(late.pango_theoric(), "<span foreground=\\\"red\\\"><s>12:00</s></span>");
}

#[test]
fn payload_tooltip_quotes_are_escaped() {
    let trip = paris_and_lyon();
    let now = at(WINTER_10H - 3600);
    let payload = status_bar_payload(42, &trip, &now);
    let head = "{\"text\": \"42\", \"tooltip\": \"";
    assert!(payload.starts_with(head));
    assert!(payload.ends_with("\"}"));
    let tooltip: Vec<char> = payload[head.len()..payload.len() - 2].chars().collect();
    assert!(!tooltip.is_empty());
    for (i, c) in tooltip.iter().enumerate() {
        if *c == '"' {
            assert!(i > 0 && tooltip[i - 1] == '\\');
        }
    }
    let lines: Vec<&str> = payload[head.len()..payload.len() - 2].split("\\r").collect();
    assert_eq!(lines.len(), 2);
    assert_eq!(lines[0], trip.stops[0].pango_line(&now));
    assert_eq!(
        lines[0],
        format!(
            "{}{}{}",
            trip.stops[0].pango_theoric(),
            trip.stops[0].pango_real(),
            trip.stops[0].pango_formated_label(&now)
        )
    );
}
