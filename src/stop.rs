//! Stops and trips, and their two renderings: terminal text with ANSI colour
//! escapes, and markup for a status-bar tooltip.

use vstd::prelude::*;
use vstd::string::StringExecFns;
use crate::text::escape_amp;
use crate::text::escape_ampersands;
use crate::text::join;
use crate::text::lemma_escape_quote_free;
use crate::text::lemma_quotes_escaped_concat;
use crate::text::quote_free;
use crate::text::quotes_escaped;
use crate::time::clock_of;
use crate::time::is_past;
use crate::time::local_clock;
use crate::time::local_secs;
use crate::time::past_at;
use crate::time::UtcTime;

verus! {

broadcast use vstd::string::group_string_axioms;

/// The meaning a status colour carries; each rendering picks its own colour
/// for it.
#[derive(Clone, Copy, Debug, PartialEq, Eq, Structural)]
pub enum Tone {
    Neutral,
    Affirmative,
    Negative,
    Warning,
    Plain,
}

/// The status shown before a stop's label: one glyph and its tone.
#[derive(Clone, Copy, Debug, PartialEq, Eq, Structural)]
pub struct Status {
    pub glyph: char,
    pub tone: Tone,
}

/// One scheduled stop of the current trip.
#[derive(Debug)]
pub struct Stop {
    pub label: String,
    pub theoric_date: UtcTime,
    pub real_date: UtcTime,
    pub is_delayed: bool,
    pub is_created: bool,
    pub is_diversion: bool,
    pub is_removed: bool,
}

/// The stops of a trip, in travel order.
#[derive(Debug)]
pub struct Trip {
    pub stops: Vec<Stop>,
}

/// The status of `stop` when evaluated at `now`: the first that applies of
/// past, created, removed, diversion, and the plain case.
pub open spec fn status_of(stop: Stop, now: UtcTime) -> Status {
    if is_past(now, stop.real_date) {
        Status { glyph: ' ', tone: Tone::Neutral }
    } else if stop.is_created {
        Status { glyph: '+', tone: Tone::Affirmative }
    } else if stop.is_removed {
        Status { glyph: '-', tone: Tone::Negative }
    } else if stop.is_diversion {
        Status { glyph: '~', tone: Tone::Warning }
    } else {
        Status { glyph: '\u{b7}', tone: Tone::Plain }
    }
}

/// ANSI foreground escape for a tone on a terminal; none for the plain tone.
pub open spec fn ansi_fg(tone: Tone) -> Seq<char> {
    match tone {
        Tone::Neutral => seq!['\u{1b}', '[', '3', '7', 'm'],
        Tone::Affirmative => seq!['\u{1b}', '[', '3', '2', 'm'],
        Tone::Negative => seq!['\u{1b}', '[', '3', '1', 'm'],
        Tone::Warning => seq!['\u{1b}', '[', '3', '3', 'm'],
        Tone::Plain => Seq::empty(),
    }
}

/// ANSI escape that turns on bold.
pub open spec fn ansi_bold() -> Seq<char> {
    seq!['\u{1b}', '[', '1', 'm']
}

/// ANSI escape that resets all attributes.
pub open spec fn ansi_reset() -> Seq<char> {
    seq!['\u{1b}', '[', '0', 'm']
}

/// `text` styled for a terminal: with styling on and anything to apply, the
/// foreground escape, then bold, then the text and a reset; else the text alone.
pub open spec fn painted(text: Seq<char>, tone: Tone, bold: bool, colors: bool) -> Seq<char> {
    if colors && (tone != Tone::Plain || bold) {
        ansi_fg(tone) + (if bold { ansi_bold() } else { Seq::empty() }) + text + ansi_reset()
    } else {
        text
    }
}

/// The tone of a stop's scheduled time: negative when delayed.
pub open spec fn theoric_tone(stop: Stop) -> Tone {
    if stop.is_delayed { Tone::Negative } else { Tone::Affirmative }
}

/// Terminal text of the scheduled time.
pub open spec fn theoric_text(stop: Stop, colors: bool) -> Seq<char> {
    painted(clock_of(local_secs(stop.theoric_date)), theoric_tone(stop), false, colors)
}

/// Terminal text of the actual time: shown only for a delayed stop.
pub open spec fn real_text(stop: Stop, colors: bool) -> Seq<char> {
    if stop.is_delayed {
        painted(clock_of(local_secs(stop.real_date)), Tone::Affirmative, false, colors)
    } else {
        Seq::empty()
    }
}

/// Terminal text of the status glyph (bold) and the label, unescaped.
pub open spec fn label_text(stop: Stop, now: UtcTime, colors: bool) -> Seq<char> {
    let s = status_of(stop, now);
    painted(seq![s.glyph], s.tone, true, colors) + seq![' '] + stop.label@
}

/// One terminal line for a stop.
pub open spec fn line_text(stop: Stop, now: UtcTime, colors: bool) -> Seq<char> {
    theoric_text(stop, colors) + seq![' '] + real_text(stop, colors) + seq![' '] + label_text(
        stop,
        now,
        colors,
    )
}

/// Markup colour name of a tone.
pub open spec fn markup_colour(tone: Tone) -> Seq<char> {
    match tone {
        Tone::Neutral => "grey"@,
        Tone::Affirmative => "green"@,
        Tone::Negative => "red"@,
        Tone::Warning => "yellow"@,
        Tone::Plain => "white"@,
    }
}

/// Markup of the scheduled time: struck through in red when delayed, else green.
pub open spec fn theoric_markup(stop: Stop) -> Seq<char> {
    let clock = clock_of(local_secs(stop.theoric_date));
    if stop.is_delayed {
        "<span foreground=\\\"red\\\"><s>"@ + clock + "</s></span>"@
    } else {
        "<span foreground=\\\"green\\\">"@ + clock + "</span>"@
    }
}

/// Markup of the actual time: green, and only for a delayed stop.
pub open spec fn real_markup(stop: Stop) -> Seq<char> {
    if stop.is_delayed {
        "<span foreground=\\\"green\\\">"@ + clock_of(local_secs(stop.real_date)) + "</span>"@
    } else {
        Seq::empty()
    }
}

/// Markup of the status glyph (bold, in its colour) and the escaped label.
pub open spec fn label_markup(stop: Stop, now: UtcTime) -> Seq<char> {
    let s = status_of(stop, now);
    "<span foreground=\\\""@ + markup_colour(s.tone) + "\\\"><b>"@ + seq![s.glyph]
        + "</b></span> "@ + escape_amp(stop.label@)
}

/// One markup line for a stop: the three parts side by side, with no
/// separating space.
pub open spec fn line_markup(stop: Stop, now: UtcTime) -> Seq<char> {
    theoric_markup(stop) + real_markup(stop) + label_markup(stop, now)
}

/// Terminal lines of all stops, each ending in a newline.
pub open spec fn stop_lines_text(stops: Seq<Stop>, now: UtcTime, colors: bool) -> Seq<char>
    decreases stops.len(),
{
    if stops.len() == 0 {
        Seq::empty()
    } else {
        stop_lines_text(stops.drop_last(), now, colors) + line_text(stops.last(), now, colors)
            + seq!['\n']
    }
}

/// Markup line of each stop, in order.
pub open spec fn markup_lines(stops: Seq<Stop>, now: UtcTime) -> Seq<Seq<char>> {
    stops.map_values(|s: Stop| line_markup(s, now))
}

/// Relies on console's `Style` (`force_styling`, `fg` through `white`, `green`,
/// `red`, `yellow`, `bold`) and the `Display` of `StyledObject`: with styling
/// forced on, the foreground escape, the bold escape, the text and a reset,
/// the reset only when something was applied; with it forced off, the text.
#[verifier::external_body]
fn paint(text: &str, tone: Tone, bold: bool, colors: bool) -> (r: String)
    ensures
        r@ == painted(text@, tone, bold, colors),
{
    let style = console::Style::new().force_styling(colors);
    let style = match tone {
        Tone::Neutral => style.white(),
        Tone::Affirmative => style.green(),
        Tone::Negative => style.red(),
        Tone::Warning => style.yellow(),
        Tone::Plain => style,
    };
    let style = if bold { style.bold() } else { style };
    style.apply_to(text).to_string()
}

impl Status {
    /// The glyph as a one-character string.
    pub fn glyph_text(&self) -> (r: &'static str)
        requires
            self.glyph == ' ' || self.glyph == '+' || self.glyph == '-' || self.glyph == '~'
                || self.glyph == '\u{b7}',
        ensures
            r@ == seq![self.glyph],
    {
        proof {
            reveal_strlit(" ");
            reveal_strlit("+");
            reveal_strlit("-");
            reveal_strlit("~");
            reveal_strlit("\u{b7}");
        }
        if self.glyph == ' ' {
            " "
        } else if self.glyph == '+' {
            "+"
        } else if self.glyph == '-' {
            "-"
        } else if self.glyph == '~' {
            "~"
        } else {
            "\u{b7}"
        }
    }
}

/// The markup colour name of a tone, as a string.
fn colour_name(tone: Tone) -> (r: &'static str)
    ensures
        r@ == markup_colour(tone),
{
    match tone {
        Tone::Neutral => "grey",
        Tone::Affirmative => "green",
        Tone::Negative => "red",
        Tone::Warning => "yellow",
        Tone::Plain => "white",
    }
}

impl Stop {
    /// Both instants lie in the range the display zone converts.
    pub open spec fn wf(&self) -> bool {
        self.theoric_date.wf() && self.real_date.wf()
    }

    /// Whether `now` is strictly more than five minutes after the actual time.
    pub fn in_the_past(&self, now: &UtcTime) -> (r: bool)
        ensures
            r == is_past(*now, self.real_date),
    {
        past_at(now, &self.real_date)
    }

    /// The status to show at `now`, by the fixed priority order.
    pub fn status(&self, now: &UtcTime) -> (r: Status)
        ensures
            r == status_of(*self, *now),
    {
        if self.in_the_past(now) {
            Status { glyph: ' ', tone: Tone::Neutral }
        } else if self.is_created {
            Status { glyph: '+', tone: Tone::Affirmative }
        } else if self.is_removed {
            Status { glyph: '-', tone: Tone::Negative }
        } else if self.is_diversion {
            Status { glyph: '~', tone: Tone::Warning }
        } else {
            Status { glyph: '\u{b7}', tone: Tone::Plain }
        }
    }

    /// Terminal text of the scheduled local time, red when delayed, else green.
    pub fn theoric(&self, colors: bool) -> (r: String)
        requires
            self.wf(),
        ensures
            r@ == theoric_text(*self, colors),
    {
        let clock = local_clock(&self.theoric_date);
        let tone = if self.is_delayed { Tone::Negative } else { Tone::Affirmative };
        paint(clock.as_str(), tone, false, colors)
    }

    /// Markup of the scheduled local time.
    pub fn pango_theoric(&self) -> (r: String)
        requires
            self.wf(),
        ensures
            r@ == theoric_markup(*self),
    {
        let clock = local_clock(&self.theoric_date);
        let mut out = String::new();
        if self.is_delayed {
            out.append("<span foreground=\\\"red\\\"><s>");
            out.append(clock.as_str());
            out.append("</s></span>");
        } else {
            out.append("<span foreground=\\\"green\\\">");
            out.append(clock.as_str());
            out.append("</span>");
        }
        assert(out@ =~= theoric_markup(*self));
        out
    }

    /// Terminal text of the actual local time, green; empty when on time.
    pub fn real_label(&self, colors: bool) -> (r: String)
        requires
            self.wf(),
        ensures
            r@ == real_text(*self, colors),
    {
        if self.is_delayed {
            let clock = local_clock(&self.real_date);
            paint(clock.as_str(), Tone::Affirmative, false, colors)
        } else {
            String::new()
        }
    }

    /// Markup of the actual local time; empty when on time. The time is shown
    /// as `HH:MM`, like the scheduled time, not as a full local date-time.
    pub fn pango_real(&self) -> (r: String)
        requires
            self.wf(),
        ensures
            r@ == real_markup(*self),
    {
        let mut out = String::new();
        if self.is_delayed {
            let clock = local_clock(&self.real_date);
            out.append("<span foreground=\\\"green\\\">");
            out.append(clock.as_str());
            out.append("</span>");
        }
        assert(out@ =~= real_markup(*self));
        out
    }

    /// Terminal text of the bold status glyph, a space and the label as it is.
    pub fn formated_label(&self, now: &UtcTime, colors: bool) -> (r: String)
        ensures
            r@ == label_text(*self, *now, colors),
    {
        let status = self.status(now);
        let mut out = paint(status.glyph_text(), status.tone, true, colors);
        out.append(" ");
        out.append(self.label.as_str());
        proof {
            reveal_strlit(" ");
        }
        assert(out@ =~= label_text(*self, *now, colors));
        out
    }

    /// Markup of the bold status glyph in its colour, a space and the label
    /// with `&` escaped.
    pub fn pango_formated_label(&self, now: &UtcTime) -> (r: String)
        ensures
            r@ == label_markup(*self, *now),
    {
        let status = self.status(now);
        let mut out = String::new();
        out.append("<span foreground=\\\"");
        out.append(colour_name(status.tone));
        out.append("\\\"><b>");
        out.append(status.glyph_text());
        out.append("</b></span> ");
        let label = escape_ampersands(self.label.as_str());
        out.append(label.as_str());
        assert(out@ =~= label_markup(*self, *now));
        out
    }

    /// One terminal line: scheduled time, actual time and status label,
    /// separated by single spaces.
    pub fn display_line(&self, now: &UtcTime, colors: bool) -> (r: String)
        requires
            self.wf(),
        ensures
            r@ == line_text(*self, *now, colors),
    {
        let mut out = self.theoric(colors);
        out.append(" ");
        let actual = self.real_label(colors);
        out.append(actual.as_str());
        out.append(" ");
        let label = self.formated_label(now, colors);
        out.append(label.as_str());
        proof {
            reveal_strlit(" ");
        }
        assert(out@ =~= line_text(*self, *now, colors));
        out
    }

    /// One markup line: scheduled time, actual time and status label side by
    /// side, with no separating space.
    pub fn pango_line(&self, now: &UtcTime) -> (r: String)
        requires
            self.wf(),
        ensures
            r@ == line_markup(*self, *now),
    {
        let mut out = self.pango_theoric();
        let actual = self.pango_real();
        out.append(actual.as_str());
        let label = self.pango_formated_label(now);
        out.append(label.as_str());
        assert(out@ =~= line_markup(*self, *now));
        out
    }
}

impl Trip {
    /// All stops lie in the range the display zone converts.
    pub open spec fn wf(&self) -> bool {
        forall|i: int| 0 <= i < self.stops@.len() ==> (#[trigger] self.stops@[i]).wf()
    }

    /// Terminal lines of all stops, each ending in a newline.
    pub fn display_lines(&self, now: &UtcTime, colors: bool) -> (r: String)
        requires
            self.wf(),
        ensures
            r@ == stop_lines_text(self.stops@, *now, colors),
    {
        let mut out = String::new();
        let mut i: usize = 0;
        while i < self.stops.len()
            invariant
                self.wf(),
                i <= self.stops@.len(),
                out@ == stop_lines_text(self.stops@.subrange(0, i as int), *now, colors),
            decreases self.stops@.len() - i,
        {
            let line = self.stops[i].display_line(now, colors);
            out.append(line.as_str());
            out.append("\n");
            proof {
                reveal_strlit("\n");
                let pre = self.stops@.subrange(0, i as int + 1);
                assert(pre.drop_last() =~= self.stops@.subrange(0, i as int));
            }
            i = i + 1;
            assert(out@ =~= stop_lines_text(self.stops@.subrange(0, i as int), *now, colors));
        }
        assert(self.stops@.subrange(0, i as int) =~= self.stops@);
        out
    }

    /// Markup lines of all stops joined by the escaped carriage return `\r`.
    pub fn pango_tooltip(&self, now: &UtcTime) -> (r: String)
        requires
            self.wf(),
        ensures
            r@ == join(markup_lines(self.stops@, *now), "\\r"@),
    {
        let mut out = String::new();
        let mut i: usize = 0;
        while i < self.stops.len()
            invariant
                self.wf(),
                i <= self.stops@.len(),
                out@ == join(markup_lines(self.stops@.subrange(0, i as int), *now), "\\r"@),
            decreases self.stops@.len() - i,
        {
            if i > 0 {
                out.append("\\r");
            }
            let line = self.stops[i].pango_line(now);
            out.append(line.as_str());
            proof {
                let pre = markup_lines(self.stops@.subrange(0, i as int + 1), *now);
                assert(pre.drop_last() =~= markup_lines(self.stops@.subrange(0, i as int), *now));
                if i == 0 {
                    assert(out@ =~= pre[0]);
                }
            }
            i = i + 1;
            assert(out@ =~= join(markup_lines(self.stops@.subrange(0, i as int), *now), "\\r"@));
        }
        assert(self.stops@.subrange(0, i as int) =~= self.stops@);
        out
    }
}

/// A stop that is on time shows no actual time, in either rendering.
pub proof fn law_on_time_shows_no_actual_time(stop: Stop, colors: bool)
    requires
        !stop.is_delayed,
    ensures
        real_text(stop, colors) == Seq::<char>::empty(),
        real_markup(stop) == Seq::<char>::empty(),
{
}

/// The status follows a fixed priority, first match winning: past, then
/// created, removed, diversion, and the plain dot; so a created stop that is
/// also a diversion shows `+`, never `~`.
pub proof fn law_status_priority(stop: Stop, now: UtcTime)
    ensures
        is_past(now, stop.real_date) ==> status_of(stop, now) == (Status {
            glyph: ' ',
            tone: Tone::Neutral,
        }),
        !is_past(now, stop.real_date) && stop.is_created ==> status_of(stop, now) == (Status {
            glyph: '+',
            tone: Tone::Affirmative,
        }),
        !is_past(now, stop.real_date) && !stop.is_created && stop.is_removed ==> status_of(
            stop,
            now,
        ) == (Status { glyph: '-', tone: Tone::Negative }),
        !is_past(now, stop.real_date) && !stop.is_created && !stop.is_removed
            && stop.is_diversion ==> status_of(stop, now) == (Status {
            glyph: '~',
            tone: Tone::Warning,
        }),
        !is_past(now, stop.real_date) && !stop.is_created && !stop.is_removed
            && !stop.is_diversion ==> status_of(stop, now) == (Status {
            glyph: '\u{b7}',
            tone: Tone::Plain,
        }),
{
}

/// The terminal rendering ends with the label exactly as given; the markup
/// rendering ends with the label with each `&` escaped, which for a label
/// without `&` is the label itself.
pub proof fn law_label_escaping(stop: Stop, now: UtcTime, colors: bool)
    ensures
        ({
            let t = label_text(stop, now, colors);
            let n = stop.label@.len();
            t.len() >= n && t.subrange(t.len() - n, t.len() as int) == stop.label@
        }),
        ({
            let m = label_markup(stop, now);
            let e = escape_amp(stop.label@);
            m.len() >= e.len() && m.subrange(m.len() - e.len(), m.len() as int) == e
        }),
        (forall|i: int| 0 <= i < stop.label@.len() ==> stop.label@[i] != '&') ==> escape_amp(
            stop.label@,
        ) == stop.label@,
{
    let t = label_text(stop, now, colors);
    let n = stop.label@.len();
    assert(t.subrange(t.len() - n, t.len() as int) =~= stop.label@);
    let m = label_markup(stop, now);
    let e = escape_amp(stop.label@);
    assert(m.subrange(m.len() - e.len(), m.len() as int) =~= e);
    if forall|i: int| 0 <= i < stop.label@.len() ==> stop.label@[i] != '&' {
        crate::text::lemma_escape_without_ampersand(stop.label@);
    }
}

/// A local clock reading holds digits and a colon only.
proof fn lemma_clock_quote_free(local: int)
    ensures
        quote_free(clock_of(local)),
{
    let c = clock_of(local);
    assert forall|i: int| 0 <= i < c.len() implies #[trigger] c[i] != '"' by {
        assert(c.len() == 5);
    }
}

/// The markup of a scheduled time has its quotes escaped.
proof fn lemma_theoric_markup_quotes(stop: Stop)
    ensures
        quotes_escaped(theoric_markup(stop)),
{
    reveal_strlit("<span foreground=\\\"red\\\"><s>");
    reveal_strlit("</s></span>");
    reveal_strlit("<span foreground=\\\"green\\\">");
    reveal_strlit("</span>");
    let clock = clock_of(local_secs(stop.theoric_date));
    lemma_clock_quote_free(local_secs(stop.theoric_date));
    if stop.is_delayed {
        lemma_quotes_escaped_concat("<span foreground=\\\"red\\\"><s>"@, clock);
        lemma_quotes_escaped_concat("<span foreground=\\\"red\\\"><s>"@ + clock, "</s></span>"@);
    } else {
        lemma_quotes_escaped_concat("<span foreground=\\\"green\\\">"@, clock);
        lemma_quotes_escaped_concat("<span foreground=\\\"green\\\">"@ + clock, "</span>"@);
    }
}

/// The markup of an actual time has its quotes escaped.
proof fn lemma_real_markup_quotes(stop: Stop)
    ensures
        quotes_escaped(real_markup(stop)),
{
    reveal_strlit("<span foreground=\\\"green\\\">");
    reveal_strlit("</span>");
    if stop.is_delayed {
        let clock = clock_of(local_secs(stop.real_date));
        lemma_clock_quote_free(local_secs(stop.real_date));
        lemma_quotes_escaped_concat("<span foreground=\\\"green\\\">"@, clock);
        lemma_quotes_escaped_concat("<span foreground=\\\"green\\\">"@ + clock, "</span>"@);
    }
}

/// The markup of a status label has its quotes escaped when the label holds
/// none.
proof fn lemma_label_markup_quotes(stop: Stop, now: UtcTime)
    requires
        quote_free(stop.label@),
    ensures
        quotes_escaped(label_markup(stop, now)),
{
    reveal_strlit("<span foreground=\\\"");
    reveal_strlit("\\\"><b>");
    reveal_strlit("</b></span> ");
    reveal_strlit("grey");
    reveal_strlit("green");
    reveal_strlit("red");
    reveal_strlit("yellow");
    reveal_strlit("white");
    let st = status_of(stop, now);
    let a = "<span foreground=\\\""@;
    let b = markup_colour(st.tone);
    let c = "\\\"><b>"@;
    let d = seq![st.glyph];
    let e = "</b></span> "@;
    let f = escape_amp(stop.label@);
    lemma_escape_quote_free(stop.label@);
    lemma_quotes_escaped_concat(a, b);
    lemma_quotes_escaped_concat(a + b, c);
    lemma_quotes_escaped_concat(a + b + c, d);
    lemma_quotes_escaped_concat(a + b + c + d, e);
    lemma_quotes_escaped_concat(a + b + c + d + e, f);
}

/// Every quote in a stop's markup line is escaped for a JSON string, as long
/// as its label holds no quote.
pub proof fn law_line_markup_quotes_escaped(stop: Stop, now: UtcTime)
    requires
        quote_free(stop.label@),
    ensures
        quotes_escaped(line_markup(stop, now)),
{
    lemma_theoric_markup_quotes(stop);
    lemma_real_markup_quotes(stop);
    lemma_label_markup_quotes(stop, now);
    lemma_quotes_escaped_concat(theoric_markup(stop), real_markup(stop));
    lemma_quotes_escaped_concat(theoric_markup(stop) + real_markup(stop), label_markup(stop, now));
}

/// An on-time stop's line shows its scheduled time in green and no actual
/// time; a delayed stop's line shows the scheduled time in red (struck through
/// in markup) followed by the actual time in green. The status label follows.
pub proof fn law_line_by_delay(stop: Stop, now: UtcTime, colors: bool)
    ensures
        !stop.is_delayed ==> line_markup(stop, now) == "<span foreground=\\\"green\\\">"@
            + clock_of(local_secs(stop.theoric_date)) + "</span>"@ + label_markup(stop, now),
        !stop.is_delayed ==> line_text(stop, now, colors) == painted(
            clock_of(local_secs(stop.theoric_date)),
            Tone::Affirmative,
            false,
            colors,
        ) + seq![' ', ' '] + label_text(stop, now, colors),
        stop.is_delayed ==> line_markup(stop, now) == "<span foreground=\\\"red\\\"><s>"@
            + clock_of(local_secs(stop.theoric_date)) + "</s></span>"@
            + "<span foreground=\\\"green\\\">"@ + clock_of(local_secs(stop.real_date))
            + "</span>"@ + label_markup(stop, now),
        stop.is_delayed ==> line_text(stop, now, colors) == painted(
            clock_of(local_secs(stop.theoric_date)),
            Tone::Negative,
            false,
            colors,
        ) + seq![' '] + painted(clock_of(local_secs(stop.real_date)), Tone::Affirmative, false, colors)
            + seq![' '] + label_text(stop, now, colors),
{
    if stop.is_delayed {
        assert(line_markup(stop, now) =~= "<span foreground=\\\"red\\\"><s>"@ + clock_of(
            local_secs(stop.theoric_date),
        ) + "</s></span>"@ + "<span foreground=\\\"green\\\">"@ + clock_of(
            local_secs(stop.real_date),
        ) + "</span>"@ + label_markup(stop, now));
        assert(line_text(stop, now, colors) =~= painted(
            clock_of(local_secs(stop.theoric_date)),
            Tone::Negative,
            false,
            colors,
        ) + seq![' '] + painted(clock_of(local_secs(stop.real_date)), Tone::Affirmative, false, colors)
            + seq![' '] + label_text(stop, now, colors));
    } else {
        assert(line_markup(stop, now) =~= "<span foreground=\\\"green\\\">"@ + clock_of(
            local_secs(stop.theoric_date),
        ) + "</span>"@ + label_markup(stop, now));
        assert(line_text(stop, now, colors) =~= painted(
            clock_of(local_secs(stop.theoric_date)),
            Tone::Affirmative,
            false,
            colors,
        ) + seq![' ', ' '] + label_text(stop, now, colors));
    }
}

} // verus!
