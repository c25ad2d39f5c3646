//! Events of a web page and the line of text that reports each of them.

use crate::decimal::{
    decimal_text, lemma_decimal_text_chars, lemma_decimal_text_injective, push_decimal,
};
use vstd::prelude::*;

verus! {

/// Something that happened on a web page.
pub enum WebEvent {
    /// The page finished loading.
    PageLoad,
    /// The page was left.
    PageUnload,
    /// A key was pressed; the payload is the character it produced.
    KeyPress(char),
    /// Text was pasted; the payload is that text.
    Paste(String),
    /// The pointer was clicked at the given coordinates.
    Click { x: i64, y: i64 },
}

/// A web event as a mathematical value: pasted text is a sequence of
/// characters and coordinates are unbounded integers.
pub enum WebEventView {
    PageLoad,
    PageUnload,
    KeyPress(char),
    Paste(Seq<char>),
    Click { x: int, y: int },
}

impl View for WebEvent {
    type V = WebEventView;

    open spec fn view(&self) -> WebEventView {
        match *self {
            WebEvent::PageLoad => WebEventView::PageLoad,
            WebEvent::PageUnload => WebEventView::PageUnload,
            WebEvent::KeyPress(c) => WebEventView::KeyPress(c),
            WebEvent::Paste(text) => WebEventView::Paste(text@),
            WebEvent::Click { x, y } => WebEventView::Click { x: x as int, y: y as int },
        }
    }
}

/// The line that reports an event. A key press shows its character between
/// single quotes and a paste shows its text between double quotes, each
/// followed by a full stop; a click shows both coordinates as decimal numerals.
pub open spec fn report(event: WebEventView) -> Seq<char> {
    match event {
        WebEventView::PageLoad => "page loaded"@,
        WebEventView::PageUnload => "page unloaded"@,
        WebEventView::KeyPress(c) => "pressed '"@.push(c) + "'."@,
        WebEventView::Paste(text) => "pasted \""@ + text + "\"."@,
        WebEventView::Click { x, y } => "clicked at x="@ + decimal_text(x) + ", y="@
            + decimal_text(y),
    }
}

/// Two clicks with the same line are at the same place: the comma that
/// follows the first numeral cannot be part of a numeral, so the line splits
/// into its two numerals in one way only.
proof fn lemma_click_line_injective(x1: int, y1: int, x2: int, y2: int)
    requires
        report(WebEventView::Click { x: x1, y: y1 }) == report(
            WebEventView::Click { x: x2, y: y2 },
        ),
    ensures
        x1 == x2,
        y1 == y2,
{
    reveal_strlit("clicked at x=");
    reveal_strlit(", y=");
    let line1 = report(WebEventView::Click { x: x1, y: y1 });
    let line2 = report(WebEventView::Click { x: x2, y: y2 });
    let (dx1, dy1) = (decimal_text(x1), decimal_text(y1));
    let (dx2, dy2) = (decimal_text(x2), decimal_text(y2));
    lemma_decimal_text_chars(x1);
    lemma_decimal_text_chars(x2);
    // Where the first numeral starts, and how long it is in each line.
    let start = "clicked at x="@.len() as int;
    let n1 = dx1.len() as int;
    let n2 = dx2.len() as int;
    if n1 < n2 {
        assert(line1[start + n1] == ',');
        assert(line2[start + n1] == dx2[n1]);
        assert(false);
    }
    if n2 < n1 {
        assert(line2[start + n2] == ',');
        assert(line1[start + n2] == dx1[n2]);
        assert(false);
    }
    assert(dx1 =~= line1.subrange(start, start + n1));
    assert(dx2 =~= line2.subrange(start, start + n1));
    lemma_decimal_text_injective(x1, x2);
    let rest = start + n1 + ", y="@.len();
    assert(dy1 =~= line1.subrange(rest, line1.len() as int));
    assert(dy2 =~= line2.subrange(rest, line2.len() as int));
    lemma_decimal_text_injective(y1, y2);
}

/// The length of a line and its first and third character, as far as they
/// are needed to tell the kinds of event apart.
proof fn lemma_report_shape(event: WebEventView)
    ensures
        report(event).len() >= 10,
        match event {
            WebEventView::PageLoad => report(event).len() == 11 && report(event)[0] == 'p'
                && report(event)[2] == 'g',
            WebEventView::PageUnload => report(event).len() == 13 && report(event)[0] == 'p'
                && report(event)[2] == 'g',
            WebEventView::KeyPress(_) => report(event)[0] == 'p' && report(event)[2] == 'e',
            WebEventView::Paste(_) => report(event)[0] == 'p' && report(event)[2] == 's',
            WebEventView::Click { .. } => report(event)[0] == 'c',
        },
{
    reveal_strlit("page loaded");
    reveal_strlit("page unloaded");
    reveal_strlit("pressed '");
    reveal_strlit("'.");
    reveal_strlit("pasted \"");
    reveal_strlit("\".");
    reveal_strlit("clicked at x=");
    reveal_strlit(", y=");
}

/// The line tells which event it reports: events with the same line are the
/// same event.
pub proof fn lemma_report_injective(a: WebEventView, b: WebEventView)
    requires
        report(a) == report(b),
    ensures
        a == b,
{
    lemma_report_shape(a);
    lemma_report_shape(b);
    match (a, b) {
        (WebEventView::KeyPress(c1), WebEventView::KeyPress(c2)) => {
            reveal_strlit("pressed '");
            assert(report(a)[9] == c1);
            assert(report(b)[9] == c2);
        },
        (WebEventView::Paste(t1), WebEventView::Paste(t2)) => {
            reveal_strlit("pasted \"");
            reveal_strlit("\".");
            assert(t1 =~= report(a).subrange(8, 8 + t1.len() as int));
            assert(t2 =~= report(b).subrange(8, 8 + t2.len() as int));
        },
        (WebEventView::Click { x: x1, y: y1 }, WebEventView::Click { x: x2, y: y2 }) => {
            lemma_click_line_injective(x1, y1, x2, y2);
        },
        _ => {},
    }
}

/// Builds the line that reports `web_event`.
pub fn inspect(web_event: WebEvent) -> (line: String)
    ensures
        line@ == report(web_event@),
{
    match web_event {
        WebEvent::PageLoad => "page loaded".to_owned(),
        WebEvent::PageUnload => "page unloaded".to_owned(),
        WebEvent::KeyPress(c) => {
            let mut line = "pressed '".to_owned();
            line.push(c);
            line.append("'.");
            line
        },
        WebEvent::Paste(text) => {
            let mut line = "pasted \"".to_owned();
            line.append(text.as_str());
            line.append("\".");
            line
        },
        WebEvent::Click { x, y } => {
            let mut line = "clicked at x=".to_owned();
            push_decimal(&mut line, x);
            line.append(", y=");
            push_decimal(&mut line, y);
            line
        },
    }
}

} // verus!
