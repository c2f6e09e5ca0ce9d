//! Terminal escape sequences for a laid-out panel.

use vstd::prelude::*;
use crate::panel::{Hue, Panel, PanelLine, Span};
use crate::source::decimal;

verus! {

/// The control sequence introducer, `ESC [`.
pub open spec fn csi() -> Seq<char> {
    seq!['\u{1b}', '[']
}

/// Moves the cursor to column `col` of row `row`.
pub open spec fn goto_text(col: nat, row: nat) -> Seq<char> {
    csi() + decimal(row) + seq![';'] + decimal(col) + seq!['H']
}

/// Switches bold text on.
pub open spec fn bold_text() -> Seq<char> {
    csi() + seq!['1', 'm']
}

/// The palette index of a colour.
pub open spec fn hue_index(h: Hue) -> nat {
    match h {
        Hue::Black => 0,
        Hue::Red => 1,
        Hue::Green => 2,
        Hue::Yellow => 3,
        Hue::Blue => 4,
        Hue::Magenta => 5,
        Hue::Cyan => 6,
        Hue::White => 7,
    }
}

/// Sets the foreground colour.
pub open spec fn fg_text(h: Hue) -> Seq<char> {
    csi() + seq!['3', '8', ';', '5', ';'] + decimal(hue_index(h)) + seq!['m']
}

/// Each piece in its colour, in order.
pub open spec fn spans_text(spans: Seq<Span>) -> Seq<char>
    decreases spans.len(),
{
    if spans.len() == 0 {
        Seq::empty()
    } else {
        spans_text(spans.drop_last()) + fg_text(spans.last().hue) + spans.last().text@
    }
}

/// A row: the cursor move, bold when asked, then the pieces.
pub open spec fn line_text(l: PanelLine) -> Seq<char> {
    goto_text(l.col as nat, l.row as nat) + (if l.bold {
        bold_text()
    } else {
        Seq::empty()
    }) + spans_text(l.spans@)
}

/// All rows, in order.
pub open spec fn lines_text(lines: Seq<PanelLine>) -> Seq<char>
    decreases lines.len(),
{
    if lines.len() == 0 {
        Seq::empty()
    } else {
        lines_text(lines.drop_last()) + line_text(lines.last())
    }
}

/// A position that a cursor move can address.
pub open spec fn fits(col: u64, row: u64) -> bool {
    col <= 0xffff && row <= 0xffff
}

pub open spec fn panel_fits(p: Panel) -> bool {
    &&& fits(p.cursor_col, p.cursor_row)
    &&& forall|i: int| 0 <= i < p.lines@.len() ==> fits(#[trigger] p.lines@[i].col, p.lines@[i].row)
}

/// Relies on termion's `From<cursor::Goto> for String`: `ESC [`, the row
/// and the column in decimal, separated by `;`, then `H`.
#[verifier::external_body]
fn goto_code(col: u16, row: u16) -> (r: String)
    ensures
        r@ == goto_text(col as nat, row as nat),
{
    String::from(termion::cursor::Goto(col, row))
}

/// Relies on termion's `AsRef<str> for style::Bold`: `ESC [1m`.
#[verifier::external_body]
fn bold_code() -> (r: String)
    ensures
        r@ == bold_text(),
{
    String::from(<termion::style::Bold as AsRef<str>>::as_ref(&termion::style::Bold))
}

/// Relies on `termion::color::Black::fg_str`: `ESC [38;5;0m`.
#[verifier::external_body]
fn fg_black() -> (r: String)
    ensures
        r@ == fg_text(Hue::Black),
{
    String::from(termion::color::Black.fg_str())
}

/// Relies on `termion::color::Red::fg_str`: `ESC [38;5;1m`.
#[verifier::external_body]
fn fg_red() -> (r: String)
    ensures
        r@ == fg_text(Hue::Red),
{
    String::from(termion::color::Red.fg_str())
}

/// Relies on `termion::color::Green::fg_str`: `ESC [38;5;2m`.
#[verifier::external_body]
fn fg_green() -> (r: String)
    ensures
        r@ == fg_text(Hue::Green),
{
    String::from(termion::color::Green.fg_str())
}

/// Relies on `termion::color::Yellow::fg_str`: `ESC [38;5;3m`.
#[verifier::external_body]
fn fg_yellow() -> (r: String)
    ensures
        r@ == fg_text(Hue::Yellow),
{
    String::from(termion::color::Yellow.fg_str())
}

/// Relies on `termion::color::Blue::fg_str`: `ESC [38;5;4m`.
#[verifier::external_body]
fn fg_blue() -> (r: String)
    ensures
        r@ == fg_text(Hue::Blue),
{
    String::from(termion::color::Blue.fg_str())
}

/// Relies on `termion::color::Magenta::fg_str`: `ESC [38;5;5m`.
#[verifier::external_body]
fn fg_magenta() -> (r: String)
    ensures
        r@ == fg_text(Hue::Magenta),
{
    String::from(termion::color::Magenta.fg_str())
}

/// Relies on `termion::color::Cyan::fg_str`: `ESC [38;5;6m`.
#[verifier::external_body]
fn fg_cyan() -> (r: String)
    ensures
        r@ == fg_text(Hue::Cyan),
{
    String::from(termion::color::Cyan.fg_str())
}

/// Relies on `termion::color::White::fg_str`: `ESC [38;5;7m`.
#[verifier::external_body]
fn fg_white() -> (r: String)
    ensures
        r@ == fg_text(Hue::White),
{
    String::from(termion::color::White.fg_str())
}

/// Sets the foreground colour `h`.
fn fg_code(h: Hue) -> (r: String)
    ensures
        r@ == fg_text(h),
{
    match h {
        Hue::Black => fg_black(),
        Hue::Red => fg_red(),
        Hue::Green => fg_green(),
        Hue::Yellow => fg_yellow(),
        Hue::Blue => fg_blue(),
        Hue::Magenta => fg_magenta(),
        Hue::Cyan => fg_cyan(),
        Hue::White => fg_white(),
    }
}

/// The escape text of one row; `None` when its position is beyond what a
/// cursor move can address.
pub fn encode_line(l: &PanelLine) -> (r: Option<String>)
    ensures
        r is Some <==> fits(l.col, l.row),
        r matches Some(s) ==> s@ == line_text(*l),
{
    if l.col > 0xffff || l.row > 0xffff {
        return None;
    }
    let mut r = goto_code(l.col as u16, l.row as u16);
    if l.bold {
        r.append(bold_code().as_str());
    }
    let ghost head = r@;
    let mut i: usize = 0;
    while i < l.spans.len()
        invariant
            i <= l.spans@.len(),
            r@ == head + spans_text(l.spans@.subrange(0, i as int)),
        decreases l.spans@.len() - i,
    {
        proof {
            assert(l.spans@.subrange(0, i as int + 1).drop_last() =~= l.spans@.subrange(0, i as int));
        }
        r.append(fg_code(l.spans[i].hue).as_str());
        r.append(l.spans[i].text.as_str());
        i = i + 1;
    }
    assert(l.spans@.subrange(0, l.spans@.len() as int) =~= l.spans@);
    assert(r@ =~= line_text(*l));
    Some(r)
}

/// The escape text of a whole panel: every row in order, then the move to
/// where the cursor is left. `None` when a position is beyond what a cursor
/// move can address.
pub fn encode_panel(p: &Panel) -> (r: Option<String>)
    ensures
        r is Some <==> panel_fits(*p),
        r matches Some(s) ==> s@ == lines_text(p.lines@) + goto_text(
            p.cursor_col as nat,
            p.cursor_row as nat,
        ),
{
    let mut r = String::new();
    let mut i: usize = 0;
    while i < p.lines.len()
        invariant
            i <= p.lines@.len(),
            r@ == lines_text(p.lines@.subrange(0, i as int)),
            forall|k: int| 0 <= k < i ==> fits(#[trigger] p.lines@[k].col, p.lines@[k].row),
        decreases p.lines@.len() - i,
    {
        proof {
            assert(p.lines@.subrange(0, i as int + 1).drop_last() =~= p.lines@.subrange(0, i as int));
        }
        match encode_line(&p.lines[i]) {
            Some(s) => r.append(s.as_str()),
            None => return None,
        }
        i = i + 1;
    }
    assert(p.lines@.subrange(0, p.lines@.len() as int) =~= p.lines@);
    if p.cursor_col > 0xffff || p.cursor_row > 0xffff {
        return None;
    }
    r.append(goto_code(p.cursor_col as u16, p.cursor_row as u16).as_str());
    Some(r)
}

} // verus!
