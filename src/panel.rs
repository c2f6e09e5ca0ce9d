//! The text panel: a `user@host` header, its underline, one row per fact and
//! a colour swatch strip, each placed at the origin column.

use vstd::prelude::*;
use crate::fact::{self, Data};
use crate::layout::{
    art_cells, compute_origin, lemma_text_clears_art, origin_of, ratio_of, ArtSize, Ratio, ScreenSize,
};
use crate::text::{char_text, repeat_char, run_of};

verus! {

/// The eight terminal colours.
#[derive(Clone, Copy, Debug, PartialEq, Eq, Structural)]
pub enum Hue {
    Red,
    Yellow,
    Green,
    Cyan,
    Blue,
    Magenta,
    Black,
    White,
}

/// A piece of text in one colour.
#[derive(Clone, Debug)]
pub struct Span {
    pub hue: Hue,
    pub text: String,
}

/// One row of the panel: where it starts, whether bold is switched on
/// before it, and its coloured pieces in order.
#[derive(Clone, Debug)]
pub struct PanelLine {
    pub col: u64,
    pub row: u64,
    pub bold: bool,
    pub spans: Vec<Span>,
}

/// Everything the panel draws, and where the cursor is left afterwards.
#[derive(Clone, Debug)]
pub struct Panel {
    pub lines: Vec<PanelLine>,
    pub cursor_col: u64,
    pub cursor_row: u64,
}

/// What a run draws: the facts, the identity pair, the alignment mode and the
/// ratio of terminal to art.
#[derive(Debug)]
pub struct RenderConfig {
    pub data: Vec<Data>,
    pub user: (Data, Data),
    pub icons: bool,
    pub ratio: Ratio,
}

/// The character of the header underline.
pub open spec fn dash() -> char {
    '\u{2014}'
}

/// One segment of the swatch strip.
pub open spec fn block3() -> Seq<char> {
    run_of('\u{2588}', 3)
}

pub open spec fn arrow() -> Seq<char> {
    seq![' ', '-', '>']
}

/// Length of the longest label among `facts`, in characters.
pub open spec fn max_label_len(facts: Seq<Data>) -> nat
    decreases facts.len(),
{
    if facts.len() == 0 {
        0
    } else {
        let rest = max_label_len(facts.drop_last());
        let l = facts.last().name@.len();
        if l > rest {
            l
        } else {
            rest
        }
    }
}

/// Icon mode: the glyph, then the arrow.
pub open spec fn icon_lead(d: Data) -> Seq<char> {
    seq![d.icon] + arrow()
}

/// Label-padded mode: the label, spaces up to `width`, then the arrow.
pub open spec fn padded_lead(d: Data, width: nat) -> Seq<char> {
    d.name@ + run_of(' ', (width - d.name@.len()) as nat) + arrow()
}

pub open spec fn fact_lead(d: Data, icons: bool, width: nat) -> Seq<char> {
    if icons {
        icon_lead(d)
    } else {
        padded_lead(d, width)
    }
}

pub open spec fn header_spans(user: Data, host: Data) -> Seq<(Hue, Seq<char>)> {
    seq![(Hue::Red, user.value@), (Hue::Cyan, seq!['@']), (Hue::Red, host.value@)]
}

pub open spec fn underline_spans(user: Data, host: Data) -> Seq<(Hue, Seq<char>)> {
    seq![(Hue::Magenta, run_of(dash(), user.value@.len() + host.value@.len() + 1))]
}

pub open spec fn fact_spans(d: Data, icons: bool, width: nat) -> Seq<(Hue, Seq<char>)> {
    seq![(Hue::Magenta, fact_lead(d, icons, width)), (Hue::White, seq![' '] + d.value@)]
}

pub open spec fn swatch_spans() -> Seq<(Hue, Seq<char>)> {
    seq![
        (Hue::Red, block3()),
        (Hue::Yellow, block3()),
        (Hue::Green, block3()),
        (Hue::Cyan, block3()),
        (Hue::Blue, block3()),
        (Hue::Magenta, block3()),
        (Hue::Black, block3()),
        (Hue::White, block3()),
    ]
}

/// The text of a row, all pieces joined.
pub open spec fn joined(spans: Seq<(Hue, Seq<char>)>) -> Seq<char>
    decreases spans.len(),
{
    if spans.len() == 0 {
        Seq::empty()
    } else {
        joined(spans.drop_last()) + spans.last().1
    }
}

/// `spans` holds exactly the given pieces.
pub open spec fn spans_are(spans: Seq<Span>, want: Seq<(Hue, Seq<char>)>) -> bool {
    &&& spans.len() == want.len()
    &&& forall|i: int|
        0 <= i < want.len() ==> #[trigger] spans[i].hue == want[i].0 && spans[i].text@ == want[i].1
}

/// `l` starts at (`col`, `row`) and holds exactly the given pieces.
pub open spec fn shows(l: PanelLine, col: int, row: int, bold: bool, want: Seq<(Hue, Seq<char>)>) -> bool {
    &&& l.col == col
    &&& l.row == row
    &&& l.bold == bold
    &&& spans_are(l.spans@, want)
}

impl RenderConfig {
    /// The ratio is finite and positive on both axes.
    pub open spec fn wf(&self) -> bool {
        self.ratio.wf()
    }

    /// A configuration with the ratio one to one on both axes.
    pub fn new(data: Vec<Data>, user: (Data, Data), icons: bool) -> (c: RenderConfig)
        ensures
            c.data@ == data@,
            c.user == user,
            c.icons == icons,
            c.ratio == (Ratio { x_num: 1, x_den: 1, y_num: 1, y_den: 1 }),
            c.wf(),
    {
        RenderConfig { data, user, icons, ratio: Ratio { x_num: 1, x_den: 1, y_num: 1, y_den: 1 } }
    }

    /// The run's configuration from the values read at startup: the facts OS,
    /// Kernel, Uptime, Shell, WM and Term in that order, the identity pair
    /// User and Hostname, and a one to one ratio.
    pub fn from_values(
        distro_value: String,
        kernel_value: String,
        uptime_value: String,
        shell_value: String,
        wm_value: String,
        term_value: String,
        user_value: String,
        host_value: String,
        icons: bool,
    ) -> (c: RenderConfig)
        ensures
            c.data@.len() == 6,
            c.data@[0].name@ == "OS"@ && c.data@[0].icon == '\u{f17c}' && c.data@[0].value
                == distro_value,
            c.data@[1].name@ == "Kernel"@ && c.data@[1].icon == '\u{e266}' && c.data@[1].value
                == kernel_value,
            c.data@[2].name@ == "Uptime"@ && c.data@[2].icon == '\u{f017}' && c.data@[2].value
                == uptime_value,
            c.data@[3].name@ == "Shell"@ && c.data@[3].icon == '\u{e795}' && c.data@[3].value
                == shell_value,
            c.data@[4].name@ == "WM"@ && c.data@[4].icon == '\u{f878}' && c.data@[4].value
                == wm_value,
            c.data@[5].name@ == "Term"@ && c.data@[5].icon == '\u{f44f}' && c.data@[5].value
                == term_value,
            c.user.0.name@ == "User"@ && c.user.0.icon == '\u{f17c}' && c.user.0.value
                == user_value,
            c.user.1.name@ == "Hostname"@ && c.user.1.icon == '\u{f17c}' && c.user.1.value
                == host_value,
            c.icons == icons,
            c.ratio == (Ratio { x_num: 1, x_den: 1, y_num: 1, y_den: 1 }),
            c.wf(),
    {
        let mut facts: Vec<Data> = Vec::new();
        facts.push(fact::distro(distro_value));
        facts.push(fact::kernel(kernel_value));
        facts.push(fact::uptime(uptime_value));
        facts.push(fact::shell(shell_value));
        facts.push(fact::wm(wm_value));
        facts.push(fact::term(term_value));
        let user = (fact::username(user_value), fact::hostname(host_value));
        RenderConfig::new(facts, user, icons)
    }

    /// Replaces the ratio and keeps everything else.
    pub fn set_ratio(&mut self, ratio: &Ratio)
        ensures
            final(self).ratio == *ratio,
            final(self).data@ == old(self).data@,
            final(self).user == old(self).user,
            final(self).icons == old(self).icons,
    {
        self.ratio = *ratio;
    }
}

fn span(hue: Hue, text: String) -> (s: Span)
    ensures
        s.hue == hue,
        s.text@ == text@,
{
    Span { hue, text }
}

fn copy_text(s: &String) -> (r: String)
    ensures
        r@ == s@,
{
    s.clone()
}

/// The length of the longest label.
pub fn max_label(facts: &Vec<Data>) -> (w: usize)
    ensures
        w == max_label_len(facts@),
{
    let mut w: usize = 0;
    let mut i: usize = 0;
    while i < facts.len()
        invariant
            i <= facts@.len(),
            w == max_label_len(facts@.subrange(0, i as int)),
        decreases facts@.len() - i,
    {
        let l = facts[i].name.as_str().unicode_len();
        proof {
            let s = facts@.subrange(0, i as int + 1);
            assert(s.drop_last() =~= facts@.subrange(0, i as int));
        }
        if l > w {
            w = l;
        }
        i = i + 1;
    }
    assert(facts@.subrange(0, facts@.len() as int) =~= facts@);
    w
}

/// Every label is at most as long as the longest one.
pub proof fn lemma_max_label_bounds(facts: Seq<Data>, i: int)
    requires
        0 <= i < facts.len(),
    ensures
        facts[i].name@.len() <= max_label_len(facts),
    decreases facts.len(),
{
    if i < facts.len() - 1 {
        lemma_max_label_bounds(facts.drop_last(), i);
    }
}

/// In label-padded mode every fact row puts its arrow in the same column:
/// label length plus padding equals the longest label's length, and the
/// arrow follows right there.
pub proof fn lemma_arrows_align(facts: Seq<Data>, i: int, j: int)
    requires
        0 <= i < facts.len(),
        0 <= j < facts.len(),
    ensures
        ({
            let w = max_label_len(facts);
            let a = padded_lead(facts[i], w);
            let b = padded_lead(facts[j], w);
            &&& facts[i].name@.len() + (w - facts[i].name@.len()) == w
            &&& a.len() == w + 3
            &&& b.len() == a.len()
            &&& a.subrange(w as int, w as int + 3) == arrow()
            &&& b.subrange(w as int, w as int + 3) == arrow()
        }),
{
    let w = max_label_len(facts);
    lemma_max_label_bounds(facts, i);
    lemma_max_label_bounds(facts, j);
    assert(padded_lead(facts[i], w).subrange(w as int, w as int + 3) =~= arrow());
    assert(padded_lead(facts[j], w).subrange(w as int, w as int + 3) =~= arrow());
}

/// In icon mode the glyph field is one character wide whatever the value:
/// the row starts with the glyph and the arrow follows at once.
pub proof fn lemma_icon_field_width(d: Data, width: nat)
    ensures
        fact_lead(d, true, width).len() == 4,
        fact_lead(d, true, width)[0] == d.icon,
        fact_lead(d, true, width).subrange(1, 4) == arrow(),
        fact_spans(d, true, width)[1].1.len() == d.value@.len() + 1,
{
    assert(fact_lead(d, true, width).subrange(1, 4) =~= arrow());
}

/// The underline has one dash for each character of the user name, one for
/// each of the host name and one for the `@`: as long as the header.
pub proof fn lemma_underline_length(user: Data, host: Data)
    ensures
        joined(underline_spans(user, host)).len() == user.value@.len() + host.value@.len() + 1,
        joined(header_spans(user, host)).len() == joined(underline_spans(user, host)).len(),
{
    reveal_with_fuel(joined, 4);
    let u = underline_spans(user, host);
    assert(u.drop_last() =~= Seq::empty());
    let h = header_spans(user, host);
    assert(h.drop_last().drop_last().drop_last() =~= Seq::empty());
    assert(h.drop_last().drop_last() =~= seq![h[0]]);
    assert(h.drop_last() =~= seq![h[0], h[1]]);
}

/// The first piece of a fact row: the glyph or the padded label, then the arrow.
pub fn fact_lead_text(d: &Data, icons: bool, width: usize) -> (r: String)
    requires
        icons || d.name@.len() <= width,
    ensures
        r@ == fact_lead(*d, icons, width as nat),
{
    proof {
        reveal_strlit(" ->");
        reveal_strlit(" ");
    }
    if icons {
        let mut r = char_text(d.icon);
        r.append(" ->");
        assert(r@ =~= fact_lead(*d, icons, width as nat));
        r
    } else {
        let mut r = copy_text(&d.name);
        let pad = repeat_char(" ", width - d.name.as_str().unicode_len());
        r.append(pad.as_str());
        r.append(" ->");
        assert(r@ =~= fact_lead(*d, icons, width as nat));
        r
    }
}

fn two_spans(a: Span, b: Span) -> (v: Vec<Span>)
    ensures
        v@.len() == 2,
        v@[0] == a,
        v@[1] == b,
{
    let mut v = Vec::new();
    v.push(a);
    v.push(b);
    v
}

/// The row of one fact.
pub fn fact_line(d: &Data, icons: bool, width: usize, col: u64, row: u64) -> (l: PanelLine)
    requires
        icons || d.name@.len() <= width,
    ensures
        shows(l, col as int, row as int, true, fact_spans(*d, icons, width as nat)),
{
    proof {
        reveal_strlit(" ");
    }
    let lead = fact_lead_text(d, icons, width);
    let mut tail = String::from_str(" ");
    tail.append(d.value.as_str());
    assert(tail@ =~= seq![' '] + d.value@);
    let spans = two_spans(span(Hue::Magenta, lead), span(Hue::White, tail));
    let l = PanelLine { col, row, bold: true, spans };
    let ghost want = fact_spans(*d, icons, width as nat);
    assert(l.spans@[0].hue == want[0].0 && l.spans@[0].text@ == want[0].1);
    assert(l.spans@[1].hue == want[1].0 && l.spans@[1].text@ == want[1].1);
    assert(spans_are(l.spans@, fact_spans(*d, icons, width as nat)));
    l
}

fn block_span(hue: Hue) -> (s: Span)
    ensures
        s.hue == hue,
        s.text@ == block3(),
{
    proof {
        reveal_strlit("\u{2588}");
    }
    span(hue, repeat_char("\u{2588}", 3))
}

/// The swatch strip: eight three-cell blocks, one per colour.
pub fn swatch_line(col: u64, row: u64) -> (l: PanelLine)
    ensures
        shows(l, col as int, row as int, false, swatch_spans()),
{
    let mut v = Vec::new();
    v.push(block_span(Hue::Red));
    v.push(block_span(Hue::Yellow));
    v.push(block_span(Hue::Green));
    v.push(block_span(Hue::Cyan));
    v.push(block_span(Hue::Blue));
    v.push(block_span(Hue::Magenta));
    v.push(block_span(Hue::Black));
    v.push(block_span(Hue::White));
    let l = PanelLine { col, row, bold: false, spans: v };
    assert(spans_are(l.spans@, swatch_spans()));
    l
}

/// The header row `user@host`: the names in red, the `@` in cyan.
pub fn header_line(user: &Data, host: &Data, col: u64, row: u64) -> (l: PanelLine)
    ensures
        shows(l, col as int, row as int, true, header_spans(*user, *host)),
{
    proof {
        reveal_strlit("@");
    }
    let mut v = Vec::new();
    v.push(span(Hue::Red, copy_text(&user.value)));
    v.push(span(Hue::Cyan, String::from_str("@")));
    v.push(span(Hue::Red, copy_text(&host.value)));
    let l = PanelLine { col, row, bold: true, spans: v };
    let ghost want = header_spans(*user, *host);
    assert(l.spans@[0].hue == want[0].0 && l.spans@[0].text@ == want[0].1);
    assert(l.spans@[1].hue == want[1].0 && l.spans@[1].text@ == want[1].1);
    assert(l.spans@[2].hue == want[2].0 && l.spans@[2].text@ == want[2].1);
    l
}

/// The underline: one dash per character of `user@host`.
pub fn underline_line(user: &Data, host: &Data, col: u64, row: u64) -> (l: PanelLine)
    requires
        user.value@.len() + host.value@.len() + 1 <= usize::MAX,
    ensures
        shows(l, col as int, row as int, false, underline_spans(*user, *host)),
{
    proof {
        reveal_strlit("\u{2014}");
    }
    let n = user.value.as_str().unicode_len() + host.value.as_str().unicode_len() + 1;
    let mut v = Vec::new();
    v.push(span(Hue::Magenta, repeat_char("\u{2014}", n)));
    let l = PanelLine { col, row, bold: false, spans: v };
    let ghost want = underline_spans(*user, *host);
    assert(l.spans@[0].hue == want[0].0 && l.spans@[0].text@ == want[0].1);
    l
}

/// `p` is the panel for `config` on a terminal of `cols` by `rows` cells:
/// the header at the origin column on the header row, the underline one row
/// below, the facts from two rows below in their given order, the swatch
/// strip on the row after the last fact, and the cursor left in column 1 of
/// the row after the origin row.
pub open spec fn lays_out(config: RenderConfig, cols: u16, rows: u16, p: Panel) -> bool {
    let o = origin_of(config.ratio, cols, rows);
    let n = config.data@.len() as int;
    let w = max_label_len(config.data@);
    &&& p.lines@.len() == n + 3
    &&& shows(
        p.lines@[0],
        o.x as int,
        o.first_row as int,
        true,
        header_spans(config.user.0, config.user.1),
    )
    &&& shows(
        p.lines@[1],
        o.x as int,
        o.first_row + 1,
        false,
        underline_spans(config.user.0, config.user.1),
    )
    &&& forall|i: int|
        0 <= i < n ==> shows(
            #[trigger] p.lines@[i + 2],
            o.x as int,
            o.first_row + 2 + i,
            true,
            fact_spans(config.data@[i], config.icons, w),
        )
    &&& shows(p.lines@[n + 2], o.x as int, o.first_row + 2 + n, false, swatch_spans())
    &&& p.cursor_col == 1
    &&& p.cursor_row == o.y + 1
}

/// Every row of the panel starts right of the art's last column, at least
/// four columns in, and the cursor is left below the art's last row.
pub proof fn lemma_panel_clears_art(
    art: ArtSize,
    term: ScreenSize,
    cols: u16,
    rows: u16,
    config: RenderConfig,
    p: Panel,
)
    requires
        art.width > 0,
        art.height > 0,
        term.width > 0,
        term.height > 0,
        config.ratio == ratio_of(art, term),
        lays_out(config, cols, rows, p),
    ensures
        forall|i: int|
            0 <= i < p.lines@.len() ==> {
                &&& (#[trigger] p.lines@[i]).col >= 4
                &&& p.lines@[i].col > art_cells(art, term, cols, rows).0
            },
        p.cursor_row > art_cells(art, term, cols, rows).1,
{
    lemma_text_clears_art(art, term, cols, rows);
    let n = config.data@.len() as int;
    assert forall|i: int| 0 <= i < p.lines@.len() implies {
        &&& (#[trigger] p.lines@[i]).col >= 4
        &&& p.lines@[i].col > art_cells(art, term, cols, rows).0
    } by {
        if 2 <= i < n + 2 {
            let o = origin_of(config.ratio, cols, rows);
            let w = max_label_len(config.data@);
            assert(shows(
                p.lines@[(i - 2) + 2],
                o.x as int,
                o.first_row + 2 + (i - 2),
                true,
                fact_spans(config.data@[i - 2], config.icons, w),
            ));
        }
    }
}

/// Laying out is a function of the configuration and the terminal size
/// alone: two panels for equal configurations on equal terminals agree row
/// by row in position, boldness, colours and text, and leave the cursor in
/// the same place.
pub proof fn lemma_panel_deterministic(
    c1: RenderConfig,
    c2: RenderConfig,
    cols: u16,
    rows: u16,
    p1: Panel,
    p2: Panel,
)
    requires
        c1.data@ == c2.data@,
        c1.user == c2.user,
        c1.icons == c2.icons,
        c1.ratio == c2.ratio,
        lays_out(c1, cols, rows, p1),
        lays_out(c2, cols, rows, p2),
    ensures
        p1.lines@.len() == p2.lines@.len(),
        forall|i: int|
            0 <= i < p1.lines@.len() ==> same_line(#[trigger] p1.lines@[i], p2.lines@[i]),
        p1.cursor_col == p2.cursor_col,
        p1.cursor_row == p2.cursor_row,
{
    let o = origin_of(c1.ratio, cols, rows);
    let n = c1.data@.len() as int;
    let w = max_label_len(c1.data@);
    assert forall|i: int| 0 <= i < p1.lines@.len() implies same_line(
        #[trigger] p1.lines@[i],
        p2.lines@[i],
    ) by {
        let want = if i == 0 {
            header_spans(c1.user.0, c1.user.1)
        } else if i == 1 {
            underline_spans(c1.user.0, c1.user.1)
        } else if i < n + 2 {
            fact_spans(c1.data@[i - 2], c1.icons, w)
        } else {
            swatch_spans()
        };
        if 2 <= i < n + 2 {
            assert(p1.lines@[(i - 2) + 2] == p1.lines@[i]);
            assert(p2.lines@[(i - 2) + 2] == p2.lines@[i]);
        }
        assert(spans_are(p1.lines@[i].spans@, want));
        assert(spans_are(p2.lines@[i].spans@, want));
        assert forall|k: int| 0 <= k < p1.lines@[i].spans@.len() implies same_span(
            #[trigger] p1.lines@[i].spans@[k],
            p2.lines@[i].spans@[k],
        ) by {
            assert(p1.lines@[i].spans@[k].hue == want[k].0);
            assert(p2.lines@[i].spans@[k].hue == want[k].0);
        }
    }
}

/// Two pieces with the same colour and text.
pub open spec fn same_span(a: Span, b: Span) -> bool {
    a.hue == b.hue && a.text@ == b.text@
}

/// Two rows at the same place, equally bold, with the same pieces.
pub open spec fn same_line(a: PanelLine, b: PanelLine) -> bool {
    &&& a.col == b.col
    &&& a.row == b.row
    &&& a.bold == b.bold
    &&& a.spans@.len() == b.spans@.len()
    &&& forall|k: int| 0 <= k < a.spans@.len() ==> same_span(#[trigger] a.spans@[k], b.spans@[k])
}

/// Lays out the whole panel for a terminal of `cols` by `rows` cells.
///
/// The header sits at the origin column on the header row, the underline one
/// row below, the facts from two rows below in their given order, one row
/// each, and the swatch strip on the row after the last fact. The cursor is
/// then left in column 1 of the row after the origin row.
pub fn data(config: &RenderConfig, cols: u16, rows: u16) -> (p: Panel)
    requires
        config.wf(),
        config.data@.len() <= 0xffff_ffff,
        config.user.0.value@.len() + config.user.1.value@.len() + 1 <= usize::MAX,
    ensures
        lays_out(*config, cols, rows, p),
{
    let o = compute_origin(config.ratio, cols, rows);
    let width = max_label(&config.data);
    let mut lines: Vec<PanelLine> = Vec::new();
    lines.push(header_line(&config.user.0, &config.user.1, o.x, o.first_row));
    lines.push(underline_line(&config.user.0, &config.user.1, o.x, o.first_row + 1));
    let n = config.data.len();
    let mut i: usize = 0;
    while i < n
        invariant
            n == config.data@.len(),
            n <= 0xffff_ffff,
            i <= n,
            width == max_label_len(config.data@),
            o == origin_of(config.ratio, cols, rows),
            o.first_row <= 0xffff * 0xffff_ffff * 10,
            lines@.len() == i + 2,
            shows(
                lines@[0],
                o.x as int,
                o.first_row as int,
                true,
                header_spans(config.user.0, config.user.1),
            ),
            shows(
                lines@[1],
                o.x as int,
                o.first_row + 1,
                false,
                underline_spans(config.user.0, config.user.1),
            ),
            forall|j: int|
                0 <= j < i ==> shows(
                    #[trigger] lines@[j + 2],
                    o.x as int,
                    o.first_row + 2 + j,
                    true,
                    fact_spans(config.data@[j], config.icons, width as nat),
                ),
        decreases n - i,
    {
        proof {
            lemma_max_label_bounds(config.data@, i as int);
        }
        let l = fact_line(&config.data[i], config.icons, width, o.x, o.first_row + 2 + i as u64);
        lines.push(l);
        i = i + 1;
    }
    lines.push(swatch_line(o.x, o.first_row + 2 + n as u64));
    Panel { lines, cursor_col: 1, cursor_row: o.y + 1 }
}

} // verus!
