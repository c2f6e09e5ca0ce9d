use zerofetch::escape::{encode_line, encode_panel};
use zerofetch::fact::{distro, hostname, kernel, shell, term, uptime, username, wm, Data};
use zerofetch::layout::Ratio;
use zerofetch::panel::{data, fact_lead_text, fact_line, max_label, Hue, PanelLine, RenderConfig, Span};

fn text(l: &PanelLine) -> String {
    let mut s = String::new();
    for sp in &l.spans {
        s.push_str(&sp.text);
    }
    s
}

fn scenario(icons: bool) -> RenderConfig {
    let mut c = RenderConfig::new(
        vec![
            Data { name: "OS".to_string(), icon: '\u{f17c}', value: "Linux".to_string() },
            Data { name: "Kernel".to_string(), icon: '\u{e266}', value: "6.1.0".to_string() },
        ],
        (username("ann".to_string()), hostname("box".to_string())),
        icons,
    );
    c.set_ratio(&Ratio { x_num: 80, x_den: 30, y_num: 24, y_den: 14 });
    c
}

#[test]
fn padded_scenario_on_80_by_24() {
    let p = data(&scenario(false), 80, 24);
    assert_eq!(p.lines.len(), 5);
    assert_eq!((p.lines[0].col, p.lines[0].row), (34, 6));
    assert_eq!(text(&p.lines[0]), "ann@box");
    assert_eq!((p.lines[1].col, p.lines[1].row), (34, 7));
    assert_eq!(text(&p.lines[2]), "OS     -> Linux");
    assert_eq!(p.lines[2].spans[0].text, "OS     ->");
    assert_eq!(text(&p.lines[3]), "Kernel -> 6.1.0");
    assert_eq!((p.lines[2].row, p.lines[3].row), (8, 9));
    assert_eq!((p.cursor_col, p.cursor_row), (1, 16));
}

#[test]
fn padded_arrows_share_a_column() {
    let p = data(&scenario(false), 80, 24);
    let a = text(&p.lines[2]).chars().position(|c| c == '>').unwrap();
    let b = text(&p.lines[3]).chars().position(|c| c == '>').unwrap();
    assert_eq!(a, b);
    assert_eq!(a, 8);
}

#[test]
fn icon_rows_have_one_glyph() {
    let p = data(&scenario(true), 80, 24);
    assert_eq!(text(&p.lines[2]), "\u{f17c} -> Linux");
    assert_eq!(text(&p.lines[3]), "\u{e266} -> 6.1.0");
    for l in &p.lines[2..4] {
        assert_eq!(l.spans[0].text.chars().count(), 4);
        assert_eq!(l.spans[0].hue, Hue::Magenta);
        assert_eq!(l.spans[1].hue, Hue::White);
        assert!(l.bold);
    }
}

#[test]
fn header_colours_and_underline_length() {
    let p = data(&scenario(true), 80, 24);
    let h = &p.lines[0];
    assert_eq!(h.spans.len(), 3);
    assert_eq!(h.spans[0].hue, Hue::Red);
    assert_eq!(h.spans[1].hue, Hue::Cyan);
    assert_eq!(h.spans[1].text, "@");
    assert_eq!(h.spans[2].hue, Hue::Red);
    let u = text(&p.lines[1]);
    assert_eq!(u.chars().count(), 3 + 3 + 1);
    assert!(u.chars().all(|c| c == '\u{2014}'));
}

#[test]
fn underline_counts_characters_not_bytes() {
    let mut c = scenario(false);
    c.user = (username("\u{e9}va".to_string()), hostname("h\u{f6}st".to_string()));
    let p = data(&c, 80, 24);
    assert_eq!(text(&p.lines[1]).chars().count(), 3 + 4 + 1);
}

#[test]
fn swatch_has_eight_coloured_blocks() {
    let p = data(&scenario(false), 80, 24);
    let s = &p.lines[4];
    assert_eq!(s.row, 10);
    let hues: Vec<Hue> = s.spans.iter().map(|x| x.hue).collect();
    assert_eq!(
        hues,
        vec![Hue::Red, Hue::Yellow, Hue::Green, Hue::Cyan, Hue::Blue, Hue::Magenta, Hue::Black, Hue::White]
    );
    for sp in &s.spans {
        assert_eq!(sp.text, "\u{2588}\u{2588}\u{2588}");
    }
}

#[test]
fn empty_value_keeps_trailing_space() {
    let d = Data { name: "OS".to_string(), icon: '\u{f17c}', value: String::new() };
    let l = fact_line(&d, false, 2, 1, 1);
    assert_eq!(text(&l), "OS -> ");
}

#[test]
fn no_facts_still_draws_header_and_swatch() {
    let mut c = scenario(false);
    c.data = Vec::new();
    let p = data(&c, 80, 24);
    assert_eq!(p.lines.len(), 3);
    assert_eq!(p.lines[2].row, 8);
}

#[test]
fn longest_label_and_lead() {
    let facts = vec![distro(String::new()), kernel(String::new()), uptime(String::new()), shell(String::new()), wm(String::new()), term(String::new())];
    assert_eq!(max_label(&facts), 6);
    assert_eq!(max_label(&Vec::new()), 0);
    assert_eq!(fact_lead_text(&facts[4], false, 6), "WM     ->");
    assert_eq!(fact_lead_text(&facts[4], true, 6), "\u{f878} ->");
}

#[test]
fn line_escapes() {
    let l = PanelLine {
        col: 5,
        row: 3,
        bold: true,
        spans: vec![Span { hue: Hue::Red, text: "ab".to_string() }, Span { hue: Hue::White, text: "c".to_string() }],
    };
    assert_eq!(encode_line(&l).unwrap(), "\x1b[3;5H\x1b[1m\x1b[38;5;1mab\x1b[38;5;7mc");
    let far = PanelLine { col: 70000, row: 1, bold: false, spans: Vec::new() };
    assert_eq!(encode_line(&far), None);
}

#[test]
fn panel_escapes_end_with_cursor_move() {
    let p = data(&scenario(false), 80, 24);
    let s = encode_panel(&p).unwrap();
    assert!(s.starts_with("\x1b[6;34H\x1b[1m\x1b[38;5;1mann\x1b[38;5;6m@\x1b[38;5;1mbox"));
    assert!(s.ends_with("\x1b[38;5;7m\u{2588}\u{2588}\u{2588}\x1b[16;1H"));
}
