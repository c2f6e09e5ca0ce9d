//! The art block: its size, and the ratio it forms with the terminal.

use vstd::prelude::*;
use crate::layout::{compute_ratio, ratio_of, ArtSize, LayoutError, ScreenSize};
use crate::panel::RenderConfig;

verus! {

/// Length of the longest of `lines`, in characters.
pub open spec fn widest(lines: Seq<&str>) -> nat
    decreases lines.len(),
{
    if lines.len() == 0 {
        0
    } else {
        let rest = widest(lines.drop_last());
        let l = lines.last()@.len();
        if l > rest {
            l
        } else {
            rest
        }
    }
}

/// Size of a glyph picture: its widest line by its number of lines.
pub open spec fn glyph_size(lines: Seq<&str>) -> ArtSize {
    ArtSize { width: widest(lines) as u32, height: lines.len() as u32 }
}

/// The size of the built-in glyph picture, in character cells.
pub open spec fn glyph_art_size() -> ArtSize {
    ArtSize { width: 30, height: 14 }
}

/// The lines of the built-in glyph picture, top to bottom.
pub open spec fn glyph_lines() -> Seq<Seq<char>> {
    seq![
        "⣿⣿⣿⣿⣯⣿⣿⠄⢠⣿⣿⣿⣿⣿⣿⣿⣿⣿⣿⣿⡟⠈⣿⣿⣿⣿⣿⣿⣆⠄"@,
        "⢻⣿⣿⣿⣾⣿⢿⣢⣞⣿⣿⣿⣿⣷⣶⣿⣯⣟⣿⢿⡇⢃⢻⣿⣿⣿⣿⣿⢿⡄"@,
        "⠄⢿⣿⣯⣏⣿⣿⣿⡟⣿⣿⣿⣿⣿⣿⣿⣿⣿⣿⣷⣧⣾⢿⣮⣿⣿⣿⣿⣾⣷"@,
        "⠄⣈⣽⢾⣿⣿⣿⣟⣄⣿⣿⣿⣿⣿⣿⣿⣿⣿⣿⣿⣿⣿⣷⣝⣯⢿⣿⣿⣿⣿"@,
        "⣿⠟⣫⢸⣿⢿⣿⣾⣿⢿⣿⣿⢻⣿⣿⣿⢿⣿⣿⣿⢸⣿⣼⣿⣿⣿⣿⣿⣿⣿"@,
        "⡟⢸⣟⢸⣿⠸⣷⣝⢻⠘⣿⣿⢸⢿⣿⣿⠄⣿⣿⣿⡆⢿⣿⣼⣿⣿⣿⣿⢹⣿"@,
        "⡇⣿⡿⣿⣿⢟⠛⠛⠿⡢⢻⣿⣾⣞⣿⡏⠖⢸⣿⢣⣷⡸⣇⣿⣿⣿⢼⡿⣿⣿"@,
        "⣡⢿⡷⣿⣿⣾⣿⣷⣶⣮⣄⣿⣏⣸⣻⣃⠭⠄⠛⠙⠛⠳⠋⣿⣿⣇⠙⣿⢸⣿"@,
        "⠫⣿⣧⣿⣿⣿⣿⣿⣿⣿⣿⣿⠻⣿⣾⣿⣿⣿⣿⣿⣿⣿⣷⣿⣿⣹⢷⣿⡼⠋"@,
        "⠄⠸⣿⣿⣿⣿⣿⣿⣿⣿⣿⣷⣦⣿⣿⣿⣿⣿⣿⣿⣿⣿⣿⣿⡟⣿⣿⣿⠄⠄"@,
        "⠄⠄⢻⢹⣿⠸⣿⣿⣿⣿⣿⣷⣿⣿⣿⣿⣿⣿⣿⣿⣿⡿⣼⣿⣿⣿⣿⡟⠄⠄"@,
        "⠄⠄⠈⢸⣿⠄⠙⢿⣿⣿⣹⣿⣿⣿⣿⣟⡃⣽⣿⣿⡟⠁⣿⣿⢻⣿⣿⢿⠄⠄"@,
        "⠄⠄⠄⠘⣿⡄⠄⠄⠙⢿⣿⣿⣾⣿⣷⣿⣿⣿⠟⠁⠄⠄⣿⣿⣾⣿⡟⣿⠄⠄"@,
        "⠄⠄⠄⠄⢻⡇⠸⣆⠄⠄⠈⠻⣿⡿⠿⠛⠉⠄⠄⠄⠄⢸⣿⣇⣿⣿⢿⣿⠄⠄"@,
    ]
}

/// The built-in glyph picture, one string per terminal row.
pub fn glyph_art() -> (v: Vec<&'static str>)
    ensures
        v@.len() == 14,
        forall|i: int| 0 <= i < 14 ==> (#[trigger] v@[i])@ == glyph_lines()[i],
        forall|i: int| 0 <= i < 14 ==> (#[trigger] v@[i])@.len() == 30,
{
    proof {
        reveal_strlit("⣿⣿⣿⣿⣯⣿⣿⠄⢠⣿⣿⣿⣿⣿⣿⣿⣿⣿⣿⣿⡟⠈⣿⣿⣿⣿⣿⣿⣆⠄");
        reveal_strlit("⢻⣿⣿⣿⣾⣿⢿⣢⣞⣿⣿⣿⣿⣷⣶⣿⣯⣟⣿⢿⡇⢃⢻⣿⣿⣿⣿⣿⢿⡄");
        reveal_strlit("⠄⢿⣿⣯⣏⣿⣿⣿⡟⣿⣿⣿⣿⣿⣿⣿⣿⣿⣿⣷⣧⣾⢿⣮⣿⣿⣿⣿⣾⣷");
        reveal_strlit("⠄⣈⣽⢾⣿⣿⣿⣟⣄⣿⣿⣿⣿⣿⣿⣿⣿⣿⣿⣿⣿⣿⣷⣝⣯⢿⣿⣿⣿⣿");
        reveal_strlit("⣿⠟⣫⢸⣿⢿⣿⣾⣿⢿⣿⣿⢻⣿⣿⣿⢿⣿⣿⣿⢸⣿⣼⣿⣿⣿⣿⣿⣿⣿");
        reveal_strlit("⡟⢸⣟⢸⣿⠸⣷⣝⢻⠘⣿⣿⢸⢿⣿⣿⠄⣿⣿⣿⡆⢿⣿⣼⣿⣿⣿⣿⢹⣿");
        reveal_strlit("⡇⣿⡿⣿⣿⢟⠛⠛⠿⡢⢻⣿⣾⣞⣿⡏⠖⢸⣿⢣⣷⡸⣇⣿⣿⣿⢼⡿⣿⣿");
        reveal_strlit("⣡⢿⡷⣿⣿⣾⣿⣷⣶⣮⣄⣿⣏⣸⣻⣃⠭⠄⠛⠙⠛⠳⠋⣿⣿⣇⠙⣿⢸⣿");
        reveal_strlit("⠫⣿⣧⣿⣿⣿⣿⣿⣿⣿⣿⣿⠻⣿⣾⣿⣿⣿⣿⣿⣿⣿⣷⣿⣿⣹⢷⣿⡼⠋");
        reveal_strlit("⠄⠸⣿⣿⣿⣿⣿⣿⣿⣿⣿⣷⣦⣿⣿⣿⣿⣿⣿⣿⣿⣿⣿⣿⡟⣿⣿⣿⠄⠄");
        reveal_strlit("⠄⠄⢻⢹⣿⠸⣿⣿⣿⣿⣿⣷⣿⣿⣿⣿⣿⣿⣿⣿⣿⡿⣼⣿⣿⣿⣿⡟⠄⠄");
        reveal_strlit("⠄⠄⠈⢸⣿⠄⠙⢿⣿⣿⣹⣿⣿⣿⣿⣟⡃⣽⣿⣿⡟⠁⣿⣿⢻⣿⣿⢿⠄⠄");
        reveal_strlit("⠄⠄⠄⠘⣿⡄⠄⠄⠙⢿⣿⣿⣾⣿⣷⣿⣿⣿⠟⠁⠄⠄⣿⣿⣾⣿⡟⣿⠄⠄");
        reveal_strlit("⠄⠄⠄⠄⢻⡇⠸⣆⠄⠄⠈⠻⣿⡿⠿⠛⠉⠄⠄⠄⠄⢸⣿⣇⣿⣿⢿⣿⠄⠄");
    }
    let mut v: Vec<&'static str> = Vec::new();
    v.push("⣿⣿⣿⣿⣯⣿⣿⠄⢠⣿⣿⣿⣿⣿⣿⣿⣿⣿⣿⣿⡟⠈⣿⣿⣿⣿⣿⣿⣆⠄");
    v.push("⢻⣿⣿⣿⣾⣿⢿⣢⣞⣿⣿⣿⣿⣷⣶⣿⣯⣟⣿⢿⡇⢃⢻⣿⣿⣿⣿⣿⢿⡄");
    v.push("⠄⢿⣿⣯⣏⣿⣿⣿⡟⣿⣿⣿⣿⣿⣿⣿⣿⣿⣿⣷⣧⣾⢿⣮⣿⣿⣿⣿⣾⣷");
    v.push("⠄⣈⣽⢾⣿⣿⣿⣟⣄⣿⣿⣿⣿⣿⣿⣿⣿⣿⣿⣿⣿⣿⣷⣝⣯⢿⣿⣿⣿⣿");
    v.push("⣿⠟⣫⢸⣿⢿⣿⣾⣿⢿⣿⣿⢻⣿⣿⣿⢿⣿⣿⣿⢸⣿⣼⣿⣿⣿⣿⣿⣿⣿");
    v.push("⡟⢸⣟⢸⣿⠸⣷⣝⢻⠘⣿⣿⢸⢿⣿⣿⠄⣿⣿⣿⡆⢿⣿⣼⣿⣿⣿⣿⢹⣿");
    v.push("⡇⣿⡿⣿⣿⢟⠛⠛⠿⡢⢻⣿⣾⣞⣿⡏⠖⢸⣿⢣⣷⡸⣇⣿⣿⣿⢼⡿⣿⣿");
    v.push("⣡⢿⡷⣿⣿⣾⣿⣷⣶⣮⣄⣿⣏⣸⣻⣃⠭⠄⠛⠙⠛⠳⠋⣿⣿⣇⠙⣿⢸⣿");
    v.push("⠫⣿⣧⣿⣿⣿⣿⣿⣿⣿⣿⣿⠻⣿⣾⣿⣿⣿⣿⣿⣿⣿⣷⣿⣿⣹⢷⣿⡼⠋");
    v.push("⠄⠸⣿⣿⣿⣿⣿⣿⣿⣿⣿⣷⣦⣿⣿⣿⣿⣿⣿⣿⣿⣿⣿⣿⡟⣿⣿⣿⠄⠄");
    v.push("⠄⠄⢻⢹⣿⠸⣿⣿⣿⣿⣿⣷⣿⣿⣿⣿⣿⣿⣿⣿⣿⡿⣼⣿⣿⣿⣿⡟⠄⠄");
    v.push("⠄⠄⠈⢸⣿⠄⠙⢿⣿⣿⣹⣿⣿⣿⣿⣟⡃⣽⣿⣿⡟⠁⣿⣿⢻⣿⣿⢿⠄⠄");
    v.push("⠄⠄⠄⠘⣿⡄⠄⠄⠙⢿⣿⣿⣾⣿⣷⣿⣿⣿⠟⠁⠄⠄⣿⣿⣾⣿⡟⣿⠄⠄");
    v.push("⠄⠄⠄⠄⢻⡇⠸⣆⠄⠄⠈⠻⣿⡿⠿⠛⠉⠄⠄⠄⠄⢸⣿⣇⣿⣿⢿⣿⠄⠄");
    v
}

/// Measures a glyph picture: the character count of its widest line, and
/// its number of lines.
pub fn art_size(lines: &Vec<&str>) -> (a: ArtSize)
    requires
        lines@.len() <= u32::MAX,
        forall|i: int| 0 <= i < lines@.len() ==> (#[trigger] lines@[i])@.len() <= u32::MAX,
    ensures
        a == glyph_size(lines@),
{
    let mut w: usize = 0;
    let mut i: usize = 0;
    while i < lines.len()
        invariant
            i <= lines@.len(),
            forall|k: int| 0 <= k < lines@.len() ==> (#[trigger] lines@[k])@.len() <= u32::MAX,
            w == widest(lines@.subrange(0, i as int)),
            w <= u32::MAX,
        decreases lines@.len() - i,
    {
        let l = lines[i].unicode_len();
        proof {
            let s = lines@.subrange(0, i as int + 1);
            assert(s.drop_last() =~= lines@.subrange(0, i as int));
        }
        if l > w {
            w = l;
        }
        i = i + 1;
    }
    assert(lines@.subrange(0, lines@.len() as int) =~= lines@);
    ArtSize { width: w as u32, height: lines.len() as u32 }
}

/// The largest size an image is resized to: half the terminal's pixel width,
/// and its pixel height divided by 1.2, as character cells are taller than
/// wide.
pub fn resize_bounds(term_px: ScreenSize) -> (a: ArtSize)
    ensures
        a.width == term_px.width / 2,
        a.height == term_px.height as int * 5 / 6,
{
    ArtSize { width: (term_px.width / 2) as u32, height: (term_px.height as u32) * 5 / 6 }
}

/// Glyph mode: forms the ratio of a terminal of `term` character cells to
/// the built-in picture and stores it in `config`.
///
/// Fails, leaving `config` unchanged, when the terminal has a zero side.
pub fn ascii(config: &mut RenderConfig, term: ScreenSize) -> (r: Result<(), LayoutError>)
    ensures
        r is Ok <==> term.width > 0 && term.height > 0,
        r is Err ==> r == Err::<(), LayoutError>(LayoutError::EmptyTerminal),
        r is Ok ==> final(config).ratio == ratio_of(glyph_art_size(), term),
        r is Err ==> final(config).ratio == old(config).ratio,
        final(config).data@ == old(config).data@,
        final(config).user == old(config).user,
        final(config).icons == old(config).icons,
{
    let art = glyph_art();
    let size = art_size(&art);
    proof {
        lemma_widest_uniform(art@, 30);
    }
    match compute_ratio(size, term) {
        Ok(ratio) => {
            config.set_ratio(&ratio);
            Ok(())
        },
        Err(e) => Err(e),
    }
}

/// Image mode: forms the ratio of a terminal of `term_px` pixels to an image
/// resized to `resized` pixels and stores it in `config`.
///
/// Fails, leaving `config` unchanged, when either size has a zero side.
pub fn image(config: &mut RenderConfig, term_px: ScreenSize, resized: ArtSize) -> (r: Result<
    (),
    LayoutError,
>)
    ensures
        r is Ok <==> compute_ratio_ok(resized, term_px),
        (resized.width == 0 || resized.height == 0) ==> r == Err::<(), LayoutError>(
            LayoutError::EmptyArt,
        ),
        (resized.width > 0 && resized.height > 0 && !compute_ratio_ok(resized, term_px)) ==> r
            == Err::<(), LayoutError>(LayoutError::EmptyTerminal),
        r is Ok ==> final(config).ratio == ratio_of(resized, term_px),
        r is Err ==> final(config).ratio == old(config).ratio,
        final(config).data@ == old(config).data@,
        final(config).user == old(config).user,
        final(config).icons == old(config).icons,
{
    match compute_ratio(resized, term_px) {
        Ok(ratio) => {
            config.set_ratio(&ratio);
            Ok(())
        },
        Err(e) => Err(e),
    }
}

/// Both sizes have no zero side, so a ratio exists.
pub open spec fn compute_ratio_ok(art: ArtSize, term: ScreenSize) -> bool {
    art.width > 0 && art.height > 0 && term.width > 0 && term.height > 0
}

proof fn lemma_widest_uniform(lines: Seq<&str>, n: nat)
    requires
        forall|i: int| 0 <= i < lines.len() ==> (#[trigger] lines[i])@.len() == n,
        lines.len() > 0,
    ensures
        widest(lines) == n,
    decreases lines.len(),
{
    if lines.len() > 1 {
        let rest = lines.drop_last();
        assert forall|i: int| 0 <= i < rest.len() implies (#[trigger] rest[i])@.len() == n by {
            assert(rest[i] == lines[i]);
        }
        lemma_widest_uniform(rest, n);
    } else {
        assert(widest(lines.drop_last()) == 0);
    }
    assert(lines.last()@.len() == n);
}

} // verus!
