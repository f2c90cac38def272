//! Screen geometry and the texts of the panes: areas, list scrolling,
//! scrollbars, durations, dates and word wrapping.
use vstd::prelude::*;
use crate::number::{uint_spec, law_two_digits_read_back};
use crate::text::{
    chars_of, string_of, decimal2, decimal2_chars, trim, trim_spec, lines, lines_spec, words,
    words_spec, byte_len, utf8_len, utf8_len_sat,
};

verus! {

/// A rectangle of terminal cells.
#[derive(PartialEq, Eq, Structural, Clone, Copy, Debug)]
pub struct Area {
    pub x: u16,
    pub y: u16,
    pub width: u16,
    pub height: u16,
}

/// Whether the cell `(x, y)` lies in a non-empty area.
pub open spec fn contains_spec(r: Area, x: u16, y: u16) -> bool {
    &&& r.width > 0
    &&& r.height > 0
    &&& r.x <= x < r.x + r.width
    &&& r.y <= y < r.y + r.height
}

/// Whether the cell `(x, y)` lies in the area.
pub fn rect_contains(rect: Area, x: u16, y: u16) -> (r: bool)
    ensures
        r == contains_spec(rect, x, y),
{
    rect.width > 0 && rect.height > 0 && x >= rect.x && (x as u32) < rect.x as u32 + rect.width as u32
        && y >= rect.y && (y as u32) < rect.y as u32 + rect.height as u32
}

/// `a + b`, capped at the largest `u16`.
pub open spec fn sat_add16(a: u16, b: u16) -> u16 {
    if a + b > u16::MAX {
        u16::MAX
    } else {
        (a + b) as u16
    }
}

/// `a - b`, floored at zero.
pub open spec fn sat_sub16(a: u16, b: u16) -> u16 {
    if a < b {
        0
    } else {
        (a - b) as u16
    }
}

/// The inside of an area framed by a border on all four sides.
pub open spec fn inner_spec(r: Area) -> Area {
    Area {
        x: if sat_add16(r.x, 1) < sat_add16(r.x, r.width) { sat_add16(r.x, 1) } else { sat_add16(r.x, r.width) },
        y: if sat_add16(r.y, 1) < sat_add16(r.y, r.height) { sat_add16(r.y, 1) } else { sat_add16(r.y, r.height) },
        width: sat_sub16(r.width, 2),
        height: sat_sub16(r.height, 2),
    }
}

/// `ratatui`'s `Block::inner` for a block with all borders, no title and no
/// padding (`Block::bordered()`): one cell off each side, the position capped
/// at the area's far edge and the sizes floored at zero.
#[verifier::external_body]
fn block_inner(outer: Area) -> (r: Area)
    ensures
        r == inner_spec(outer),
{
    let rect = ratatui::layout::Rect { x: outer.x, y: outer.y, width: outer.width, height: outer.height };
    let inner = ratatui::widgets::Block::bordered().inner(rect);
    Area { x: inner.x, y: inner.y, width: inner.width, height: inner.height }
}

/// Share of the now-playing pane's width, in percent, kept for album art.
pub const ART_PERCENT: u16 = 30;

/// Where album art goes in the now-playing pane: the left part of the
/// inside of its frame, `ART_PERCENT` of the inside width (at least one cell,
/// at most the inside width), the whole inside height.
pub open spec fn art_area_spec(outer: Area) -> Area {
    let inner = inner_spec(outer);
    let w = inner.width * ART_PERCENT / 100;
    let w1 = if w < 1 { 1 } else { w };
    Area {
        x: inner.x,
        y: inner.y,
        width: if w1 < inner.width { w1 as u16 } else { inner.width },
        height: inner.height,
    }
}

/// Where album art goes in the now-playing pane.
pub fn art_area(outer: Area) -> (r: Area)
    requires
        inner_spec(outer).width * ART_PERCENT <= u16::MAX,
    ensures
        r == art_area_spec(outer),
{
    let inner = block_inner(outer);
    let w = inner.width * ART_PERCENT / 100;
    let w1 = if w < 1 { 1 } else { w };
    Area { x: inner.x, y: inner.y, width: if w1 < inner.width { w1 } else { inner.width }, height: inner.height }
}

// ---------------------------------------------------------------------------
// Durations and dates
// ---------------------------------------------------------------------------

/// `mm:ss` for a number of whole seconds, each part zero-padded to two
/// digits (the minutes may run longer).
pub open spec fn duration_text(secs: nat) -> Seq<char> {
    decimal2(secs / 60) + seq![':'] + decimal2(secs % 60)
}

/// Formats whole seconds as `mm:ss`.
pub fn format_duration(seconds: u64) -> (r: String)
    ensures
        r@ == duration_text(seconds as nat),
{
    let mut v = decimal2_chars(seconds / 60);
    v.push(':');
    let s = decimal2_chars(seconds % 60);
    v.extend_from_slice(s.as_slice());
    string_of(v.as_slice())
}

/// A release date as shown: the first three whitespace-separated parts
/// joined by single spaces (`16 Jan 2026 00:00:00 GMT` reads `16 Jan 2026`),
/// or the text as it is when it has fewer parts.
pub open spec fn release_date_text(date: Seq<char>) -> Seq<char> {
    let parts = words_spec(date);
    if parts.len() >= 3 {
        parts[0] + seq![' '] + parts[1] + seq![' '] + parts[2]
    } else {
        date
    }
}

/// Shortens a Bandcamp release date to its readable part.
pub fn format_release_date(date: &str) -> (r: String)
    ensures
        r@ == release_date_text(date@),
{
    let d = chars_of(date);
    let parts = words(d.as_slice());
    if parts.len() >= 3 {
        let mut v: Vec<char> = Vec::new();
        v.extend_from_slice(parts[0].as_slice());
        v.push(' ');
        v.extend_from_slice(parts[1].as_slice());
        v.push(' ');
        v.extend_from_slice(parts[2].as_slice());
        assert(v@ =~= parts@[0]@ + seq![' '] + parts@[1]@ + seq![' '] + parts@[2]@);
        string_of(v.as_slice())
    } else {
        string_of(d.as_slice())
    }
}

// ---------------------------------------------------------------------------
// Lists in framed panes
// ---------------------------------------------------------------------------

/// Rows of a list that a framed pane of `height` shows.
pub open spec fn visible_rows(height: u16) -> nat {
    if height < 2 {
        0
    } else {
        (height - 2) as nat
    }
}

/// Rows that a page move covers: the visible rows, at least one (a pane
/// lower than three cells counts as one row).
pub open spec fn page_size_spec(height: u16) -> nat {
    if height < 3 {
        1
    } else {
        (height - 2) as nat
    }
}

/// The page size of a pane.
pub fn page_size(height: u16) -> (r: usize)
    ensures
        r == page_size_spec(height),
        r >= 1,
{
    if height < 3 {
        1
    } else {
        (height - 2) as usize
    }
}

/// Half a page, at least one row.
pub open spec fn half_page_spec(height: u16) -> nat {
    if page_size_spec(height) / 2 < 1 {
        1
    } else {
        page_size_spec(height) / 2
    }
}

/// Half the page size of a pane, at least one.
pub fn half_page(height: u16) -> (r: usize)
    ensures
        r == half_page_spec(height),
        r >= 1,
{
    let h = page_size(height) / 2;
    if h < 1 {
        1
    } else {
        h
    }
}

/// The selection after moving it by `delta` rows in a list of `len` items:
/// from the current row (the first when none), down at most to the last
/// row, up at most to the first; unchanged in an empty list.
pub open spec fn moved_selection(current: Option<usize>, len: nat, delta: int) -> Option<usize> {
    if len == 0 {
        current
    } else {
        let cur: int = match current {
            Some(c) => c as int,
            None => 0,
        };
        if delta > 0 {
            let n = cur + delta;
            Some((if n < len - 1 { n } else { len - 1 }) as usize)
        } else {
            let n = cur + delta;
            Some((if n < 0 { 0 } else { n }) as usize)
        }
    }
}

/// Moves a selection by `delta` rows.
pub fn move_selection_index(current: Option<usize>, len: usize, delta: i64) -> (r: Option<usize>)
    requires
        delta > i64::MIN,
    ensures
        r == moved_selection(current, len as nat, delta as int),
{
    if len == 0 {
        return current;
    }
    let cur: usize = match current {
        Some(c) => c,
        None => 0,
    };
    if delta > 0 {
        let d = delta as u64;
        let room = (len - 1) as u64;
        if (cur as u64) >= room || d >= room - cur as u64 {
            Some(len - 1)
        } else {
            Some(cur + d as usize)
        }
    } else {
        let d = (-delta) as u64;
        if d >= cur as u64 {
            Some(0)
        } else {
            Some(cur - d as usize)
        }
    }
}

/// The scroll offset that keeps the selected row in view: the offset, capped
/// so that the list fills the pane, then moved just enough to show the
/// selection. Unchanged for a pane lower than three cells or an empty list.
pub open spec fn visible_offset(selected: Option<usize>, offset: usize, len: nat, height: u16) -> usize {
    if height < 3 || len == 0 {
        offset
    } else {
        let visible = (height - 2) as nat;
        let max_off: nat = if len > visible { (len - visible) as nat } else { 0 };
        let off: nat = if offset < max_off { offset as nat } else { max_off };
        match selected {
            Some(sel) => if sel < off {
                sel
            } else if sel >= off + visible {
                (sel + 1 - visible) as usize
            } else {
                off as usize
            },
            None => off as usize,
        }
    }
}

/// Computes `visible_offset`.
pub fn ensure_visible_offset(selected: Option<usize>, offset: usize, len: usize, height: u16) -> (r: usize)
    ensures
        r == visible_offset(selected, offset, len as nat, height),
{
    if height < 3 || len == 0 {
        return offset;
    }
    let visible = (height - 2) as usize;
    let max_off = if len > visible { len - visible } else { 0 };
    let off = if offset < max_off { offset } else { max_off };
    match selected {
        Some(sel) => if sel < off {
            sel
        } else if sel - off >= visible {
            sel - (visible - 1)
        } else {
            off
        },
        None => off,
    }
}

/// The offset after scrolling a pane by `delta` rows: kept between zero and
/// the offset at which the list's end fills the pane; unchanged for an empty
/// list or a pane lower than three cells.
pub open spec fn scrolled_offset(len: nat, height: u16, offset: usize, delta: int) -> usize {
    if len == 0 || height < 3 {
        offset
    } else {
        let visible = (height - 2) as nat;
        let max_off: int = if len > visible { len - visible } else { 0 };
        let n = offset + delta;
        (if n < 0 { 0 } else if n > max_off { max_off } else { n }) as usize
    }
}

/// Scrolls a pane's offset.
pub fn scroll_offset(len: usize, height: u16, offset: usize, delta: i64) -> (r: usize)
    ensures
        r == scrolled_offset(len as nat, height, offset, delta as int),
{
    if len == 0 || height < 3 {
        return offset;
    }
    let visible = (height - 2) as usize;
    let max_off = if len > visible { len - visible } else { 0 };
    if delta >= 0 {
        let d = delta as u64;
        if (offset as u64) >= max_off as u64 || d >= (max_off - offset) as u64 {
            max_off
        } else {
            offset + d as usize
        }
    } else {
        let d = (-(delta as i128)) as u64;
        if d >= offset as u64 {
            0
        } else {
            let n = offset - d as usize;
            if n > max_off {
                max_off
            } else {
                n
            }
        }
    }
}

/// The list row under a click at `(x, y)`: inside the pane's frame, the
/// visible row plus the offset, when that is an item.
pub open spec fn row_at_spec(rect: Area, x: u16, y: u16, offset: usize, len: nat) -> Option<usize> {
    if y > rect.y && y + 1 < rect.y + rect.height && x > rect.x && x + 1 < rect.x + rect.width {
        let idx = offset + (y - rect.y - 1);
        if idx < len {
            Some(idx as usize)
        } else {
            None
        }
    } else {
        None
    }
}

/// The list row under a click.
pub fn row_at(rect: Area, x: u16, y: u16, offset: usize, len: usize) -> (r: Option<usize>)
    ensures
        r == row_at_spec(rect, x, y, offset, len as nat),
{
    if y > rect.y && (y as u32) + 1 < rect.y as u32 + rect.height as u32 && x > rect.x && (x as u32) + 1
        < rect.x as u32 + rect.width as u32 {
        let row = (y - rect.y - 1) as usize;
        if offset < len && row < len - offset {
            Some(offset + row)
        } else {
            None
        }
    } else {
        None
    }
}

/// The vertical scrollbar of a list in a track of `track_h` cells: the
/// thumb's first cell and its height. None when the whole list is visible
/// (or there is no track); the thumb is the visible share of the track, at
/// least one cell, and its position is the scroll share of the free track,
/// rounded to the nearest cell.
pub open spec fn scrollbar_spec(track_h: nat, total: nat, visible: nat, offset: nat) -> Option<(nat, nat)> {
    if track_h == 0 || visible == 0 || total <= visible {
        None
    } else {
        let t0 = visible * track_h / total;
        let t1 = if t0 < 1 { 1 } else { t0 };
        let thumb_h: nat = if t1 < track_h { t1 } else { track_h };
        let max_scroll: nat = (total - visible) as nat;
        let max_thumb_off: nat = (track_h - thumb_h) as nat;
        let thumb_y: nat = (offset * max_thumb_off + max_scroll / 2) / max_scroll;
        Some((thumb_y, thumb_h))
    }
}

/// The screen row where a framed list paints its selection: the row of the
/// selected item when it is among the rows shown, in a list at least three
/// rows high and four cells wide. The list itself keeps its scroll offset
/// whatever the selection, so a selection scrolled out of view shows no row.
pub open spec fn highlight_row_spec(area: Area, selected: Option<usize>, offset: usize) -> Option<u16> {
    if area.height < 3 || area.width < 4 {
        None
    } else {
        match selected {
            None => None,
            Some(sel) => if sel < offset || sel >= offset + (area.height - 2) {
                None
            } else {
                Some((area.y + 1 + (sel - offset)) as u16)
            },
        }
    }
}

/// The row where a framed list paints its selection, if it shows it.
pub fn highlight_row(area: Area, selected: Option<usize>, offset: usize) -> (r: Option<u16>)
    requires
        area.y + area.height <= u16::MAX,
    ensures
        r == highlight_row_spec(area, selected, offset),
{
    if area.height < 3 || area.width < 4 {
        return None;
    }
    let sel = match selected {
        Some(s) => s,
        None => return None,
    };
    let visible = (area.height - 2) as usize;
    if sel < offset || sel - offset >= visible {
        return None;
    }
    let d = (sel - offset) as u16;
    Some(area.y + 1 + d)
}

/// A click on the row where a list paints its selection selects that same
/// item again.
pub proof fn law_highlighted_row_clicks_back(area: Area, sel: usize, offset: usize, len: nat, x: u16)
    requires
        area.y + area.height <= u16::MAX,
        highlight_row_spec(area, Some(sel), offset) is Some,
        sel < len,
        x > area.x,
        x + 1 < area.x + area.width,
    ensures
        row_at_spec(area, x, highlight_row_spec(area, Some(sel), offset).unwrap(), offset, len) == Some(sel),
{
}

/// The products and sums that placing the thumb computes stay within a
/// `usize`.
pub open spec fn scrollbar_in_range(track_h: nat, total: nat, visible: nat, offset: nat) -> bool {
    let t0 = visible * track_h / total;
    let t1 = if t0 < 1 { 1 } else { t0 };
    let thumb_h: nat = if t1 < track_h { t1 } else { track_h };
    &&& visible * track_h <= usize::MAX
    &&& offset * ((track_h - thumb_h) as nat) + ((total - visible) as nat) / 2 <= usize::MAX
}

/// The thumb of a vertical scrollbar.
pub fn scrollbar_thumb(track_h: u16, total: usize, visible: usize, offset: usize) -> (r: Option<(usize, usize)>)
    requires
        track_h == 0 || visible == 0 || total <= visible || scrollbar_in_range(
            track_h as nat,
            total as nat,
            visible as nat,
            offset as nat,
        ),
    ensures
        match r {
            Some((y, h)) => scrollbar_spec(track_h as nat, total as nat, visible as nat, offset as nat)
                == Some((y as nat, h as nat)),
            None => scrollbar_spec(track_h as nat, total as nat, visible as nat, offset as nat) is None,
        },
{
    if track_h == 0 || visible == 0 || total <= visible {
        return None;
    }
    let th = track_h as usize;
    let t0 = visible * th / total;
    let t1 = if t0 < 1 { 1 } else { t0 };
    let thumb_h = if t1 < th { t1 } else { th };
    let max_scroll = total - visible;
    let max_thumb_off = th - thumb_h;
    let thumb_y = (offset * max_thumb_off + max_scroll / 2) / max_scroll;
    Some((thumb_y, thumb_h))
}

// ---------------------------------------------------------------------------
// Word wrapping
// ---------------------------------------------------------------------------

/// Wrapping the words of a paragraph: the finished lines and the line being
/// filled. A word joins the line, after one space, while the line's length in
/// bytes stays within `max`; else it starts the next line.
pub open spec fn wrap_fold(ws: Seq<Seq<char>>, max: nat) -> (Seq<Seq<char>>, Seq<char>)
    decreases ws.len(),
{
    if ws.len() == 0 {
        (seq![], seq![])
    } else {
        let (done, cur) = wrap_fold(ws.drop_last(), max);
        let w = ws.last();
        if cur.len() == 0 {
            (done, w)
        } else if utf8_len(cur) + 1 + utf8_len(w) <= max {
            (done, cur + seq![' '] + w)
        } else {
            (done.push(cur), w)
        }
    }
}

/// The lines of one wrapped paragraph; a blank paragraph is one empty line.
pub open spec fn wrap_paragraph(p: Seq<char>, max: nat) -> Seq<Seq<char>> {
    if trim_spec(p).len() == 0 {
        seq![seq![]]
    } else {
        let (done, cur) = wrap_fold(words_spec(p), max);
        if cur.len() > 0 {
            done.push(cur)
        } else {
            done
        }
    }
}

/// The wrapped lines of a list of paragraphs.
pub open spec fn wrap_all(ps: Seq<Seq<char>>, max: nat) -> Seq<Seq<char>>
    decreases ps.len(),
{
    if ps.len() == 0 {
        seq![]
    } else {
        wrap_all(ps.drop_last(), max) + wrap_paragraph(ps.last(), max)
    }
}

/// A text wrapped to lines of at most `max` bytes (a longer word stands
/// alone on its line); nothing for a width of zero.
pub open spec fn word_wrap_spec(text: Seq<char>, max: nat) -> Seq<Seq<char>> {
    if max == 0 {
        seq![]
    } else {
        wrap_all(lines_spec(text), max)
    }
}

/// Whether a word still fits on the line.
fn fits(cur: &[char], w: &[char], max: usize) -> (r: bool)
    ensures
        r == (utf8_len(cur@) + 1 + utf8_len(w@) <= max),
{
    let a = byte_len(cur);
    let b = byte_len(w);
    (a as u128) + 1 + (b as u128) <= max as u128
}

/// Wraps one paragraph.
fn wrap_paragraph_exec(p: &[char], max: usize) -> (r: Vec<Vec<char>>)
    ensures
        r@.len() == wrap_paragraph(p@, max as nat).len(),
        forall|k: int| 0 <= k < r@.len() ==> #[trigger] r@[k]@ == wrap_paragraph(p@, max as nat)[k],
{
    let t = trim(p);
    if t.len() == 0 {
        let mut r: Vec<Vec<char>> = Vec::new();
        r.push(Vec::new());
        return r;
    }
    let ws = words(p);
    let ghost wv = words_spec(p@);
    let mut done: Vec<Vec<char>> = Vec::new();
    let mut cur: Vec<char> = Vec::new();
    let mut i: usize = 0;
    assert(wv.take(0) =~= seq![]);
    while i < ws.len()
        invariant
            i <= ws@.len(),
            ws@.len() == wv.len(),
            wv == words_spec(p@),
            forall|k: int| 0 <= k < ws@.len() ==> #[trigger] ws@[k]@ == wv[k],
            done@.len() == wrap_fold(wv.take(i as int), max as nat).0.len(),
            forall|k: int| 0 <= k < done@.len() ==> #[trigger] done@[k]@ == wrap_fold(wv.take(i as int), max as nat).0[k],
            cur@ == wrap_fold(wv.take(i as int), max as nat).1,
        decreases ws@.len() - i,
    {
        assert(wv.take(i + 1).drop_last() =~= wv.take(i as int));
        assert(wv.take(i + 1).last() == ws@[i as int]@);
        let w = &ws[i];
        if cur.len() == 0 {
            cur = w.clone();
        } else if fits(cur.as_slice(), w.as_slice(), max) {
            cur.push(' ');
            cur.extend_from_slice(w.as_slice());
        } else {
            done.push(cur);
            cur = w.clone();
        }
        i += 1;
    }
    assert(wv.take(i as int) =~= wv);
    if cur.len() > 0 {
        done.push(cur);
    }
    done
}

/// Wraps a text to lines of at most `max_width` bytes.
pub fn word_wrap(text: &str, max_width: usize) -> (r: Vec<String>)
    ensures
        r@.len() == word_wrap_spec(text@, max_width as nat).len(),
        forall|k: int| 0 <= k < r@.len() ==> #[trigger] r@[k]@ == word_wrap_spec(text@, max_width as nat)[k],
{
    let mut out: Vec<String> = Vec::new();
    if max_width == 0 {
        return out;
    }
    let t = chars_of(text);
    let ps = lines(t.as_slice());
    let ghost pv = lines_spec(text@);
    let mut i: usize = 0;
    assert(pv.take(0) =~= seq![]);
    while i < ps.len()
        invariant
            max_width > 0,
            i <= ps@.len(),
            ps@.len() == pv.len(),
            pv == lines_spec(text@),
            forall|k: int| 0 <= k < ps@.len() ==> #[trigger] ps@[k]@ == pv[k],
            out@.len() == wrap_all(pv.take(i as int), max_width as nat).len(),
            forall|k: int| 0 <= k < out@.len() ==> #[trigger] out@[k]@ == wrap_all(pv.take(i as int), max_width as nat)[k],
        decreases ps@.len() - i,
    {
        assert(pv.take(i + 1).drop_last() =~= pv.take(i as int));
        assert(pv.take(i + 1).last() == ps@[i as int]@);
        let lines_of = wrap_paragraph_exec(ps[i].as_slice(), max_width);
        let ghost before = out@;
        let ghost whole = wrap_all(pv.take(i + 1), max_width as nat);
        let mut j: usize = 0;
        while j < lines_of.len()
            invariant
                j <= lines_of@.len(),
                out@.len() == before.len() + j,
                forall|k: int| 0 <= k < before.len() ==> #[trigger] out@[k] == before[k],
                forall|k: int| 0 <= k < j ==> #[trigger] out@[before.len() + k]@ == lines_of@[k]@,
            decreases lines_of@.len() - j,
        {
            out.push(string_of(lines_of[j].as_slice()));
            j += 1;
        }
        proof {
            assert forall|k: int| 0 <= k < out@.len() implies #[trigger] out@[k]@ == whole[k] by {
                if k < before.len() {
                    assert(out@[k] == before[k]);
                } else {
                    assert(out@[before.len() + (k - before.len())]@ == lines_of@[k - before.len()]@);
                }
            }
        }
        i += 1;
    }
    assert(pv.take(i as int) =~= pv);
    out
}

// ---------------------------------------------------------------------------
// The now-playing pane
// ---------------------------------------------------------------------------

/// `[elapsed/duration]`, both as `mm:ss`.
pub open spec fn time_label_spec(elapsed_secs: nat, duration_secs: nat) -> Seq<char> {
    seq!['['] + duration_text(elapsed_secs) + seq!['/'] + duration_text(duration_secs) + seq![']']
}

/// The time label of the playing track.
pub fn time_label(elapsed_secs: u64, duration_secs: u64) -> (r: String)
    ensures
        r@ == time_label_spec(elapsed_secs as nat, duration_secs as nat),
{
    let mut v: Vec<char> = Vec::new();
    v.push('[');
    let e = format_duration(elapsed_secs);
    let ec = chars_of(e.as_str());
    v.extend_from_slice(ec.as_slice());
    v.push('/');
    let d = format_duration(duration_secs);
    let dc = chars_of(d.as_str());
    v.extend_from_slice(dc.as_slice());
    v.push(']');
    assert(v@ =~= time_label_spec(elapsed_secs as nat, duration_secs as nat));
    string_of(v.as_slice())
}

/// The first metadata line shown at a scroll position: the position, capped
/// so that the last lines fill the visible rows.
pub open spec fn meta_offset_spec(total: nat, visible: nat, scroll: nat) -> nat {
    let max_scroll: nat = if total > visible { (total - visible) as nat } else { 0 };
    if scroll < max_scroll {
        scroll
    } else {
        max_scroll
    }
}

/// The first metadata line shown.
pub fn meta_offset(total: usize, visible: usize, scroll: usize) -> (r: usize)
    ensures
        r == meta_offset_spec(total as nat, visible as nat, scroll as nat),
{
    let max_scroll = if total > visible { total - visible } else { 0 };
    if scroll < max_scroll {
        scroll
    } else {
        max_scroll
    }
}

/// The metadata lines of the playing album: its title, the release date when
/// known, an empty line, the wrapped `about` text, and when there are
/// credits an empty line and the wrapped credits.
pub open spec fn meta_lines_spec(
    title: Seq<char>,
    release_date: Option<Seq<char>>,
    about: Option<Seq<char>>,
    credits: Option<Seq<char>>,
    max: nat,
) -> Seq<Seq<char>> {
    let head = seq![title] + match release_date {
        Some(d) => seq!["released "@ + release_date_text(d)],
        None => seq![],
    } + seq![seq![]];
    let body = match about {
        Some(a) => word_wrap_spec(a, max),
        None => seq![],
    };
    let tail = match credits {
        Some(c) => seq![seq![]] + word_wrap_spec(c, max),
        None => seq![],
    };
    head + body + tail
}

/// Appends strings to a list of lines.
fn append_lines(out: &mut Vec<String>, more: Vec<String>)
    ensures
        final(out)@.len() == old(out)@.len() + more@.len(),
        forall|k: int| 0 <= k < old(out)@.len() ==> #[trigger] final(out)@[k] == old(out)@[k],
        forall|k: int| 0 <= k < more@.len() ==> #[trigger] final(out)@[old(out)@.len() + k] == more@[k],
{
    let mut j: usize = 0;
    let ghost before = out@;
    while j < more.len()
        invariant
            j <= more@.len(),
            out@.len() == before.len() + j,
            before == old(out)@,
            forall|k: int| 0 <= k < before.len() ==> #[trigger] out@[k] == before[k],
            forall|k: int| 0 <= k < j ==> #[trigger] out@[before.len() + k] == more@[k],
        decreases more@.len() - j,
    {
        let s = more[j].clone();
        out.push(s);
        j += 1;
    }
}

/// Builds the metadata lines of the playing album.
pub fn meta_lines(
    title: &str,
    release_date: Option<&str>,
    about: Option<&str>,
    credits: Option<&str>,
    max_width: usize,
) -> (r: Vec<String>)
    ensures
        r@.len() == meta_lines_spec(
            title@,
            match release_date { Some(d) => Some(d@), None => None },
            match about { Some(a) => Some(a@), None => None },
            match credits { Some(c) => Some(c@), None => None },
            max_width as nat,
        ).len(),
        forall|k: int| 0 <= k < r@.len() ==> #[trigger] r@[k]@ == meta_lines_spec(
            title@,
            match release_date { Some(d) => Some(d@), None => None },
            match about { Some(a) => Some(a@), None => None },
            match credits { Some(c) => Some(c@), None => None },
            max_width as nat,
        )[k],
{
    let ghost rd = match release_date { Some(d) => Some(d@), None => None };
    let ghost ab = match about { Some(a) => Some(a@), None => None };
    let ghost cr = match credits { Some(c) => Some(c@), None => None };
    let ghost want = meta_lines_spec(title@, rd, ab, cr, max_width as nat);
    let mut out: Vec<String> = Vec::new();
    out.push(title.to_owned());
    let ghost mut head: Seq<Seq<char>> = seq![title@];
    if let Some(d) = release_date {
        let mut v = chars_of("released ");
        let f = format_release_date(d);
        let fc = chars_of(f.as_str());
        v.extend_from_slice(fc.as_slice());
        out.push(string_of(v.as_slice()));
        proof {
            head = head.push("released "@ + release_date_text(d@));
        }
    }
    out.push(String::new());
    proof {
        head = head.push(seq![]);
        assert(out@.len() == head.len());
        assert forall|k: int| 0 <= k < out@.len() implies #[trigger] out@[k]@ == head[k] by {}
    }
    let ghost mut body: Seq<Seq<char>> = seq![];
    if let Some(a) = about {
        let w = word_wrap(a, max_width);
        proof {
            body = word_wrap_spec(a@, max_width as nat);
        }
        append_lines(&mut out, w);
    }
    proof {
        assert(out@.len() == head.len() + body.len());
        assert forall|k: int| 0 <= k < out@.len() implies #[trigger] out@[k]@ == (head + body)[k] by {
            if k >= head.len() {
                assert(out@[head.len() + (k - head.len())]@ == body[k - head.len()]);
            }
        }
    }
    let ghost mut tail: Seq<Seq<char>> = seq![];
    if let Some(c) = credits {
        out.push(String::new());
        let w = word_wrap(c, max_width);
        proof {
            tail = seq![seq![]] + word_wrap_spec(c@, max_width as nat);
        }
        let ghost mid = out@;
        append_lines(&mut out, w);
        proof {
            assert forall|k: int| 0 <= k < out@.len() implies #[trigger] out@[k]@ == (head + body + tail)[k] by {
                let n = head.len() + body.len();
                if k > n {
                    assert(out@[mid.len() + (k - mid.len())]@ == word_wrap_spec(c@, max_width as nat)[k - n - 1]);
                }
            }
        }
    }
    assert(want =~= head + body + tail);
    out
}

/// A moved selection in a non-empty list is a row of the list.
pub proof fn law_moved_selection_in_list(current: Option<usize>, len: nat, delta: int)
    requires
        len > 0,
        len <= usize::MAX,
        current matches Some(c) ==> c < len,
    ensures
        moved_selection(current, len, delta) matches Some(r) && r < len,
{
}

/// After scrolling to the selection, the selected row is on screen: it
/// lies between the offset and the offset plus the visible rows.
pub proof fn law_selection_visible(selected: usize, offset: usize, len: nat, height: u16)
    requires
        height >= 3,
        selected < len,
        len <= usize::MAX,
    ensures
        visible_offset(Some(selected), offset, len, height) <= selected
            < visible_offset(Some(selected), offset, len, height) + visible_rows(height),
{
}

/// The scrollbar's thumb lies inside its track when the offset is at most
/// the largest scroll.
pub proof fn law_thumb_inside_track(track_h: nat, total: nat, visible: nat, offset: nat)
    requires
        offset + visible <= total,
    ensures
        scrollbar_spec(track_h, total, visible, offset) matches Some((y, h)) ==> h >= 1 && y + h <= track_h,
{
    if let Some((y, h)) = scrollbar_spec(track_h, total, visible, offset) {
        let max_scroll: nat = (total - visible) as nat;
        let max_thumb_off: nat = (track_h - h) as nat;
        assert(offset * max_thumb_off <= max_scroll * max_thumb_off) by (nonlinear_arith)
            requires
                offset <= max_scroll,
        ;
        assert((offset * max_thumb_off + max_scroll / 2) / max_scroll <= max_thumb_off) by (nonlinear_arith)
            requires
                offset * max_thumb_off <= max_scroll * max_thumb_off,
                max_scroll > 0,
        ;
    }
}

/// A duration under a hundred minutes is shown as `mm:ss`: two digits of
/// whole minutes, a colon, two digits of the seconds left over.
pub proof fn law_duration_is_minutes_and_seconds(secs: nat)
    requires
        secs < 6000,
    ensures
        ({
            let t = duration_text(secs);
            &&& t.len() == 5
            &&& t[2] == ':'
            &&& uint_spec(t.take(2)) == Some(secs / 60)
            &&& uint_spec(t.skip(3)) == Some(secs % 60)
        }),
{
    law_two_digits_read_back(secs / 60);
    law_two_digits_read_back(secs % 60);
    let t = duration_text(secs);
    assert(t.take(2) =~= decimal2(secs / 60));
    assert(t.skip(3) =~= decimal2(secs % 60));
}

} // verus!

