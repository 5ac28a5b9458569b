//! The render projector: a pure map from session state and terminal
//! geometry to a description of what each screen region shows. Nothing
//! here touches a terminal, and nothing here mutates the session.

use vstd::prelude::*;
use crate::session::{MessageView, SessionState, StateView};
use crate::numfmt::{dec_rep, dec_string};
use crate::text::str_eq;

verus! {

/// A rectangle of terminal cells.
#[derive(Clone, Copy, PartialEq, Eq, Structural, Debug)]
pub struct Region {
    pub x: u16,
    pub y: u16,
    pub width: u16,
    pub height: u16,
}

/// The fixed sender-to-style table: known senders get distinct colors,
/// anyone else falls back to the default.
#[derive(Clone, Copy, PartialEq, Eq, Structural, Debug)]
pub enum SenderColor {
    Green,
    Red,
    Magenta,
    Yellow,
    Cyan,
}

/// The style the table assigns to a sender name.
pub open spec fn spec_style(sender: Seq<char>) -> SenderColor {
    if sender == "You"@ {
        SenderColor::Green
    } else if sender == "系统"@ {
        SenderColor::Red
    } else if sender == "Alice"@ {
        SenderColor::Magenta
    } else if sender == "Bob"@ {
        SenderColor::Yellow
    } else {
        SenderColor::Cyan
    }
}

/// Looks a sender up in the style table.
pub fn style_for(sender: &str) -> (r: SenderColor)
    ensures
        r == spec_style(sender@),
{
    if str_eq(sender, "You") {
        SenderColor::Green
    } else if str_eq(sender, "系统") {
        SenderColor::Red
    } else if str_eq(sender, "Alice") {
        SenderColor::Magenta
    } else if str_eq(sender, "Bob") {
        SenderColor::Yellow
    } else {
        SenderColor::Cyan
    }
}

/// One visible line of the message viewport.
#[derive(PartialEq, Eq, Debug)]
pub struct Row {
    pub timestamp: String,
    pub sender: String,
    pub color: SenderColor,
    pub content: String,
}

/// The mathematical shape of a `Row`.
pub struct RowView {
    pub timestamp: Seq<char>,
    pub sender: Seq<char>,
    pub color: SenderColor,
    pub content: Seq<char>,
}

impl View for Row {
    type V = RowView;

    open spec fn view(&self) -> RowView {
        RowView {
            timestamp: self.timestamp@,
            sender: self.sender@,
            color: self.color,
            content: self.content@,
        }
    }
}

/// What one frame of the client shows: four regions, their texts, the
/// visible rows newest-first, the cursor cell, and the three counters of
/// the status line.
#[derive(PartialEq, Eq, Debug)]
pub struct FrameDescription {
    pub title: Region,
    pub viewport: Region,
    pub input_box: Region,
    pub status: Region,
    pub title_text: String,
    pub viewport_title: String,
    pub input_title: String,
    pub input_text: String,
    pub status_text: String,
    pub rows: Vec<Row>,
    pub cursor_x: u16,
    pub cursor_y: u16,
    pub total_messages: usize,
    pub scroll_offset: usize,
    pub input_length: usize,
}

/// The mathematical shape of a `FrameDescription`.
pub struct FrameView {
    pub title: Region,
    pub viewport: Region,
    pub input_box: Region,
    pub status: Region,
    pub title_text: Seq<char>,
    pub viewport_title: Seq<char>,
    pub input_title: Seq<char>,
    pub input_text: Seq<char>,
    pub status_text: Seq<char>,
    pub rows: Seq<RowView>,
    pub cursor_x: u16,
    pub cursor_y: u16,
    pub total_messages: nat,
    pub scroll_offset: nat,
    pub input_length: nat,
}

/// The views of a sequence of rows.
pub open spec fn rows_view(rows: Seq<Row>) -> Seq<RowView> {
    rows.map_values(|r: Row| r@)
}

impl View for FrameDescription {
    type V = FrameView;

    open spec fn view(&self) -> FrameView {
        FrameView {
            title: self.title,
            viewport: self.viewport,
            input_box: self.input_box,
            status: self.status,
            title_text: self.title_text@,
            viewport_title: self.viewport_title@,
            input_title: self.input_title@,
            input_text: self.input_text@,
            status_text: self.status_text@,
            rows: rows_view(self.rows@),
            cursor_x: self.cursor_x,
            cursor_y: self.cursor_y,
            total_messages: self.total_messages as nat,
            scroll_offset: self.scroll_offset as nat,
            input_length: self.input_length as nat,
        }
    }
}

/// The four regions of a `w` by `h` screen: inside a one-cell margin, a
/// three-row title, the message viewport, a three-row input box and a
/// one-row status line, from top to bottom; when the screen is too small
/// the lower regions shrink first, the viewport before them.
pub open spec fn spec_regions(w: u16, h: u16) -> (Region, Region, Region, Region) {
    let ix: u16 = if w >= 2 {
        1
    } else {
        0
    };
    let iy: u16 = if h >= 2 {
        1
    } else {
        0
    };
    let iw: u16 = if w >= 2 {
        (w - 2) as u16
    } else {
        0
    };
    let ih: u16 = if h >= 2 {
        (h - 2) as u16
    } else {
        0
    };
    let t: u16 = if ih >= 3 {
        3
    } else {
        ih
    };
    let inp: u16 = if ih - t >= 3 {
        3
    } else {
        (ih - t) as u16
    };
    let st: u16 = if ih - t - inp >= 1 {
        1
    } else {
        (ih - t - inp) as u16
    };
    let vp: u16 = (ih - t - inp - st) as u16;
    (
        Region { x: ix, y: iy, width: iw, height: t },
        Region { x: ix, y: (iy + t) as u16, width: iw, height: vp },
        Region { x: ix, y: (iy + t + vp) as u16, width: iw, height: inp },
        Region { x: ix, y: (iy + t + vp + inp) as u16, width: iw, height: st },
    )
}

/// Splits the screen into the four regions.
pub fn compute_regions(w: u16, h: u16) -> (r: (Region, Region, Region, Region))
    ensures
        r == spec_regions(w, h),
{
    let ix: u16 = if w >= 2 {
        1
    } else {
        0
    };
    let iy: u16 = if h >= 2 {
        1
    } else {
        0
    };
    let iw: u16 = if w >= 2 {
        w - 2
    } else {
        0
    };
    let ih: u16 = if h >= 2 {
        h - 2
    } else {
        0
    };
    let t: u16 = if ih >= 3 {
        3
    } else {
        ih
    };
    let inp: u16 = if ih - t >= 3 {
        3
    } else {
        ih - t
    };
    let st: u16 = if ih - t - inp >= 1 {
        1
    } else {
        ih - t - inp
    };
    let vp: u16 = ih - t - inp - st;
    (
        Region { x: ix, y: iy, width: iw, height: t },
        Region { x: ix, y: iy + t, width: iw, height: vp },
        Region { x: ix, y: iy + t + vp, width: iw, height: inp },
        Region { x: ix, y: iy + t + vp + inp, width: iw, height: st },
    )
}

/// The row a log message projects to.
pub open spec fn row_of(m: MessageView) -> RowView {
    RowView { timestamp: m.timestamp, sender: m.sender, color: spec_style(m.sender), content: m.content }
}

/// The visible window of the log: the log reversed (newest first), the
/// first `scroll` entries skipped, and at most `visible` rows kept.
pub open spec fn spec_rows(log: Seq<MessageView>, scroll: nat, visible: nat) -> Seq<RowView> {
    let avail: nat = if scroll <= log.len() {
        (log.len() - scroll) as nat
    } else {
        0
    };
    let n: nat = if visible <= avail {
        visible
    } else {
        avail
    };
    Seq::new(n, |i: int| row_of(log[log.len() - 1 - scroll - i]))
}

/// A cell coordinate clamped to what a terminal can address.
pub open spec fn clamp_u16(n: int) -> u16 {
    if n > 65535 {
        65535
    } else {
        n as u16
    }
}

/// `len(log) - 1`, saturating at zero: the highest meaningful offset, shown
/// as the denominator of the scroll indicator.
pub open spec fn spec_indicator_max(len: nat) -> nat {
    if len > 0 {
        (len - 1) as nat
    } else {
        0
    }
}

/// The whole frame a state projects to on a `w` by `h` screen.
pub open spec fn spec_project(v: StateView, w: u16, h: u16) -> FrameView {
    let regions = spec_regions(w, h);
    let title = regions.0;
    let viewport = regions.1;
    let input_box = regions.2;
    let status = regions.3;
    let visible: nat = if viewport.height >= 2 {
        (viewport.height - 2) as nat
    } else {
        0
    };
    let cap: nat = spec_indicator_max(v.log.len());
    FrameView {
        title,
        viewport,
        input_box,
        status,
        title_text: "Rust TUI QQ - 聊天窗口"@,
        viewport_title: "消息 (按上下箭头滚动: "@ + dec_rep(v.scroll) + "/"@ + dec_rep(cap) + ")"@,
        input_title: "输入消息 (按Enter发送，q退出)"@,
        input_text: v.input,
        status_text: "总消息数: "@ + dec_rep(v.log.len()) + " | 滚动位置: "@ + dec_rep(v.scroll)
            + " | 输入长度: "@ + dec_rep(v.input.len()),
        rows: spec_rows(v.log, v.scroll, visible),
        cursor_x: clamp_u16(input_box.x + 1 + v.input.len()),
        cursor_y: clamp_u16(input_box.y + 1),
        total_messages: v.log.len(),
        scroll_offset: v.scroll,
        input_length: v.input.len(),
    }
}

/// Projects the session onto a `w` by `h` screen. A pure function: the
/// result is fully determined by the state's view and the geometry.
pub fn project(state: &SessionState, w: u16, h: u16) -> (r: FrameDescription)
    ensures
        r@ == spec_project(state@, w, h),
{
    let (title, viewport, input_box, status) = compute_regions(w, h);
    let len = state.log.len();
    let scroll = state.scroll;
    let visible: usize = if viewport.height >= 2 {
        (viewport.height - 2) as usize
    } else {
        0
    };
    let avail: usize = if scroll <= len {
        len - scroll
    } else {
        0
    };
    let n: usize = if visible <= avail {
        visible
    } else {
        avail
    };
    let ghost target: Seq<RowView> = spec_rows(state@.log, state@.scroll, visible as nat);
    let mut rows: Vec<Row> = Vec::new();
    let mut i: usize = 0;
    while i < n
        invariant
            0 <= i <= n,
            n as nat == target.len(),
            n <= len == state.log.len(),
            scroll == state.scroll,
            n == 0 || scroll + n <= len,
            target == spec_rows(state@.log, state@.scroll, (if viewport.height >= 2 {
                (viewport.height - 2) as nat
            } else {
                0nat
            })),
            visible as nat == (if viewport.height >= 2 {
                (viewport.height - 2) as nat
            } else {
                0nat
            }),
            rows_view(rows@) =~= target.subrange(0, i as int),
        decreases n - i,
    {
        let idx = len - 1 - scroll - i;
        let m = &state.log[idx];
        let row = Row {
            timestamp: m.timestamp.clone(),
            sender: m.sender.clone(),
            color: style_for(m.sender.as_str()),
            content: m.content.clone(),
        };
        let ghost rv = row@;
        let ghost prev = rows@;
        rows.push(row);
        proof {
            assert(state@.log[idx as int] == state.log@[idx as int]@);
            assert(rows_view(prev).len() == i as int);
            assert(prev.len() == i as int);
            assert(rows@.len() == i + 1);
            assert(rv == target[i as int]);
            assert(rows_view(rows@)[i as int] == rv);
            assert forall|j: int| 0 <= j < i implies rows_view(rows@)[j] == target[j] by {
                assert(rows@[j] == prev[j]);
                assert(rows_view(prev)[j] == target.subrange(0, i as int)[j]);
            }
            assert(rows_view(rows@) =~= target.subrange(0, (i + 1) as int));
        }
        i += 1;
    }
    proof {
        assert(rows_view(rows@) =~= target);
    }
    let input_length = state.input.as_str().unicode_len();
    let cap: usize = if len > 0 {
        len - 1
    } else {
        0
    };
    let mut viewport_title = String::from_str("消息 (按上下箭头滚动: ");
    let num = dec_string(scroll as u64);
    viewport_title.append(num.as_str());
    viewport_title.append("/");
    let num = dec_string(cap as u64);
    viewport_title.append(num.as_str());
    viewport_title.append(")");
    let mut status_text = String::from_str("总消息数: ");
    let num = dec_string(len as u64);
    status_text.append(num.as_str());
    status_text.append(" | 滚动位置: ");
    let num = dec_string(scroll as u64);
    status_text.append(num.as_str());
    status_text.append(" | 输入长度: ");
    let num = dec_string(input_length as u64);
    status_text.append(num.as_str());
    let cursor_x: u16 = if input_length >= 65535 {
        65535
    } else {
        let t: usize = input_box.x as usize + 1 + input_length;
        if t >= 65535 {
            65535
        } else {
            t as u16
        }
    };
    let cursor_y: u16 = if input_box.y >= 65535 {
        65535
    } else {
        input_box.y + 1
    };
    FrameDescription {
        title,
        viewport,
        input_box,
        status,
        title_text: String::from_str("Rust TUI QQ - 聊天窗口"),
        viewport_title,
        input_title: String::from_str("输入消息 (按Enter发送，q退出)"),
        input_text: state.input.clone(),
        status_text,
        rows,
        cursor_x,
        cursor_y,
        total_messages: len,
        scroll_offset: scroll,
        input_length,
    }
}

/// Rendering is pure: frames projected from states with equal views and
/// the same geometry are equal.
pub proof fn lemma_project_pure(
    f1: FrameDescription,
    f2: FrameDescription,
    s1: SessionState,
    s2: SessionState,
    w: u16,
    h: u16,
)
    requires
        s1@ == s2@,
        f1@ == spec_project(s1@, w, h),
        f2@ == spec_project(s2@, w, h),
    ensures
        f1@ == f2@,
{
}

} // verus!
