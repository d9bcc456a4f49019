//! The sidebar: connection status, economy, world events, swarm demand,
//! the Grand Exchange feed and the minimap, with the scroll state of its
//! lists.

use vstd::prelude::*;
use vstd::string::StringSliceAdditionalSpecFns;

use crate::color::Color;
use crate::game::{GEFeedEntry, WorldEvent, WsStatus};
use crate::text::{
    byte_len, byte_prefix, byte_prefix_text, decimal, display_name, normalise_code, push_decimal,
    push_signed, same_text, signed_decimal, truncate, truncated,
};
use crate::ui::layout::Area;

verus! {

/// The scroll offset one row further down a list of `count` rows shown
/// `window` at a time.
pub open spec fn scrolled_down(scroll: usize, count: usize, window: int) -> usize {
    let max = if count >= window {
        count - window
    } else {
        0
    };
    let next = if scroll < usize::MAX {
        scroll + 1
    } else {
        scroll as int
    };
    (if next <= max {
        next
    } else {
        max
    }) as usize
}

/// The scroll offset one row further up.
pub open spec fn scrolled_up(scroll: usize) -> usize {
    if scroll > 0 {
        (scroll - 1) as usize
    } else {
        0
    }
}

/// One row further down a list of `count` rows shown `window` at a time
/// (saturating, and never past the last full window).
pub fn scroll_down(scroll: usize, count: usize, window: usize) -> (r: usize)
    ensures
        r == scrolled_down(scroll, count, window as int),
{
    let max = count.saturating_sub(window);
    let next = scroll.saturating_add(1);
    if next <= max {
        next
    } else {
        max
    }
}

/// One row further up (saturating at the top).
pub fn scroll_up(scroll: usize) -> (r: usize)
    ensures
        r == scrolled_up(scroll),
{
    scroll.saturating_sub(1)
}


/// Scrolling down never passes the last full window (or the top when
/// everything fits), scrolling up never passes the top, and from within
/// range one step down then one step up returns to the same offset when
/// the step down moved.
pub proof fn scroll_range_law(scroll: usize, count: usize, window: int)
    requires
        window >= 0,
        scroll <= (if count >= window { count - window } else { 0 }),
    ensures
        scrolled_down(scroll, count, window) <= (if count >= window { count - window } else { 0 }),
        scrolled_up(scroll) <= scroll,
        scrolled_down(scroll, count, window) != scroll ==> scrolled_up(
            scrolled_down(scroll, count, window),
        ) == scroll,
{
}

/// Scroll state of the sidebar lists, with the areas and row counts of the
/// last frame that drew them.
#[derive(Clone, Copy, Debug, PartialEq, Eq, Structural)]
pub struct SidebarState {
    pub demand_scroll: usize,
    pub demand_area: Area,
    pub demand_count: usize,
    pub ge_scroll: usize,
    pub ge_area: Area,
    pub ge_count: usize,
}

/// The rows of a list shown in a block whose first row is its title.
pub open spec fn rows_below_title(area: Area) -> int {
    if area.height >= 1 {
        area.height - 1
    } else {
        0
    }
}

/// The window of a list drawn `visible` rows at a time from `scroll`,
/// after clamping the scroll offset to the last full window: the new
/// offset and the half-open range of rows shown.
pub open spec fn list_window(scroll: usize, count: usize, visible: int) -> (usize, usize, usize) {
    let max = if count >= visible {
        count - visible
    } else {
        0
    };
    let s = if scroll <= max {
        scroll as int
    } else {
        max
    };
    let end = if s + visible <= count {
        s + visible
    } else {
        count as int
    };
    (s as usize, s as usize, end as usize)
}

impl SidebarState {
    /// Nothing scrolled, no areas drawn yet.
    pub open spec fn initial() -> SidebarState {
        SidebarState {
            demand_scroll: 0,
            demand_area: Area::empty_spec(),
            demand_count: 0,
            ge_scroll: 0,
            ge_area: Area::empty_spec(),
            ge_count: 0,
        }
    }

    /// Nothing scrolled, no areas drawn yet.
    pub fn new() -> (r: SidebarState)
        ensures
            r == SidebarState::initial(),
    {
        SidebarState {
            demand_scroll: 0,
            demand_area: Area::empty(),
            demand_count: 0,
            ge_scroll: 0,
            ge_area: Area::empty(),
            ge_count: 0,
        }
    }

    /// A mouse wheel step at `(column, row)`: over the demand list, down
    /// scrolls it forward and up back; over the Grand Exchange feed (whose
    /// newest entries are at the bottom), down scrolls towards the newest
    /// and up towards older ones. Returns whether a list scrolled.
    pub fn wheel(&mut self, column: u16, row: u16, down: bool) -> (r: bool)
        ensures
            old(self).demand_area.holds(column, row) ==> r && *final(self) == (SidebarState {
                demand_scroll: if down {
                    scrolled_down(
                        old(self).demand_scroll,
                        old(self).demand_count,
                        if old(self).demand_area.height >= 2 {
                            old(self).demand_area.height - 2
                        } else {
                            0
                        },
                    )
                } else {
                    scrolled_up(old(self).demand_scroll)
                },
                ..*old(self)
            }),
            !old(self).demand_area.holds(column, row) && old(self).ge_area.holds(column, row) ==> r
                && *final(self) == (SidebarState {
                ge_scroll: if down {
                    scrolled_up(old(self).ge_scroll)
                } else {
                    scrolled_down(
                        old(self).ge_scroll,
                        old(self).ge_count,
                        rows_below_title(old(self).ge_area),
                    )
                },
                ..*old(self)
            }),
            !old(self).demand_area.holds(column, row) && !old(self).ge_area.holds(column, row) ==> !r
                && *final(self) == *old(self),
    {
        if self.demand_area.contains(column, row) {
            if down {
                let window = self.demand_area.height.saturating_sub(2) as usize;
                self.demand_scroll = scroll_down(self.demand_scroll, self.demand_count, window);
            } else {
                self.demand_scroll = scroll_up(self.demand_scroll);
            }
            return true;
        }
        if self.ge_area.contains(column, row) {
            if down {
                self.ge_scroll = scroll_up(self.ge_scroll);
            } else {
                let window = self.ge_area.height.saturating_sub(1) as usize;
                self.ge_scroll = scroll_down(self.ge_scroll, self.ge_count, window);
            }
            return true;
        }
        false
    }

    /// Records that the demand list of `count` entries is drawn in `area`,
    /// clamps its scroll offset to the rows below the title, and returns the
    /// range of entries shown.
    pub fn demand_drawn(&mut self, area: Area, count: usize) -> (r: (usize, usize))
        ensures
            final(self).demand_area == area,
            final(self).demand_count == count,
            count > 0 && rows_below_title(area) > 0 ==> {
                let w = list_window(old(self).demand_scroll, count, rows_below_title(area));
                &&& final(self).demand_scroll == w.0
                &&& r == (w.1, w.2)
            },
            !(count > 0 && rows_below_title(area) > 0) ==> final(self).demand_scroll == old(
                self,
            ).demand_scroll && r == (0usize, 0usize),
            *final(self) == (SidebarState {
                demand_area: area,
                demand_count: count,
                demand_scroll: final(self).demand_scroll,
                ..*old(self)
            }),
    {
        self.demand_area = area;
        self.demand_count = count;
        let visible = area.height.saturating_sub(1) as usize;
        if count > 0 && visible > 0 {
            let max = count.saturating_sub(visible);
            if self.demand_scroll > max {
                self.demand_scroll = max;
            }
            let start = self.demand_scroll;
            let end = if visible <= count - start {
                start + visible
            } else {
                count
            };
            (start, end)
        } else {
            (0, 0)
        }
    }

    /// Records that the Grand Exchange feed of `count` entries is drawn in
    /// `area`, clamps its scroll offset (counted from the newest entry) to
    /// the rows below the title, and returns the range of entries shown,
    /// oldest first.
    pub fn ge_drawn(&mut self, area: Area, count: usize) -> (r: (usize, usize))
        ensures
            final(self).ge_area == area,
            final(self).ge_count == count,
            count > 0 && rows_below_title(area) > 0 ==> {
                let w = list_window(old(self).ge_scroll, count, rows_below_title(area));
                &&& final(self).ge_scroll == w.0
                &&& r == ((count - w.2) as usize, (count - w.1) as usize)
            },
            !(count > 0 && rows_below_title(area) > 0) ==> final(self).ge_scroll == old(
                self,
            ).ge_scroll && r == (0usize, 0usize),
            *final(self) == (SidebarState {
                ge_area: area,
                ge_count: count,
                ge_scroll: final(self).ge_scroll,
                ..*old(self)
            }),
    {
        self.ge_area = area;
        self.ge_count = count;
        let visible = area.height.saturating_sub(1) as usize;
        if count > 0 && visible > 0 {
            let max = count.saturating_sub(visible);
            if self.ge_scroll > max {
                self.ge_scroll = max;
            }
            let skip = self.ge_scroll;
            let taken = if visible <= count - skip {
                visible
            } else {
                count - skip
            };
            (count - skip - taken, count - skip)
        } else {
            (0, 0)
        }
    }
}

/// The sidebar border colour: cyan when it holds focus, else dark grey.
pub open spec fn sidebar_border_of(focused: bool) -> Color {
    if focused {
        Color::Cyan
    } else {
        Color::DarkGray
    }
}

/// The sidebar border colour.
pub fn sidebar_border(focused: bool) -> (r: Color)
    ensures
        r == sidebar_border_of(focused),
{
    if focused {
        Color::Cyan
    } else {
        Color::DarkGray
    }
}

/// The connection indicator: icon, colour and label.
pub open spec fn ws_indicator_of(status: WsStatus) -> (Seq<char>, Color, Seq<char>) {
    match status {
        WsStatus::Connected => ("●"@, Color::Green, "live"@),
        WsStatus::Connecting => ("○"@, Color::Yellow, "connecting…"@),
        WsStatus::Disconnected(_) => ("✗"@, Color::Red, "offline"@),
    }
}

/// The connection indicator: icon, colour and label.
pub fn ws_indicator(status: &WsStatus) -> (r: (&'static str, Color, &'static str))
    ensures
        (r.0@, r.1, r.2@) == ws_indicator_of(*status),
{
    match status {
        WsStatus::Connected => ("●", Color::Green, "live"),
        WsStatus::Connecting => ("○", Color::Yellow, "connecting…"),
        WsStatus::Disconnected(_) => ("✗", Color::Red, "offline"),
    }
}

/// Heights of the sidebar's sized sections: events (title row included,
/// zero without events), swarm demand, and the minimap square.
pub struct SidebarRows {
    pub events: u16,
    pub demand: u16,
    pub minimap: u16,
}

/// Height of the events section: the title plus up to three events (at
/// least one row), or zero without events.
pub open spec fn events_rows_of(n_events: usize) -> u16 {
    if n_events == 0 {
        0
    } else if n_events < 3 {
        (n_events + 1) as u16
    } else {
        4
    }
}

/// Height of the demand section: the title plus one row per entry, at most
/// 26 rows, or two rows (title and "None") without entries. The entry count
/// is taken modulo 2^16, as a `u16` conversion does.
pub open spec fn demand_rows_of(n_demand: usize) -> u16 {
    if n_demand == 0 {
        2
    } else if n_demand % 65536 < 26 {
        (n_demand % 65536 + 1) as u16
    } else {
        26
    }
}

/// Height of the minimap: a square in pixels when the font size is known
/// (`width * font_width / font_height`, kept to 16 bits), else half the
/// width; at least four rows.
pub open spec fn minimap_rows_of(width: u16, font_w: u16, font_h: u16) -> u16 {
    let h = if font_w > 0 && font_h > 0 {
        ((width as int * font_w as int / font_h as int) % 65536) as u16
    } else {
        (width / 2) as u16
    };
    if h >= 4 {
        h
    } else {
        4
    }
}

/// The sized section heights of the sidebar for an inner area of `width`
/// × `height` cells. The minimap shows only with a selected character and
/// at least 12 rows.
pub fn sidebar_rows(
    width: u16,
    height: u16,
    n_events: usize,
    n_demand: usize,
    has_character: bool,
    font_w: u16,
    font_h: u16,
) -> (r: SidebarRows)
    requires
        n_demand % 65536 != 65535,
    ensures
        r.events == events_rows_of(n_events),
        r.demand == demand_rows_of(n_demand),
        r.minimap == if has_character && height >= 12 {
            minimap_rows_of(width, font_w, font_h)
        } else {
            0
        },
{
    let events = if n_events == 0 {
        0
    } else if n_events < 3 {
        n_events as u16 + 1
    } else {
        4
    };
    let demand = if n_demand == 0 {
        2
    } else {
        let n16 = (n_demand % 65536) as u16;
        if n16 < 26 {
            n16 + 1
        } else {
            26
        }
    };
    let minimap = if has_character && height >= 12 {
        let h: u16 = if font_w > 0 && font_h > 0 {
            assert(width as int * font_w as int <= 65535 * 65535) by (nonlinear_arith)
                requires
                    width <= 65535,
                    font_w <= 65535,
            ;
            let px: u32 = width as u32 * font_w as u32 / font_h as u32;
            (px % 65536) as u16
        } else {
            width / 2
        };
        if h >= 4 {
            h
        } else {
            4
        }
    } else {
        0
    };
    SidebarRows { events, demand, minimap }
}

/// The expiration shown for an event: its first 16 bytes when it is longer
/// than 5 bytes, else the whole text.
pub open spec fn expiry_shown(e: Seq<char>) -> Seq<char> {
    if byte_len(e) > 5 {
        byte_prefix_text(e, if byte_len(e) < 16 { byte_len(e) as int } else { 16 })
    } else {
        e
    }
}

/// Whether the expiration's cut falls on a character boundary.
pub open spec fn expiry_cut_ok(e: Seq<char>) -> bool {
    byte_len(e) <= 5 || vstd::utf8::is_char_boundary(
        vstd::utf8::encode_utf8(e),
        if byte_len(e) < 16 { byte_len(e) as int } else { 16 },
    )
}

/// One sidebar event line: the name cut to the width less six, and the
/// expiration with a leading space.
pub fn event_line(evt: &WorldEvent, width: u16) -> (r: (String, String))
    requires
        expiry_cut_ok(evt.expiration@),
    ensures
        r.0@ == truncated(evt.name@, if width >= 6 { (width - 6) as nat } else { 0 }),
        r.1@ == seq![' '] + expiry_shown(evt.expiration@),
{
    let name = truncate(evt.name.as_str(), (width as usize).saturating_sub(6));
    let e = evt.expiration.as_str();
    let n = e.len();
    let shown: &str = if n > 5 {
        byte_prefix(e, if n < 16 { n } else { 16 })
    } else {
        e
    };
    let mut exp = String::from_str(" ");
    exp.append(shown);
    proof {
        reveal_strlit(" ");
    }
    assert(exp@ =~= seq![' '] + expiry_shown(evt.expiration@));
    (name, exp)
}

/// The most events the sidebar lists.
pub const SIDEBAR_EVENTS: usize = 3;

/// The sidebar's event lines: one per event, for the first
/// `SIDEBAR_EVENTS` events only.
pub fn event_lines(events: &Vec<WorldEvent>, width: u16) -> (r: Vec<(String, String)>)
    requires
        forall|i: int|
            0 <= i < events@.len() && i < SIDEBAR_EVENTS ==> expiry_cut_ok(#[trigger] events@[i].expiration@),
    ensures
        r@.len() == if events@.len() < SIDEBAR_EVENTS { events@.len() } else { SIDEBAR_EVENTS as nat },
        forall|i: int|
            0 <= i < r@.len() ==> (#[trigger] r@[i]).0@ == truncated(
                events@[i].name@,
                if width >= 6 { (width - 6) as nat } else { 0 },
            ) && r@[i].1@ == seq![' '] + expiry_shown(events@[i].expiration@),
{
    let mut r: Vec<(String, String)> = Vec::new();
    let mut i: usize = 0;
    while i < events.len() && i < SIDEBAR_EVENTS
        invariant
            i <= events@.len(),
            i <= SIDEBAR_EVENTS,
            r@.len() == i,
            forall|k: int|
                0 <= k < events@.len() && k < SIDEBAR_EVENTS ==> expiry_cut_ok(#[trigger] events@[k].expiration@),
            forall|k: int|
                0 <= k < i ==> (#[trigger] r@[k]).0@ == truncated(
                    events@[k].name@,
                    if width >= 6 { (width - 6) as nat } else { 0 },
                ) && r@[k].1@ == seq![' '] + expiry_shown(events@[k].expiration@),
        decreases events@.len() - i,
    {
        assert(expiry_cut_ok(events@[i as int].expiration@));
        let line = event_line(&events[i], width);
        r.push(line);
        i = i + 1;
    }
    r
}

/// One Grand Exchange feed line, in three styled parts.
pub struct FeedLine {
    /// `[SELL] `, `[BUY ] `, `[SOLD] ` or `[BGHT] `.
    pub tag: String,
    pub tag_color: Color,
    /// Whether the tag is bold (transactions).
    pub bold: bool,
    /// The item code, cut to the width less 16.
    pub code: String,
    /// ` ×quantity@priceg` for orders, ` ×quantity=totalg` for transactions.
    pub detail: String,
}

/// The width left for the item code of a feed line.
pub open spec fn feed_code_width(width: u16) -> nat {
    if width >= 16 {
        (width - 16) as nat
    } else {
        0
    }
}

/// A Grand Exchange feed line for `entry` in `width` columns.
pub fn feed_line(entry: &GEFeedEntry, width: u16) -> (r: FeedLine)
    ensures
        entry matches GEFeedEntry::Order(o) ==> {
            &&& r.tag@ == (if o.order_type@ == "sell"@ {
                "[SELL] "@
            } else {
                "[BUY ] "@
            })
            &&& r.tag_color == (if o.order_type@ == "sell"@ {
                Color::LightRed
            } else {
                Color::LightGreen
            })
            &&& !r.bold
            &&& r.code@ == truncated(o.code@, feed_code_width(width))
            &&& r.detail@ == " ×"@ + decimal(o.quantity as nat) + "@"@ + decimal(o.price as nat)
                + "g"@
        },
        entry matches GEFeedEntry::Transaction(t) ==> {
            &&& r.tag@ == (if t.order_type@ == "sell"@ {
                "[SOLD] "@
            } else {
                "[BGHT] "@
            })
            &&& r.tag_color == (if t.order_type@ == "sell"@ {
                Color::Green
            } else {
                Color::Cyan
            })
            &&& r.bold
            &&& r.code@ == truncated(t.code@, feed_code_width(width))
            &&& r.detail@ == " ×"@ + decimal(t.quantity as nat) + "="@ + decimal(
                t.total_price as nat,
            ) + "g"@
        },
{
    let max_code = (width as usize).saturating_sub(16);
    match entry {
        GEFeedEntry::Order(o) => {
            let sell = same_text(o.order_type.as_str(), "sell");
            let mut detail = String::from_str(" ×");
            push_decimal(&mut detail, o.quantity as u64);
            detail.append("@");
            push_decimal(&mut detail, o.price as u64);
            detail.append("g");
            FeedLine {
                tag: String::from_str(if sell { "[SELL] " } else { "[BUY ] " }),
                tag_color: if sell { Color::LightRed } else { Color::LightGreen },
                bold: false,
                code: truncate(o.code.as_str(), max_code),
                detail,
            }
        },
        GEFeedEntry::Transaction(t) => {
            let sell = same_text(t.order_type.as_str(), "sell");
            let mut detail = String::from_str(" ×");
            push_decimal(&mut detail, t.quantity as u64);
            detail.append("=");
            push_decimal(&mut detail, t.total_price as u64);
            detail.append("g");
            FeedLine {
                tag: String::from_str(if sell { "[SOLD] " } else { "[BGHT] " }),
                tag_color: if sell { Color::Green } else { Color::Cyan },
                bold: true,
                code: truncate(t.code.as_str(), max_code),
                detail,
            }
        },
    }
}

/// One swarm demand row: the quantity (`10x `) and the item's display
/// name cut to the name column width less two.
pub fn demand_row(code: &str, quantity: u32, name_width: u16) -> (r: (String, String))
    ensures
        r.0@ == decimal(quantity as nat) + "x "@,
        r.1@ == truncated(display_name(code@), if name_width >= 2 { (name_width - 2) as nat } else { 0 }),
{
    let mut q = String::new();
    push_decimal(&mut q, quantity as u64);
    q.append("x ");
    let name = normalise_code(code);
    (q, truncate(name.as_str(), (name_width as usize).saturating_sub(2)))
}

/// The sidebar title, ` Info v<version> `.
pub fn info_title(version: &str) -> (r: String)
    ensures
        r@ == " Info v"@ + version@ + " "@,
{
    let mut t = String::from_str(" Info v");
    t.append(version);
    t.append(" ");
    t
}

/// The minimap title, ` <name> [<x>,<y>] `.
pub fn minimap_title(name: &str, x: i32, y: i32) -> (r: String)
    ensures
        r@ == " "@ + name@ + " ["@ + signed_decimal(x as int) + ","@ + signed_decimal(y as int)
            + "] "@,
{
    let mut t = String::from_str(" ");
    t.append(name);
    t.append(" [");
    push_signed(&mut t, x as i64);
    t.append(",");
    push_signed(&mut t, y as i64);
    t.append("] ");
    t
}

} // verus!
