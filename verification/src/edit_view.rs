//! The view controller: binds one line cache to one view of the core,
//! turns keyboard and mouse input into editing commands, and keeps the
//! virtualized viewport — which stretch of lines the core should stream —
//! in step with scrolling, sending a `scroll` notification only when the
//! computed range actually changed.
//!
//! All coordinates are content-space pixels as integers; `y` grows
//! downward and line `n` starts at `TOP_PAD + n * LINE_SPACE`.

use vstd::prelude::*;
use crate::linecache::{Line, LineCache, Update, apply_ops};
use crate::protocol::{
    chars_params_text, chars_params_string, edit_params_text, edit_params_string, int_pair_text,
    int_pair_string, notification_text, point_select_params_text, point_select_params_string,
};
use crate::rpc::Core;

verus! {

broadcast use vstd::utf8::char_u32_cast;

/// Relies on char::from_u32: it returns the char with the given value
/// exactly when that value is a Unicode scalar value.
pub assume_specification[ std::primitive::char::from_u32 ](i: u32) -> (r: Option<char>)
    ensures
        r is Some <==> vstd::utf8::is_scalar(i),
        r matches Some(c) ==> c as u32 == i,
;

/// Pixels of padding above the first line.
pub const TOP_PAD: u64 = 6;

/// Pixel height of one line row.
pub const LINE_SPACE: u64 = 17;

/// Pixels kept visible below a line that `scroll_to` brings into view.
pub const BOTTOM_SLOP: u64 = 20;

/// Modifier flag: a Shift key is held.
pub const M_SHIFT: u32 = 1;

/// Modifier flag: a Control key is held.
pub const M_CTRL: u32 = 2;

/// Modifier flag: an Alt key is held.
pub const M_ALT: u32 = 4;

/// Key code: Enter.
pub const VK_RETURN: i32 = 0x0d;

/// Key code: Tab.
pub const VK_TAB: i32 = 0x09;

/// Key code: Backspace.
pub const VK_BACK: i32 = 0x08;

/// Key code: Escape.
pub const VK_ESCAPE: i32 = 0x1b;

/// Key code: Page Up.
pub const VK_PRIOR: i32 = 0x21;

/// Key code: Page Down.
pub const VK_NEXT: i32 = 0x22;

/// Key code: End.
pub const VK_END: i32 = 0x23;

/// Key code: Home.
pub const VK_HOME: i32 = 0x24;

/// Key code: Left arrow.
pub const VK_LEFT: i32 = 0x25;

/// Key code: Up arrow.
pub const VK_UP: i32 = 0x26;

/// Key code: Right arrow.
pub const VK_RIGHT: i32 = 0x27;

/// Key code: Down arrow.
pub const VK_DOWN: i32 = 0x28;

/// Key code: Delete.
pub const VK_DELETE: i32 = 0x2e;

/// Key code: the `[` key on common layouts.
pub const VK_OEM_4: i32 = 0xdb;

/// Key code: the `]` key on common layouts.
pub const VK_OEM_6: i32 = 0xdd;

/// The commands a view accepts from the window shell and the message
/// router.
pub enum EditViewCommands {
    /// The core has assigned this view its id.
    ViewId(String),
    /// An `update` notification's batch of line-cache ops.
    ApplyUpdate(Update),
    /// A `scroll_to` notification: bring this line into view.
    ScrollTo(usize),
    Undo,
    Redo,
    UpperCase,
    LowerCase,
    Transpose,
    AddCursorAbove,
    AddCursorBelow,
    SingleSelection,
    SelectAll,
}

/// The abstract state of a view: what the contracts below speak of.
pub ghost struct ViewModel {
    /// The core-assigned view id; empty until it arrives.
    pub view_id: Seq<char>,
    /// The line cache's slot sequence.
    pub cache: Seq<Option<Line>>,
    /// Content-space y coordinate of the viewport top, in pixels.
    pub scroll_offset: int,
    /// Render-area width in pixels.
    pub size_w: int,
    /// Render-area height in pixels.
    pub size_h: int,
    /// First line of the range last communicated in a `scroll` notification.
    pub first_line: int,
    /// One past the last line of that range.
    pub last_line: int,
}

/// Largest legal scroll offset for a cache of `h` lines.
pub open spec fn max_scroll_spec(h: nat) -> int {
    TOP_PAD + LINE_SPACE * (if h == 0 {
        0
    } else {
        (h - 1) as int
    })
}

/// A scroll offset clamped into `[0, max_scroll]` (and into the machine
/// range of the stored offset).
pub open spec fn constrain_spec(target: int, h: nat) -> int {
    vstd::math::max(
        0,
        vstd::math::min(vstd::math::min(target, max_scroll_spec(h)), u64::MAX as int),
    )
}

/// Wherever a wheel delta or a keyboard scroll tries to put the scroll
/// offset — below zero or past the bottom — the clamped offset always
/// lands in `[0, max_scroll]`.
pub proof fn lemma_scroll_offset_clamped(target: int, h: nat)
    ensures
        0 <= constrain_spec(target, h),
        constrain_spec(target, h) <= max_scroll_spec(h),
{
}

/// The line under screen-space `y` at scroll offset `offset`, clamped into
/// `[0, h]`.
pub open spec fn y_to_line_spec(y: int, offset: int, h: int) -> int {
    vstd::math::min(vstd::math::max((y + offset - TOP_PAD) / (LINE_SPACE as int), 0), h)
}

/// The visible line range to request from the core: the line under the
/// viewport top, through one row past the viewport bottom.
pub open spec fn viewport_spec(v: ViewModel) -> (int, int) {
    let first = y_to_line_spec(0, v.scroll_offset, v.cache.len() as int);
    (first, vstd::math::min(first + v.size_h / (LINE_SPACE as int) + 1, usize::MAX as int))
}

/// The text of the top-level `scroll` notification for a line range.
pub open spec fn scroll_notification_text(first: int, last: int) -> Seq<char> {
    notification_text(("scroll")@, int_pair_text(first, last))
}

/// The text of an `edit` notification carrying command `cmd` with params
/// `params` for view `view_id`.
pub open spec fn edit_notification_text(
    cmd: Seq<char>,
    params: Seq<char>,
    view_id: Seq<char>,
) -> Seq<char> {
    notification_text(("edit")@, edit_params_text(cmd, params, view_id))
}

/// The text of an `edit` notification for a command without arguments.
pub open spec fn action_notification_text(cmd: Seq<char>, view_id: Seq<char>) -> Seq<char> {
    edit_notification_text(cmd, ("[]")@, view_id)
}

/// The view state after one viewport recompute: the computed range is
/// stored; nothing else moves.
pub open spec fn recompute_viewport_model(v: ViewModel) -> ViewModel {
    let vp = viewport_spec(v);
    ViewModel { first_line: vp.0, last_line: vp.1, ..v }
}

/// The transport history after one viewport recompute: a `scroll`
/// notification goes out exactly when the computed range differs from the
/// last range communicated.
pub open spec fn recompute_viewport_sent(v: ViewModel, sent: Seq<Seq<char>>) -> Seq<Seq<char>> {
    let vp = viewport_spec(v);
    if vp == (v.first_line, v.last_line) {
        sent
    } else {
        sent.push(scroll_notification_text(vp.0, vp.1))
    }
}

/// Recomputing the viewport twice with unchanged scroll offset, viewport
/// size and cache sends at most one `scroll` notification: the first
/// recompute stores the range it communicated, so the second finds the
/// stored range equal and sends nothing.
pub proof fn lemma_viewport_recompute_idempotent(v: ViewModel, sent: Seq<Seq<char>>)
    ensures
        recompute_viewport_model(recompute_viewport_model(v)) == recompute_viewport_model(v),
        recompute_viewport_sent(
            recompute_viewport_model(v),
            recompute_viewport_sent(v, sent),
        ) == recompute_viewport_sent(v, sent),
        recompute_viewport_sent(v, sent).len() <= sent.len() + 1,
{
}

/// Choose the selection-extending form of a movement command when Shift is
/// held.
pub open spec fn sel_cmd(mods: u32, normal: Seq<char>, shifted: Seq<char>) -> Seq<char> {
    if mods & M_SHIFT != 0 {
        shifted
    } else {
        normal
    }
}

/// Whether a key event is the Ctrl-arrow scroll gesture rather than an
/// editing command.
pub open spec fn key_scrolls(vk: int, mods: u32) -> bool {
    (vk == VK_UP || vk == VK_DOWN) && mods == M_CTRL
}

/// The editing command a key event maps to, if any: the fixed table of
/// named commands the core recognizes.
pub open spec fn key_command(vk: int, mods: u32) -> Option<Seq<char>> {
    if vk == VK_RETURN {
        Some(("insert_newline")@)
    } else if vk == VK_TAB {
        Some(("insert_tab")@)
    } else if vk == VK_UP {
        if mods == M_CTRL {
            None
        } else if mods == M_CTRL | M_ALT {
            Some(("add_selection_above")@)
        } else {
            Some(sel_cmd(mods, ("move_up")@, ("move_up_and_modify_selection")@))
        }
    } else if vk == VK_DOWN {
        if mods == M_CTRL {
            None
        } else if mods == M_CTRL | M_ALT {
            Some(("add_selection_below")@)
        } else {
            Some(sel_cmd(mods, ("move_down")@, ("move_down_and_modify_selection")@))
        }
    } else if vk == VK_LEFT {
        if mods & (M_ALT | M_CTRL) != 0 {
            Some(sel_cmd(mods, ("move_word_left")@, ("move_word_left_and_modify_selection")@))
        } else {
            Some(sel_cmd(mods, ("move_left")@, ("move_left_and_modify_selection")@))
        }
    } else if vk == VK_RIGHT {
        if mods & (M_ALT | M_CTRL) != 0 {
            Some(sel_cmd(mods, ("move_word_right")@, ("move_word_right_and_modify_selection")@))
        } else {
            Some(sel_cmd(mods, ("move_right")@, ("move_right_and_modify_selection")@))
        }
    } else if vk == VK_PRIOR {
        Some(sel_cmd(mods, ("scroll_page_up")@, ("page_up_and_modify_selection")@))
    } else if vk == VK_NEXT {
        Some(sel_cmd(mods, ("scroll_page_down")@, ("page_down_and_modify_selection")@))
    } else if vk == VK_HOME {
        if mods & M_CTRL != 0 {
            Some(
                sel_cmd(
                    mods,
                    ("move_to_beginning_of_document")@,
                    ("move_to_beginning_of_document_and_modify_selection")@,
                ),
            )
        } else {
            Some(
                sel_cmd(
                    mods,
                    ("move_to_left_end_of_line")@,
                    ("move_to_left_end_of_line_and_modify_selection")@,
                ),
            )
        }
    } else if vk == VK_END {
        if mods & M_CTRL != 0 {
            Some(
                sel_cmd(
                    mods,
                    ("move_to_end_of_document")@,
                    ("move_to_end_of_document_and_modify_selection")@,
                ),
            )
        } else {
            Some(
                sel_cmd(
                    mods,
                    ("move_to_right_end_of_line")@,
                    ("move_to_right_end_of_line_and_modify_selection")@,
                ),
            )
        }
    } else if vk == VK_ESCAPE {
        Some(("cancel_operation")@)
    } else if vk == VK_BACK {
        if mods & M_CTRL != 0 {
            Some(sel_cmd(mods, ("delete_word_backward")@, ("delete_to_beginning_of_line")@))
        } else {
            Some(("delete_backward")@)
        }
    } else if vk == VK_DELETE {
        if mods & M_CTRL != 0 {
            Some(sel_cmd(mods, ("delete_word_forward")@, ("delete_to_end_of_paragraph")@))
        } else {
            Some(("delete_forward")@)
        }
    } else if vk == VK_OEM_4 {
        if mods == M_CTRL {
            Some(("outdent")@)
        } else {
            None
        }
    } else if vk == VK_OEM_6 {
        if mods == M_CTRL {
            Some(("indent")@)
        } else {
            None
        }
    } else {
        None
    }
}

/// Whether a key event is consumed at all.
pub open spec fn key_handled(vk: int, mods: u32) -> bool {
    key_scrolls(vk, mods) || key_command(vk, mods) is Some
}

/// The truncating half of a wheel delta: wheel units scale to pixels at
/// two units per pixel.
pub open spec fn wheel_half(delta: int) -> int {
    if delta >= 0 {
        delta / 2
    } else {
        -((-delta) / 2)
    }
}

/// State and behavior for one editor view.
pub struct EditView {
    view_id: String,
    line_cache: LineCache,
    scroll_offset: u64,
    size_w: u64,
    size_h: u64,
    first_line: usize,
    last_line: usize,
}

impl View for EditView {
    type V = ViewModel;

    closed spec fn view(&self) -> ViewModel {
        ViewModel {
            view_id: self.view_id@,
            cache: self.line_cache@,
            scroll_offset: self.scroll_offset as int,
            size_w: self.size_w as int,
            size_h: self.size_h as int,
            first_line: self.first_line as int,
            last_line: self.last_line as int,
        }
    }
}

impl EditView {
    pub fn new() -> (v: EditView)
        ensures
            v@ == (ViewModel {
                view_id: Seq::<char>::empty(),
                cache: Seq::<Option<Line>>::empty(),
                scroll_offset: 0,
                size_w: 0,
                size_h: 0,
                first_line: 0,
                last_line: 0,
            }),
    {
        EditView {
            view_id: String::new(),
            line_cache: LineCache::new(),
            scroll_offset: 0,
            size_w: 0,
            size_h: 0,
            first_line: 0,
            last_line: 0,
        }
    }

    /// Read access to the line cache, for the rendering host.
    pub fn line_cache(&self) -> (c: &LineCache)
        ensures
            c@ == self@.cache,
    {
        &self.line_cache
    }

    /// The current scroll offset in content-space pixels.
    pub fn scroll_offset(&self) -> (o: u64)
        ensures
            o as int == self@.scroll_offset,
    {
        self.scroll_offset
    }

    /// The line range last communicated to the core.
    pub fn viewport(&self) -> (vp: (usize, usize))
        ensures
            vp.0 as int == self@.first_line,
            vp.1 as int == self@.last_line,
    {
        (self.first_line, self.last_line)
    }

    /// Forget all cached lines, e.g. when a view is re-used for a new file.
    pub fn clear_line_cache(&mut self)
        ensures
            final(self)@ == (ViewModel { cache: Seq::<Option<Line>>::empty(), ..old(self)@ }),
    {
        self.line_cache = LineCache::new();
    }

    /// Record the render-area size and re-clamp the scroll offset against
    /// the unchanged cache.
    pub fn size(&mut self, w: u64, h: u64)
        ensures
            final(self)@ == (ViewModel {
                size_w: w as int,
                size_h: h as int,
                scroll_offset: constrain_spec(old(self)@.scroll_offset, old(self)@.cache.len()),
                ..old(self)@
            }),
    {
        self.size_w = w;
        self.size_h = h;
        self.constrain_scroll();
    }

    /// Apply an update batch to the line cache and re-clamp the scroll
    /// offset against the new height.
    pub fn apply_update(&mut self, update: Update)
        ensures
            final(self)@ == (ViewModel {
                cache: apply_ops(old(self)@.cache, update.ops@),
                scroll_offset: constrain_spec(
                    old(self)@.scroll_offset,
                    apply_ops(old(self)@.cache, update.ops@).len(),
                ),
                ..old(self)@
            }),
    {
        self.line_cache.apply_update(update);
        self.constrain_scroll();
    }

    /// Clamp the scroll offset into `[0, max_scroll]`.
    fn constrain_scroll(&mut self)
        ensures
            final(self)@ == (ViewModel {
                scroll_offset: constrain_spec(old(self)@.scroll_offset, old(self)@.cache.len()),
                ..old(self)@
            }),
    {
        let h = self.line_cache.height();
        let max_scroll: u128 = TOP_PAD as u128 + LINE_SPACE as u128 * (if h == 0 {
            0u128
        } else {
            (h - 1) as u128
        });
        if (self.scroll_offset as u128) > max_scroll {
            self.scroll_offset = max_scroll as u64;
        }
    }

    /// The line under screen-space `y`, given the current scroll offset,
    /// clamped to the cache height.
    pub fn y_to_line(&self, y: u64) -> (line: usize)
        ensures
            line as int == y_to_line_spec(y as int, self@.scroll_offset, self@.cache.len() as int),
    {
        let yy = y as u128 + self.scroll_offset as u128;
        let h = self.line_cache.height();
        let line128: u128 = if yy < TOP_PAD as u128 {
            0
        } else {
            (yy - TOP_PAD as u128) / (LINE_SPACE as u128)
        };
        if line128 >= h as u128 {
            h
        } else {
            line128 as usize
        }
    }

    /// The line range the rendering host should draw: the line under the
    /// viewport top through one row past the viewport bottom, capped at the
    /// cache height.
    pub fn visible_lines(&self) -> (r: (usize, usize))
        ensures
            r.0 as int == y_to_line_spec(0, self@.scroll_offset, self@.cache.len() as int),
            r.1 as int == vstd::math::min(
                y_to_line_spec(self@.size_h, self@.scroll_offset, self@.cache.len() as int) + 1,
                self@.cache.len() as int,
            ),
    {
        let first = self.y_to_line(0);
        let bottom = self.y_to_line(self.size_h);
        let h = self.line_cache.height();
        let last = if bottom >= h {
            h
        } else {
            bottom + 1
        };
        (first, last)
    }

    /// Recompute the visible line range and, exactly when it differs from
    /// the last range communicated, send a `scroll` notification with the
    /// new bounds.
    pub fn update_viewport(&mut self, core: &mut Core)
        ensures
            final(self)@ == recompute_viewport_model(old(self)@),
            final(core).sent() == recompute_viewport_sent(old(self)@, old(core).sent()),
            final(core).next_id_spec() == old(core).next_id_spec(),
            final(core).pending_spec() == old(core).pending_spec(),
    {
        let first = self.y_to_line(0);
        let add = self.size_h / LINE_SPACE;
        let last128 = first as u128 + add as u128 + 1;
        let last: usize = if last128 > usize::MAX as u128 {
            usize::MAX
        } else {
            last128 as usize
        };
        if first != self.first_line || last != self.last_line {
            self.first_line = first;
            self.last_line = last;
            let params = int_pair_string(first as u64, last as u64);
            core.send_notification("scroll", params.as_str());
            proof {
                assert(int_pair_text(first as int, last as int) == int_pair_text(
                    viewport_spec(old(self)@).0,
                    viewport_spec(old(self)@).1,
                ));
            }
        }
    }

    /// Scroll by a mouse-wheel delta (positive = toward the top), clamp,
    /// and recompute the viewport.
    pub fn mouse_wheel(&mut self, core: &mut Core, delta: i32, _mods: u32)
        ensures
            ({
                let v2 = ViewModel {
                    scroll_offset: constrain_spec(
                        old(self)@.scroll_offset - wheel_half(delta as int),
                        old(self)@.cache.len(),
                    ),
                    ..old(self)@
                };
                &&& final(self)@ == recompute_viewport_model(v2)
                &&& final(core).sent() == recompute_viewport_sent(v2, old(core).sent())
                &&& final(core).next_id_spec() == old(core).next_id_spec()
                &&& final(core).pending_spec() == old(core).pending_spec()
            }),
    {
        let half: u64 = if delta < 0 {
            ((-(delta as i64)) as u64) / 2
        } else {
            (delta as u64) / 2
        };
        let target: i128 = if delta < 0 {
            self.scroll_offset as i128 + half as i128
        } else {
            self.scroll_offset as i128 - half as i128
        };
        self.set_scroll_clamped(target);
        self.update_viewport(core);
    }

    /// Store `target` as the scroll offset, clamped into `[0, max_scroll]`.
    fn set_scroll_clamped(&mut self, target: i128)
        ensures
            final(self)@ == (ViewModel {
                scroll_offset: constrain_spec(target as int, old(self)@.cache.len()),
                ..old(self)@
            }),
    {
        let h = self.line_cache.height();
        let max_scroll: u128 = TOP_PAD as u128 + LINE_SPACE as u128 * (if h == 0 {
            0u128
        } else {
            (h - 1) as u128
        });
        if target <= 0 {
            self.scroll_offset = 0;
        } else {
            let t = target as u128;
            let m = if t > max_scroll {
                max_scroll
            } else {
                t
            };
            self.scroll_offset = if m > u64::MAX as u128 {
                u64::MAX
            } else {
                m as u64
            };
        }
    }

    /// Bring `line` into view: scroll up just enough if it is above the
    /// viewport, or down just enough (keeping `BOTTOM_SLOP` pixels below
    /// it) if it is beneath.
    pub fn scroll_to(&mut self, line: usize)
        ensures
            ({
                let y = TOP_PAD + LINE_SPACE * line;
                let off = old(self)@.scroll_offset;
                let new_off = if y < off {
                    y as int
                } else if y + BOTTOM_SLOP > off + old(self)@.size_h {
                    vstd::math::min(y + BOTTOM_SLOP - old(self)@.size_h, u64::MAX as int)
                } else {
                    off
                };
                final(self)@ == (ViewModel { scroll_offset: new_off, ..old(self)@ })
            }),
    {
        proof {
            assert(line as u128 <= u64::MAX as u128);
        }
        let y: u128 = TOP_PAD as u128 + LINE_SPACE as u128 * (line as u128);
        let off = self.scroll_offset as u128;
        let size_h = self.size_h as u128;
        if y < off {
            self.scroll_offset = y as u64;
        } else if y + BOTTOM_SLOP as u128 > off + size_h {
            let target = y + BOTTOM_SLOP as u128 - size_h;
            self.scroll_offset = if target > u64::MAX as u128 {
                u64::MAX
            } else {
                target as u64
            };
        }
    }

    /// Send one editing command with params for this view, wrapped in an
    /// `edit` notification.
    fn send_edit_cmd(&self, core: &mut Core, cmd: &str, params_json: &str)
        ensures
            final(core).sent() == old(core).sent().push(
                edit_notification_text(cmd@, params_json@, self@.view_id),
            ),
            final(core).next_id_spec() == old(core).next_id_spec(),
            final(core).pending_spec() == old(core).pending_spec(),
    {
        let edit_params = edit_params_string(cmd, params_json, self.view_id.as_str());
        core.send_notification("edit", edit_params.as_str());
    }

    /// Send a simple editing command with no parameters.
    fn send_action(&self, core: &mut Core, cmd: &str)
        ensures
            final(core).sent() == old(core).sent().push(
                action_notification_text(cmd@, self@.view_id),
            ),
            final(core).next_id_spec() == old(core).next_id_spec(),
            final(core).pending_spec() == old(core).pending_spec(),
    {
        self.send_edit_cmd(core, cmd, "[]");
    }

    /// Insert the character with scalar value `ch`, unless it is a control
    /// character or no character at all.
    pub fn char(&self, core: &mut Core, ch: u32, _mods: u32)
        ensures
            final(core).next_id_spec() == old(core).next_id_spec(),
            final(core).pending_spec() == old(core).pending_spec(),
            final(core).sent() == (if ch >= 0x20 && vstd::utf8::is_scalar(ch) {
                old(core).sent().push(
                    edit_notification_text(
                        ("insert")@,
                        chars_params_text(seq![ch as char]),
                        self@.view_id,
                    ),
                )
            } else {
                old(core).sent()
            }),
    {
        if ch >= 0x20 {
            if let Some(c) = char::from_u32(ch) {
                proof {
                    vstd::utf8::char_u32_cast(c, ch);
                }
                let s = crate::protocol::char_to_string(c);
                let params = chars_params_string(s.as_str());
                self.send_edit_cmd(core, "insert", params.as_str());
            }
        }
    }

    /// Place the caret at a line and column (a single left click).
    pub fn point_select(&self, core: &mut Core, line: u64, col: u64)
        ensures
            final(core).sent() == old(core).sent().push(
                edit_notification_text(
                    ("gesture")@,
                    point_select_params_text(line as int, col as int),
                    self@.view_id,
                ),
            ),
            final(core).next_id_spec() == old(core).next_id_spec(),
            final(core).pending_spec() == old(core).pending_spec(),
    {
        let params = point_select_params_string(line, col);
        self.send_edit_cmd(core, "gesture", params.as_str());
    }

    /// Handle a key-down event: either the Ctrl-arrow scroll gesture, or
    /// one editing command from the fixed table, or nothing. Returns
    /// whether the key was consumed.
    pub fn keydown(&mut self, core: &mut Core, vk_code: i32, mods: u32) -> (handled: bool)
        ensures
            handled == key_handled(vk_code as int, mods),
            final(core).next_id_spec() == old(core).next_id_spec(),
            final(core).pending_spec() == old(core).pending_spec(),
            key_command(vk_code as int, mods) matches Some(cmd) ==> {
                &&& final(self)@ == old(self)@
                &&& final(core).sent() == old(core).sent().push(
                    action_notification_text(cmd, old(self)@.view_id),
                )
            },
            key_scrolls(vk_code as int, mods) ==> ({
                let v2 = ViewModel {
                    scroll_offset: constrain_spec(
                        old(self)@.scroll_offset + (if vk_code == VK_UP {
                            -(LINE_SPACE as int)
                        } else {
                            LINE_SPACE as int
                        }),
                        old(self)@.cache.len(),
                    ),
                    ..old(self)@
                };
                &&& final(self)@ == recompute_viewport_model(v2)
                &&& final(core).sent() == recompute_viewport_sent(v2, old(core).sent())
            }),
            !key_handled(vk_code as int, mods) ==> final(self)@ == old(self)@ && final(core).sent()
                == old(core).sent(),
    {
        if vk_code == VK_RETURN {
            self.send_action(core, "insert_newline");
            true
        } else if vk_code == VK_TAB {
            self.send_action(core, "insert_tab");
            true
        } else if vk_code == VK_UP {
            if mods == M_CTRL {
                let target = self.scroll_offset as i128 - LINE_SPACE as i128;
                self.set_scroll_clamped(target);
                self.update_viewport(core);
            } else if mods == M_CTRL | M_ALT {
                self.send_action(core, "add_selection_above");
            } else if mods & M_SHIFT != 0 {
                self.send_action(core, "move_up_and_modify_selection");
            } else {
                self.send_action(core, "move_up");
            }
            true
        } else if vk_code == VK_DOWN {
            if mods == M_CTRL {
                let target = self.scroll_offset as i128 + LINE_SPACE as i128;
                self.set_scroll_clamped(target);
                self.update_viewport(core);
            } else if mods == M_CTRL | M_ALT {
                self.send_action(core, "add_selection_below");
            } else if mods & M_SHIFT != 0 {
                self.send_action(core, "move_down_and_modify_selection");
            } else {
                self.send_action(core, "move_down");
            }
            true
        } else if vk_code == VK_LEFT {
            if mods & (M_ALT | M_CTRL) != 0 {
                if mods & M_SHIFT != 0 {
                    self.send_action(core, "move_word_left_and_modify_selection");
                } else {
                    self.send_action(core, "move_word_left");
                }
            } else {
                if mods & M_SHIFT != 0 {
                    self.send_action(core, "move_left_and_modify_selection");
                } else {
                    self.send_action(core, "move_left");
                }
            }
            true
        } else if vk_code == VK_RIGHT {
            if mods & (M_ALT | M_CTRL) != 0 {
                if mods & M_SHIFT != 0 {
                    self.send_action(core, "move_word_right_and_modify_selection");
                } else {
                    self.send_action(core, "move_word_right");
                }
            } else {
                if mods & M_SHIFT != 0 {
                    self.send_action(core, "move_right_and_modify_selection");
                } else {
                    self.send_action(core, "move_right");
                }
            }
            true
        } else if vk_code == VK_PRIOR {
            if mods & M_SHIFT != 0 {
                self.send_action(core, "page_up_and_modify_selection");
            } else {
                self.send_action(core, "scroll_page_up");
            }
            true
        } else if vk_code == VK_NEXT {
            if mods & M_SHIFT != 0 {
                self.send_action(core, "page_down_and_modify_selection");
            } else {
                self.send_action(core, "scroll_page_down");
            }
            true
        } else if vk_code == VK_HOME {
            if mods & M_CTRL != 0 {
                if mods & M_SHIFT != 0 {
                    self.send_action(core, "move_to_beginning_of_document_and_modify_selection");
                } else {
                    self.send_action(core, "move_to_beginning_of_document");
                }
            } else {
                if mods & M_SHIFT != 0 {
                    self.send_action(core, "move_to_left_end_of_line_and_modify_selection");
                } else {
                    self.send_action(core, "move_to_left_end_of_line");
                }
            }
            true
        } else if vk_code == VK_END {
            if mods & M_CTRL != 0 {
                if mods & M_SHIFT != 0 {
                    self.send_action(core, "move_to_end_of_document_and_modify_selection");
                } else {
                    self.send_action(core, "move_to_end_of_document");
                }
            } else {
                if mods & M_SHIFT != 0 {
                    self.send_action(core, "move_to_right_end_of_line_and_modify_selection");
                } else {
                    self.send_action(core, "move_to_right_end_of_line");
                }
            }
            true
        } else if vk_code == VK_ESCAPE {
            self.send_action(core, "cancel_operation");
            true
        } else if vk_code == VK_BACK {
            if mods & M_CTRL != 0 {
                if mods & M_SHIFT != 0 {
                    self.send_action(core, "delete_to_beginning_of_line");
                } else {
                    self.send_action(core, "delete_word_backward");
                }
            } else {
                self.send_action(core, "delete_backward");
            }
            true
        } else if vk_code == VK_DELETE {
            if mods & M_CTRL != 0 {
                if mods & M_SHIFT != 0 {
                    self.send_action(core, "delete_to_end_of_paragraph");
                } else {
                    self.send_action(core, "delete_word_forward");
                }
            } else {
                self.send_action(core, "delete_forward");
            }
            true
        } else if vk_code == VK_OEM_4 {
            if mods == M_CTRL {
                self.send_action(core, "outdent");
                true
            } else {
                false
            }
        } else if vk_code == VK_OEM_6 {
            if mods == M_CTRL {
                self.send_action(core, "indent");
                true
            } else {
                false
            }
        } else {
            false
        }
    }

    pub fn add_cursor_above(&self, core: &mut Core)
        ensures
            final(core).sent() == old(core).sent().push(
                action_notification_text(("add_selection_above")@, self@.view_id),
            ),
            final(core).next_id_spec() == old(core).next_id_spec(),
            final(core).pending_spec() == old(core).pending_spec(),
    {
        self.send_action(core, "add_selection_above");
    }

    pub fn add_cursor_below(&self, core: &mut Core)
        ensures
            final(core).sent() == old(core).sent().push(
                action_notification_text(("add_selection_below")@, self@.view_id),
            ),
            final(core).next_id_spec() == old(core).next_id_spec(),
            final(core).pending_spec() == old(core).pending_spec(),
    {
        self.send_action(core, "add_selection_below");
    }

    pub fn single_selection(&self, core: &mut Core)
        ensures
            final(core).sent() == old(core).sent().push(
                action_notification_text(("cancel_operation")@, self@.view_id),
            ),
            final(core).next_id_spec() == old(core).next_id_spec(),
            final(core).pending_spec() == old(core).pending_spec(),
    {
        self.send_action(core, "cancel_operation");
    }

    pub fn select_all(&self, core: &mut Core)
        ensures
            final(core).sent() == old(core).sent().push(
                action_notification_text(("select_all")@, self@.view_id),
            ),
            final(core).next_id_spec() == old(core).next_id_spec(),
            final(core).pending_spec() == old(core).pending_spec(),
    {
        self.send_action(core, "select_all");
    }

    /// Dispatch one command from the shell or the message router.
    pub fn poke(&mut self, core: &mut Core, cmd: EditViewCommands) -> (handled: bool)
        ensures
            handled,
            final(core).next_id_spec() == old(core).next_id_spec(),
            final(core).pending_spec() == old(core).pending_spec(),
            match cmd {
                EditViewCommands::ViewId(id) => final(self)@ == (ViewModel {
                    view_id: id@,
                    ..old(self)@
                }) && final(core).sent() == old(core).sent(),
                EditViewCommands::ApplyUpdate(update) => final(self)@ == (ViewModel {
                    cache: apply_ops(old(self)@.cache, update.ops@),
                    scroll_offset: constrain_spec(
                        old(self)@.scroll_offset,
                        apply_ops(old(self)@.cache, update.ops@).len(),
                    ),
                    ..old(self)@
                }) && final(core).sent() == old(core).sent(),
                EditViewCommands::ScrollTo(line) => ({
                    let y = TOP_PAD + LINE_SPACE * line;
                    let off = old(self)@.scroll_offset;
                    let new_off = if y < off {
                        y as int
                    } else if y + BOTTOM_SLOP > off + old(self)@.size_h {
                        vstd::math::min(y + BOTTOM_SLOP - old(self)@.size_h, u64::MAX as int)
                    } else {
                        off
                    };
                    final(self)@ == (ViewModel { scroll_offset: new_off, ..old(self)@ })
                        && final(core).sent() == old(core).sent()
                }),
                EditViewCommands::Undo => final(self)@ == old(self)@ && final(core).sent() == old(core).sent().push(action_notification_text(("undo")@, old(self)@.view_id)),
                EditViewCommands::Redo => final(self)@ == old(self)@ && final(core).sent() == old(core).sent().push(action_notification_text(("redo")@, old(self)@.view_id)),
                EditViewCommands::UpperCase => final(self)@ == old(self)@ && final(core).sent()
                    == old(core).sent().push(
                    action_notification_text(("uppercase")@, old(self)@.view_id),
                ),
                EditViewCommands::LowerCase => final(self)@ == old(self)@ && final(core).sent()
                    == old(core).sent().push(
                    action_notification_text(("lowercase")@, old(self)@.view_id),
                ),
                EditViewCommands::Transpose => final(self)@ == old(self)@ && final(core).sent()
                    == old(core).sent().push(
                    action_notification_text(("transpose")@, old(self)@.view_id),
                ),
                EditViewCommands::AddCursorAbove => final(self)@ == old(self)@ && final(core).sent() == old(core).sent().push(
                    action_notification_text(("add_selection_above")@, old(self)@.view_id),
                ),
                EditViewCommands::AddCursorBelow => final(self)@ == old(self)@ && final(core).sent() == old(core).sent().push(
                    action_notification_text(("add_selection_below")@, old(self)@.view_id),
                ),
                EditViewCommands::SingleSelection => final(self)@ == old(self)@ && final(core).sent() == old(core).sent().push(
                    action_notification_text(("cancel_operation")@, old(self)@.view_id),
                ),
                EditViewCommands::SelectAll => final(self)@ == old(self)@ && final(core).sent()
                    == old(core).sent().push(
                    action_notification_text(("select_all")@, old(self)@.view_id),
                ),
            },
    {
        match cmd {
            EditViewCommands::ViewId(id) => {
                self.view_id = id;
            }
            EditViewCommands::ApplyUpdate(update) => {
                self.apply_update(update);
            }
            EditViewCommands::ScrollTo(line) => {
                self.scroll_to(line);
            }
            EditViewCommands::Undo => {
                self.send_action(core, "undo");
            }
            EditViewCommands::Redo => {
                self.send_action(core, "redo");
            }
            EditViewCommands::UpperCase => {
                self.send_action(core, "uppercase");
            }
            EditViewCommands::LowerCase => {
                self.send_action(core, "lowercase");
            }
            EditViewCommands::Transpose => {
                self.send_action(core, "transpose");
            }
            EditViewCommands::AddCursorAbove => {
                self.send_action(core, "add_selection_above");
            }
            EditViewCommands::AddCursorBelow => {
                self.send_action(core, "add_selection_below");
            }
            EditViewCommands::SingleSelection => {
                self.send_action(core, "cancel_operation");
            }
            EditViewCommands::SelectAll => {
                self.send_action(core, "select_all");
            }
        }
        true
    }
}

} // verus!
