//! State and behavior for one editor view: the line cache, the scroll
//! geometry that maps screen pixels to document lines, and the input
//! handlers that turn key, mouse and menu events into engine commands.

use vstd::prelude::*;

use crate::commands::{bumped, CommandSink, CommandView, Params, ParamsView};
use crate::keymap::{
    key_action, s, KeyAction, M_ALT, M_CTRL, VK_BACK, VK_DELETE, VK_DOWN, VK_END, VK_ESCAPE,
    VK_HOME, VK_LEFT, VK_NEXT, VK_OEM_4, VK_OEM_6, VK_PRIOR, VK_RETURN, VK_RIGHT, VK_TAB, VK_UP,
};
use crate::linecache::{apply_patch, Line, LineCache, LineView, Patch, PatchError};

verus! {

/// Pixels of padding above line 0 in content space.
pub const TOP_PAD: u64 = 6;

/// Per-line advance in pixels.
pub const LINE_SPACE: u64 = 17;

/// When scrolling a line into view from below, how many pixels of the
/// window's bottom edge the line's top is kept above.
pub const BOTTOM_SLOP: u64 = 20;

/// Content-space y of the top of line `line`.
pub open spec fn content_y_spec(line: int) -> int {
    TOP_PAD + LINE_SPACE * line
}

/// The largest legal scroll offset for a document of `height` lines.
pub open spec fn max_scroll_spec(height: int) -> int {
    TOP_PAD + LINE_SPACE * (if height <= 1 {
        0
    } else {
        height - 1
    })
}

/// The largest scroll offset the view can hold: the legal maximum, capped
/// at what the machine can represent.
pub open spec fn max_scroll_repr(height: int) -> int {
    if max_scroll_spec(height) > u64::MAX {
        u64::MAX as int
    } else {
        max_scroll_spec(height)
    }
}

/// Content-space y of the top of line `line`, capped at what the machine
/// can represent.
pub open spec fn content_y_repr(line: int) -> int {
    if content_y_spec(line) > u64::MAX {
        u64::MAX as int
    } else {
        content_y_spec(line)
    }
}

/// Where scrolling `line` into view puts the scroll offset, before
/// clamping: up to the line's top `y` when it lies above, down to
/// `y - (height_px - BOTTOM_SLOP)` when it lies below, unchanged when the
/// line is already in view.
pub open spec fn scroll_to_target(scroll: int, y: int, height_px: int) -> int {
    if y < scroll {
        y
    } else if y + BOTTOM_SLOP > scroll + height_px {
        y + BOTTOM_SLOP - height_px
    } else {
        scroll
    }
}

/// A scroll offset clamped to the legal range for `height` lines.
pub open spec fn clamp_scroll_spec(y: int, height: int) -> int {
    if y < 0 {
        0
    } else if y > max_scroll_repr(height) {
        max_scroll_repr(height)
    } else {
        y
    }
}

/// The document line under screen-space pixel `y`: the content-space line
/// index, clamped to `[0, height]`.
pub open spec fn y_to_line_spec(y: int, scroll: int, height: int) -> int {
    let raw = if y + scroll < TOP_PAD {
        0
    } else {
        (y + scroll - TOP_PAD) / (LINE_SPACE as int)
    };
    if raw > height {
        height
    } else {
        raw
    }
}

/// The first line of the viewport.
pub open spec fn visible_first(scroll: int, height: int) -> int {
    y_to_line_spec(0, scroll, height)
}

/// One past the last line the viewport wishes to see. Not clamped to the
/// document's height: it is a prefetch hint, capped only by the machine.
pub open spec fn visible_last(scroll: int, height: int, height_px: int) -> int {
    let last = visible_first(scroll, height) + height_px / (LINE_SPACE as int) + 1;
    if last > usize::MAX {
        usize::MAX as int
    } else {
        last
    }
}

/// The mathematical state of an [`EditView`].
pub ghost struct ViewModel {
    pub view_id: Seq<char>,
    pub filename: Option<Seq<char>>,
    pub cache: Seq<Option<LineView>>,
    pub scroll: int,
    pub width: int,
    pub height_px: int,
    pub vp_first: int,
    pub vp_last: int,
}

/// The viewport the state wishes to see.
pub open spec fn viewport_of(v: ViewModel) -> (int, int) {
    (visible_first(v.scroll, v.cache.len() as int),
     visible_last(v.scroll, v.cache.len() as int, v.height_px))
}

/// The state after remembering the viewport it wishes to see.
pub open spec fn notified_view(v: ViewModel) -> ViewModel {
    ViewModel { vp_first: viewport_of(v).0, vp_last: viewport_of(v).1, ..v }
}

/// The commands a viewport check emits: one `scroll` command when the
/// wished-for viewport differs from the remembered one, none otherwise.
pub open spec fn notify_cmds(v: ViewModel) -> Seq<CommandView> {
    let (f, l) = viewport_of(v);
    if f == v.vp_first && l == v.vp_last {
        Seq::empty()
    } else {
        seq![CommandView { method: "scroll"@, params: ParamsView::Pair(f, l), view_id: v.view_id }]
    }
}

/// A command with no parameters, addressed to a view.
pub open spec fn action_cmd(method: Seq<char>, view_id: Seq<char>) -> CommandView {
    CommandView { method, params: ParamsView::Empty, view_id }
}

/// The command that inserts one character.
pub open spec fn insert_cmd(c: char, view_id: Seq<char>) -> CommandView {
    CommandView { method: "insert"@, params: ParamsView::Chars(seq![c]), view_id }
}

/// Whether `ch` is a Unicode scalar value: not a surrogate, and at most
/// the largest code point.
pub open spec fn is_unicode_scalar(ch: u32) -> bool {
    ch < 0xD800 || (0xE000 <= ch && ch <= 0x10FFFF)
}

/// How many pixels one wheel notch of `delta` scrolls the view up:
/// half the delta, rounded toward zero.
pub open spec fn wheel_px(delta: int) -> int {
    if delta >= 0 {
        delta / 2
    } else {
        -((-delta) / 2)
    }
}

/// Relies on char::from_u32: the result is the character with that value,
/// and there is one exactly when the value is a Unicode scalar (not a
/// surrogate, at most 0x10FFFF).
#[verifier::external_body]
fn char_from_u32(ch: u32) -> (r: Option<char>)
    ensures
        r matches Some(c) ==> c as u32 == ch,
        r is Some <==> is_unicode_scalar(ch),
{
    char::from_u32(ch)
}

/// Relies on ToString for char: the string holds exactly that character.
#[verifier::external_body]
fn char_to_string(c: char) -> (r: String)
    ensures
        r@ == seq![c],
{
    c.to_string()
}

/// State and behavior for one editor view.
pub struct EditView {
    pub view_id: String,
    pub filename: Option<String>,
    line_cache: LineCache,
    scroll_offset: u64,
    size: (u32, u32),
    viewport_start: usize,
    viewport_end: usize,
}

impl View for EditView {
    type V = ViewModel;

    closed spec fn view(&self) -> ViewModel {
        ViewModel {
            view_id: self.view_id@,
            filename: match self.filename {
                Some(ref f) => Some(f@),
                None => None,
            },
            cache: self.line_cache@,
            scroll: self.scroll_offset as int,
            width: self.size.0 as int,
            height_px: self.size.1 as int,
            vp_first: self.viewport_start as int,
            vp_last: self.viewport_end as int,
        }
    }
}

impl EditView {
    /// The scroll offset never leaves the legal range for the current
    /// document height.
    pub open spec fn wf(&self) -> bool {
        0 <= self@.scroll <= max_scroll_repr(self@.cache.len() as int)
    }

    /// A fresh view: empty cache, zero size, scroll at the top.
    pub fn new() -> (r: EditView)
        ensures
            r.wf(),
            r@.view_id == Seq::<char>::empty(),
            r@.filename is None,
            r@.cache == Seq::<Option<LineView>>::empty(),
            r@.scroll == 0,
            r@.width == 0,
            r@.height_px == 0,
            r@.vp_first == 0,
            r@.vp_last == 0,
    {
        EditView {
            view_id: String::new(),
            filename: None,
            line_cache: LineCache::new(),
            scroll_offset: 0,
            size: (0, 0),
            viewport_start: 0,
            viewport_end: 0,
        }
    }

    /// The engine-assigned identity of this view.
    pub fn set_view_id(&mut self, view_id: &str)
        ensures
            final(self)@ == (ViewModel { view_id: view_id@, ..old(self)@ }),
            old(self).wf() ==> final(self).wf(),
    {
        self.view_id = view_id.to_owned();
    }

    /// The current scroll offset in pixels.
    pub fn scroll_offset(&self) -> (r: u64)
        ensures
            r == self@.scroll,
    {
        self.scroll_offset
    }

    /// The total line count of the document.
    pub fn height(&self) -> (r: usize)
        ensures
            r == self@.cache.len(),
    {
        self.line_cache.height()
    }

    /// The slot at line `n` of the cache.
    pub fn get_line(&self, n: usize) -> (r: Option<&Line>)
        ensures
            match r {
                Some(line) => n < self@.cache.len() && self@.cache[n as int] == Some(line@),
                None => n >= self@.cache.len() || self@.cache[n as int] is None,
            },
    {
        self.line_cache.get_line(n)
    }

    /// The largest legal scroll offset for the current document, capped at
    /// what the machine can represent.
    fn max_scroll(&self) -> (r: u64)
        ensures
            r == max_scroll_repr(self@.cache.len() as int),
    {
        let height = self.line_cache.height();
        let h: u64 = if height <= 1 {
            0
        } else {
            (height - 1) as u64
        };
        let bound: u64 = (u64::MAX - TOP_PAD) / LINE_SPACE;
        proof {
            assert(bound as int == (u64::MAX - TOP_PAD) as int / 17);
        }
        if h > bound {
            proof {
                assert(17 * (h as int) > u64::MAX - TOP_PAD) by (nonlinear_arith)
                    requires
                        h as int > (u64::MAX - TOP_PAD) as int / 17,
                ;
            }
            u64::MAX
        } else {
            proof {
                assert(17 * (h as int) <= u64::MAX - TOP_PAD) by (nonlinear_arith)
                    requires
                        0 <= h as int <= (u64::MAX - TOP_PAD) as int / 17,
                ;
            }
            TOP_PAD + LINE_SPACE * h
        }
    }

    /// The document line under screen-space pixel `y`. At most the
    /// document's height, even for a `y` far below the last line.
    pub fn y_to_line(&self, y: u32) -> (r: usize)
        ensures
            r == y_to_line_spec(y as int, self@.scroll, self@.cache.len() as int),
            r <= self@.cache.len(),
    {
        let height = self.line_cache.height();
        let t: u128 = y as u128 + self.scroll_offset as u128;
        let raw: u128 = if t < TOP_PAD as u128 {
            0
        } else {
            (t - TOP_PAD as u128) / (LINE_SPACE as u128)
        };
        if raw >= height as u128 {
            height
        } else {
            raw as usize
        }
    }

    /// Content-space y of the top of line `line`, capped at what the
    /// machine can represent.
    pub fn line_to_content_y(&self, line: usize) -> (r: u64)
        ensures
            r == content_y_repr(line as int),
    {
        let l: u64 = line as u64;
        let bound: u64 = (u64::MAX - TOP_PAD) / LINE_SPACE;
        if l > bound {
            proof {
                assert(17 * (l as int) > u64::MAX - TOP_PAD) by (nonlinear_arith)
                    requires
                        l as int > (u64::MAX - TOP_PAD) as int / 17,
                ;
            }
            u64::MAX
        } else {
            proof {
                assert(17 * (l as int) <= u64::MAX - TOP_PAD) by (nonlinear_arith)
                    requires
                        0 <= l as int <= (u64::MAX - TOP_PAD) as int / 17,
                ;
            }
            TOP_PAD + LINE_SPACE * l
        }
    }

    /// Set the scroll offset, clamped to the legal range.
    pub fn set_scroll(&mut self, y: u64)
        ensures
            final(self)@ == (ViewModel {
                scroll: clamp_scroll_spec(y as int, old(self)@.cache.len() as int),
                ..old(self)@
            }),
            final(self).wf(),
    {
        self.scroll_offset = y;
        self.constrain_scroll();
    }

    /// Add `delta` pixels to the scroll offset, clamped to the legal range.
    pub fn nudge_scroll(&mut self, delta: i64)
        ensures
            final(self)@ == (ViewModel {
                scroll: clamp_scroll_spec(
                    old(self)@.scroll + delta,
                    old(self)@.cache.len() as int,
                ),
                ..old(self)@
            }),
            final(self).wf(),
    {
        let cur: i128 = self.scroll_offset as i128 + delta as i128;
        self.scroll_offset = if cur <= 0 {
            0
        } else if cur > u64::MAX as i128 {
            u64::MAX
        } else {
            cur as u64
        };
        self.constrain_scroll();
    }

    /// The viewport the view currently wishes to see: `first` is the line
    /// under the window's top edge, `last` is one line beyond the window's
    /// bottom edge. `last` is not clamped to the document's height: it is
    /// the range the view wants rendered and streamed, a prefetch hint.
    pub fn visible_range(&self) -> (r: (usize, usize))
        ensures
            r.0 as int == visible_first(self@.scroll, self@.cache.len() as int),
            r.1 as int == visible_last(self@.scroll, self@.cache.len() as int, self@.height_px),
            r.0 <= self@.cache.len(),
    {
        let first = self.y_to_line(0);
        let extra: usize = ((self.size.1 as u64 / LINE_SPACE) as usize) + 1;
        let last: usize = if first > usize::MAX - extra {
            usize::MAX
        } else {
            first + extra
        };
        (first, last)
    }

    /// Compare the viewport the state wishes to see with the remembered
    /// one; when they differ, remember the new one and tell the engine
    /// with a `scroll(first, last)` command. Redundant checks emit nothing.
    pub fn update_viewport(&mut self, sink: &mut CommandSink)
        ensures
            final(self)@ == notified_view(old(self)@),
            final(sink)@.cmds == old(sink)@.cmds + notify_cmds(old(self)@),
            final(sink)@.invalidations == old(sink)@.invalidations,
            old(self).wf() ==> final(self).wf(),
    {
        let (first, last) = self.visible_range();
        if first != self.viewport_start || last != self.viewport_end {
            self.viewport_start = first;
            self.viewport_end = last;
            sink.send_edit_cmd("scroll", Params::Pair(first, last), self.view_id.as_str());
            proof {
                assert(sink@.cmds =~= old(sink)@.cmds + notify_cmds(old(self)@));
            }
        }
    }

    /// Bring `line` into view: scroll up just enough when it lies above
    /// the window, down just enough (keeping the line's top
    /// `BOTTOM_SLOP` pixels above the bottom edge) when it lies below,
    /// and not at all when it is already visible.
    pub fn scroll_to(&mut self, line: usize)
        ensures
            final(self)@ == (ViewModel {
                scroll: clamp_scroll_spec(
                    scroll_to_target(
                        old(self)@.scroll,
                        content_y_repr(line as int),
                        old(self)@.height_px,
                    ),
                    old(self)@.cache.len() as int,
                ),
                ..old(self)@
            }),
            final(self).wf(),
    {
        let y = self.line_to_content_y(line);
        if y < self.scroll_offset {
            self.scroll_offset = y;
        } else {
            let lhs: u128 = y as u128 + BOTTOM_SLOP as u128;
            let rhs: u128 = self.scroll_offset as u128 + self.size.1 as u128;
            if lhs > rhs {
                let t: u128 = lhs - self.size.1 as u128;
                self.scroll_offset = if t > u64::MAX as u128 {
                    u64::MAX
                } else {
                    t as u64
                };
            }
        }
        self.constrain_scroll();
    }

    /// Record a new pixel size for the view and re-clamp the scroll.
    pub fn size(&mut self, x: u32, y: u32)
        ensures
            final(self)@ == (ViewModel {
                width: x as int,
                height_px: y as int,
                scroll: clamp_scroll_spec(old(self)@.scroll, old(self)@.cache.len() as int),
                ..old(self)@
            }),
            final(self).wf(),
    {
        self.size = (x, y);
        self.constrain_scroll();
    }

    /// Drop every cached line: the cache is empty until the engine sends
    /// new patches. The scroll is re-clamped for the new (zero) height.
    pub fn clear_line_cache(&mut self)
        ensures
            final(self)@ == (ViewModel {
                cache: Seq::<Option<LineView>>::empty(),
                scroll: clamp_scroll_spec(old(self)@.scroll, 0),
                ..old(self)@
            }),
            final(self).wf(),
    {
        self.line_cache = LineCache::new();
        self.constrain_scroll();
    }

    /// Apply an update patch from the engine to the line cache and
    /// re-clamp the scroll for the new height. A malformed patch is
    /// rejected and leaves the cache unchanged.
    pub fn apply_update(&mut self, patch: &Patch) -> (r: Result<(), PatchError>)
        ensures
            final(self).wf(),
            match apply_patch(old(self)@.cache, patch.deep_view()) {
                Ok(s) => r == Ok::<(), PatchError>(()) && final(self)@ == (ViewModel {
                    cache: s,
                    scroll: clamp_scroll_spec(old(self)@.scroll, s.len() as int),
                    ..old(self)@
                }),
                Err(e) => r == Err::<(), PatchError>(e) && final(self)@ == (ViewModel {
                    scroll: clamp_scroll_spec(
                        old(self)@.scroll,
                        old(self)@.cache.len() as int,
                    ),
                    ..old(self)@
                }),
            },
    {
        let r = self.line_cache.apply_update(patch);
        self.constrain_scroll();
        r
    }

    /// Send a simple action with no parameters.
    fn send_action(&self, method: &str, sink: &mut CommandSink)
        ensures
            final(sink)@.cmds == old(sink)@.cmds.push(action_cmd(method@, self@.view_id)),
            final(sink)@.invalidations == old(sink)@.invalidations,
    {
        sink.send_edit_cmd(method, Params::Empty, self.view_id.as_str());
    }

    /// A Unicode scalar typed into the view. Printable characters become
    /// one `insert` command; control characters below U+0020 are dropped
    /// (the key-code path handles them), as is anything that is no scalar.
    pub fn char(&self, ch: u32, _mods: u32, sink: &mut CommandSink)
        ensures
            final(sink)@.invalidations == old(sink)@.invalidations,
            if ch >= 0x20 && is_unicode_scalar(ch) {
                exists|c: char|
                    c as u32 == ch && final(sink)@.cmds == old(sink)@.cmds.push(
                        #[trigger] insert_cmd(c, self@.view_id),
                    )
            } else {
                final(sink)@.cmds == old(sink)@.cmds
            },
    {
        if let Some(c) = char_from_u32(ch) {
            if ch >= 0x20 {
                let chars = char_to_string(c);
                sink.send_edit_cmd("insert", Params::Chars(chars), self.view_id.as_str());
                proof {
                    assert(sink@.cmds == old(sink)@.cmds.push(insert_cmd(c, self@.view_id)));
                }
            }
        }
    }

    /// A key event. Returns whether the event was consumed: `true`
    /// exactly when the dispatch table maps it, either to one engine
    /// command or to a local scroll step (which re-checks the viewport
    /// and requests a repaint).
    pub fn keydown(&mut self, vk_code: i32, mods: u32, sink: &mut CommandSink) -> (r: bool)
        ensures
            r == !(key_action(vk_code, mods) is Unhandled),
            old(self).wf() ==> final(self).wf(),
            match key_action(vk_code, mods) {
                KeyAction::Unhandled => {
                    &&& final(self)@ == old(self)@
                    &&& final(sink)@ == old(sink)@
                },
                KeyAction::Command(m) => {
                    &&& final(self)@ == old(self)@
                    &&& final(sink)@.cmds == old(sink)@.cmds.push(action_cmd(m, old(self)@.view_id))
                    &&& final(sink)@.invalidations == old(sink)@.invalidations
                },
                KeyAction::ScrollBy(d) => ({
                    let v1 = ViewModel {
                        scroll: clamp_scroll_spec(
                            old(self)@.scroll + d,
                            old(self)@.cache.len() as int,
                        ),
                        ..old(self)@
                    };
                    &&& final(self)@ == notified_view(v1)
                    &&& final(sink)@.cmds == old(sink)@.cmds + notify_cmds(v1)
                    &&& final(sink)@.invalidations == bumped(old(sink)@.invalidations)
                }),
            },
    {
        if vk_code == VK_RETURN {
            self.send_action("insert_newline", sink);
        } else if vk_code == VK_TAB {
            self.send_action("insert_tab", sink);
        } else if vk_code == VK_UP {
            if mods == M_CTRL {
                self.nudge_scroll(-(LINE_SPACE as i64));
                self.update_viewport(sink);
                sink.invalidate();
            } else {
                let action = if mods == M_CTRL | M_ALT {
                    "add_selection_above"
                } else {
                    s(mods, "move_up", "move_up_and_modify_selection")
                };
                self.send_action(action, sink);
            }
        } else if vk_code == VK_DOWN {
            if mods == M_CTRL {
                self.nudge_scroll(LINE_SPACE as i64);
                self.update_viewport(sink);
                sink.invalidate();
            } else {
                let action = if mods == M_CTRL | M_ALT {
                    "add_selection_below"
                } else {
                    s(mods, "move_down", "move_down_and_modify_selection")
                };
                self.send_action(action, sink);
            }
        } else if vk_code == VK_LEFT {
            let action = if mods & (M_ALT | M_CTRL) != 0 {
                s(mods, "move_word_left", "move_word_left_and_modify_selection")
            } else {
                s(mods, "move_left", "move_left_and_modify_selection")
            };
            self.send_action(action, sink);
        } else if vk_code == VK_RIGHT {
            let action = if mods & (M_ALT | M_CTRL) != 0 {
                s(mods, "move_word_right", "move_word_right_and_modify_selection")
            } else {
                s(mods, "move_right", "move_right_and_modify_selection")
            };
            self.send_action(action, sink);
        } else if vk_code == VK_PRIOR {
            self.send_action(s(mods, "scroll_page_up", "page_up_and_modify_selection"), sink);
        } else if vk_code == VK_NEXT {
            self.send_action(s(mods, "scroll_page_down", "page_down_and_modify_selection"), sink);
        } else if vk_code == VK_HOME {
            let action = if mods & M_CTRL != 0 {
                s(
                    mods,
                    "move_to_beginning_of_document",
                    "move_to_beginning_of_document_and_modify_selection",
                )
            } else {
                s(
                    mods,
                    "move_to_left_end_of_line",
                    "move_to_left_end_of_line_and_modify_selection",
                )
            };
            self.send_action(action, sink);
        } else if vk_code == VK_END {
            let action = if mods & M_CTRL != 0 {
                s(
                    mods,
                    "move_to_end_of_document",
                    "move_to_end_of_document_and_modify_selection",
                )
            } else {
                s(
                    mods,
                    "move_to_right_end_of_line",
                    "move_to_right_end_of_line_and_modify_selection",
                )
            };
            self.send_action(action, sink);
        } else if vk_code == VK_ESCAPE {
            self.send_action("cancel_operation", sink);
        } else if vk_code == VK_BACK {
            let action = if mods & M_CTRL != 0 {
                s(mods, "delete_word_backward", "delete_to_beginning_of_line")
            } else {
                "delete_backward"
            };
            self.send_action(action, sink);
        } else if vk_code == VK_DELETE {
            let action = if mods & M_CTRL != 0 {
                s(mods, "delete_word_forward", "delete_to_end_of_paragraph")
            } else {
                "delete_forward"
            };
            self.send_action(action, sink);
        } else if vk_code == VK_OEM_4 {
            if mods == M_CTRL {
                self.send_action("outdent", sink);
            } else {
                return false;
            }
        } else if vk_code == VK_OEM_6 {
            if mods == M_CTRL {
                self.send_action("indent", sink);
            } else {
                return false;
            }
        } else {
            return false;
        }
        true
    }

    /// Menu: undo the last edit.
    pub fn undo(&mut self, sink: &mut CommandSink)
        ensures
            final(self)@ == old(self)@,
            final(sink)@.cmds == old(sink)@.cmds.push(action_cmd("undo"@, old(self)@.view_id)),
            final(sink)@.invalidations == old(sink)@.invalidations,
    {
        self.send_action("undo", sink);
    }

    /// Menu: redo the last undone edit.
    pub fn redo(&mut self, sink: &mut CommandSink)
        ensures
            final(self)@ == old(self)@,
            final(sink)@.cmds == old(sink)@.cmds.push(action_cmd("redo"@, old(self)@.view_id)),
            final(sink)@.invalidations == old(sink)@.invalidations,
    {
        self.send_action("redo", sink);
    }

    /// Menu: make the selection upper case.
    pub fn upper_case(&mut self, sink: &mut CommandSink)
        ensures
            final(self)@ == old(self)@,
            final(sink)@.cmds == old(sink)@.cmds.push(
                action_cmd("uppercase"@, old(self)@.view_id),
            ),
            final(sink)@.invalidations == old(sink)@.invalidations,
    {
        self.send_action("uppercase", sink);
    }

    /// Menu: make the selection lower case.
    pub fn lower_case(&mut self, sink: &mut CommandSink)
        ensures
            final(self)@ == old(self)@,
            final(sink)@.cmds == old(sink)@.cmds.push(
                action_cmd("lowercase"@, old(self)@.view_id),
            ),
            final(sink)@.invalidations == old(sink)@.invalidations,
    {
        self.send_action("lowercase", sink);
    }

    /// Menu: transpose the characters around the caret.
    pub fn transpose(&mut self, sink: &mut CommandSink)
        ensures
            final(self)@ == old(self)@,
            final(sink)@.cmds == old(sink)@.cmds.push(
                action_cmd("transpose"@, old(self)@.view_id),
            ),
            final(sink)@.invalidations == old(sink)@.invalidations,
    {
        self.send_action("transpose", sink);
    }

    /// Menu: add a caret on the line above each selection.
    pub fn add_cursor_above(&mut self, sink: &mut CommandSink)
        ensures
            final(self)@ == old(self)@,
            final(sink)@.cmds == old(sink)@.cmds.push(
                action_cmd("add_selection_above"@, old(self)@.view_id),
            ),
            final(sink)@.invalidations == old(sink)@.invalidations,
    {
        self.send_action("add_selection_above", sink);
    }

    /// Menu: add a caret on the line below each selection.
    pub fn add_cursor_below(&mut self, sink: &mut CommandSink)
        ensures
            final(self)@ == old(self)@,
            final(sink)@.cmds == old(sink)@.cmds.push(
                action_cmd("add_selection_below"@, old(self)@.view_id),
            ),
            final(sink)@.invalidations == old(sink)@.invalidations,
    {
        self.send_action("add_selection_below", sink);
    }

    /// Menu: collapse to a single selection.
    pub fn single_selection(&mut self, sink: &mut CommandSink)
        ensures
            final(self)@ == old(self)@,
            final(sink)@.cmds == old(sink)@.cmds.push(
                action_cmd("cancel_operation"@, old(self)@.view_id),
            ),
            final(sink)@.invalidations == old(sink)@.invalidations,
    {
        self.send_action("cancel_operation", sink);
    }

    /// Menu: select the whole document.
    pub fn select_all(&mut self, sink: &mut CommandSink)
        ensures
            final(self)@ == old(self)@,
            final(sink)@.cmds == old(sink)@.cmds.push(
                action_cmd("select_all"@, old(self)@.view_id),
            ),
            final(sink)@.invalidations == old(sink)@.invalidations,
    {
        self.send_action("select_all", sink);
    }

    /// A mouse-wheel turn: scroll by half the delta (up for a positive
    /// delta), clamp, re-check the viewport, and request a repaint.
    pub fn mouse_wheel(&mut self, delta: i32, _mods: u32, sink: &mut CommandSink)
        ensures
            final(self).wf(),
            ({
                let v1 = ViewModel {
                    scroll: clamp_scroll_spec(
                        old(self)@.scroll - wheel_px(delta as int),
                        old(self)@.cache.len() as int,
                    ),
                    ..old(self)@
                };
                &&& final(self)@ == notified_view(v1)
                &&& final(sink)@.cmds == old(sink)@.cmds + notify_cmds(v1)
                &&& final(sink)@.invalidations == bumped(old(sink)@.invalidations)
            }),
    {
        if delta >= 0 {
            let step: u64 = (delta as u64) / 2;
            self.nudge_scroll(-(step as i64));
        } else {
            let step: u64 = ((-(delta as i64)) as u64) / 2;
            self.nudge_scroll(step as i64);
        }
        self.update_viewport(sink);
        sink.invalidate();
    }

    /// Clamp the scroll offset to the legal range for the current height.
    fn constrain_scroll(&mut self)
        ensures
            final(self)@ == (ViewModel {
                scroll: clamp_scroll_spec(old(self)@.scroll, old(self)@.cache.len() as int),
                ..old(self)@
            }),
            final(self).wf(),
    {
        let max_scroll = self.max_scroll();
        if self.scroll_offset > max_scroll {
            self.scroll_offset = max_scroll;
        }
    }
}

/// A well-formed view's scroll offset lies in the legal range:
/// `0 <= scroll <= TOP_PAD + LINE_SPACE * max(0, height - 1)`.
pub proof fn lemma_scroll_in_range(v: &EditView)
    requires
        v.wf(),
    ensures
        0 <= v@.scroll <= max_scroll_spec(v@.cache.len() as int),
{
}

/// For every screen-space `y`, the line under it is at most the
/// document's height.
pub proof fn lemma_y_to_line_le_height(y: int, scroll: int, height: int)
    requires
        y >= 0,
        scroll >= 0,
        height >= 0,
    ensures
        0 <= y_to_line_spec(y, scroll, height) <= height,
{
}

/// Checking the viewport is idempotent: right after one check, a second
/// check with no state change in between finds nothing to report, so at
/// most one `scroll` command is emitted for one state.
pub proof fn lemma_update_viewport_idempotent(v: ViewModel)
    ensures
        notify_cmds(notified_view(v)) == Seq::<CommandView>::empty(),
        notified_view(notified_view(v)) == notified_view(v),
{
}

/// Bringing a line into view lands the scroll offset in
/// `[content_y(line) - (height_px - BOTTOM_SLOP), content_y(line)]`,
/// whenever the window is at least `BOTTOM_SLOP` pixels tall and the
/// line's top is a legal scroll offset.
pub proof fn lemma_scroll_to_brackets(scroll: int, line: int, height_px: int, height: int)
    requires
        height_px >= BOTTOM_SLOP,
        0 <= scroll <= max_scroll_repr(height),
        0 <= line,
        content_y_spec(line) <= max_scroll_repr(height),
    ensures
        ({
            let y = content_y_repr(line);
            let landed = clamp_scroll_spec(scroll_to_target(scroll, y, height_px), height);
            content_y_spec(line) - (height_px - BOTTOM_SLOP) <= landed <= content_y_spec(line)
        }),
{
    assert(content_y_spec(line) >= 0) by (nonlinear_arith)
        requires
            line >= 0,
    ;
}

} // verus!
