//! The dialog composite: one content widget wrapped with a border, inner
//! padding, an optional centered title and a row of action buttons under
//! the content.  The dialog implements the widget contract by delegating
//! to its children and adding the decoration, and routes keyboard focus
//! between the content and the buttons.

use vstd::prelude::*;
use vstd::string::StrSliceExecFns;
use crate::button::Button;
use crate::draw::{cmd_views, ChildId, CmdView, DrawCmd};
use crate::event::{Callback, EventResult, Key};
use crate::geom::{
    clamp_len,
    max_usize,
    max_usize_exec,
    sat_add,
    sat_add_usize,
    sat_sub,
    sat_sub_usize,
    Margins,
    Vec2,
};
use crate::request::{DimensionRequest, SizeRequest};
use crate::sized_view::SizedView;
use crate::widget::Widget;

verus! {

/// Which child currently holds keyboard focus.  `Button(i)` is only a
/// legal state while `i` indexes into the button row.
#[derive(Clone, Copy, PartialEq, Eq, Structural, Debug)]
pub enum Focus {
    Content,
    Button(usize),
}

/// Popup-like widget with a main content and optional buttons under it.
pub struct Dialog<C: Widget> {
    pub title: String,
    pub content: C,
    pub buttons: Vec<SizedView<Button>>,
    pub padding: Margins,
    pub borders: Margins,
    pub focus: Focus,
}

/// Minimum size of the button row under `req`, over the buttons'
/// own minimum sizes: each button needs its width plus one separator
/// cell, and the row is one taller than its tallest button, for the
/// blank line that parts it from the content.
pub open spec fn row_min_size_spec(bs: Seq<SizedView<Button>>, req: SizeRequest) -> Vec2
    decreases bs.len(),
{
    if bs.len() == 0 {
        Vec2 { x: 0, y: 0 }
    } else {
        let rest = row_min_size_spec(bs.drop_last(), req);
        let s = bs.last().view.min_size_spec(req);
        Vec2 {
            x: sat_add(rest.x, sat_add(s.x, 1)),
            y: max_usize(rest.y, sat_add(s.y, 1)),
        }
    }
}

/// Minimum size of the button row: horizontal packing with one separator
/// cell per button, one blank row above the tallest button.
pub fn row_min_size(bs: &Vec<SizedView<Button>>, req: SizeRequest) -> (s: Vec2)
    ensures
        s == row_min_size_spec(bs@, req),
{
    let mut size = Vec2 { x: 0, y: 0 };
    let n = bs.len();
    let mut i: usize = 0;
    while i < n
        invariant
            i <= n,
            n == bs@.len(),
            size == row_min_size_spec(bs@.subrange(0, i as int), req),
        decreases n - i,
    {
        let m = bs[i].view.get_min_size(req);
        size = Vec2 {
            x: sat_add_usize(size.x, sat_add_usize(m.x, 1)),
            y: max_usize_exec(size.y, sat_add_usize(m.y, 1)),
        };
        proof {
            let pre = bs@.subrange(0, i as int);
            let cur = bs@.subrange(0, i + 1 as int);
            assert(cur.drop_last() =~= pre);
            assert(cur.last() == bs@[i as int]);
        }
        i = i + 1;
    }
    proof {
        assert(bs@.subrange(0, n as int) =~= bs@);
    }
    size
}

impl<C: Widget> Dialog<C> {
    /// Creates a new dialog with the given content, a one-cell border on
    /// every side and one cell of horizontal padding.
    pub fn new(content: C) -> (d: Dialog<C>)
        ensures
            d.content == content,
            d.buttons@ =~= Seq::<SizedView<Button>>::empty(),
            d.title@ =~= Seq::<char>::empty(),
            d.focus == Focus::Content,
            d.padding == (Margins { left: 1, right: 1, top: 0, bottom: 0 }),
            d.borders == (Margins { left: 1, right: 1, top: 1, bottom: 1 }),
    {
        Dialog {
            content,
            buttons: Vec::new(),
            title: String::new(),
            focus: Focus::Content,
            padding: Margins::new(1, 1, 0, 0),
            borders: Margins::new(1, 1, 1, 1),
        }
    }

    /// Adds a button with the given label and callback to the right end of
    /// the row.  Consumes and returns the dialog for easy chaining.
    pub fn button(self, label: &str, callback: Callback) -> (d: Dialog<C>)
        ensures
            d.buttons@.len() == self.buttons@.len() + 1,
            d.buttons@.drop_last() =~= self.buttons@,
            d.buttons@.last().view.label@ == label@,
            d.buttons@.last().view.callback == callback,
            d.buttons@.last().size == (Vec2 { x: 0, y: 0 }),
            d.title == self.title,
            d.content == self.content,
            d.focus == self.focus,
            d.padding == self.padding,
            d.borders == self.borders,
    {
        let mut d = self;
        d.buttons.push(SizedView::new(Button::new(label, callback)));
        d
    }

    /// Shortcut to add a button that asks the application to dismiss the
    /// dialog's layer.
    pub fn dismiss_button(self, label: &str) -> (d: Dialog<C>)
        ensures
            d.buttons@.len() == self.buttons@.len() + 1,
            d.buttons@.drop_last() =~= self.buttons@,
            d.buttons@.last().view.label@ == label@,
            d.buttons@.last().view.callback == Callback::PopLayer,
            d.buttons@.last().size == (Vec2 { x: 0, y: 0 }),
            d.title == self.title,
            d.content == self.content,
            d.focus == self.focus,
            d.padding == self.padding,
            d.borders == self.borders,
    {
        self.button(label, Callback::PopLayer)
    }

    /// Sets the title.  If not empty, it will be shown centered on the top
    /// border.
    pub fn title(self, label: &str) -> (d: Dialog<C>)
        ensures
            d.title@ == label@,
            d.content == self.content,
            d.buttons == self.buttons,
            d.focus == self.focus,
            d.padding == self.padding,
            d.borders == self.borders,
    {
        let mut d = self;
        d.title = label.to_owned();
        d
    }

    /// The child that currently holds keyboard focus.
    pub fn current_focus(&self) -> (f: Focus)
        ensures
            f == self.focus,
    {
        self.focus
    }

    /// Minimum size of this dialog's button row under `req`.
    pub fn button_row_min_size(&self, req: SizeRequest) -> (s: Vec2)
        ensures
            s == row_min_size_spec(self.buttons@, req),
    {
        row_min_size(&self.buttons, req)
    }

    /// The callback of the button that holds focus, if one does.  The
    /// event loop performs it when its activation key arrives while that
    /// button is focused; this core never runs a callback itself.
    pub fn focused_callback(&self) -> (cb: Option<Callback>)
        requires
            self.wf(),
        ensures
            cb == (match self.focus {
                Focus::Content => None::<Callback>,
                Focus::Button(i) => Some(self.buttons@[i as int].view.callback),
            }),
    {
        match self.focus {
            Focus::Content => None,
            Focus::Button(i) => Some(self.buttons[i].view.callback),
        }
    }

    /// Border and padding together, on both axes.
    pub open spec fn spec_decoration(&self) -> Vec2 {
        self.borders.spec_combined().spec_add(self.padding.spec_combined())
    }

    /// The interior budget once border and padding are taken from `size`.
    pub open spec fn spec_interior(&self, size: Vec2) -> Vec2 {
        size.spec_sub(self.spec_decoration())
    }

    /// The "at most the interior" request that layout offers the children.
    pub open spec fn interior_request(&self, size: Vec2) -> SizeRequest {
        SizeRequest {
            w: DimensionRequest::AtMost(self.spec_interior(size).x),
            h: DimensionRequest::AtMost(self.spec_interior(size).y),
        }
    }

    /// The size layout hands to the content: the interior, less the row of
    /// buttons and the blank line above them.  Buttons are served first;
    /// the content makes do with what is left.
    pub open spec fn content_layout_size(&self, size: Vec2) -> Vec2 {
        self.spec_interior(size).spec_sub(
            Vec2 { x: 0, y: row_min_size_spec(self.buttons@, self.interior_request(size)).y },
        )
    }
}

impl<C: Widget> Widget for Dialog<C> {
    /// A `Button(i)` focus must point into the button row.
    open spec fn wf(&self) -> bool {
        &&& self.content.wf()
        &&& match self.focus {
            Focus::Content => true,
            Focus::Button(i) => i < self.buttons@.len(),
        }
    }

    /// Reduce the request by border and padding for the content, ask the
    /// button row at the unreduced request, stack the two vertically, add
    /// the decoration back, and widen for the title if one is present
    /// (two junction glyph pairs and a space on each side need six cells).
    open spec fn min_size_spec(&self, req: SizeRequest) -> Vec2 {
        let content_req = req.spec_reduced(
            self.padding.spec_combined().spec_add(self.borders.spec_combined()),
        );
        let content_size = self.content.min_size_spec(content_req);
        let buttons_size = row_min_size_spec(self.buttons@, req);
        let inner = Vec2 {
            x: max_usize(content_size.x, buttons_size.x),
            y: sat_add(content_size.y, buttons_size.y),
        }.spec_add(self.padding.spec_combined()).spec_add(self.borders.spec_combined());
        if self.title@.len() > 0 {
            Vec2 { x: max_usize(inner.x, sat_add(clamp_len(self.title@.len()), 6)), y: inner.y }
        } else {
            inner
        }
    }

    /// Every button is laid out at its own minimum size under the interior
    /// request; the content receives the remaining vertical space.
    open spec fn layout_rel(&self, size: Vec2, post: Self) -> bool {
        let req = self.interior_request(size);
        &&& post.buttons@.len() == self.buttons@.len()
        &&& forall|j: int|
            0 <= j < self.buttons@.len() ==> #[trigger] post.buttons@[j] == (SizedView {
                view: self.buttons@[j].view,
                size: self.buttons@[j].view.min_size_spec(req),
            })
        &&& self.content.layout_rel(self.content_layout_size(size), post.content)
        &&& post.title == self.title
        &&& post.focus == self.focus
        &&& post.padding == self.padding
        &&& post.borders == self.borders
    }

    /// The focus-routing state machine.  The focused child sees the key
    /// first; only a key it ignores can move focus.  From the content, a
    /// "move down" goes to the leftmost button.  From button `i`, "move
    /// up" returns to the content if the content accepts focus, "move
    /// right" and "move left" step along the row, bounds permitting;
    /// anything else stays `Ignored` and bubbles to an ancestor.
    open spec fn key_rel(&self, key: Key, post: Self, r: EventResult) -> bool {
        match self.focus {
            Focus::Content => {
                &&& post.buttons@ == self.buttons@
                &&& post.title == self.title
                &&& post.padding == self.padding
                &&& post.borders == self.borders
                &&& if self.buttons@.len() > 0 && key == Key::Down {
                    ||| (self.content.key_rel(key, post.content, EventResult::Ignored)
                        && post.focus == Focus::Button(0usize)
                        && r == EventResult::Consumed(None::<Callback>))
                    ||| (self.content.key_rel(key, post.content, r) && r != EventResult::Ignored
                        && post.focus == self.focus)
                } else {
                    self.content.key_rel(key, post.content, r) && post.focus == self.focus
                }
            },
            Focus::Button(i) => {
                &&& post.buttons@ == self.buttons@
                &&& post.title == self.title
                &&& post.padding == self.padding
                &&& post.borders == self.borders
                &&& match key {
                    Key::Up => {
                        ||| (self.content.focus_rel(post.content, true)
                            && post.focus == Focus::Content
                            && r == EventResult::Consumed(None::<Callback>))
                        ||| (self.content.focus_rel(post.content, false)
                            && post.focus == self.focus
                            && r == EventResult::Ignored)
                    },
                    Key::Right => {
                        &&& post.content == self.content
                        &&& if i + 1 < self.buttons@.len() {
                            post.focus == Focus::Button((i + 1) as usize)
                                && r == EventResult::Consumed(None::<Callback>)
                        } else {
                            post.focus == self.focus && r == EventResult::Ignored
                        }
                    },
                    Key::Left => {
                        &&& post.content == self.content
                        &&& if i > 0 {
                            post.focus == Focus::Button((i - 1) as usize)
                                && r == EventResult::Consumed(None::<Callback>)
                        } else {
                            post.focus == self.focus && r == EventResult::Ignored
                        }
                    },
                    _ => {
                        post.content == self.content && post.focus == self.focus
                            && r == EventResult::Ignored
                    },
                }
            },
        }
    }

    /// Buttons are preferred over content: with at least one button the
    /// dialog always accepts focus, on the leftmost button; otherwise it
    /// adopts `Content` state and answers as the content answers.
    open spec fn focus_rel(&self, post: Self, accepted: bool) -> bool {
        &&& post.buttons@ == self.buttons@
        &&& post.title == self.title
        &&& post.padding == self.padding
        &&& post.borders == self.borders
        &&& if self.buttons@.len() > 0 {
            post.content == self.content && post.focus == Focus::Button(0usize) && accepted
        } else {
            self.content.focus_rel(post.content, accepted) && post.focus == Focus::Content
        }
    }

    /// Buttons first, right to left from the bottom-right inner corner;
    /// then the content in the remaining interior; then the border box
    /// over the whole region; finally the title, centered on the top
    /// border between two junction glyph pairs.
    open spec fn draw_spec(&self, size: Vec2, focused: bool) -> Seq<CmdView> {
        let n = self.buttons@.len() as int;
        let bcmds = Seq::new(n as nat, |t: int| self.button_cmd(size, focused, n - 1 - t));
        let height = row_used_height(self.buttons@, 0);
        let inner = size.spec_sub(Vec2 { x: 0, y: height }).spec_sub(
            self.borders.spec_combined(),
        ).spec_sub(self.padding.spec_combined());
        let ccmd = CmdView::Child {
            id: ChildId::Content,
            offset: self.borders.spec_top_left().spec_add(self.padding.spec_top_left()),
            size: inner,
            focused: focused && self.focus == Focus::Content,
        };
        let base = bcmds.push(ccmd).push(CmdView::Frame { pos: Vec2 { x: 0, y: 0 }, size });
        if self.title@.len() > 0 {
            let tl = clamp_len(self.title@.len());
            let tx = (sat_sub(size.x, tl) / 2) as usize;
            base.push(
                CmdView::Text {
                    pos: Vec2 { x: sat_sub(tx, 2), y: 0 },
                    text: "\u{2524} "@,
                    emphasized: false,
                },
            ).push(
                CmdView::Text {
                    pos: Vec2 { x: sat_add(tx, tl), y: 0 },
                    text: " \u{251c}"@,
                    emphasized: false,
                },
            ).push(CmdView::Text { pos: Vec2 { x: tx, y: 0 }, text: self.title@, emphasized: true })
        } else {
            base
        }
    }

    fn get_min_size(&self, req: SizeRequest) -> (s: Vec2) {
        let content_req = req.reduced(self.padding.combined().saturating_add(self.borders.combined()));
        let content_size = self.content.get_min_size(content_req);
        let buttons_size = row_min_size(&self.buttons, req);
        let inner = Vec2 {
            x: max_usize_exec(content_size.x, buttons_size.x),
            y: sat_add_usize(content_size.y, buttons_size.y),
        }.saturating_add(self.padding.combined()).saturating_add(self.borders.combined());
        let tl = self.title.as_str().unicode_len();
        if tl > 0 {
            Vec2 { x: max_usize_exec(inner.x, sat_add_usize(tl, 6)), y: inner.y }
        } else {
            inner
        }
    }

    fn layout(&mut self, size: Vec2) {
        let interior = size.saturating_sub(self.borders.combined().saturating_add(self.padding.combined()));
        let req = SizeRequest {
            w: DimensionRequest::AtMost(interior.x),
            h: DimensionRequest::AtMost(interior.y),
        };
        let n = self.buttons.len();
        let mut buttons_height: usize = 0;
        let mut j: usize = 0;
        while j < n
            invariant
                j <= n,
                n == self.buttons@.len(),
                n == old(self).buttons@.len(),
                old(self).wf(),
                req == old(self).interior_request(size),
                self.content == old(self).content,
                self.title == old(self).title,
                self.focus == old(self).focus,
                self.padding == old(self).padding,
                self.borders == old(self).borders,
                forall|k: int|
                    0 <= k < j ==> #[trigger] self.buttons@[k] == (SizedView {
                        view: old(self).buttons@[k].view,
                        size: old(self).buttons@[k].view.min_size_spec(req),
                    }),
                forall|k: int| j <= k < n ==> #[trigger] self.buttons@[k] == old(self).buttons@[k],
                buttons_height == row_min_size_spec(old(self).buttons@.subrange(0, j as int), req).y,
            decreases n - j,
        {
            let m = self.buttons[j].get_min_size(req);
            buttons_height = max_usize_exec(buttons_height, sat_add_usize(m.y, 1));
            self.buttons[j].layout(m);
            proof {
                let pre = old(self).buttons@.subrange(0, j as int);
                let cur = old(self).buttons@.subrange(0, j + 1 as int);
                assert(cur.drop_last() =~= pre);
                assert(cur.last() == old(self).buttons@[j as int]);
            }
            j = j + 1;
        }
        proof {
            assert(old(self).buttons@.subrange(0, n as int) =~= old(self).buttons@);
        }
        let csize = interior.saturating_sub(Vec2 { x: 0, y: buttons_height });
        self.content.layout(csize);
    }

    fn on_key_event(&mut self, key: Key) -> (r: EventResult) {
        match self.focus {
            Focus::Content => {
                let rc = self.content.on_key_event(key);
                match rc {
                    EventResult::Ignored => {
                        if self.buttons.len() > 0 {
                            match key {
                                Key::Down => {
                                    // Default to the leftmost button when going down.
                                    self.focus = Focus::Button(0);
                                    EventResult::Consumed(None)
                                },
                                _ => EventResult::Ignored,
                            }
                        } else {
                            EventResult::Ignored
                        }
                    },
                    res => res,
                }
            },
            Focus::Button(i) => {
                let rb = self.buttons[i].on_key_event(key);
                proof {
                    assert(self.buttons@ =~= old(self).buttons@);
                    assert(i < self.buttons@.len());
                }
                let nb = self.buttons.len();
                match rb {
                    EventResult::Ignored => {
                        match key {
                            // Up goes back to the content, if it will have
                            // the focus.
                            Key::Up => {
                                if self.content.take_focus() {
                                    self.focus = Focus::Content;
                                    EventResult::Consumed(None)
                                } else {
                                    EventResult::Ignored
                                }
                            },
                            // Left and right move along the row.
                            Key::Right => {
                                if i + 1 < nb {
                                    self.focus = Focus::Button(i + 1);
                                    EventResult::Consumed(None)
                                } else {
                                    EventResult::Ignored
                                }
                            },
                            Key::Left => {
                                if i > 0 {
                                    self.focus = Focus::Button(i - 1);
                                    EventResult::Consumed(None)
                                } else {
                                    EventResult::Ignored
                                }
                            },
                            _ => EventResult::Ignored,
                        }
                    },
                    res => res,
                }
            },
        }
    }

    fn take_focus(&mut self) -> (accepted: bool) {
        // Buttons first: an explicit, documented policy.
        if self.buttons.len() > 0 {
            self.focus = Focus::Button(0);
            true
        } else {
            self.focus = Focus::Content;
            self.content.take_focus()
        }
    }

    fn draw(&self, size: Vec2, focused: bool) -> (cmds: Vec<DrawCmd>) {
        let mut cmds: Vec<DrawCmd> = Vec::new();
        let n = self.buttons.len();
        let mut x: usize = 0;
        let mut height: usize = 0;
        let mut k: usize = n;
        while k > 0
            invariant
                k <= n,
                n == self.buttons@.len(),
                cmds@.len() == n - k,
                forall|t: int|
                    0 <= t < n - k ==> #[trigger] cmds@[t]@ == self.button_cmd(
                        size,
                        focused,
                        n - 1 - t,
                    ),
                x == row_x_shift(self.buttons@, k - 1),
                height == row_used_height(self.buttons@, k as int),
            decreases k,
        {
            k = k - 1;
            let bsize = self.buttons[k].size;
            let offset = size.saturating_sub(self.borders.bot_right()).saturating_sub(
                self.padding.bot_right(),
            ).saturating_sub(bsize).saturating_sub(Vec2 { x, y: 0 });
            let has_focus = match self.focus {
                Focus::Button(fi) => focused && fi == k,
                _ => false,
            };
            cmds.push(DrawCmd::Child { id: ChildId::Button(k), offset, size: bsize, focused: has_focus });
            // Keep one blank cell between two buttons, and one blank line
            // above the row.
            x = sat_add_usize(x, sat_add_usize(bsize.x, 1));
            height = max_usize_exec(height, sat_add_usize(bsize.y, 1));
        }
        let inner = size.saturating_sub(Vec2 { x: 0, y: height }).saturating_sub(
            self.borders.combined(),
        ).saturating_sub(self.padding.combined());
        let content_focus = match self.focus {
            Focus::Content => focused,
            _ => false,
        };
        cmds.push(
            DrawCmd::Child {
                id: ChildId::Content,
                offset: self.borders.top_left().saturating_add(self.padding.top_left()),
                size: inner,
                focused: content_focus,
            },
        );
        cmds.push(DrawCmd::Frame { pos: Vec2 { x: 0, y: 0 }, size });
        let tl = self.title.as_str().unicode_len();
        if tl > 0 {
            let tx = sat_sub_usize(size.x, tl) / 2;
            cmds.push(
                DrawCmd::Text {
                    pos: Vec2 { x: sat_sub_usize(tx, 2), y: 0 },
                    text: "\u{2524} ".to_owned(),
                    emphasized: false,
                },
            );
            cmds.push(
                DrawCmd::Text {
                    pos: Vec2 { x: sat_add_usize(tx, tl), y: 0 },
                    text: " \u{251c}".to_owned(),
                    emphasized: false,
                },
            );
            cmds.push(
                DrawCmd::Text { pos: Vec2 { x: tx, y: 0 }, text: self.title.clone(), emphasized: true },
            );
        }
        proof {
            assert(cmd_views(cmds@) =~= self.draw_spec(size, focused));
        }
        cmds
    }
}

/// The horizontal shift, from the bottom-right inner corner, accumulated
/// by the buttons drawn before button `i` (those with a larger index):
/// each contributes its cached width plus one separator cell.
pub open spec fn row_x_shift(bs: Seq<SizedView<Button>>, i: int) -> usize
    decreases bs.len() - i,
{
    if i >= bs.len() - 1 {
        0
    } else {
        sat_add(row_x_shift(bs, i + 1), sat_add(bs[i + 1].size.x, 1))
    }
}

/// The vertical room used by the buttons with index at least `i`, as
/// drawn from their cached sizes: the tallest plus the blank line above
/// the row.
pub open spec fn row_used_height(bs: Seq<SizedView<Button>>, i: int) -> usize
    decreases bs.len() - i,
{
    if 0 <= i < bs.len() {
        max_usize(row_used_height(bs, i + 1), sat_add(bs[i].size.y, 1))
    } else {
        0
    }
}

/// The widths of the row's buttons under `req`, with one separator cell
/// each, summed without clamping.
pub open spec fn row_widths_total(bs: Seq<SizedView<Button>>, req: SizeRequest) -> int
    decreases bs.len(),
{
    if bs.len() == 0 {
        0
    } else {
        row_widths_total(bs.drop_last(), req) + bs.last().view.min_size_spec(req).x + 1
    }
}

/// The height of the tallest button of the row under `req` (zero for an
/// empty row).
pub open spec fn row_tallest(bs: Seq<SizedView<Button>>, req: SizeRequest) -> int
    decreases bs.len(),
{
    if bs.len() == 0 {
        0
    } else {
        let rest = row_tallest(bs.drop_last(), req);
        let h = bs.last().view.min_size_spec(req).y as int;
        if rest >= h {
            rest
        } else {
            h
        }
    }
}

/// The button row's minimum width is the sum of each button's minimum
/// width plus one separator cell per button (trailing separator included),
/// and, for a non-empty row, its minimum height is the tallest button's
/// height plus one — as long as neither quantity clamps at the machine
/// limit.
pub proof fn lemma_row_min_size(bs: Seq<SizedView<Button>>, req: SizeRequest)
    requires
        row_widths_total(bs, req) <= usize::MAX,
        row_tallest(bs, req) + 1 <= usize::MAX,
    ensures
        row_min_size_spec(bs, req).x == row_widths_total(bs, req),
        bs.len() > 0 ==> row_min_size_spec(bs, req).y == row_tallest(bs, req) + 1,
    decreases bs.len(),
{
    if bs.len() > 0 {
        let rest = bs.drop_last();
        assert(row_tallest(rest, req) <= row_tallest(bs, req));
        lemma_row_min_size(rest, req);
    }
}

/// Button minimums do not depend on the offered request, so neither does
/// the row's minimum size.
pub proof fn lemma_row_min_request_independent(
    bs: Seq<SizedView<Button>>,
    r1: SizeRequest,
    r2: SizeRequest,
)
    ensures
        row_min_size_spec(bs, r1) == row_min_size_spec(bs, r2),
    decreases bs.len(),
{
    if bs.len() > 0 {
        lemma_row_min_request_independent(bs.drop_last(), r1, r2);
    }
}

/// With no buttons, the dialog's `take_focus` adopts `Content` state and
/// succeeds exactly when the content accepts focus: the answer it gives
/// is the content's own.
pub proof fn lemma_take_focus_without_buttons<C: Widget>(
    d: Dialog<C>,
    post: Dialog<C>,
    accepted: bool,
)
    requires
        d.wf(),
        d.buttons@.len() == 0,
        d.focus_rel(post, accepted),
    ensures
        post.focus == Focus::Content,
        d.content.focus_rel(post.content, accepted),
{
}

/// With at least one button, the dialog's `take_focus` always succeeds
/// and always lands on the leftmost button, whatever the content would
/// have answered.
pub proof fn lemma_take_focus_with_buttons<C: Widget>(
    d: Dialog<C>,
    post: Dialog<C>,
    accepted: bool,
)
    requires
        d.wf(),
        d.buttons@.len() > 0,
        d.focus_rel(post, accepted),
    ensures
        accepted,
        post.focus == Focus::Button(0usize),
{
}

/// Focus-index monotonicity: from `Button(i)`, a "move right" event
/// either steps the index up by exactly one and is consumed, or — when
/// `i` is the last index — leaves the dialog unchanged and bubbles up as
/// `Ignored`.
pub proof fn lemma_move_right_from_button<C: Widget>(
    d: Dialog<C>,
    post: Dialog<C>,
    r: EventResult,
    i: usize,
)
    requires
        d.wf(),
        d.focus == Focus::Button(i),
        d.key_rel(Key::Right, post, r),
    ensures
        i + 1 < d.buttons@.len() ==> post.focus == Focus::Button((i + 1) as usize) && r
            == EventResult::Consumed(None::<Callback>),
        i + 1 >= d.buttons@.len() ==> post.focus == d.focus && post.content == d.content
            && post.buttons@ == d.buttons@ && r == EventResult::Ignored,
{
}

/// Round-trip layout/size consistency: laying the dialog out at exactly
/// the minimum size it reported for an unbounded request forces no child
/// below its own declared minimum — every button receives exactly its
/// minimum, and the content's slice of the interior is at least the
/// minimum the content declared.  Minimums that clamp at the machine
/// limit are left out.
pub proof fn lemma_layout_at_minimum<C: Widget>(d: Dialog<C>, size: Vec2)
    requires
        d.wf(),
        size == d.min_size_spec(
            SizeRequest { w: DimensionRequest::Unlimited, h: DimensionRequest::Unlimited },
        ),
        size.x < usize::MAX,
        size.y < usize::MAX,
    ensures
        d.content_layout_size(size).x >= d.content.min_size_spec(
            SizeRequest { w: DimensionRequest::Unlimited, h: DimensionRequest::Unlimited },
        ).x,
        d.content_layout_size(size).y >= d.content.min_size_spec(
            SizeRequest { w: DimensionRequest::Unlimited, h: DimensionRequest::Unlimited },
        ).y,
        forall|j: int|
            0 <= j < d.buttons@.len() ==> #[trigger] d.buttons@[j].view.min_size_spec(
                d.interior_request(size),
            ) == d.buttons@[j].view.min_size_spec(
                SizeRequest { w: DimensionRequest::Unlimited, h: DimensionRequest::Unlimited },
            ),
{
    let unlimited = SizeRequest { w: DimensionRequest::Unlimited, h: DimensionRequest::Unlimited };
    lemma_row_min_request_independent(d.buttons@, d.interior_request(size), unlimited);
}

impl<C: Widget> Dialog<C> {
    /// The drawing command that places button `i`, right-aligned within
    /// the dialog's footer band.
    pub open spec fn button_cmd(&self, size: Vec2, focused: bool, i: int) -> CmdView {
        let bsize = self.buttons@[i].size;
        let offset = size.spec_sub(self.borders.spec_bot_right()).spec_sub(
            self.padding.spec_bot_right(),
        ).spec_sub(bsize).spec_sub(Vec2 { x: row_x_shift(self.buttons@, i), y: 0 });
        CmdView::Child {
            id: ChildId::Button(i as usize),
            offset,
            size: bsize,
            focused: focused && self.focus == Focus::Button(i as usize),
        }
    }
}

} // verus!
