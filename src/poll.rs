//! One poll cycle: which enumerated windows are worth remembering.
use vstd::prelude::*;
use crate::geometry::{Rect, WindowId, WindowSnapshot};
use crate::restore::ids_unique;

verus! {

/// The popup bit of a window's style flags.
pub const POPUP_STYLE: u32 = 0x8000_0000;

/// What the window manager reports of one top-level window.
#[derive(Clone, Copy, Debug, PartialEq, Eq, Structural)]
pub struct EnumeratedWindow {
    pub id: WindowId,
    pub visible: bool,
    /// The window's style flags.
    pub style: u32,
    /// Non-zero when the window is cloaked (exists but is not drawn).
    pub cloaked: u32,
    pub rect: Rect,
}

/// A window that is visible, not a popup and not cloaked.
pub open spec fn is_app_window(w: EnumeratedWindow) -> bool {
    w.visible && w.style & POPUP_STYLE == 0 && w.cloaked == 0
}

pub open spec fn snapshot_of(w: EnumeratedWindow) -> WindowSnapshot {
    WindowSnapshot { id: w.id, rect: w.rect }
}

/// Some snapshot of `s` belongs to window `id`.
pub open spec fn has_id(s: Seq<WindowSnapshot>, id: WindowId) -> bool {
    exists|i: int| 0 <= i < s.len() && #[trigger] s[i].id == id
}

/// The snapshots a poll cycle takes of `ws`: one for each application
/// window, in enumeration order; a window already captured is not taken twice.
pub open spec fn captured(ws: Seq<EnumeratedWindow>) -> Seq<WindowSnapshot>
    decreases ws.len(),
{
    if ws.len() == 0 {
        Seq::empty()
    } else {
        let prev = captured(ws.drop_last());
        let w = ws.last();
        if is_app_window(w) && !has_id(prev, w.id) {
            prev.push(snapshot_of(w))
        } else {
            prev
        }
    }
}

/// A poll cycle never takes two snapshots of one window.
pub proof fn lemma_captured_unique(ws: Seq<EnumeratedWindow>)
    ensures
        ids_unique(captured(ws)),
    decreases ws.len(),
{
    if ws.len() > 0 {
        lemma_captured_unique(ws.drop_last());
        let prev = captured(ws.drop_last());
        let r = captured(ws);
        if is_app_window(ws.last()) && !has_id(prev, ws.last().id) {
            assert forall|i: int, j: int| 0 <= i < j < r.len() implies r[i].id != r[j].id by {
                if j == prev.len() {
                    assert(r[i] == prev[i]);
                } else {
                    assert(r[i] == prev[i] && r[j] == prev[j]);
                }
            }
        }
    }
}

/// Whether window `w` is one that a poll cycle remembers.
pub fn is_app_window_exec(w: &EnumeratedWindow) -> (r: bool)
    ensures
        r == is_app_window(*w),
{
    w.visible && w.style & POPUP_STYLE == 0 && w.cloaked == 0
}

fn has_id_exec(s: &Vec<WindowSnapshot>, id: WindowId) -> (r: bool)
    ensures
        r == has_id(s@, id),
{
    let mut i: usize = 0;
    while i < s.len()
        invariant
            i <= s@.len(),
            forall|j: int| 0 <= j < i ==> #[trigger] s@[j].id != id,
        decreases s@.len() - i,
    {
        if s[i].id == id {
            assert(s@[i as int].id == id);
            return true;
        }
        i += 1;
    }
    false
}

/// Takes the snapshots of one poll cycle from the enumerated windows.
pub fn capture(windows: &Vec<EnumeratedWindow>) -> (r: Vec<WindowSnapshot>)
    ensures
        r@ == captured(windows@),
        ids_unique(r@),
{
    let mut r: Vec<WindowSnapshot> = Vec::new();
    let mut i: usize = 0;
    while i < windows.len()
        invariant
            i <= windows@.len(),
            r@ == captured(windows@.subrange(0, i as int)),
        decreases windows@.len() - i,
    {
        let w = windows[i];
        assert(windows@.subrange(0, i + 1).drop_last() =~= windows@.subrange(0, i as int));
        if is_app_window_exec(&w) && !has_id_exec(&r, w.id) {
            r.push(WindowSnapshot { id: w.id, rect: w.rect });
        }
        i += 1;
    }
    assert(windows@.subrange(0, i as int) =~= windows@);
    proof {
        lemma_captured_unique(windows@);
    }
    r
}

} // verus!
