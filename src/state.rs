//! The navigation stack: one frame per view, the root frame never removed.

use vstd::prelude::*;
use crate::actions::{is_escape, is_first_match, opt_action_view, Action, ActionsModel, TextEvent};
use crate::shortcut::Keystroke;

verus! {

/// One frame of the stack: the text of its query input, the host's handle
/// of its view, and its own action registry.
#[derive(Debug)]
pub struct StateItem {
    pub query: String,
    pub view: u64,
    pub actions: ActionsModel,
}

/// `item` is a frame just made for `view`: empty query, empty registry,
/// popup closed.
pub open spec fn is_fresh_frame(item: StateItem, view: u64) -> bool {
    &&& item.view == view
    &&& item.query@.len() == 0
    &&& item.actions.inner.global@.len() == 0
    &&& item.actions.inner.local@.len() == 0
    &&& !item.actions.inner.show
    &&& item.actions.inner.query@.len() == 0
    &&& item.actions.inner.list@.len() == 0
}

impl StateItem {
    /// A new frame for a view, with its own query input and registry.
    pub fn init(view: u64) -> (r: StateItem)
        ensures
            is_fresh_frame(r, view),
    {
        StateItem { query: String::new(), view, actions: ActionsModel::init() }
    }
}

/// The frames, the root first and the active one last.
#[derive(Debug)]
pub struct State {
    pub stack: Vec<StateItem>,
}

/// The frames after a push.
pub open spec fn pushed(frames: Seq<StateItem>, item: StateItem) -> Seq<StateItem> {
    frames.push(item)
}

/// The frames after a pop: the top one goes unless it is the root.
pub open spec fn popped(frames: Seq<StateItem>) -> Seq<StateItem> {
    if frames.len() > 1 {
        frames.drop_last()
    } else {
        frames
    }
}

/// The frames after a run of operations, each a push of the frame given or,
/// where none is given, a pop.
pub open spec fn run_ops(frames: Seq<StateItem>, ops: Seq<Option<StateItem>>) -> Seq<StateItem>
    decreases ops.len(),
{
    if ops.len() == 0 {
        frames
    } else {
        let before = run_ops(frames, ops.drop_last());
        match ops.last() {
            Some(item) => pushed(before, item),
            None => popped(before),
        }
    }
}

/// No run of pushes and pops leaves the stack without a frame.
pub proof fn stack_never_empty(frames: Seq<StateItem>, ops: Seq<Option<StateItem>>)
    requires
        frames.len() >= 1,
    ensures
        run_ops(frames, ops).len() >= 1,
    decreases ops.len(),
{
    if ops.len() > 0 {
        stack_never_empty(frames, ops.drop_last());
    }
}

/// A pop on the root frame alone changes nothing.
pub proof fn pop_of_root_keeps_stack(frames: Seq<StateItem>)
    requires
        frames.len() == 1,
    ensures
        popped(frames) == frames,
{
}

/// A push followed by a pop gives back the frames as they were, the active
/// one with its query and actions.
pub proof fn push_then_pop_restores(frames: Seq<StateItem>, item: StateItem)
    requires
        frames.len() >= 1,
    ensures
        popped(pushed(frames, item)) == frames,
{
    assert(pushed(frames, item).drop_last() =~= frames);
}

/// What the host must do after a frame's query input reported an event.
#[derive(Clone, Copy, Debug, PartialEq, Eq, Structural)]
pub enum Effect {
    Nothing,
    HideWindow,
}

/// The navigation state of a window.
#[derive(Debug)]
pub struct StateModel {
    pub inner: State,
}

impl StateModel {
    pub open spec fn frames(&self) -> Seq<StateItem> {
        self.inner.stack@
    }

    /// The root frame is always there.
    pub open spec fn wf(&self) -> bool {
        self.frames().len() >= 1
    }

    /// A stack that holds the root frame alone.
    pub fn init(root_view: u64) -> (r: StateModel)
        ensures
            r.wf(),
            r.frames().len() == 1,
            is_fresh_frame(r.frames()[0], root_view),
    {
        let item = StateItem::init(root_view);
        let mut stack: Vec<StateItem> = Vec::new();
        stack.push(item);
        StateModel { inner: State { stack } }
    }

    /// Makes a new frame for a view and makes it the active one.
    pub fn push(&mut self, view: u64)
        requires
            old(self).wf(),
        ensures
            final(self).wf(),
            final(self).frames() == pushed(old(self).frames(), final(self).frames().last()),
            is_fresh_frame(final(self).frames().last(), view),
    {
        let item = StateItem::init(view);
        self.inner.stack.push(item);
    }

    /// Removes the active frame unless it is the root.
    pub fn pop(&mut self)
        requires
            old(self).wf(),
        ensures
            final(self).wf(),
            final(self).frames() == popped(old(self).frames()),
    {
        if self.inner.stack.len() > 1 {
            self.inner.stack.pop();
        }
    }

    pub fn len(&self) -> (r: usize)
        ensures
            r == self.frames().len(),
    {
        self.inner.stack.len()
    }

    /// The active frame.
    pub fn active(&self) -> (r: &StateItem)
        requires
            self.wf(),
        ensures
            *r == self.frames().last(),
    {
        let last = self.inner.stack.len() - 1;
        &self.inner.stack[last]
    }

    /// The action of the active frame that a keystroke triggers, looked up
    /// before the keystroke counts as text.
    pub fn check(&self, keystroke: &Keystroke) -> (r: Option<Action>)
        requires
            self.wf(),
        ensures
            is_first_match(
                self.frames().last().actions.inner.combined_view(),
                keystroke@,
                opt_action_view(r),
            ),
    {
        self.active().actions.check(keystroke)
    }

    /// Reacts to an event of the active frame's query input: escape asks the
    /// host to hide the window, going back pops, new text becomes the active
    /// frame's query, and losing focus changes nothing.
    pub fn handle_event(&mut self, event: &TextEvent) -> (r: Effect)
        requires
            old(self).wf(),
        ensures
            final(self).wf(),
            match event {
                TextEvent::Blur => *final(self) == *old(self) && r == Effect::Nothing,
                TextEvent::KeyDown(k) => *final(self) == *old(self) && r == (if is_escape(k@) {
                    Effect::HideWindow
                } else {
                    Effect::Nothing
                }),
                TextEvent::Back => final(self).frames() == popped(old(self).frames()) && r
                    == Effect::Nothing,
                TextEvent::Input(t) => r == Effect::Nothing && final(self).frames().len()
                    == old(self).frames().len() && final(self).frames().drop_last()
                    == old(self).frames().drop_last() && final(self).frames().last().query@ == t@
                    && final(self).frames().last().view == old(self).frames().last().view
                    && final(self).frames().last().actions == old(self).frames().last().actions,
            },
    {
        match event {
            TextEvent::Blur => Effect::Nothing,
            TextEvent::KeyDown(k) => {
                if k.key.eq(&"escape".to_owned()) {
                    Effect::HideWindow
                } else {
                    Effect::Nothing
                }
            },
            TextEvent::Back => {
                self.pop();
                Effect::Nothing
            },
            TextEvent::Input(t) => {
                let last = self.inner.stack.len() - 1;
                self.inner.stack[last].query = t.clone();
                assert(self.frames().drop_last() =~= old(self).frames().drop_last());
                Effect::Nothing
            },
        }
    }
}

} // verus!
