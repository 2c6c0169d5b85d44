//! Actions and the per-view registry that merges, filters and dispatches them.

use vstd::prelude::*;
use crate::shortcut::{KeyView, Keystroke, Modifiers, Shortcut};

verus! {

/// What an action does when it is invoked.
#[derive(Clone, Copy, Debug, PartialEq, Eq, Structural)]
pub enum Command {
    /// Opens or closes the action popup of the registry that holds the action.
    ToggleActions,
    /// A command that the host runs, named by its identifier.
    Run(u64),
}

/// An action as plain values.
pub struct ActionView {
    pub label: Seq<char>,
    pub shortcut: Option<KeyView>,
    pub image: Seq<char>,
    pub action: Command,
    pub hide: bool,
}

pub open spec fn opt_shortcut_view(s: Option<Shortcut>) -> Option<KeyView> {
    match s {
        Some(t) => Some(t@),
        None => None,
    }
}

/// A labelled command, optionally bound to a shortcut. A hidden action is left
/// out of the visible list but still answers to its shortcut.
#[derive(Debug)]
pub struct Action {
    pub label: String,
    pub shortcut: Option<Shortcut>,
    pub image: String,
    pub action: Command,
    pub hide: bool,
}

impl View for Action {
    type V = ActionView;

    open spec fn view(&self) -> ActionView {
        ActionView {
            label: self.label@,
            shortcut: opt_shortcut_view(self.shortcut),
            image: self.image@,
            action: self.action,
            hide: self.hide,
        }
    }
}

impl Clone for Action {
    fn clone(&self) -> (r: Action)
        ensures
            r == *self,
    {
        let shortcut = match &self.shortcut {
            Some(s) => Some(s.clone()),
            None => None,
        };
        Action {
            label: self.label.clone(),
            shortcut,
            image: self.image.clone(),
            action: self.action,
            hide: self.hide,
        }
    }
}

impl Action {
    pub fn new(image: &str, label: &str, shortcut: Option<Shortcut>, action: Command, hide: bool) -> (r: Action)
        ensures
            r@ == (ActionView {
                label: label@,
                shortcut: opt_shortcut_view(shortcut),
                image: image@,
                action,
                hide,
            }),
    {
        Action { label: label.to_owned(), shortcut, image: image.to_owned(), action, hide }
    }
}

/// The views of a list of actions.
pub open spec fn views(s: Seq<Action>) -> Seq<ActionView> {
    s.map_values(|a: Action| a@)
}

/// The shortcut that the first action of a combined list is bound to.
pub open spec fn enter_key() -> KeyView {
    KeyView { modifiers: Modifiers::none_spec(), key: "enter"@, ime_key: None }
}

/// The action that opens and closes the popup, appended to every non-empty
/// combined list.
pub open spec fn toggle_view() -> ActionView {
    ActionView {
        label: "Actions"@,
        shortcut: Some(KeyView { modifiers: Modifiers::command_spec(), key: "k"@, ime_key: None }),
        image: "book-open"@,
        action: Command::ToggleActions,
        hide: true,
    }
}

/// The local actions followed by the global ones; where that is not empty,
/// the first is bound to enter and the toggle action is appended.
pub open spec fn combined_spec(local: Seq<ActionView>, global: Seq<ActionView>) -> Seq<ActionView> {
    let c = local + global;
    if c.len() == 0 {
        c
    } else {
        c.update(0, ActionView { shortcut: Some(enter_key()), ..c[0] }).push(toggle_view())
    }
}

/// The actions that the popup may show: those not hidden, in order.
pub open spec fn visible_spec(c: Seq<ActionView>) -> Seq<ActionView>
    decreases c.len(),
{
    if c.len() == 0 {
        c
    } else if c.last().hide {
        visible_spec(c.drop_last())
    } else {
        visible_spec(c.drop_last()).push(c.last())
    }
}

/// `r` is what a scan of `c` in order finds for keystroke `k`: the first
/// action bound exactly to `k`, or none where no action is.
pub open spec fn is_first_match(c: Seq<ActionView>, k: KeyView, r: Option<ActionView>) -> bool {
    match r {
        Some(a) => exists|i: int|
            0 <= i < c.len() && c[i] == a && a.shortcut == Some(k) && forall|j: int|
                0 <= j < i ==> c[j].shortcut != Some(k),
        None => forall|j: int| 0 <= j < c.len() ==> c[j].shortcut != Some(k),
    }
}

/// The candidates that a ranking keeps, in the ranking's order; an index past
/// the end of the candidates is passed over.
pub open spec fn ranked_spec(cands: Seq<ActionView>, ranked: Seq<usize>) -> Seq<ActionView>
    decreases ranked.len(),
{
    if ranked.len() == 0 {
        Seq::empty()
    } else {
        let rest = ranked_spec(cands, ranked.drop_last());
        let i = ranked.last() as int;
        if i < cands.len() {
            rest.push(cands[i])
        } else {
            rest
        }
    }
}

fn append_copies(out: &mut Vec<Action>, src: &Vec<Action>)
    ensures
        final(out)@ == old(out)@ + src@,
{
    let ghost start = out@;
    let mut i: usize = 0;
    while i < src.len()
        invariant
            i <= src.len(),
            out@ == start + src@.subrange(0, i as int),
        decreases src.len() - i,
    {
        out.push(src[i].clone());
        i += 1;
        assert(src@.subrange(0, i as int) =~= src@.subrange(0, i - 1).push(src@[i - 1]));
    }
    assert(src@.subrange(0, src.len() as int) =~= src@);
}

fn toggle_action() -> (r: Action)
    ensures
        r@ == toggle_view(),
{
    Action::new("book-open", "Actions", Some(Shortcut::cmd("k")), Command::ToggleActions, true)
}

/// Events of a query input.
#[derive(Debug)]
pub enum TextEvent {
    /// The input lost focus.
    Blur,
    /// A key was pressed in the input.
    KeyDown(Keystroke),
    /// The input asked to go back.
    Back,
    /// The text of the input changed to the one given.
    Input(String),
}

pub open spec fn is_escape(k: KeyView) -> bool {
    k.key == "escape"@
}

/// The action registry of one view: global and local actions, whether the
/// popup is open, its query text and the list that the popup shows.
#[derive(Debug)]
pub struct Actions {
    pub global: Vec<Action>,
    pub local: Vec<Action>,
    pub show: bool,
    pub query: String,
    pub list: Vec<Action>,
}

impl Actions {
    pub open spec fn combined_view(&self) -> Seq<ActionView> {
        combined_spec(views(self.local@), views(self.global@))
    }

    /// The registry with the popup flipped and all else kept.
    pub open spec fn toggled(self) -> Actions {
        Actions { show: !self.show, ..self }
    }

    /// An empty registry with the popup closed.
    pub fn new() -> (r: Actions)
        ensures
            r.global@.len() == 0,
            r.local@.len() == 0,
            !r.show,
            r.query@.len() == 0,
            r.list@.len() == 0,
    {
        Actions {
            global: Vec::new(),
            local: Vec::new(),
            show: false,
            query: String::new(),
            list: Vec::new(),
        }
    }

    /// The combined list, computed afresh.
    pub fn combined(&self) -> (r: Vec<Action>)
        ensures
            views(r@) == self.combined_view(),
    {
        let mut c: Vec<Action> = Vec::new();
        append_copies(&mut c, &self.local);
        append_copies(&mut c, &self.global);
        assert(views(c@) =~= views(self.local@) + views(self.global@));
        if c.len() > 0 {
            c[0].shortcut = Some(Shortcut::simple("enter"));
            c.push(toggle_action());
            assert(views(c@) =~= self.combined_view());
        }
        c
    }

    /// The actions of the combined list that are not hidden: what the fuzzy
    /// ranking is given, each searched by its label.
    pub fn candidates(&self) -> (r: Vec<Action>)
        ensures
            views(r@) == visible_spec(self.combined_view()),
    {
        let c = self.combined();
        let mut out: Vec<Action> = Vec::new();
        let mut i: usize = 0;
        while i < c.len()
            invariant
                i <= c.len(),
                views(c@) == self.combined_view(),
                views(out@) == visible_spec(views(c@).subrange(0, i as int)),
            decreases c.len() - i,
        {
            let ghost before = views(c@).subrange(0, i as int);
            let ghost next = views(c@).subrange(0, i + 1);
            assert(next.drop_last() =~= before);
            assert(next.last() == c@[i as int]@);
            let ghost out0 = out@;
            if !c[i].hide {
                out.push(c[i].clone());
                assert(views(out@) =~= views(out0).push(c@[i as int]@));
            }
            i += 1;
            assert(views(out@) =~= visible_spec(next));
        }
        assert(views(c@).subrange(0, c.len() as int) =~= views(c@));
        out
    }

    /// Replaces the shown list by the candidates that `ranked` keeps, in its
    /// order; `ranked` holds indices into the candidates.
    pub fn list_actions(&mut self, ranked: &Vec<usize>)
        ensures
            views(final(self).list@) == ranked_spec(visible_spec(old(self).combined_view()), ranked@),
            final(self).global == old(self).global,
            final(self).local == old(self).local,
            final(self).show == old(self).show,
            final(self).query == old(self).query,
    {
        let cands = self.candidates();
        let mut out: Vec<Action> = Vec::new();
        let mut j: usize = 0;
        while j < ranked.len()
            invariant
                j <= ranked.len(),
                views(cands@) == visible_spec(self.combined_view()),
                views(out@) == ranked_spec(views(cands@), ranked@.subrange(0, j as int)),
            decreases ranked.len() - j,
        {
            assert(ranked@.subrange(0, j + 1).drop_last() =~= ranked@.subrange(0, j as int));
            let i = ranked[j];
            if i < cands.len() {
                out.push(cands[i].clone());
            }
            j += 1;
            assert(views(out@) =~= ranked_spec(views(cands@), ranked@.subrange(0, j as int)));
        }
        assert(ranked@.subrange(0, ranked.len() as int) =~= ranked@);
        self.list = out;
    }

    /// Shows every candidate, in order: the list before any ranking.
    fn list_all(&mut self)
        ensures
            views(final(self).list@) == visible_spec(old(self).combined_view()),
            final(self).global == old(self).global,
            final(self).local == old(self).local,
            final(self).show == old(self).show,
            final(self).query == old(self).query,
    {
        self.list = self.candidates();
    }

    /// Whether the popup is drawn.
    pub fn popup(&self) -> (r: bool)
        ensures
            r == self.show,
    {
        self.show
    }

    /// What the action bar shows: the primary action and the toggle action,
    /// or nothing where the combined list is empty.
    pub fn render(&self) -> (r: Option<(Action, Action)>)
        ensures
            self.combined_view().len() == 0 <==> r is None,
            r matches Some((p, t)) ==> p@ == self.combined_view()[0] && t@ == toggle_view(),
    {
        let c = self.combined();
        if c.len() > 0 {
            let last = c.len() - 1;
            assert(views(c@)[0] == c@[0]@);
            assert(views(c@)[last as int] == c@[last as int]@);
            assert(views(c@).len() == c@.len());
            assert(self.combined_view()[last as int] == toggle_view());
            let p = c[0].clone();
            let t = c[last].clone();
            Some((p, t))
        } else {
            None
        }
    }

    /// Flips whether the popup is open.
    pub fn toggle(&mut self)
        ensures
            *final(self) == old(self).toggled(),
    {
        self.show = !self.show;
    }

    /// Runs a command: the toggle command flips the popup here; any other is
    /// handed back for the host to run.
    pub fn invoke(&mut self, command: Command) -> (r: Option<u64>)
        ensures
            command == Command::ToggleActions ==> *final(self) == old(self).toggled() && r is None,
            command matches Command::Run(id) ==> *final(self) == *old(self) && r == Some(id),
    {
        match command {
            Command::ToggleActions => {
                self.toggle();
                None
            },
            Command::Run(id) => Some(id),
        }
    }

    /// Reacts to an event of the popup's query input. Losing focus, going
    /// back and escape close the popup; new text is stored and the result
    /// says that the list must be ranked again.
    pub fn handle_event(&mut self, event: &TextEvent) -> (refilter: bool)
        ensures
            final(self).global == old(self).global,
            final(self).local == old(self).local,
            final(self).list == old(self).list,
            refilter == (event is Input),
            match event {
                TextEvent::Blur | TextEvent::Back => !final(self).show && final(self).query == old(self).query,
                TextEvent::KeyDown(k) => final(self).query == old(self).query && final(self).show == (
                    old(self).show && !is_escape(k@)),
                TextEvent::Input(t) => final(self).show == old(self).show && final(self).query@ == t@,
            },
    {
        match event {
            TextEvent::Blur | TextEvent::Back => {
                self.show = false;
                false
            },
            TextEvent::KeyDown(k) => {
                if k.key.eq(&"escape".to_owned()) {
                    self.show = false;
                }
                false
            },
            TextEvent::Input(t) => {
                self.query = t.clone();
                true
            },
        }
    }
}

/// The combined list is empty exactly when both lists are; otherwise the
/// toggle action closes it and the first action answers to enter.
pub proof fn combined_shape(local: Seq<ActionView>, global: Seq<ActionView>)
    ensures
        combined_spec(local, global).len() == 0 <==> local.len() == 0 && global.len() == 0,
        combined_spec(local, global).len() > 0 ==> combined_spec(local, global).last()
            == toggle_view() && combined_spec(local, global)[0].shortcut == Some(enter_key())
            && combined_spec(local, global).len() == local.len() + global.len() + 1,
{
}

/// With no local and no global action the combined list is empty: no
/// action is bound to enter and no toggle action is added.
pub proof fn combined_of_nothing_is_empty()
    ensures
        combined_spec(Seq::empty(), Seq::empty()) == Seq::<ActionView>::empty(),
{
    assert(Seq::<ActionView>::empty() + Seq::<ActionView>::empty() =~= Seq::<ActionView>::empty());
}

/// Toggling the popup twice leaves the registry as it was.
pub proof fn toggle_twice_restores(a: Actions)
    ensures
        a.toggled().toggled() == a,
{
}

pub open spec fn opt_action_view(a: Option<Action>) -> Option<ActionView> {
    match a {
        Some(x) => Some(x@),
        None => None,
    }
}

/// The handle through which a view reaches its action registry.
#[derive(Debug)]
pub struct ActionsModel {
    pub inner: Actions,
}

impl ActionsModel {
    /// A registry with no actions and the popup closed.
    pub fn init() -> (r: ActionsModel)
        ensures
            r.inner.global@.len() == 0,
            r.inner.local@.len() == 0,
            !r.inner.show,
            r.inner.query@.len() == 0,
            r.inner.list@.len() == 0,
    {
        ActionsModel { inner: Actions::new() }
    }

    /// Replaces the global actions; the shown list is filled anew with every
    /// candidate, ready to be ranked against the query.
    pub fn update_global(&mut self, actions: Vec<Action>)
        ensures
            final(self).inner.global@ == actions@,
            final(self).inner.local == old(self).inner.local,
            final(self).inner.show == old(self).inner.show,
            final(self).inner.query == old(self).inner.query,
            views(final(self).inner.list@) == visible_spec(final(self).inner.combined_view()),
    {
        self.inner.global = actions;
        self.inner.list_all();
    }

    /// Replaces the local actions; the shown list is filled anew with every
    /// candidate, ready to be ranked against the query.
    pub fn update_local(&mut self, actions: Vec<Action>)
        ensures
            final(self).inner.local@ == actions@,
            final(self).inner.global == old(self).inner.global,
            final(self).inner.show == old(self).inner.show,
            final(self).inner.query == old(self).inner.query,
            views(final(self).inner.list@) == visible_spec(final(self).inner.combined_view()),
    {
        self.inner.local = actions;
        self.inner.list_all();
    }

    /// The combined list.
    pub fn get(&self) -> (r: Vec<Action>)
        ensures
            views(r@) == self.inner.combined_view(),
    {
        self.inner.combined()
    }

    /// The first action of the combined list, hidden ones included, whose
    /// shortcut is exactly the keystroke.
    pub fn check(&self, keystroke: &Keystroke) -> (r: Option<Action>)
        ensures
            is_first_match(self.inner.combined_view(), keystroke@, opt_action_view(r)),
    {
        let c = self.get();
        let mut i: usize = 0;
        while i < c.len()
            invariant
                i <= c.len(),
                views(c@) == self.inner.combined_view(),
                forall|j: int| 0 <= j < i ==> views(c@)[j].shortcut != Some(keystroke@),
            decreases c.len() - i,
        {
            assert(views(c@)[i as int] == c@[i as int]@);
            match &c[i].shortcut {
                Some(s) => {
                    if s.matches(keystroke) {
                        let a = c[i].clone();
                        assert(views(c@)[i as int] == a@);
                        return Some(a);
                    }
                },
                None => {},
            }
            i += 1;
        }
        None
    }
}

} // verus!
