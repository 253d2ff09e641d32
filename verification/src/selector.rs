//! A drop-down selector (combo box) view: shows the currently selected option
//! and, when the user picks an option, calls a callback with its index.

use std::marker::PhantomData;
use vstd::prelude::*;

use crate::view::MessageResult;

verus! {

/// The selection index that `clamp` yields: the index itself when it names an
/// option, the last option when it lies past the end, and 0 for an empty list.
pub open spec fn clamp_spec(idx: nat, len: nat) -> nat {
    if len == 0 {
        0
    } else if idx < len {
        idx
    } else {
        (len - 1) as nat
    }
}

/// Clamp a selection index to a valid option (or 0 for an empty list).
pub fn clamp(idx: usize, len: usize) -> (r: usize)
    ensures
        r == clamp_spec(idx as nat, len as nat),
{
    if len == 0 {
        0
    } else if idx < len - 1 {
        idx
    } else {
        len - 1
    }
}

/// Two lists of options hold the same strings in the same order.
pub fn options_eq(a: &Vec<String>, b: &Vec<String>) -> (r: bool)
    ensures
        r == (a.deep_view() == b.deep_view()),
{
    if a.len() != b.len() {
        assert(a.deep_view().len() != b.deep_view().len());
        return false;
    }
    let mut i: usize = 0;
    while i < a.len()
        invariant
            a.len() == b.len(),
            i <= a.len(),
            forall|k: int| 0 <= k < i ==> a@[k]@ == b@[k]@,
        decreases a.len() - i,
    {
        if a[i] != b[i] {
            assert(a.deep_view()[i as int] != b.deep_view()[i as int]);
            return false;
        }
        i += 1;
    }
    assert(a.deep_view() =~= b.deep_view());
    true
}

/// The selection that a selector widget shows: its options and the index of
/// the selected one.
pub struct SelectorState {
    /// The options, in order.
    pub options: Vec<String>,
    /// The index of the selected option.
    pub selected: usize,
}

/// What `rebuild` asks of the selector widget, in this order: replace its
/// options (which resets the selection to the first option), then select an
/// option.
pub struct SelectorUpdate {
    /// The new options, when they changed.
    pub set_options: Option<Vec<String>>,
    /// The option to select, when the options or the selection changed.
    pub select_option: Option<usize>,
}

impl SelectorUpdate {
    /// The update with its options as strings and its index as a number.
    pub open spec fn view(&self) -> (Option<Seq<Seq<char>>>, Option<nat>) {
        (
            match self.set_options {
                Some(o) => Some(o.deep_view()),
                None => None,
            },
            match self.select_option {
                Some(i) => Some(i as nat),
                None => None,
            },
        )
    }
}

/// The update that takes the widget built from `prev` to one showing `cur`:
/// new options when they differ, and the clamped selection when the options or
/// the requested selection differ.
pub open spec fn rebuild_spec<State, Action, F>(
    prev: Selector<State, Action, F>,
    cur: Selector<State, Action, F>,
) -> (Option<Seq<Seq<char>>>, Option<nat>) {
    let options_changed = prev.options_spec() != cur.options_spec();
    (
        if options_changed {
            Some(cur.options_spec())
        } else {
            None
        },
        if options_changed || prev.selected_spec() != cur.selected_spec() {
            Some(cur.built_state().1)
        } else {
            None
        },
    )
}

/// The [`View`](crate::view) created by [`selector`]: a drop-down that shows
/// the currently `selected` option and calls `callback` with the index of the
/// option that the user picks.
pub struct Selector<State, Action, F> {
    options: Vec<String>,
    selected: usize,
    callback: F,
    phantom: PhantomData<(State, Action)>,
}

/// A drop-down selector (combo box): shows the currently `selected` option,
/// and on click pops a menu of `options` as an overlay layer. Picking an
/// option calls `callback` with its index.
pub fn selector<F, State, Action>(options: Vec<String>, selected: usize, callback: F) -> (r: Selector<State, Action, F>)
    where
        F: Fn(&mut State, usize) -> Action,
    ensures
        r.options_spec() == options.deep_view(),
        r.selected_spec() == selected,
        r.callback_spec() == callback,
{
    Selector { options, selected, callback, phantom: PhantomData }
}

/// The state the widget shows after `update` is applied to a widget showing
/// `options` with `selected` chosen: replacing the options selects the first
/// one, then an explicit selection chooses that index.
pub open spec fn apply_update(
    shown: (Seq<Seq<char>>, nat),
    set_options: Option<Seq<Seq<char>>>,
    select_option: Option<nat>,
) -> (Seq<Seq<char>>, nat) {
    let after_set = match set_options {
        Some(o) => (o, 0nat),
        None => shown,
    };
    match select_option {
        Some(i) => (after_set.0, i),
        None => after_set,
    }
}

impl<State, Action, F> Selector<State, Action, F> {
    /// The options, as strings.
    pub closed spec fn options_spec(&self) -> Seq<Seq<char>> {
        self.options.deep_view()
    }

    /// The requested selection index.
    pub closed spec fn selected_spec(&self) -> nat {
        self.selected as nat
    }

    /// The callback that receives picked indices.
    pub closed spec fn callback_spec(&self) -> F {
        self.callback
    }

    /// The state the widget shows when built from this view: the options and
    /// the requested selection clamped to them.
    pub open spec fn built_state(&self) -> (Seq<Seq<char>>, nat) {
        (self.options_spec(), clamp_spec(self.selected_spec(), self.options_spec().len()))
    }

    /// The widget state that this view builds: its options, and its selection
    /// clamped to a valid option (or 0 when there are none).
    pub fn build(&self) -> (r: SelectorState)
        ensures
            r.options.deep_view() == self.options_spec(),
            r.selected == self.built_state().1,
    {
        let selected = clamp(self.selected, self.options.len());
        let options = self.options.clone();
        assert(options.deep_view() =~= self.options.deep_view());
        SelectorState { options, selected }
    }

    /// What changes the widget built from `prev` needs to show this view.
    /// Replacing the options resets the selection to 0, so whenever the
    /// options change the selection is applied afterwards, as it is whenever
    /// the selection itself changes.
    pub fn rebuild(&self, prev: &Self) -> (r: SelectorUpdate)
        ensures
            r.view() == rebuild_spec(*prev, *self),
    {
        let options_changed = !options_eq(&prev.options, &self.options);
        let set_options = if options_changed {
            let options = self.options.clone();
            assert(options.deep_view() =~= self.options.deep_view());
            Some(options)
        } else {
            None
        };
        let select_option = if options_changed || prev.selected != self.selected {
            Some(clamp(self.selected, self.options.len()))
        } else {
            None
        };
        SelectorUpdate { set_options, select_option }
    }

    /// Handles a message routed to this view: `change` is the index carried by
    /// a selection-changed message, or `None` when the message was of another
    /// type. A selection change calls the callback with the picked index and
    /// yields its action; a message of another type is stale.
    pub fn message(&self, change: Option<usize>, app_state: &mut State) -> (r: MessageResult<Action>)
        where
            F: Fn(&mut State, usize) -> Action,
        requires
            forall|s: &mut State, i: usize| #[trigger] call_requires(self.callback_spec(), (s, i)),
        ensures
            match change {
                Some(idx) => r matches MessageResult::Action(a) && exists|s: &mut State|
                    *s == *old(app_state) && *final(s) == *final(app_state) && call_ensures(
                        self.callback_spec(),
                        (s, idx),
                        a,
                    ),
                None => r is Stale && *final(app_state) == *old(app_state),
            },
    {
        match change {
            Some(idx) => {
                let callback = &self.callback;
                assert(*callback == self.callback_spec());
                MessageResult::Action(callback(app_state, idx))
            },
            None => MessageResult::Stale,
        }
    }
}

/// Rebuilding agrees with building: applying the update that `rebuild`
/// computes to a widget built from `prev` leaves it showing exactly what a
/// widget built from `cur` shows.
pub proof fn lemma_rebuild_matches_build<State, Action, F>(
    prev: Selector<State, Action, F>,
    cur: Selector<State, Action, F>,
)
    ensures
        apply_update(prev.built_state(), rebuild_spec(prev, cur).0, rebuild_spec(prev, cur).1)
            == cur.built_state(),
{
}

/// Clamping is idempotent, and it yields a valid index whenever there is an
/// option, leaving an already valid index as it is.
pub proof fn lemma_clamp(idx: nat, len: nat)
    ensures
        clamp_spec(clamp_spec(idx, len), len) == clamp_spec(idx, len),
        len > 0 ==> clamp_spec(idx, len) < len,
        idx < len ==> clamp_spec(idx, len) == idx,
{
}

} // verus!
