//! A view representing a window: its identifier, options, root content,
//! base colour and tree-wide default properties, and what a rebuild must
//! push to the live window.

use std::marker::PhantomData;
use std::sync::Arc;
use vstd::prelude::*;

use crate::units::{f32_eq, opt_color_eq, opt_color_eq_exec, Color};
use crate::window_id::WindowId;

verus! {

/// The options a window is created with: its title, and the callback run when
/// the user asks to close it.
pub struct WindowOptions<State, OnClose> {
    /// The window's title.
    pub title: String,
    /// Called with the application state when the user asks to close the window.
    pub on_close: Option<OnClose>,
    /// Marks the type of the application state that the callback receives.
    pub state: PhantomData<State>,
}

impl<State, OnClose> WindowOptions<State, OnClose> {
    /// Options with this title and no close callback.
    pub fn new(title: String) -> (r: Self)
        ensures
            r.title == title,
            r.on_close is None,
    {
        WindowOptions { title, on_close: None, state: PhantomData }
    }

    /// These options with `callback` run when the user asks to close the window.
    pub fn with_on_close(self, callback: OnClose) -> (r: Self)
        ensures
            r.title == self.title,
            r.on_close == Some(callback),
    {
        WindowOptions { title: self.title, on_close: Some(callback), state: PhantomData }
    }
}

/// A view representing a window, with root content `Root` and tree-wide
/// default properties `Props`.
pub struct WindowView<State, Root, Props, OnClose> {
    id: WindowId,
    options: WindowOptions<State, OnClose>,
    root: Root,
    /// The base color of the window.
    base_color: Option<Color>,
    /// Tree-wide default properties. `None` keeps whatever was set at startup.
    /// Compared by `Arc` identity between rebuilds, so a host should keep the
    /// same `Arc` and swap it only when the theme changes.
    default_properties: Option<Arc<Props>>,
}

impl<State, Root, Props, OnClose> WindowView<State, Root, Props, OnClose> {
    /// The window's identifier.
    pub closed spec fn id_spec(&self) -> WindowId {
        self.id
    }

    /// The window's options.
    pub closed spec fn options_spec(&self) -> WindowOptions<State, OnClose> {
        self.options
    }

    /// The window's root content.
    pub closed spec fn root_spec(&self) -> Root {
        self.root
    }

    /// The window's base colour, when set.
    pub closed spec fn base_color_spec(&self) -> Option<Color> {
        self.base_color
    }

    /// The window's default properties, when set.
    pub closed spec fn default_properties_spec(&self) -> Option<Arc<Props>> {
        self.default_properties
    }

    /// The window's identifier.
    pub fn id(&self) -> (r: WindowId)
        ensures
            r == self.id_spec(),
    {
        self.id
    }

    /// The window's title.
    pub fn title(&self) -> (r: &String)
        ensures
            *r == self.options_spec().title,
    {
        &self.options.title
    }

    /// The window's root content.
    pub fn root(&self) -> (r: &Root)
        ensures
            *r == self.root_spec(),
    {
        &self.root
    }

    /// Modify window options in-place: the options become what `f` makes of
    /// them, and nothing else changes.
    pub fn with_options<G>(self, f: G) -> (r: Self)
        where
            G: FnOnce(WindowOptions<State, OnClose>) -> WindowOptions<State, OnClose>,
        requires
            call_requires(f, (self.options_spec(),)),
        ensures
            call_ensures(f, (self.options_spec(),), r.options_spec()),
            r.id_spec() == self.id_spec(),
            r.root_spec() == self.root_spec(),
            r.base_color_spec() == self.base_color_spec(),
            r.default_properties_spec() == self.default_properties_spec(),
    {
        let WindowView { id, options, root, base_color, default_properties } = self;
        let options = f(options);
        WindowView { id, options, root, base_color, default_properties }
    }

    /// Set base color of the window.
    pub fn with_base_color(self, color: Color) -> (r: Self)
        ensures
            r.base_color_spec() == Some(color),
            r.id_spec() == self.id_spec(),
            r.options_spec() == self.options_spec(),
            r.root_spec() == self.root_spec(),
            r.default_properties_spec() == self.default_properties_spec(),
    {
        let WindowView { id, options, root, base_color: _, default_properties } = self;
        WindowView { id, options, root, base_color: Some(color), default_properties }
    }

    /// Set the tree-wide default properties reactively. Pass the same `Arc`
    /// each frame and swap it only when the theme changes.
    pub fn with_default_properties(self, default_properties: Arc<Props>) -> (r: Self)
        ensures
            r.default_properties_spec() == Some(default_properties),
            r.id_spec() == self.id_spec(),
            r.options_spec() == self.options_spec(),
            r.root_spec() == self.root_spec(),
            r.base_color_spec() == self.base_color_spec(),
    {
        let WindowView { id, options, root, base_color, default_properties: _ } = self;
        WindowView { id, options, root, base_color, default_properties: Some(default_properties) }
    }

    /// The base colour the window is created with: the one set on the view,
    /// or `background` when none is set.
    pub fn initial_base_color(&self, background: Color) -> (r: Color)
        ensures
            r == match self.base_color_spec() {
                Some(c) => c,
                None => background,
            },
    {
        match self.base_color {
            Some(c) => c,
            None => background,
        }
    }

    /// The base colour a rebuild from `prev` pushes to the live window: this
    /// view's colour when it is set and differs from `prev`'s, otherwise none.
    pub fn base_color_update(&self, prev: &Self) -> (r: Option<Color>)
        ensures
            r == (if !opt_color_eq(self.base_color_spec(), prev.base_color_spec())
                && self.base_color_spec() is Some {
                self.base_color_spec()
            } else {
                None
            }),
    {
        if !opt_color_eq_exec(&self.base_color, &prev.base_color) && self.base_color.is_some() {
            self.base_color
        } else {
            None
        }
    }

    /// The default properties a rebuild from `prev` pushes to the live window,
    /// given `same`, whether `prev`'s `Arc` and this view's are the same
    /// allocation (meaningful when both are set): this view's properties when
    /// they are set and `prev` set none or a different `Arc`; otherwise none.
    /// Identity, not equality of contents, decides, so a steady-state frame
    /// that keeps the same `Arc` re-applies nothing.
    pub fn default_properties_push(&self, prev: &Self, same: bool) -> (r: Option<Arc<Props>>)
        ensures
            r is Some <==> (self.default_properties_spec() is Some && (
            prev.default_properties_spec() is None || !same)),
            r matches Some(p) ==> self.default_properties_spec() == Some(p),
    {
        match &self.default_properties {
            None => None,
            Some(props) => {
                let changed = match &prev.default_properties {
                    Some(_) => !same,
                    None => true,
                };
                if changed {
                    Some(props.clone())
                } else {
                    None
                }
            },
        }
    }

    /// The default properties a rebuild from `prev` pushes to the live window:
    /// `default_properties_push` with the outcome of comparing the two `Arc`s
    /// by identity. The comparison is made only when both views set
    /// properties; two `Arc`s of the same allocation hold equal values.
    pub fn default_properties_update(&self, prev: &Self) -> (r: Option<Arc<Props>>)
        ensures
            self.default_properties_spec() is None ==> r is None,
            self.default_properties_spec() is Some && prev.default_properties_spec() is None
                ==> r == self.default_properties_spec(),
            (self.default_properties_spec() is Some && r is None) ==> prev.default_properties_spec()
                == self.default_properties_spec(),
            r matches Some(p) ==> self.default_properties_spec() == Some(p),
    {
        let same = match (&prev.default_properties, &self.default_properties) {
            (Some(prev_props), Some(props)) => same_arc(prev_props, props),
            _ => false,
        };
        self.default_properties_push(prev, same)
    }

    /// Runs the close callback, if any, on the application state.
    pub fn on_close(&self, state: &mut State)
        where
            OnClose: Fn(&mut State),
        requires
            self.options_spec().on_close matches Some(f) ==> forall|s: &mut State|
                #[trigger] call_requires(f, (s,)),
        ensures
            self.options_spec().on_close is None ==> *final(state) == *old(state),
            self.options_spec().on_close matches Some(f) ==> exists|s: &mut State|
                *s == *old(state) && *final(s) == *final(state) && call_ensures(f, (s,), ()),
    {
        match &self.options.on_close {
            Some(on_close) => {
                on_close(state);
            },
            None => {},
        }
    }
}

/// A view representing a window. `id` must be the same each frame for the
/// same window; `title` initializes the window's options.
pub fn window<State, Root, Props, OnClose>(id: WindowId, title: String, root_view: Root) -> (r: WindowView<
    State,
    Root,
    Props,
    OnClose,
>)
    ensures
        r.id_spec() == id,
        r.options_spec().title == title,
        r.options_spec().on_close is None,
        r.root_spec() == root_view,
        r.base_color_spec() is None,
        r.default_properties_spec() is None,
{
    WindowView {
        id,
        options: WindowOptions::new(title),
        root: root_view,
        base_color: None,
        default_properties: None,
    }
}

/// A rebuild pushes the new base colour whenever it differs from the previous
/// one in any component, alpha included, or the previous view set none; it
/// pushes nothing when the new view sets none or the colours are equal.
pub proof fn lemma_base_color_push(prev: Option<Color>, cur: Option<Color>, i: int)
    ensures
        cur matches Some(c) && prev matches Some(p) && 0 <= i < 4 && !f32_eq(
            c.components[i],
            p.components[i],
        ) ==> !opt_color_eq(cur, prev),
        cur is Some && prev is None ==> !opt_color_eq(cur, prev),
        cur is None && prev is None ==> opt_color_eq(cur, prev),
{
    if let (Some(c), Some(p)) = (cur, prev) {
        if 0 <= i < 4 && !f32_eq(c.components[i], p.components[i]) {
            crate::units::lemma_color_eq_componentwise(c.components, p.components);
        }
    }
}

/// Wraps `Arc::ptr_eq`, which tells whether two `Arc`s point to the same
/// allocation; two such `Arc`s hold the same value. Which allocations are
/// shared is not stated.
#[verifier::external_body]
fn same_arc<T>(a: &Arc<T>, b: &Arc<T>) -> (r: bool)
    ensures
        r ==> *a == *b,
{
    Arc::ptr_eq(a, b)
}

} // verus!
