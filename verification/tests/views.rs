use std::sync::Arc;

use xilem_lite::selector::{clamp, options_eq, selector};
use xilem_lite::units::{Color, Length, Size};
use xilem_lite::view::{external_surface, MessageResult};
use xilem_lite::widgets::{ExternalSurface, ExternalSurfaceSizeChanged, LenReq};
use xilem_lite::window_id::{WindowId, WindowIdCounter};
use xilem_lite::window_view::{window, WindowOptions};

fn px(v: f64) -> Length {
    Length::from_bits(v.to_bits())
}

fn size(w: f64, h: f64) -> Size {
    Size::new(px(w), px(h))
}

fn pick(_: &mut u32, i: usize) -> usize {
    i
}

fn strings(items: &[&str]) -> Vec<String> {
    items.iter().map(|s| s.to_string()).collect()
}

#[test]
fn clamp_cases() {
    assert_eq!(clamp(0, 0), 0);
    assert_eq!(clamp(5, 0), 0);
    assert_eq!(clamp(0, 3), 0);
    assert_eq!(clamp(2, 3), 2);
    assert_eq!(clamp(3, 3), 2);
    assert_eq!(clamp(usize::MAX, 3), 2);
    assert_eq!(clamp(clamp(9, 4), 4), clamp(9, 4));
}

#[test]
fn options_equality() {
    assert!(options_eq(&strings(&["a", "b"]), &strings(&["a", "b"])));
    assert!(!options_eq(&strings(&["a", "b"]), &strings(&["a", "c"])));
    assert!(!options_eq(&strings(&["a"]), &strings(&["a", "b"])));
    assert!(options_eq(&strings(&[]), &strings(&[])));
}

#[test]
fn selector_builds_with_a_clamped_selection() {
    let view = selector(strings(&["a", "b", "c"]), 7, pick);
    let built = view.build();
    assert_eq!(built.options, strings(&["a", "b", "c"]));
    assert_eq!(built.selected, 2);

    let empty = selector(Vec::new(), 4, pick);
    assert_eq!(empty.build().selected, 0);
}

#[test]
fn selector_rebuild_reapplies_the_selection_after_new_options() {
    let prev = selector(strings(&["a", "b"]), 1, pick);

    // Same options, same selection: nothing to do.
    let same = selector(strings(&["a", "b"]), 1, pick);
    let update = same.rebuild(&prev);
    assert!(update.set_options.is_none());
    assert!(update.select_option.is_none());

    // Only the selection changed.
    let moved = selector(strings(&["a", "b"]), 0, pick);
    let update = moved.rebuild(&prev);
    assert!(update.set_options.is_none());
    assert_eq!(update.select_option, Some(0));

    // New options with the same selection index: the selection is re-applied.
    let renamed = selector(strings(&["x", "y", "z"]), 1, pick);
    let update = renamed.rebuild(&prev);
    assert_eq!(update.set_options, Some(strings(&["x", "y", "z"])));
    assert_eq!(update.select_option, Some(1));

    // New, shorter options: the re-applied selection is clamped.
    let shorter = selector(strings(&["x"]), 1, pick);
    let update = shorter.rebuild(&prev);
    assert_eq!(update.set_options, Some(strings(&["x"])));
    assert_eq!(update.select_option, Some(0));
}

#[test]
fn selector_message_calls_the_callback() {
    let view = selector(strings(&["a", "b", "c"]), 0, |state: &mut Vec<usize>, i: usize| {
        state.push(i);
        i * 10
    });
    let mut state = Vec::new();
    match view.message(Some(2), &mut state) {
        MessageResult::Action(a) => assert_eq!(a, 20),
        _ => panic!("expected an action"),
    }
    assert_eq!(state, vec![2]);
    assert!(matches!(view.message(None, &mut state), MessageResult::Stale));
    assert_eq!(state, vec![2]);
}

#[test]
fn external_surface_view_messages() {
    let view = external_surface::<u32>();
    let built = view.build();
    assert_eq!(built.size().width.to_bits(), 0);
    assert_eq!(built.size().height.to_bits(), 0);
    let change = ExternalSurfaceSizeChanged { size: size(3.0, 4.0) };
    assert!(matches!(view.message::<()>(Some(change)), MessageResult::RequestRebuild));
    assert!(matches!(view.message::<()>(None), MessageResult::Stale));
}

#[test]
fn external_surface_measures_the_available_space() {
    let surface = ExternalSurface::default();
    assert_eq!(surface.measure(LenReq::FitContent(px(250.0))).to_bits(), 250.0f64.to_bits());
    assert_eq!(surface.measure(LenReq::MinContent).to_bits(), 100.0f64.to_bits());
    assert_eq!(surface.measure(LenReq::MaxContent).to_bits(), 100.0f64.to_bits());
}

#[test]
fn external_surface_reports_size_changes_once() {
    let mut surface = ExternalSurface::default();
    assert_eq!(surface.size().width.to_bits(), 0.0f64.to_bits());

    let changed = surface.layout(size(640.0, 480.0)).expect("a new size is reported");
    assert_eq!(changed.size.width.to_bits(), 640.0f64.to_bits());
    assert_eq!(changed.size.height.to_bits(), 480.0f64.to_bits());
    assert_eq!(surface.size().width.to_bits(), 640.0f64.to_bits());

    // Laying out again at the same size reports nothing.
    assert!(surface.layout(size(640.0, 480.0)).is_none());

    // A change of one component is reported.
    assert!(surface.layout(size(640.0, 481.0)).is_some());
    assert_eq!(surface.size().height.to_bits(), 481.0f64.to_bits());
}

#[test]
fn external_surface_compares_sizes_as_floats() {
    let mut surface = ExternalSurface::default();
    // -0.0 equals +0.0: no change, and the stored size keeps its +0.0.
    assert!(surface.layout(size(-0.0, 0.0)).is_none());
    assert_eq!(surface.size().width.to_bits(), 0.0f64.to_bits());
    // A NaN never equals anything, so it is reported on every pass.
    assert!(surface.layout(size(f64::NAN, 1.0)).is_some());
    assert!(surface.layout(size(f64::NAN, 1.0)).is_some());
}

#[test]
fn length_and_size_equality() {
    assert!(px(1.5).px_eq(&px(1.5)));
    assert!(px(0.0).px_eq(&px(-0.0)));
    assert!(!px(1.0).px_eq(&px(2.0)));
    assert!(!px(f64::NAN).px_eq(&px(f64::NAN)));
    assert!(px(f64::INFINITY).px_eq(&px(f64::INFINITY)));
    assert!(size(1.0, 2.0).size_eq(&size(1.0, 2.0)));
    assert!(!size(1.0, 2.0).size_eq(&size(2.0, 1.0)));
}

#[test]
fn window_ids_are_unique_and_nonzero() {
    let mut counter = WindowIdCounter::new();
    let a = WindowId::next(&mut counter);
    let b = WindowId::next(&mut counter);
    let c = WindowId::next(&mut counter);
    assert_eq!(a.get(), 1);
    assert_eq!(b.get(), 2);
    assert_eq!(c.get(), 3);
    assert_ne!(a, b);
    assert_ne!(b, c);
    assert_ne!(a, c);
    assert!(!counter.is_exhausted());
    assert_eq!(format!("{}", a.trace()), "1");
    assert_eq!(format!("{:?}", c.trace()), "3");
}

fn rgba(r: f32, g: f32, b: f32, a: f32) -> Color {
    Color::from_component_bits([r.to_bits(), g.to_bits(), b.to_bits(), a.to_bits()])
}

type View = xilem_lite::window_view::WindowView<Vec<&'static str>, &'static str, u32, fn(&mut Vec<&'static str>)>;

fn note_close(state: &mut Vec<&'static str>) {
    state.push("closed");
}

#[test]
fn window_view_builders() {
    let mut counter = WindowIdCounter::new();
    let id = WindowId::next(&mut counter);
    let view: View = window(id, "Main".to_string(), "root");
    assert_eq!(view.id(), id);
    assert_eq!(view.title(), "Main");
    assert_eq!(*view.root(), "root");

    let background = rgba(0.1, 0.1, 0.1, 1.0);
    assert_eq!(view.initial_base_color(background).components, background.components);

    let red = rgba(1.0, 0.0, 0.0, 1.0);
    let view = view.with_base_color(red);
    assert_eq!(view.initial_base_color(background).components, red.components);

    let view = view.with_options(|o: WindowOptions<Vec<&'static str>, fn(&mut Vec<&'static str>)>| {
        WindowOptions::new(format!("{} window", o.title)).with_on_close(note_close as fn(&mut Vec<&'static str>))
    });
    assert_eq!(view.title(), "Main window");
    assert_eq!(view.id(), id);

    let mut state = Vec::new();
    view.on_close(&mut state);
    assert_eq!(state, vec!["closed"]);

    let quiet: View = window(id, "Quiet".to_string(), "root");
    quiet.on_close(&mut state);
    assert_eq!(state, vec!["closed"]);
}

#[test]
fn window_view_rebuild_pushes_only_changes() {
    let mut counter = WindowIdCounter::new();
    let id = WindowId::next(&mut counter);
    let red = rgba(1.0, 0.0, 0.0, 1.0);
    let blue = rgba(0.0, 0.0, 1.0, 1.0);

    let prev: View = window::<_, _, u32, _>(id, "w".to_string(), "root").with_base_color(red);
    let same: View = window(id, "w".to_string(), "root").with_base_color(red);
    assert!(same.base_color_update(&prev).is_none());

    let changed: View = window(id, "w".to_string(), "root").with_base_color(blue);
    assert_eq!(changed.base_color_update(&prev).map(|c| c.components), Some(blue.components));

    // Unsetting the colour pushes nothing.
    let unset: View = window(id, "w".to_string(), "root");
    assert!(unset.base_color_update(&prev).is_none());

    // Default properties: pushed when first set or swapped, not when the same Arc is kept.
    let theme = Arc::new(7u32);
    let none: View = window(id, "w".to_string(), "root");
    let with_theme: View = window(id, "w".to_string(), "root").with_default_properties(theme.clone());
    assert!(none.default_properties_update(&none).is_none());
    assert_eq!(with_theme.default_properties_update(&none).as_deref(), Some(&7));

    let same_theme: View = window(id, "w".to_string(), "root").with_default_properties(theme.clone());
    assert!(same_theme.default_properties_update(&with_theme).is_none());

    let new_theme: View = window(id, "w".to_string(), "root").with_default_properties(Arc::new(7u32));
    let pushed = new_theme.default_properties_update(&with_theme).expect("a new Arc is pushed");
    assert!(!Arc::ptr_eq(&pushed, &theme));
}

fn apply(
    shown: xilem_lite::selector::SelectorState,
    update: xilem_lite::selector::SelectorUpdate,
) -> xilem_lite::selector::SelectorState {
    let mut shown = shown;
    if let Some(options) = update.set_options {
        shown.options = options;
        shown.selected = 0;
    }
    if let Some(i) = update.select_option {
        shown.selected = i;
    }
    shown
}

#[test]
fn selector_rebuild_agrees_with_build() {
    let cases: Vec<(Vec<String>, usize)> = vec![
        (strings(&["a", "b", "c"]), 2),
        (strings(&["a", "b", "c"]), 0),
        (strings(&["a", "b"]), 2),
        (strings(&[]), 1),
        (strings(&["x", "y", "z", "w"]), 3),
    ];
    for (prev_options, prev_selected) in &cases {
        for (options, selected) in &cases {
            let prev = selector(prev_options.clone(), *prev_selected, pick);
            let cur = selector(options.clone(), *selected, pick);
            let shown = apply(prev.build(), cur.rebuild(&prev));
            let expected = cur.build();
            assert_eq!(shown.options, expected.options);
            assert_eq!(shown.selected, expected.selected);
        }
    }
}

#[test]
fn default_properties_push_is_decided_by_identity() {
    let mut counter = WindowIdCounter::new();
    let id = WindowId::next(&mut counter);
    let p1 = Arc::new(5u32);
    let p2 = Arc::new(5u32);
    let prev: View = window(id, "w".to_string(), "root").with_default_properties(p1.clone());
    let kept: View = window(id, "w".to_string(), "root").with_default_properties(p1.clone());
    let swapped: View = window(id, "w".to_string(), "root").with_default_properties(p2.clone());
    let none: View = window(id, "w".to_string(), "root");

    // Same allocation: nothing is pushed.
    assert!(kept.default_properties_push(&prev, true).is_none());
    assert!(kept.default_properties_update(&prev).is_none());
    // Equal contents in a different allocation: pushed.
    let pushed = swapped.default_properties_push(&prev, false).expect("a different Arc is pushed");
    assert!(Arc::ptr_eq(&pushed, &p2));
    let pushed = swapped.default_properties_update(&prev).expect("a different Arc is pushed");
    assert!(Arc::ptr_eq(&pushed, &p2));
    // First set: pushed whatever `same` says.
    assert!(kept.default_properties_push(&none, true).is_some());
    // Unset: nothing is pushed.
    assert!(none.default_properties_push(&prev, false).is_none());
}

#[test]
fn external_surface_view_holds_no_data() {
    let view = external_surface::<u8>();
    assert_eq!(view.phantom, std::marker::PhantomData);
}

#[test]
fn with_default_properties_keeps_the_allocation() {
    let mut counter = WindowIdCounter::new();
    let id = WindowId::next(&mut counter);
    let theme = Arc::new(9u32);
    let view: View = window(id, "w".to_string(), "root").with_default_properties(theme.clone());
    let next: View = window(id, "w".to_string(), "root").with_default_properties(theme.clone());
    // The view keeps the very `Arc` it was given: rebuilding from it with the same
    // `Arc` pushes nothing.
    assert!(next.default_properties_update(&view).is_none());
    let pushed = view.default_properties_update(&window(id, "w".to_string(), "root")).expect("first set is pushed");
    assert!(Arc::ptr_eq(&pushed, &theme));
}
