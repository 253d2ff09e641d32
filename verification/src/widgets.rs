//! A widget that reserves a region for host-composited external content.
//!
//! It paints nothing of its own; the host composites externally produced
//! content into its bounds. It fills the space offered by its parent and
//! reports each change of its content-box size as an action.

use vstd::prelude::*;

use crate::units::{f64_eq, size_eq, size_is_number, Length, Size, HUNDRED_PX_BITS};

verus! {

/// What a parent asks of a child's length along one axis.
#[derive(Clone, Copy, Debug)]
pub enum LenReq {
    /// The smallest length the content can take.
    MinContent,
    /// The length the content would take with unlimited space.
    MaxContent,
    /// Fit the content into the given available space.
    FitContent(Length),
}

/// The size of the [`ExternalSurface`]'s content box has changed.
#[derive(Clone, Copy, Debug)]
pub struct ExternalSurfaceSizeChanged {
    /// The new size of the surface.
    pub size: Size,
}

/// A widget that reserves a region for host-composited external content.
#[derive(Debug)]
pub struct ExternalSurface {
    /// The drawable area size, which matches the widget's content-box.
    size: Size,
}

/// The preferred length of the surface when it has no space to fill: 100 px.
pub open spec fn default_length_bits() -> u64 {
    HUNDRED_PX_BITS
}

/// The length that `measure` gives for a request: all of the available space
/// when asked to fit, the preferred length otherwise.
pub open spec fn measure_spec(len_req: LenReq) -> u64 {
    match len_req {
        LenReq::FitContent(space) => space@,
        _ => default_length_bits(),
    }
}

/// One layout pass on a surface of size `current` given `offered`: the size the
/// surface holds afterwards, and whether it reports a size change.
pub open spec fn layout_step(current: (u64, u64), offered: (u64, u64)) -> ((u64, u64), bool) {
    if size_eq(current, offered) {
        (current, false)
    } else {
        (offered, true)
    }
}

impl View for ExternalSurface {
    type V = (u64, u64);

    closed spec fn view(&self) -> (u64, u64) {
        self.size@
    }
}

impl Default for ExternalSurface {
    /// A surface of size zero.
    fn default() -> (r: ExternalSurface)
        ensures
            r@ == (0u64, 0u64),
    {
        ExternalSurface { size: Size::zero() }
    }
}

impl ExternalSurface {
    /// Returns the current size of the surface, which matches its content-box.
    pub fn size(&self) -> (r: Size)
        ensures
            r@ == self@,
    {
        self.size
    }

    /// The length the surface asks for along an axis: all the available space
    /// when it is asked to fit, or its preferred length of 100 px.
    pub fn measure(&self, len_req: LenReq) -> (r: Length)
        ensures
            r@ == measure_spec(len_req),
    {
        match len_req {
            LenReq::FitContent(space) => space,
            _ => Length::hundred_px(),
        }
    }

    /// Lays the surface out at `size`. When `size` differs from the current size
    /// the surface takes it and returns the size-change action to submit;
    /// otherwise it keeps its size and returns `None`. Clipping the surface to
    /// `size` is left to the caller, which owns the layout context.
    pub fn layout(&mut self, size: Size) -> (r: Option<ExternalSurfaceSizeChanged>)
        ensures
            final(self)@ == layout_step(old(self)@, size@).0,
            r is Some <==> layout_step(old(self)@, size@).1,
            r matches Some(action) ==> action.size@ == size@,
    {
        if !self.size.size_eq(&size) {
            self.size = size;
            Some(ExternalSurfaceSizeChanged { size })
        } else {
            None
        }
    }
}

/// After a layout pass at a size with no NaN component, the surface's size
/// equals (as floating-point values) the size it was laid out at, and a second
/// pass at the same size reports no change and leaves the surface as it is.
pub proof fn lemma_layout_settles(current: (u64, u64), offered: (u64, u64))
    requires
        size_is_number(offered),
    ensures
        size_eq(layout_step(current, offered).0, offered),
        !layout_step(layout_step(current, offered).0, offered).1,
        layout_step(layout_step(current, offered).0, offered).0 == layout_step(current, offered).0,
{
}

/// A layout pass reports a change exactly when the offered size is not equal,
/// as floating-point values, to the current one in width and in height; a
/// change in the width alone or in the height alone is reported. The surface
/// then holds the offered size, and otherwise keeps its own.
pub proof fn lemma_layout_reports_every_change(current: (u64, u64), offered: (u64, u64))
    ensures
        layout_step(current, offered).1 <==> !(f64_eq(current.0, offered.0) && f64_eq(current.1, offered.1)),
        !f64_eq(current.0, offered.0) ==> layout_step(current, offered).1,
        !f64_eq(current.1, offered.1) ==> layout_step(current, offered).1,
        layout_step(current, offered).1 ==> layout_step(current, offered).0 == offered,
        !layout_step(current, offered).1 ==> layout_step(current, offered).0 == current,
{
}

/// Asked to fit, the surface asks for exactly the available space, whatever
/// it is (more or less than its preferred length); asked for its content
/// size, it asks for its preferred 100 px.
pub proof fn lemma_measure_fills_space(space: Length)
    ensures
        measure_spec(LenReq::FitContent(space)) == space@,
        measure_spec(LenReq::MinContent) == HUNDRED_PX_BITS,
        measure_spec(LenReq::MaxContent) == HUNDRED_PX_BITS,
{
}

/// A layout pass reports a change exactly when the offered size is not equal
/// to the current one; in particular an offered size with a NaN component is
/// reported on every pass.
pub proof fn lemma_layout_reports_nan(current: (u64, u64), offered: (u64, u64))
    requires
        !size_is_number(offered),
    ensures
        layout_step(current, offered).1,
{
}

} // verus!
