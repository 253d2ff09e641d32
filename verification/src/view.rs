//! Views: the result of handling a message, and a view that reserves a region
//! for host-composited external content.

use std::marker::PhantomData;
use vstd::prelude::*;

use crate::widgets::{ExternalSurface as ExternalSurfaceWidget, ExternalSurfaceSizeChanged};

verus! {

/// The result of handling a message in a view.
#[derive(Debug)]
pub enum MessageResult<Action> {
    /// An action for a parent view to handle.
    Action(Action),
    /// The view needs to be rebuilt.
    RequestRebuild,
    /// Nothing happened.
    Nop,
    /// The message was meant for an element that no longer exists.
    Stale,
}

/// A region that fills its parent and is reserved for host-composited external
/// content (e.g. an imported GPU texture) rather than drawn content.
pub fn external_surface<State>() -> (r: ExternalSurface<State>)
    ensures
        r == (ExternalSurface::<State> { phantom: PhantomData }),
{
    ExternalSurface { phantom: PhantomData }
}

/// The view created by [`external_surface`].
pub struct ExternalSurface<State> {
    /// Marks the type of the application state; the view holds no data.
    pub phantom: PhantomData<State>,
}

impl<State> ExternalSurface<State> {
    /// The widget this view builds: an external surface of size zero.
    pub fn build(&self) -> (r: ExternalSurfaceWidget)
        ensures
            r@ == (0u64, 0u64),
    {
        ExternalSurfaceWidget::default()
    }

    /// Handles a message routed to this view: `message` is the message when it
    /// is a size change of the surface, or `None` when it is of another type.
    /// A size change asks for a rebuild; anything else is stale.
    pub fn message<Action>(&self, message: Option<ExternalSurfaceSizeChanged>) -> (r: MessageResult<Action>)
        ensures
            message is Some ==> r is RequestRebuild,
            message is None ==> r is Stale,
    {
        match message {
            Some(_) => MessageResult::RequestRebuild,
            None => MessageResult::Stale,
        }
    }
}

} // verus!
