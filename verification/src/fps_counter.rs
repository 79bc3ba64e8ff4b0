//! The frame-rate overlay: when it is shown.

use vstd::prelude::*;

verus! {

/// Whether an element of the overlay is shown.
#[derive(Clone, Copy, Debug, PartialEq, Eq, Structural)]
pub enum Visibility {
    /// As the element's parent.
    Inherited,
    Hidden,
    Visible,
}

/// The overlay's stage.
#[derive(Clone, Copy, Debug, PartialEq, Eq, Structural)]
pub struct FpsPlugin;

impl FpsPlugin {
    /// The visibility after the toggle key has just been pressed: a hidden
    /// overlay is shown, any other is hidden.
    pub open spec fn flipped(visibility: Visibility) -> Visibility {
        match visibility {
            Visibility::Hidden => Visibility::Visible,
            _ => Visibility::Hidden,
        }
    }

    /// The overlay's visibility after a frame in which the toggle key was
    /// or was not `just_pressed`.
    pub fn toggle(&self, just_pressed: bool, visibility: Visibility) -> (result: Visibility)
        ensures
            result == (if just_pressed {
                Self::flipped(visibility)
            } else {
                visibility
            }),
    {
        if just_pressed {
            match visibility {
                Visibility::Hidden => Visibility::Visible,
                _ => Visibility::Hidden,
            }
        } else {
            visibility
        }
    }
}

/// Toggling a hidden or a shown overlay twice leaves it as it was.
pub proof fn lemma_toggle_twice(visibility: Visibility)
    requires
        visibility != Visibility::Inherited,
    ensures
        FpsPlugin::flipped(FpsPlugin::flipped(visibility)) == visibility,
{
}

} // verus!
