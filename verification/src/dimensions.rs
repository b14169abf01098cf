//! Width and height of a window.

use crate::config;
use vstd::prelude::*;

verus! {

/// Size of a window in whole logical pixels.
///
/// Construction never fails and never validates; `is_valid` tells whether a
/// size can be used for a window.
#[derive(Debug, Clone, Copy, PartialEq, Eq, Structural)]
pub struct WindowDimensions {
    pub width: i32,
    pub height: i32,
}

impl WindowDimensions {
    /// A size is valid if both of its sides are positive.
    pub open spec fn spec_is_valid(&self) -> bool {
        self.width > 0 && self.height > 0
    }

    /// The configured size of the main window.
    pub open spec fn spec_default_dimensions() -> WindowDimensions {
        WindowDimensions { width: config::WINDOW_WIDTH, height: config::WINDOW_HEIGHT }
    }

    /// Creates new window dimensions. Any pair of numbers is accepted.
    pub fn new(width: i32, height: i32) -> (dimensions: Self)
        ensures
            dimensions == (WindowDimensions { width, height }),
            dimensions.is_valid() == (width > 0 && height > 0),
    {
        Self { width, height }
    }

    /// Returns the default window dimensions, those of the main window.
    pub fn default_dimensions() -> (dimensions: Self)
        ensures
            dimensions == Self::spec_default_dimensions(),
            dimensions.width == 400,
            dimensions.height == 300,
            dimensions.is_valid(),
    {
        Self::new(config::WINDOW_WIDTH, config::WINDOW_HEIGHT)
    }

    /// Validates that both dimensions are positive.
    #[verifier::when_used_as_spec(spec_is_valid)]
    pub fn is_valid(&self) -> (valid: bool)
        ensures
            valid == self.spec_is_valid(),
            valid == (self.width > 0 && self.height > 0),
    {
        self.width > 0 && self.height > 0
    }
}

impl Default for WindowDimensions {
    /// The default window dimensions.
    fn default() -> (dimensions: Self)
        ensures
            dimensions == WindowDimensions::spec_default_dimensions(),
    {
        Self::default_dimensions()
    }
}

} // verus!
