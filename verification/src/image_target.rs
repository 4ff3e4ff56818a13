use vstd::prelude::*;
use vulkano::format::Format;

verus! {

/// Vulkano's pixel formats. The session carries them through untouched; the
/// enumeration is declared with its variants in view, so that a format can be
/// named and two formats told apart in contracts.
#[verifier::external_type_specification]
pub struct ExFormat(vulkano::format::Format);

/// An auxiliary render target, as far as the session is concerned: its pixel
/// size, its format, and whether it is resized together with the swapchain.
#[derive(Clone, Copy, Debug, PartialEq, Eq)]
pub struct ImageTarget {
    /// Width and height in pixels.
    pub size: [u32; 2],
    /// Pixel format the image was created with.
    pub format: Format,
    /// Whether the image is recreated at the swapchain's size whenever the
    /// swapchain is recreated.
    pub follows_swapchain: bool,
}

impl ImageTarget {
    /// The target an `add` request describes: with an explicit size it is
    /// fixed at that size, without one it takes `swapchain_size` and follows
    /// the swapchain from then on.
    pub open spec fn requested(
        view_size: Option<[u32; 2]>,
        format: Format,
        swapchain_size: [u32; 2],
    ) -> ImageTarget {
        match view_size {
            Some(size) => ImageTarget { size, format, follows_swapchain: false },
            None => ImageTarget { size: swapchain_size, format, follows_swapchain: true },
        }
    }

    /// This target after the swapchain was recreated at `swapchain_size`: a
    /// following target keeps its format and takes the new size, a fixed one
    /// is untouched.
    pub open spec fn resized_to(self, swapchain_size: [u32; 2]) -> ImageTarget {
        if self.follows_swapchain {
            ImageTarget { size: swapchain_size, format: self.format, follows_swapchain: true }
        } else {
            self
        }
    }
}

/// Why a lookup in the target registry failed.
#[derive(Clone, Copy, Debug, PartialEq, Eq)]
pub enum TargetError {
    /// No target is registered under the key.
    NotFound,
}

} // verus!
