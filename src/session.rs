//! The rendering session: what is drawn each frame, how the surface follows
//! the window's size, and the background colour.

use vstd::prelude::*;
use crate::geometry::{INDEX_COUNT, index_seq, indices};
use crate::surface::{PhysicalSize, SurfaceConfig, configure_for, preferred_format};

verus! {

#[verifier::external_type_specification]
#[verifier::external_body]
pub struct ExColor(wgpu::Color);

/// What one frame asks of the GPU: a single render pass that clears the
/// target to `clear_color`, then one indexed draw of `index_count` indices
/// from `first_index`, for `instance_count` instances.
#[derive(Clone, Copy)]
pub struct FramePlan {
    pub clear_color: wgpu::Color,
    pub first_index: u32,
    pub index_count: u32,
    pub instance_count: u32,
}

/// The state of a rendering session.
pub struct FrugInstance {
    size: PhysicalSize,
    config: SurfaceConfig,
    background_color: wgpu::Color,
    num_indices: u32,
}

impl FrugInstance {
    pub closed spec fn spec_size(&self) -> PhysicalSize {
        self.size
    }

    pub closed spec fn spec_config(&self) -> SurfaceConfig {
        self.config
    }

    pub closed spec fn spec_background_color(&self) -> wgpu::Color {
        self.background_color
    }

    pub closed spec fn spec_num_indices(&self) -> u32 {
        self.num_indices
    }

    /// The session after following the window to `new_size`: unchanged when
    /// a side of `new_size` is zero.
    pub closed spec fn spec_resized(self, new_size: PhysicalSize) -> FrugInstance {
        if new_size.spec_is_drawable() {
            FrugInstance {
                size: new_size,
                config: SurfaceConfig { width: new_size.width, height: new_size.height, ..self.config },
                ..self
            }
        } else {
            self
        }
    }

    /// The session with `color` as its background colour.
    pub closed spec fn spec_with_background(self, color: wgpu::Color) -> FrugInstance {
        FrugInstance { background_color: color, ..self }
    }

    /// The frame that the session records.
    pub closed spec fn spec_frame(self) -> FramePlan {
        FramePlan {
            clear_color: self.background_color,
            first_index: 0,
            index_count: self.num_indices,
            instance_count: 1,
        }
    }

    /// The configuration's extent is the session's size, and every index of
    /// the static list is drawn.
    pub open spec fn wf(&self) -> bool {
        &&& self.spec_config().width == self.spec_size().width
        &&& self.spec_config().height == self.spec_size().height
        &&& self.spec_num_indices() == INDEX_COUNT
    }

    /// Starts a session on a window of extent `size`, with the surface
    /// configured from what the adapter offers.
    pub fn new_instance(
        size: PhysicalSize,
        formats: &Vec<wgpu::TextureFormat>,
        present_modes: &Vec<wgpu::PresentMode>,
        alpha_modes: &Vec<wgpu::CompositeAlphaMode>,
        background_color: wgpu::Color,
    ) -> (r: FrugInstance)
        requires
            formats@.len() > 0,
            present_modes@.len() > 0,
            alpha_modes@.len() > 0,
        ensures
            r.wf(),
            r.spec_size() == size,
            preferred_format(formats@, r.spec_config().format),
            r.spec_config().present_mode == present_modes@[0],
            r.spec_config().alpha_mode == alpha_modes@[0],
            r.spec_background_color() == background_color,
    {
        let idx = indices();
        proof {
            crate::geometry::lemma_static_indices_in_range();
        }
        let num_indices = idx.len() as u32;
        FrugInstance {
            size,
            config: configure_for(size, formats, present_modes, alpha_modes),
            background_color,
            num_indices,
        }
    }

    pub fn size(&self) -> (r: PhysicalSize)
        ensures
            r == self.spec_size(),
    {
        self.size
    }

    pub fn config(&self) -> (r: SurfaceConfig)
        ensures
            r == self.spec_config(),
    {
        self.config
    }

    pub fn background_color(&self) -> (r: wgpu::Color)
        ensures
            r == self.spec_background_color(),
    {
        self.background_color
    }

    /// Follows the window to `new_size`. A size with a zero side leaves the
    /// session as it is and returns false; otherwise the size and the
    /// configuration's extent become `new_size`, and the result, true, says
    /// that the surface must be configured anew.
    pub fn resize(&mut self, new_size: PhysicalSize) -> (r: bool)
        requires
            old(self).wf(),
        ensures
            final(self).wf(),
            *final(self) == old(self).spec_resized(new_size),
            r == new_size.spec_is_drawable(),
            r ==> final(self).spec_size() == new_size,
            r ==> final(self).spec_config() == (SurfaceConfig {
                width: new_size.width,
                height: new_size.height,
                ..old(self).spec_config()
            }),
            !r ==> *final(self) == *old(self),
    {
        if new_size.is_drawable() {
            self.size = new_size;
            self.config.width = new_size.width;
            self.config.height = new_size.height;
            true
        } else {
            false
        }
    }

    /// Sets the colour that the next frames clear to.
    pub fn set_background_color(&mut self, color: wgpu::Color)
        requires
            old(self).wf(),
        ensures
            final(self).wf(),
            *final(self) == old(self).spec_with_background(color),
            final(self).spec_background_color() == color,
            final(self).spec_size() == old(self).spec_size(),
            final(self).spec_config() == old(self).spec_config(),
    {
        self.background_color = color;
    }

    /// The frame to record: clear to the background colour and draw the
    /// whole static index list once.
    pub fn frame_plan(&self) -> (r: FramePlan)
        requires
            self.wf(),
        ensures
            r == self.spec_frame(),
            r.clear_color == self.spec_background_color(),
            r.first_index == 0,
            r.index_count == index_seq().len(),
            r.instance_count == 1,
    {
        FramePlan {
            clear_color: self.background_color,
            first_index: 0,
            index_count: self.num_indices,
            instance_count: 1,
        }
    }
}

/// A zero-sized window leaves the session unchanged: neither its size nor
/// its surface configuration moves.
pub proof fn lemma_degenerate_resize_is_noop(s: FrugInstance, new_size: PhysicalSize)
    requires
        new_size.width == 0 || new_size.height == 0,
    ensures
        s.spec_resized(new_size) == s,
        s.spec_resized(new_size).spec_size() == s.spec_size(),
        s.spec_resized(new_size).spec_config() == s.spec_config(),
{
}

/// After a resize to a size with no zero side, the configuration's extent is
/// exactly that size, and the session stays well formed.
pub proof fn lemma_resize_sets_extent(s: FrugInstance, new_size: PhysicalSize)
    requires
        s.wf(),
        new_size.width > 0,
        new_size.height > 0,
    ensures
        s.spec_resized(new_size).wf(),
        s.spec_resized(new_size).spec_config().width == new_size.width,
        s.spec_resized(new_size).spec_config().height == new_size.height,
{
}

/// A frame recorded after the background colour was set to `color` clears
/// the target to exactly `color`.
pub proof fn lemma_background_round_trip(s: FrugInstance, color: wgpu::Color)
    ensures
        s.spec_with_background(color).spec_frame().clear_color == color,
{
}

/// Every frame of a well-formed session is one draw of the whole static index
/// list, one instance, from its first index.
pub proof fn lemma_frame_draws_all_indices(s: FrugInstance)
    requires
        s.wf(),
    ensures
        s.spec_frame().first_index == 0,
        s.spec_frame().index_count == INDEX_COUNT,
        s.spec_frame().instance_count == 1,
{
}

/// Resizing a well-formed session to its own size changes nothing.
pub proof fn lemma_resize_to_own_size(s: FrugInstance)
    requires
        s.wf(),
    ensures
        s.spec_resized(s.spec_size()) == s,
{
    if s.spec_size().spec_is_drawable() {
        assert(s.spec_resized(s.spec_size()).config == s.config);
    }
}

} // verus!
