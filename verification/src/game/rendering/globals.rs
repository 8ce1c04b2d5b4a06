use vstd::prelude::*;

use crate::game::plan::{uniform_buffer, uniform_built, ResourceRequest};
use crate::game::rendering::blueprints::{canvas_texture, canvas_texture_built};
use crate::graphics::context::{BufferId, TextureId};
use crate::graphics::resources::texture::{Computed, Texture};

verus! {

/// Global resource ids
#[derive(Clone, Copy, PartialEq, Eq, Debug)]
pub struct GlobalIds {
    pub cam_id: BufferId,
    /// environment buffer
    pub env_id: BufferId,
    /// the output of the ray march shader
    pub rm_tex_id: TextureId,
    /// texture a of the taa shader (history even frames, current odd frames)
    pub taa_tex_a_id: TextureId,
    /// texture b of the taa shader (current even frames, history odd frames)
    pub taa_tex_b_id: TextureId,
}

/// The ids the global resources are created under
pub open spec fn default_global_ids(ids: GlobalIds) -> bool {
    &&& ids.cam_id.0@ == "main_camera"@
    &&& ids.env_id.0@ == "environment"@
    &&& ids.rm_tex_id.0@ == "ray_march_texture"@
    &&& ids.taa_tex_a_id.0@ == "taa_texture_a"@
    &&& ids.taa_tex_b_id.0@ == "taa_texture_b"@
}

/// The requests of the global resources, in order: the camera uniform holding `camera`, then
/// the ray march texture (copyable from) and history textures A and B, of the canvas size
pub open spec fn global_init_requests(plan: Seq<ResourceRequest>, ids: GlobalIds, camera: Seq<u8>, width: u32, height: u32) -> bool {
    &&& plan.len() == 4
    &&& plan[0] matches ResourceRequest::UniformBuffer(id, b) && id == ids.cam_id && uniform_built(b, "Camera Buffer"@, camera)
    &&& plan[1] matches ResourceRequest::Texture(id, t) && id == ids.rm_tex_id
        && canvas_texture_built(t, "Raymarch Texture"@, width, height, true)
    &&& plan[2] matches ResourceRequest::Texture(id, t) && id == ids.taa_tex_a_id
        && canvas_texture_built(t, "TAA Texture A"@, width, height, false)
    &&& plan[3] matches ResourceRequest::Texture(id, t) && id == ids.taa_tex_b_id
        && canvas_texture_built(t, "TAA Texture B"@, width, height, false)
}

/// The requests after the canvas was resized to `width` by `height`, in order: each of the
/// three textures is removed and requested again at the new size, none of them copyable from
pub open spec fn global_resize_requests(plan: Seq<ResourceRequest>, ids: GlobalIds, width: u32, height: u32) -> bool {
    &&& plan.len() == 6
    &&& plan[0] == ResourceRequest::RemoveTexture(ids.rm_tex_id)
    &&& plan[1] matches ResourceRequest::Texture(id, t) && id == ids.rm_tex_id
        && canvas_texture_built(t, "Raymarch Texture"@, width, height, false)
    &&& plan[2] == ResourceRequest::RemoveTexture(ids.taa_tex_a_id)
    &&& plan[3] matches ResourceRequest::Texture(id, t) && id == ids.taa_tex_a_id
        && canvas_texture_built(t, "TAA Texture A"@, width, height, false)
    &&& plan[4] == ResourceRequest::RemoveTexture(ids.taa_tex_b_id)
    &&& plan[5] matches ResourceRequest::Texture(id, t) && id == ids.taa_tex_b_id
        && canvas_texture_built(t, "TAA Texture B"@, width, height, false)
}

/// Resources that every pass shares: the camera and environment buffers and the ray march and
/// temporal anti-aliasing textures
pub struct GlobalResources {
    pub ids: GlobalIds,
}

impl GlobalResources {
    pub fn new() -> (resources: Self)
        ensures
            default_global_ids(resources.ids),
    {
        let ids = GlobalIds {
            cam_id: BufferId("main_camera"),
            env_id: BufferId("environment"),
            rm_tex_id: TextureId("ray_march_texture"),
            taa_tex_a_id: TextureId("taa_texture_a"),
            taa_tex_b_id: TextureId("taa_texture_b"),
        };
        Self { ids }
    }

    /// The texture the ray march writes, of the canvas size; the first request makes it
    /// copyable from (`copy_src`), a request after a resize does not
    pub fn raymarch_texture(&self, width: u32, height: u32, copy_src: bool) -> (texture: Texture<Computed>)
        ensures
            canvas_texture_built(texture, "Raymarch Texture"@, width, height, copy_src),
    {
        canvas_texture("Raymarch Texture", width, height, copy_src)
    }

    /// The requests that create the global resources for a canvas of `width` by `height`, the
    /// camera buffer starting with the bytes of the camera uniform
    pub fn init(&self, camera_data: &Vec<u8>, width: u32, height: u32) -> (plan: Vec<ResourceRequest>)
        ensures
            global_init_requests(plan@, self.ids, camera_data@, width, height),
    {
        let mut plan: Vec<ResourceRequest> = Vec::new();
        plan.push(ResourceRequest::UniformBuffer(self.ids.cam_id, uniform_buffer("Camera Buffer", camera_data)));
        plan.push(ResourceRequest::Texture(self.ids.rm_tex_id, self.raymarch_texture(width, height, true)));
        plan.push(ResourceRequest::Texture(self.ids.taa_tex_a_id, self.taa_texture_a(width, height)));
        plan.push(ResourceRequest::Texture(self.ids.taa_tex_b_id, self.taa_texture_b(width, height)));
        plan
    }

    /// The requests that make the textures again after the canvas was resized to `width` by
    /// `height`
    pub fn on_resize(&mut self, width: u32, height: u32) -> (plan: Vec<ResourceRequest>)
        ensures
            global_resize_requests(plan@, old(self).ids, width, height),
            *final(self) == *old(self),
    {
        let mut plan: Vec<ResourceRequest> = Vec::new();
        plan.push(ResourceRequest::RemoveTexture(self.ids.rm_tex_id));
        plan.push(ResourceRequest::Texture(self.ids.rm_tex_id, self.raymarch_texture(width, height, false)));
        plan.push(ResourceRequest::RemoveTexture(self.ids.taa_tex_a_id));
        plan.push(ResourceRequest::Texture(self.ids.taa_tex_a_id, self.taa_texture_a(width, height)));
        plan.push(ResourceRequest::RemoveTexture(self.ids.taa_tex_b_id));
        plan.push(ResourceRequest::Texture(self.ids.taa_tex_b_id, self.taa_texture_b(width, height)));
        plan
    }

    /// History texture A, of the canvas size
    pub fn taa_texture_a(&self, width: u32, height: u32) -> (texture: Texture<Computed>)
        ensures
            canvas_texture_built(texture, "TAA Texture A"@, width, height, false),
    {
        canvas_texture("TAA Texture A", width, height, false)
    }

    /// History texture B, of the canvas size
    pub fn taa_texture_b(&self, width: u32, height: u32) -> (texture: Texture<Computed>)
        ensures
            canvas_texture_built(texture, "TAA Texture B"@, width, height, false),
    {
        canvas_texture("TAA Texture B", width, height, false)
    }
}

} // verus!
