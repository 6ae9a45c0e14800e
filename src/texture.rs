use vstd::prelude::*;

use crate::binding::{
    resources_match, texture_schema, BindGroupLayoutDesc, BindingSet, BoundResource, ConstructionError, GlobalBindLayout,
    GroupName, ResourceKind,
};

verus! {

/// A texture of the arena: image size and its binding set (image view at
/// slot 0, sampler at slot 1).
#[derive(Debug)]
pub struct Texture {
    pub width: u32,
    pub height: u32,
    pub bind_group: BindingSet,
}

/// Owns every texture binding set; meshes refer to them by index, so
/// several meshes can share one and none outlives the arena.
#[derive(Debug)]
pub struct TextureManager {
    pub layout: BindGroupLayoutDesc,
    pub textures: Vec<Texture>,
}

/// Handles of the view and sampler of the `k`-th texture.
pub open spec fn view_handle(k: nat) -> u64 {
    (2 * k) as u64
}

pub open spec fn sampler_handle(k: nat) -> u64 {
    (2 * k + 1) as u64
}

impl TextureManager {
    pub open spec fn len(&self) -> nat {
        self.textures@.len()
    }

    pub open spec fn wf(&self) -> bool {
        &&& self.layout@ == texture_schema()
        &&& forall|i: int| 0 <= i < self.textures@.len() ==> (#[trigger] self.textures@[i]).bind_group.group == GroupName::Texture
    }

    pub fn new(global: &GlobalBindLayout) -> (r: TextureManager)
        requires
            global.wf(),
        ensures
            r.wf(),
            r.len() == 0,
    {
        TextureManager { layout: global.get_texture_bind_layout().duplicate(), textures: Vec::new() }
    }

    /// The schema every texture's binding set follows.
    pub fn get_texture_bind_group_layout(&self) -> (r: &BindGroupLayoutDesc)
        ensures
            r@ == self.layout@,
    {
        &self.layout
    }

    /// Adds a texture from decoded RGBA8 bytes and returns its index.
    /// Refuses bytes that do not hold exactly four bytes per pixel.
    pub fn create_texture_from_bytes(&mut self, global: &GlobalBindLayout, bytes: &[u8], width: u32, height: u32) -> (r:
        Result<u32, ConstructionError>)
        requires
            old(self).wf(),
            global.wf(),
            old(self).len() < u32::MAX,
        ensures
            final(self).wf(),
            r is Ok <==> bytes@.len() == 4 * width * height,
            r is Err ==> r->Err_0 == ConstructionError::ImageSizeMismatch && final(self).textures@ == old(self).textures@,
            r is Ok ==> {
                &&& r->Ok_0 == old(self).len()
                &&& final(self).len() == old(self).len() + 1
                &&& forall|i: int| 0 <= i < old(self).len() ==> #[trigger] final(self).textures@[i] == old(self).textures@[i]
                &&& final(self).textures@[r->Ok_0 as int].width == width
                &&& final(self).textures@[r->Ok_0 as int].height == height
                &&& final(self).textures@[r->Ok_0 as int].bind_group.group == GroupName::Texture
                &&& resources_match(texture_schema(), final(self).textures@[r->Ok_0 as int].bind_group.resources@)
                &&& final(self).textures@[r->Ok_0 as int].bind_group.resources@ == seq![
                    BoundResource {
                        slot: 0,
                        kind: ResourceKind::SampledTexture,
                        handle: view_handle(old(self).len()),
                    },
                    BoundResource {
                        slot: 1,
                        kind: ResourceKind::FilteringSampler,
                        handle: sampler_handle(old(self).len()),
                    },
                ]
            },
    {
        assert(0 <= width * height <= 0xffff_ffff * 0xffff_ffff) by (nonlinear_arith)
            requires
                0 <= width <= 0xffff_ffff,
                0 <= height <= 0xffff_ffff,
        ;
        assert(4 * width * height == 4 * (width * height)) by (nonlinear_arith);
        let pixels: u128 = (width as u128) * (height as u128);
        if bytes.len() as u128 != 4 * pixels {
            return Err(ConstructionError::ImageSizeMismatch);
        }
        let k = self.textures.len() as u64;
        let resources = vec![
            BoundResource { slot: 0, kind: ResourceKind::SampledTexture, handle: 2 * k },
            BoundResource { slot: 1, kind: ResourceKind::FilteringSampler, handle: 2 * k + 1 },
        ];
        assert(resources_match(global.schema(GroupName::Texture), resources@));
        let bind_group = match BindingSet::new(global, GroupName::Texture, resources) {
            Ok(b) => b,
            Err(_) => vstd::pervasive::unreached(),
        };
        let id = self.textures.len() as u32;
        self.textures.push(Texture { width, height, bind_group });
        Ok(id)
    }
}

} // verus!
