use vstd::prelude::*;

verus! {

/// Shader stage that sees a binding.
#[derive(Clone, Copy, Debug, PartialEq, Eq, Structural)]
pub enum ShaderStage {
    Vertex,
    Fragment,
}

/// Kind of resource a layout slot declares.
#[derive(Clone, Copy, Debug, PartialEq, Eq, Structural)]
pub enum BindingKind {
    UniformBuffer,
    SampledTexture,
    Sampler,
}

/// One slot of the bind-group layout.
#[derive(Clone, Copy, Debug, PartialEq, Eq, Structural)]
pub struct LayoutEntry {
    pub binding: u32,
    pub visibility: ShaderStage,
    pub kind: BindingKind,
}

/// Resource attached to a slot of the bind group. A texture view is named by
/// its position in the renderer's list of texture slots.
#[derive(Clone, Copy, Debug, PartialEq, Eq, Structural)]
pub enum BindingResource {
    UniformBuffer,
    TextureView(usize),
    Sampler,
}

/// One binding of the bind group.
#[derive(Clone, Copy, Debug, PartialEq, Eq, Structural)]
pub struct BindGroupEntry {
    pub binding: u32,
    pub resource: BindingResource,
}

pub open spec fn texture_layout_entry(binding: u32) -> LayoutEntry {
    LayoutEntry { binding, visibility: ShaderStage::Fragment, kind: BindingKind::SampledTexture }
}

/// The layout: the uniform block for the vertex stage, then each texture slot
/// in registration order, then the sampler, both for the fragment stage.
pub open spec fn layout_spec(uniform: u32, textures: Seq<u32>, sampler: u32) -> Seq<LayoutEntry> {
    seq![LayoutEntry { binding: uniform, visibility: ShaderStage::Vertex, kind: BindingKind::UniformBuffer }]
        + textures.map_values(|t: u32| texture_layout_entry(t))
        + seq![LayoutEntry { binding: sampler, visibility: ShaderStage::Fragment, kind: BindingKind::Sampler }]
}

/// The bind group, in the same order as the layout: the uniform buffer, the
/// view of each texture slot, the sampler.
pub open spec fn bind_group_spec(uniform: u32, textures: Seq<u32>, sampler: u32) -> Seq<BindGroupEntry> {
    seq![BindGroupEntry { binding: uniform, resource: BindingResource::UniformBuffer }]
        + Seq::new(textures.len(), |i: int| BindGroupEntry { binding: textures[i], resource: BindingResource::TextureView(i as usize) })
        + seq![BindGroupEntry { binding: sampler, resource: BindingResource::Sampler }]
}

/// Builds the bind-group layout entries.
pub fn layout_entries(uniform_location: u32, textures: &Vec<u32>, sampler_location: u32) -> (r: Vec<LayoutEntry>)
    ensures
        r@ == layout_spec(uniform_location, textures@, sampler_location),
{
    let mut r: Vec<LayoutEntry> = Vec::new();
    r.push(LayoutEntry { binding: uniform_location, visibility: ShaderStage::Vertex, kind: BindingKind::UniformBuffer });
    let mut i: usize = 0;
    while i < textures.len()
        invariant
            0 <= i <= textures@.len(),
            r@ == seq![LayoutEntry { binding: uniform_location, visibility: ShaderStage::Vertex, kind: BindingKind::UniformBuffer }]
                + textures@.take(i as int).map_values(|t: u32| texture_layout_entry(t)),
        decreases textures@.len() - i,
    {
        r.push(LayoutEntry { binding: textures[i], visibility: ShaderStage::Fragment, kind: BindingKind::SampledTexture });
        proof {
            assert(textures@.take(i + 1) =~= textures@.take(i as int).push(textures@[i as int]));
            assert(textures@.take(i + 1).map_values(|t: u32| texture_layout_entry(t))
                =~= textures@.take(i as int).map_values(|t: u32| texture_layout_entry(t)).push(texture_layout_entry(textures@[i as int])));
        }
        i = i + 1;
    }
    r.push(LayoutEntry { binding: sampler_location, visibility: ShaderStage::Fragment, kind: BindingKind::Sampler });
    proof {
        assert(textures@.take(textures@.len() as int) =~= textures@);
        assert(r@ =~= layout_spec(uniform_location, textures@, sampler_location));
    }
    r
}

/// Builds the bind group entries for the given texture slot bindings.
pub fn bind_group_entries(uniform_location: u32, textures: &Vec<u32>, sampler_location: u32) -> (r: Vec<BindGroupEntry>)
    ensures
        r@ == bind_group_spec(uniform_location, textures@, sampler_location),
{
    let mut r: Vec<BindGroupEntry> = Vec::new();
    r.push(BindGroupEntry { binding: uniform_location, resource: BindingResource::UniformBuffer });
    let mut i: usize = 0;
    while i < textures.len()
        invariant
            0 <= i <= textures@.len(),
            r@.len() == i + 1,
            r@[0] == (BindGroupEntry { binding: uniform_location, resource: BindingResource::UniformBuffer }),
            forall|j: int| 0 <= j < i ==> #[trigger] r@[j + 1] == (BindGroupEntry { binding: textures@[j], resource: BindingResource::TextureView(j as usize) }),
        decreases textures@.len() - i,
    {
        r.push(BindGroupEntry { binding: textures[i], resource: BindingResource::TextureView(i) });
        i = i + 1;
    }
    r.push(BindGroupEntry { binding: sampler_location, resource: BindingResource::Sampler });
    proof {
        let s = bind_group_spec(uniform_location, textures@, sampler_location);
        assert forall|j: int| 0 <= j < r@.len() implies r@[j] == s[j] by {
            if 1 <= j <= textures@.len() {
                assert(r@[(j - 1) + 1] == r@[j]);
            }
        }
        assert(r@ =~= s);
    }
    r
}

} // verus!
