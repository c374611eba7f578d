use vstd::prelude::*;
use crate::bindings::{
    BindGroupEntry, LayoutEntry, bind_group_entries, bind_group_spec, layout_entries, layout_spec,
};
use crate::shader::Shader;
use crate::vertex_format::VertexFormat;
use crate::vertex_layout::{VertexLayout, compute_vertex_layout, places, sizes_sum, stable_sort};

verus! {

/// Winding order of front-facing triangles.
#[derive(Clone, Copy, Debug, PartialEq, Eq, Structural)]
pub enum FrontFace {
    Ccw,
    Cw,
}

/// Which faces are culled.
#[derive(Clone, Copy, Debug, PartialEq, Eq, Structural)]
pub enum CullMode {
    Disabled,
    Front,
    Back,
}

/// Configuration errors reported by `build`.
#[derive(Clone, Copy, Debug, PartialEq, Eq, Structural)]
pub enum BuildError {
    VertexStageMissing,
    FragmentStageMissing,
}

impl BuildError {
    /// The message of this error.
    pub fn message(&self) -> (r: &'static str)
        ensures
            *self == BuildError::VertexStageMissing ==> r@ == "Vertex stage was not specified!"@,
            *self == BuildError::FragmentStageMissing ==> r@ == "Fragment stage was not specified!"@,
    {
        match self {
            BuildError::VertexStageMissing => "Vertex stage was not specified!",
            BuildError::FragmentStageMissing => "Fragment stage was not specified!",
        }
    }
}

/// Pipeline configuration collected step by step.
pub struct RendererBuilder<'a> {
    pub vs: Option<&'a Shader>,
    pub fs: Option<&'a Shader>,
    pub uniform_location: u32,
    pub textures: Vec<u32>,
    pub culling: (FrontFace, CullMode),
    pub vertex_attributes: Vec<(u32, VertexFormat)>,
    pub sampler_location: u32,
}

/// Everything the device needs to create the pipeline and its bind group.
pub struct RendererPlan<'a> {
    pub vs: &'a Shader,
    pub fs: &'a Shader,
    pub layout: Vec<LayoutEntry>,
    pub bind_group: Vec<BindGroupEntry>,
    pub vertex_layout: VertexLayout,
    pub culling: (FrontFace, CullMode),
    pub uniform_location: u32,
    pub textures: Vec<u32>,
    pub sampler_location: u32,
}

impl<'a> RendererBuilder<'a> {
    /// A builder with no shaders, the uniform block at binding 0, the sampler
    /// at binding 1, no texture slots, no attributes, counter-clockwise front
    /// faces and no culling.
    pub fn new() -> (r: RendererBuilder<'a>)
        ensures
            r.vs is None,
            r.fs is None,
            r.uniform_location == 0,
            r.textures@ == Seq::<u32>::empty(),
            r.culling == (FrontFace::Ccw, CullMode::Disabled),
            r.vertex_attributes@ == Seq::<(u32, VertexFormat)>::empty(),
            r.sampler_location == 1,
    {
        RendererBuilder {
            vs: None,
            fs: None,
            uniform_location: 0,
            textures: Vec::new(),
            culling: (FrontFace::Ccw, CullMode::Disabled),
            vertex_attributes: Vec::new(),
            sampler_location: 1,
        }
    }

    pub fn add_vertex_shader(self, vs: &'a Shader) -> (r: RendererBuilder<'a>)
        ensures
            r == (RendererBuilder { vs: Some(vs), ..self }),
    {
        RendererBuilder { vs: Some(vs), ..self }
    }

    pub fn add_fragment_shader(self, fs: &'a Shader) -> (r: RendererBuilder<'a>)
        ensures
            r == (RendererBuilder { fs: Some(fs), ..self }),
    {
        RendererBuilder { fs: Some(fs), ..self }
    }

    /// Registers a texture slot at binding `location`, after those already
    /// registered.
    pub fn add_texture(self, location: u32) -> (r: RendererBuilder<'a>)
        ensures
            r.textures@ == self.textures@.push(location),
            r.vs == self.vs,
            r.fs == self.fs,
            r.uniform_location == self.uniform_location,
            r.culling == self.culling,
            r.vertex_attributes@ == self.vertex_attributes@,
            r.sampler_location == self.sampler_location,
    {
        let mut b = self;
        b.textures.push(location);
        b
    }

    pub fn set_sampler_location(self, sampler_location: u32) -> (r: RendererBuilder<'a>)
        ensures
            r == (RendererBuilder { sampler_location, ..self }),
    {
        RendererBuilder { sampler_location, ..self }
    }

    pub fn set_culling(self, front_face: FrontFace, cull_mode: CullMode) -> (r: RendererBuilder<'a>)
        ensures
            r == (RendererBuilder { culling: (front_face, cull_mode), ..self }),
    {
        RendererBuilder { culling: (front_face, cull_mode), ..self }
    }

    /// Registers a vertex attribute of `format` at shader `location`.
    pub fn add_vertex_attribute(self, location: u32, format: VertexFormat) -> (r: RendererBuilder<'a>)
        ensures
            r.vertex_attributes@ == self.vertex_attributes@.push((location, format)),
            r.vs == self.vs,
            r.fs == self.fs,
            r.uniform_location == self.uniform_location,
            r.textures@ == self.textures@,
            r.culling == self.culling,
            r.sampler_location == self.sampler_location,
    {
        let mut b = self;
        b.vertex_attributes.push((location, format));
        b
    }

    pub fn set_uniform_location(self, location: u32) -> (r: RendererBuilder<'a>)
        ensures
            r == (RendererBuilder { uniform_location: location, ..self }),
    {
        RendererBuilder { uniform_location: location, ..self }
    }

    /// `p` is the plan this configuration describes.
    pub open spec fn planned_as(&self, p: RendererPlan<'a>) -> bool {
        &&& self.vs == Some(p.vs)
        &&& self.fs == Some(p.fs)
        &&& p.layout@ == layout_spec(self.uniform_location, self.textures@, self.sampler_location)
        &&& p.bind_group@ == bind_group_spec(self.uniform_location, self.textures@, self.sampler_location)
        &&& places(stable_sort(self.vertex_attributes@), p.vertex_layout.attributes@)
        &&& p.vertex_layout.stride as nat == sizes_sum(stable_sort(self.vertex_attributes@))
        &&& p.vertex_layout.stride as nat == sizes_sum(self.vertex_attributes@)
        &&& p.culling == self.culling
        &&& p.uniform_location == self.uniform_location
        &&& p.textures@ == self.textures@
        &&& p.sampler_location == self.sampler_location
    }

    /// Validates the configuration and lays out the pipeline. Fails, before
    /// any resource exists, when a shader stage is missing.
    pub fn build(self) -> (r: Result<RendererPlan<'a>, BuildError>)
        requires
            self.vertex_attributes@.len() < 0x1000_0000_0000_0000,
        ensures
            self.vs is None ==> r == Err::<RendererPlan<'a>, BuildError>(BuildError::VertexStageMissing),
            self.vs is Some && self.fs is None ==> r == Err::<RendererPlan<'a>, BuildError>(BuildError::FragmentStageMissing),
            self.vs is Some && self.fs is Some ==> r is Ok && self.planned_as(r->Ok_0),
    {
        let vs = match self.vs {
            Some(vs) => vs,
            None => {
                return Err(BuildError::VertexStageMissing);
            },
        };
        let fs = match self.fs {
            Some(fs) => fs,
            None => {
                return Err(BuildError::FragmentStageMissing);
            },
        };
        let layout = layout_entries(self.uniform_location, &self.textures, self.sampler_location);
        let bind_group = bind_group_entries(self.uniform_location, &self.textures, self.sampler_location);
        let vertex_layout = compute_vertex_layout(&self.vertex_attributes);
        Ok(RendererPlan {
            vs,
            fs,
            layout,
            bind_group,
            vertex_layout,
            culling: self.culling,
            uniform_location: self.uniform_location,
            textures: self.textures,
            sampler_location: self.sampler_location,
        })
    }
}

} // verus!
