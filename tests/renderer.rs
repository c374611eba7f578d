use gpu_renderer::bindings::{BindGroupEntry, BindingResource};
use gpu_renderer::renderer::Renderer;
use gpu_renderer::renderer_builder::{BuildError, CullMode, FrontFace, RendererBuilder};
use gpu_renderer::shader::Shader;
use gpu_renderer::texture::placeholder_data;
use gpu_renderer::uniform_buffer::{RenderAction, UniformBuffer};
use gpu_renderer::vertex_format::VertexFormat;

fn pixel(data: &[u8], x: usize, y: usize) -> [u8; 4] {
    let p = (x * 256 + y) * 4;
    [data[p], data[p + 1], data[p + 2], data[p + 3]]
}

#[test]
fn placeholder_is_checkerboard() {
    let data = placeholder_data();
    assert_eq!(data.len(), 256 * 256 * 4);
    assert_eq!(pixel(&data, 0, 0), [0, 0, 0, 255]);
    assert_eq!(pixel(&data, 127, 127), [0, 0, 0, 255]);
    assert_eq!(pixel(&data, 200, 200), [0, 0, 0, 255]);
    assert_eq!(pixel(&data, 0, 200), [255, 0, 255, 255]);
    assert_eq!(pixel(&data, 200, 0), [255, 0, 255, 255]);
    assert_eq!(pixel(&data, 127, 128), [255, 0, 255, 255]);
    assert_eq!(pixel(&data, 255, 255), [0, 0, 0, 255]);
}

#[test]
fn build_without_vertex_shader_fails() {
    let fs = Shader { bytes: vec![1, 2, 3] };
    let r = RendererBuilder::new().add_fragment_shader(&fs).build();
    let err = r.err().unwrap();
    assert_eq!(err, BuildError::VertexStageMissing);
    assert_eq!(err.message(), "Vertex stage was not specified!");
}

#[test]
fn build_without_fragment_shader_fails() {
    let vs = Shader { bytes: vec![1] };
    let r = RendererBuilder::new().add_vertex_shader(&vs).build();
    let err = r.err().unwrap();
    assert_eq!(err, BuildError::FragmentStageMissing);
    assert_eq!(err.message(), "Fragment stage was not specified!");
}

#[test]
fn build_without_any_shader_reports_vertex_first() {
    let r = RendererBuilder::new().build();
    assert_eq!(r.err().unwrap(), BuildError::VertexStageMissing);
}

#[test]
fn build_lays_out_pipeline() {
    let vs = Shader { bytes: vec![7] };
    let fs = Shader { bytes: vec![8] };
    let plan = RendererBuilder::new()
        .add_vertex_shader(&vs)
        .add_fragment_shader(&fs)
        .set_uniform_location(0)
        .add_texture(2)
        .add_texture(3)
        .set_sampler_location(1)
        .set_culling(FrontFace::Cw, CullMode::Back)
        .add_vertex_attribute(1, VertexFormat::Float2)
        .add_vertex_attribute(0, VertexFormat::Float3)
        .build()
        .ok()
        .unwrap();
    assert_eq!(plan.vs.bytes, vec![7]);
    assert_eq!(plan.fs.bytes, vec![8]);
    assert_eq!(plan.layout.len(), 4);
    assert_eq!(plan.bind_group.len(), 4);
    assert_eq!(plan.bind_group[0].binding, 0);
    assert_eq!(plan.bind_group[3].binding, 1);
    assert_eq!(plan.vertex_layout.stride, 20);
    assert_eq!(plan.vertex_layout.attributes[1].offset, 12);
    assert_eq!(plan.culling, (FrontFace::Cw, CullMode::Back));
    assert_eq!(plan.textures, vec![2, 3]);
}

#[test]
fn builder_defaults() {
    let b = RendererBuilder::new();
    assert!(b.vs.is_none());
    assert!(b.fs.is_none());
    assert_eq!(b.uniform_location, 0);
    assert_eq!(b.sampler_location, 1);
    assert_eq!(b.culling, (FrontFace::Ccw, CullMode::Disabled));
    assert!(b.textures.is_empty());
    assert!(b.vertex_attributes.is_empty());
}

#[test]
fn fill_then_render_sees_new_bytes() {
    let mut r: Renderer<&str> = Renderer::new(4, 0, &vec![2], vec!["checker"], 1);
    assert_eq!(r.render(6), RenderAction::Draw(6));
    assert_eq!(r.uniform_buffer.contents, vec![0, 0, 0, 0]);
    r.fill_uniform_buffer(vec![1, 2, 3, 4]);
    assert!(!r.uniform_buffer.ready);
    assert_eq!(r.render(6), RenderAction::Pump);
    assert_eq!(r.render(6), RenderAction::Pump);
    r.uniform_write_completed();
    assert_eq!(r.render(6), RenderAction::Draw(6));
    assert_eq!(r.uniform_buffer.contents, vec![1, 2, 3, 4]);
    r.fill_uniform_buffer(vec![9, 9, 9, 9]);
    assert_eq!(r.render(6), RenderAction::Pump);
    assert_eq!(r.uniform_buffer.contents, vec![1, 2, 3, 4]);
    r.uniform_write_completed();
    assert_eq!(r.uniform_buffer.contents, vec![9, 9, 9, 9]);
}

#[test]
fn uniform_buffer_starts_ready_and_zeroed() {
    let b = UniformBuffer::new(3);
    assert!(b.ready);
    assert_eq!(b.contents, vec![0, 0, 0]);
    assert!(b.pending.is_none());
    assert_eq!(b.next_render_action(0), RenderAction::Draw(0));
}

#[test]
fn bind_texture_on_registered_slot_replaces_view() {
    let mut r: Renderer<&str> = Renderer::new(4, 0, &vec![2, 3], vec!["checker", "checker"], 1);
    assert!(r.bind_texture(3, "brick"));
    assert_eq!(r.textures, vec![(2, "checker"), (3, "brick")]);
    assert_eq!(r.bind_group.len(), 4);
    assert_eq!(r.bind_group[2], BindGroupEntry { binding: 3, resource: BindingResource::TextureView(1) });
}

#[test]
fn bind_texture_on_unregistered_slot_changes_nothing() {
    let mut r: Renderer<&str> = Renderer::new(4, 0, &vec![2], vec!["checker"], 1);
    let before = r.bind_group.clone();
    assert!(!r.bind_texture(5, "brick"));
    assert_eq!(r.bind_group, before);
    assert_eq!(r.textures, vec![(2, "checker")]);
}

#[test]
fn bind_texture_with_duplicate_slots_takes_first() {
    let mut r: Renderer<&str> = Renderer::new(4, 0, &vec![2, 2], vec!["a", "b"], 1);
    assert!(r.bind_texture(2, "c"));
    assert_eq!(r.textures, vec![(2, "c"), (2, "b")]);
}

#[test]
fn texture_slot_lookup() {
    let r: Renderer<&str> = Renderer::new(4, 0, &vec![2, 3], vec!["a", "b"], 1);
    assert!(r.has_texture_slot(2));
    assert!(r.has_texture_slot(3));
    assert!(!r.has_texture_slot(1));
}
