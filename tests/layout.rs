use gpu_renderer::bindings::{
    bind_group_entries, layout_entries, BindGroupEntry, BindingKind, BindingResource, LayoutEntry,
    ShaderStage,
};
use gpu_renderer::vertex_format::VertexFormat;
use gpu_renderer::vertex_layout::{compute_vertex_layout, sort_attributes};

#[test]
fn offsets_follow_location_not_registration_order() {
    let attrs = vec![(1u32, VertexFormat::Float2), (0u32, VertexFormat::Float3)];
    let layout = compute_vertex_layout(&attrs);
    assert_eq!(layout.stride, 20);
    assert_eq!(layout.attributes.len(), 2);
    assert_eq!(layout.attributes[0].shader_location, 0);
    assert_eq!(layout.attributes[0].offset, 0);
    assert_eq!(layout.attributes[0].format, VertexFormat::Float3);
    assert_eq!(layout.attributes[1].shader_location, 1);
    assert_eq!(layout.attributes[1].offset, 12);
    assert_eq!(layout.attributes[1].format, VertexFormat::Float2);

    let in_order = vec![(0u32, VertexFormat::Float3), (1u32, VertexFormat::Float2)];
    let other = compute_vertex_layout(&in_order);
    assert_eq!(other.stride, 20);
    assert_eq!(other.attributes, layout.attributes);
}

#[test]
fn empty_attribute_list_has_zero_stride() {
    let layout = compute_vertex_layout(&Vec::new());
    assert_eq!(layout.stride, 0);
    assert!(layout.attributes.is_empty());
}

#[test]
fn format_size_table() {
    let expected = [
        (VertexFormat::Uchar2, 2), (VertexFormat::Uchar4, 4), (VertexFormat::Char2, 2),
        (VertexFormat::Char4, 4), (VertexFormat::Uchar2Norm, 2), (VertexFormat::Uchar4Norm, 4),
        (VertexFormat::Char2Norm, 2), (VertexFormat::Char4Norm, 4), (VertexFormat::Ushort2, 4),
        (VertexFormat::Ushort4, 8), (VertexFormat::Short2, 4), (VertexFormat::Short4, 8),
        (VertexFormat::Ushort2Norm, 4), (VertexFormat::Ushort4Norm, 8), (VertexFormat::Short2Norm, 4),
        (VertexFormat::Short4Norm, 8), (VertexFormat::Half2, 4), (VertexFormat::Half4, 8),
        (VertexFormat::Float, 4), (VertexFormat::Float2, 8), (VertexFormat::Float3, 12),
        (VertexFormat::Float4, 16), (VertexFormat::Uint, 4), (VertexFormat::Uint2, 8),
        (VertexFormat::Uint3, 12), (VertexFormat::Uint4, 16), (VertexFormat::Int, 4),
        (VertexFormat::Int2, 8), (VertexFormat::Int3, 12), (VertexFormat::Int4, 16),
    ];
    for (f, n) in expected.iter() {
        assert_eq!(f.size(), *n);
    }
}

#[test]
fn mixed_formats_offsets_are_running_sums() {
    let attrs = vec![
        (3u32, VertexFormat::Uchar4Norm),
        (0u32, VertexFormat::Float4),
        (2u32, VertexFormat::Short2),
        (1u32, VertexFormat::Half2),
    ];
    let layout = compute_vertex_layout(&attrs);
    let offsets: Vec<u64> = layout.attributes.iter().map(|a| a.offset).collect();
    let locations: Vec<u32> = layout.attributes.iter().map(|a| a.shader_location).collect();
    assert_eq!(locations, vec![0, 1, 2, 3]);
    assert_eq!(offsets, vec![0, 16, 20, 24]);
    assert_eq!(layout.stride, 28);
}

#[test]
fn sort_orders_by_location() {
    let attrs = vec![(5u32, VertexFormat::Int), (2u32, VertexFormat::Uint), (9u32, VertexFormat::Float)];
    let sorted = sort_attributes(&attrs);
    assert_eq!(
        sorted,
        vec![(2u32, VertexFormat::Uint), (5u32, VertexFormat::Int), (9u32, VertexFormat::Float)]
    );
}

#[test]
fn bind_group_has_one_binding_per_resource() {
    let textures = vec![2u32, 3u32];
    let entries = bind_group_entries(0, &textures, 1);
    assert_eq!(entries.len(), 4);
    let mut bindings: Vec<u32> = entries.iter().map(|e| e.binding).collect();
    bindings.sort();
    assert_eq!(bindings, vec![0, 1, 2, 3]);
    assert_eq!(entries[0], BindGroupEntry { binding: 0, resource: BindingResource::UniformBuffer });
    assert_eq!(entries[1], BindGroupEntry { binding: 2, resource: BindingResource::TextureView(0) });
    assert_eq!(entries[2], BindGroupEntry { binding: 3, resource: BindingResource::TextureView(1) });
    assert_eq!(entries[3], BindGroupEntry { binding: 1, resource: BindingResource::Sampler });
}

#[test]
fn layout_lists_uniform_textures_then_sampler() {
    let textures = vec![2u32, 3u32];
    let layout = layout_entries(0, &textures, 1);
    assert_eq!(
        layout,
        vec![
            LayoutEntry { binding: 0, visibility: ShaderStage::Vertex, kind: BindingKind::UniformBuffer },
            LayoutEntry { binding: 2, visibility: ShaderStage::Fragment, kind: BindingKind::SampledTexture },
            LayoutEntry { binding: 3, visibility: ShaderStage::Fragment, kind: BindingKind::SampledTexture },
            LayoutEntry { binding: 1, visibility: ShaderStage::Fragment, kind: BindingKind::Sampler },
        ]
    );
}

#[test]
fn layout_without_textures_has_two_entries() {
    let layout = layout_entries(7, &Vec::new(), 4);
    assert_eq!(layout.len(), 2);
    assert_eq!(layout[0].binding, 7);
    assert_eq!(layout[1].binding, 4);
}

#[test]
fn equal_locations_keep_registration_order() {
    let attrs = vec![(0u32, VertexFormat::Float4), (0u32, VertexFormat::Uchar2)];
    let layout = compute_vertex_layout(&attrs);
    assert_eq!(layout.attributes[0].format, VertexFormat::Float4);
    assert_eq!(layout.attributes[0].offset, 0);
    assert_eq!(layout.attributes[1].format, VertexFormat::Uchar2);
    assert_eq!(layout.attributes[1].offset, 16);
    assert_eq!(layout.stride, 18);

    let reversed = vec![(0u32, VertexFormat::Uchar2), (0u32, VertexFormat::Float4)];
    let other = compute_vertex_layout(&reversed);
    assert_eq!(other.attributes[0].format, VertexFormat::Uchar2);
    assert_eq!(other.attributes[1].offset, 2);
    assert_eq!(other.stride, 18);
}

#[test]
fn stable_sort_interleaves_equal_locations_in_order() {
    let attrs = vec![
        (1u32, VertexFormat::Int),
        (0u32, VertexFormat::Half4),
        (1u32, VertexFormat::Char2),
        (0u32, VertexFormat::Float),
    ];
    let sorted = sort_attributes(&attrs);
    assert_eq!(
        sorted,
        vec![
            (0u32, VertexFormat::Half4),
            (0u32, VertexFormat::Float),
            (1u32, VertexFormat::Int),
            (1u32, VertexFormat::Char2),
        ]
    );
}
