use cube_renderer::geometry::{cube_indices, CUBE_INDEX_COUNT, CUBE_VERTEX_COUNT};
use cube_renderer::pipeline::{pipeline_config, BlendMode, CullMode, FrontFace, Topology};
use cube_renderer::vertex::{vertex_layout, AttributeFormat};

#[test]
fn cube_has_36_indices() {
    let indices = cube_indices();
    assert_eq!(indices.len(), 36);
    assert_eq!(indices.len() as u32, CUBE_INDEX_COUNT);
}

#[test]
fn cube_indices_stay_in_vertex_bounds() {
    for index in cube_indices() {
        assert!(index < CUBE_VERTEX_COUNT);
    }
}

#[test]
fn cube_front_face_triangles() {
    let indices = cube_indices();
    assert_eq!(&indices[0..6], &[0, 1, 2, 2, 3, 0]);
    assert_eq!(&indices[30..36], &[4, 5, 1, 1, 0, 4]);
}

#[test]
fn vertex_layout_matches_vertex_struct() {
    let layout = vertex_layout();
    assert_eq!(layout.stride, 24);
    assert_eq!(layout.attributes.len(), 2);
    assert_eq!(layout.attributes[0].offset, 0);
    assert_eq!(layout.attributes[0].shader_location, 0);
    assert_eq!(layout.attributes[0].format, AttributeFormat::Float32x3);
    assert_eq!(layout.attributes[1].offset, 12);
    assert_eq!(layout.attributes[1].shader_location, 1);
    assert_eq!(layout.attributes[1].format, AttributeFormat::Float32x3);
}

#[test]
fn pipeline_fixed_function_state() {
    let config = pipeline_config(3);
    assert_eq!(config.format_index, 3);
    assert_eq!(config.vertex_entry, "vs_main");
    assert_eq!(config.fragment_entry, "fs_main");
    assert_eq!(config.topology, Topology::TriangleList);
    assert_eq!(config.front_face, FrontFace::CounterClockwise);
    assert_eq!(config.cull_mode, CullMode::Back);
    assert_eq!(config.blend, BlendMode::Replace);
    assert!(!config.has_depth_stencil);
    assert_eq!(config.sample_count, 1);
    assert_eq!(config.uniform_group, 0);
    assert_eq!(config.uniform_binding, 0);
    assert!(config.uniform_in_vertex_stage_only);
    assert_eq!(config.vertex_layout.stride, 24);
}
