use render_scaffold::mesh_builder::Vertex;
use render_scaffold::pipeline_builder::PipelineBuilder;
use render_scaffold::pipeline_builder::PixelFormat;

#[test]
fn a_new_builder_holds_placeholders() {
    let b = PipelineBuilder::new();
    assert_eq!(b.shader_filename, "dummy");
    assert_eq!(b.vertex_entry, "dummy");
    assert_eq!(b.fragment_entry, "dummy");
    assert_eq!(b.pixel_format, PixelFormat::Rgba8Unorm);
    assert!(b.vertex_buffer_layouts.is_empty());
}

#[test]
fn set_shader_module_records_the_names() {
    let mut b = PipelineBuilder::new();
    b.set_shader_module("shader.wgsl", "vs_main", "fs_main");
    assert_eq!(b.shader_filename, "shader.wgsl");
    assert_eq!(b.vertex_entry, "vs_main");
    assert_eq!(b.fragment_entry, "fs_main");
    assert_eq!(b.pixel_format, PixelFormat::Rgba8Unorm);
}

#[test]
fn set_pixel_format_records_the_format() {
    let mut b = PipelineBuilder::new();
    b.set_pixel_format(PixelFormat::Bgra8UnormSrgb);
    assert_eq!(b.pixel_format, PixelFormat::Bgra8UnormSrgb);
    assert_eq!(b.shader_filename, "dummy");
}

#[test]
fn add_buffer_layout_appends() {
    let mut b = PipelineBuilder::new();
    b.add_buffer_layout(Vertex::get_layout());
    assert_eq!(b.vertex_buffer_layouts.len(), 1);
    assert_eq!(b.vertex_buffer_layouts[0].array_stride, 24);
    b.add_buffer_layout(Vertex::get_layout());
    assert_eq!(b.vertex_buffer_layouts.len(), 2);
}

#[test]
fn the_shader_path_sits_under_the_source_directory() {
    let mut b = PipelineBuilder::new();
    b.set_shader_module("shader.wgsl", "vs_main", "fs_main");
    assert_eq!(b.shader_path(), "src/shader.wgsl");
}
