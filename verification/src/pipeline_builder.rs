use vstd::prelude::*;
use vstd::string::StringExecFns;

use crate::mesh_builder::VertexBufferLayout;

verus! {

/// The texture formats a pipeline's colour target distinguishes here: the
/// common 8-bit surface formats, and `Other` for any format beyond them.
#[derive(Clone, Copy, Debug, PartialEq, Eq, Structural)]
pub enum PixelFormat {
    Rgba8Unorm,
    Rgba8UnormSrgb,
    Bgra8Unorm,
    Bgra8UnormSrgb,
    Other,
}

/// Collects everything a render pipeline is built from: the shader file
/// name, the two entry points, the colour target's pixel format, and the
/// vertex buffer layouts the vertex stage reads.
pub struct PipelineBuilder {
    /// Name of the shader file, looked up under the shader directory.
    pub shader_filename: String,
    /// Entry point of the vertex stage.
    pub vertex_entry: String,
    /// Entry point of the fragment stage.
    pub fragment_entry: String,
    /// Pixel format of the single colour target.
    pub pixel_format: PixelFormat,
    /// Layouts of the vertex buffers, in binding order.
    pub vertex_buffer_layouts: Vec<VertexBufferLayout>,
}

impl PipelineBuilder {
    /// A builder with placeholder names, an 8-bit RGBA colour target and no
    /// vertex buffers.
    pub fn new() -> (b: PipelineBuilder)
        ensures
            b.shader_filename@ == "dummy"@,
            b.vertex_entry@ == "dummy"@,
            b.fragment_entry@ == "dummy"@,
            b.pixel_format == PixelFormat::Rgba8Unorm,
            b.vertex_buffer_layouts@.len() == 0,
    {
        PipelineBuilder {
            shader_filename: String::from_str("dummy"),
            vertex_entry: String::from_str("dummy"),
            fragment_entry: String::from_str("dummy"),
            pixel_format: PixelFormat::Rgba8Unorm,
            vertex_buffer_layouts: Vec::new(),
        }
    }

    /// Append one vertex buffer layout; everything else stays as it is.
    pub fn add_buffer_layout(&mut self, layout: VertexBufferLayout)
        ensures
            final(self).vertex_buffer_layouts@ == old(self).vertex_buffer_layouts@.push(layout),
            final(self).shader_filename == old(self).shader_filename,
            final(self).vertex_entry == old(self).vertex_entry,
            final(self).fragment_entry == old(self).fragment_entry,
            final(self).pixel_format == old(self).pixel_format,
    {
        self.vertex_buffer_layouts.push(layout);
    }

    /// Record the shader file and the names of the two entry points;
    /// everything else stays as it is.
    pub fn set_shader_module(
        &mut self,
        shader_filename: &str,
        vertex_entry: &str,
        fragment_entry: &str,
    )
        ensures
            final(self).shader_filename@ == shader_filename@,
            final(self).vertex_entry@ == vertex_entry@,
            final(self).fragment_entry@ == fragment_entry@,
            final(self).pixel_format == old(self).pixel_format,
            final(self).vertex_buffer_layouts == old(self).vertex_buffer_layouts,
    {
        self.shader_filename = shader_filename.to_owned();
        self.vertex_entry = vertex_entry.to_owned();
        self.fragment_entry = fragment_entry.to_owned();
    }

    /// Record the colour target's pixel format; everything else stays as it
    /// is.
    pub fn set_pixel_format(&mut self, pixel_format: PixelFormat)
        ensures
            final(self).pixel_format == pixel_format,
            final(self).shader_filename == old(self).shader_filename,
            final(self).vertex_entry == old(self).vertex_entry,
            final(self).fragment_entry == old(self).fragment_entry,
            final(self).vertex_buffer_layouts == old(self).vertex_buffer_layouts,
    {
        self.pixel_format = pixel_format;
    }

    /// The path of the shader file relative to the working directory: the
    /// recorded file name under the source directory.
    pub fn shader_path(&self) -> (p: String)
        ensures
            p@ == "src/"@ + self.shader_filename@,
    {
        let mut p = String::from_str("src/");
        p.append(self.shader_filename.as_str());
        p
    }
}

} // verus!
