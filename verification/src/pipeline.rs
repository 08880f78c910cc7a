//! Shader binaries and the fixed state of the graphics pipeline.

use crate::error::RendererError;
use crate::resource::ShaderStage;
use vstd::prelude::*;

verus! {

/// The first word of every shader binary.
pub const SPIRV_MAGIC: u32 = 0x0723_0203;

/// Where the vertex shader's binary is read from.
pub const VERTEX_SHADER_PATH: &'static str = "./shaders/default_vert.spv";

/// Where the fragment shader's binary is read from.
pub const FRAGMENT_SHADER_PATH: &'static str = "./shaders/default_frag.spv";

/// The name of the function a shader stage starts at.
pub const SHADER_ENTRY_POINT: &'static str = "main";

/// Stage bit of the vertex stage.
pub const SHADER_STAGE_VERTEX: u32 = 0x01;

/// Stage bit of the fragment stage.
pub const SHADER_STAGE_FRAGMENT: u32 = 0x10;

/// The 32-bit word that four bytes spell when the first is the least
/// significant.
pub open spec fn word_le(bytes: Seq<u8>, index: int) -> u32 {
    (bytes[4 * index] + bytes[4 * index + 1] * 0x100 + bytes[4 * index + 2] * 0x1_0000 + bytes[4
        * index + 3] * 0x100_0000) as u32
}

/// The 32-bit word that four bytes spell when the first is the most
/// significant.
pub open spec fn word_be(bytes: Seq<u8>, index: int) -> u32 {
    (bytes[4 * index + 3] + bytes[4 * index + 2] * 0x100 + bytes[4 * index + 1] * 0x1_0000
        + bytes[4 * index] * 0x100_0000) as u32
}

/// The words of a shader binary. A binary is a whole, non-zero number of
/// 32-bit words, all stored in the same byte order, of which the first is
/// the magic number; the byte order is the one in which the first word reads
/// as the magic number. Anything else is no shader binary.
pub open spec fn spirv_words(bytes: Seq<u8>) -> Option<Seq<u32>> {
    if bytes.len() == 0 || bytes.len() % 4 != 0 {
        None
    } else if word_le(bytes, 0) == SPIRV_MAGIC {
        Some(Seq::new(bytes.len() / 4, |i: int| word_le(bytes, i)))
    } else if word_be(bytes, 0) == SPIRV_MAGIC {
        Some(Seq::new(bytes.len() / 4, |i: int| word_be(bytes, i)))
    } else {
        None
    }
}

/// Calls `ash::util::read_spv` on the bytes, through an in-memory reader.
/// Trusted: that function accepts exactly the inputs that are a whole,
/// non-zero number of words whose first word is the magic number in one of
/// the two byte orders, and returns their words read in that byte order; an
/// in-memory reader gives it no other way to fail.
#[verifier::external_body]
fn read_spv_words(bytes: &Vec<u8>) -> (words: Option<Vec<u32>>)
    ensures
        words is Some <==> spirv_words(bytes@) is Some,
        words is Some ==> words->0@ == spirv_words(bytes@)->0,
{
    ash::util::read_spv(&mut std::io::Cursor::new(bytes.as_slice())).ok()
}

/// Repacks the bytes of a shader binary into 32-bit words. Bytes that are no
/// shader binary count as a missing asset.
pub fn decode_shader(bytes: &Vec<u8>) -> (words: Result<Vec<u32>, RendererError>)
    ensures
        words is Ok <==> spirv_words(bytes@) is Some,
        words is Ok ==> words->Ok_0@ == spirv_words(bytes@)->0,
        words is Ok ==> words->Ok_0.len() * 4 == bytes.len() && words->Ok_0.len() > 0
            && words->Ok_0[0] == SPIRV_MAGIC,
        words is Err ==> words->Err_0 == RendererError::AssetMissing,
{
    match read_spv_words(bytes) {
        Some(words) => Ok(words),
        None => Err(RendererError::AssetMissing),
    }
}

/// Where the binary of a stage's shader is read from.
pub open spec fn shader_path_text(stage: ShaderStage) -> Seq<char> {
    match stage {
        ShaderStage::Vertex => VERTEX_SHADER_PATH@,
        ShaderStage::Fragment => FRAGMENT_SHADER_PATH@,
    }
}

/// Where the binary of a stage's shader is read from.
pub fn shader_path(stage: ShaderStage) -> (path: &'static str)
    ensures
        path@ == shader_path_text(stage),
{
    match stage {
        ShaderStage::Vertex => VERTEX_SHADER_PATH,
        ShaderStage::Fragment => FRAGMENT_SHADER_PATH,
    }
}

/// The stage bit of a shader stage.
pub open spec fn stage_bit_of(stage: ShaderStage) -> u32 {
    match stage {
        ShaderStage::Vertex => SHADER_STAGE_VERTEX,
        ShaderStage::Fragment => SHADER_STAGE_FRAGMENT,
    }
}

/// The stage bit of a shader stage.
pub fn stage_bit(stage: ShaderStage) -> (bit: u32)
    ensures
        bit == stage_bit_of(stage),
{
    match stage {
        ShaderStage::Vertex => SHADER_STAGE_VERTEX,
        ShaderStage::Fragment => SHADER_STAGE_FRAGMENT,
    }
}

/// Code of the topology that draws every three vertices as a triangle.
pub const TOPOLOGY_TRIANGLE_LIST: i32 = 3;

/// Code of the polygon mode that fills triangles.
pub const POLYGON_MODE_FILL: i32 = 0;

/// Cull bit of back-facing triangles.
pub const CULL_MODE_BACK: u32 = 0x2;

/// Code of the winding that makes clockwise triangles front-facing.
pub const FRONT_FACE_CLOCKWISE: i32 = 1;

/// Code of the dynamic state for the viewport.
pub const DYNAMIC_STATE_VIEWPORT: i32 = 0;

/// Code of the dynamic state for the scissor rectangle.
pub const DYNAMIC_STATE_SCISSOR: i32 = 1;

/// Sample-count bit for one sample per pixel.
pub const SAMPLE_COUNT_1: u32 = 0x1;

/// Write mask of all four color channels.
pub const COLOR_WRITE_ALL: u32 = 0xf;

/// The fixed-function state of the pipeline.
#[derive(Clone, Copy, Debug, PartialEq, Eq, Structural)]
pub struct PipelinePlan {
    /// How many vertex buffer bindings the pipeline reads.
    pub vertex_binding_count: u32,
    /// How many vertex attributes the pipeline reads.
    pub vertex_attribute_count: u32,
    pub topology: i32,
    pub primitive_restart: bool,
    /// How many viewports there are. Their values are set at draw time.
    pub viewport_count: u32,
    /// How many scissor rectangles there are. Their values are set at draw
    /// time.
    pub scissor_count: u32,
    /// The first piece of state that is set at draw time.
    pub first_dynamic_state: i32,
    /// The second piece of state that is set at draw time.
    pub second_dynamic_state: i32,
    pub polygon_mode: i32,
    pub cull_mode: u32,
    pub front_face: i32,
    pub rasterization_samples: u32,
    /// How many color attachments are blended into.
    pub blend_attachment_count: u32,
    pub blend_enable: bool,
    pub color_write_mask: u32,
    /// How many descriptor set layouts the pipeline layout holds.
    pub set_layout_count: u32,
    /// How many push-constant ranges the pipeline layout holds.
    pub push_constant_range_count: u32,
}

impl PipelinePlan {
    /// The one pipeline this library builds: no vertex input, triangle
    /// lists, viewport and scissor set at draw time, filled triangles with
    /// back faces culled and clockwise front faces, one sample per pixel,
    /// one color attachment written without blending, and an empty layout.
    pub open spec fn standard() -> PipelinePlan {
        PipelinePlan {
            vertex_binding_count: 0,
            vertex_attribute_count: 0,
            topology: TOPOLOGY_TRIANGLE_LIST,
            primitive_restart: false,
            viewport_count: 1,
            scissor_count: 1,
            first_dynamic_state: DYNAMIC_STATE_VIEWPORT,
            second_dynamic_state: DYNAMIC_STATE_SCISSOR,
            polygon_mode: POLYGON_MODE_FILL,
            cull_mode: CULL_MODE_BACK,
            front_face: FRONT_FACE_CLOCKWISE,
            rasterization_samples: SAMPLE_COUNT_1,
            blend_attachment_count: 1,
            blend_enable: false,
            color_write_mask: COLOR_WRITE_ALL,
            set_layout_count: 0,
            push_constant_range_count: 0,
        }
    }

    /// The fixed-function state to build the pipeline with.
    pub fn new() -> (plan: PipelinePlan)
        ensures
            plan == Self::standard(),
    {
        PipelinePlan {
            vertex_binding_count: 0,
            vertex_attribute_count: 0,
            topology: TOPOLOGY_TRIANGLE_LIST,
            primitive_restart: false,
            viewport_count: 1,
            scissor_count: 1,
            first_dynamic_state: DYNAMIC_STATE_VIEWPORT,
            second_dynamic_state: DYNAMIC_STATE_SCISSOR,
            polygon_mode: POLYGON_MODE_FILL,
            cull_mode: CULL_MODE_BACK,
            front_face: FRONT_FACE_CLOCKWISE,
            rasterization_samples: SAMPLE_COUNT_1,
            blend_attachment_count: 1,
            blend_enable: false,
            color_write_mask: COLOR_WRITE_ALL,
            set_layout_count: 0,
            push_constant_range_count: 0,
        }
    }
}

} // verus!
