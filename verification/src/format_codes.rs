use vstd::prelude::*;
use crate::enums::{
    ComponentType, component_type_from_code, component_type_code, BufferViewTarget, buffer_view_target_from_code, buffer_view_target_code, MeshPrimitiveMode, primitive_mode_from_code, primitive_mode_code, SamplerFilter, sampler_filter_from_code, sampler_filter_code, SamplerWrap, sampler_wrap_from_code, sampler_wrap_code, AnimationChannelTargetPath, target_path_from_text, target_path_text, AccessorType, accessor_type_from_text, accessor_type_text, AnimationSamplerInterpolationType, interpolation_from_text, interpolation_text, MaterialAlphaMode, alpha_mode_from_text, alpha_mode_text, CameraType, camera_type_from_text, camera_type_text, ImageMimeType, mime_type_from_text, mime_type_text,
};

verus! {

// The glTF numbers of the component type codes of accessors.
/// The glTF number `BYTE`.
pub const BYTE: usize = 5120;
/// The glTF number `UNSIGNED_BYTE`.
pub const UNSIGNED_BYTE: usize = 5121;
/// The glTF number `SHORT`.
pub const SHORT: usize = 5122;
/// The glTF number `UNSIGNED_SHORT`.
pub const UNSIGNED_SHORT: usize = 5123;
/// The glTF number `UNSIGNED_INT`.
pub const UNSIGNED_INT: usize = 5125;
/// The glTF number `FLOAT`.
pub const FLOAT: usize = 5126;

// The glTF numbers of the buffer view targets.
/// The glTF number `ARRAY_BUFFER`.
pub const ARRAY_BUFFER: usize = 34962;
/// The glTF number `ELEMENT_ARRAY_BUFFER`.
pub const ELEMENT_ARRAY_BUFFER: usize = 34963;

// The glTF numbers of the primitive topologies.
/// The glTF number `POINTS`.
pub const POINTS: usize = 0;
/// The glTF number `LINES`.
pub const LINES: usize = 1;
/// The glTF number `LINE_LOOP`.
pub const LINE_LOOP: usize = 2;
/// The glTF number `LINE_STRIP`.
pub const LINE_STRIP: usize = 3;
/// The glTF number `TRIANGLES`.
pub const TRIANGLES: usize = 4;
/// The glTF number `TRIANGLE_STRIP`.
pub const TRIANGLE_STRIP: usize = 5;
/// The glTF number `TRIANGLE_FAN`.
pub const TRIANGLE_FAN: usize = 6;

// The glTF numbers of the sampler filters.
/// The glTF number `NEAREST`.
pub const NEAREST: usize = 9728;
/// The glTF number `LINEAR`.
pub const LINEAR: usize = 9729;
/// The glTF number `NEAREST_MIPMAP_NEAREST`.
pub const NEAREST_MIPMAP_NEAREST: usize = 9984;
/// The glTF number `LINEAR_MIPMAP_NEAREST`.
pub const LINEAR_MIPMAP_NEAREST: usize = 9985;
/// The glTF number `NEAREST_MIPMAP_LINEAR`.
pub const NEAREST_MIPMAP_LINEAR: usize = 9986;
/// The glTF number `LINEAR_MIPMAP_LINEAR`.
pub const LINEAR_MIPMAP_LINEAR: usize = 9987;

// The glTF numbers of the sampler wrap modes.
/// The glTF number `CLAMP_TO_EDGE`.
pub const CLAMP_TO_EDGE: usize = 33071;
/// The glTF number `MIRRORED_REPEAT`.
pub const MIRRORED_REPEAT: usize = 33648;
/// The glTF number `REPEAT`.
pub const REPEAT: usize = 10497;

/// The component type codes of accessors decode from the numbers the glTF format gives them, and
/// only from those: each number names one variant, every other number
/// decodes to `Undefined`, and each variant encodes back to its number.
pub proof fn lemma_component_type_numbers(n: int)
    ensures
        (component_type_from_code(n) == ComponentType::Byte) <==> n == BYTE,
        (component_type_from_code(n) == ComponentType::UnsignedByte) <==> n == UNSIGNED_BYTE,
        (component_type_from_code(n) == ComponentType::Short) <==> n == SHORT,
        (component_type_from_code(n) == ComponentType::UnsignedShort) <==> n == UNSIGNED_SHORT,
        (component_type_from_code(n) == ComponentType::UnsignedInt) <==> n == UNSIGNED_INT,
        (component_type_from_code(n) == ComponentType::Float) <==> n == FLOAT,
        (component_type_from_code(n) == ComponentType::Undefined) <==> !(n == BYTE || n == UNSIGNED_BYTE || n == SHORT || n == UNSIGNED_SHORT || n == UNSIGNED_INT || n == FLOAT),
        component_type_code(ComponentType::Byte) == BYTE,
        component_type_code(ComponentType::UnsignedByte) == UNSIGNED_BYTE,
        component_type_code(ComponentType::Short) == SHORT,
        component_type_code(ComponentType::UnsignedShort) == UNSIGNED_SHORT,
        component_type_code(ComponentType::UnsignedInt) == UNSIGNED_INT,
        component_type_code(ComponentType::Float) == FLOAT,
        component_type_code(ComponentType::Undefined) == 0,
{
}

/// The buffer view targets decode from the numbers the glTF format gives them, and
/// only from those: each number names one variant, every other number
/// decodes to `Undefined`, and each variant encodes back to its number.
pub proof fn lemma_buffer_view_target_numbers(n: int)
    ensures
        (buffer_view_target_from_code(n) == BufferViewTarget::ArrayBuffer) <==> n == ARRAY_BUFFER,
        (buffer_view_target_from_code(n) == BufferViewTarget::ElementArrayBuffer) <==> n == ELEMENT_ARRAY_BUFFER,
        (buffer_view_target_from_code(n) == BufferViewTarget::Undefined) <==> !(n == ARRAY_BUFFER || n == ELEMENT_ARRAY_BUFFER),
        buffer_view_target_code(BufferViewTarget::ArrayBuffer) == ARRAY_BUFFER,
        buffer_view_target_code(BufferViewTarget::ElementArrayBuffer) == ELEMENT_ARRAY_BUFFER,
        buffer_view_target_code(BufferViewTarget::Undefined) == 0,
{
}

/// The primitive topologies decode from the numbers the glTF format gives them, and
/// only from those: each number names one variant, every other number
/// decodes to `Undefined`, and each variant encodes back to its number.
pub proof fn lemma_primitive_mode_numbers(n: int)
    ensures
        (primitive_mode_from_code(n) == MeshPrimitiveMode::Points) <==> n == POINTS,
        (primitive_mode_from_code(n) == MeshPrimitiveMode::Lines) <==> n == LINES,
        (primitive_mode_from_code(n) == MeshPrimitiveMode::LineLoop) <==> n == LINE_LOOP,
        (primitive_mode_from_code(n) == MeshPrimitiveMode::LineStrip) <==> n == LINE_STRIP,
        (primitive_mode_from_code(n) == MeshPrimitiveMode::Triangles) <==> n == TRIANGLES,
        (primitive_mode_from_code(n) == MeshPrimitiveMode::TriangleStrip) <==> n == TRIANGLE_STRIP,
        (primitive_mode_from_code(n) == MeshPrimitiveMode::TriangleFan) <==> n == TRIANGLE_FAN,
        (primitive_mode_from_code(n) == MeshPrimitiveMode::Undefined) <==> !(n == POINTS || n == LINES || n == LINE_LOOP || n == LINE_STRIP || n == TRIANGLES || n == TRIANGLE_STRIP || n == TRIANGLE_FAN),
        primitive_mode_code(MeshPrimitiveMode::Points) == POINTS,
        primitive_mode_code(MeshPrimitiveMode::Lines) == LINES,
        primitive_mode_code(MeshPrimitiveMode::LineLoop) == LINE_LOOP,
        primitive_mode_code(MeshPrimitiveMode::LineStrip) == LINE_STRIP,
        primitive_mode_code(MeshPrimitiveMode::Triangles) == TRIANGLES,
        primitive_mode_code(MeshPrimitiveMode::TriangleStrip) == TRIANGLE_STRIP,
        primitive_mode_code(MeshPrimitiveMode::TriangleFan) == TRIANGLE_FAN,
        primitive_mode_code(MeshPrimitiveMode::Undefined) == 7,
{
}

/// The sampler filters decode from the numbers the glTF format gives them, and
/// only from those: each number names one variant, every other number
/// decodes to `Undefined`, and each variant encodes back to its number.
pub proof fn lemma_sampler_filter_numbers(n: int)
    ensures
        (sampler_filter_from_code(n) == SamplerFilter::Nearest) <==> n == NEAREST,
        (sampler_filter_from_code(n) == SamplerFilter::Linear) <==> n == LINEAR,
        (sampler_filter_from_code(n) == SamplerFilter::NearestMipmapNearest) <==> n == NEAREST_MIPMAP_NEAREST,
        (sampler_filter_from_code(n) == SamplerFilter::LinearMipmapNearest) <==> n == LINEAR_MIPMAP_NEAREST,
        (sampler_filter_from_code(n) == SamplerFilter::NearestMipmapLinear) <==> n == NEAREST_MIPMAP_LINEAR,
        (sampler_filter_from_code(n) == SamplerFilter::LinearMipmapLinear) <==> n == LINEAR_MIPMAP_LINEAR,
        (sampler_filter_from_code(n) == SamplerFilter::Undefined) <==> !(n == NEAREST || n == LINEAR || n == NEAREST_MIPMAP_NEAREST || n == LINEAR_MIPMAP_NEAREST || n == NEAREST_MIPMAP_LINEAR || n == LINEAR_MIPMAP_LINEAR),
        sampler_filter_code(SamplerFilter::Nearest) == NEAREST,
        sampler_filter_code(SamplerFilter::Linear) == LINEAR,
        sampler_filter_code(SamplerFilter::NearestMipmapNearest) == NEAREST_MIPMAP_NEAREST,
        sampler_filter_code(SamplerFilter::LinearMipmapNearest) == LINEAR_MIPMAP_NEAREST,
        sampler_filter_code(SamplerFilter::NearestMipmapLinear) == NEAREST_MIPMAP_LINEAR,
        sampler_filter_code(SamplerFilter::LinearMipmapLinear) == LINEAR_MIPMAP_LINEAR,
        sampler_filter_code(SamplerFilter::Undefined) == 0,
{
}

/// The sampler wrap modes decode from the numbers the glTF format gives them, and
/// only from those: each number names one variant, every other number
/// decodes to `Undefined`, and each variant encodes back to its number.
pub proof fn lemma_sampler_wrap_numbers(n: int)
    ensures
        (sampler_wrap_from_code(n) == SamplerWrap::ClampToEdge) <==> n == CLAMP_TO_EDGE,
        (sampler_wrap_from_code(n) == SamplerWrap::MirroredRepeat) <==> n == MIRRORED_REPEAT,
        (sampler_wrap_from_code(n) == SamplerWrap::Repeat) <==> n == REPEAT,
        (sampler_wrap_from_code(n) == SamplerWrap::Undefined) <==> !(n == CLAMP_TO_EDGE || n == MIRRORED_REPEAT || n == REPEAT),
        sampler_wrap_code(SamplerWrap::ClampToEdge) == CLAMP_TO_EDGE,
        sampler_wrap_code(SamplerWrap::MirroredRepeat) == MIRRORED_REPEAT,
        sampler_wrap_code(SamplerWrap::Repeat) == REPEAT,
        sampler_wrap_code(SamplerWrap::Undefined) == 0,
{
}

/// The animation channel target paths decode from the names the glTF format gives them, and
/// only from those: each name names one variant, every other text decodes
/// to `Undefined`, and each variant encodes back to its name.
pub proof fn lemma_target_path_names(s: Seq<char>)
    ensures
        (target_path_from_text(s) == AnimationChannelTargetPath::Translation) <==> s == "translation"@,
        (target_path_from_text(s) == AnimationChannelTargetPath::Rotation) <==> s == "rotation"@,
        (target_path_from_text(s) == AnimationChannelTargetPath::Scale) <==> s == "scale"@,
        (target_path_from_text(s) == AnimationChannelTargetPath::Weights) <==> s == "weights"@,
        (target_path_from_text(s) == AnimationChannelTargetPath::Undefined) <==> !(s == "translation"@ || s == "rotation"@ || s == "scale"@ || s == "weights"@),
        target_path_text(AnimationChannelTargetPath::Translation)@ == "translation"@,
        target_path_text(AnimationChannelTargetPath::Rotation)@ == "rotation"@,
        target_path_text(AnimationChannelTargetPath::Scale)@ == "scale"@,
        target_path_text(AnimationChannelTargetPath::Weights)@ == "weights"@,
{
    reveal_strlit("translation");
    reveal_strlit("rotation");
    reveal_strlit("scale");
    reveal_strlit("weights");
    assert("translation"@ =~= seq!['t', 'r', 'a', 'n', 's', 'l', 'a', 't', 'i', 'o', 'n']);
    assert("rotation"@ =~= seq!['r', 'o', 't', 'a', 't', 'i', 'o', 'n']);
    assert("scale"@ =~= seq!['s', 'c', 'a', 'l', 'e']);
    assert("weights"@ =~= seq!['w', 'e', 'i', 'g', 'h', 't', 's']);
}

/// The accessor element types decode from the names the glTF format gives them, and
/// only from those: each name names one variant, every other text decodes
/// to `Undefined`, and each variant encodes back to its name.
pub proof fn lemma_accessor_type_names(s: Seq<char>)
    ensures
        (accessor_type_from_text(s) == AccessorType::Scalar) <==> s == "SCALAR"@,
        (accessor_type_from_text(s) == AccessorType::Vec2) <==> s == "VEC2"@,
        (accessor_type_from_text(s) == AccessorType::Vec3) <==> s == "VEC3"@,
        (accessor_type_from_text(s) == AccessorType::Vec4) <==> s == "VEC4"@,
        (accessor_type_from_text(s) == AccessorType::Mat2) <==> s == "MAT2"@,
        (accessor_type_from_text(s) == AccessorType::Mat3) <==> s == "MAT3"@,
        (accessor_type_from_text(s) == AccessorType::Mat4) <==> s == "MAT4"@,
        (accessor_type_from_text(s) == AccessorType::Undefined) <==> !(s == "SCALAR"@ || s == "VEC2"@ || s == "VEC3"@ || s == "VEC4"@ || s == "MAT2"@ || s == "MAT3"@ || s == "MAT4"@),
        accessor_type_text(AccessorType::Scalar)@ == "SCALAR"@,
        accessor_type_text(AccessorType::Vec2)@ == "VEC2"@,
        accessor_type_text(AccessorType::Vec3)@ == "VEC3"@,
        accessor_type_text(AccessorType::Vec4)@ == "VEC4"@,
        accessor_type_text(AccessorType::Mat2)@ == "MAT2"@,
        accessor_type_text(AccessorType::Mat3)@ == "MAT3"@,
        accessor_type_text(AccessorType::Mat4)@ == "MAT4"@,
{
    reveal_strlit("SCALAR");
    reveal_strlit("VEC2");
    reveal_strlit("VEC3");
    reveal_strlit("VEC4");
    reveal_strlit("MAT2");
    reveal_strlit("MAT3");
    reveal_strlit("MAT4");
    assert("SCALAR"@ =~= seq!['S', 'C', 'A', 'L', 'A', 'R']);
    assert("VEC2"@ =~= seq!['V', 'E', 'C', '2']);
    assert("VEC3"@ =~= seq!['V', 'E', 'C', '3']);
    assert("VEC4"@ =~= seq!['V', 'E', 'C', '4']);
    assert("MAT2"@ =~= seq!['M', 'A', 'T', '2']);
    assert("MAT3"@ =~= seq!['M', 'A', 'T', '3']);
    assert("MAT4"@ =~= seq!['M', 'A', 'T', '4']);
}

/// The animation interpolations decode from the names the glTF format gives them, and
/// only from those: each name names one variant, every other text decodes
/// to `Undefined`, and each variant encodes back to its name.
pub proof fn lemma_interpolation_names(s: Seq<char>)
    ensures
        (interpolation_from_text(s) == AnimationSamplerInterpolationType::Linear) <==> s == "LINEAR"@,
        (interpolation_from_text(s) == AnimationSamplerInterpolationType::Step) <==> s == "STEP"@,
        (interpolation_from_text(s) == AnimationSamplerInterpolationType::CubicSpline) <==> s == "CUBICSPLINE"@,
        (interpolation_from_text(s) == AnimationSamplerInterpolationType::Undefined) <==> !(s == "LINEAR"@ || s == "STEP"@ || s == "CUBICSPLINE"@),
        interpolation_text(AnimationSamplerInterpolationType::Linear)@ == "LINEAR"@,
        interpolation_text(AnimationSamplerInterpolationType::Step)@ == "STEP"@,
        interpolation_text(AnimationSamplerInterpolationType::CubicSpline)@ == "CUBICSPLINE"@,
{
    reveal_strlit("LINEAR");
    reveal_strlit("STEP");
    reveal_strlit("CUBICSPLINE");
    assert("LINEAR"@ =~= seq!['L', 'I', 'N', 'E', 'A', 'R']);
    assert("STEP"@ =~= seq!['S', 'T', 'E', 'P']);
    assert("CUBICSPLINE"@ =~= seq!['C', 'U', 'B', 'I', 'C', 'S', 'P', 'L', 'I', 'N', 'E']);
}

/// The material alpha modes decode from the names the glTF format gives them, and
/// only from those: each name names one variant, every other text decodes
/// to `Undefined`, and each variant encodes back to its name.
pub proof fn lemma_alpha_mode_names(s: Seq<char>)
    ensures
        (alpha_mode_from_text(s) == MaterialAlphaMode::Opaque) <==> s == "OPAQUE"@,
        (alpha_mode_from_text(s) == MaterialAlphaMode::Mask) <==> s == "MASK"@,
        (alpha_mode_from_text(s) == MaterialAlphaMode::Blend) <==> s == "BLEND"@,
        (alpha_mode_from_text(s) == MaterialAlphaMode::Undefined) <==> !(s == "OPAQUE"@ || s == "MASK"@ || s == "BLEND"@),
        alpha_mode_text(MaterialAlphaMode::Opaque)@ == "OPAQUE"@,
        alpha_mode_text(MaterialAlphaMode::Mask)@ == "MASK"@,
        alpha_mode_text(MaterialAlphaMode::Blend)@ == "BLEND"@,
{
    reveal_strlit("OPAQUE");
    reveal_strlit("MASK");
    reveal_strlit("BLEND");
    assert("OPAQUE"@ =~= seq!['O', 'P', 'A', 'Q', 'U', 'E']);
    assert("MASK"@ =~= seq!['M', 'A', 'S', 'K']);
    assert("BLEND"@ =~= seq!['B', 'L', 'E', 'N', 'D']);
}

/// The camera projections decode from the names the glTF format gives them, and
/// only from those: each name names one variant, every other text decodes
/// to `Undefined`, and each variant encodes back to its name.
pub proof fn lemma_camera_type_names(s: Seq<char>)
    ensures
        (camera_type_from_text(s) == CameraType::Perspective) <==> s == "perspective"@,
        (camera_type_from_text(s) == CameraType::Orthographic) <==> s == "orthographic"@,
        (camera_type_from_text(s) == CameraType::Undefined) <==> !(s == "perspective"@ || s == "orthographic"@),
        camera_type_text(CameraType::Perspective)@ == "perspective"@,
        camera_type_text(CameraType::Orthographic)@ == "orthographic"@,
{
    reveal_strlit("perspective");
    reveal_strlit("orthographic");
    assert("perspective"@ =~= seq!['p', 'e', 'r', 's', 'p', 'e', 'c', 't', 'i', 'v', 'e']);
    assert("orthographic"@ =~= seq!['o', 'r', 't', 'h', 'o', 'g', 'r', 'a', 'p', 'h', 'i', 'c']);
}

/// The image media types decode from the names the glTF format gives them, and
/// only from those: each name names one variant, every other text decodes
/// to `Undefined`, and each variant encodes back to its name.
pub proof fn lemma_mime_type_names(s: Seq<char>)
    ensures
        (mime_type_from_text(s) == ImageMimeType::Jpeg) <==> s == "image/jpeg"@,
        (mime_type_from_text(s) == ImageMimeType::Png) <==> s == "image/png"@,
        (mime_type_from_text(s) == ImageMimeType::Undefined) <==> !(s == "image/jpeg"@ || s == "image/png"@),
        mime_type_text(ImageMimeType::Jpeg)@ == "image/jpeg"@,
        mime_type_text(ImageMimeType::Png)@ == "image/png"@,
{
    reveal_strlit("image/jpeg");
    reveal_strlit("image/png");
    assert("image/jpeg"@ =~= seq!['i', 'm', 'a', 'g', 'e', '/', 'j', 'p', 'e', 'g']);
    assert("image/png"@ =~= seq!['i', 'm', 'a', 'g', 'e', '/', 'p', 'n', 'g']);
}

} // verus!
