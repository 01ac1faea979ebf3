use vstd::prelude::*;
use vstd::std_specs::convert::FromSpecImpl;
use crate::text::text_eq;

verus! {

/// Values read from a glTF file may fall outside the set the format allows;
/// such values decode to an `Undefined` variant, which this trait detects.
pub trait Undefinable {
    spec fn spec_is_undefined(&self) -> bool;

    fn is_undefined(&self) -> (r: bool)
        ensures
            r == self.spec_is_undefined(),
    ;
}

/// The property of a node that an animation channel drives.
#[derive(Debug, PartialEq, Eq, Structural, Clone, Copy)]
pub enum AnimationChannelTargetPath {
    Translation,
    Rotation,
    Scale,
    Weights,
    Undefined,
}

/// The variant that the text `s` decodes to.
pub open spec fn target_path_from_text(s: Seq<char>) -> AnimationChannelTargetPath {
    if s == "translation"@ {
        AnimationChannelTargetPath::Translation
    } else if s == "rotation"@ {
        AnimationChannelTargetPath::Rotation
    } else if s == "scale"@ {
        AnimationChannelTargetPath::Scale
    } else if s == "weights"@ {
        AnimationChannelTargetPath::Weights
    } else {
        AnimationChannelTargetPath::Undefined
    }
}

/// The text that a variant encodes to (empty for `Undefined`).
pub open spec fn target_path_text<'a>(v: AnimationChannelTargetPath) -> &'a str {
    match v {
        AnimationChannelTargetPath::Translation => "translation",
        AnimationChannelTargetPath::Rotation => "rotation",
        AnimationChannelTargetPath::Scale => "scale",
        AnimationChannelTargetPath::Weights => "weights",
        AnimationChannelTargetPath::Undefined => "",
    }
}

impl From<String> for AnimationChannelTargetPath {
    fn from(val: String) -> (r: Self) {
        let s = val.as_str();
        if text_eq(s, "translation") {
            AnimationChannelTargetPath::Translation
        } else if text_eq(s, "rotation") {
            AnimationChannelTargetPath::Rotation
        } else if text_eq(s, "scale") {
            AnimationChannelTargetPath::Scale
        } else if text_eq(s, "weights") {
            AnimationChannelTargetPath::Weights
        } else {
            AnimationChannelTargetPath::Undefined
        }
    }
}

impl FromSpecImpl<String> for AnimationChannelTargetPath {
    open spec fn obeys_from_spec() -> bool {
        true
    }

    open spec fn from_spec(v: String) -> Self {
        target_path_from_text(v@)
    }
}

impl<'a> From<AnimationChannelTargetPath> for &'a str {
    fn from(val: AnimationChannelTargetPath) -> (r: Self) {
        match val {
            AnimationChannelTargetPath::Translation => "translation",
            AnimationChannelTargetPath::Rotation => "rotation",
            AnimationChannelTargetPath::Scale => "scale",
            AnimationChannelTargetPath::Weights => "weights",
            AnimationChannelTargetPath::Undefined => "",
        }
    }
}

impl<'a> FromSpecImpl<AnimationChannelTargetPath> for &'a str {
    open spec fn obeys_from_spec() -> bool {
        true
    }

    open spec fn from_spec(v: AnimationChannelTargetPath) -> Self {
        target_path_text(v)
    }
}

impl Undefinable for AnimationChannelTargetPath {
    open spec fn spec_is_undefined(&self) -> bool {
        *self == AnimationChannelTargetPath::Undefined
    }

    fn is_undefined(&self) -> (r: bool) {
        *self == AnimationChannelTargetPath::Undefined
    }
}

/// Whether an accessor's elements are scalars, vectors or matrices.
#[derive(Debug, PartialEq, Eq, Structural, Clone, Copy)]
pub enum AccessorType {
    Vec2,
    Vec3,
    Vec4,
    Mat2,
    Mat3,
    Mat4,
    Scalar,
    Undefined,
}

/// The variant that the text `s` decodes to.
pub open spec fn accessor_type_from_text(s: Seq<char>) -> AccessorType {
    if s == "VEC2"@ {
        AccessorType::Vec2
    } else if s == "VEC3"@ {
        AccessorType::Vec3
    } else if s == "VEC4"@ {
        AccessorType::Vec4
    } else if s == "MAT2"@ {
        AccessorType::Mat2
    } else if s == "MAT3"@ {
        AccessorType::Mat3
    } else if s == "MAT4"@ {
        AccessorType::Mat4
    } else if s == "SCALAR"@ {
        AccessorType::Scalar
    } else {
        AccessorType::Undefined
    }
}

/// The text that a variant encodes to (empty for `Undefined`).
pub open spec fn accessor_type_text<'a>(v: AccessorType) -> &'a str {
    match v {
        AccessorType::Vec2 => "VEC2",
        AccessorType::Vec3 => "VEC3",
        AccessorType::Vec4 => "VEC4",
        AccessorType::Mat2 => "MAT2",
        AccessorType::Mat3 => "MAT3",
        AccessorType::Mat4 => "MAT4",
        AccessorType::Scalar => "SCALAR",
        AccessorType::Undefined => "",
    }
}

impl From<String> for AccessorType {
    fn from(val: String) -> (r: Self) {
        let s = val.as_str();
        if text_eq(s, "VEC2") {
            AccessorType::Vec2
        } else if text_eq(s, "VEC3") {
            AccessorType::Vec3
        } else if text_eq(s, "VEC4") {
            AccessorType::Vec4
        } else if text_eq(s, "MAT2") {
            AccessorType::Mat2
        } else if text_eq(s, "MAT3") {
            AccessorType::Mat3
        } else if text_eq(s, "MAT4") {
            AccessorType::Mat4
        } else if text_eq(s, "SCALAR") {
            AccessorType::Scalar
        } else {
            AccessorType::Undefined
        }
    }
}

impl FromSpecImpl<String> for AccessorType {
    open spec fn obeys_from_spec() -> bool {
        true
    }

    open spec fn from_spec(v: String) -> Self {
        accessor_type_from_text(v@)
    }
}

impl<'a> From<AccessorType> for &'a str {
    fn from(val: AccessorType) -> (r: Self) {
        match val {
            AccessorType::Vec2 => "VEC2",
            AccessorType::Vec3 => "VEC3",
            AccessorType::Vec4 => "VEC4",
            AccessorType::Mat2 => "MAT2",
            AccessorType::Mat3 => "MAT3",
            AccessorType::Mat4 => "MAT4",
            AccessorType::Scalar => "SCALAR",
            AccessorType::Undefined => "",
        }
    }
}

impl<'a> FromSpecImpl<AccessorType> for &'a str {
    open spec fn obeys_from_spec() -> bool {
        true
    }

    open spec fn from_spec(v: AccessorType) -> Self {
        accessor_type_text(v)
    }
}

impl Undefinable for AccessorType {
    open spec fn spec_is_undefined(&self) -> bool {
        *self == AccessorType::Undefined
    }

    fn is_undefined(&self) -> (r: bool) {
        *self == AccessorType::Undefined
    }
}

/// How an animation sampler interpolates between keyframes.
#[derive(Debug, PartialEq, Eq, Structural, Clone, Copy)]
pub enum AnimationSamplerInterpolationType {
    Linear,
    Step,
    CubicSpline,
    Undefined,
}

/// The variant that the text `s` decodes to.
pub open spec fn interpolation_from_text(s: Seq<char>) -> AnimationSamplerInterpolationType {
    if s == "LINEAR"@ {
        AnimationSamplerInterpolationType::Linear
    } else if s == "STEP"@ {
        AnimationSamplerInterpolationType::Step
    } else if s == "CUBICSPLINE"@ {
        AnimationSamplerInterpolationType::CubicSpline
    } else {
        AnimationSamplerInterpolationType::Undefined
    }
}

/// The text that a variant encodes to (empty for `Undefined`).
pub open spec fn interpolation_text<'a>(v: AnimationSamplerInterpolationType) -> &'a str {
    match v {
        AnimationSamplerInterpolationType::Linear => "LINEAR",
        AnimationSamplerInterpolationType::Step => "STEP",
        AnimationSamplerInterpolationType::CubicSpline => "CUBICSPLINE",
        AnimationSamplerInterpolationType::Undefined => "",
    }
}

impl From<String> for AnimationSamplerInterpolationType {
    fn from(val: String) -> (r: Self) {
        let s = val.as_str();
        if text_eq(s, "LINEAR") {
            AnimationSamplerInterpolationType::Linear
        } else if text_eq(s, "STEP") {
            AnimationSamplerInterpolationType::Step
        } else if text_eq(s, "CUBICSPLINE") {
            AnimationSamplerInterpolationType::CubicSpline
        } else {
            AnimationSamplerInterpolationType::Undefined
        }
    }
}

impl FromSpecImpl<String> for AnimationSamplerInterpolationType {
    open spec fn obeys_from_spec() -> bool {
        true
    }

    open spec fn from_spec(v: String) -> Self {
        interpolation_from_text(v@)
    }
}

impl<'a> From<AnimationSamplerInterpolationType> for &'a str {
    fn from(val: AnimationSamplerInterpolationType) -> (r: Self) {
        match val {
            AnimationSamplerInterpolationType::Linear => "LINEAR",
            AnimationSamplerInterpolationType::Step => "STEP",
            AnimationSamplerInterpolationType::CubicSpline => "CUBICSPLINE",
            AnimationSamplerInterpolationType::Undefined => "",
        }
    }
}

impl<'a> FromSpecImpl<AnimationSamplerInterpolationType> for &'a str {
    open spec fn obeys_from_spec() -> bool {
        true
    }

    open spec fn from_spec(v: AnimationSamplerInterpolationType) -> Self {
        interpolation_text(v)
    }
}

impl Undefinable for AnimationSamplerInterpolationType {
    open spec fn spec_is_undefined(&self) -> bool {
        *self == AnimationSamplerInterpolationType::Undefined
    }

    fn is_undefined(&self) -> (r: bool) {
        *self == AnimationSamplerInterpolationType::Undefined
    }
}

impl Default for AnimationSamplerInterpolationType {
    fn default() -> (r: Self)
        ensures
            r == AnimationSamplerInterpolationType::Linear,
    {
        AnimationSamplerInterpolationType::Linear
    }
}

/// How the alpha value of a material's base colour is interpreted.
#[derive(Debug, PartialEq, Eq, Structural, Clone, Copy)]
pub enum MaterialAlphaMode {
    Opaque,
    Mask,
    Blend,
    Undefined,
}

/// The variant that the text `s` decodes to.
pub open spec fn alpha_mode_from_text(s: Seq<char>) -> MaterialAlphaMode {
    if s == "OPAQUE"@ {
        MaterialAlphaMode::Opaque
    } else if s == "MASK"@ {
        MaterialAlphaMode::Mask
    } else if s == "BLEND"@ {
        MaterialAlphaMode::Blend
    } else {
        MaterialAlphaMode::Undefined
    }
}

/// The text that a variant encodes to (empty for `Undefined`).
pub open spec fn alpha_mode_text<'a>(v: MaterialAlphaMode) -> &'a str {
    match v {
        MaterialAlphaMode::Opaque => "OPAQUE",
        MaterialAlphaMode::Mask => "MASK",
        MaterialAlphaMode::Blend => "BLEND",
        MaterialAlphaMode::Undefined => "",
    }
}

impl From<String> for MaterialAlphaMode {
    fn from(val: String) -> (r: Self) {
        let s = val.as_str();
        if text_eq(s, "OPAQUE") {
            MaterialAlphaMode::Opaque
        } else if text_eq(s, "MASK") {
            MaterialAlphaMode::Mask
        } else if text_eq(s, "BLEND") {
            MaterialAlphaMode::Blend
        } else {
            MaterialAlphaMode::Undefined
        }
    }
}

impl FromSpecImpl<String> for MaterialAlphaMode {
    open spec fn obeys_from_spec() -> bool {
        true
    }

    open spec fn from_spec(v: String) -> Self {
        alpha_mode_from_text(v@)
    }
}

impl<'a> From<MaterialAlphaMode> for &'a str {
    fn from(val: MaterialAlphaMode) -> (r: Self) {
        match val {
            MaterialAlphaMode::Opaque => "OPAQUE",
            MaterialAlphaMode::Mask => "MASK",
            MaterialAlphaMode::Blend => "BLEND",
            MaterialAlphaMode::Undefined => "",
        }
    }
}

impl<'a> FromSpecImpl<MaterialAlphaMode> for &'a str {
    open spec fn obeys_from_spec() -> bool {
        true
    }

    open spec fn from_spec(v: MaterialAlphaMode) -> Self {
        alpha_mode_text(v)
    }
}

impl Undefinable for MaterialAlphaMode {
    open spec fn spec_is_undefined(&self) -> bool {
        *self == MaterialAlphaMode::Undefined
    }

    fn is_undefined(&self) -> (r: bool) {
        *self == MaterialAlphaMode::Undefined
    }
}

impl Default for MaterialAlphaMode {
    fn default() -> (r: Self)
        ensures
            r == MaterialAlphaMode::Opaque,
    {
        MaterialAlphaMode::Opaque
    }
}

/// Whether a camera uses a perspective or an orthographic projection.
#[derive(Debug, PartialEq, Eq, Structural, Clone, Copy)]
pub enum CameraType {
    Perspective,
    Orthographic,
    Undefined,
}

/// The variant that the text `s` decodes to.
pub open spec fn camera_type_from_text(s: Seq<char>) -> CameraType {
    if s == "perspective"@ {
        CameraType::Perspective
    } else if s == "orthographic"@ {
        CameraType::Orthographic
    } else {
        CameraType::Undefined
    }
}

/// The text that a variant encodes to (empty for `Undefined`).
pub open spec fn camera_type_text<'a>(v: CameraType) -> &'a str {
    match v {
        CameraType::Perspective => "perspective",
        CameraType::Orthographic => "orthographic",
        CameraType::Undefined => "",
    }
}

impl From<String> for CameraType {
    fn from(val: String) -> (r: Self) {
        let s = val.as_str();
        if text_eq(s, "perspective") {
            CameraType::Perspective
        } else if text_eq(s, "orthographic") {
            CameraType::Orthographic
        } else {
            CameraType::Undefined
        }
    }
}

impl FromSpecImpl<String> for CameraType {
    open spec fn obeys_from_spec() -> bool {
        true
    }

    open spec fn from_spec(v: String) -> Self {
        camera_type_from_text(v@)
    }
}

impl<'a> From<CameraType> for &'a str {
    fn from(val: CameraType) -> (r: Self) {
        match val {
            CameraType::Perspective => "perspective",
            CameraType::Orthographic => "orthographic",
            CameraType::Undefined => "",
        }
    }
}

impl<'a> FromSpecImpl<CameraType> for &'a str {
    open spec fn obeys_from_spec() -> bool {
        true
    }

    open spec fn from_spec(v: CameraType) -> Self {
        camera_type_text(v)
    }
}

impl Undefinable for CameraType {
    open spec fn spec_is_undefined(&self) -> bool {
        *self == CameraType::Undefined
    }

    fn is_undefined(&self) -> (r: bool) {
        *self == CameraType::Undefined
    }
}

/// The media type of an image.
#[derive(Debug, PartialEq, Eq, Structural, Clone, Copy)]
pub enum ImageMimeType {
    Jpeg,
    Png,
    Undefined,
}

/// The variant that the text `s` decodes to.
pub open spec fn mime_type_from_text(s: Seq<char>) -> ImageMimeType {
    if s == "image/jpeg"@ {
        ImageMimeType::Jpeg
    } else if s == "image/png"@ {
        ImageMimeType::Png
    } else {
        ImageMimeType::Undefined
    }
}

/// The text that a variant encodes to (empty for `Undefined`).
pub open spec fn mime_type_text<'a>(v: ImageMimeType) -> &'a str {
    match v {
        ImageMimeType::Jpeg => "image/jpeg",
        ImageMimeType::Png => "image/png",
        ImageMimeType::Undefined => "",
    }
}

impl From<String> for ImageMimeType {
    fn from(val: String) -> (r: Self) {
        let s = val.as_str();
        if text_eq(s, "image/jpeg") {
            ImageMimeType::Jpeg
        } else if text_eq(s, "image/png") {
            ImageMimeType::Png
        } else {
            ImageMimeType::Undefined
        }
    }
}

impl FromSpecImpl<String> for ImageMimeType {
    open spec fn obeys_from_spec() -> bool {
        true
    }

    open spec fn from_spec(v: String) -> Self {
        mime_type_from_text(v@)
    }
}

impl<'a> From<ImageMimeType> for &'a str {
    fn from(val: ImageMimeType) -> (r: Self) {
        match val {
            ImageMimeType::Jpeg => "image/jpeg",
            ImageMimeType::Png => "image/png",
            ImageMimeType::Undefined => "",
        }
    }
}

impl<'a> FromSpecImpl<ImageMimeType> for &'a str {
    open spec fn obeys_from_spec() -> bool {
        true
    }

    open spec fn from_spec(v: ImageMimeType) -> Self {
        mime_type_text(v)
    }
}

impl Undefinable for ImageMimeType {
    open spec fn spec_is_undefined(&self) -> bool {
        *self == ImageMimeType::Undefined
    }

    fn is_undefined(&self) -> (r: bool) {
        *self == ImageMimeType::Undefined
    }
}

/// The datatype of an accessor's components.
#[derive(Debug, PartialEq, Eq, Structural, Clone, Copy)]
pub enum ComponentType {
    Byte,
    UnsignedByte,
    Short,
    UnsignedShort,
    UnsignedInt,
    Float,
    Undefined,
}

/// The variant that the number `n` decodes to.
pub open spec fn component_type_from_code(n: int) -> ComponentType {
    if n == 5120 {
        ComponentType::Byte
    } else if n == 5121 {
        ComponentType::UnsignedByte
    } else if n == 5122 {
        ComponentType::Short
    } else if n == 5123 {
        ComponentType::UnsignedShort
    } else if n == 5125 {
        ComponentType::UnsignedInt
    } else if n == 5126 {
        ComponentType::Float
    } else {
        ComponentType::Undefined
    }
}

/// The number that a variant encodes to (`0` for `Undefined`).
pub open spec fn component_type_code(v: ComponentType) -> int {
    match v {
        ComponentType::Byte => 5120,
        ComponentType::UnsignedByte => 5121,
        ComponentType::Short => 5122,
        ComponentType::UnsignedShort => 5123,
        ComponentType::UnsignedInt => 5125,
        ComponentType::Float => 5126,
        ComponentType::Undefined => 0,
    }
}

impl From<usize> for ComponentType {
    fn from(val: usize) -> (r: Self) {
        match val {
            5120 => ComponentType::Byte,
            5121 => ComponentType::UnsignedByte,
            5122 => ComponentType::Short,
            5123 => ComponentType::UnsignedShort,
            5125 => ComponentType::UnsignedInt,
            5126 => ComponentType::Float,
            _ => ComponentType::Undefined,
        }
    }
}

impl FromSpecImpl<usize> for ComponentType {
    open spec fn obeys_from_spec() -> bool {
        true
    }

    open spec fn from_spec(v: usize) -> Self {
        component_type_from_code(v as int)
    }
}

impl From<ComponentType> for usize {
    fn from(val: ComponentType) -> (r: Self) {
        match val {
            ComponentType::Byte => 5120,
            ComponentType::UnsignedByte => 5121,
            ComponentType::Short => 5122,
            ComponentType::UnsignedShort => 5123,
            ComponentType::UnsignedInt => 5125,
            ComponentType::Float => 5126,
            ComponentType::Undefined => 0,
        }
    }
}

impl FromSpecImpl<ComponentType> for usize {
    open spec fn obeys_from_spec() -> bool {
        true
    }

    open spec fn from_spec(v: ComponentType) -> Self {
        component_type_code(v) as usize
    }
}

impl From<ComponentType> for u64 {
    fn from(val: ComponentType) -> (r: Self) {
        match val {
            ComponentType::Byte => 5120,
            ComponentType::UnsignedByte => 5121,
            ComponentType::Short => 5122,
            ComponentType::UnsignedShort => 5123,
            ComponentType::UnsignedInt => 5125,
            ComponentType::Float => 5126,
            ComponentType::Undefined => 0,
        }
    }
}

impl FromSpecImpl<ComponentType> for u64 {
    open spec fn obeys_from_spec() -> bool {
        true
    }

    open spec fn from_spec(v: ComponentType) -> Self {
        component_type_code(v) as u64
    }
}

impl Undefinable for ComponentType {
    open spec fn spec_is_undefined(&self) -> bool {
        *self == ComponentType::Undefined
    }

    fn is_undefined(&self) -> (r: bool) {
        *self == ComponentType::Undefined
    }
}

/// The GPU buffer type a buffer view is meant for.
#[derive(Debug, PartialEq, Eq, Structural, Clone, Copy)]
pub enum BufferViewTarget {
    ArrayBuffer,
    ElementArrayBuffer,
    Undefined,
}

/// The variant that the number `n` decodes to.
pub open spec fn buffer_view_target_from_code(n: int) -> BufferViewTarget {
    if n == 34962 {
        BufferViewTarget::ArrayBuffer
    } else if n == 34963 {
        BufferViewTarget::ElementArrayBuffer
    } else {
        BufferViewTarget::Undefined
    }
}

/// The number that a variant encodes to (`0` for `Undefined`).
pub open spec fn buffer_view_target_code(v: BufferViewTarget) -> int {
    match v {
        BufferViewTarget::ArrayBuffer => 34962,
        BufferViewTarget::ElementArrayBuffer => 34963,
        BufferViewTarget::Undefined => 0,
    }
}

impl From<usize> for BufferViewTarget {
    fn from(val: usize) -> (r: Self) {
        match val {
            34962 => BufferViewTarget::ArrayBuffer,
            34963 => BufferViewTarget::ElementArrayBuffer,
            _ => BufferViewTarget::Undefined,
        }
    }
}

impl FromSpecImpl<usize> for BufferViewTarget {
    open spec fn obeys_from_spec() -> bool {
        true
    }

    open spec fn from_spec(v: usize) -> Self {
        buffer_view_target_from_code(v as int)
    }
}

impl From<BufferViewTarget> for usize {
    fn from(val: BufferViewTarget) -> (r: Self) {
        match val {
            BufferViewTarget::ArrayBuffer => 34962,
            BufferViewTarget::ElementArrayBuffer => 34963,
            BufferViewTarget::Undefined => 0,
        }
    }
}

impl FromSpecImpl<BufferViewTarget> for usize {
    open spec fn obeys_from_spec() -> bool {
        true
    }

    open spec fn from_spec(v: BufferViewTarget) -> Self {
        buffer_view_target_code(v) as usize
    }
}

impl From<BufferViewTarget> for u64 {
    fn from(val: BufferViewTarget) -> (r: Self) {
        match val {
            BufferViewTarget::ArrayBuffer => 34962,
            BufferViewTarget::ElementArrayBuffer => 34963,
            BufferViewTarget::Undefined => 0,
        }
    }
}

impl FromSpecImpl<BufferViewTarget> for u64 {
    open spec fn obeys_from_spec() -> bool {
        true
    }

    open spec fn from_spec(v: BufferViewTarget) -> Self {
        buffer_view_target_code(v) as u64
    }
}

impl Undefinable for BufferViewTarget {
    open spec fn spec_is_undefined(&self) -> bool {
        *self == BufferViewTarget::Undefined
    }

    fn is_undefined(&self) -> (r: bool) {
        *self == BufferViewTarget::Undefined
    }
}

/// The topology of the primitives of a mesh.
#[derive(Debug, PartialEq, Eq, Structural, Clone, Copy)]
pub enum MeshPrimitiveMode {
    Lines,
    LineLoop,
    LineStrip,
    Triangles,
    TriangleStrip,
    TriangleFan,
    Points,
    Undefined,
}

/// The variant that the number `n` decodes to.
pub open spec fn primitive_mode_from_code(n: int) -> MeshPrimitiveMode {
    if n == 1 {
        MeshPrimitiveMode::Lines
    } else if n == 2 {
        MeshPrimitiveMode::LineLoop
    } else if n == 3 {
        MeshPrimitiveMode::LineStrip
    } else if n == 4 {
        MeshPrimitiveMode::Triangles
    } else if n == 5 {
        MeshPrimitiveMode::TriangleStrip
    } else if n == 6 {
        MeshPrimitiveMode::TriangleFan
    } else if n == 0 {
        MeshPrimitiveMode::Points
    } else {
        MeshPrimitiveMode::Undefined
    }
}

/// The number that a variant encodes to (`7` for `Undefined`).
pub open spec fn primitive_mode_code(v: MeshPrimitiveMode) -> int {
    match v {
        MeshPrimitiveMode::Lines => 1,
        MeshPrimitiveMode::LineLoop => 2,
        MeshPrimitiveMode::LineStrip => 3,
        MeshPrimitiveMode::Triangles => 4,
        MeshPrimitiveMode::TriangleStrip => 5,
        MeshPrimitiveMode::TriangleFan => 6,
        MeshPrimitiveMode::Points => 0,
        MeshPrimitiveMode::Undefined => 7,
    }
}

impl From<usize> for MeshPrimitiveMode {
    fn from(val: usize) -> (r: Self) {
        match val {
            1 => MeshPrimitiveMode::Lines,
            2 => MeshPrimitiveMode::LineLoop,
            3 => MeshPrimitiveMode::LineStrip,
            4 => MeshPrimitiveMode::Triangles,
            5 => MeshPrimitiveMode::TriangleStrip,
            6 => MeshPrimitiveMode::TriangleFan,
            0 => MeshPrimitiveMode::Points,
            _ => MeshPrimitiveMode::Undefined,
        }
    }
}

impl FromSpecImpl<usize> for MeshPrimitiveMode {
    open spec fn obeys_from_spec() -> bool {
        true
    }

    open spec fn from_spec(v: usize) -> Self {
        primitive_mode_from_code(v as int)
    }
}

impl From<MeshPrimitiveMode> for usize {
    fn from(val: MeshPrimitiveMode) -> (r: Self) {
        match val {
            MeshPrimitiveMode::Lines => 1,
            MeshPrimitiveMode::LineLoop => 2,
            MeshPrimitiveMode::LineStrip => 3,
            MeshPrimitiveMode::Triangles => 4,
            MeshPrimitiveMode::TriangleStrip => 5,
            MeshPrimitiveMode::TriangleFan => 6,
            MeshPrimitiveMode::Points => 0,
            MeshPrimitiveMode::Undefined => 7,
        }
    }
}

impl FromSpecImpl<MeshPrimitiveMode> for usize {
    open spec fn obeys_from_spec() -> bool {
        true
    }

    open spec fn from_spec(v: MeshPrimitiveMode) -> Self {
        primitive_mode_code(v) as usize
    }
}

impl From<MeshPrimitiveMode> for u64 {
    fn from(val: MeshPrimitiveMode) -> (r: Self) {
        match val {
            MeshPrimitiveMode::Lines => 1,
            MeshPrimitiveMode::LineLoop => 2,
            MeshPrimitiveMode::LineStrip => 3,
            MeshPrimitiveMode::Triangles => 4,
            MeshPrimitiveMode::TriangleStrip => 5,
            MeshPrimitiveMode::TriangleFan => 6,
            MeshPrimitiveMode::Points => 0,
            MeshPrimitiveMode::Undefined => 7,
        }
    }
}

impl FromSpecImpl<MeshPrimitiveMode> for u64 {
    open spec fn obeys_from_spec() -> bool {
        true
    }

    open spec fn from_spec(v: MeshPrimitiveMode) -> Self {
        primitive_mode_code(v) as u64
    }
}

impl Undefinable for MeshPrimitiveMode {
    open spec fn spec_is_undefined(&self) -> bool {
        *self == MeshPrimitiveMode::Undefined
    }

    fn is_undefined(&self) -> (r: bool) {
        *self == MeshPrimitiveMode::Undefined
    }
}

/// A texture sampler's magnification or minification filter.
#[derive(Debug, PartialEq, Eq, Structural, Clone, Copy)]
pub enum SamplerFilter {
    NearestMipmapNearest,
    LinearMipmapNearest,
    NearestMipmapLinear,
    LinearMipmapLinear,
    Nearest,
    Linear,
    Undefined,
}

/// The variant that the number `n` decodes to.
pub open spec fn sampler_filter_from_code(n: int) -> SamplerFilter {
    if n == 9984 {
        SamplerFilter::NearestMipmapNearest
    } else if n == 9985 {
        SamplerFilter::LinearMipmapNearest
    } else if n == 9986 {
        SamplerFilter::NearestMipmapLinear
    } else if n == 9987 {
        SamplerFilter::LinearMipmapLinear
    } else if n == 9728 {
        SamplerFilter::Nearest
    } else if n == 9729 {
        SamplerFilter::Linear
    } else {
        SamplerFilter::Undefined
    }
}

/// The number that a variant encodes to (`0` for `Undefined`).
pub open spec fn sampler_filter_code(v: SamplerFilter) -> int {
    match v {
        SamplerFilter::NearestMipmapNearest => 9984,
        SamplerFilter::LinearMipmapNearest => 9985,
        SamplerFilter::NearestMipmapLinear => 9986,
        SamplerFilter::LinearMipmapLinear => 9987,
        SamplerFilter::Nearest => 9728,
        SamplerFilter::Linear => 9729,
        SamplerFilter::Undefined => 0,
    }
}

impl From<usize> for SamplerFilter {
    fn from(val: usize) -> (r: Self) {
        match val {
            9984 => SamplerFilter::NearestMipmapNearest,
            9985 => SamplerFilter::LinearMipmapNearest,
            9986 => SamplerFilter::NearestMipmapLinear,
            9987 => SamplerFilter::LinearMipmapLinear,
            9728 => SamplerFilter::Nearest,
            9729 => SamplerFilter::Linear,
            _ => SamplerFilter::Undefined,
        }
    }
}

impl FromSpecImpl<usize> for SamplerFilter {
    open spec fn obeys_from_spec() -> bool {
        true
    }

    open spec fn from_spec(v: usize) -> Self {
        sampler_filter_from_code(v as int)
    }
}

impl From<SamplerFilter> for usize {
    fn from(val: SamplerFilter) -> (r: Self) {
        match val {
            SamplerFilter::NearestMipmapNearest => 9984,
            SamplerFilter::LinearMipmapNearest => 9985,
            SamplerFilter::NearestMipmapLinear => 9986,
            SamplerFilter::LinearMipmapLinear => 9987,
            SamplerFilter::Nearest => 9728,
            SamplerFilter::Linear => 9729,
            SamplerFilter::Undefined => 0,
        }
    }
}

impl FromSpecImpl<SamplerFilter> for usize {
    open spec fn obeys_from_spec() -> bool {
        true
    }

    open spec fn from_spec(v: SamplerFilter) -> Self {
        sampler_filter_code(v) as usize
    }
}

impl From<SamplerFilter> for u64 {
    fn from(val: SamplerFilter) -> (r: Self) {
        match val {
            SamplerFilter::NearestMipmapNearest => 9984,
            SamplerFilter::LinearMipmapNearest => 9985,
            SamplerFilter::NearestMipmapLinear => 9986,
            SamplerFilter::LinearMipmapLinear => 9987,
            SamplerFilter::Nearest => 9728,
            SamplerFilter::Linear => 9729,
            SamplerFilter::Undefined => 0,
        }
    }
}

impl FromSpecImpl<SamplerFilter> for u64 {
    open spec fn obeys_from_spec() -> bool {
        true
    }

    open spec fn from_spec(v: SamplerFilter) -> Self {
        sampler_filter_code(v) as u64
    }
}

impl Undefinable for SamplerFilter {
    open spec fn spec_is_undefined(&self) -> bool {
        *self == SamplerFilter::Undefined
    }

    fn is_undefined(&self) -> (r: bool) {
        *self == SamplerFilter::Undefined
    }
}

/// A texture sampler's wrapping mode.
#[derive(Debug, PartialEq, Eq, Structural, Clone, Copy)]
pub enum SamplerWrap {
    ClampToEdge,
    MirroredRepeat,
    Repeat,
    Undefined,
}

/// The variant that the number `n` decodes to.
pub open spec fn sampler_wrap_from_code(n: int) -> SamplerWrap {
    if n == 33071 {
        SamplerWrap::ClampToEdge
    } else if n == 33648 {
        SamplerWrap::MirroredRepeat
    } else if n == 10497 {
        SamplerWrap::Repeat
    } else {
        SamplerWrap::Undefined
    }
}

/// The number that a variant encodes to (`0` for `Undefined`).
pub open spec fn sampler_wrap_code(v: SamplerWrap) -> int {
    match v {
        SamplerWrap::ClampToEdge => 33071,
        SamplerWrap::MirroredRepeat => 33648,
        SamplerWrap::Repeat => 10497,
        SamplerWrap::Undefined => 0,
    }
}

impl From<usize> for SamplerWrap {
    fn from(val: usize) -> (r: Self) {
        match val {
            33071 => SamplerWrap::ClampToEdge,
            33648 => SamplerWrap::MirroredRepeat,
            10497 => SamplerWrap::Repeat,
            _ => SamplerWrap::Undefined,
        }
    }
}

impl FromSpecImpl<usize> for SamplerWrap {
    open spec fn obeys_from_spec() -> bool {
        true
    }

    open spec fn from_spec(v: usize) -> Self {
        sampler_wrap_from_code(v as int)
    }
}

impl From<SamplerWrap> for usize {
    fn from(val: SamplerWrap) -> (r: Self) {
        match val {
            SamplerWrap::ClampToEdge => 33071,
            SamplerWrap::MirroredRepeat => 33648,
            SamplerWrap::Repeat => 10497,
            SamplerWrap::Undefined => 0,
        }
    }
}

impl FromSpecImpl<SamplerWrap> for usize {
    open spec fn obeys_from_spec() -> bool {
        true
    }

    open spec fn from_spec(v: SamplerWrap) -> Self {
        sampler_wrap_code(v) as usize
    }
}

impl From<SamplerWrap> for u64 {
    fn from(val: SamplerWrap) -> (r: Self) {
        match val {
            SamplerWrap::ClampToEdge => 33071,
            SamplerWrap::MirroredRepeat => 33648,
            SamplerWrap::Repeat => 10497,
            SamplerWrap::Undefined => 0,
        }
    }
}

impl FromSpecImpl<SamplerWrap> for u64 {
    open spec fn obeys_from_spec() -> bool {
        true
    }

    open spec fn from_spec(v: SamplerWrap) -> Self {
        sampler_wrap_code(v) as u64
    }
}

impl Undefinable for SamplerWrap {
    open spec fn spec_is_undefined(&self) -> bool {
        *self == SamplerWrap::Undefined
    }

    fn is_undefined(&self) -> (r: bool) {
        *self == SamplerWrap::Undefined
    }
}

impl Default for SamplerWrap {
    fn default() -> (r: Self)
        ensures
            r == SamplerWrap::Repeat,
    {
        SamplerWrap::Repeat
    }
}

/// Decoding the text that a variant encodes to gives that variant back, and
/// only `Undefined` encodes to the empty text.
pub proof fn lemma_target_path_decode_encode(v: AnimationChannelTargetPath)
    ensures
        target_path_from_text(target_path_text(v)@) == v,
        (target_path_text(v)@ == Seq::<char>::empty()) <==> v == AnimationChannelTargetPath::Undefined,
{
    reveal_strlit("");
    assert(""@ =~= Seq::<char>::empty());
    reveal_strlit("translation");
    reveal_strlit("rotation");
    reveal_strlit("scale");
    reveal_strlit("weights");
    assert("translation"@ =~= seq!['t', 'r', 'a', 'n', 's', 'l', 'a', 't', 'i', 'o', 'n']);
    assert("rotation"@ =~= seq!['r', 'o', 't', 'a', 't', 'i', 'o', 'n']);
    assert("scale"@ =~= seq!['s', 'c', 'a', 'l', 'e']);
    assert("weights"@ =~= seq!['w', 'e', 'i', 'g', 'h', 't', 's']);
}

/// A text decodes to a defined variant exactly when it is one of the texts the
/// format names, and encoding that variant gives the text back.
pub proof fn lemma_target_path_encode_decode(s: Seq<char>)
    ensures
        (target_path_from_text(s) != AnimationChannelTargetPath::Undefined) <==> (s == "translation"@ || s == "rotation"@ || s == "scale"@ || s == "weights"@),
        target_path_from_text(s) != AnimationChannelTargetPath::Undefined ==> target_path_text(target_path_from_text(s))@ == s,
{
    reveal_strlit("translation");
    reveal_strlit("rotation");
    reveal_strlit("scale");
    reveal_strlit("weights");
    assert("translation"@ =~= seq!['t', 'r', 'a', 'n', 's', 'l', 'a', 't', 'i', 'o', 'n']);
    assert("rotation"@ =~= seq!['r', 'o', 't', 'a', 't', 'i', 'o', 'n']);
    assert("scale"@ =~= seq!['s', 'c', 'a', 'l', 'e']);
    assert("weights"@ =~= seq!['w', 'e', 'i', 'g', 'h', 't', 's']);
}

/// Decoding the text that a variant encodes to gives that variant back, and
/// only `Undefined` encodes to the empty text.
pub proof fn lemma_accessor_type_decode_encode(v: AccessorType)
    ensures
        accessor_type_from_text(accessor_type_text(v)@) == v,
        (accessor_type_text(v)@ == Seq::<char>::empty()) <==> v == AccessorType::Undefined,
{
    reveal_strlit("");
    assert(""@ =~= Seq::<char>::empty());
    reveal_strlit("VEC2");
    reveal_strlit("VEC3");
    reveal_strlit("VEC4");
    reveal_strlit("MAT2");
    reveal_strlit("MAT3");
    reveal_strlit("MAT4");
    reveal_strlit("SCALAR");
    assert("VEC2"@ =~= seq!['V', 'E', 'C', '2']);
    assert("VEC3"@ =~= seq!['V', 'E', 'C', '3']);
    assert("VEC4"@ =~= seq!['V', 'E', 'C', '4']);
    assert("MAT2"@ =~= seq!['M', 'A', 'T', '2']);
    assert("MAT3"@ =~= seq!['M', 'A', 'T', '3']);
    assert("MAT4"@ =~= seq!['M', 'A', 'T', '4']);
    assert("SCALAR"@ =~= seq!['S', 'C', 'A', 'L', 'A', 'R']);
}

/// A text decodes to a defined variant exactly when it is one of the texts the
/// format names, and encoding that variant gives the text back.
pub proof fn lemma_accessor_type_encode_decode(s: Seq<char>)
    ensures
        (accessor_type_from_text(s) != AccessorType::Undefined) <==> (s == "VEC2"@ || s == "VEC3"@ || s == "VEC4"@ || s == "MAT2"@ || s == "MAT3"@ || s == "MAT4"@ || s == "SCALAR"@),
        accessor_type_from_text(s) != AccessorType::Undefined ==> accessor_type_text(accessor_type_from_text(s))@ == s,
{
    reveal_strlit("VEC2");
    reveal_strlit("VEC3");
    reveal_strlit("VEC4");
    reveal_strlit("MAT2");
    reveal_strlit("MAT3");
    reveal_strlit("MAT4");
    reveal_strlit("SCALAR");
    assert("VEC2"@ =~= seq!['V', 'E', 'C', '2']);
    assert("VEC3"@ =~= seq!['V', 'E', 'C', '3']);
    assert("VEC4"@ =~= seq!['V', 'E', 'C', '4']);
    assert("MAT2"@ =~= seq!['M', 'A', 'T', '2']);
    assert("MAT3"@ =~= seq!['M', 'A', 'T', '3']);
    assert("MAT4"@ =~= seq!['M', 'A', 'T', '4']);
    assert("SCALAR"@ =~= seq!['S', 'C', 'A', 'L', 'A', 'R']);
}

/// Decoding the text that a variant encodes to gives that variant back, and
/// only `Undefined` encodes to the empty text.
pub proof fn lemma_interpolation_decode_encode(v: AnimationSamplerInterpolationType)
    ensures
        interpolation_from_text(interpolation_text(v)@) == v,
        (interpolation_text(v)@ == Seq::<char>::empty()) <==> v == AnimationSamplerInterpolationType::Undefined,
{
    reveal_strlit("");
    assert(""@ =~= Seq::<char>::empty());
    reveal_strlit("LINEAR");
    reveal_strlit("STEP");
    reveal_strlit("CUBICSPLINE");
    assert("LINEAR"@ =~= seq!['L', 'I', 'N', 'E', 'A', 'R']);
    assert("STEP"@ =~= seq!['S', 'T', 'E', 'P']);
    assert("CUBICSPLINE"@ =~= seq!['C', 'U', 'B', 'I', 'C', 'S', 'P', 'L', 'I', 'N', 'E']);
}

/// A text decodes to a defined variant exactly when it is one of the texts the
/// format names, and encoding that variant gives the text back.
pub proof fn lemma_interpolation_encode_decode(s: Seq<char>)
    ensures
        (interpolation_from_text(s) != AnimationSamplerInterpolationType::Undefined) <==> (s == "LINEAR"@ || s == "STEP"@ || s == "CUBICSPLINE"@),
        interpolation_from_text(s) != AnimationSamplerInterpolationType::Undefined ==> interpolation_text(interpolation_from_text(s))@ == s,
{
    reveal_strlit("LINEAR");
    reveal_strlit("STEP");
    reveal_strlit("CUBICSPLINE");
    assert("LINEAR"@ =~= seq!['L', 'I', 'N', 'E', 'A', 'R']);
    assert("STEP"@ =~= seq!['S', 'T', 'E', 'P']);
    assert("CUBICSPLINE"@ =~= seq!['C', 'U', 'B', 'I', 'C', 'S', 'P', 'L', 'I', 'N', 'E']);
}

/// Decoding the text that a variant encodes to gives that variant back, and
/// only `Undefined` encodes to the empty text.
pub proof fn lemma_alpha_mode_decode_encode(v: MaterialAlphaMode)
    ensures
        alpha_mode_from_text(alpha_mode_text(v)@) == v,
        (alpha_mode_text(v)@ == Seq::<char>::empty()) <==> v == MaterialAlphaMode::Undefined,
{
    reveal_strlit("");
    assert(""@ =~= Seq::<char>::empty());
    reveal_strlit("OPAQUE");
    reveal_strlit("MASK");
    reveal_strlit("BLEND");
    assert("OPAQUE"@ =~= seq!['O', 'P', 'A', 'Q', 'U', 'E']);
    assert("MASK"@ =~= seq!['M', 'A', 'S', 'K']);
    assert("BLEND"@ =~= seq!['B', 'L', 'E', 'N', 'D']);
}

/// A text decodes to a defined variant exactly when it is one of the texts the
/// format names, and encoding that variant gives the text back.
pub proof fn lemma_alpha_mode_encode_decode(s: Seq<char>)
    ensures
        (alpha_mode_from_text(s) != MaterialAlphaMode::Undefined) <==> (s == "OPAQUE"@ || s == "MASK"@ || s == "BLEND"@),
        alpha_mode_from_text(s) != MaterialAlphaMode::Undefined ==> alpha_mode_text(alpha_mode_from_text(s))@ == s,
{
    reveal_strlit("OPAQUE");
    reveal_strlit("MASK");
    reveal_strlit("BLEND");
    assert("OPAQUE"@ =~= seq!['O', 'P', 'A', 'Q', 'U', 'E']);
    assert("MASK"@ =~= seq!['M', 'A', 'S', 'K']);
    assert("BLEND"@ =~= seq!['B', 'L', 'E', 'N', 'D']);
}

/// Decoding the text that a variant encodes to gives that variant back, and
/// only `Undefined` encodes to the empty text.
pub proof fn lemma_camera_type_decode_encode(v: CameraType)
    ensures
        camera_type_from_text(camera_type_text(v)@) == v,
        (camera_type_text(v)@ == Seq::<char>::empty()) <==> v == CameraType::Undefined,
{
    reveal_strlit("");
    assert(""@ =~= Seq::<char>::empty());
    reveal_strlit("perspective");
    reveal_strlit("orthographic");
    assert("perspective"@ =~= seq!['p', 'e', 'r', 's', 'p', 'e', 'c', 't', 'i', 'v', 'e']);
    assert("orthographic"@ =~= seq!['o', 'r', 't', 'h', 'o', 'g', 'r', 'a', 'p', 'h', 'i', 'c']);
}

/// A text decodes to a defined variant exactly when it is one of the texts the
/// format names, and encoding that variant gives the text back.
pub proof fn lemma_camera_type_encode_decode(s: Seq<char>)
    ensures
        (camera_type_from_text(s) != CameraType::Undefined) <==> (s == "perspective"@ || s == "orthographic"@),
        camera_type_from_text(s) != CameraType::Undefined ==> camera_type_text(camera_type_from_text(s))@ == s,
{
    reveal_strlit("perspective");
    reveal_strlit("orthographic");
    assert("perspective"@ =~= seq!['p', 'e', 'r', 's', 'p', 'e', 'c', 't', 'i', 'v', 'e']);
    assert("orthographic"@ =~= seq!['o', 'r', 't', 'h', 'o', 'g', 'r', 'a', 'p', 'h', 'i', 'c']);
}

/// Decoding the text that a variant encodes to gives that variant back, and
/// only `Undefined` encodes to the empty text.
pub proof fn lemma_mime_type_decode_encode(v: ImageMimeType)
    ensures
        mime_type_from_text(mime_type_text(v)@) == v,
        (mime_type_text(v)@ == Seq::<char>::empty()) <==> v == ImageMimeType::Undefined,
{
    reveal_strlit("");
    assert(""@ =~= Seq::<char>::empty());
    reveal_strlit("image/jpeg");
    reveal_strlit("image/png");
    assert("image/jpeg"@ =~= seq!['i', 'm', 'a', 'g', 'e', '/', 'j', 'p', 'e', 'g']);
    assert("image/png"@ =~= seq!['i', 'm', 'a', 'g', 'e', '/', 'p', 'n', 'g']);
}

/// A text decodes to a defined variant exactly when it is one of the texts the
/// format names, and encoding that variant gives the text back.
pub proof fn lemma_mime_type_encode_decode(s: Seq<char>)
    ensures
        (mime_type_from_text(s) != ImageMimeType::Undefined) <==> (s == "image/jpeg"@ || s == "image/png"@),
        mime_type_from_text(s) != ImageMimeType::Undefined ==> mime_type_text(mime_type_from_text(s))@ == s,
{
    reveal_strlit("image/jpeg");
    reveal_strlit("image/png");
    assert("image/jpeg"@ =~= seq!['i', 'm', 'a', 'g', 'e', '/', 'j', 'p', 'e', 'g']);
    assert("image/png"@ =~= seq!['i', 'm', 'a', 'g', 'e', '/', 'p', 'n', 'g']);
}

/// Decoding the number that a defined variant encodes to gives that variant back.
pub proof fn lemma_component_type_decode_encode(v: ComponentType)
    requires
        v != ComponentType::Undefined,
    ensures
        component_type_from_code(component_type_code(v)) == v,
{
}

/// A number decodes to a defined variant exactly when it is one of the codes
/// the format names, and encoding that variant gives the number back.
pub proof fn lemma_component_type_encode_decode(n: int)
    ensures
        (component_type_from_code(n) != ComponentType::Undefined) <==> (n == 5120 || n == 5121 || n == 5122 || n == 5123 || n == 5125 || n == 5126),
        component_type_from_code(n) != ComponentType::Undefined ==> component_type_code(component_type_from_code(n)) == n,
{
}

/// Decoding the number that a defined variant encodes to gives that variant back.
pub proof fn lemma_buffer_view_target_decode_encode(v: BufferViewTarget)
    requires
        v != BufferViewTarget::Undefined,
    ensures
        buffer_view_target_from_code(buffer_view_target_code(v)) == v,
{
}

/// A number decodes to a defined variant exactly when it is one of the codes
/// the format names, and encoding that variant gives the number back.
pub proof fn lemma_buffer_view_target_encode_decode(n: int)
    ensures
        (buffer_view_target_from_code(n) != BufferViewTarget::Undefined) <==> (n == 34962 || n == 34963),
        buffer_view_target_from_code(n) != BufferViewTarget::Undefined ==> buffer_view_target_code(buffer_view_target_from_code(n)) == n,
{
}

/// Decoding the number that a variant encodes to gives that variant back;
/// this holds of `Undefined` too, which encodes to a number no other variant uses.
pub proof fn lemma_primitive_mode_decode_encode(v: MeshPrimitiveMode)
    ensures
        primitive_mode_from_code(primitive_mode_code(v)) == v,
{
}

/// A number decodes to a defined variant exactly when it is one of the codes
/// the format names, and encoding that variant gives the number back.
pub proof fn lemma_primitive_mode_encode_decode(n: int)
    ensures
        (primitive_mode_from_code(n) != MeshPrimitiveMode::Undefined) <==> (n == 1 || n == 2 || n == 3 || n == 4 || n == 5 || n == 6 || n == 0),
        primitive_mode_from_code(n) != MeshPrimitiveMode::Undefined ==> primitive_mode_code(primitive_mode_from_code(n)) == n,
{
}

/// Decoding the number that a defined variant encodes to gives that variant back.
pub proof fn lemma_sampler_filter_decode_encode(v: SamplerFilter)
    requires
        v != SamplerFilter::Undefined,
    ensures
        sampler_filter_from_code(sampler_filter_code(v)) == v,
{
}

/// A number decodes to a defined variant exactly when it is one of the codes
/// the format names, and encoding that variant gives the number back.
pub proof fn lemma_sampler_filter_encode_decode(n: int)
    ensures
        (sampler_filter_from_code(n) != SamplerFilter::Undefined) <==> (n == 9984 || n == 9985 || n == 9986 || n == 9987 || n == 9728 || n == 9729),
        sampler_filter_from_code(n) != SamplerFilter::Undefined ==> sampler_filter_code(sampler_filter_from_code(n)) == n,
{
}

/// Decoding the number that a defined variant encodes to gives that variant back.
pub proof fn lemma_sampler_wrap_decode_encode(v: SamplerWrap)
    requires
        v != SamplerWrap::Undefined,
    ensures
        sampler_wrap_from_code(sampler_wrap_code(v)) == v,
{
}

/// A number decodes to a defined variant exactly when it is one of the codes
/// the format names, and encoding that variant gives the number back.
pub proof fn lemma_sampler_wrap_encode_decode(n: int)
    ensures
        (sampler_wrap_from_code(n) != SamplerWrap::Undefined) <==> (n == 33071 || n == 33648 || n == 10497),
        sampler_wrap_from_code(n) != SamplerWrap::Undefined ==> sampler_wrap_code(sampler_wrap_from_code(n)) == n,
{
}

} // verus!
