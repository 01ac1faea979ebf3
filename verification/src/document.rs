use vstd::prelude::*;
use crate::enums::{
    AccessorType, AnimationChannelTargetPath, AnimationSamplerInterpolationType, BufferViewTarget,
    CameraType, ComponentType, ImageMimeType, MaterialAlphaMode, MeshPrimitiveMode, SamplerFilter,
    SamplerWrap,
};
use crate::float::F32;

verus! {

/// The root of a glTF document.
#[derive(Debug)]
pub struct GltfDocument {
    /// Names of glTF extensions used in this asset.
    pub extensions_used: Option<Vec<String>>,
    /// Names of glTF extensions required to load this asset.
    pub extensions_required: Option<Vec<String>>,
    /// Typed views into buffer views.
    pub accessors: Option<Vec<Accessor>>,
    /// Keyframe animations.
    pub animations: Option<Vec<Animation>>,
    /// Metadata about the asset.
    pub asset: Asset,
    /// Buffers of binary geometry, animation or skins.
    pub buffers: Option<Vec<Buffer>>,
    /// Views into buffers.
    pub buffer_views: Option<Vec<BufferView>>,
    /// Cameras.
    pub cameras: Option<Vec<Camera>>,
    /// Images used by textures.
    pub images: Option<Vec<Image>>,
    /// Materials.
    pub materials: Option<Vec<Material>>,
    /// Meshes.
    pub meshes: Option<Vec<Mesh>>,
    /// Nodes of the node hierarchy.
    pub nodes: Option<Vec<Node>>,
    /// Texture samplers.
    pub samplers: Option<Vec<Sampler>>,
    /// Index of the default scene.
    pub scene: Option<usize>,
    /// Scenes.
    pub scenes: Option<Vec<Scene>>,
    /// Skins.
    pub skins: Option<Vec<Skin>>,
    /// Textures.
    pub textures: Option<Vec<Texture>>,
    pub extensions: Option<Extension>,
    pub extras: Option<Extra>,
}

/// A typed view into a buffer view that contains raw binary data.
#[derive(Debug)]
pub struct Accessor {
    /// Index of the buffer view.
    pub buffer_view: Option<usize>,
    /// Offset relative to the start of the buffer view, in bytes.
    pub byte_offset: Option<usize>,
    /// Datatype of the components.
    pub component_type: ComponentType,
    /// Whether integer values are normalized when accessed.
    pub normalized: bool,
    /// Number of elements.
    pub count: usize,
    /// Whether elements are scalars, vectors or matrices.
    pub ty: AccessorType,
    /// Maximum value of each component.
    pub max: Option<Vec<F32>>,
    /// Minimum value of each component.
    pub min: Option<Vec<F32>>,
    /// Sparse storage of deviating elements.
    pub sparse: Option<AccessorSparse>,
    pub name: Option<String>,
    pub extensions: Option<Extension>,
    pub extras: Option<Extra>,
}

/// A keyframe animation.
#[derive(Debug)]
pub struct Animation {
    /// Animation channels.
    pub channels: Vec<AnimationChannel>,
    /// Animation samplers.
    pub samplers: Vec<AnimationSampler>,
    pub name: Option<String>,
    pub extensions: Option<Extension>,
    pub extras: Option<Extra>,
}

/// Metadata about the glTF asset.
#[derive(Debug)]
pub struct Asset {
    pub copyright: Option<String>,
    pub generator: Option<String>,
    /// The glTF version, `<major>.<minor>`.
    pub version: String,
    /// The minimum glTF version, `<major>.<minor>`.
    pub min_version: Option<String>,
    pub extensions: Option<Extension>,
    pub extras: Option<Extra>,
}

/// A buffer of binary data.
#[derive(Debug)]
pub struct Buffer {
    /// URI (or IRI) of the buffer.
    pub uri: Option<String>,
    /// Length of the buffer in bytes.
    pub byte_length: usize,
    pub name: Option<String>,
    pub extensions: Option<Extension>,
    pub extras: Option<Extra>,
}

/// A view into a buffer.
#[derive(Debug)]
pub struct BufferView {
    /// Index of the buffer.
    pub buffer: usize,
    /// Offset into the buffer in bytes.
    pub byte_offset: Option<usize>,
    /// Length of the view in bytes.
    pub byte_length: usize,
    /// Stride between vertex attributes in bytes.
    pub byte_stride: Option<usize>,
    /// Intended GPU buffer type.
    pub target: Option<BufferViewTarget>,
    pub name: Option<String>,
    pub extensions: Option<Extension>,
    pub extras: Option<Extra>,
}

/// A camera's projection.
#[derive(Debug)]
pub struct Camera {
    pub orthographic: Option<Orthographic>,
    pub perspective: Option<Perspective>,
    /// Which projection the camera uses.
    pub ty: CameraType,
    pub name: Option<String>,
    pub extensions: Option<Extension>,
    pub extras: Option<Extra>,
}

/// Image data used to create a texture.
#[derive(Debug)]
pub struct Image {
    /// URI (or IRI) of the image.
    pub uri: Option<String>,
    /// Media type of the image.
    pub mime_type: Option<ImageMimeType>,
    /// Index of the buffer view holding the image.
    pub buffer_view: Option<usize>,
    pub name: Option<String>,
    pub extensions: Option<Extension>,
    pub extras: Option<Extra>,
}

/// The material appearance of a primitive.
#[derive(Debug)]
pub struct Material {
    pub pbr_metallic_roughness: Option<MaterialPbrMetallicRoughness>,
    pub normal_texture: Option<MaterialNormalTextureInfo>,
    pub occlusion_texture: Option<MaterialOcclusionTextureInfo>,
    pub emissive_texture: Option<TextureInfo>,
    /// Factors of the emissive colour.
    pub emissive_factor: [F32; 3],
    /// Alpha rendering mode.
    pub alpha_mode: MaterialAlphaMode,
    /// Alpha cutoff threshold in `MASK` mode.
    pub alpha_cutoff: F32,
    /// Whether back-face culling is disabled.
    pub double_sided: bool,
    pub name: Option<String>,
    pub extensions: Option<MaterialExtension>,
    pub extras: Option<Extra>,
}

/// A set of primitives to be rendered.
#[derive(Debug)]
pub struct Mesh {
    pub primitives: Vec<MeshPrimitive>,
    /// Morph target weights.
    pub weights: Option<Vec<F32>>,
    pub name: Option<String>,
    pub extensions: Option<Extension>,
    pub extras: Option<Extra>,
}

/// A node in the node hierarchy.
#[derive(Debug)]
pub struct Node {
    pub camera: Option<usize>,
    /// Indices of the node's children.
    pub children: Option<Vec<usize>>,
    pub skin: Option<usize>,
    /// Column-major 4x4 transformation matrix.
    pub matrix: [F32; 16],
    pub mesh: Option<usize>,
    /// Unit quaternion rotation (x, y, z, w).
    pub rotation: [F32; 4],
    pub scale: [F32; 3],
    pub translation: [F32; 3],
    pub weights: Option<Vec<F32>>,
    pub name: Option<String>,
    pub extensions: Option<Extension>,
    pub extras: Option<Extra>,
}

/// Texture sampler properties.
#[derive(Debug)]
pub struct Sampler {
    pub mag_filter: Option<SamplerFilter>,
    pub min_filter: Option<SamplerFilter>,
    pub wrap_s: SamplerWrap,
    pub wrap_t: SamplerWrap,
    pub name: Option<String>,
    pub extensions: Option<Extension>,
    pub extras: Option<Extra>,
}

/// The root nodes of a scene.
#[derive(Debug)]
pub struct Scene {
    pub nodes: Option<Vec<usize>>,
    pub name: Option<String>,
    pub extensions: Option<Extension>,
    pub extras: Option<Extra>,
}

/// Joints and matrices defining a skin.
#[derive(Debug)]
pub struct Skin {
    /// Index of the accessor of inverse-bind matrices.
    pub inverse_bind_matrices: Option<usize>,
    pub skeleton: Option<usize>,
    /// Indices of the joint nodes.
    pub joints: Vec<usize>,
    pub name: Option<String>,
    pub extensions: Option<Extension>,
    pub extras: Option<Extra>,
}

/// A texture and its sampler.
#[derive(Debug)]
pub struct Texture {
    pub sampler: Option<usize>,
    pub source: Option<usize>,
    pub name: Option<String>,
    pub extensions: Option<Extension>,
    pub extras: Option<Extra>,
}

/// Extension data, held as the JSON text of its properties.
#[derive(Debug)]
pub struct Extension {
    pub additional_properties: String,
}

/// Material extension data.
#[derive(Debug)]
pub struct MaterialExtension {
    pub khr_materials_anisotropy: Option<KhrMaterialsAnisotropy>,
    /// JSON text of the remaining properties.
    pub additional_properties: String,
}

/// Application-specific data, held as the JSON text of its properties.
#[derive(Debug)]
pub struct Extra {
    pub additional_properties: String,
}

/// The indices of the deviating values of a sparse accessor.
#[derive(Debug)]
pub struct AccessorSparseIndices {
    pub buffer_view: usize,
    pub byte_offset: usize,
    pub component_type: ComponentType,
    pub extensions: Option<Extension>,
    pub extras: Option<Extra>,
}

/// The deviating values of a sparse accessor.
#[derive(Debug)]
pub struct AccessorSparseValues {
    pub buffer_view: usize,
    pub byte_offset: usize,
    pub extensions: Option<Extension>,
    pub extras: Option<Extra>,
}

/// Sparse storage of accessor values.
#[derive(Debug)]
pub struct AccessorSparse {
    pub count: usize,
    pub indices: AccessorSparseIndices,
    pub values: AccessorSparseValues,
    pub extensions: Option<Extension>,
    pub extras: Option<Extra>,
}

/// The descriptor of an animated property.
#[derive(Debug)]
pub struct AnimationChannelTarget {
    pub node: Option<usize>,
    pub path: AnimationChannelTargetPath,
    pub extensions: Option<Extension>,
    pub extras: Option<Extra>,
}

/// An animation sampler combined with a target.
#[derive(Debug)]
pub struct AnimationChannel {
    pub sampler: usize,
    pub target: AnimationChannelTarget,
    pub extensions: Option<Extension>,
    pub extras: Option<Extra>,
}

/// Timestamps, output values and an interpolation.
#[derive(Debug)]
pub struct AnimationSampler {
    pub input: usize,
    pub interpolation: AnimationSamplerInterpolationType,
    pub output: usize,
    pub extensions: Option<Extension>,
    pub extras: Option<Extra>,
}

/// An orthographic projection.
#[derive(Debug)]
pub struct Orthographic {
    pub xmag: F32,
    pub ymag: F32,
    pub zfar: F32,
    pub znear: F32,
    pub extensions: Option<Extension>,
    pub extras: Option<Extra>,
}

/// A perspective projection.
#[derive(Debug)]
pub struct Perspective {
    pub aspect_ratio: Option<F32>,
    pub yfov: F32,
    pub zfar: Option<F32>,
    pub znear: F32,
    pub extensions: Option<Extension>,
    pub extras: Option<Extra>,
}

/// Reference to a texture.
#[derive(Debug)]
pub struct TextureInfo {
    pub index: usize,
    pub tex_coord: usize,
    pub extensions: Option<Extension>,
    pub extras: Option<Extra>,
}

/// Metallic-roughness material parameters.
#[derive(Debug)]
pub struct MaterialPbrMetallicRoughness {
    pub base_color_factor: [F32; 4],
    pub base_color_texture: Option<TextureInfo>,
    pub metallic_factor: F32,
    pub roughness_factor: F32,
    pub metallic_roughness_texture: Option<TextureInfo>,
    pub extensions: Option<Extension>,
    pub extras: Option<Extra>,
}

/// The occlusion texture of a material.
#[derive(Debug)]
pub struct MaterialOcclusionTextureInfo {
    pub index: usize,
    pub tex_coord: usize,
    pub strength: F32,
    pub extensions: Option<Extension>,
    pub extras: Option<Extra>,
}

/// The normal texture of a material.
#[derive(Debug)]
pub struct MaterialNormalTextureInfo {
    pub index: usize,
    pub tex_coord: usize,
    pub scale: F32,
    pub extensions: Option<Extension>,
    pub extras: Option<Extra>,
}

/// Geometry to be rendered with a material.
#[derive(Debug)]
pub struct MeshPrimitive {
    /// Attribute semantics and the accessors holding their data; each semantic occurs once.
    pub attributes: Vec<(String, usize)>,
    pub indices: Option<usize>,
    pub material: Option<usize>,
    pub mode: MeshPrimitiveMode,
    /// Morph targets.
    pub targets: Option<Vec<Vec<(String, usize)>>>,
    pub extensions: Option<Extension>,
    pub extras: Option<Extra>,
}

/// The `KHR_materials_anisotropy` material extension.
#[derive(Debug)]
pub struct KhrMaterialsAnisotropy {
    pub anisotropy_strength: F32,
    pub anisotropy_rotation: F32,
    pub anisotropy_texture: Option<TextureInfo>,
}

} // verus!
