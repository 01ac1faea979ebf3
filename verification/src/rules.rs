use vstd::prelude::*;
use crate::document::{
    Accessor, AccessorSparse, AccessorSparseIndices, AccessorSparseValues, Animation,
    AnimationChannel, AnimationChannelTarget, AnimationSampler, Asset, Buffer, BufferView, Camera,
    GltfDocument, Image, KhrMaterialsAnisotropy, Material, MaterialNormalTextureInfo,
    MaterialOcclusionTextureInfo, MaterialPbrMetallicRoughness, Mesh, MeshPrimitive, Node,
    Orthographic, Perspective, Sampler, Scene, Skin, Texture, TextureInfo,
};
use crate::enums::{AccessorType, CameraType, ComponentType, MaterialAlphaMode, SamplerFilter};
use crate::error::GltfError;
use crate::iri::{iref_accepts_path, invalid_path_message, iri_path_error};
use crate::text::join3;
use crate::version::{
    decimal_order, decimal_value, find_char, index_of, is_ascii_digit, is_version_text, major_part,
    minor_part, version_pattern_matches,
};
use crate::float::{F32, f32_eq, f32_le, f32_lt};
use crate::validate::{
    Failure, Outcome, check_for_dup_items, check_if_empty, check_items_for_max_val,
    check_items_for_min_val, check_value_max, check_value_min, float_max_outcome,
    float_min_outcome, invalid, lemma_float_bounds, lift, max_outcome, min_outcome,
    nonempty_outcome, reject_if, reports, some_below, then, unique_outcome,
};

verus! {

/// A part of a document that can be checked against the rules of the format,
/// given the whole document for the references it makes.
pub trait Validatable {
    spec fn outcome(&self, base: &GltfDocument) -> Outcome;

    fn is_valid(&self, base: &GltfDocument) -> (r: Result<(), Failure>)
        ensures
            reports(r, self.outcome(base)),
    ;
}

/// Outcome of checking an optional part: absent parts pass.
pub open spec fn opt_outcome<T: Validatable>(o: Option<T>, base: &GltfDocument) -> Outcome {
    match o {
        Some(t) => t.outcome(base),
        None => Outcome::Pass,
    }
}

/// Outcome of checking each item of `s` in order, stopping at the first that
/// does not pass.
pub open spec fn items_outcome<T: Validatable>(s: Seq<T>, base: &GltfDocument) -> Outcome
    decreases s.len(),
{
    if s.len() == 0 {
        Outcome::Pass
    } else {
        then(s[0].outcome(base), items_outcome(s.drop_first(), base))
    }
}

/// Checks each item of `v` in order and returns the first failure.
pub fn check_all<T: Validatable>(v: &Vec<T>, base: &GltfDocument) -> (r: Result<(), Failure>)
    ensures
        reports(r, items_outcome(v@, base)),
{
    let n = v.len();
    let mut i: usize = 0;
    proof {
        assert(v@.skip(0) =~= v@);
    }
    while i < n
        invariant
            n == v@.len(),
            i <= n,
            items_outcome(v@, base) == items_outcome(v@.skip(i as int), base),
        decreases n - i,
    {
        proof {
            assert(v@.skip(i as int).drop_first() =~= v@.skip(i + 1));
            assert(v@.skip(i as int)[0] == v@[i as int]);
        }
        let r = v[i].is_valid(base);
        if r.is_err() {
            return r;
        }
        i = i + 1;
    }
    proof {
        assert(v@.skip(n as int) =~= Seq::<T>::empty());
    }
    Ok(())
}

/// Outcome of checking an optional list item by item.
pub open spec fn opt_items_outcome<T: Validatable>(o: Option<Vec<T>>, base: &GltfDocument) -> Outcome {
    match o {
        Some(v) => items_outcome(v@, base),
        None => Outcome::Pass,
    }
}

/// Checks each item of an optional list, if present.
pub fn check_all_opt<T: Validatable>(o: &Option<Vec<T>>, base: &GltfDocument) -> (r: Result<
    (),
    Failure,
>)
    ensures
        reports(r, opt_items_outcome(*o, base)),
{
    match o {
        Some(v) => check_all(v, base),
        None => Ok(()),
    }
}

/// Checks an optional part, if present.
pub fn check_opt<T: Validatable>(o: &Option<T>, base: &GltfDocument) -> (r: Result<(), Failure>)
    ensures
        reports(r, opt_outcome(*o, base)),
{
    match o {
        Some(t) => t.is_valid(base),
        None => Ok(()),
    }
}

impl Validatable for TextureInfo {
    open spec fn outcome(&self, base: &GltfDocument) -> Outcome {
        then(
            min_outcome(seq![self.index], 0usize, "textureInfo.index"@),
            min_outcome(seq![self.tex_coord], 0usize, "textureInfo.texCoord"@),
        )
    }

    fn is_valid(&self, base: &GltfDocument) -> (r: Result<(), Failure>) {
        let r = lift(check_value_min(self.index, 0, "textureInfo.index"));
        if r.is_err() {
            return r;
        }
        lift(check_value_min(self.tex_coord, 0, "textureInfo.texCoord"))
    }
}

impl Validatable for MaterialNormalTextureInfo {
    open spec fn outcome(&self, base: &GltfDocument) -> Outcome {
        then(
            min_outcome(seq![self.index], 0usize, "material.normalTextureInfo.index"@),
            min_outcome(seq![self.tex_coord], 0usize, "material.normalTextureInfo.texCoord"@),
        )
    }

    fn is_valid(&self, base: &GltfDocument) -> (r: Result<(), Failure>) {
        let r = lift(check_value_min(self.index, 0, "material.normalTextureInfo.index"));
        if r.is_err() {
            return r;
        }
        lift(check_value_min(self.tex_coord, 0, "material.normalTextureInfo.texCoord"))
    }
}

impl Validatable for MaterialOcclusionTextureInfo {
    open spec fn outcome(&self, base: &GltfDocument) -> Outcome {
        then(
            min_outcome(seq![self.index], 0usize, "material.occlusionTextureInfo.index"@),
            then(
                min_outcome(seq![self.tex_coord], 0usize, "material.occlusionTextureInfo.texCoord"@),
                then(
                    float_min_outcome(
                        seq![self.strength],
                        0,
                        "0"@,
                        "material.occlusionTextureInfo.strength"@,
                    ),
                    float_max_outcome(
                        seq![self.strength],
                        0x3f80_0000,
                        "1"@,
                        "material.occlusionTextureInfo.strength"@,
                    ),
                ),
            ),
        )
    }

    fn is_valid(&self, base: &GltfDocument) -> (r: Result<(), Failure>) {
        let r = lift(check_value_min(self.index, 0, "material.occlusionTextureInfo.index"));
        if r.is_err() {
            return r;
        }
        let r = lift(check_value_min(self.tex_coord, 0, "material.occlusionTextureInfo.texCoord"));
        if r.is_err() {
            return r;
        }
        let zero = F32::zero();
        proof {
            lemma_float_bounds(seq![self.strength], zero, "material.occlusionTextureInfo.strength"@);
        }
        let r = lift(
            check_value_min(self.strength.clone(), zero, "material.occlusionTextureInfo.strength"),
        );
        if r.is_err() {
            return r;
        }
        let one = F32::one();
        proof {
            lemma_float_bounds(seq![self.strength], one, "material.occlusionTextureInfo.strength"@);
        }
        lift(check_value_max(self.strength.clone(), one, "material.occlusionTextureInfo.strength"))
    }
}


/// Lower-bound check on floating-point items, with the outcome stated over the
/// bound's bit pattern and text.
pub fn check_floats_min(v: &[F32], min: F32, name: &str) -> (r: Result<(), Failure>)
    ensures
        reports(r, float_min_outcome(v@, min.bits, min.text@, name@)),
{
    proof {
        lemma_float_bounds(v@, min, name@);
    }
    lift(check_items_for_min_val(v, min, name))
}

/// Upper-bound check on floating-point items, with the outcome stated over the
/// bound's bit pattern and text.
pub fn check_floats_max(v: &[F32], max: F32, name: &str) -> (r: Result<(), Failure>)
    ensures
        reports(r, float_max_outcome(v@, max.bits, max.text@, name@)),
{
    proof {
        lemma_float_bounds(v@, max, name@);
    }
    lift(check_items_for_max_val(v, max, name))
}

/// Lower-bound check on one floating-point value.
pub fn check_float_min(x: &F32, min: F32, name: &str) -> (r: Result<(), Failure>)
    ensures
        reports(r, float_min_outcome(seq![*x], min.bits, min.text@, name@)),
{
    proof {
        lemma_float_bounds(seq![*x], min, name@);
    }
    lift(check_value_min(x.clone(), min, name))
}

/// Upper-bound check on one floating-point value.
pub fn check_float_max(x: &F32, max: F32, name: &str) -> (r: Result<(), Failure>)
    ensures
        reports(r, float_max_outcome(seq![*x], max.bits, max.text@, name@)),
{
    proof {
        lemma_float_bounds(seq![*x], max, name@);
    }
    lift(check_value_max(x.clone(), max, name))
}

impl Validatable for MaterialPbrMetallicRoughness {
    open spec fn outcome(&self, base: &GltfDocument) -> Outcome {
        let n_base = "material.pbrMetallicRoughness.baseColorFactor"@;
        let n_metal = "material.pbrMetallicRoughness.metallicFactor"@;
        let n_rough = "material.pbrMetallicRoughness.roughnessFactor"@;
        then(float_min_outcome(self.base_color_factor@, 0, "0"@, n_base),
        then(float_max_outcome(self.base_color_factor@, 0x3f80_0000, "1"@, n_base),
        then(opt_outcome(self.base_color_texture, base),
        then(float_min_outcome(seq![self.metallic_factor], 0, "0"@, n_metal),
        then(float_max_outcome(seq![self.metallic_factor], 0x3f80_0000, "1"@, n_metal),
        then(float_min_outcome(seq![self.roughness_factor], 0, "0"@, n_rough),
        then(float_max_outcome(seq![self.roughness_factor], 0x3f80_0000, "1"@, n_rough),
        opt_outcome(self.metallic_roughness_texture, base))))))))
    }

    fn is_valid(&self, base: &GltfDocument) -> (r: Result<(), Failure>) {
        let n_base = "material.pbrMetallicRoughness.baseColorFactor";
        let n_metal = "material.pbrMetallicRoughness.metallicFactor";
        let n_rough = "material.pbrMetallicRoughness.roughnessFactor";
        let r = check_floats_min(self.base_color_factor.as_slice(), F32::zero(), n_base);
        if r.is_err() {
            return r;
        }
        let r = check_floats_max(self.base_color_factor.as_slice(), F32::one(), n_base);
        if r.is_err() {
            return r;
        }
        let r = check_opt(&self.base_color_texture, base);
        if r.is_err() {
            return r;
        }
        let r = check_float_min(&self.metallic_factor, F32::zero(), n_metal);
        if r.is_err() {
            return r;
        }
        let r = check_float_max(&self.metallic_factor, F32::one(), n_metal);
        if r.is_err() {
            return r;
        }
        let r = check_float_min(&self.roughness_factor, F32::zero(), n_rough);
        if r.is_err() {
            return r;
        }
        let r = check_float_max(&self.roughness_factor, F32::one(), n_rough);
        if r.is_err() {
            return r;
        }
        check_opt(&self.metallic_roughness_texture, base)
    }
}

impl Validatable for KhrMaterialsAnisotropy {
    open spec fn outcome(&self, base: &GltfDocument) -> Outcome {
        Outcome::Pass
    }

    fn is_valid(&self, base: &GltfDocument) -> (r: Result<(), Failure>) {
        Ok(())
    }
}

impl Validatable for Material {
    open spec fn outcome(&self, base: &GltfDocument) -> Outcome {
        let n = "material.emissiveFactor"@;
        then(float_min_outcome(self.emissive_factor@, 0, "0"@, n),
        then(float_max_outcome(self.emissive_factor@, 0x3f80_0000, "1"@, n),
        then(reject_if(
            !f32_eq(self.alpha_cutoff.bits, 0x3f00_0000)
                && self.alpha_mode == MaterialAlphaMode::Opaque,
            "`material.alphaCutoff` must not be defined when `material.alphaMode` is not defined!"@),
        then(opt_outcome(self.emissive_texture, base),
        then(opt_outcome(self.pbr_metallic_roughness, base),
        then(opt_outcome(self.occlusion_texture, base),
        opt_outcome(self.normal_texture, base)))))))
    }

    fn is_valid(&self, base: &GltfDocument) -> (r: Result<(), Failure>) {
        let n = "material.emissiveFactor";
        let r = check_floats_min(self.emissive_factor.as_slice(), F32::zero(), n);
        if r.is_err() {
            return r;
        }
        let r = check_floats_max(self.emissive_factor.as_slice(), F32::one(), n);
        if r.is_err() {
            return r;
        }
        if !self.alpha_cutoff.eq_value(&F32::half()) && self.alpha_mode
            == MaterialAlphaMode::Opaque {
            return invalid(
                "`material.alphaCutoff` must not be defined when `material.alphaMode` is not defined!",
            );
        }
        let r = check_opt(&self.emissive_texture, base);
        if r.is_err() {
            return r;
        }
        let r = check_opt(&self.pbr_metallic_roughness, base);
        if r.is_err() {
            return r;
        }
        let r = check_opt(&self.occlusion_texture, base);
        if r.is_err() {
            return r;
        }
        check_opt(&self.normal_texture, base)
    }
}

/// The emissive factors lie in `[0, 1]`.
pub open spec fn emissive_in_range(m: Material) -> bool {
    forall|i: int| 0 <= i < 3 ==> f32_le(0, (#[trigger] m.emissive_factor@[i]).bits) && f32_le(
        m.emissive_factor@[i].bits,
        0x3f80_0000,
    )
}

/// The alpha cutoff matters to validation only for opaque materials: a
/// `MASK` or `BLEND` material with in-range emissive factors and no textures
/// passes whatever its cutoff, while an opaque one whose cutoff is not `0.5`
/// is refused for it (and one whose cutoff is `0.5` passes); two materials
/// that differ only in their cutoff are judged alike unless they are opaque.
pub proof fn lemma_material_alpha_cutoff(m: Material, other: Material, base: &GltfDocument)
    requires
        emissive_in_range(m),
    ensures
        ({
            let plain = m.normal_texture is None && m.occlusion_texture is None && m.emissive_texture is None
                && m.pbr_metallic_roughness is None;
            &&& (plain && (m.alpha_mode == MaterialAlphaMode::Mask || m.alpha_mode == MaterialAlphaMode::Blend))
                ==> m.outcome(base) is Pass
            &&& (plain && m.alpha_mode == MaterialAlphaMode::Opaque && f32_eq(m.alpha_cutoff.bits, 0x3f00_0000))
                ==> m.outcome(base) is Pass
            &&& (m.alpha_mode == MaterialAlphaMode::Opaque && !f32_eq(m.alpha_cutoff.bits, 0x3f00_0000))
                ==> m.outcome(base) == Outcome::Reject(
                "`material.alphaCutoff` must not be defined when `material.alphaMode` is not defined!"@,
            )
            &&& (m.alpha_mode != MaterialAlphaMode::Opaque && other.alpha_mode == m.alpha_mode
                && other.emissive_factor == m.emissive_factor && other.normal_texture == m.normal_texture
                && other.occlusion_texture == m.occlusion_texture && other.emissive_texture
                == m.emissive_texture && other.pbr_metallic_roughness == m.pbr_metallic_roughness)
                ==> other.outcome(base) == m.outcome(base)
        }),
{
    let e = m.emissive_factor@;
    assert(!(exists|i: int| 0 <= i < e.len() && f32_lt(e[i].bits, 0))) by {
        assert forall|i: int| 0 <= i < e.len() implies !f32_lt(e[i].bits, 0) by {
            assert(f32_le(0, e[i].bits));
        }
    }
    assert(!(exists|i: int| 0 <= i < e.len() && f32_lt(0x3f80_0000, e[i].bits))) by {
        assert forall|i: int| 0 <= i < e.len() implies !f32_lt(0x3f80_0000, e[i].bits) by {
            assert(f32_le(e[i].bits, 0x3f80_0000));
        }
    }
}

impl Validatable for Texture {
    open spec fn outcome(&self, base: &GltfDocument) -> Outcome {
        then(
            match self.sampler {
                Some(x) => min_outcome(seq![x], 0usize, "texture.sampler"@),
                None => Outcome::Pass,
            },
            match self.source {
                Some(x) => min_outcome(seq![x], 0usize, "texture.source"@),
                None => Outcome::Pass,
            },
        )
    }

    fn is_valid(&self, base: &GltfDocument) -> (r: Result<(), Failure>) {
        if let Some(x) = self.sampler {
            let r = lift(check_value_min(x, 0, "texture.sampler"));
            if r.is_err() {
                return r;
            }
        }
        if let Some(x) = self.source {
            let r = lift(check_value_min(x, 0, "texture.source"));
            if r.is_err() {
                return r;
            }
        }
        Ok(())
    }
}

impl Validatable for Scene {
    open spec fn outcome(&self, base: &GltfDocument) -> Outcome {
        match self.nodes {
            Some(nodes) => then(nonempty_outcome(nodes@.len(), "scene.nodes"@),
                then(min_outcome(nodes@, 0usize, "scene.nodes"@),
                unique_outcome(nodes@, "scene.nodes"@))),
            None => Outcome::Pass,
        }
    }

    fn is_valid(&self, base: &GltfDocument) -> (r: Result<(), Failure>) {
        if let Some(nodes) = &self.nodes {
            let r = lift(check_if_empty(nodes, "scene.nodes"));
            if r.is_err() {
                return r;
            }
            let r = lift(check_items_for_min_val(nodes.as_slice(), 0, "scene.nodes"));
            if r.is_err() {
                return r;
            }
            return lift(check_for_dup_items(nodes, "scene.nodes"));
        }
        Ok(())
    }
}

impl Validatable for Mesh {
    open spec fn outcome(&self, base: &GltfDocument) -> Outcome {
        then(nonempty_outcome(self.primitives@.len(), "mesh.primitives"@),
            match self.weights {
                Some(w) => nonempty_outcome(w@.len(), "mesh.weights"@),
                None => Outcome::Pass,
            })
    }

    fn is_valid(&self, base: &GltfDocument) -> (r: Result<(), Failure>) {
        let r = lift(check_if_empty(&self.primitives, "mesh.primitives"));
        if r.is_err() {
            return r;
        }
        if let Some(w) = &self.weights {
            return lift(check_if_empty(w, "mesh.weights"));
        }
        Ok(())
    }
}

/// The name that the `Debug` rendering gives a sampler filter.
pub open spec fn sampler_filter_name(v: SamplerFilter) -> Seq<char> {
    match v {
        SamplerFilter::NearestMipmapNearest => "NearestMipmapNearest"@,
        SamplerFilter::LinearMipmapNearest => "LinearMipmapNearest"@,
        SamplerFilter::NearestMipmapLinear => "NearestMipmapLinear"@,
        SamplerFilter::LinearMipmapLinear => "LinearMipmapLinear"@,
        SamplerFilter::Nearest => "Nearest"@,
        SamplerFilter::Linear => "Linear"@,
        SamplerFilter::Undefined => "Undefined"@,
    }
}

/// The `Debug` rendering of a sampler filter.
pub fn sampler_filter_debug(v: SamplerFilter) -> (r: &'static str)
    ensures
        r@ == sampler_filter_name(v),
{
    match v {
        SamplerFilter::NearestMipmapNearest => "NearestMipmapNearest",
        SamplerFilter::LinearMipmapNearest => "LinearMipmapNearest",
        SamplerFilter::NearestMipmapLinear => "NearestMipmapLinear",
        SamplerFilter::LinearMipmapLinear => "LinearMipmapLinear",
        SamplerFilter::Nearest => "Nearest",
        SamplerFilter::Linear => "Linear",
        SamplerFilter::Undefined => "Undefined",
    }
}

impl Validatable for Sampler {
    open spec fn outcome(&self, base: &GltfDocument) -> Outcome {
        match self.mag_filter {
            Some(f) => reject_if(
                f != SamplerFilter::Nearest && f != SamplerFilter::Linear,
                "Invalid `sampler.magFilter` type: "@ + sampler_filter_name(f) + "!"@,
            ),
            None => Outcome::Pass,
        }
    }

    fn is_valid(&self, base: &GltfDocument) -> (r: Result<(), Failure>) {
        if let Some(f) = self.mag_filter {
            match f {
                SamplerFilter::Nearest => {},
                SamplerFilter::Linear => {},
                _ => {
                    return Err(
                        Failure::Invalid(
                            GltfError::from_string(
                                join3(
                                    "Invalid `sampler.magFilter` type: ",
                                    sampler_filter_debug(f),
                                    "!",
                                ),
                            ),
                        ),
                    );
                },
            }
        }
        Ok(())
    }
}

impl Validatable for BufferView {
    open spec fn outcome(&self, base: &GltfDocument) -> Outcome {
        then(min_outcome(seq![self.buffer], 0usize, "bufferView.buffer"@),
        then(match self.byte_offset {
                Some(o) => min_outcome(seq![o], 0usize, "bufferView.byteOffset"@),
                None => Outcome::Pass,
            },
        then(min_outcome(seq![self.byte_length], 1usize, "bufferView.byteLength"@),
            match self.byte_stride {
                Some(s) => then(min_outcome(seq![s], 4usize, "bufferView.byteStride"@),
                    then(max_outcome(seq![s], 252usize, "bufferView.byteStride"@),
                    reject_if(s % 4 != 0, "`bufferView.byteStride` must be a multiple of 4!"@))),
                None => Outcome::Pass,
            })))
    }

    fn is_valid(&self, base: &GltfDocument) -> (r: Result<(), Failure>) {
        let r = lift(check_value_min(self.buffer, 0, "bufferView.buffer"));
        if r.is_err() {
            return r;
        }
        if let Some(o) = self.byte_offset {
            let r = lift(check_value_min(o, 0, "bufferView.byteOffset"));
            if r.is_err() {
                return r;
            }
        }
        let r = lift(check_value_min(self.byte_length, 1, "bufferView.byteLength"));
        if r.is_err() {
            return r;
        }
        if let Some(s) = self.byte_stride {
            let r = lift(check_value_min(s, 4, "bufferView.byteStride"));
            if r.is_err() {
                return r;
            }
            let r = lift(check_value_max(s, 252, "bufferView.byteStride"));
            if r.is_err() {
                return r;
            }
            if s % 4 != 0 {
                return invalid("`bufferView.byteStride` must be a multiple of 4!");
            }
        }
        Ok(())
    }
}

/// Outcome of the check on an optional index; indices are never negative, so
/// the lower bound of zero always holds.
pub open spec fn opt_index_outcome(o: Option<usize>, name: Seq<char>) -> Outcome {
    match o {
        Some(x) => min_outcome(seq![x], 0usize, name),
        None => Outcome::Pass,
    }
}

/// Checks an optional index against the lower bound of zero.
pub fn check_opt_index(o: Option<usize>, name: &str) -> (r: Result<(), Failure>)
    ensures
        reports(r, opt_index_outcome(o, name@)),
{
    match o {
        Some(x) => lift(check_value_min(x, 0, name)),
        None => Ok(()),
    }
}

/// Outcome of checking a buffer view that a sparse accessor part refers to.
pub open spec fn sparse_view_outcome(
    base: &GltfDocument,
    index: usize,
    missing: Seq<char>,
    has_target: Seq<char>,
    has_stride: Seq<char>,
) -> Outcome {
    match base.buffer_views {
        None => Outcome::Halt,
        Some(views) => if index >= views@.len() {
            Outcome::Reject(missing)
        } else {
            then(reject_if(views@[index as int].target is Some, has_target),
                reject_if(views@[index as int].byte_stride is Some, has_stride))
        },
    }
}

fn check_sparse_view(
    base: &GltfDocument,
    index: usize,
    missing: &str,
    has_target: &str,
    has_stride: &str,
) -> (r: Result<(), Failure>)
    ensures
        reports(r, sparse_view_outcome(base, index, missing@, has_target@, has_stride@)),
{
    match &base.buffer_views {
        None => Err(Failure::Halted),
        Some(views) => {
            if index >= views.len() {
                return invalid(missing);
            }
            let view = &views[index];
            if view.target.is_some() {
                return invalid(has_target);
            }
            if view.byte_stride.is_some() {
                return invalid(has_stride);
            }
            Ok(())
        },
    }
}

impl Validatable for AccessorSparseIndices {
    open spec fn outcome(&self, base: &GltfDocument) -> Outcome {
        then(min_outcome(seq![self.buffer_view], 0usize, "accessor.sparse.indices.bufferView"@),
        then(sparse_view_outcome(base, self.buffer_view,
            "`accessor.sparse.indices.bufferView` is not a valid bufferView!"@,
            "The referenced bufferView `accessor.sparse.indices.bufferView` must not have its `target` property defined!"@,
            "The referenced bufferView `accessor.sparse.indices.bufferView` must not have its `byteStride` property defined!"@),
        then(min_outcome(seq![self.byte_offset], 0usize, "accessor.sparse.indices.byteOffset"@),
        reject_if(!(self.component_type == ComponentType::UnsignedByte
            || self.component_type == ComponentType::UnsignedShort
            || self.component_type == ComponentType::UnsignedInt),
            "`accessor.sparse.indices.componentType` must be any of `UNSIGNED_BYTE`, `UNSIGNED_SHORT`, or `UNSIGNED_INT`"@))))
    }

    fn is_valid(&self, base: &GltfDocument) -> (r: Result<(), Failure>) {
        let r = lift(check_value_min(self.buffer_view, 0, "accessor.sparse.indices.bufferView"));
        if r.is_err() {
            return r;
        }
        let r = check_sparse_view(base, self.buffer_view,
            "`accessor.sparse.indices.bufferView` is not a valid bufferView!",
            "The referenced bufferView `accessor.sparse.indices.bufferView` must not have its `target` property defined!",
            "The referenced bufferView `accessor.sparse.indices.bufferView` must not have its `byteStride` property defined!");
        if r.is_err() {
            return r;
        }
        let r = lift(check_value_min(self.byte_offset, 0, "accessor.sparse.indices.byteOffset"));
        if r.is_err() {
            return r;
        }
        if !(self.component_type == ComponentType::UnsignedByte
            || self.component_type == ComponentType::UnsignedShort
            || self.component_type == ComponentType::UnsignedInt) {
            return invalid(
                "`accessor.sparse.indices.componentType` must be any of `UNSIGNED_BYTE`, `UNSIGNED_SHORT`, or `UNSIGNED_INT`",
            );
        }
        Ok(())
    }
}

impl Validatable for AccessorSparseValues {
    open spec fn outcome(&self, base: &GltfDocument) -> Outcome {
        then(min_outcome(seq![self.buffer_view], 0usize, "accessor.sparse.values.bufferView"@),
        then(sparse_view_outcome(base, self.buffer_view,
            "`accessor.sparse.values.bufferView` is not a valid bufferView!"@,
            "The referenced bufferView `accessor.sparse.values.bufferView` must not have its `target` property defined!"@,
            "The referenced bufferView `accessor.sparse.values.bufferView` must not have its `byteStride` property defined!"@),
        min_outcome(seq![self.byte_offset], 0usize, "accessor.sparse.values.byteOffset"@)))
    }

    fn is_valid(&self, base: &GltfDocument) -> (r: Result<(), Failure>) {
        let r = lift(check_value_min(self.buffer_view, 0, "accessor.sparse.values.bufferView"));
        if r.is_err() {
            return r;
        }
        let r = check_sparse_view(base, self.buffer_view,
            "`accessor.sparse.values.bufferView` is not a valid bufferView!",
            "The referenced bufferView `accessor.sparse.values.bufferView` must not have its `target` property defined!",
            "The referenced bufferView `accessor.sparse.values.bufferView` must not have its `byteStride` property defined!");
        if r.is_err() {
            return r;
        }
        lift(check_value_min(self.byte_offset, 0, "accessor.sparse.values.byteOffset"))
    }
}

impl Validatable for AccessorSparse {
    open spec fn outcome(&self, base: &GltfDocument) -> Outcome {
        then(min_outcome(seq![self.count], 1usize, "accessor.sparse.count"@),
        then(self.indices.outcome(base), self.values.outcome(base)))
    }

    fn is_valid(&self, base: &GltfDocument) -> (r: Result<(), Failure>) {
        let r = lift(check_value_min(self.count, 1, "accessor.sparse.count"));
        if r.is_err() {
            return r;
        }
        let r = self.indices.is_valid(base);
        if r.is_err() {
            return r;
        }
        self.values.is_valid(base)
    }
}

/// The number of components of an element of the given accessor type; `None`
/// for `Undefined`.
pub open spec fn type_components(ty: AccessorType) -> Option<nat> {
    match ty {
        AccessorType::Scalar => Some(1),
        AccessorType::Vec2 => Some(2),
        AccessorType::Vec3 => Some(3),
        AccessorType::Vec4 => Some(4),
        AccessorType::Mat2 => Some(4),
        AccessorType::Mat3 => Some(9),
        AccessorType::Mat4 => Some(16),
        AccessorType::Undefined => None,
    }
}

/// Outcome of the alignment check on an accessor's byte offset.
pub open spec fn offset_alignment_outcome(offset: usize, ct: ComponentType) -> Outcome {
    let m = "`accessor.byteOffset` must be a multiple of the `accessor.componentType` datatype!"@;
    match ct {
        ComponentType::Short => reject_if(offset % 2 != 0, m),
        ComponentType::UnsignedShort => reject_if(offset % 2 != 0, m),
        ComponentType::UnsignedInt => reject_if(offset % 4 != 0, m),
        ComponentType::Float => reject_if(offset % 4 != 0, m),
        ComponentType::Undefined => Outcome::Reject("Invalid `accessor.componentType`"@),
        _ => Outcome::Pass,
    }
}

/// Outcome of the checks on an accessor's `min` and `max` arrays.
pub open spec fn bounds_outcome(min: Option<Vec<F32>>, max: Option<Vec<F32>>, ty: AccessorType) -> Outcome {
    let same = "`accessor.min` and `accessor.max` must have same length!"@;
    then(reject_if((min is None && max is Some) || (min is Some && max is None), same),
        match (min, max) {
            (Some(lo), Some(hi)) => then(reject_if(lo@.len() != hi@.len(), same),
                match type_components(ty) {
                    Some(k) => reject_if(lo@.len() != k,
                        "The lengths of `accessor.min` and `accessor.max` must match `accessor.type`"@),
                    None => Outcome::Reject("Invalid `accessor.type`"@),
                }),
            _ => Outcome::Pass,
        })
}

fn type_component_count(ty: AccessorType) -> (r: Option<usize>)
    ensures
        match type_components(ty) {
            Some(k) => r == Some(k as usize),
            None => r is None,
        },
{
    match ty {
        AccessorType::Scalar => Some(1),
        AccessorType::Vec2 => Some(2),
        AccessorType::Vec3 => Some(3),
        AccessorType::Vec4 => Some(4),
        AccessorType::Mat2 => Some(4),
        AccessorType::Mat3 => Some(9),
        AccessorType::Mat4 => Some(16),
        AccessorType::Undefined => None,
    }
}

fn check_bounds(min: &Option<Vec<F32>>, max: &Option<Vec<F32>>, ty: AccessorType) -> (r: Result<(), Failure>)
    ensures
        reports(r, bounds_outcome(*min, *max, ty)),
{
    let same = "`accessor.min` and `accessor.max` must have same length!";
    if (min.is_none() && max.is_some()) || (min.is_some() && max.is_none()) {
        return invalid(same);
    }
    match (min, max) {
        (Some(lo), Some(hi)) => {
            if lo.len() != hi.len() {
                return invalid(same);
            }
            match type_component_count(ty) {
                Some(k) => {
                    if lo.len() != k {
                        return invalid(
                            "The lengths of `accessor.min` and `accessor.max` must match `accessor.type`",
                        );
                    }
                    Ok(())
                },
                None => invalid("Invalid `accessor.type`"),
            }
        },
        _ => Ok(()),
    }
}

impl Validatable for Accessor {
    open spec fn outcome(&self, base: &GltfDocument) -> Outcome {
        then(opt_index_outcome(self.buffer_view, "accessor.bufferView"@),
        then(match self.byte_offset {
                Some(o) => then(reject_if(self.buffer_view is None,
                    "`accessor.byteOffset` must not be defined when `accessor.bufferView` is undefined!"@),
                    then(min_outcome(seq![o], 0usize, "accessor.byteOffset"@),
                    offset_alignment_outcome(o, self.component_type))),
                None => Outcome::Pass,
            },
        then(reject_if(self.normalized && (self.component_type == ComponentType::UnsignedInt
            || self.component_type == ComponentType::Float),
            "`accessor.normalized` must not be `true` for accessors with `FLOAT` or `UNSIGNED_INT` component type!"@),
        then(min_outcome(seq![self.count], 1usize, "`accessor.count`"@),
        then(bounds_outcome(self.min, self.max, self.ty),
        opt_outcome(self.sparse, base))))))
    }

    fn is_valid(&self, base: &GltfDocument) -> (r: Result<(), Failure>) {
        let r = check_opt_index(self.buffer_view, "accessor.bufferView");
        if r.is_err() {
            return r;
        }
        if let Some(o) = self.byte_offset {
            if self.buffer_view.is_none() {
                return invalid(
                    "`accessor.byteOffset` must not be defined when `accessor.bufferView` is undefined!",
                );
            }
            let r = lift(check_value_min(o, 0, "accessor.byteOffset"));
            if r.is_err() {
                return r;
            }
            let m = "`accessor.byteOffset` must be a multiple of the `accessor.componentType` datatype!";
            match self.component_type {
                ComponentType::Short => {
                    if o % 2 != 0 {
                        return invalid(m);
                    }
                },
                ComponentType::UnsignedShort => {
                    if o % 2 != 0 {
                        return invalid(m);
                    }
                },
                ComponentType::UnsignedInt => {
                    if o % 4 != 0 {
                        return invalid(m);
                    }
                },
                ComponentType::Float => {
                    if o % 4 != 0 {
                        return invalid(m);
                    }
                },
                ComponentType::Undefined => {
                    return invalid("Invalid `accessor.componentType`");
                },
                _ => {},
            }
        }
        if self.normalized && (self.component_type == ComponentType::UnsignedInt
            || self.component_type == ComponentType::Float) {
            return invalid(
                "`accessor.normalized` must not be `true` for accessors with `FLOAT` or `UNSIGNED_INT` component type!",
            );
        }
        let r = lift(check_value_min(self.count, 1, "`accessor.count`"));
        if r.is_err() {
            return r;
        }
        let r = check_bounds(&self.min, &self.max, self.ty);
        if r.is_err() {
            return r;
        }
        check_opt(&self.sparse, base)
    }
}

/// Outcome of the check that a skin's inverse-bind-matrix accessor exists and
/// holds an element for each joint.
pub open spec fn inverse_bind_outcome(base: &GltfDocument, index: usize, joints: nat) -> Outcome {
    match base.accessors {
        None => Outcome::Halt,
        Some(acc) => if index >= acc@.len() {
            Outcome::Reject("`skin.inverseBindMatrices` is not a valid accessor!"@)
        } else {
            reject_if(acc@[index as int].count < joints,
                "The count of referenced accessor `skin.inverseBindMatrices` must be greater than or equal to the number of elements of the `skin.joints` array!"@)
        },
    }
}

impl Validatable for Skin {
    open spec fn outcome(&self, base: &GltfDocument) -> Outcome {
        then(match self.inverse_bind_matrices {
                Some(i) => then(min_outcome(seq![i], 0usize, "skin.inverseBindMatrices"@),
                    inverse_bind_outcome(base, i, self.joints@.len())),
                None => Outcome::Pass,
            },
        then(opt_index_outcome(self.skeleton, "skin.skeleton"@),
        then(nonempty_outcome(self.joints@.len(), "skin.joints"@),
        then(min_outcome(self.joints@, 0usize, "skin.joints"@),
        unique_outcome(self.joints@, "skin.joints"@)))))
    }

    fn is_valid(&self, base: &GltfDocument) -> (r: Result<(), Failure>) {
        if let Some(i) = self.inverse_bind_matrices {
            let r = lift(check_value_min(i, 0, "skin.inverseBindMatrices"));
            if r.is_err() {
                return r;
            }
            match &base.accessors {
                None => {
                    return Err(Failure::Halted);
                },
                Some(acc) => {
                    if i >= acc.len() {
                        return invalid("`skin.inverseBindMatrices` is not a valid accessor!");
                    }
                    if acc[i].count < self.joints.len() {
                        return invalid(
                            "The count of referenced accessor `skin.inverseBindMatrices` must be greater than or equal to the number of elements of the `skin.joints` array!",
                        );
                    }
                },
            }
        }
        let r = check_opt_index(self.skeleton, "skin.skeleton");
        if r.is_err() {
            return r;
        }
        let r = lift(check_if_empty(&self.joints, "skin.joints"));
        if r.is_err() {
            return r;
        }
        let r = lift(check_items_for_min_val(self.joints.as_slice(), 0, "skin.joints"));
        if r.is_err() {
            return r;
        }
        lift(check_for_dup_items(&self.joints, "skin.joints"))
    }
}

impl Validatable for Node {
    open spec fn outcome(&self, base: &GltfDocument) -> Outcome {
        then(opt_index_outcome(self.camera, "node.camera"@),
        then(match self.children {
                Some(c) => then(nonempty_outcome(c@.len(), "node.children"@),
                    then(min_outcome(c@, 0usize, "node.children"@),
                    unique_outcome(c@, "node.children"@))),
                None => Outcome::Pass,
            },
        then(match self.skin {
                Some(k) => then(min_outcome(seq![k], 0usize, "node.skin"@),
                    reject_if(self.mesh is None, "`node.mesh` must be defined when `node.skin` is defined!"@)),
                None => Outcome::Pass,
            },
        then(opt_index_outcome(self.mesh, "node.mesh"@),
        then(float_min_outcome(self.rotation@, 0xbf80_0000, "-1"@, "node.rotation"@),
        then(float_max_outcome(self.rotation@, 0x3f80_0000, "1"@, "node.rotation"@),
        match self.weights {
            Some(w) => then(nonempty_outcome(w@.len(), "node.weights"@),
                reject_if(self.mesh is None, "`node.mesh` must be defined when `node.weights` is defined!"@)),
            None => Outcome::Pass,
        }))))))
    }

    fn is_valid(&self, base: &GltfDocument) -> (r: Result<(), Failure>) {
        let r = check_opt_index(self.camera, "node.camera");
        if r.is_err() {
            return r;
        }
        if let Some(c) = &self.children {
            let r = lift(check_if_empty(c, "node.children"));
            if r.is_err() {
                return r;
            }
            let r = lift(check_items_for_min_val(c.as_slice(), 0, "node.children"));
            if r.is_err() {
                return r;
            }
            let r = lift(check_for_dup_items(c, "node.children"));
            if r.is_err() {
                return r;
            }
        }
        if let Some(k) = self.skin {
            let r = lift(check_value_min(k, 0, "node.skin"));
            if r.is_err() {
                return r;
            }
            if self.mesh.is_none() {
                return invalid("`node.mesh` must be defined when `node.skin` is defined!");
            }
        }
        let r = check_opt_index(self.mesh, "node.mesh");
        if r.is_err() {
            return r;
        }
        let r = check_floats_min(self.rotation.as_slice(), F32::minus_one(), "node.rotation");
        if r.is_err() {
            return r;
        }
        let r = check_floats_max(self.rotation.as_slice(), F32::one(), "node.rotation");
        if r.is_err() {
            return r;
        }
        if let Some(w) = &self.weights {
            let r = lift(check_if_empty(w, "node.weights"));
            if r.is_err() {
                return r;
            }
            if self.mesh.is_none() {
                return invalid("`node.mesh` must be defined when `node.weights` is defined!");
            }
        }
        Ok(())
    }
}

impl Validatable for Orthographic {
    open spec fn outcome(&self, base: &GltfDocument) -> Outcome {
        then(reject_if(f32_eq(self.xmag.bits, 0), "`camera.orthographic.xmag` must not be equal to 0.0!"@),
        then(reject_if(f32_eq(self.ymag.bits, 0), "`camera.orthographic.ymag` must not be equal to 0.0!"@),
        then(reject_if(f32_le(self.zfar.bits, 0), "`camera.orthographic.zfar` must be greater than 0.0!"@),
        then(reject_if(f32_le(self.zfar.bits, self.znear.bits),
            "`camera.orthographic.zfar` must be greater than `camera.orthographic.znear`"@),
        reject_if(f32_lt(self.znear.bits, 0),
            "`camera.orthographic.znear` must be greater than or equal to 0.0!"@)))))
    }

    fn is_valid(&self, base: &GltfDocument) -> (r: Result<(), Failure>) {
        let zero = F32::zero();
        if self.xmag.eq_value(&zero) {
            return invalid("`camera.orthographic.xmag` must not be equal to 0.0!");
        }
        if self.ymag.eq_value(&zero) {
            return invalid("`camera.orthographic.ymag` must not be equal to 0.0!");
        }
        if self.zfar.le(&zero) {
            return invalid("`camera.orthographic.zfar` must be greater than 0.0!");
        }
        if self.zfar.le(&self.znear) {
            return invalid(
                "`camera.orthographic.zfar` must be greater than `camera.orthographic.znear`",
            );
        }
        if self.znear.lt(&zero) {
            return invalid("`camera.orthographic.znear` must be greater than or equal to 0.0!");
        }
        Ok(())
    }
}

impl Validatable for Perspective {
    open spec fn outcome(&self, base: &GltfDocument) -> Outcome {
        then(match self.aspect_ratio {
                Some(a) => reject_if(f32_le(a.bits, 0),
                    "`camera.perspective.aspect_ratio` must be greater than 0.0!"@),
                None => Outcome::Pass,
            },
        then(reject_if(f32_le(self.yfov.bits, 0), "`camera.perspective.yfov` must be greater than 0.0!"@),
        then(match self.zfar {
                Some(z) => then(reject_if(f32_le(z.bits, 0),
                    "`camera.perspective.zfar` must be greater than 0.0!"@),
                    reject_if(f32_le(z.bits, self.znear.bits),
                    "When defined, `camera.perspective.zfar` must be greater than `camera.perspective.znear`"@)),
                None => Outcome::Pass,
            },
        reject_if(f32_le(self.znear.bits, 0),
            "`camera.perspective.znear` must be greater than 0.0!"@))))
    }

    fn is_valid(&self, base: &GltfDocument) -> (r: Result<(), Failure>) {
        let zero = F32::zero();
        if let Some(a) = &self.aspect_ratio {
            if a.le(&zero) {
                return invalid("`camera.perspective.aspect_ratio` must be greater than 0.0!");
            }
        }
        if self.yfov.le(&zero) {
            return invalid("`camera.perspective.yfov` must be greater than 0.0!");
        }
        if let Some(z) = &self.zfar {
            if z.le(&zero) {
                return invalid("`camera.perspective.zfar` must be greater than 0.0!");
            }
            if z.le(&self.znear) {
                return invalid(
                    "When defined, `camera.perspective.zfar` must be greater than `camera.perspective.znear`",
                );
            }
        }
        if self.znear.le(&zero) {
            return invalid("`camera.perspective.znear` must be greater than 0.0!");
        }
        Ok(())
    }
}

impl Validatable for Camera {
    open spec fn outcome(&self, base: &GltfDocument) -> Outcome {
        then(reject_if(self.orthographic is Some && self.perspective is Some,
            "`camera.perspective` and `camera.orthographic` must not both be defined!"@),
        then(reject_if(self.orthographic is None && self.perspective is None,
            "One of `camera.perspective` and `camera.orthographic` must be defined!"@),
        then(match self.ty {
                CameraType::Orthographic => reject_if(self.orthographic is None,
                    "`camera.orthographic` must be defined when `camera.type` is `orthographic`!"@),
                CameraType::Perspective => reject_if(self.perspective is None,
                    "`camera.perspective` must be defined when `camera.type` is `perspective`!"@),
                CameraType::Undefined => Outcome::Reject("Invalid `camera.type`"@),
            },
        then(opt_outcome(self.orthographic, base), opt_outcome(self.perspective, base)))))
    }

    fn is_valid(&self, base: &GltfDocument) -> (r: Result<(), Failure>) {
        if self.orthographic.is_some() && self.perspective.is_some() {
            return invalid("`camera.perspective` and `camera.orthographic` must not both be defined!");
        }
        if self.orthographic.is_none() && self.perspective.is_none() {
            return invalid("One of `camera.perspective` and `camera.orthographic` must be defined!");
        }
        match self.ty {
            CameraType::Orthographic => {
                if self.orthographic.is_none() {
                    return invalid(
                        "`camera.orthographic` must be defined when `camera.type` is `orthographic`!",
                    );
                }
            },
            CameraType::Perspective => {
                if self.perspective.is_none() {
                    return invalid(
                        "`camera.perspective` must be defined when `camera.type` is `perspective`!",
                    );
                }
            },
            CameraType::Undefined => {
                return invalid("Invalid `camera.type`");
            },
        }
        let r = check_opt(&self.orthographic, base);
        if r.is_err() {
            return r;
        }
        check_opt(&self.perspective, base)
    }
}

/// The bit pattern of entry `i` of the 4x4 identity matrix in column-major
/// order, the default `matrix` of a node.
pub open spec fn identity_entry_bits(i: int) -> u32 {
    if i == 0 || i == 5 || i == 10 || i == 15 {
        0x3f80_0000
    } else {
        0
    }
}

/// `m` equals the default node matrix entry by entry as floating-point numbers.
pub open spec fn is_default_matrix(m: Seq<F32>) -> bool {
    m.len() == 16 && forall|i: int| 0 <= i < 16 ==> f32_eq(#[trigger] m[i].bits, identity_entry_bits(i))
}

fn identity_entry(i: usize) -> (r: F32)
    requires
        i < 16,
    ensures
        r.bits == identity_entry_bits(i as int),
{
    if i == 0 || i == 5 || i == 10 || i == 15 {
        F32::one()
    } else {
        F32::zero()
    }
}

/// Whether a node matrix equals the default (identity) matrix.
pub fn matrix_is_default(m: &[F32; 16]) -> (r: bool)
    ensures
        r == is_default_matrix(m@),
{
    let mut i: usize = 0;
    while i < 16
        invariant
            m@.len() == 16,
            i <= 16,
            forall|k: int| 0 <= k < i ==> f32_eq(#[trigger] m@[k].bits, identity_entry_bits(k)),
        decreases 16 - i,
    {
        if !m[i].eq_value(&identity_entry(i)) {
            return false;
        }
        i = i + 1;
    }
    true
}

/// Outcome of the check on the node that an animation channel targets.
pub open spec fn target_node_outcome(base: &GltfDocument, n: usize) -> Outcome {
    match base.nodes {
        None => Outcome::Halt,
        Some(nodes) => if n >= nodes@.len() {
            Outcome::Reject("`animation.channel.target.node` is not a valid node!"@)
        } else {
            reject_if(!is_default_matrix(nodes@[n as int].matrix@),
                "When a node is target for animation, `matrix` must not be present!"@)
        },
    }
}

impl Validatable for AnimationChannelTarget {
    open spec fn outcome(&self, base: &GltfDocument) -> Outcome {
        match self.node {
            Some(n) => then(min_outcome(seq![n], 0usize, "animation.channel.target.node"@),
                target_node_outcome(base, n)),
            None => Outcome::Pass,
        }
    }

    fn is_valid(&self, base: &GltfDocument) -> (r: Result<(), Failure>) {
        if let Some(n) = self.node {
            let r = lift(check_value_min(n, 0, "animation.channel.target.node"));
            if r.is_err() {
                return r;
            }
            match &base.nodes {
                None => {
                    return Err(Failure::Halted);
                },
                Some(nodes) => {
                    if n >= nodes.len() {
                        return invalid("`animation.channel.target.node` is not a valid node!");
                    }
                    if !matrix_is_default(&nodes[n].matrix) {
                        return invalid(
                            "When a node is target for animation, `matrix` must not be present!",
                        );
                    }
                },
            }
        }
        Ok(())
    }
}

impl Validatable for AnimationChannel {
    open spec fn outcome(&self, base: &GltfDocument) -> Outcome {
        then(min_outcome(seq![self.sampler], 0usize, "animation.channel.sampler"@),
            self.target.outcome(base))
    }

    fn is_valid(&self, base: &GltfDocument) -> (r: Result<(), Failure>) {
        let r = lift(check_value_min(self.sampler, 0, "animation.channel.sampler"));
        if r.is_err() {
            return r;
        }
        self.target.is_valid(base)
    }
}

impl Validatable for AnimationSampler {
    open spec fn outcome(&self, base: &GltfDocument) -> Outcome {
        then(min_outcome(seq![self.input], 0usize, "animation.sampler.input"@),
        then(min_outcome(seq![self.output], 0usize, "animation.sampler.output"@),
            match base.accessors {
                Some(acc) => if self.input >= acc@.len() {
                    Outcome::Reject("`animation.sampler.input` must reference a valid accessor!"@)
                } else {
                    reject_if(acc@[self.input as int].ty != AccessorType::Scalar
                        || acc@[self.input as int].component_type != ComponentType::Float,
                        "The referenced accessor `animation.sampler.input` must be of scalar type with floating-point components!"@)
                },
                None => Outcome::Pass,
            }))
    }

    fn is_valid(&self, base: &GltfDocument) -> (r: Result<(), Failure>) {
        let r = lift(check_value_min(self.input, 0, "animation.sampler.input"));
        if r.is_err() {
            return r;
        }
        let r = lift(check_value_min(self.output, 0, "animation.sampler.output"));
        if r.is_err() {
            return r;
        }
        if let Some(acc) = &base.accessors {
            if self.input >= acc.len() {
                return invalid("`animation.sampler.input` must reference a valid accessor!");
            }
            let a = &acc[self.input];
            if a.ty != AccessorType::Scalar || a.component_type != ComponentType::Float {
                return invalid(
                    "The referenced accessor `animation.sampler.input` must be of scalar type with floating-point components!",
                );
            }
        }
        Ok(())
    }
}

impl Validatable for Animation {
    open spec fn outcome(&self, base: &GltfDocument) -> Outcome {
        then(nonempty_outcome(self.channels@.len(), "animation.channels"@),
        then(nonempty_outcome(self.samplers@.len(), "animation.channels"@),
        then(items_outcome(self.channels@, base), items_outcome(self.samplers@, base))))
    }

    fn is_valid(&self, base: &GltfDocument) -> (r: Result<(), Failure>) {
        let r = lift(check_if_empty(&self.channels, "animation.channels"));
        if r.is_err() {
            return r;
        }
        let r = lift(check_if_empty(&self.samplers, "animation.channels"));
        if r.is_err() {
            return r;
        }
        let r = check_all(&self.channels, base);
        if r.is_err() {
            return r;
        }
        check_all(&self.samplers, base)
    }
}

/// The component type is one of the unsigned integer types.
pub open spec fn is_unsigned_integer(ct: ComponentType) -> bool {
    ct == ComponentType::UnsignedByte || ct == ComponentType::UnsignedShort
        || ct == ComponentType::UnsignedInt
}

impl Validatable for MeshPrimitive {
    open spec fn outcome(&self, base: &GltfDocument) -> Outcome {
        then(match self.indices {
                Some(i) => then(min_outcome(seq![i], 0usize, "mesh.primitive.indices"@),
                    match base.accessors {
                        None => Outcome::Halt,
                        Some(acc) => if i >= acc@.len() {
                            Outcome::Reject("`mesh.primitive.indices` is not a valid accessor!"@)
                        } else {
                            reject_if(acc@[i as int].ty != AccessorType::Scalar
                                || !is_unsigned_integer(acc@[i as int].component_type),
                                "The referenced accessor `mesh.primitive.indices` must be a `SCALAR` and an unsigned integer component type!"@)
                        },
                    }),
                None => Outcome::Pass,
            },
        then(opt_index_outcome(self.material, "mesh.primitive.material"@),
            match self.targets {
                Some(t) => nonempty_outcome(t@.len(), "mesh.primitive.targets"@),
                None => Outcome::Pass,
            }))
    }

    fn is_valid(&self, base: &GltfDocument) -> (r: Result<(), Failure>) {
        if let Some(i) = self.indices {
            let r = lift(check_value_min(i, 0, "mesh.primitive.indices"));
            if r.is_err() {
                return r;
            }
            match &base.accessors {
                None => {
                    return Err(Failure::Halted);
                },
                Some(acc) => {
                    if i >= acc.len() {
                        return invalid("`mesh.primitive.indices` is not a valid accessor!");
                    }
                    let a = &acc[i];
                    let ct = a.component_type;
                    if a.ty != AccessorType::Scalar || !(ct == ComponentType::UnsignedByte || ct
                        == ComponentType::UnsignedShort || ct == ComponentType::UnsignedInt) {
                        return invalid(
                            "The referenced accessor `mesh.primitive.indices` must be a `SCALAR` and an unsigned integer component type!",
                        );
                    }
                },
            }
        }
        let r = check_opt_index(self.material, "mesh.primitive.material");
        if r.is_err() {
            return r;
        }
        if let Some(t) = &self.targets {
            return lift(check_if_empty(t, "mesh.primitive.targets"));
        }
        Ok(())
    }
}

/// Outcome of the check that a URI is an IRI path.
pub open spec fn uri_outcome(uri: Option<String>) -> Outcome {
    match uri {
        Some(u) => reject_if(!iref_accepts_path(u@), invalid_path_message(u@)),
        None => Outcome::Pass,
    }
}

fn check_uri(uri: &Option<String>) -> (r: Result<(), Failure>)
    ensures
        reports(r, uri_outcome(*uri)),
{
    if let Some(u) = uri {
        if let Some(m) = iri_path_error(u.as_str()) {
            return Err(Failure::Invalid(GltfError::from_string(m)));
        }
    }
    Ok(())
}

impl Validatable for Image {
    open spec fn outcome(&self, base: &GltfDocument) -> Outcome {
        then(reject_if(self.uri is Some && self.buffer_view is Some,
            "`image.uri` and `image.bufferView` must not both be defined!"@),
        then(reject_if(self.mime_type is None && self.buffer_view is Some,
            "`image.mimeType` must be defined when `image.bufferView` is defined!"@),
        then(opt_index_outcome(self.buffer_view, "image.bufferView"@),
        uri_outcome(self.uri))))
    }

    fn is_valid(&self, base: &GltfDocument) -> (r: Result<(), Failure>) {
        if self.uri.is_some() && self.buffer_view.is_some() {
            return invalid("`image.uri` and `image.bufferView` must not both be defined!");
        }
        if self.mime_type.is_none() && self.buffer_view.is_some() {
            return invalid("`image.mimeType` must be defined when `image.bufferView` is defined!");
        }
        let r = check_opt_index(self.buffer_view, "image.bufferView");
        if r.is_err() {
            return r;
        }
        check_uri(&self.uri)
    }
}

impl Validatable for Buffer {
    open spec fn outcome(&self, base: &GltfDocument) -> Outcome {
        then(uri_outcome(self.uri), min_outcome(seq![self.byte_length], 1usize, "buffer.byteLength"@))
    }

    fn is_valid(&self, base: &GltfDocument) -> (r: Result<(), Failure>) {
        let r = check_uri(&self.uri);
        if r.is_err() {
            return r;
        }
        lift(check_value_min(self.byte_length, 1, "buffer.byteLength"))
    }
}

/// Outcome of the checks on the asset's version texts.
pub open spec fn version_outcome(version: Seq<char>, min_version: Option<Seq<char>>) -> Outcome {
    let pattern = "`asset.version` must match regex: ^[0-9]+\\.[0-9]+$"@;
    then(reject_if(!is_version_text(version), pattern),
        match min_version {
            Some(m) => then(reject_if(!is_version_text(m), pattern),
                reject_if(version_below(version, m),
                    "`asset.min_version` must be less than or equal to `asset.version`"@)),
            None => Outcome::Pass,
        })
}

/// The version `v` is below the version `m`: its major number is smaller, or
/// the major numbers are equal and its minor number is smaller.
pub open spec fn version_below(v: Seq<char>, m: Seq<char>) -> bool {
    decimal_value(major_part(v)) < decimal_value(major_part(m)) || (decimal_value(major_part(v))
        == decimal_value(major_part(m)) && decimal_value(minor_part(v)) < decimal_value(
        minor_part(m),
    ))
}

/// The minimum version text of an asset, if it has one.
pub open spec fn min_version_text(a: &Asset) -> Option<Seq<char>> {
    match a.min_version {
        Some(m) => Some(m@),
        None => None,
    }
}

fn split_version(v: &str) -> (r: (&str, &str))
    requires
        is_version_text(v@),
    ensures
        r.0@ == major_part(v@),
        r.1@ == minor_part(v@),
        forall|i: int| 0 <= i < r.0@.len() ==> is_ascii_digit(#[trigger] r.0@[i]),
        forall|i: int| 0 <= i < r.1@.len() ==> is_ascii_digit(#[trigger] r.1@[i]),
{
    let k = find_char(v, '.');
    let n = v.unicode_len();
    proof {
        let w = choose|w: int|
            0 < w < v@.len() - 1 && v@[w] == '.' && forall|i: int|
                0 <= i < v@.len() && i != w ==> #[trigger] is_ascii_digit(v@[i]);
        assert(is_ascii_digit(v@[k as int]) || k == w) by {
            if k < v@.len() && k != w {
                assert(is_ascii_digit(v@[k as int]));
            }
        }
        if k as int >= v@.len() {
            assert(v@[w] == '.');
        }
        assert(k < n);
        assert(k == w) by {
            if k < w {
                assert(is_ascii_digit(v@[k as int]));
            }
        }
        let maj = v@.subrange(0, k as int);
        let min = v@.subrange(k + 1, n as int);
        assert forall|i: int| 0 <= i < maj.len() implies is_ascii_digit(#[trigger] maj[i]) by {
            assert(maj[i] == v@[i]);
        }
        assert forall|i: int| 0 <= i < min.len() implies is_ascii_digit(#[trigger] min[i]) by {
            assert(min[i] == v@[k + 1 + i]);
        }
    }
    (v.substring_char(0, k), v.substring_char(k + 1, n))
}

impl Validatable for Asset {
    open spec fn outcome(&self, base: &GltfDocument) -> Outcome {
        version_outcome(self.version@, min_version_text(self))
    }

    fn is_valid(&self, base: &GltfDocument) -> (r: Result<(), Failure>) {
        let pattern = "`asset.version` must match regex: ^[0-9]+\\.[0-9]+$";
        if !version_pattern_matches(self.version.as_str()) {
            return invalid(pattern);
        }
        if let Some(m) = &self.min_version {
            if !version_pattern_matches(m.as_str()) {
                return invalid(pattern);
            }
            let (v0, v1) = split_version(self.version.as_str());
            let (m0, m1) = split_version(m.as_str());
            let major = decimal_order(v0, m0);
            if major < 0 || (major == 0 && decimal_order(v1, m1) < 0) {
                return invalid("`asset.min_version` must be less than or equal to `asset.version`");
            }
        }
        Ok(())
    }
}

/// Outcome of the checks on an optional list of names: not empty, no name
/// twice.
pub open spec fn names_outcome(o: Option<Vec<String>>, name: Seq<char>) -> Outcome {
    match o {
        Some(v) => then(nonempty_outcome(v@.len(), name), unique_outcome(v@, name)),
        None => Outcome::Pass,
    }
}

fn check_names(o: &Option<Vec<String>>, name: &str) -> (r: Result<(), Failure>)
    ensures
        reports(r, names_outcome(*o, name@)),
{
    if let Some(v) = o {
        let r = lift(check_if_empty(v, name));
        if r.is_err() {
            return r;
        }
        return lift(check_for_dup_items(v, name));
    }
    Ok(())
}

/// Outcome of the check that an optional list is not empty.
pub open spec fn opt_nonempty_outcome<T>(o: Option<Vec<T>>, name: Seq<char>) -> Outcome {
    match o {
        Some(v) => nonempty_outcome(v@.len(), name),
        None => Outcome::Pass,
    }
}

fn check_opt_nonempty<T>(o: &Option<Vec<T>>, name: &str) -> (r: Result<(), Failure>)
    ensures
        reports(r, opt_nonempty_outcome(*o, name@)),
{
    match o {
        Some(v) => lift(check_if_empty(v, name)),
        None => Ok(()),
    }
}

impl Validatable for GltfDocument {
    open spec fn outcome(&self, base: &GltfDocument) -> Outcome {
        then(names_outcome(self.extensions_used, "extensionsUsed"@),
        then(names_outcome(self.extensions_required, "extensionsRequired"@),
        then(opt_nonempty_outcome(self.accessors, "accessors"@),
        then(opt_nonempty_outcome(self.animations, "animations"@),
        then(opt_nonempty_outcome(self.buffers, "buffers"@),
        then(opt_nonempty_outcome(self.buffer_views, "buffer_views"@),
        then(opt_nonempty_outcome(self.cameras, "cameras"@),
        then(opt_nonempty_outcome(self.images, "images"@),
        then(opt_nonempty_outcome(self.materials, "materials"@),
        then(opt_nonempty_outcome(self.meshes, "meshes"@),
        then(opt_nonempty_outcome(self.nodes, "nodes"@),
        then(opt_nonempty_outcome(self.samplers, "samplers"@),
        then(opt_nonempty_outcome(self.scenes, "scenes"@),
        then(opt_nonempty_outcome(self.skins, "skins"@),
        then(opt_nonempty_outcome(self.textures, "textures"@),
            match self.scene {
                Some(s) => then(reject_if(self.scenes is None,
                    "`scene` must not be defined, when `scenes` is not defined"@),
                    min_outcome(seq![s], 0usize, "scene"@)),
                None => Outcome::Pass,
            })))))))))))))))
    }

    fn is_valid(&self, base: &GltfDocument) -> (r: Result<(), Failure>) {
        let r = check_names(&self.extensions_used, "extensionsUsed");
        if r.is_err() {
            return r;
        }
        let r = check_names(&self.extensions_required, "extensionsRequired");
        if r.is_err() {
            return r;
        }
        let r = check_opt_nonempty(&self.accessors, "accessors");
        if r.is_err() {
            return r;
        }
        let r = check_opt_nonempty(&self.animations, "animations");
        if r.is_err() {
            return r;
        }
        let r = check_opt_nonempty(&self.buffers, "buffers");
        if r.is_err() {
            return r;
        }
        let r = check_opt_nonempty(&self.buffer_views, "buffer_views");
        if r.is_err() {
            return r;
        }
        let r = check_opt_nonempty(&self.cameras, "cameras");
        if r.is_err() {
            return r;
        }
        let r = check_opt_nonempty(&self.images, "images");
        if r.is_err() {
            return r;
        }
        let r = check_opt_nonempty(&self.materials, "materials");
        if r.is_err() {
            return r;
        }
        let r = check_opt_nonempty(&self.meshes, "meshes");
        if r.is_err() {
            return r;
        }
        let r = check_opt_nonempty(&self.nodes, "nodes");
        if r.is_err() {
            return r;
        }
        let r = check_opt_nonempty(&self.samplers, "samplers");
        if r.is_err() {
            return r;
        }
        let r = check_opt_nonempty(&self.scenes, "scenes");
        if r.is_err() {
            return r;
        }
        let r = check_opt_nonempty(&self.skins, "skins");
        if r.is_err() {
            return r;
        }
        let r = check_opt_nonempty(&self.textures, "textures");
        if r.is_err() {
            return r;
        }
        if let Some(s) = self.scene {
            if self.scenes.is_none() {
                return invalid("`scene` must not be defined, when `scenes` is not defined");
            }
            return lift(check_value_min(s, 0, "scene"));
        }
        Ok(())
    }
}

/// Outcome of the checks that loading a document runs, in the order it runs
/// them: the document itself, then each accessor, animation, the asset, and
/// each buffer, buffer view, camera, image, material, mesh, node, sampler,
/// scene, skin and texture.
pub open spec fn document_outcome(doc: &GltfDocument) -> Outcome {
    then(doc.outcome(doc),
    then(opt_items_outcome(doc.accessors, doc),
    then(opt_items_outcome(doc.animations, doc),
    then(doc.asset.outcome(doc),
    then(opt_items_outcome(doc.buffers, doc),
    then(opt_items_outcome(doc.buffer_views, doc),
    then(opt_items_outcome(doc.cameras, doc),
    then(opt_items_outcome(doc.images, doc),
    then(opt_items_outcome(doc.materials, doc),
    then(opt_items_outcome(doc.meshes, doc),
    then(opt_items_outcome(doc.nodes, doc),
    then(opt_items_outcome(doc.samplers, doc),
    then(opt_items_outcome(doc.scenes, doc),
    then(opt_items_outcome(doc.skins, doc),
    opt_items_outcome(doc.textures, doc)))))))))))))))
}

/// A list of parts passes exactly when each part passes; when it does not,
/// its outcome is that of the first part that does not pass.
pub proof fn lemma_items_outcome<T: Validatable>(s: Seq<T>, base: &GltfDocument)
    ensures
        (items_outcome(s, base) == Outcome::Pass) <==> (forall|i: int|
            0 <= i < s.len() ==> #[trigger] s[i].outcome(base) == Outcome::Pass),
        forall|k: int|
            0 <= k < s.len() && #[trigger] s[k].outcome(base) != Outcome::Pass && (forall|j: int|
                0 <= j < k ==> s[j].outcome(base) == Outcome::Pass) ==> items_outcome(s, base)
                == s[k].outcome(base),
    decreases s.len(),
{
    if s.len() > 0 {
        let rest = s.drop_first();
        lemma_items_outcome(rest, base);
        assert forall|i: int| 1 <= i < s.len() implies s[i] == rest[i - 1] by {}
        if s[0].outcome(base) == Outcome::Pass {
            assert forall|k: int|
                0 <= k < s.len() && #[trigger] s[k].outcome(base) != Outcome::Pass && (forall|
                    j: int,
                | 0 <= j < k ==> s[j].outcome(base) == Outcome::Pass) implies items_outcome(
                s,
                base,
            ) == s[k].outcome(base) by {
                assert(k >= 1);
                assert(rest[k - 1] == s[k]);
                assert forall|j: int| 0 <= j < k - 1 implies rest[j].outcome(base)
                    == Outcome::Pass by {
                    assert(rest[j] == s[j + 1]);
                }
            }
            if forall|i: int| 0 <= i < rest.len() ==> #[trigger] rest[i].outcome(base)
                == Outcome::Pass {
                assert forall|i: int| 0 <= i < s.len() implies #[trigger] s[i].outcome(base)
                    == Outcome::Pass by {
                    if i > 0 {
                        assert(rest[i - 1] == s[i]);
                    }
                }
            } else {
                let i = choose|i: int|
                    0 <= i < rest.len() && #[trigger] rest[i].outcome(base) != Outcome::Pass;
                assert(s[i + 1] == rest[i]);
            }
        }
    }
}

/// A document passes validation exactly when the document itself, each of
/// its parts and its asset pass.
pub proof fn lemma_document_passes(doc: &GltfDocument)
    ensures
        (document_outcome(doc) == Outcome::Pass) <==> ({
            &&& doc.outcome(doc) == Outcome::Pass
            &&& opt_items_outcome(doc.accessors, doc) == Outcome::Pass
            &&& opt_items_outcome(doc.animations, doc) == Outcome::Pass
            &&& doc.asset.outcome(doc) == Outcome::Pass
            &&& opt_items_outcome(doc.buffers, doc) == Outcome::Pass
            &&& opt_items_outcome(doc.buffer_views, doc) == Outcome::Pass
            &&& opt_items_outcome(doc.cameras, doc) == Outcome::Pass
            &&& opt_items_outcome(doc.images, doc) == Outcome::Pass
            &&& opt_items_outcome(doc.materials, doc) == Outcome::Pass
            &&& opt_items_outcome(doc.meshes, doc) == Outcome::Pass
            &&& opt_items_outcome(doc.nodes, doc) == Outcome::Pass
            &&& opt_items_outcome(doc.samplers, doc) == Outcome::Pass
            &&& opt_items_outcome(doc.scenes, doc) == Outcome::Pass
            &&& opt_items_outcome(doc.skins, doc) == Outcome::Pass
            &&& opt_items_outcome(doc.textures, doc) == Outcome::Pass
        }),
{
}

/// Runs every check that loading a document runs, in the same order, and
/// reports the first that does not pass.
pub fn validate_document(doc: &GltfDocument) -> (r: Result<(), Failure>)
    ensures
        reports(r, document_outcome(doc)),
{
    let r = doc.is_valid(doc);
    if r.is_err() {
        return r;
    }
    let r = check_all_opt(&doc.accessors, doc);
    if r.is_err() {
        return r;
    }
    let r = check_all_opt(&doc.animations, doc);
    if r.is_err() {
        return r;
    }
    let r = doc.asset.is_valid(doc);
    if r.is_err() {
        return r;
    }
    let r = check_all_opt(&doc.buffers, doc);
    if r.is_err() {
        return r;
    }
    let r = check_all_opt(&doc.buffer_views, doc);
    if r.is_err() {
        return r;
    }
    let r = check_all_opt(&doc.cameras, doc);
    if r.is_err() {
        return r;
    }
    let r = check_all_opt(&doc.images, doc);
    if r.is_err() {
        return r;
    }
    let r = check_all_opt(&doc.materials, doc);
    if r.is_err() {
        return r;
    }
    let r = check_all_opt(&doc.meshes, doc);
    if r.is_err() {
        return r;
    }
    let r = check_all_opt(&doc.nodes, doc);
    if r.is_err() {
        return r;
    }
    let r = check_all_opt(&doc.samplers, doc);
    if r.is_err() {
        return r;
    }
    let r = check_all_opt(&doc.scenes, doc);
    if r.is_err() {
        return r;
    }
    let r = check_all_opt(&doc.skins, doc);
    if r.is_err() {
        return r;
    }
    check_all_opt(&doc.textures, doc)
}
/// A one-item list passes a lower bound exactly when its item reaches it,
/// and an upper bound exactly when its item does not pass it.
proof fn lemma_single_bounds(x: usize, min: usize, name: Seq<char>)
    ensures
        min_outcome(seq![x], min, name) is Pass <==> x >= min,
        max_outcome(seq![x], min, name) is Pass <==> x <= min,
{
    if x < min {
        assert(seq![x][0] == x);
    }
    if x > min {
        assert(seq![x][0] == x);
    }
}

/// A buffer view passes exactly when it holds at least one byte and its
/// byte stride, where it has one, is a multiple of 4 from 4 to 252.
pub proof fn lemma_buffer_view_rules(b: BufferView, base: &GltfDocument)
    ensures
        b.outcome(base) is Pass <==> (b.byte_length >= 1 && (b.byte_stride matches Some(s) ==> (4 <= s <= 252
            && s % 4 == 0))),
{
    lemma_single_bounds(b.buffer, 0, "bufferView.buffer"@);
    if let Some(o) = b.byte_offset {
        lemma_single_bounds(o, 0, "bufferView.byteOffset"@);
    }
    lemma_single_bounds(b.byte_length, 1, "bufferView.byteLength"@);
    if let Some(s) = b.byte_stride {
        lemma_single_bounds(s, 4, "bufferView.byteStride"@);
        lemma_single_bounds(s, 252, "bufferView.byteStride"@);
    }
}

/// A sampler passes exactly when its magnification filter, where it has
/// one, is `NEAREST` or `LINEAR` (the mipmap filters are for minification).
pub proof fn lemma_sampler_rules(sampler: Sampler, base: &GltfDocument)
    ensures
        sampler.outcome(base) is Pass <==> (sampler.mag_filter matches Some(f) ==> (f == SamplerFilter::Nearest || f
            == SamplerFilter::Linear)),
{
}

/// A mesh passes exactly when it has a primitive and its weights, where it
/// has them, are not empty.
pub proof fn lemma_mesh_rules(m: Mesh, base: &GltfDocument)
    ensures
        m.outcome(base) is Pass <==> (m.primitives@.len() > 0 && (m.weights matches Some(w) ==> w@.len() > 0)),
{
}

/// A scene passes exactly when its node list, where it has one, is not
/// empty and names no node twice.
pub proof fn lemma_scene_rules(sc: Scene, base: &GltfDocument)
    ensures
        sc.outcome(base) is Pass <==> (sc.nodes matches Some(n) ==> (n@.len() > 0 && forall|i: int, j: int|
            0 <= i < j < n@.len() ==> n@[i] != n@[j])),
{
    if let Some(n) = sc.nodes {
        assert(!some_below(n@, 0usize));
    }
}

/// A perspective projection passes exactly when its aspect ratio (where
/// given), vertical field of view, far plane (where given) and near plane
/// are all above zero and the far plane lies beyond the near one.
pub proof fn lemma_perspective_rules(p: Perspective, base: &GltfDocument)
    ensures
        p.outcome(base) is Pass <==> {
            &&& (p.aspect_ratio matches Some(a) ==> !f32_le(a.bits, 0))
            &&& !f32_le(p.yfov.bits, 0)
            &&& (p.zfar matches Some(z) ==> !f32_le(z.bits, 0) && !f32_le(z.bits, p.znear.bits))
            &&& !f32_le(p.znear.bits, 0)
        },
{
}

/// An orthographic projection passes exactly when its magnifications are
/// not zero, its far plane is above zero and beyond the near plane, and its
/// near plane is not below zero.
pub proof fn lemma_orthographic_rules(o: Orthographic, base: &GltfDocument)
    ensures
        o.outcome(base) is Pass <==> {
            &&& !f32_eq(o.xmag.bits, 0)
            &&& !f32_eq(o.ymag.bits, 0)
            &&& !f32_le(o.zfar.bits, 0)
            &&& !f32_le(o.zfar.bits, o.znear.bits)
            &&& !f32_lt(o.znear.bits, 0)
        },
{
}

/// An image passes exactly when it is not given both a URI and a buffer
/// view, names its media type when it is given a buffer view, and has a
/// valid IRI path as its URI, where it has one.
pub proof fn lemma_image_rules(im: Image, base: &GltfDocument)
    ensures
        im.outcome(base) is Pass <==> {
            &&& !(im.uri is Some && im.buffer_view is Some)
            &&& (im.buffer_view is Some ==> im.mime_type is Some)
            &&& (im.uri matches Some(u) ==> iref_accepts_path(u@))
        },
{
    if let Some(b) = im.buffer_view {
        lemma_single_bounds(b, 0, "image.bufferView"@);
    }
}

/// Sparse indices whose buffer view exists, with neither a target nor a
/// byte stride, pass exactly when their component type is an unsigned
/// integer type: `UNSIGNED_BYTE`, `UNSIGNED_SHORT` or `UNSIGNED_INT`.
pub proof fn lemma_sparse_indices_rules(si: AccessorSparseIndices, base: &GltfDocument)
    requires
        base.buffer_views matches Some(views) && (si.buffer_view as int) < views@.len()
            && views@[si.buffer_view as int].target is None && views@[si.buffer_view as int].byte_stride is None,
    ensures
        si.outcome(base) is Pass <==> (si.component_type == ComponentType::UnsignedByte || si.component_type
            == ComponentType::UnsignedShort || si.component_type == ComponentType::UnsignedInt),
{
    lemma_single_bounds(si.buffer_view, 0, "accessor.sparse.indices.bufferView"@);
    lemma_single_bounds(si.byte_offset, 0, "accessor.sparse.indices.byteOffset"@);
}

/// An accessor that passes counts at least one element, is normalized only
/// for byte and short component types, and has a byte offset only where it
/// has a buffer view.
pub proof fn lemma_accessor_rules(a: Accessor, base: &GltfDocument)
    ensures
        a.outcome(base) is Pass ==> {
            &&& a.count >= 1
            &&& a.normalized ==> a.component_type != ComponentType::UnsignedInt && a.component_type != ComponentType::Float
            &&& a.byte_offset is Some ==> a.buffer_view is Some
        },
{
    if let Some(b) = a.buffer_view {
        lemma_single_bounds(b, 0, "accessor.bufferView"@);
    }
    if let Some(o) = a.byte_offset {
        lemma_single_bounds(o, 0, "accessor.byteOffset"@);
    }
    lemma_single_bounds(a.count, 1, "`accessor.count`"@);
}

/// A node that passes names no child twice, has a mesh wherever it has a
/// skin or morph weights, and has non-empty children and weights lists.
pub proof fn lemma_node_rules(n: Node, base: &GltfDocument)
    ensures
        n.outcome(base) is Pass ==> {
            &&& n.children matches Some(c) ==> (c@.len() > 0 && forall|i: int, j: int|
                0 <= i < j < c@.len() ==> c@[i] != c@[j])
            &&& n.skin is Some ==> n.mesh is Some
            &&& n.weights matches Some(w) ==> (w@.len() > 0 && n.mesh is Some)
        },
{
}

/// The asset passes exactly when its version, and its minimum version where
/// it has one, read `<digits>.<digits>`, and the minimum version is not
/// greater than the version: its major number is smaller, or equal with a
/// minor number no greater.
pub proof fn lemma_asset_rules(a: Asset, base: &GltfDocument)
    ensures
        a.outcome(base) is Pass <==> {
            &&& is_version_text(a.version@)
            &&& (a.min_version matches Some(m) ==> {
                &&& is_version_text(m@)
                &&& (decimal_value(major_part(m@)) < decimal_value(major_part(a.version@)) || (decimal_value(
                    major_part(m@),
                ) == decimal_value(major_part(a.version@)) && decimal_value(minor_part(m@)) <= decimal_value(
                    minor_part(a.version@),
                )))
            })
        },
{
}

} // verus!
