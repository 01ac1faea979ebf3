use beans_engine::document::{
    Accessor, AccessorSparseIndices, Asset, BufferView, GltfDocument, Image, Perspective, Scene,
};
use beans_engine::enums::{AccessorType, BufferViewTarget, ComponentType, ImageMimeType};
use beans_engine::error::GltfError;
use beans_engine::float::F32;
use beans_engine::rules::{validate_document, Validatable};
use beans_engine::validate::{
    check_for_dup_items, check_if_empty, check_items_for_max_val, check_items_for_min_val, Failure,
};

fn float(v: f32) -> F32 {
    F32 { bits: v.to_bits(), text: v.to_string() }
}

fn asset(version: &str, min_version: Option<&str>) -> Asset {
    Asset {
        copyright: None,
        generator: None,
        version: String::from(version),
        min_version: min_version.map(String::from),
        extensions: None,
        extras: None,
    }
}

fn document() -> GltfDocument {
    GltfDocument {
        extensions_used: None,
        extensions_required: None,
        accessors: None,
        animations: None,
        asset: asset("2.0", None),
        buffers: None,
        buffer_views: None,
        cameras: None,
        images: None,
        materials: None,
        meshes: None,
        nodes: None,
        samplers: None,
        scene: None,
        scenes: None,
        skins: None,
        textures: None,
        extensions: None,
        extras: None,
    }
}

fn accessor(count: usize) -> Accessor {
    Accessor {
        buffer_view: Some(0),
        byte_offset: None,
        component_type: ComponentType::Float,
        normalized: false,
        count,
        ty: AccessorType::Vec3,
        max: None,
        min: None,
        sparse: None,
        name: None,
        extensions: None,
        extras: None,
    }
}

fn message(r: Result<(), Failure>) -> String {
    match r {
        Err(Failure::Invalid(e)) => e.to_string(),
        Err(Failure::Halted) => String::from("halted"),
        Ok(()) => String::from("ok"),
    }
}

#[test]
fn duplicate_items_are_refused() {
    let names = vec![String::from("KHR_a"), String::from("KHR_b"), String::from("KHR_a")];
    let e = check_for_dup_items(&names, "extensionsUsed").unwrap_err();
    assert_eq!(e.to_string(), "`extensionsUsed` must have unique items!");
    let unique = vec![3usize, 1, 2];
    assert!(check_for_dup_items(&unique, "joints").is_ok());
}

#[test]
fn empty_lists_are_refused() {
    let empty: Vec<usize> = Vec::new();
    let e = check_if_empty(&empty, "nodes").unwrap_err();
    assert_eq!(e.to_string(), "`nodes` must hold at least one item!");
    assert!(check_if_empty(&vec![0usize], "nodes").is_ok());
}

#[test]
fn minimum_messages_depend_on_length() {
    let one = [0usize];
    let e = check_items_for_min_val(&one, 1, "count").unwrap_err();
    assert_eq!(e.to_string(), "`count` must be greater than or equal to 1!");
    let many = [4usize, 0, 7];
    let e = check_items_for_min_val(&many, 1, "values").unwrap_err();
    assert_eq!(e.to_string(), "Each item of `values` must be greater than or equal to 1!");
    assert!(check_items_for_min_val(&many, 0, "values").is_ok());
}

#[test]
fn maximum_messages_on_floats() {
    let v = [float(0.5), float(1.5)];
    let e = check_items_for_max_val(&v, float(1.0), "baseColorFactor").unwrap_err();
    assert_eq!(e.to_string(), "Each item of `baseColorFactor` must be less than or equal to 1!");
    let w = [float(2.0)];
    let e = check_items_for_max_val(&w, float(1.0), "alphaCutoff").unwrap_err();
    assert_eq!(e.to_string(), "`alphaCutoff` must be less than or equal to 1!");
    let nan = [float(f32::NAN)];
    assert!(check_items_for_max_val(&nan, float(1.0), "x").is_ok());
}

#[test]
fn error_text_is_kept() {
    let e = GltfError::from("plain");
    assert_eq!(e.to_string(), "plain");
    let f = GltfError::from(String::from("owned"));
    assert_eq!(f.to_string(), "owned");
}

#[test]
fn minimal_document_passes() {
    let doc = document();
    assert!(validate_document(&doc).is_ok());
}

#[test]
fn empty_accessor_list_is_refused_first() {
    let mut doc = document();
    doc.accessors = Some(Vec::new());
    doc.asset = asset("x", None);
    assert_eq!(message(validate_document(&doc)), "`accessors` must hold at least one item!");
}

#[test]
fn scene_without_scenes_is_refused() {
    let mut doc = document();
    doc.scene = Some(0);
    assert_eq!(
        message(validate_document(&doc)),
        "`scene` must not be defined, when `scenes` is not defined"
    );
}

#[test]
fn accessor_count_must_be_positive() {
    let doc = document();
    assert_eq!(
        message(accessor(0).is_valid(&doc)),
        "``accessor.count`` must be greater than or equal to 1!"
    );
    assert_eq!(message(accessor(3).is_valid(&doc)), "ok");
}

#[test]
fn accessor_offset_needs_a_view_and_alignment() {
    let doc = document();
    let mut a = accessor(1);
    a.byte_offset = Some(2);
    assert_eq!(
        message(a.is_valid(&doc)),
        "`accessor.byteOffset` must be a multiple of the `accessor.componentType` datatype!"
    );
    a.buffer_view = None;
    assert_eq!(
        message(a.is_valid(&doc)),
        "`accessor.byteOffset` must not be defined when `accessor.bufferView` is undefined!"
    );
}

#[test]
fn accessor_bounds_must_match_type() {
    let doc = document();
    let mut a = accessor(1);
    a.min = Some(vec![float(0.0), float(0.0)]);
    a.max = Some(vec![float(1.0), float(1.0)]);
    assert_eq!(
        message(a.is_valid(&doc)),
        "The lengths of `accessor.min` and `accessor.max` must match `accessor.type`"
    );
    a.max = None;
    assert_eq!(message(a.is_valid(&doc)), "`accessor.min` and `accessor.max` must have same length!");
}

#[test]
fn normalized_float_is_refused() {
    let doc = document();
    let mut a = accessor(1);
    a.normalized = true;
    assert_eq!(
        message(a.is_valid(&doc)),
        "`accessor.normalized` must not be `true` for accessors with `FLOAT` or `UNSIGNED_INT` component type!"
    );
}

#[test]
fn version_must_match_pattern() {
    let doc = document();
    assert_eq!(
        message(asset("2", None).is_valid(&doc)),
        "`asset.version` must match regex: ^[0-9]+\\.[0-9]+$"
    );
    assert_eq!(
        message(asset("2.0", Some("2.x")).is_valid(&doc)),
        "`asset.version` must match regex: ^[0-9]+\\.[0-9]+$"
    );
    assert_eq!(message(asset("2.0", Some("2.0")).is_valid(&doc)), "ok");
}

#[test]
fn min_version_is_compared_as_numbers() {
    let doc = document();
    assert_eq!(
        message(asset("2.0", Some("2.1")).is_valid(&doc)),
        "`asset.min_version` must be less than or equal to `asset.version`"
    );
    assert_eq!(
        message(asset("9.0", Some("10.0")).is_valid(&doc)),
        "`asset.min_version` must be less than or equal to `asset.version`"
    );
    assert_eq!(message(asset("3.0", Some("2.1")).is_valid(&doc)), "ok");
    assert_eq!(message(asset("10.0", Some("9.0")).is_valid(&doc)), "ok");
    assert_eq!(message(asset("2.10", Some("2.9")).is_valid(&doc)), "ok");
    assert_eq!(message(asset("2.01", Some("2.1")).is_valid(&doc)), "ok");
}

fn view(target: bool, stride: bool) -> BufferView {
    BufferView {
        buffer: 0,
        byte_offset: None,
        byte_length: 4,
        byte_stride: if stride { Some(4) } else { None },
        target: if target { Some(BufferViewTarget::ArrayBuffer) } else { None },
        name: None,
        extensions: None,
        extras: None,
    }
}

#[test]
fn sparse_indices_take_unsigned_integer_types() {
    let mut doc = document();
    doc.buffer_views = Some(vec![view(false, false)]);
    let indices = |t: ComponentType| AccessorSparseIndices {
        buffer_view: 0,
        byte_offset: 0,
        component_type: t,
        extensions: None,
        extras: None,
    };
    for t in [ComponentType::UnsignedByte, ComponentType::UnsignedShort, ComponentType::UnsignedInt] {
        assert_eq!(message(indices(t).is_valid(&doc)), "ok");
    }
    for t in [ComponentType::Byte, ComponentType::Short, ComponentType::Float] {
        assert_eq!(
            message(indices(t).is_valid(&doc)),
            "`accessor.sparse.indices.componentType` must be any of `UNSIGNED_BYTE`, `UNSIGNED_SHORT`, or `UNSIGNED_INT`"
        );
    }
}

#[test]
fn image_in_a_buffer_view_needs_a_media_type() {
    let doc = document();
    let image = |mime: Option<ImageMimeType>| Image {
        uri: None,
        mime_type: mime,
        buffer_view: Some(0),
        name: None,
        extensions: None,
        extras: None,
    };
    assert_eq!(
        message(image(None).is_valid(&doc)),
        "`image.mimeType` must be defined when `image.bufferView` is defined!"
    );
    assert_eq!(message(image(Some(ImageMimeType::Png)).is_valid(&doc)), "ok");
}

#[test]
fn perspective_angles_and_planes_are_positive() {
    let doc = document();
    let p = |yfov: f32, znear: f32| Perspective {
        aspect_ratio: None,
        yfov: float(yfov),
        zfar: None,
        znear: float(znear),
        extensions: None,
        extras: None,
    };
    assert_eq!(message(p(0.8, 0.1).is_valid(&doc)), "ok");
    assert_eq!(message(p(-1.0, 0.1).is_valid(&doc)), "`camera.perspective.yfov` must be greater than 0.0!");
    assert_eq!(message(p(0.0, 0.1).is_valid(&doc)), "`camera.perspective.yfov` must be greater than 0.0!");
    assert_eq!(message(p(0.8, 0.0).is_valid(&doc)), "`camera.perspective.znear` must be greater than 0.0!");
    assert_eq!(message(p(0.8, -0.5).is_valid(&doc)), "`camera.perspective.znear` must be greater than 0.0!");
}

#[test]
fn documents_check_parts_in_load_order() {
    let mut doc = document();
    doc.accessors = Some(vec![accessor(0)]);
    doc.asset = asset("bad", None);
    assert_eq!(
        message(validate_document(&doc)),
        "``accessor.count`` must be greater than or equal to 1!"
    );
    doc.accessors = Some(vec![accessor(2)]);
    assert_eq!(
        message(validate_document(&doc)),
        "`asset.version` must match regex: ^[0-9]+\\.[0-9]+$"
    );
}

#[test]
fn empty_scene_node_list_is_refused() {
    let mut doc = document();
    doc.scenes = Some(vec![Scene { nodes: Some(Vec::new()), name: None, extensions: None, extras: None }]);
    assert_eq!(message(validate_document(&doc)), "`scene.nodes` must hold at least one item!");
}
