use beans_engine::buffer_source::{has_no_stray_percent, plan_buffer, plan_buffers, split_pieces, trim_text, BufferStep};
use beans_engine::deserialize::{
    default_base_color_factor, default_emissive_factor, default_f32_0, default_f32_1,
    default_f32_half, default_matrix, default_mesh_primitive_mode, default_rotation, default_scale,
    default_translation, deserialize_from_option_string_to_enum,
    deserialize_from_option_usize_to_enum, deserialize_from_string_to_enum,
    deserialize_from_usize_to_enum, deserialize_string_to_iri, invalid_field_message,
    last_path_segment,
};
use beans_engine::enums::{AccessorType, ComponentType, MaterialAlphaMode, MeshPrimitiveMode, SamplerFilter};
use beans_engine::document::{Buffer, GltfDocument, Asset};
use beans_engine::rules::Validatable;
use beans_engine::validate::Failure;

#[test]
fn invalid_field_names_last_path_segment() {
    assert_eq!(last_path_segment("beans::gltf_loader::enums::ComponentType"), "ComponentType");
    assert_eq!(last_path_segment("Plain"), "Plain");
    assert_eq!(
        invalid_field_message("beans::gltf_loader::enums::AccessorType"),
        "Invalid AccessorType field!"
    );
}

#[test]
fn numbers_decode_to_enums() {
    let ok: Result<ComponentType, String> = deserialize_from_usize_to_enum(5126, "x::ComponentType");
    assert_eq!(ok, Ok(ComponentType::Float));
    let bad: Result<ComponentType, String> = deserialize_from_usize_to_enum(5124, "x::ComponentType");
    assert_eq!(bad, Err(String::from("Invalid ComponentType field!")));
    let none: Result<Option<SamplerFilter>, String> =
        deserialize_from_option_usize_to_enum(None, "x::SamplerFilter");
    assert_eq!(none, Ok(None));
    let some: Result<Option<SamplerFilter>, String> =
        deserialize_from_option_usize_to_enum(Some(9728), "x::SamplerFilter");
    assert_eq!(some, Ok(Some(SamplerFilter::Nearest)));
    let wrong: Result<Option<SamplerFilter>, String> =
        deserialize_from_option_usize_to_enum(Some(1), "x::SamplerFilter");
    assert_eq!(wrong, Err(String::from("Invalid SamplerFilter field!")));
}

#[test]
fn texts_decode_to_enums() {
    let ok: Result<AccessorType, String> =
        deserialize_from_string_to_enum(String::from("MAT4"), "a::b::AccessorType");
    assert_eq!(ok, Ok(AccessorType::Mat4));
    let bad: Result<AccessorType, String> =
        deserialize_from_string_to_enum(String::from("MAT5"), "a::b::AccessorType");
    assert_eq!(bad, Err(String::from("Invalid AccessorType field!")));
    let opt: Result<Option<MaterialAlphaMode>, String> =
        deserialize_from_option_string_to_enum(Some(String::from("BLEND")), "m::MaterialAlphaMode");
    assert_eq!(opt, Ok(Some(MaterialAlphaMode::Blend)));
    let opt_bad: Result<Option<MaterialAlphaMode>, String> =
        deserialize_from_option_string_to_enum(Some(String::from("")), "m::MaterialAlphaMode");
    assert_eq!(opt_bad, Err(String::from("Invalid MaterialAlphaMode field!")));
}

#[test]
fn defaults_match_the_format() {
    assert_eq!(default_mesh_primitive_mode(), MeshPrimitiveMode::Triangles);
    let c = default_base_color_factor();
    assert!(c.iter().all(|f| f32::from_bits(f.bits) == 1.0));
    assert!(default_emissive_factor().iter().all(|f| f32::from_bits(f.bits) == 0.0));
    assert_eq!(f32::from_bits(default_f32_1().bits), 1.0);
    assert_eq!(f32::from_bits(default_f32_half().bits), 0.5);
    assert_eq!(f32::from_bits(default_f32_0().bits), 0.0);
    assert_eq!(default_f32_half().text, "0.5");
    let m = default_matrix();
    for i in 0..16 {
        let expected = if i % 5 == 0 { 1.0 } else { 0.0 };
        assert_eq!(f32::from_bits(m[i].bits), expected);
    }
    let r = default_rotation();
    assert_eq!(f32::from_bits(r[3].bits), 1.0);
    assert_eq!(f32::from_bits(r[0].bits), 0.0);
    assert!(default_scale().iter().all(|f| f32::from_bits(f.bits) == 1.0));
    assert!(default_translation().iter().all(|f| f32::from_bits(f.bits) == 0.0));
}

#[test]
fn uris_are_kept_or_encoded() {
    assert_eq!(deserialize_string_to_iri(None), None);
    assert_eq!(
        deserialize_string_to_iri(Some(String::from("mesh.bin"))),
        Some(String::from("mesh.bin"))
    );
    let encoded = deserialize_string_to_iri(Some(String::from("my mesh.bin"))).unwrap();
    assert_eq!(encoded, "my%20mesh.bin");
}

fn document() -> GltfDocument {
    GltfDocument {
        extensions_used: None,
        extensions_required: None,
        accessors: None,
        animations: None,
        asset: Asset {
            copyright: None,
            generator: None,
            version: String::from("2.0"),
            min_version: None,
            extensions: None,
            extras: None,
        },
        buffers: None,
        buffer_views: None,
        cameras: None,
        images: None,
        materials: None,
        meshes: None,
        nodes: None,
        samplers: None,
        scene: None,
        scenes: None,
        skins: None,
        textures: None,
        extensions: None,
        extras: None,
    }
}

fn buffer(uri: &str, byte_length: usize) -> Buffer {
    Buffer { uri: Some(String::from(uri)), byte_length, name: None, extensions: None, extras: None }
}

#[test]
fn buffer_uris_must_be_iri_paths() {
    let doc = document();
    assert!(buffer("textures/wood.bin", 4).is_valid(&doc).is_ok());
    match buffer("a b", 4).is_valid(&doc) {
        Err(Failure::Invalid(e)) => assert_eq!(e.to_string(), "Invalid IRI path `a b`"),
        _ => panic!("a path with a space was accepted"),
    }
    match buffer("mesh.bin", 0).is_valid(&doc) {
        Err(Failure::Invalid(e)) => {
            assert_eq!(e.to_string(), "`buffer.byteLength` must be greater than or equal to 1!")
        }
        _ => panic!("an empty buffer was accepted"),
    }
}

#[test]
fn uri_scheme_and_pieces() {
    assert!(matches!(plan_buffer(Some("http://x/y")), BufferStep::External(p) if p == "http://x/y"));
    assert!(matches!(plan_buffer(Some("data:application/octet-stream,AAAA")), BufferStep::Next));
    let p = split_pieces("a;b,c");
    assert_eq!(p, vec![String::from("a"), String::from("b"), String::from("c")]);
    assert_eq!(trim_text("  x y \t"), "x y");
}

#[test]
fn buffers_without_uri_are_skipped() {
    assert!(matches!(plan_buffer(None), BufferStep::Next));
}

#[test]
fn embedded_base64_buffers_are_decoded() {
    match plan_buffer(Some("data:application/octet-stream;base64,AAECAw==")) {
        BufferStep::Embedded(bytes) => assert_eq!(bytes, vec![0u8, 1, 2, 3]),
        other => panic!("unexpected {:?}", other),
    }
    match plan_buffer(Some("data:application/gltf-buffer;base64,/w==")) {
        BufferStep::Embedded(bytes) => assert_eq!(bytes, vec![255u8]),
        other => panic!("unexpected {:?}", other),
    }
}

#[test]
fn embedded_buffers_need_a_buffer_media_type() {
    assert!(matches!(plan_buffer(Some("data:text/plain;base64,AAAA")), BufferStep::Stop));
    assert!(matches!(plan_buffer(Some("data:application/octet-stream,AAAA")), BufferStep::Next));
    assert!(matches!(plan_buffer(Some("data:application/octet-stream;base64")), BufferStep::Stop));
    assert!(matches!(plan_buffer(Some("data:application/octet-stream;base64,@@")), BufferStep::Stop));
}

#[test]
fn external_buffers_are_read_from_decoded_paths() {
    match plan_buffer(Some("my%20mesh.bin")) {
        BufferStep::External(path) => assert_eq!(path, "my mesh.bin"),
        other => panic!("unexpected {:?}", other),
    }
    assert!(matches!(plan_buffer(Some("a b.bin")), BufferStep::Stop));
}

fn uri_buffer(uri: Option<&str>) -> Buffer {
    Buffer { uri: uri.map(String::from), byte_length: 4, name: None, extensions: None, extras: None }
}

#[test]
fn every_buffer_is_planned_up_to_the_first_bad_uri() {
    let buffers = vec![
        uri_buffer(Some("a.bin")),
        uri_buffer(Some("data:application/octet-stream;base64,AAECAw==")),
        uri_buffer(Some("b%20c.bin")),
        uri_buffer(None),
        uri_buffer(Some("data:text/plain;base64,AAAA")),
        uri_buffer(Some("d.bin")),
    ];
    let steps = plan_buffers(&buffers);
    assert_eq!(steps.len(), 4);
    assert!(matches!(&steps[0], BufferStep::External(p) if p == "a.bin"));
    assert!(matches!(&steps[1], BufferStep::Embedded(b) if *b == vec![0u8, 1, 2, 3]));
    assert!(matches!(&steps[2], BufferStep::External(p) if p == "b c.bin"));
    assert!(matches!(steps[3], BufferStep::Next));
    assert_eq!(plan_buffers(&Vec::new()).len(), 0);
}

#[test]
fn stray_percent_signs_are_found() {
    assert!(has_no_stray_percent("my%20mesh.bin"));
    assert!(has_no_stray_percent("plain.bin"));
    assert!(!has_no_stray_percent("%20%zz"));
    assert!(!has_no_stray_percent("%%41"));
    assert!(!has_no_stray_percent("end%2"));
}
