use beans_engine::document::{Accessor, BufferView, Material, MeshPrimitive, Node};
use beans_engine::enums::{AccessorType, ComponentType, MaterialAlphaMode, MeshPrimitiveMode};
use beans_engine::primitive::{load_primitive, AttributeValues};
use beans_engine::float::F32;
use beans_engine::geometry::{
    accessor_values, append_primitive_indices, attribute_accessor, component_size, count_u32,
    num_components, primitive_indices, primitive_offsets, primitive_submesh, sequential_indices,
    SubMesh,
};
use beans_engine::mesh_data::{
    advance_offset, attribute_source, default_notice, node_has_valid_children, primitive_index_data,
    scene_roots_valid, values_per_vertex, AttributeSource, VertexAttribute,
};

fn accessor(view: Option<usize>, ct: ComponentType, ty: AccessorType, count: usize) -> Accessor {
    Accessor {
        buffer_view: view,
        byte_offset: None,
        component_type: ct,
        normalized: false,
        count,
        ty,
        max: None,
        min: None,
        sparse: None,
        name: None,
        extensions: None,
        extras: None,
    }
}

fn view(buffer: usize, offset: Option<usize>, stride: Option<usize>) -> BufferView {
    BufferView {
        buffer,
        byte_offset: offset,
        byte_length: 0,
        byte_stride: stride,
        target: None,
        name: None,
        extensions: None,
        extras: None,
    }
}

fn zero() -> F32 {
    F32 { bits: 0, text: String::from("0") }
}

fn node(children: Option<Vec<usize>>, mesh: Option<usize>) -> Node {
    Node {
        camera: None,
        children,
        skin: None,
        matrix: core::array::from_fn(|_| zero()),
        mesh,
        rotation: core::array::from_fn(|_| zero()),
        scale: core::array::from_fn(|_| zero()),
        translation: core::array::from_fn(|_| zero()),
        weights: None,
        name: None,
        extensions: None,
        extras: None,
    }
}

#[test]
fn component_and_element_sizes() {
    assert_eq!(component_size(ComponentType::Short), Ok(2));
    assert_eq!(component_size(ComponentType::Float), Ok(4));
    assert_eq!(component_size(ComponentType::Undefined), Err(String::from("Unsupported component type!")));
    assert_eq!(num_components(AccessorType::Mat3), Ok(9));
    assert_eq!(num_components(AccessorType::Vec2), Ok(2));
    assert_eq!(num_components(AccessorType::Undefined), Err(String::from("Unsupported accessor type!")));
}

#[test]
fn byte_indices_are_offset() {
    let a = accessor(Some(0), ComponentType::UnsignedByte, AccessorType::Scalar, 3);
    let views = vec![view(0, Some(1), None)];
    let bin = vec![vec![9u8, 0, 1, 2, 7]];
    assert_eq!(primitive_indices(&a, &views, &bin, 10), Some(Ok(vec![10, 11, 12])));
}

#[test]
fn short_and_int_indices_are_little_endian() {
    let mut a = accessor(Some(0), ComponentType::UnsignedShort, AccessorType::Scalar, 2);
    a.byte_offset = Some(2);
    let views = vec![view(0, None, None)];
    let bin = vec![vec![0xffu8, 0xff, 0x01, 0x02, 0x03, 0x00]];
    assert_eq!(primitive_indices(&a, &views, &bin, 0), Some(Ok(vec![0x0201, 3])));
    let b = accessor(Some(0), ComponentType::UnsignedInt, AccessorType::Scalar, 1);
    let bin = vec![vec![0x78u8, 0x56, 0x34, 0x12]];
    assert_eq!(primitive_indices(&b, &views, &bin, 1), Some(Ok(vec![0x12345679])));
}

#[test]
fn index_errors() {
    let views = vec![view(0, None, None)];
    let bin = vec![vec![0u8; 4]];
    let f = accessor(Some(0), ComponentType::Float, AccessorType::Scalar, 1);
    assert_eq!(primitive_indices(&f, &views, &bin, 0), Some(Err(String::from("incompatible component type"))));
    let no_view = accessor(None, ComponentType::UnsignedByte, AccessorType::Scalar, 1);
    assert_eq!(
        primitive_indices(&no_view, &views, &bin, 0),
        Some(Err(String::from("Accessor for indices has no buffer view defined!")))
    );
    let bad_view = accessor(Some(3), ComponentType::UnsignedByte, AccessorType::Scalar, 1);
    assert_eq!(
        primitive_indices(&bad_view, &views, &bin, 0),
        Some(Err(String::from("No buffer view found for indices!")))
    );
    let views_bad_buffer = vec![view(2, None, None)];
    let a = accessor(Some(0), ComponentType::UnsignedByte, AccessorType::Scalar, 1);
    assert_eq!(
        primitive_indices(&a, &views_bad_buffer, &bin, 0),
        Some(Err(String::from("Buffer view contains invalid buffer index!")))
    );
    let long = accessor(Some(0), ComponentType::UnsignedShort, AccessorType::Scalar, 3);
    assert_eq!(
        primitive_indices(&long, &views, &bin, 0),
        Some(Err(String::from("Buffer did not contain required slice!")))
    );
    let big = accessor(Some(0), ComponentType::UnsignedInt, AccessorType::Scalar, 1);
    let max = vec![vec![0xffu8; 4]];
    assert_eq!(primitive_indices(&big, &views, &max, 1), None);
    let accessors = vec![a];
    assert_eq!(
        primitive_index_data(5, &accessors, &views, &bin, 0),
        Some(Err(String::from("No indices data found!")))
    );
    assert_eq!(primitive_index_data(0, &accessors, &views, &bin, 2), Some(Ok(vec![2])));
}

#[test]
fn double_sided_indices_are_mirrored() {
    let mut indices = vec![7u32];
    append_primitive_indices(&mut indices, &vec![1, 2, 3], true);
    assert_eq!(indices, vec![7, 1, 2, 3, 3, 2, 1]);
    let mut single = vec![7u32];
    append_primitive_indices(&mut single, &vec![1, 2, 3], false);
    assert_eq!(single, vec![7, 1, 2, 3]);
}

#[test]
fn unindexed_primitives_count_up() {
    assert_eq!(sequential_indices(4, 0), Some(vec![0, 1, 2, 3]));
    assert_eq!(sequential_indices(3, 10), Some(vec![10, 11, 12]));
    assert_eq!(sequential_indices(0, 5), Some(Vec::<u32>::new()));
    assert_eq!(sequential_indices(2, u32::MAX - 1), Some(vec![u32::MAX - 1, u32::MAX]));
    assert_eq!(sequential_indices(3, u32::MAX - 1), None);
}

#[test]
fn values_follow_the_stride() {
    let a = accessor(Some(0), ComponentType::UnsignedShort, AccessorType::Vec2, 2);
    let v = view(0, Some(1), Some(6));
    let buffer = [0u8, 1, 2, 3, 4, 9, 9, 5, 6, 7, 8];
    let r = accessor_values(&a, &v, &buffer, 2).unwrap().unwrap();
    assert_eq!(r, vec![vec![vec![1u8, 2], vec![3, 4]], vec![vec![5, 6], vec![7, 8]]]);
    // Grouping three at a time runs across elements and drops the rest.
    let r3 = accessor_values(&a, &v, &buffer, 3).unwrap().unwrap();
    assert_eq!(r3, vec![vec![vec![1u8, 2], vec![3, 4], vec![5, 6]]]);
    let tight = view(0, None, None);
    let s = accessor_values(&accessor(Some(0), ComponentType::UnsignedByte, AccessorType::Vec3, 1), &tight, &buffer, 3);
    assert_eq!(s, Some(Ok(vec![vec![vec![0u8], vec![1], vec![2]]])));
    let past_end = accessor(Some(0), ComponentType::Float, AccessorType::Vec3, 1);
    assert_eq!(accessor_values(&past_end, &tight, &buffer, 3), None);
    let undefined = accessor(Some(0), ComponentType::Undefined, AccessorType::Vec3, 1);
    assert_eq!(
        accessor_values(&undefined, &tight, &buffer, 3),
        Some(Err(String::from("Unsupported component type!")))
    );
    let unsigned_int = accessor(Some(0), ComponentType::UnsignedInt, AccessorType::Vec3, 5);
    assert_eq!(
        accessor_values(&unsigned_int, &tight, &buffer, 3),
        Some(Err(String::from("unsupported component type: UnsignedInt!")))
    );
    let empty = accessor(Some(0), ComponentType::Float, AccessorType::Vec3, 0);
    assert_eq!(accessor_values(&empty, &tight, &[], 3), Some(Ok(Vec::new())));
}

#[test]
fn offsets_and_submeshes() {
    assert_eq!(count_u32(5), Ok(5));
    assert_eq!(
        count_u32(1usize << 33),
        Err(String::from("out of range integral type conversion attempted"))
    );
    assert_eq!(primitive_offsets(6, 4, 10, 100), Some(Ok((6, 16, 104))));
    assert_eq!(primitive_offsets(6, 4, u32::MAX, 100), None);
    let s = primitive_submesh(16, 6, 12, 2, 100, 8, Some(MaterialAlphaMode::Blend)).unwrap().unwrap();
    assert_eq!(
        s,
        SubMesh { index_offset: 16, index_count: 6, material_id: 2, first_vertex: 100, max_vertex: 108, alpha_cut: 1 }
    );
    let o = primitive_submesh(0, 0, 3, 0, 0, 3, Some(MaterialAlphaMode::Opaque)).unwrap().unwrap();
    assert_eq!(o.alpha_cut, 0);
    let n = primitive_submesh(0, 0, 3, 0, 0, 3, None).unwrap().unwrap();
    assert_eq!(n.alpha_cut, 0);
    assert_eq!(advance_offset(3, 4), Some(Ok(7)));
    assert_eq!(advance_offset(u32::MAX, 1), None);
}

#[test]
fn attributes_are_found_by_semantic() {
    let attrs = vec![(String::from("NORMAL"), 2usize), (String::from("POSITION"), 0usize)];
    assert_eq!(attribute_accessor(&attrs, "POSITION"), Some(0));
    assert_eq!(attribute_accessor(&attrs, "TANGENT"), None);
    assert_eq!(values_per_vertex(VertexAttribute::TexCoord), 2);
    assert_eq!(values_per_vertex(VertexAttribute::Tangent), 4);
}

#[test]
fn attribute_sources_and_their_errors() {
    let accessors = vec![
        accessor(Some(0), ComponentType::Float, AccessorType::Vec3, 1),
        accessor(None, ComponentType::Float, AccessorType::Vec3, 1),
        accessor(Some(4), ComponentType::Float, AccessorType::Vec3, 1),
        accessor(Some(1), ComponentType::Float, AccessorType::Vec3, 1),
    ];
    let views = vec![view(0, None, None), view(3, None, None)];
    let attrs = vec![(String::from("POSITION"), 0usize)];
    assert_eq!(
        attribute_source(&attrs, &accessors, &views, 1, VertexAttribute::Position),
        Some(Ok(Some(AttributeSource { accessor: 0, view: 0, buffer: 0 })))
    );
    assert_eq!(attribute_source(&attrs, &accessors, &views, 1, VertexAttribute::Normal), Some(Ok(None)));
    let none: Vec<(String, usize)> = Vec::new();
    assert_eq!(
        attribute_source(&none, &accessors, &views, 1, VertexAttribute::Position),
        Some(Err(String::from("Primitives must have at least positions defined!")))
    );
    let missing = vec![(String::from("TEXCOORD_0"), 9usize)];
    assert_eq!(
        attribute_source(&missing, &accessors, &views, 1, VertexAttribute::TexCoord),
        Some(Err(String::from("No texture coordinates data found!")))
    );
    let viewless = vec![(String::from("COLOR_0"), 1usize)];
    assert_eq!(
        attribute_source(&viewless, &accessors, &views, 1, VertexAttribute::Colour),
        Some(Err(String::from("Accessor for vertex colours must have a defined buffer view!")))
    );
    let bad_view = vec![(String::from("NORMAL"), 2usize)];
    assert_eq!(
        attribute_source(&bad_view, &accessors, &views, 1, VertexAttribute::Normal),
        Some(Err(String::from("No buffer view found for vertex normals!")))
    );
    let bad_buffer = vec![(String::from("TANGENT"), 3usize), (String::from("POSITION"), 3usize)];
    assert_eq!(
        attribute_source(&bad_buffer, &accessors, &views, 1, VertexAttribute::Tangent),
        Some(Err(String::from("Buffer view contains invalid buffer index!")))
    );
    assert_eq!(attribute_source(&bad_buffer, &accessors, &views, 1, VertexAttribute::Position), None);
}

#[test]
fn node_tree_checks() {
    let nodes = vec![node(Some(vec![1, 2]), None), node(None, Some(0)), node(Some(vec![1]), None)];
    assert_eq!(node_has_valid_children(&nodes, &vec![1, 2]), Some(true));
    assert_eq!(node_has_valid_children(&nodes, &vec![1, 5]), Some(false));
    assert_eq!(scene_roots_valid(&nodes, &vec![0]), Some(true));
    assert_eq!(scene_roots_valid(&nodes, &vec![3]), Some(false));
    let cyclic = vec![node(Some(vec![1]), None), node(Some(vec![0]), None)];
    assert_eq!(node_has_valid_children(&cyclic, &vec![0]), None);
    let bad_then_cycle = vec![node(Some(vec![7, 1]), None), node(Some(vec![0]), None)];
    assert_eq!(node_has_valid_children(&bad_then_cycle, &vec![0]), Some(false));
}



fn material(double_sided: bool, alpha_mode: MaterialAlphaMode) -> Material {
    Material {
        pbr_metallic_roughness: None,
        normal_texture: None,
        occlusion_texture: None,
        emissive_texture: None,
        emissive_factor: core::array::from_fn(|_| zero()),
        alpha_mode,
        alpha_cutoff: F32 { bits: 0.5f32.to_bits(), text: String::from("0.5") },
        double_sided,
        name: None,
        extensions: None,
        extras: None,
    }
}

fn primitive(attributes: Vec<(&str, usize)>, indices: Option<usize>, material: Option<usize>) -> MeshPrimitive {
    MeshPrimitive {
        attributes: attributes.into_iter().map(|(k, v)| (String::from(k), v)).collect(),
        indices,
        material,
        mode: MeshPrimitiveMode::Triangles,
        targets: None,
        extensions: None,
        extras: None,
    }
}

fn floats(values: &[f32]) -> Vec<u8> {
    values.iter().flat_map(|v| v.to_le_bytes()).collect()
}

#[test]
fn primitives_load_in_order() {
    let accessors = vec![
        accessor(Some(0), ComponentType::Float, AccessorType::Vec3, 2),
        accessor(Some(1), ComponentType::UnsignedByte, AccessorType::Scalar, 3),
    ];
    let views = vec![view(0, None, None), view(1, None, None)];
    let bin = vec![floats(&[0.0, 1.0, 2.0, 3.0, 4.0, 5.0]), vec![0u8, 1, 1]];
    let materials = Some(vec![material(true, MaterialAlphaMode::Blend)]);
    let prim = primitive(vec![("POSITION", 0)], Some(1), Some(0));
    let mut indices: Vec<u32> = vec![];
    let l = load_primitive(&prim, &accessors, &views, &bin, &materials, 0, 0, 10, &mut indices).unwrap();
    assert_eq!(indices, vec![10, 11, 11, 11, 11, 10]);
    assert_eq!(
        l.defaults,
        vec![VertexAttribute::TexCoord, VertexAttribute::Colour, VertexAttribute::Normal, VertexAttribute::Tangent]
    );
    assert_eq!(
        l.submesh,
        Some(SubMesh { index_offset: 0, index_count: 6, material_id: 0, first_vertex: 10, max_vertex: 12, alpha_cut: 1 })
    );
    assert_eq!(l.error, None);
    let v = l.vertices.unwrap();
    match v.positions {
        AttributeValues::Read { component_type, values, .. } => {
            assert_eq!(component_type, ComponentType::Float);
            assert_eq!(values.len(), 2);
            assert_eq!(values[1][2], 5.0f32.to_le_bytes().to_vec());
        }
        _ => panic!("positions are always read"),
    }
    assert!(matches!(v.tangents, AttributeValues::Default { count: 2 }));
}

#[test]
fn a_failing_attribute_keeps_the_indices() {
    let accessors = vec![accessor(Some(0), ComponentType::Float, AccessorType::Vec3, 1)];
    let views = vec![view(0, None, None)];
    let bin = vec![floats(&[0.0, 0.0, 0.0])];
    let prim = primitive(vec![("POSITION", 0), ("NORMAL", 7)], None, None);
    let mut indices: Vec<u32> = vec![4];
    let l = load_primitive(&prim, &accessors, &views, &bin, &None, 3, 100, 0, &mut indices).unwrap();
    // Without an index accessor the indices are absolute: the primitive's
    // vertices start after the 3 already loaded.
    assert_eq!(indices, vec![4, 3]);
    assert_eq!(l.defaults, vec![VertexAttribute::TexCoord, VertexAttribute::Colour]);
    assert!(l.vertices.is_none());
    assert!(l.submesh.is_none());
    assert_eq!(l.error, Some(String::from("No normals data found!")));
    let missing = primitive(vec![], None, None);
    let m = load_primitive(&missing, &accessors, &views, &bin, &None, 0, 0, 0, &mut indices).unwrap();
    assert_eq!(m.error, Some(String::from("Primitives must have at least positions defined!")));
    assert_eq!(indices, vec![4, 3]);
}

#[test]
fn default_notices() {
    assert_eq!(default_notice(VertexAttribute::TexCoord), "Loading default texture coordinates...");
    assert_eq!(default_notice(VertexAttribute::Colour), "Loading default vertex colours...");
    assert_eq!(default_notice(VertexAttribute::Normal), "Loading default normals...");
    assert_eq!(default_notice(VertexAttribute::Tangent), "Loading default tangent...");
}

#[test]
fn attribute_order_does_not_matter() {
    let a = vec![(String::from("POSITION"), 3), (String::from("NORMAL"), 5)];
    let b = vec![(String::from("NORMAL"), 5), (String::from("POSITION"), 3)];
    for name in ["POSITION", "NORMAL", "COLOR_0"] {
        assert_eq!(attribute_accessor(&a, name), attribute_accessor(&b, name));
    }
}
