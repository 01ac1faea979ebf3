use beans_engine::document::{
    Accessor, Asset, BufferView, GltfDocument, Mesh, MeshPrimitive, Node, Scene,
};
use beans_engine::enums::{AccessorType, ComponentType, MeshPrimitiveMode};
use beans_engine::float::F32;
use beans_engine::geometry::SubMesh;
use beans_engine::mesh_data::{mesh_data_scene, VertexAttribute};
use beans_engine::scene::load_scene;

fn zero() -> F32 {
    F32 { bits: 0, text: String::from("0") }
}

fn node(children: Option<Vec<usize>>, mesh: Option<usize>) -> Node {
    Node {
        camera: None,
        children,
        skin: None,
        matrix: core::array::from_fn(|_| zero()),
        mesh,
        rotation: core::array::from_fn(|_| zero()),
        scale: core::array::from_fn(|_| zero()),
        translation: core::array::from_fn(|_| zero()),
        weights: None,
        name: None,
        extensions: None,
        extras: None,
    }
}

fn accessor(view: usize, ct: ComponentType, ty: AccessorType, count: usize) -> Accessor {
    Accessor {
        buffer_view: Some(view),
        byte_offset: None,
        component_type: ct,
        normalized: false,
        count,
        ty,
        max: None,
        min: None,
        sparse: None,
        name: None,
        extensions: None,
        extras: None,
    }
}

fn view(buffer: usize) -> BufferView {
    BufferView {
        buffer,
        byte_offset: None,
        byte_length: 0,
        byte_stride: None,
        target: None,
        name: None,
        extensions: None,
        extras: None,
    }
}

fn triangle_mesh() -> Mesh {
    Mesh {
        primitives: vec![MeshPrimitive {
            attributes: vec![(String::from("POSITION"), 0)],
            indices: Some(1),
            material: None,
            mode: MeshPrimitiveMode::Triangles,
            targets: None,
            extensions: None,
            extras: None,
        }],
        weights: None,
        name: None,
        extensions: None,
        extras: None,
    }
}

fn document(nodes: Vec<Node>, roots: Vec<usize>) -> GltfDocument {
    GltfDocument {
        extensions_used: None,
        extensions_required: None,
        accessors: Some(vec![
            accessor(0, ComponentType::Float, AccessorType::Vec3, 2),
            accessor(1, ComponentType::UnsignedByte, AccessorType::Scalar, 3),
        ]),
        animations: None,
        asset: Asset {
            copyright: None,
            generator: None,
            version: String::from("2.0"),
            min_version: None,
            extensions: None,
            extras: None,
        },
        buffers: None,
        buffer_views: Some(vec![view(0), view(1)]),
        cameras: None,
        images: None,
        materials: None,
        meshes: Some(vec![triangle_mesh()]),
        nodes: Some(nodes),
        samplers: None,
        scene: Some(0),
        scenes: Some(vec![Scene { nodes: Some(roots), name: None, extensions: None, extras: None }]),
        skins: None,
        textures: None,
        extensions: None,
        extras: None,
    }
}

fn bin() -> Vec<Vec<u8>> {
    let positions: Vec<u8> = [0.0f32, 1.0, 2.0, 3.0, 4.0, 5.0].iter().flat_map(|v| v.to_le_bytes()).collect();
    vec![positions, vec![0u8, 1, 1]]
}

fn defaults_of_one_primitive() -> Vec<VertexAttribute> {
    vec![VertexAttribute::TexCoord, VertexAttribute::Colour, VertexAttribute::Normal, VertexAttribute::Tangent]
}

#[test]
fn documents_need_a_scene_and_its_data() {
    let mut doc = document(vec![node(None, Some(0))], vec![0]);
    assert_eq!(mesh_data_scene(&doc), Ok(0));
    doc.meshes = None;
    assert_eq!(mesh_data_scene(&doc), Err(String::from("Document needs meshes to get mesh data!")));
    doc.scene = None;
    let l = load_scene(&doc, &bin(), 0, 0).unwrap();
    assert!(l.notices.is_empty());
    assert_eq!(l.result.unwrap_err(), "No default scene found!");
    doc.scene = Some(3);
    assert_eq!(mesh_data_scene(&doc), Err(String::from("`scene` did not contain a valid index!")));
}

#[test]
fn children_follow_their_parent() {
    let doc = document(vec![node(Some(vec![1]), Some(0)), node(None, Some(0))], vec![0]);
    let l = load_scene(&doc, &bin(), 0, 0).unwrap();
    let mut expected = defaults_of_one_primitive();
    expected.extend(defaults_of_one_primitive());
    assert_eq!(l.notices, expected);
    let data = l.result.unwrap();
    assert_eq!(data.indices, vec![0, 1, 1, 2, 3, 3]);
    assert_eq!(data.vertex_count, 4);
    assert_eq!(
        data.submeshes,
        vec![
            SubMesh { index_offset: 0, index_count: 3, material_id: 0, first_vertex: 0, max_vertex: 2, alpha_cut: 0 },
            SubMesh { index_offset: 3, index_count: 3, material_id: 0, first_vertex: 2, max_vertex: 4, alpha_cut: 0 },
        ]
    );
    let paths: Vec<Vec<usize>> = data.blocks.iter().map(|b| b.path.clone()).collect();
    assert_eq!(paths, vec![vec![0], vec![0, 1]]);
}

#[test]
fn roots_are_loaded_in_order_with_offsets() {
    let doc = document(vec![node(None, Some(0)), node(None, None), node(None, Some(0))], vec![2, 1, 0]);
    let data = load_scene(&doc, &bin(), 10, 100).unwrap().result.unwrap();
    assert_eq!(data.indices, vec![10, 11, 11, 12, 13, 13]);
    assert_eq!(data.submeshes[1].index_offset, 103);
    assert_eq!(data.submeshes[1].first_vertex, 12);
    let paths: Vec<Vec<usize>> = data.blocks.iter().map(|b| b.path.clone()).collect();
    assert_eq!(paths, vec![vec![2], vec![0]]);
}

#[test]
fn a_missing_mesh_ends_the_loading() {
    let doc = document(vec![node(Some(vec![1]), Some(0)), node(None, Some(5))], vec![0]);
    let l = load_scene(&doc, &bin(), 0, 0).unwrap();
    assert_eq!(l.notices, defaults_of_one_primitive());
    assert_eq!(l.result.unwrap_err(), "Mesh does not exist!");
}

#[test]
fn bad_node_indices_and_cycles_stop_the_loader() {
    let bad_child = document(vec![node(Some(vec![4]), Some(0))], vec![0]);
    assert!(load_scene(&bad_child, &bin(), 0, 0).is_none());
    let cyclic = document(vec![node(Some(vec![1]), None), node(Some(vec![0]), None)], vec![0]);
    assert!(load_scene(&cyclic, &bin(), 0, 0).is_none());
}

#[test]
fn unindexed_primitives_get_absolute_indices() {
    let mut doc = document(vec![node(Some(vec![1]), Some(0)), node(None, Some(0))], vec![0]);
    if let Some(meshes) = doc.meshes.as_mut() {
        meshes[0].primitives[0].indices = None;
    }
    let data = load_scene(&doc, &bin(), 5, 0).unwrap().result.unwrap();
    assert_eq!(data.indices, vec![5, 6, 7, 8]);
    assert_eq!(data.vertex_count, 4);
}
