use vstd::prelude::*;
use crate::document::{Accessor, BufferView, GltfDocument, Material, Mesh, MeshPrimitive, Node};
use crate::geometry::{buffers_view, SubMesh};
use crate::mesh_data::{
    advance_offset, mesh_data_outcome, mesh_data_scene, offset_plan, roots_valid, scene_roots_valid,
    VertexAttribute,
};
use crate::primitive::{
    lemma_primitive_appends, load_primitive, materials_view, planned_len, primitive_plan, values_are,
    PlannedPrimitive,
    PlannedVertices, PrimitiveVertices,
};

verus! {

/// The vertex data of one primitive with the path of nodes, from a root of
/// the scene down to the primitive's node, whose matrices place it.
#[derive(Debug)]
pub struct VertexBlock {
    pub path: Vec<usize>,
    pub vertices: PrimitiveVertices,
}

/// A vertex block as mathematical values.
pub struct PlannedBlock {
    pub path: Seq<usize>,
    pub vertices: PlannedVertices,
}

/// What loading a node and the nodes below it gives: its indices, how many
/// vertices, its submeshes and the vertex blocks, in the order they are
/// appended.
#[derive(Debug)]
pub struct NodeData {
    pub indices: Vec<u32>,
    pub vertex_count: usize,
    pub submeshes: Vec<SubMesh>,
    pub blocks: Vec<VertexBlock>,
}

/// Node data as mathematical values.
pub struct PlannedData {
    pub indices: Seq<u32>,
    pub vertex_count: nat,
    pub submeshes: Seq<SubMesh>,
    pub blocks: Seq<PlannedBlock>,
}

/// `v` is the executable form of `p`.
pub open spec fn vertices_are(v: PrimitiveVertices, p: PlannedVertices) -> bool {
    &&& values_are(v.positions, p.positions)
    &&& values_are(v.tex_coords, p.tex_coords)
    &&& values_are(v.colours, p.colours)
    &&& values_are(v.normals, p.normals)
    &&& values_are(v.tangents, p.tangents)
}

/// `b` is the executable form of `p`.
pub open spec fn block_is(b: VertexBlock, p: PlannedBlock) -> bool {
    b.path@ == p.path && vertices_are(b.vertices, p.vertices)
}

/// `x` is the executable form of `d`.
pub open spec fn data_is(x: NodeData, d: PlannedData) -> bool {
    &&& x.indices@ == d.indices
    &&& x.vertex_count == d.vertex_count
    &&& x.submeshes@ == d.submeshes
    &&& x.blocks@.len() == d.blocks.len()
    &&& forall|k: int| 0 <= k < d.blocks.len() ==> #[trigger] block_is(x.blocks@[k], d.blocks[k])
}

/// Node data with nothing in it.
pub open spec fn no_data() -> PlannedData {
    PlannedData { indices: Seq::empty(), vertex_count: 0, submeshes: Seq::empty(), blocks: Seq::empty() }
}

/// The node data after one primitive's load `p`, where it ran at `path`.
pub open spec fn after_primitive(d: PlannedData, p: PlannedPrimitive, path: Seq<usize>) -> PlannedData {
    PlannedData {
        indices: p.indices,
        vertex_count: match p.vertices {
            Some(v) => d.vertex_count + planned_len(v.positions),
            None => d.vertex_count,
        },
        submeshes: match p.submesh {
            Some(s) => d.submeshes.push(s),
            None => d.submeshes,
        },
        blocks: match p.vertices {
            Some(v) => d.blocks.push(PlannedBlock { path, vertices: v }),
            None => d.blocks,
        },
    }
}

/// Loads a mesh's primitives from the `k`-th on into the node data `d`:
/// each in turn, until one fails (its error goes no further) or all are
/// loaded. `notices` gathers the defaults used. `None` stands where the
/// loader stops, a vertex count past `isize::MAX` among them.
pub open spec fn prims_plan(
    prims: Seq<MeshPrimitive>,
    k: nat,
    accessors: Seq<Accessor>,
    views: Seq<BufferView>,
    bin: Seq<Seq<u8>>,
    materials: Option<Seq<Material>>,
    v_offset: u32,
    index_offset: u32,
    path: Seq<usize>,
    d: PlannedData,
    notices: Seq<VertexAttribute>,
) -> Option<(PlannedData, Seq<VertexAttribute>)>
    decreases prims.len() - k,
{
    if k >= prims.len() {
        Some((d, notices))
    } else {
        match primitive_plan(
            prims[k as int],
            accessors,
            views,
            bin,
            materials,
            d.indices,
            d.vertex_count,
            index_offset,
            v_offset,
        ) {
            None => None,
            Some(p) => {
                let d2 = after_primitive(d, p, path);
                let n2 = notices + p.defaults;
                if d2.vertex_count > isize::MAX {
                    None
                } else if p.error is Some {
                    Some((d2, n2))
                } else {
                    prims_plan(prims, k + 1, accessors, views, bin, materials, v_offset, index_offset, path, d2, n2)
                }
            },
        }
    }
}

/// `a` starts with `b`.
pub open spec fn starts_with<T>(a: Seq<T>, b: Seq<T>) -> bool {
    a.len() >= b.len() && a.take(b.len() as int) == b
}

proof fn lemma_starts_with_trans<T>(a: Seq<T>, b: Seq<T>, c: Seq<T>)
    requires
        starts_with(a, b),
        starts_with(b, c),
    ensures
        starts_with(a, c),
{
    assert(a.take(c.len() as int) =~= b.take(c.len() as int));
}

/// Loading a mesh's primitives only appends to what was loaded before:
/// the earlier indices, submeshes, vertex blocks and notices stay, in
/// order, at the front, and the vertex count does not go down.
pub proof fn lemma_primitives_append(
    prims: Seq<MeshPrimitive>,
    k: nat,
    accessors: Seq<Accessor>,
    views: Seq<BufferView>,
    bin: Seq<Seq<u8>>,
    materials: Option<Seq<Material>>,
    v_offset: u32,
    index_offset: u32,
    path: Seq<usize>,
    d: PlannedData,
    notices: Seq<VertexAttribute>,
)
    ensures
        prims_plan(prims, k, accessors, views, bin, materials, v_offset, index_offset, path, d, notices) matches Some(
            (d2, n2),
        ) ==> {
            &&& starts_with(d2.indices, d.indices)
            &&& starts_with(d2.submeshes, d.submeshes)
            &&& starts_with(d2.blocks, d.blocks)
            &&& starts_with(n2, notices)
            &&& d2.vertex_count >= d.vertex_count
            &&& forall|i: int| d.blocks.len() <= i < d2.blocks.len() ==> (#[trigger] d2.blocks[i]).path == path
        },
    decreases prims.len() - k,
{
    assert(d.indices.take(d.indices.len() as int) =~= d.indices);
    assert(d.submeshes.take(d.submeshes.len() as int) =~= d.submeshes);
    assert(d.blocks.take(d.blocks.len() as int) =~= d.blocks);
    assert(notices.take(notices.len() as int) =~= notices);
    if k < prims.len() {
        lemma_primitive_appends(prims[k as int], accessors, views, bin, materials, d.indices, d.vertex_count, index_offset, v_offset);
        match primitive_plan(prims[k as int], accessors, views, bin, materials, d.indices, d.vertex_count, index_offset, v_offset) {
            Some(p) => {
                let d2 = after_primitive(d, p, path);
                let n2 = notices + p.defaults;
                assert(d2.submeshes.take(d.submeshes.len() as int) =~= d.submeshes);
                assert(d2.blocks.take(d.blocks.len() as int) =~= d.blocks);
                assert(n2.take(notices.len() as int) =~= notices);
                if d2.vertex_count <= isize::MAX && p.error is None {
                    lemma_primitives_append(prims, k + 1, accessors, views, bin, materials, v_offset, index_offset, path, d2, n2);
                    let r = prims_plan(prims, k + 1, accessors, views, bin, materials, v_offset, index_offset, path, d2, n2);
                    if r matches Some(_) {
                        let (d3, n3) = r->0;
                        lemma_starts_with_trans(d3.indices, d2.indices, d.indices);
                        lemma_starts_with_trans(d3.submeshes, d2.submeshes, d.submeshes);
                        lemma_starts_with_trans(d3.blocks, d2.blocks, d.blocks);
                        lemma_starts_with_trans(n3, n2, notices);
                        assert forall|i: int| d.blocks.len() <= i < d3.blocks.len() implies (#[trigger] d3.blocks[i]).path
                            == path by {
                            if i < d2.blocks.len() {
                                assert(d3.blocks.take(d2.blocks.len() as int)[i] == d3.blocks[i]);
                            }
                        }
                    }
                }
            },
            None => {},
        }
    }
}

fn load_mesh_primitives(
    prims: &Vec<MeshPrimitive>,
    accessors: &Vec<Accessor>,
    views: &Vec<BufferView>,
    bin: &Vec<Vec<u8>>,
    materials: &Option<Vec<Material>>,
    v_offset: u32,
    index_offset: u32,
    path: &Vec<usize>,
    data: &mut NodeData,
    Ghost(d0): Ghost<PlannedData>,
    notices: &mut Vec<VertexAttribute>,
) -> (r: bool)
    requires
        data_is(*old(data), d0),
        d0.vertex_count <= isize::MAX,
    ensures
        match prims_plan(
            prims@,
            0,
            accessors@,
            views@,
            buffers_view(bin@),
            materials_view(*materials),
            v_offset,
            index_offset,
            path@,
            d0,
            old(notices)@,
        ) {
            None => !r,
            Some((d, n)) => r && data_is(*final(data), d) && final(notices)@ == n,
        },
        r ==> final(data).vertex_count <= isize::MAX,
{
    let ghost target = prims_plan(
        prims@,
        0,
        accessors@,
        views@,
        buffers_view(bin@),
        materials_view(*materials),
        v_offset,
        index_offset,
        path@,
        d0,
        notices@,
    );
    let ghost mut d: PlannedData = d0;
    let n = prims.len();
    let mut k: usize = 0;
    while k < n
        invariant
            n == prims@.len(),
            k <= n,
            data_is(*data, d),
            d.vertex_count <= isize::MAX,
            target == prims_plan(
                prims@,
                0,
                accessors@,
                views@,
                buffers_view(bin@),
                materials_view(*materials),
                v_offset,
                index_offset,
                path@,
                d0,
                old(notices)@,
            ),
            target == prims_plan(
                prims@,
                k as nat,
                accessors@,
                views@,
                buffers_view(bin@),
                materials_view(*materials),
                v_offset,
                index_offset,
                path@,
                d,
                notices@,
            ),
        decreases n - k,
    {
        let ghost p = primitive_plan(
            prims@[k as int],
            accessors@,
            views@,
            buffers_view(bin@),
            materials_view(*materials),
            d.indices,
            d.vertex_count,
            index_offset,
            v_offset,
        );
        let loaded = match load_primitive(
            &prims[k],
            accessors,
            views,
            bin,
            materials,
            data.vertex_count,
            index_offset,
            v_offset,
            &mut data.indices,
        ) {
            Some(l) => l,
            None => {
                assert(p is None);
                return false;
            },
        };
        let ghost pp = p->Some_0;
        assert(load_primitive_is(loaded, pp));
        let ghost d2 = after_primitive(d, pp, path@);
        let mut defaults = loaded.defaults;
        notices.append(&mut defaults);
        let failed = loaded.error.is_some();
        if let Some(v) = loaded.vertices {
            let count = match &v.positions {
                crate::primitive::AttributeValues::Read { values, .. } => values.len(),
                crate::primitive::AttributeValues::Default { count } => *count,
            };
            assert(count == planned_len(pp.vertices->Some_0.positions));
            if count > usize::MAX - data.vertex_count || data.vertex_count + count > (isize::MAX as usize) {
                assert(d2.vertex_count > isize::MAX);
                return false;
            }
            data.vertex_count = data.vertex_count + count;
            let ghost before = data.blocks@;
            data.blocks.push(VertexBlock { path: clone_path(path), vertices: v });
            proof {
                assert forall|q: int| 0 <= q < d2.blocks.len() implies #[trigger] block_is(
                    data.blocks@[q],
                    d2.blocks[q],
                ) by {
                    if q < before.len() {
                        assert(data.blocks@[q] == before[q]);
                        assert(d2.blocks[q] == d.blocks[q]);
                    }
                }
            }
        } else {
            if data.vertex_count > (isize::MAX as usize) {
                return false;
            }
        }
        if let Some(s) = loaded.submesh {
            data.submeshes.push(s);
        }
        proof {
            d = d2;
        }
        if failed {
            return true;
        }
        k = k + 1;
    }
    true
}

/// `l` is the load `p` describes.
spec fn load_primitive_is(l: crate::primitive::PrimitiveLoad, p: PlannedPrimitive) -> bool {
    crate::primitive::load_is(l, p)
}

fn clone_path(path: &Vec<usize>) -> (r: Vec<usize>)
    ensures
        r@ == path@,
{
    let mut out: Vec<usize> = Vec::new();
    let mut i: usize = 0;
    while i < path.len()
        invariant
            i <= path@.len(),
            out@ == path@.take(i as int),
        decreases path@.len() - i,
    {
        out.push(path[i]);
        proof {
            assert(path@.take(i + 1) =~= path@.take(i as int).push(path@[i as int]));
        }
        i = i + 1;
    }
    proof {
        assert(path@.take(path@.len() as int) =~= path@);
    }
    out
}

/// Node data `d` followed by node data `c`.
pub open spec fn joined(d: PlannedData, c: PlannedData) -> PlannedData {
    PlannedData {
        indices: d.indices + c.indices,
        vertex_count: d.vertex_count + c.vertex_count,
        submeshes: d.submeshes + c.submeshes,
        blocks: d.blocks + c.blocks,
    }
}

/// What loading node `idx` gives, as the loader does it: the primitives of
/// its mesh (an index naming no mesh is an error), then each of its
/// children, each placed after what came before it. `v_offset` and
/// `index_offset` are where the node's vertices and indices start; `path`
/// leads to the node's parent. An error ends the loading and keeps only the
/// defaults used before it. `fuel` bounds the depth; `None` also stands
/// where the loader stops.
pub open spec fn node_plan(
    nodes: Seq<Node>,
    meshes: Seq<Mesh>,
    accessors: Seq<Accessor>,
    views: Seq<BufferView>,
    bin: Seq<Seq<u8>>,
    materials: Option<Seq<Material>>,
    idx: usize,
    v_offset: u32,
    index_offset: u32,
    path: Seq<usize>,
    notices: Seq<VertexAttribute>,
    fuel: nat,
) -> Option<(Seq<VertexAttribute>, Result<PlannedData, Seq<char>>)>
    decreases fuel, 1nat, 0nat,
{
    let node = nodes[idx as int];
    let here = path.push(idx);
    let meshed = match node.mesh {
        None => Some((notices, Ok(no_data()))),
        Some(mi) => if mi >= meshes.len() {
            Some((notices, Err("Mesh does not exist!"@)))
        } else {
            match prims_plan(
                meshes[mi as int].primitives@,
                0,
                accessors,
                views,
                bin,
                materials,
                v_offset,
                index_offset,
                here,
                no_data(),
                notices,
            ) {
                None => None,
                Some((d, n)) => Some((n, Ok(d))),
            }
        },
    };
    match meshed {
        None => None,
        Some((n, Err(m))) => Some((n, Err(m))),
        Some((n, Ok(d))) => match node.children {
            None => Some((n, Ok(d))),
            Some(c) => children_plan(
                nodes,
                meshes,
                accessors,
                views,
                bin,
                materials,
                c@,
                0,
                v_offset,
                index_offset,
                here,
                d,
                n,
                fuel,
            ),
        },
    }
}

/// Loads the nodes of `list` from the `j`-th on after the data `d`: each
/// must exist (the loader stops otherwise) and starts where the data so
/// far ends, counted from `v_offset` and `index_offset`.
pub open spec fn children_plan(
    nodes: Seq<Node>,
    meshes: Seq<Mesh>,
    accessors: Seq<Accessor>,
    views: Seq<BufferView>,
    bin: Seq<Seq<u8>>,
    materials: Option<Seq<Material>>,
    list: Seq<usize>,
    j: nat,
    v_offset: u32,
    index_offset: u32,
    path: Seq<usize>,
    d: PlannedData,
    notices: Seq<VertexAttribute>,
    fuel: nat,
) -> Option<(Seq<VertexAttribute>, Result<PlannedData, Seq<char>>)>
    decreases fuel, 0nat, list.len() - j,
{
    if j >= list.len() {
        Some((notices, Ok(d)))
    } else {
        let idx = list[j as int];
        if idx >= nodes.len() {
            None
        } else {
            match offset_plan(v_offset, d.vertex_count) {
                None => None,
                Some(Err(m)) => Some((notices, Err(m))),
                Some(Ok(cv)) => match offset_plan(index_offset, d.indices.len()) {
                    None => None,
                    Some(Err(m)) => Some((notices, Err(m))),
                    Some(Ok(ci)) => if fuel == 0 {
                        None
                    } else {
                        match node_plan(
                            nodes,
                            meshes,
                            accessors,
                            views,
                            bin,
                            materials,
                            idx,
                            cv,
                            ci,
                            path,
                            notices,
                            (fuel - 1) as nat,
                        ) {
                            None => None,
                            Some((n, Err(m))) => Some((n, Err(m))),
                            Some((n, Ok(c))) => {
                                let d2 = joined(d, c);
                                if d2.vertex_count > isize::MAX {
                                    None
                                } else {
                                    children_plan(
                                        nodes,
                                        meshes,
                                        accessors,
                                        views,
                                        bin,
                                        materials,
                                        list,
                                        j + 1,
                                        v_offset,
                                        index_offset,
                                        path,
                                        d2,
                                        n,
                                        fuel,
                                    )
                                }
                            },
                        }
                    },
                },
            }
        }
    }
}

/// Loading a node keeps the defaults noted before it, and every vertex
/// block it loads lies under the node: its path starts with the path to the
/// node.
pub proof fn lemma_node_blocks_under(
    nodes: Seq<Node>,
    meshes: Seq<Mesh>,
    accessors: Seq<Accessor>,
    views: Seq<BufferView>,
    bin: Seq<Seq<u8>>,
    materials: Option<Seq<Material>>,
    idx: usize,
    v_offset: u32,
    index_offset: u32,
    path: Seq<usize>,
    notices: Seq<VertexAttribute>,
    fuel: nat,
)
    ensures
        node_plan(nodes, meshes, accessors, views, bin, materials, idx, v_offset, index_offset, path, notices, fuel)
            matches Some((n, r)) ==> {
            &&& starts_with(n, notices)
            &&& (r matches Ok(d) ==> forall|i: int| 0 <= i < d.blocks.len() ==> starts_with(
                #[trigger] d.blocks[i].path,
                path.push(idx),
            ))
        },
    decreases fuel, 1nat, 0nat,
{
    let node = nodes[idx as int];
    let here = path.push(idx);
    assert(here.take(here.len() as int) =~= here);
    assert(notices.take(notices.len() as int) =~= notices);
    match node.mesh {
        None => {
            if let Some(c) = node.children {
                lemma_children_append(nodes, meshes, accessors, views, bin, materials, c@, 0, v_offset, index_offset, here, no_data(), notices, fuel);
                let cp = children_plan(nodes, meshes, accessors, views, bin, materials, c@, 0, v_offset, index_offset, here, no_data(), notices, fuel);
                assert(no_data().blocks.len() == 0);
                if cp matches Some((_, Ok(_))) {
                    let (cn, cr) = cp->0;
                    let d2 = cr->Ok_0;
                    assert(forall|i: int| 0 <= i < d2.blocks.len() ==> starts_with(#[trigger] d2.blocks[i].path, here));
                }
                assert(node_plan(nodes, meshes, accessors, views, bin, materials, idx, v_offset, index_offset, path, notices, fuel) == cp);
            } else {
                assert(node_plan(nodes, meshes, accessors, views, bin, materials, idx, v_offset, index_offset, path, notices, fuel) == Some((notices, Ok::<PlannedData, Seq<char>>(no_data()))));
            }
        },
        Some(mi) => if mi < meshes.len() {
            lemma_primitives_append(meshes[mi as int].primitives@, 0, accessors, views, bin, materials, v_offset, index_offset, here, no_data(), notices);
            let pp = prims_plan(meshes[mi as int].primitives@, 0, accessors, views, bin, materials, v_offset, index_offset, here, no_data(), notices);
            if pp matches Some(_) {
                let (d, n) = pp->0;
                if let Some(c) = node.children {
                    lemma_children_append(nodes, meshes, accessors, views, bin, materials, c@, 0, v_offset, index_offset, here, d, n, fuel);
                    let cp = children_plan(nodes, meshes, accessors, views, bin, materials, c@, 0, v_offset, index_offset, here, d, n, fuel);
                    if cp matches Some(_) {
                        let (cn, cr) = cp->0;
                        lemma_starts_with_trans(cn, n, notices);
                        if cr matches Ok(_) {
                            let d3 = cr->Ok_0;
                            assert forall|i: int| 0 <= i < d3.blocks.len() implies starts_with(#[trigger] d3.blocks[i].path, here) by {
                                if i < d.blocks.len() {
                                    assert(d3.blocks.take(d.blocks.len() as int)[i] == d3.blocks[i]);
                                    assert(d.blocks[i].path == here);
                                }
                            }
                        }
                    }
                } else {
                    assert forall|i: int| 0 <= i < d.blocks.len() implies starts_with(#[trigger] d.blocks[i].path, here) by {
                        assert(d.blocks[i].path == here);
                    }
                }
            }
        },
    }
}

/// Loading the nodes of a list after the data `d` only appends to it: its
/// indices, submeshes and vertex blocks stay, in order, at the front, the
/// vertex count does not go down, the defaults noted before stay, and every
/// block it adds lies under `path`.
pub proof fn lemma_children_append(
    nodes: Seq<Node>,
    meshes: Seq<Mesh>,
    accessors: Seq<Accessor>,
    views: Seq<BufferView>,
    bin: Seq<Seq<u8>>,
    materials: Option<Seq<Material>>,
    list: Seq<usize>,
    j: nat,
    v_offset: u32,
    index_offset: u32,
    path: Seq<usize>,
    d: PlannedData,
    notices: Seq<VertexAttribute>,
    fuel: nat,
)
    ensures
        children_plan(nodes, meshes, accessors, views, bin, materials, list, j, v_offset, index_offset, path, d, notices, fuel)
            matches Some((n, r)) ==> {
            &&& starts_with(n, notices)
            &&& (r matches Ok(d2) ==> {
                &&& starts_with(d2.indices, d.indices)
                &&& starts_with(d2.submeshes, d.submeshes)
                &&& starts_with(d2.blocks, d.blocks)
                &&& d2.vertex_count >= d.vertex_count
                &&& forall|i: int| d.blocks.len() <= i < d2.blocks.len() ==> starts_with(#[trigger] d2.blocks[i].path, path)
            })
        },
    decreases fuel, 0nat, list.len() - j,
{
    assert(d.indices.take(d.indices.len() as int) =~= d.indices);
    assert(d.submeshes.take(d.submeshes.len() as int) =~= d.submeshes);
    assert(d.blocks.take(d.blocks.len() as int) =~= d.blocks);
    assert(notices.take(notices.len() as int) =~= notices);
    if j < list.len() {
        let idx = list[j as int];
        if idx < nodes.len() && fuel > 0 {
            match offset_plan(v_offset, d.vertex_count) {
                Some(Ok(cv)) => match offset_plan(index_offset, d.indices.len()) {
                    Some(Ok(ci)) => {
                        lemma_node_blocks_under(nodes, meshes, accessors, views, bin, materials, idx, cv, ci, path, notices, (fuel - 1) as nat);
                        let np = node_plan(nodes, meshes, accessors, views, bin, materials, idx, cv, ci, path, notices, (fuel - 1) as nat);
                        if np matches Some((_, Ok(_))) {
                            let (n, cr) = np->0;
                            let c = cr->Ok_0;
                            let d2 = joined(d, c);
                            assert(d2.indices.take(d.indices.len() as int) =~= d.indices);
                            assert(d2.submeshes.take(d.submeshes.len() as int) =~= d.submeshes);
                            assert(d2.blocks.take(d.blocks.len() as int) =~= d.blocks);
                            assert forall|i: int| d.blocks.len() <= i < d2.blocks.len() implies starts_with(#[trigger] d2.blocks[i].path, path) by {
                                let b = c.blocks[i - d.blocks.len()];
                                assert(d2.blocks[i] == b);
                                assert(starts_with(b.path, path.push(idx)));
                                assert(path.push(idx).take(path.len() as int) =~= path);
                                lemma_starts_with_trans(b.path, path.push(idx), path);
                            }
                            if d2.vertex_count <= isize::MAX {
                                lemma_children_append(nodes, meshes, accessors, views, bin, materials, list, j + 1, v_offset, index_offset, path, d2, n, fuel);
                                let rest = children_plan(nodes, meshes, accessors, views, bin, materials, list, j + 1, v_offset, index_offset, path, d2, n, fuel);
                                if rest matches Some(_) {
                                    let (rn, rr) = rest->0;
                                    lemma_starts_with_trans(rn, n, notices);
                                    if rr matches Ok(_) {
                                        let d3 = rr->Ok_0;
                                        lemma_starts_with_trans(d3.indices, d2.indices, d.indices);
                                        lemma_starts_with_trans(d3.submeshes, d2.submeshes, d.submeshes);
                                        lemma_starts_with_trans(d3.blocks, d2.blocks, d.blocks);
                                        assert forall|i: int| d.blocks.len() <= i < d3.blocks.len() implies starts_with(#[trigger] d3.blocks[i].path, path) by {
                                            if i < d2.blocks.len() {
                                                assert(d3.blocks.take(d2.blocks.len() as int)[i] == d3.blocks[i]);
                                            }
                                        }
                                    }
                                }
                            }
                        }
                    },
                    _ => {},
                },
                _ => {},
            }
        }
    }
}

fn join_into(data: &mut NodeData, child: NodeData, Ghost(d): Ghost<PlannedData>, Ghost(c): Ghost<PlannedData>)
    requires
        data_is(*old(data), d),
        data_is(child, c),
        d.vertex_count + c.vertex_count <= isize::MAX,
    ensures
        data_is(*final(data), joined(d, c)),
{
    let mut child = child;
    data.vertex_count = data.vertex_count + child.vertex_count;
    data.indices.append(&mut child.indices);
    data.submeshes.append(&mut child.submeshes);
    let ghost before = data.blocks@;
    let ghost theirs = child.blocks@;
    data.blocks.append(&mut child.blocks);
    proof {
        let j = joined(d, c);
        assert forall|q: int| 0 <= q < j.blocks.len() implies #[trigger] block_is(data.blocks@[q], j.blocks[q]) by {
            if q < before.len() {
                assert(data.blocks@[q] == before[q]);
                assert(j.blocks[q] == d.blocks[q]);
            } else {
                assert(data.blocks@[q] == theirs[q - before.len()]);
                assert(j.blocks[q] == c.blocks[q - before.len()]);
            }
        }
    }
}

fn load_node_rec(
    nodes: &Vec<Node>,
    meshes: &Vec<Mesh>,
    accessors: &Vec<Accessor>,
    views: &Vec<BufferView>,
    bin: &Vec<Vec<u8>>,
    materials: &Option<Vec<Material>>,
    idx: usize,
    v_offset: u32,
    index_offset: u32,
    path: &Vec<usize>,
    notices: &mut Vec<VertexAttribute>,
    fuel: usize,
) -> (r: Option<Result<NodeData, String>>)
    requires
        idx < nodes@.len(),
    ensures
        match node_plan(
            nodes@,
            meshes@,
            accessors@,
            views@,
            buffers_view(bin@),
            materials_view(*materials),
            idx,
            v_offset,
            index_offset,
            path@,
            old(notices)@,
            fuel as nat,
        ) {
            None => r is None,
            Some((n, Err(m))) => r matches Some(Err(e)) && e@ == m && final(notices)@ == n,
            Some((n, Ok(d))) => r matches Some(Ok(x)) && data_is(x, d) && final(notices)@ == n,
        },
    decreases fuel, 1nat,
{
    let ghost bins = buffers_view(bin@);
    let ghost mats = materials_view(*materials);
    let node = &nodes[idx];
    let mut here = clone_path(path);
    here.push(idx);
    let mut data = NodeData {
        indices: Vec::new(),
        vertex_count: 0,
        submeshes: Vec::new(),
        blocks: Vec::new(),
    };
    proof {
        assert(data_is(data, no_data()));
    }
    match node.mesh {
        None => {},
        Some(mi) => {
            if mi >= meshes.len() {
                return Some(Err(String::from_str("Mesh does not exist!")));
            }
            if !load_mesh_primitives(
                &meshes[mi].primitives,
                accessors,
                views,
                bin,
                materials,
                v_offset,
                index_offset,
                &here,
                &mut data,
                Ghost(no_data()),
                notices,
            ) {
                return None;
            }
        },
    }
    let ghost d1: PlannedData = match node.mesh {
        None => no_data(),
        Some(mi) => prims_plan(
            meshes@[mi as int].primitives@,
            0,
            accessors@,
            views@,
            bins,
            mats,
            v_offset,
            index_offset,
            here@,
            no_data(),
            old(notices)@,
        )->Some_0.0,
    };
    let children = match &node.children {
        None => {
            return Some(Ok(data));
        },
        Some(c) => c,
    };
    load_children_rec(
        nodes,
        meshes,
        accessors,
        views,
        bin,
        materials,
        children,
        v_offset,
        index_offset,
        &here,
        data,
        Ghost(d1),
        notices,
        fuel,
    )
}

fn load_children_rec(
    nodes: &Vec<Node>,
    meshes: &Vec<Mesh>,
    accessors: &Vec<Accessor>,
    views: &Vec<BufferView>,
    bin: &Vec<Vec<u8>>,
    materials: &Option<Vec<Material>>,
    children: &Vec<usize>,
    v_offset: u32,
    index_offset: u32,
    here: &Vec<usize>,
    data: NodeData,
    Ghost(d1): Ghost<PlannedData>,
    notices: &mut Vec<VertexAttribute>,
    fuel: usize,
) -> (r: Option<Result<NodeData, String>>)
    requires
        data_is(data, d1),
        d1.vertex_count <= isize::MAX,
    ensures
        match children_plan(
            nodes@,
            meshes@,
            accessors@,
            views@,
            buffers_view(bin@),
            materials_view(*materials),
            children@,
            0,
            v_offset,
            index_offset,
            here@,
            d1,
            old(notices)@,
            fuel as nat,
        ) {
            None => r is None,
            Some((n, Err(m))) => r matches Some(Err(e)) && e@ == m && final(notices)@ == n,
            Some((n, Ok(d))) => r matches Some(Ok(x)) && data_is(x, d) && final(notices)@ == n,
        },
    decreases fuel, 0nat,
{
    let ghost bins = buffers_view(bin@);
    let ghost mats = materials_view(*materials);
    let mut data = data;
    let ghost target = children_plan(
        nodes@,
        meshes@,
        accessors@,
        views@,
        bins,
        mats,
        children@,
        0,
        v_offset,
        index_offset,
        here@,
        d1,
        notices@,
        fuel as nat,
    );
    let ghost mut d: PlannedData = d1;
    let n = children.len();
    let mut j: usize = 0;
    while j < n
        invariant
            n == children@.len(),
            j <= n,
            data_is(data, d),
            d.vertex_count <= isize::MAX,
            bins == buffers_view(bin@),
            mats == materials_view(*materials),
            target == children_plan(
                nodes@,
                meshes@,
                accessors@,
                views@,
                bins,
                mats,
                children@,
                0,
                v_offset,
                index_offset,
                here@,
                d1,
                old(notices)@,
                fuel as nat,
            ),
            target == children_plan(
                nodes@,
                meshes@,
                accessors@,
                views@,
                bins,
                mats,
                children@,
                j as nat,
                v_offset,
                index_offset,
                here@,
                d,
                notices@,
                fuel as nat,
            ),
        decreases n - j,
    {
        let child_idx = children[j];
        if child_idx >= nodes.len() {
            return None;
        }
        let cv = match advance_offset(v_offset, data.vertex_count) {
            None => {
                return None;
            },
            Some(Err(e)) => {
                return Some(Err(e));
            },
            Some(Ok(x)) => x,
        };
        let ci = match advance_offset(index_offset, data.indices.len()) {
            None => {
                return None;
            },
            Some(Err(e)) => {
                return Some(Err(e));
            },
            Some(Ok(x)) => x,
        };
        if fuel == 0 {
            return None;
        }
        let ghost cp = node_plan(
            nodes@,
            meshes@,
            accessors@,
            views@,
            bins,
            mats,
            child_idx,
            cv,
            ci,
            here@,
            notices@,
            (fuel - 1) as nat,
        );
        let child = match load_node_rec(
            nodes,
            meshes,
            accessors,
            views,
            bin,
            materials,
            child_idx,
            cv,
            ci,
            here,
            notices,
            fuel - 1,
        ) {
            None => {
                return None;
            },
            Some(Err(e)) => {
                return Some(Err(e));
            },
            Some(Ok(c)) => c,
        };
        let ghost c = cp->Some_0.1->Ok_0;
        if child.vertex_count > (isize::MAX as usize) - data.vertex_count {
            assert(joined(d, c).vertex_count > isize::MAX);
            return None;
        }
        join_into(&mut data, child, Ghost(d), Ghost(c));
        proof {
            d = joined(d, c);
        }
        j = j + 1;
    }
    Some(Ok(data))
}

/// What loading the default scene of a document gives: after the checks
/// of [`mesh_data_outcome`] and of the scene's nodes (whose answer is not
/// used, but which never ends on a node that is its own descendant), each
/// root node of the scene in turn, as [`children_plan`] describes, with
/// the vertices and indices counted from `initial_v_offset` and
/// `initial_index_offset`. `None` stands where the loader stops or never
/// ends.
pub open spec fn scene_plan(
    doc: GltfDocument,
    bin: Seq<Seq<u8>>,
    initial_v_offset: u32,
    initial_index_offset: u32,
) -> Option<(Seq<VertexAttribute>, Result<PlannedData, Seq<char>>)> {
    match mesh_data_outcome(doc) {
        Err(m) => Some((Seq::empty(), Err(m))),
        Ok(si) => {
            let nodes = doc.nodes->Some_0@;
            let roots = doc.scenes->Some_0@[si as int].nodes->Some_0@;
            if roots_valid(nodes, roots) is None {
                None
            } else {
                children_plan(
                    nodes,
                    doc.meshes->Some_0@,
                    doc.accessors->Some_0@,
                    doc.buffer_views->Some_0@,
                    bin,
                    materials_view(doc.materials),
                    roots,
                    0,
                    initial_v_offset,
                    initial_index_offset,
                    Seq::empty(),
                    no_data(),
                    Seq::empty(),
                    nodes.len(),
                )
            }
        },
    }
}

/// What loading a scene gives: the defaults used, in order, and the data
/// or the error that ended the loading.
#[derive(Debug)]
pub struct SceneLoad {
    pub notices: Vec<VertexAttribute>,
    pub result: Result<NodeData, String>,
}

/// Loads the default scene of a document as [`scene_plan`] describes; the
/// numbers of the vertex blocks are left to the caller to turn into floats
/// and to place by the matrices of the nodes on each block's path.
pub fn load_scene(
    doc: &GltfDocument,
    bin: &Vec<Vec<u8>>,
    initial_v_offset: u32,
    initial_index_offset: u32,
) -> (r: Option<SceneLoad>)
    ensures
        match scene_plan(*doc, buffers_view(bin@), initial_v_offset, initial_index_offset) {
            None => r is None,
            Some((n, Err(m))) => r matches Some(l) && l.notices@ == n && (l.result matches Err(e)
                && e@ == m),
            Some((n, Ok(d))) => r matches Some(l) && l.notices@ == n && (l.result matches Ok(x)
                && data_is(x, d)),
        },
{
    let si = match mesh_data_scene(doc) {
        Ok(si) => si,
        Err(e) => {
            return Some(SceneLoad { notices: Vec::new(), result: Err(e) });
        },
    };
    let (scenes, nodes, meshes, accessors, views) = match (
        &doc.scenes,
        &doc.nodes,
        &doc.meshes,
        &doc.accessors,
        &doc.buffer_views,
    ) {
        (Some(s), Some(n), Some(m), Some(a), Some(v)) => (s, n, m, a, v),
        _ => {
            return None;
        },
    };
    let roots = match &scenes[si].nodes {
        Some(r) => r,
        None => {
            return None;
        },
    };
    if scene_roots_valid(nodes, roots).is_none() {
        return None;
    }
    let mut notices: Vec<VertexAttribute> = Vec::new();
    let here: Vec<usize> = Vec::new();
    let data = NodeData { indices: Vec::new(), vertex_count: 0, submeshes: Vec::new(), blocks: Vec::new() };
    proof {
        assert(data_is(data, no_data()));
        assert(here@ =~= Seq::<usize>::empty());
        assert(notices@ =~= Seq::<VertexAttribute>::empty());
    }
    let result = load_children_rec(
        nodes,
        meshes,
        accessors,
        views,
        bin,
        &doc.materials,
        roots,
        initial_v_offset,
        initial_index_offset,
        &here,
        data,
        Ghost(no_data()),
        &mut notices,
        nodes.len(),
    );
    match result {
        None => None,
        Some(result) => Some(SceneLoad { notices, result }),
    }
}

} // verus!
