use vstd::prelude::*;
use crate::document::{Accessor, BufferView, Material, MeshPrimitive};
use crate::enums::{ComponentType, MaterialAlphaMode};
use crate::geometry::{
    accessor_values, append_primitive_indices, buffers_view, lemma_offsets, lemma_submesh_record,
    offsets_plan, primitive_offsets,
    drawn_count, lemma_attribute_lookup_is_map, semantics_distinct, lemma_indices_plan_absolute, lemma_indices_plan_shift, primitive_submesh, sequential_indices, sequential_plan,
    submesh_plan, values_plan, SubMesh,
};
use crate::mesh_data::{
    attribute_semantic, attribute_source, attribute_width, index_data_plan, material_alpha, material_choice,
    material_double_sided, primitive_index_data, primitive_material, source_plan, values_per_vertex,
    VertexAttribute,
};

verus! {

/// The numbers of one vertex attribute, before they are turned into floats.
#[derive(Debug)]
pub enum AttributeValues {
    /// Read from an accessor: one entry per value, one per component of it,
    /// each component as its bytes.
    Read { component_type: ComponentType, normalized: bool, values: Vec<Vec<Vec<u8>>> },
    /// Not given by the primitive: `count` copies of the attribute's default.
    Default { count: usize },
}

/// The numbers of one vertex attribute as mathematical values.
pub enum PlannedValues {
    Read(ComponentType, bool, Seq<Seq<Seq<u8>>>),
    Default(nat),
}

/// How many values an attribute gives.
pub open spec fn planned_len(p: PlannedValues) -> nat {
    match p {
        PlannedValues::Read(_, _, s) => s.len(),
        PlannedValues::Default(n) => n,
    }
}

/// `v` is the executable form of `p`.
pub open spec fn values_are(v: AttributeValues, p: PlannedValues) -> bool {
    match (v, p) {
        (
            AttributeValues::Read { component_type, normalized, values },
            PlannedValues::Read(ct, n, s),
        ) => {
            &&& component_type == ct
            &&& normalized == n
            &&& values@.len() == s.len()
            &&& forall|i: int|
                0 <= i < s.len() ==> (#[trigger] values@[i])@.len() == s[i].len() && forall|j: int|
                    0 <= j < s[i].len() ==> (#[trigger] values@[i]@[j])@ == s[i][j]
        },
        (AttributeValues::Default { count }, PlannedValues::Default(n)) => count == n,
        _ => false,
    }
}

/// What loading attribute `a` of a primitive gives: the accessor's numbers
/// grouped into values, or `count` defaults when the primitive does not
/// have the attribute. `None` where the loader stops.
pub open spec fn attribute_plan(
    attrs: Seq<(String, usize)>,
    accessors: Seq<Accessor>,
    views: Seq<BufferView>,
    bin: Seq<Seq<u8>>,
    a: VertexAttribute,
    count: nat,
) -> Option<Result<PlannedValues, Seq<char>>> {
    match source_plan(attrs, accessors, views, bin.len(), a) {
        None => None,
        Some(Err(m)) => Some(Err(m)),
        Some(Ok(None)) => Some(Ok(PlannedValues::Default(count))),
        Some(Ok(Some(s))) => match values_plan(
            accessors[s.accessor as int],
            views[s.view as int],
            bin[s.buffer as int],
            attribute_width(a),
        ) {
            None => None,
            Some(Err(m)) => Some(Err(m)),
            Some(Ok(vals)) => Some(
                Ok(
                    PlannedValues::Read(
                        accessors[s.accessor as int].component_type,
                        accessors[s.accessor as int].normalized,
                        vals,
                    ),
                ),
            ),
        },
    }
}

/// Loads attribute `a` of a primitive as [`attribute_plan`] describes.
pub fn attribute_values(
    attrs: &Vec<(String, usize)>,
    accessors: &Vec<Accessor>,
    views: &Vec<BufferView>,
    bin: &Vec<Vec<u8>>,
    a: VertexAttribute,
    count: usize,
) -> (r: Option<Result<AttributeValues, String>>)
    ensures
        match attribute_plan(attrs@, accessors@, views@, buffers_view(bin@), a, count as nat) {
            None => r is None,
            Some(Err(m)) => r matches Some(Err(e)) && e@ == m,
            Some(Ok(p)) => r matches Some(Ok(v)) && values_are(v, p),
        },
{
    let source = match attribute_source(attrs, accessors, views, bin.len(), a) {
        None => {
            return None;
        },
        Some(Err(e)) => {
            return Some(Err(e));
        },
        Some(Ok(None)) => {
            return Some(Ok(AttributeValues::Default { count }));
        },
        Some(Ok(Some(s))) => s,
    };
    let accessor = &accessors[source.accessor];
    proof {
        assert(buffers_view(bin@)[source.buffer as int] == bin@[source.buffer as int]@);
    }
    match accessor_values(accessor, &views[source.view], bin[source.buffer].as_slice(), values_per_vertex(a)) {
        None => None,
        Some(Err(e)) => Some(Err(e)),
        Some(Ok(values)) => Some(
            Ok(
                AttributeValues::Read {
                    component_type: accessor.component_type,
                    normalized: accessor.normalized,
                    values,
                },
            ),
        ),
    }
}

/// The vertex data of a primitive, before it is turned into floats.
#[derive(Debug)]
pub struct PrimitiveVertices {
    pub positions: AttributeValues,
    pub tex_coords: AttributeValues,
    pub colours: AttributeValues,
    pub normals: AttributeValues,
    pub tangents: AttributeValues,
}

/// The vertex data of a primitive as mathematical values.
pub struct PlannedVertices {
    pub positions: PlannedValues,
    pub tex_coords: PlannedValues,
    pub colours: PlannedValues,
    pub normals: PlannedValues,
    pub tangents: PlannedValues,
}

/// What loading one primitive gives.
#[derive(Debug)]
pub struct PrimitiveLoad {
    /// The attributes loaded with their defaults, in the order loading met
    /// them.
    pub defaults: Vec<VertexAttribute>,
    /// The vertices to append, once every attribute was read.
    pub vertices: Option<PrimitiveVertices>,
    /// The primitive's submesh, once its vertices were appended.
    pub submesh: Option<SubMesh>,
    /// The error that ended the primitive's loading, if one did.
    pub error: Option<String>,
}

/// What loading one primitive gives, as mathematical values: the index
/// list afterwards, the defaults used, the vertices, the submesh and the
/// error.
pub struct PlannedPrimitive {
    pub indices: Seq<u32>,
    pub defaults: Seq<VertexAttribute>,
    pub vertices: Option<PlannedVertices>,
    pub submesh: Option<SubMesh>,
    pub error: Option<Seq<char>>,
}

/// The load of a primitive that failed with `m` before any vertex was
/// appended.
pub open spec fn failed(indices: Seq<u32>, defaults: Seq<VertexAttribute>, m: Seq<char>) -> PlannedPrimitive {
    PlannedPrimitive { indices, defaults, vertices: None, submesh: None, error: Some(m) }
}

/// Whether the chosen material is double-sided.
pub open spec fn chosen_double_sided(materials: Option<Seq<Material>>, chosen: Option<usize>) -> bool {
    match chosen {
        Some(i) => materials->Some_0[i as int].double_sided,
        None => false,
    }
}

/// An attribute is read from the accessor that the primitive pairs with its
/// semantic: where the primitive has no entry for the semantic, positions are
/// an error and every other attribute takes `count` default values; where it
/// pairs the semantic with an existing accessor whose buffer view and buffer
/// exist, the values are that accessor's numbers read from that view's
/// buffer, value by value.
pub proof fn lemma_attribute_source(
    attrs: Seq<(String, usize)>,
    accessors: Seq<Accessor>,
    views: Seq<BufferView>,
    bin: Seq<Seq<u8>>,
    a: VertexAttribute,
    count: nat,
    ai: usize,
)
    requires
        semantics_distinct(attrs),
    ensures
        (forall|k: int| 0 <= k < attrs.len() ==> (#[trigger] attrs[k]).0@ != attribute_semantic(a)) ==> attribute_plan(
            attrs,
            accessors,
            views,
            bin,
            a,
            count,
        ) == (if a == VertexAttribute::Position {
            Some(Err("Primitives must have at least positions defined!"@))
        } else {
            Some(Ok(PlannedValues::Default(count)))
        }),
        ((exists|k: int| 0 <= k < attrs.len() && (#[trigger] attrs[k]).0@ == attribute_semantic(a) && attrs[k].1 == ai)
            && (ai as int) < accessors.len() && accessors[ai as int].buffer_view is Some && (
            accessors[ai as int].buffer_view->0 as int) < views.len() && (views[accessors[ai as int].buffer_view->0 as int].buffer as int)
            < bin.len()) ==> attribute_plan(
            attrs,
            accessors,
            views,
            bin,
            a,
            count,
        ) == match values_plan(
            accessors[ai as int],
            views[accessors[ai as int].buffer_view->0 as int],
            bin[views[accessors[ai as int].buffer_view->0 as int].buffer as int],
            attribute_width(a),
        ) {
            None => None,
            Some(Err(m)) => Some(Err(m)),
            Some(Ok(vals)) => Some(
                Ok(PlannedValues::Read(accessors[ai as int].component_type, accessors[ai as int].normalized, vals)),
            ),
        },
{
    lemma_attribute_lookup_is_map(attrs, attribute_semantic(a), ai);
}

/// A primitive without a material index is drawn plainly, whatever
/// materials the document has: no material is chosen, so its indices are not
/// mirrored and its alpha cut is off.
pub proof fn lemma_no_material_is_plain(materials: Option<Seq<Material>>)
    ensures
        material_choice(materials, None) is None,
        !chosen_double_sided(materials, material_choice(materials, None)),
        chosen_alpha(materials, material_choice(materials, None)) is None,
{
}

/// The alpha mode of the chosen material.
pub open spec fn chosen_alpha(materials: Option<Seq<Material>>, chosen: Option<usize>) -> Option<MaterialAlphaMode> {
    match chosen {
        Some(i) => Some(materials->Some_0[i as int].alpha_mode),
        None => None,
    }
}

/// The index list after a primitive's indices are appended: those its
/// index accessor gives (followed by the same in reverse for a
/// double-sided material), or the absolute index of each of its positions,
/// counted from `v_offset`, when it has no index accessor.
pub open spec fn indices_after(
    prim: MeshPrimitive,
    accessors: Seq<Accessor>,
    views: Seq<BufferView>,
    bin: Seq<Seq<u8>>,
    double_sided: bool,
    indices: Seq<u32>,
    v_offset: u32,
    position_count: nat,
) -> Option<Result<Seq<u32>, Seq<char>>> {
    match prim.indices {
        Some(ai) => match index_data_plan(ai, accessors, views, bin, v_offset) {
            None => None,
            Some(Err(m)) => Some(Err(m)),
            Some(Ok(s)) => Some(
                Ok(
                    if double_sided {
                        indices + s + s.reverse()
                    } else {
                        indices + s
                    },
                ),
            ),
        },
        None => match sequential_plan(position_count, v_offset) {
            None => None,
            Some(s) => Some(Ok(indices + s)),
        },
    }
}

/// Every index stored in the primitive's index accessor, if it has one, is
/// below `n`.
pub open spec fn stored_indices_below(
    prim: MeshPrimitive,
    accessors: Seq<Accessor>,
    views: Seq<BufferView>,
    bin: Seq<Seq<u8>>,
    n: nat,
) -> bool {
    match prim.indices {
        None => true,
        Some(ai) => match index_data_plan(ai, accessors, views, bin, 0) {
            Some(Ok(raw)) => forall|j: int| 0 <= j < raw.len() ==> (#[trigger] raw[j] as int) < n,
            _ => true,
        },
    }
}

/// The indices a primitive appends are absolute: each is at least
/// `v_offset`, the place of its first vertex in the vertex list, and those
/// made for a primitive without an index accessor are exactly the places of
/// its vertices, `v_offset` up to `v_offset` plus its vertex count. Where
/// every stored index is below the vertex count, every appended index lies in
/// `[v_offset, v_offset + position_count)`: it points at one of the
/// primitive's own vertices. The indices appended before are kept.
pub proof fn lemma_appended_indices_absolute(
    prim: MeshPrimitive,
    accessors: Seq<Accessor>,
    views: Seq<BufferView>,
    bin: Seq<Seq<u8>>,
    double_sided: bool,
    indices: Seq<u32>,
    v_offset: u32,
    position_count: nat,
)
    ensures
        indices_after(prim, accessors, views, bin, double_sided, indices, v_offset, position_count) matches Some(Ok(r)) ==> {
            &&& r.len() >= indices.len()
            &&& r.take(indices.len() as int) == indices
            &&& forall|k: int| indices.len() <= k < r.len() ==> v_offset <= #[trigger] r[k]
            &&& prim.indices is None ==> r.len() == indices.len() + drawn_count(position_count) && forall|k: int|
                indices.len() <= k < r.len() ==> r[k] == v_offset + (k - indices.len())
            &&& stored_indices_below(prim, accessors, views, bin, position_count) ==> forall|k: int|
                indices.len() <= k < r.len() ==> (#[trigger] r[k] as int) < v_offset + position_count
        },
{
    let planned = indices_after(prim, accessors, views, bin, double_sided, indices, v_offset, position_count);
    if planned matches Some(Ok(_)) {
        let r = planned->Some_0->Ok_0;
        match prim.indices {
            Some(ai) => {
                lemma_indices_plan_absolute(accessors[ai as int], views, bin, v_offset);
                lemma_indices_plan_shift(accessors[ai as int], views, bin, v_offset);
                let s = index_data_plan(ai, accessors, views, bin, v_offset)->Some_0->Ok_0;
                let raw = index_data_plan(ai, accessors, views, bin, 0)->Some_0->Ok_0;
                if stored_indices_below(prim, accessors, views, bin, position_count) {
                    assert forall|j: int| 0 <= j < s.len() implies (#[trigger] s[j] as int) < v_offset
                        + position_count by {
                        assert(s[j] == raw[j] + v_offset);
                        assert((raw[j] as int) < position_count);
                    }
                    assert forall|k: int| indices.len() <= k < r.len() implies (#[trigger] r[k] as int)
                        < v_offset + position_count by {
                        if k < indices.len() + s.len() {
                            assert(r[k] == s[k - indices.len()]);
                        } else {
                            assert(r[k] == s.reverse()[k - indices.len() - s.len()]);
                            assert(s.reverse()[k - indices.len() - s.len()] == s[s.len() - 1 - (k
                                - indices.len() - s.len())]);
                        }
                    }
                }
                if double_sided {
                    assert forall|k: int| indices.len() <= k < r.len() implies v_offset <= #[trigger] r[k] by {
                        if k < indices.len() + s.len() {
                            assert(r[k] == s[k - indices.len()]);
                        } else {
                            assert(r[k] == s.reverse()[k - indices.len() - s.len()]);
                            assert(s.reverse()[k - indices.len() - s.len()] == s[s.len() - 1 - (k - indices.len() - s.len())]);
                        }
                    }
                    assert(r.take(indices.len() as int) =~= indices);
                } else {
                    assert forall|k: int| indices.len() <= k < r.len() implies v_offset <= #[trigger] r[k] by {
                        assert(r[k] == s[k - indices.len()]);
                    }
                    assert(r.take(indices.len() as int) =~= indices);
                }
            },
            None => {
                assert(r.take(indices.len() as int) =~= indices);
            },
        }
    }
}

/// The four attributes after the positions, loaded in order; an error ends
/// the loading, and the defaults used before it are kept.
pub open spec fn other_attributes_plan(
    attrs: Seq<(String, usize)>,
    accessors: Seq<Accessor>,
    views: Seq<BufferView>,
    bin: Seq<Seq<u8>>,
    count: nat,
) -> Option<Result<(Seq<VertexAttribute>, Seq<PlannedValues>), (Seq<VertexAttribute>, Seq<char>)>> {
    attributes_from(attrs, accessors, views, bin, count, 0, Seq::empty(), Seq::empty())
}

/// The attribute loaded `k`-th after the positions.
pub open spec fn attribute_order(k: nat) -> VertexAttribute {
    if k == 0 {
        VertexAttribute::TexCoord
    } else if k == 1 {
        VertexAttribute::Colour
    } else if k == 2 {
        VertexAttribute::Normal
    } else {
        VertexAttribute::Tangent
    }
}

/// Loads the attributes from the `k`-th on, after `defaults` were used and
/// `done` loaded.
pub open spec fn attributes_from(
    attrs: Seq<(String, usize)>,
    accessors: Seq<Accessor>,
    views: Seq<BufferView>,
    bin: Seq<Seq<u8>>,
    count: nat,
    k: nat,
    defaults: Seq<VertexAttribute>,
    done: Seq<PlannedValues>,
) -> Option<Result<(Seq<VertexAttribute>, Seq<PlannedValues>), (Seq<VertexAttribute>, Seq<char>)>>
    decreases 4 - k,
{
    if k >= 4 {
        Some(Ok((defaults, done)))
    } else {
        let a = attribute_order(k);
        match attribute_plan(attrs, accessors, views, bin, a, count) {
            None => None,
            Some(Err(m)) => Some(Err((defaults, m))),
            Some(Ok(p)) => {
                let d = match p {
                    PlannedValues::Default(_) => defaults.push(a),
                    PlannedValues::Read(_, _, _) => defaults,
                };
                attributes_from(attrs, accessors, views, bin, count, k + 1, d, done.push(p))
            },
        }
    }
}

/// What loading one primitive gives, step by step as the loader takes
/// them: where it starts; its positions; its indices; its texture
/// coordinates, colours, normals and tangents; its vertices (each attribute
/// must give a value for each position); its submesh. The first error ends
/// the primitive and keeps what was done before it; `None` stands where
/// the loader stops.
pub open spec fn primitive_plan(
    prim: MeshPrimitive,
    accessors: Seq<Accessor>,
    views: Seq<BufferView>,
    bin: Seq<Seq<u8>>,
    materials: Option<Seq<Material>>,
    indices: Seq<u32>,
    vertices_len: nat,
    node_index_offset: u32,
    node_v_offset: u32,
) -> Option<PlannedPrimitive> {
    let attrs = prim.attributes@;
    match offsets_plan(indices.len(), vertices_len, node_index_offset, node_v_offset) {
        None => None,
        Some(Err(m)) => Some(failed(indices, Seq::empty(), m)),
        Some(Ok((iic, start, v_offset))) => match attribute_plan(
            attrs,
            accessors,
            views,
            bin,
            VertexAttribute::Position,
            0,
        ) {
            None => None,
            Some(Err(m)) => Some(failed(indices, Seq::empty(), m)),
            Some(Ok(positions)) => {
                let count = planned_len(positions);
                let chosen = material_choice(materials, prim.material);
                match indices_after(
                    prim,
                    accessors,
                    views,
                    bin,
                    chosen_double_sided(materials, chosen),
                    indices,
                    v_offset,
                    count,
                ) {
                    None => None,
                    Some(Err(m)) => Some(failed(indices, Seq::empty(), m)),
                    Some(Ok(ind)) => finish_plan(
                        prim,
                        accessors,
                        views,
                        bin,
                        materials,
                        chosen,
                        ind,
                        positions,
                        start,
                        iic,
                        vertices_len,
                        node_v_offset,
                    ),
                }
            },
        },
    }
}

/// The rest of a primitive's loading once its indices are appended (`ind`
/// is the index list then): its other attributes, its vertices and its
/// submesh.
pub open spec fn finish_plan(
    prim: MeshPrimitive,
    accessors: Seq<Accessor>,
    views: Seq<BufferView>,
    bin: Seq<Seq<u8>>,
    materials: Option<Seq<Material>>,
    chosen: Option<usize>,
    ind: Seq<u32>,
    positions: PlannedValues,
    start: u32,
    iic: u32,
    vertices_len: nat,
    node_v_offset: u32,
) -> Option<PlannedPrimitive> {
    let count = planned_len(positions);
    match other_attributes_plan(prim.attributes@, accessors, views, bin, count) {
        None => None,
        Some(Err((defaults, m))) => Some(failed(ind, defaults, m)),
        Some(Ok((defaults, others))) => if exists|k: int|
            0 <= k < 4 && #[trigger] planned_len(others[k]) < count {
            None
        } else {
            let vertices = PlannedVertices {
                positions,
                tex_coords: others[0],
                colours: others[1],
                normals: others[2],
                tangents: others[3],
            };
            let material_index: nat = match prim.material {
                Some(m) => m as nat,
                None => 0,
            };
            match submesh_plan(
                start,
                iic,
                ind.len(),
                material_index,
                node_v_offset,
                vertices_len + count,
                chosen_alpha(materials, chosen),
            ) {
                None => None,
                Some(Err(m)) => Some(
                    PlannedPrimitive {
                        indices: ind,
                        defaults,
                        vertices: Some(vertices),
                        submesh: None,
                        error: Some(m),
                    },
                ),
                Some(Ok(sm)) => Some(
                    PlannedPrimitive {
                        indices: ind,
                        defaults,
                        vertices: Some(vertices),
                        submesh: Some(sm),
                        error: None,
                    },
                ),
            }
        },
    }
}

/// Loading a primitive only appends: the indices loaded before it are kept,
/// in order, at the front of the index list it leaves; a primitive whose
/// vertices load draws with a submesh whose indices are exactly the ones it
/// appended, starting where they start.
pub proof fn lemma_primitive_appends(
    prim: MeshPrimitive,
    accessors: Seq<Accessor>,
    views: Seq<BufferView>,
    bin: Seq<Seq<u8>>,
    materials: Option<Seq<Material>>,
    indices: Seq<u32>,
    vertices_len: nat,
    node_index_offset: u32,
    node_v_offset: u32,
)
    ensures
        primitive_plan(prim, accessors, views, bin, materials, indices, vertices_len, node_index_offset, node_v_offset)
            matches Some(p) ==> {
            &&& p.indices.len() >= indices.len()
            &&& p.indices.take(indices.len() as int) == indices
            &&& (p.submesh matches Some(sm) ==> sm.index_count == p.indices.len() - indices.len()
                && sm.index_offset == node_index_offset + indices.len())
        },
{
    let attrs = prim.attributes@;
    assert(indices.take(indices.len() as int) =~= indices);
    match offsets_plan(indices.len(), vertices_len, node_index_offset, node_v_offset) {
        Some(Ok((iic, start, v_offset))) => {
            lemma_offsets(indices.len(), vertices_len, node_index_offset, node_v_offset);
            match attribute_plan(attrs, accessors, views, bin, VertexAttribute::Position, 0) {
                Some(Ok(positions)) => {
                    let count = planned_len(positions);
                    let chosen = material_choice(materials, prim.material);
                    let ds = chosen_double_sided(materials, chosen);
                    lemma_appended_indices_absolute(prim, accessors, views, bin, ds, indices, v_offset, count);
                    match indices_after(prim, accessors, views, bin, ds, indices, v_offset, count) {
                        Some(Ok(ind)) => {
                            let material_index: nat = match prim.material {
                                Some(m) => m as nat,
                                None => 0,
                            };
                            lemma_submesh_record(
                                start,
                                iic,
                                ind.len(),
                                material_index,
                                node_v_offset,
                                vertices_len + count,
                                chosen_alpha(materials, chosen),
                            );
                        },
                        _ => {},
                    }
                },
                _ => {},
            }
        },
        _ => {},
    }
}

/// The materials of a document as a mathematical value.
pub open spec fn materials_view(m: Option<Vec<Material>>) -> Option<Seq<Material>> {
    match m {
        Some(ms) => Some(ms@),
        None => None,
    }
}

/// `l` is the executable form of `p`.
pub open spec fn load_is(l: PrimitiveLoad, p: PlannedPrimitive) -> bool {
    &&& l.defaults@ == p.defaults
    &&& l.submesh == p.submesh
    &&& match (l.error, p.error) {
        (None, None) => true,
        (Some(e), Some(m)) => e@ == m,
        _ => false,
    }
    &&& match (l.vertices, p.vertices) {
        (None, None) => true,
        (Some(v), Some(q)) => {
            &&& values_are(v.positions, q.positions)
            &&& values_are(v.tex_coords, q.tex_coords)
            &&& values_are(v.colours, q.colours)
            &&& values_are(v.normals, q.normals)
            &&& values_are(v.tangents, q.tangents)
        },
        _ => false,
    }
}

/// A read never gives more values than a quarter of the largest allocation.
proof fn lemma_values_bound(a: Accessor, v: BufferView, buf: Seq<u8>, width: nat)
    requires
        width >= 1,
        values_plan(a, v, buf, width) matches Some(Ok(_)),
    ensures
        values_plan(a, v, buf, width)->Some_0->Ok_0.len() * 4 <= isize::MAX,
{
    let s = values_plan(a, v, buf, width)->Some_0->Ok_0;
    if a.count > 0 {
        let nc = crate::rules::type_components(a.ty)->Some_0;
        assert(s.len() == (a.count as nat * nc) / width);
        assert((a.count as nat * nc) / width <= a.count as nat * nc) by (nonlinear_arith)
            requires
                width >= 1,
        ;
    }
}

fn value_count(v: &AttributeValues) -> (r: usize)
    ensures
        forall|p: PlannedValues| values_are(*v, p) ==> r == planned_len(p),
{
    match v {
        AttributeValues::Read { values, .. } => values.len(),
        AttributeValues::Default { count } => *count,
    }
}

fn other_attribute(
    attrs: &Vec<(String, usize)>,
    accessors: &Vec<Accessor>,
    views: &Vec<BufferView>,
    bin: &Vec<Vec<u8>>,
    count: usize,
    k: usize,
    defaults: &mut Vec<VertexAttribute>,
) -> (r: Option<Result<AttributeValues, String>>)
    requires
        k < 4,
    ensures
        match attribute_plan(
            attrs@,
            accessors@,
            views@,
            buffers_view(bin@),
            attribute_order(k as nat),
            count as nat,
        ) {
            None => r is None,
            Some(Err(m)) => r matches Some(Err(e)) && e@ == m && final(defaults)@ == old(defaults)@,
            Some(Ok(p)) => r matches Some(Ok(v)) && values_are(v, p) && final(defaults)@ == match p {
                PlannedValues::Default(_) => old(defaults)@.push(attribute_order(k as nat)),
                PlannedValues::Read(_, _, _) => old(defaults)@,
            },
        },
{
    let a = if k == 0 {
        VertexAttribute::TexCoord
    } else if k == 1 {
        VertexAttribute::Colour
    } else if k == 2 {
        VertexAttribute::Normal
    } else {
        VertexAttribute::Tangent
    };
    let r = attribute_values(attrs, accessors, views, bin, a, count);
    if let Some(Ok(AttributeValues::Default { .. })) = &r {
        defaults.push(a);
    }
    r
}

/// Loads one primitive of a mesh as [`primitive_plan`] describes: appends
/// its indices to `indices` (the node's indices so far) and returns the
/// defaults used, its vertex data, its submesh and the error that ended
/// it. `vertices_len` is the number of the node's vertices so far.
pub fn load_primitive(
    prim: &MeshPrimitive,
    accessors: &Vec<Accessor>,
    views: &Vec<BufferView>,
    bin: &Vec<Vec<u8>>,
    materials: &Option<Vec<Material>>,
    vertices_len: usize,
    node_index_offset: u32,
    node_v_offset: u32,
    indices: &mut Vec<u32>,
) -> (r: Option<PrimitiveLoad>)
    requires
        vertices_len <= isize::MAX,
    ensures
        match primitive_plan(
            *prim,
            accessors@,
            views@,
            buffers_view(bin@),
            materials_view(*materials),
            old(indices)@,
            vertices_len as nat,
            node_index_offset,
            node_v_offset,
        ) {
            None => r is None,
            Some(p) => r matches Some(l) && final(indices)@ == p.indices && load_is(l, p),
        },
{
    let ghost bins = buffers_view(bin@);
    let ghost mats = materials_view(*materials);
    let (iic, start, v_offset) = match primitive_offsets(
        indices.len(),
        vertices_len,
        node_index_offset,
        node_v_offset,
    ) {
        None => {
            return None;
        },
        Some(Err(e)) => {
            return Some(PrimitiveLoad { defaults: Vec::new(), vertices: None, submesh: None, error: Some(e) });
        },
        Some(Ok(t)) => t,
    };
    let positions = match attribute_values(
        &prim.attributes,
        accessors,
        views,
        bin,
        VertexAttribute::Position,
        0,
    ) {
        None => {
            return None;
        },
        Some(Err(e)) => {
            return Some(PrimitiveLoad { defaults: Vec::new(), vertices: None, submesh: None, error: Some(e) });
        },
        Some(Ok(v)) => v,
    };
    let ghost planned_positions = attribute_plan(
        prim.attributes@,
        accessors@,
        views@,
        bins,
        VertexAttribute::Position,
        0,
    )->Some_0->Ok_0;
    let count = value_count(&positions);
    proof {
        match source_plan(prim.attributes@, accessors@, views@, bins.len(), VertexAttribute::Position) {
            Some(Ok(Some(src))) => {
                lemma_values_bound(
                    accessors@[src.accessor as int],
                    views@[src.view as int],
                    bins[src.buffer as int],
                    3,
                );
            },
            _ => {},
        }
        assert(count * 4 <= isize::MAX);
    }
    let chosen = primitive_material(materials, prim.material);
    let double_sided = material_double_sided(materials, chosen);
    match prim.indices {
        Some(ai) => match primitive_index_data(ai, accessors, views, bin, v_offset) {
            None => {
                return None;
            },
            Some(Err(e)) => {
                return Some(PrimitiveLoad { defaults: Vec::new(), vertices: None, submesh: None, error: Some(e) });
            },
            Some(Ok(s)) => {
                append_primitive_indices(indices, &s, double_sided);
            },
        },
        None => {
            match sequential_indices(count, v_offset) {
                None => {
                    return None;
                },
                Some(numbered) => {
                    append_primitive_indices(indices, &numbered, false);
                },
            }
        },
    }
    assert(indices@ == indices_after(
        *prim,
        accessors@,
        views@,
        bins,
        chosen_double_sided(mats, chosen),
        old(indices)@,
        v_offset,
        count as nat,
    )->Some_0->Ok_0);
    finish_primitive(
        prim,
        accessors,
        views,
        bin,
        materials,
        chosen,
        Ghost(indices@),
        indices.len(),
        positions,
        Ghost(planned_positions),
        start,
        iic,
        vertices_len,
        node_v_offset,
    )
}

fn finish_primitive(
    prim: &MeshPrimitive,
    accessors: &Vec<Accessor>,
    views: &Vec<BufferView>,
    bin: &Vec<Vec<u8>>,
    materials: &Option<Vec<Material>>,
    chosen: Option<usize>,
    Ghost(ind): Ghost<Seq<u32>>,
    indices_len: usize,
    positions: AttributeValues,
    Ghost(planned_positions): Ghost<PlannedValues>,
    start: u32,
    iic: u32,
    vertices_len: usize,
    node_v_offset: u32,
) -> (r: Option<PrimitiveLoad>)
    requires
        vertices_len <= isize::MAX,
        planned_len(planned_positions) * 4 <= isize::MAX,
        indices_len == ind.len(),
        values_are(positions, planned_positions),
        chosen == material_choice(materials_view(*materials), prim.material),
    ensures
        match finish_plan(
            *prim,
            accessors@,
            views@,
            buffers_view(bin@),
            materials_view(*materials),
            chosen,
            ind,
            planned_positions,
            start,
            iic,
            vertices_len as nat,
            node_v_offset,
        ) {
            None => r is None,
            Some(p) => r matches Some(l) && load_is(l, p) && p.indices == ind,
        },
{
    let count = value_count(&positions);
    proof {
        reveal_with_fuel(attributes_from, 5);
    }
    let mut defaults: Vec<VertexAttribute> = Vec::new();
    let tex_coords = match other_attribute(&prim.attributes, accessors, views, bin, count, 0, &mut defaults) {
        None => {
            return None;
        },
        Some(Err(e)) => {
            return Some(PrimitiveLoad { defaults, vertices: None, submesh: None, error: Some(e) });
        },
        Some(Ok(v)) => v,
    };
    let colours = match other_attribute(&prim.attributes, accessors, views, bin, count, 1, &mut defaults) {
        None => {
            return None;
        },
        Some(Err(e)) => {
            return Some(PrimitiveLoad { defaults, vertices: None, submesh: None, error: Some(e) });
        },
        Some(Ok(v)) => v,
    };
    let normals = match other_attribute(&prim.attributes, accessors, views, bin, count, 2, &mut defaults) {
        None => {
            return None;
        },
        Some(Err(e)) => {
            return Some(PrimitiveLoad { defaults, vertices: None, submesh: None, error: Some(e) });
        },
        Some(Ok(v)) => v,
    };
    let tangents = match other_attribute(&prim.attributes, accessors, views, bin, count, 3, &mut defaults) {
        None => {
            return None;
        },
        Some(Err(e)) => {
            return Some(PrimitiveLoad { defaults, vertices: None, submesh: None, error: Some(e) });
        },
        Some(Ok(v)) => v,
    };
    let ghost others = other_attributes_plan(
        prim.attributes@,
        accessors@,
        views@,
        buffers_view(bin@),
        count as nat,
    )->Some_0->Ok_0.1;
    if value_count(&tex_coords) < count {
        assert(planned_len(others[0]) < count);
        return None;
    }
    if value_count(&colours) < count {
        assert(planned_len(others[1]) < count);
        return None;
    }
    if value_count(&normals) < count {
        assert(planned_len(others[2]) < count);
        return None;
    }
    if value_count(&tangents) < count {
        assert(planned_len(others[3]) < count);
        return None;
    }
    assert(forall|k: int| 0 <= k < 4 ==> !(#[trigger] planned_len(others[k]) < count));
    let material_index: usize = match prim.material {
        Some(m) => m,
        None => 0,
    };
    let submesh = primitive_submesh(
        start,
        iic,
        indices_len,
        material_index,
        node_v_offset,
        vertices_len + count,
        material_alpha(materials, chosen),
    );
    let vertices = PrimitiveVertices { positions, tex_coords, colours, normals, tangents };
    match submesh {
        None => None,
        Some(Err(e)) => Some(PrimitiveLoad { defaults, vertices: Some(vertices), submesh: None, error: Some(e) }),
        Some(Ok(sm)) => Some(PrimitiveLoad { defaults, vertices: Some(vertices), submesh: Some(sm), error: None }),
    }
}

} // verus!
