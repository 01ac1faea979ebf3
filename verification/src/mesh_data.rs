use vstd::prelude::*;
use crate::document::{Accessor, BufferView, GltfDocument, Material, Node};
use crate::geometry::{attribute_accessor, attribute_lookup, buffers_view, indices_plan, primitive_indices};
use crate::enums::{AccessorType, MaterialAlphaMode};
use crate::rules::type_components;

verus! {

/// Why a document cannot give mesh data, checked in this order; `Ok` holds
/// the index of the default scene.
pub open spec fn mesh_data_outcome(doc: GltfDocument) -> Result<usize, Seq<char>> {
    match doc.scene {
        None => Err("No default scene found!"@),
        Some(si) => match doc.scenes {
            None => Err("No scene data found!"@),
            Some(scenes) => if si >= scenes@.len() {
                Err("`scene` did not contain a valid index!"@)
            } else if scenes@[si as int].nodes is None {
                Err("No nodes found in scene!"@)
            } else if doc.accessors is None {
                Err("Document needs accessors to get mesh data!"@)
            } else if doc.buffer_views is None {
                Err("Document needs buffer views to get mesh data!"@)
            } else if doc.meshes is None {
                Err("Document needs meshes to get mesh data!"@)
            } else if doc.nodes is None {
                Err("Document needs nodes to get mesh data!"@)
            } else {
                Ok(si)
            },
        },
    }
}

/// Checks that a document holds what loading its mesh data needs: a default
/// scene with nodes, and accessors, buffer views, meshes and nodes.
pub fn mesh_data_scene(doc: &GltfDocument) -> (r: Result<usize, String>)
    ensures
        match mesh_data_outcome(*doc) {
            Ok(si) => r == Ok::<usize, String>(si),
            Err(m) => r matches Err(e) && e@ == m,
        },
{
    let si = match doc.scene {
        Some(si) => si,
        None => {
            return Err(String::from_str("No default scene found!"));
        },
    };
    let scenes = match &doc.scenes {
        Some(scenes) => scenes,
        None => {
            return Err(String::from_str("No scene data found!"));
        },
    };
    if si >= scenes.len() {
        return Err(String::from_str("`scene` did not contain a valid index!"));
    }
    if scenes[si].nodes.is_none() {
        return Err(String::from_str("No nodes found in scene!"));
    }
    if doc.accessors.is_none() {
        return Err(String::from_str("Document needs accessors to get mesh data!"));
    }
    if doc.buffer_views.is_none() {
        return Err(String::from_str("Document needs buffer views to get mesh data!"));
    }
    if doc.meshes.is_none() {
        return Err(String::from_str("Document needs meshes to get mesh data!"));
    }
    if doc.nodes.is_none() {
        return Err(String::from_str("Document needs nodes to get mesh data!"));
    }
    Ok(si)
}

/// Whether every index in `children` names a node whose own children are
/// valid in turn, checked in order and stopping at the first failure.
/// `fuel` bounds how deep the check descends; `None` means it ran out.
pub open spec fn children_valid(nodes: Seq<Node>, children: Seq<usize>, fuel: nat) -> Option<
    bool,
>
    decreases fuel, children.len(),
{
    if children.len() == 0 {
        Some(true)
    } else {
        let idx = children[0];
        if idx >= nodes.len() {
            Some(false)
        } else {
            let first = match nodes[idx as int].children {
                None => Some(true),
                Some(c) => if fuel == 0 {
                    None
                } else {
                    children_valid(nodes, c@, (fuel - 1) as nat)
                },
            };
            match first {
                None => None,
                Some(false) => Some(false),
                Some(true) => children_valid(nodes, children.drop_first(), fuel),
            }
        }
    }
}

fn children_valid_within(nodes: &Vec<Node>, children: &Vec<usize>, fuel: usize) -> (r: Option<
    bool,
>)
    ensures
        r == children_valid(nodes@, children@, fuel as nat),
    decreases fuel,
{
    let n = children.len();
    let mut i: usize = 0;
    proof {
        assert(children@.skip(0) =~= children@);
    }
    while i < n
        invariant
            n == children@.len(),
            i <= n,
            children_valid(nodes@, children@, fuel as nat) == children_valid(
                nodes@,
                children@.skip(i as int),
                fuel as nat,
            ),
        decreases n - i,
    {
        let ghost rest = children@.skip(i as int);
        proof {
            assert(rest.drop_first() =~= children@.skip(i + 1));
            assert(rest[0] == children@[i as int]);
        }
        let idx = children[i];
        if idx >= nodes.len() {
            return Some(false);
        }
        match &nodes[idx].children {
            None => {},
            Some(c) => {
                if fuel == 0 {
                    return None;
                }
                match children_valid_within(nodes, c, fuel - 1) {
                    None => {
                        return None;
                    },
                    Some(false) => {
                        return Some(false);
                    },
                    Some(true) => {},
                }
            },
        }
        i = i + 1;
    }
    proof {
        assert(children@.skip(n as int).len() == 0);
    }
    Some(true)
}

/// Whether the nodes that `children_indices` names, and all their
/// descendants, exist. The check descends at most as many levels as there
/// are nodes: deeper nesting needs a node that is its own descendant, and
/// then `None` is returned in place of an answer that would never come.
pub fn node_has_valid_children(nodes: &Vec<Node>, children_indices: &Vec<usize>) -> (r: Option<
    bool,
>)
    ensures
        r == children_valid(nodes@, children_indices@, nodes@.len()),
{
    children_valid_within(nodes, children_indices, nodes.len())
}

/// Once the check of a node list reaches an answer, allowing it to descend
/// deeper gives the same answer: a bounded check that answers agrees with the
/// unbounded one.
pub proof fn lemma_children_valid_more_fuel(
    nodes: Seq<Node>,
    children: Seq<usize>,
    fuel: nat,
    more: nat,
)
    requires
        fuel <= more,
        children_valid(nodes, children, fuel) is Some,
    ensures
        children_valid(nodes, children, more) == children_valid(nodes, children, fuel),
    decreases fuel, children.len(),
{
    if children.len() > 0 {
        let idx = children[0];
        if idx < nodes.len() {
            match nodes[idx as int].children {
                None => {
                    lemma_children_valid_more_fuel(nodes, children.drop_first(), fuel, more);
                },
                Some(c) => {
                    if fuel > 0 {
                        lemma_children_valid_more_fuel(
                            nodes,
                            c@,
                            (fuel - 1) as nat,
                            (more - 1) as nat,
                        );
                        if children_valid(nodes, c@, (fuel - 1) as nat) == Some(true) {
                            lemma_children_valid_more_fuel(
                                nodes,
                                children.drop_first(),
                                fuel,
                                more,
                            );
                        }
                    }
                },
            }
        }
    }
}

/// `rank` ranks the nodes so that each node that lists children ranks at
/// least 1 and above every existing node it lists: the node graph has no
/// cycle, and no chain of children is longer than the highest rank.
pub open spec fn ranks_nodes(nodes: Seq<Node>, rank: Seq<nat>) -> bool {
    &&& rank.len() == nodes.len()
    &&& forall|p: int|
        0 <= p < nodes.len() && (#[trigger] nodes[p]).children is Some ==> rank[p] >= 1
            && forall|k: int|
            0 <= k < nodes[p].children->0@.len() && (nodes[p].children->0@[k] as int) < nodes.len()
                ==> rank[nodes[p].children->0@[k] as int] < rank[p]
}

/// On a node graph without cycles the check answers: where the nodes listed
/// rank at most `fuel`, descending `fuel` levels is enough.
pub proof fn lemma_children_valid_answers(nodes: Seq<Node>, rank: Seq<nat>, children: Seq<usize>, fuel: nat)
    requires
        ranks_nodes(nodes, rank),
        forall|k: int| 0 <= k < children.len() && (children[k] as int) < nodes.len() ==> rank[children[k] as int] <= fuel,
    ensures
        children_valid(nodes, children, fuel) is Some,
    decreases fuel, children.len(),
{
    if children.len() > 0 {
        let idx = children[0];
        if idx < nodes.len() {
            assert(rank[idx as int] <= fuel);
            match nodes[idx as int].children {
                None => {},
                Some(c) => {
                    assert(nodes[idx as int].children is Some);
                    assert(rank[idx as int] >= 1);
                    lemma_children_valid_answers(nodes, rank, c@, (fuel - 1) as nat);
                },
            }
            assert forall|k: int| 0 <= k < children.drop_first().len() && (children.drop_first()[k] as int) < nodes.len()
                implies rank[children.drop_first()[k] as int] <= fuel by {
                assert(children.drop_first()[k] == children[k + 1]);
            }
            lemma_children_valid_answers(nodes, rank, children.drop_first(), fuel);
        }
    }
}

/// `p` is a chain of node indices reached from the list `children`: its first
/// index is in the list, and each later one is listed among the children of
/// the existing node before it.
pub open spec fn is_child_path(nodes: Seq<Node>, children: Seq<usize>, p: Seq<usize>) -> bool {
    &&& p.len() >= 1
    &&& children.contains(p[0])
    &&& forall|i: int|
        0 <= i < p.len() - 1 ==> (#[trigger] p[i] as int) < nodes.len() && nodes[p[i] as int].children is Some
            && nodes[p[i] as int].children->0@.contains(p[i + 1])
}

/// Every node index reachable from `children` through the nodes' children
/// names an existing node.
pub open spec fn reachable_exist(nodes: Seq<Node>, children: Seq<usize>) -> bool {
    forall|p: Seq<usize>| #[trigger] is_child_path(nodes, children, p) ==> (p.last() as int) < nodes.len()
}

/// On a node graph without cycles, the check answers exactly whether every
/// node reachable from the list exists.
pub proof fn lemma_children_valid_is_reachability(
    nodes: Seq<Node>,
    rank: Seq<nat>,
    children: Seq<usize>,
    fuel: nat,
)
    requires
        ranks_nodes(nodes, rank),
        forall|k: int| 0 <= k < children.len() && (children[k] as int) < nodes.len() ==> rank[children[k] as int] <= fuel,
    ensures
        children_valid(nodes, children, fuel) == Some(reachable_exist(nodes, children)),
    decreases fuel, children.len(),
{
    if children.len() == 0 {
        assert forall|p: Seq<usize>| #[trigger] is_child_path(nodes, children, p) implies (p.last() as int) < nodes.len() by {
            assert(children.contains(p[0]));
        }
    } else {
        let idx = children[0];
        let rest = children.drop_first();
        assert forall|k: int| 0 <= k < rest.len() && (rest[k] as int) < nodes.len() implies rank[rest[k] as int] <= fuel by {
            assert(rest[k] == children[k + 1]);
        }
        // a path of the rest of the list is a path of the list
        assert forall|p: Seq<usize>| #[trigger] is_child_path(nodes, rest, p) implies is_child_path(nodes, children, p) by {
            let k = choose|k: int| 0 <= k < rest.len() && rest[k] == p[0];
            assert(children[k + 1] == p[0]);
        }
        if idx >= nodes.len() {
            let p = seq![idx];
            assert(children[0] == p[0]);
            assert(is_child_path(nodes, children, p));
        } else {
            lemma_children_valid_is_reachability(nodes, rank, rest, fuel);
            match nodes[idx as int].children {
                None => {
                    if reachable_exist(nodes, rest) {
                        assert forall|p: Seq<usize>| #[trigger] is_child_path(nodes, children, p) implies (p.last() as int) < nodes.len() by {
                            let k = choose|k: int| 0 <= k < children.len() && children[k] == p[0];
                            if k > 0 {
                                assert(rest[k - 1] == p[0]);
                                assert(is_child_path(nodes, rest, p));
                            } else if p.len() > 1 {
                                assert((p[0] as int) < nodes.len() && nodes[p[0] as int].children is Some);
                            }
                        }
                    }
                },
                Some(c) => {
                    assert(nodes[idx as int].children is Some);
                    assert(rank[idx as int] >= 1);
                    assert forall|k: int| 0 <= k < c@.len() && (c@[k] as int) < nodes.len() implies rank[c@[k] as int] <= (fuel - 1) as nat by {
                        assert(c@ == nodes[idx as int].children->0@);
                    }
                    lemma_children_valid_is_reachability(nodes, rank, c@, (fuel - 1) as nat);
                    if !reachable_exist(nodes, c@) {
                        let q = choose|q: Seq<usize>| is_child_path(nodes, c@, q) && !((q.last() as int) < nodes.len());
                        let p = seq![idx] + q;
                        assert(children[0] == p[0]);
                        assert forall|i: int| 0 <= i < p.len() - 1 implies (#[trigger] p[i] as int) < nodes.len()
                            && nodes[p[i] as int].children is Some && nodes[p[i] as int].children->0@.contains(p[i + 1]) by {
                            if i == 0 {
                                assert(p[1] == q[0]);
                            } else {
                                assert(p[i] == q[i - 1] && p[i + 1] == q[i]);
                            }
                        }
                        assert(is_child_path(nodes, children, p));
                        assert(p.last() == q.last());
                    } else if reachable_exist(nodes, rest) {
                        assert forall|p: Seq<usize>| #[trigger] is_child_path(nodes, children, p) implies (p.last() as int) < nodes.len() by {
                            let k = choose|k: int| 0 <= k < children.len() && children[k] == p[0];
                            if k > 0 {
                                assert(rest[k - 1] == p[0]);
                                assert(is_child_path(nodes, rest, p));
                            } else if p.len() > 1 {
                                let q = p.drop_first();
                                assert(q[0] == p[1]);
                                assert(c@.contains(q[0]));
                                assert forall|i: int| 0 <= i < q.len() - 1 implies (#[trigger] q[i] as int) < nodes.len()
                                    && nodes[q[i] as int].children is Some && nodes[q[i] as int].children->0@.contains(q[i + 1]) by {
                                    assert(q[i] == p[i + 1] && q[i + 1] == p[i + 2]);
                                }
                                assert(is_child_path(nodes, c@, q));
                                assert(q.last() == p.last());
                            }
                        }
                    }
                },
            }
        }
    }
}

/// The check made on a scene's root nodes before they are loaded: each must
/// exist and have valid children.
pub open spec fn roots_valid(nodes: Seq<Node>, roots: Seq<usize>) -> Option<bool>
    decreases roots.len(),
{
    if roots.len() == 0 {
        Some(true)
    } else {
        let idx = roots[0];
        if idx >= nodes.len() {
            Some(false)
        } else {
            let first = match nodes[idx as int].children {
                None => Some(true),
                Some(c) => children_valid(nodes, c@, nodes.len()),
            };
            match first {
                None => None,
                Some(false) => Some(false),
                Some(true) => roots_valid(nodes, roots.drop_first()),
            }
        }
    }
}

/// Checks a scene's root nodes as [`roots_valid`] describes.
pub fn scene_roots_valid(nodes: &Vec<Node>, roots: &Vec<usize>) -> (r: Option<bool>)
    ensures
        r == roots_valid(nodes@, roots@),
{
    let n = roots.len();
    let mut i: usize = 0;
    proof {
        assert(roots@.skip(0) =~= roots@);
    }
    while i < n
        invariant
            n == roots@.len(),
            i <= n,
            roots_valid(nodes@, roots@) == roots_valid(nodes@, roots@.skip(i as int)),
        decreases n - i,
    {
        let ghost rest = roots@.skip(i as int);
        proof {
            assert(rest.drop_first() =~= roots@.skip(i + 1));
            assert(rest[0] == roots@[i as int]);
        }
        let idx = roots[i];
        if idx >= nodes.len() {
            return Some(false);
        }
        match &nodes[idx].children {
            None => {},
            Some(c) => {
                match node_has_valid_children(nodes, c) {
                    None => {
                        return None;
                    },
                    Some(false) => {
                        return Some(false);
                    },
                    Some(true) => {},
                }
            },
        }
        i = i + 1;
    }
    proof {
        assert(roots@.skip(n as int).len() == 0);
    }
    Some(true)
}

/// `base` advanced by a length, as the loader computes the offsets of what
/// it loads next: a length past 32 bits is an error, and `None` stands where
/// the sum overflows (the loader stops there).
pub open spec fn offset_plan(base: u32, len: nat) -> Option<Result<u32, Seq<char>>> {
    if len > u32::MAX {
        Some(Err(crate::geometry::conversion_error()))
    } else if base + len > u32::MAX {
        None
    } else {
        Some(Ok((base + len) as u32))
    }
}

/// Advances an offset by a length, as [`offset_plan`] describes.
pub fn advance_offset(base: u32, len: usize) -> (r: Option<Result<u32, String>>)
    ensures
        match offset_plan(base, len as nat) {
            None => r is None,
            Some(Err(m)) => r matches Some(Err(e)) && e@ == m,
            Some(Ok(v)) => r == Some(Ok::<u32, String>(v)),
        },
{
    let n = match crate::geometry::count_u32(len) {
        Ok(n) => n,
        Err(e) => {
            return Some(Err(e));
        },
    };
    match base.checked_add(n) {
        Some(v) => Some(Ok(v)),
        None => None,
    }
}

/// The vertex attributes that a primitive's vertices are assembled from.
#[derive(Debug, Clone, Copy, PartialEq, Eq, Structural)]
pub enum VertexAttribute {
    Position,
    TexCoord,
    Colour,
    Normal,
    Tangent,
}

/// The attribute semantic under which a primitive names the accessor.
pub open spec fn attribute_semantic(a: VertexAttribute) -> Seq<char> {
    match a {
        VertexAttribute::Position => "POSITION"@,
        VertexAttribute::TexCoord => "TEXCOORD_0"@,
        VertexAttribute::Colour => "COLOR_0"@,
        VertexAttribute::Normal => "NORMAL"@,
        VertexAttribute::Tangent => "TANGENT"@,
    }
}

/// How many numbers make up one value of the attribute.
pub open spec fn attribute_width(a: VertexAttribute) -> nat {
    match a {
        VertexAttribute::Position => 3,
        VertexAttribute::TexCoord => 2,
        VertexAttribute::Colour => 3,
        VertexAttribute::Normal => 3,
        VertexAttribute::Tangent => 4,
    }
}

/// Each vertex attribute is read from the accessor that the glTF semantic
/// of its name points at (`POSITION`, `TEXCOORD_0`, `COLOR_0`, `NORMAL`,
/// `TANGENT`), no two attributes share a semantic, and a value has as many
/// numbers as the element type of that semantic: three for positions,
/// colours and normals (`VEC3`), two for texture coordinates (`VEC2`), four
/// for tangents (`VEC4`).
pub proof fn lemma_attribute_semantics(a: VertexAttribute, b: VertexAttribute)
    ensures
        attribute_semantic(VertexAttribute::Position) == "POSITION"@,
        attribute_semantic(VertexAttribute::TexCoord) == "TEXCOORD_0"@,
        attribute_semantic(VertexAttribute::Colour) == "COLOR_0"@,
        attribute_semantic(VertexAttribute::Normal) == "NORMAL"@,
        attribute_semantic(VertexAttribute::Tangent) == "TANGENT"@,
        a != b ==> attribute_semantic(a) != attribute_semantic(b),
        Some(attribute_width(VertexAttribute::Position)) == type_components(AccessorType::Vec3),
        Some(attribute_width(VertexAttribute::TexCoord)) == type_components(AccessorType::Vec2),
        Some(attribute_width(VertexAttribute::Colour)) == type_components(AccessorType::Vec3),
        Some(attribute_width(VertexAttribute::Normal)) == type_components(AccessorType::Vec3),
        Some(attribute_width(VertexAttribute::Tangent)) == type_components(AccessorType::Vec4),
{
    reveal_strlit("POSITION");
    reveal_strlit("TEXCOORD_0");
    reveal_strlit("COLOR_0");
    reveal_strlit("NORMAL");
    reveal_strlit("TANGENT");
    assert("POSITION"@.len() == 8 && "TEXCOORD_0"@.len() == 10 && "COLOR_0"@.len() == 7
        && "NORMAL"@.len() == 6 && "TANGENT"@.len() == 7);
    assert("COLOR_0"@[0] == 'C' && "TANGENT"@[0] == 'T');
}

/// The error given when the attribute's accessor index names no accessor.
pub open spec fn no_data_message(a: VertexAttribute) -> Seq<char> {
    match a {
        VertexAttribute::Position => "No positions data found!"@,
        VertexAttribute::TexCoord => "No texture coordinates data found!"@,
        VertexAttribute::Colour => "No vertex colour data found!"@,
        VertexAttribute::Normal => "No normals data found!"@,
        VertexAttribute::Tangent => "No tangent data found!"@,
    }
}

/// The error given when the accessor's buffer view index names no view.
pub open spec fn no_view_message(a: VertexAttribute) -> Seq<char> {
    match a {
        VertexAttribute::Position => "No buffer view found for positions!"@,
        VertexAttribute::TexCoord => "No buffer view found for texture coordinates!"@,
        VertexAttribute::Colour => "No buffer view found for vertex colours!"@,
        VertexAttribute::Normal => "No buffer view found for vertex normals!"@,
        VertexAttribute::Tangent => "No buffer view found for vertex tangents!"@,
    }
}

/// The error given when the accessor has no buffer view.
pub open spec fn undefined_view_message(a: VertexAttribute) -> Seq<char> {
    match a {
        VertexAttribute::Position => "Accessor for vertex positions must have a defined buffer view!"@,
        VertexAttribute::TexCoord => "Accessor for vertex texture coordinates must have a defined buffer view!"@,
        VertexAttribute::Colour => "Accessor for vertex colours must have a defined buffer view!"@,
        VertexAttribute::Normal => "Accessor for vertex normals must have a defined buffer view!"@,
        VertexAttribute::Tangent => "Accessor for vertex tangents must have a defined buffer view!"@,
    }
}

/// The semantic of an attribute.
pub fn semantic(a: VertexAttribute) -> (r: &'static str)
    ensures
        r@ == attribute_semantic(a),
{
    match a {
        VertexAttribute::Position => "POSITION",
        VertexAttribute::TexCoord => "TEXCOORD_0",
        VertexAttribute::Colour => "COLOR_0",
        VertexAttribute::Normal => "NORMAL",
        VertexAttribute::Tangent => "TANGENT",
    }
}

/// How many numbers make up one value of the attribute.
pub fn values_per_vertex(a: VertexAttribute) -> (r: usize)
    ensures
        r == attribute_width(a),
{
    match a {
        VertexAttribute::Position => 3,
        VertexAttribute::TexCoord => 2,
        VertexAttribute::Colour => 3,
        VertexAttribute::Normal => 3,
        VertexAttribute::Tangent => 4,
    }
}

fn no_data_text(a: VertexAttribute) -> (r: String)
    ensures
        r@ == no_data_message(a),
{
    match a {
        VertexAttribute::Position => String::from_str("No positions data found!"),
        VertexAttribute::TexCoord => String::from_str("No texture coordinates data found!"),
        VertexAttribute::Colour => String::from_str("No vertex colour data found!"),
        VertexAttribute::Normal => String::from_str("No normals data found!"),
        VertexAttribute::Tangent => String::from_str("No tangent data found!"),
    }
}

fn no_view_text(a: VertexAttribute) -> (r: String)
    ensures
        r@ == no_view_message(a),
{
    match a {
        VertexAttribute::Position => String::from_str("No buffer view found for positions!"),
        VertexAttribute::TexCoord => String::from_str(
            "No buffer view found for texture coordinates!",
        ),
        VertexAttribute::Colour => String::from_str("No buffer view found for vertex colours!"),
        VertexAttribute::Normal => String::from_str("No buffer view found for vertex normals!"),
        VertexAttribute::Tangent => String::from_str("No buffer view found for vertex tangents!"),
    }
}

fn undefined_view_text(a: VertexAttribute) -> (r: String)
    ensures
        r@ == undefined_view_message(a),
{
    match a {
        VertexAttribute::Position => String::from_str(
            "Accessor for vertex positions must have a defined buffer view!",
        ),
        VertexAttribute::TexCoord => String::from_str(
            "Accessor for vertex texture coordinates must have a defined buffer view!",
        ),
        VertexAttribute::Colour => String::from_str(
            "Accessor for vertex colours must have a defined buffer view!",
        ),
        VertexAttribute::Normal => String::from_str(
            "Accessor for vertex normals must have a defined buffer view!",
        ),
        VertexAttribute::Tangent => String::from_str(
            "Accessor for vertex tangents must have a defined buffer view!",
        ),
    }
}

/// The line printed when a primitive lacks an attribute and its default is
/// used (positions have no default).
pub open spec fn default_notice_text(a: VertexAttribute) -> Seq<char> {
    match a {
        VertexAttribute::Position => ""@,
        VertexAttribute::TexCoord => "Loading default texture coordinates..."@,
        VertexAttribute::Colour => "Loading default vertex colours..."@,
        VertexAttribute::Normal => "Loading default normals..."@,
        VertexAttribute::Tangent => "Loading default tangent..."@,
    }
}

/// The line printed when the default of attribute `a` is used.
pub fn default_notice(a: VertexAttribute) -> (r: &'static str)
    ensures
        r@ == default_notice_text(a),
{
    match a {
        VertexAttribute::Position => "",
        VertexAttribute::TexCoord => "Loading default texture coordinates...",
        VertexAttribute::Colour => "Loading default vertex colours...",
        VertexAttribute::Normal => "Loading default normals...",
        VertexAttribute::Tangent => "Loading default tangent...",
    }
}

/// Where an attribute's data lies: its accessor, that accessor's buffer view
/// and that view's buffer.
#[derive(Debug, Clone, Copy, PartialEq, Eq, Structural)]
pub struct AttributeSource {
    pub accessor: usize,
    pub view: usize,
    pub buffer: usize,
}

/// Where a primitive's data for attribute `a` lies. `Ok(None)`: the
/// primitive does not have it (an error for positions, which every
/// primitive needs). `None`: the positions' buffer index names no buffer,
/// where the loader stops.
pub open spec fn source_plan(
    attrs: Seq<(String, usize)>,
    accessors: Seq<Accessor>,
    views: Seq<BufferView>,
    buffer_count: nat,
    a: VertexAttribute,
) -> Option<Result<Option<AttributeSource>, Seq<char>>> {
    match attribute_lookup(attrs, attribute_semantic(a)) {
        None => if a == VertexAttribute::Position {
            Some(Err("Primitives must have at least positions defined!"@))
        } else {
            Some(Ok(None))
        },
        Some(ai) => if ai >= accessors.len() {
            Some(Err(no_data_message(a)))
        } else {
            match accessors[ai as int].buffer_view {
                None => Some(Err(undefined_view_message(a))),
                Some(vi) => if vi >= views.len() {
                    Some(Err(no_view_message(a)))
                } else if views[vi as int].buffer >= buffer_count {
                    if a == VertexAttribute::Position {
                        None
                    } else {
                        Some(Err("Buffer view contains invalid buffer index!"@))
                    }
                } else {
                    Some(
                        Ok(
                            Some(
                                AttributeSource {
                                    accessor: ai,
                                    view: vi,
                                    buffer: views[vi as int].buffer,
                                },
                            ),
                        ),
                    )
                },
            }
        },
    }
}

/// Finds where a primitive's data for attribute `a` lies, as
/// [`source_plan`] describes.
pub fn attribute_source(
    attrs: &Vec<(String, usize)>,
    accessors: &Vec<Accessor>,
    views: &Vec<BufferView>,
    buffer_count: usize,
    a: VertexAttribute,
) -> (r: Option<Result<Option<AttributeSource>, String>>)
    ensures
        match source_plan(attrs@, accessors@, views@, buffer_count as nat, a) {
            None => r is None,
            Some(Err(m)) => r matches Some(Err(e)) && e@ == m,
            Some(Ok(s)) => r == Some(Ok::<Option<AttributeSource>, String>(s)),
        },
{
    let ai = match attribute_accessor(attrs, semantic(a)) {
        Some(ai) => ai,
        None => {
            if a == VertexAttribute::Position {
                return Some(Err(String::from_str("Primitives must have at least positions defined!")));
            }
            return Some(Ok(None));
        },
    };
    if ai >= accessors.len() {
        return Some(Err(no_data_text(a)));
    }
    let vi = match accessors[ai].buffer_view {
        Some(vi) => vi,
        None => {
            return Some(Err(undefined_view_text(a)));
        },
    };
    if vi >= views.len() {
        return Some(Err(no_view_text(a)));
    }
    let buffer = views[vi].buffer;
    if buffer >= buffer_count {
        if a == VertexAttribute::Position {
            return None;
        }
        return Some(Err(String::from_str("Buffer view contains invalid buffer index!")));
    }
    Some(Ok(Some(AttributeSource { accessor: ai, view: vi, buffer })))
}

/// The indices of a primitive whose index accessor is `accessor_index`: an
/// error where that names no accessor, else what [`indices_plan`] gives.
pub open spec fn index_data_plan(
    accessor_index: usize,
    accessors: Seq<Accessor>,
    views: Seq<BufferView>,
    bin: Seq<Seq<u8>>,
    v_offset: u32,
) -> Option<Result<Seq<u32>, Seq<char>>> {
    if accessor_index >= accessors.len() {
        Some(Err("No indices data found!"@))
    } else {
        indices_plan(accessors[accessor_index as int], views, bin, v_offset)
    }
}

/// Reads the indices of a primitive from its index accessor.
pub fn primitive_index_data(
    accessor_index: usize,
    accessors: &Vec<Accessor>,
    views: &Vec<BufferView>,
    bin: &Vec<Vec<u8>>,
    v_offset: u32,
) -> (r: Option<Result<Vec<u32>, String>>)
    ensures
        match index_data_plan(accessor_index, accessors@, views@, buffers_view(bin@), v_offset) {
            None => r is None,
            Some(Err(m)) => r matches Some(Err(e)) && e@ == m,
            Some(Ok(s)) => r matches Some(Ok(v)) && v@ == s,
        },
{
    if accessor_index >= accessors.len() {
        return Some(Err(String::from_str("No indices data found!")));
    }
    primitive_indices(&accessors[accessor_index], views, bin, v_offset)
}

/// The material a primitive is drawn with: the one its index names, where
/// the document has materials and the index is in range.
pub open spec fn material_choice(materials: Option<Seq<Material>>, index: Option<usize>) -> Option<
    usize,
> {
    match materials {
        None => None,
        Some(ms) => match index {
            None => None,
            Some(i) => if i < ms.len() {
                Some(i)
            } else {
                None
            },
        },
    }
}

/// A primitive is drawn with the material its index names and with no other:
/// without an index, or where the document has no material at that index, it
/// is drawn without a material, whatever materials the document has; with an
/// index in range it is drawn with that material.
pub proof fn lemma_material_choice(materials: Option<Seq<Material>>, index: Option<usize>)
    ensures
        index is None ==> material_choice(materials, index) is None,
        materials is None ==> material_choice(materials, index) is None,
        material_choice(materials, index) matches Some(i) ==> (index == Some(i) && (materials matches Some(ms) && (i as int) < ms.len())),
        (index matches Some(i) && materials matches Some(ms) && (i as int) < ms.len()) ==> material_choice(materials, index) == index,
{
}

/// Picks the material a primitive is drawn with, as [`material_choice`]
/// describes.
pub fn primitive_material(materials: &Option<Vec<Material>>, index: Option<usize>) -> (r: Option<
    usize,
>)
    ensures
        r == material_choice(
            match materials {
                Some(ms) => Some(ms@),
                None => None,
            },
            index,
        ),
{
    match materials {
        None => None,
        Some(ms) => match index {
            None => None,
            Some(i) => if i < ms.len() {
                Some(i)
            } else {
                None
            },
        },
    }
}

/// The alpha mode of the chosen material, if one was chosen.
pub fn material_alpha(materials: &Option<Vec<Material>>, chosen: Option<usize>) -> (r: Option<
    MaterialAlphaMode,
>)
    requires
        chosen matches Some(i) ==> (materials matches Some(ms) && i < ms@.len()),
    ensures
        match chosen {
            None => r is None,
            Some(i) => r == Some(materials->Some_0@[i as int].alpha_mode),
        },
{
    match chosen {
        None => None,
        Some(i) => match materials {
            Some(ms) => Some(ms[i].alpha_mode),
            None => None,
        },
    }
}

/// Whether the chosen material, if one was chosen, is double-sided.
pub fn material_double_sided(materials: &Option<Vec<Material>>, chosen: Option<usize>) -> (r: bool)
    requires
        chosen matches Some(i) ==> (materials matches Some(ms) && i < ms@.len()),
    ensures
        r == match chosen {
            None => false,
            Some(i) => materials->Some_0@[i as int].double_sided,
        },
{
    match chosen {
        None => false,
        Some(i) => match materials {
            Some(ms) => ms[i].double_sided,
            None => false,
        },
    }
}

} // verus!
