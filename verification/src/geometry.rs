use vstd::prelude::*;
use crate::document::{Accessor, BufferView};
use crate::enums::{AccessorType, ComponentType, MaterialAlphaMode};
use crate::rules::type_components;

verus! {

/// Size in bytes of one component of the given type; `None` for `Undefined`.
pub open spec fn component_bytes(ct: ComponentType) -> Option<nat> {
    match ct {
        ComponentType::Byte => Some(1),
        ComponentType::UnsignedByte => Some(1),
        ComponentType::Short => Some(2),
        ComponentType::UnsignedShort => Some(2),
        ComponentType::UnsignedInt => Some(4),
        ComponentType::Float => Some(4),
        ComponentType::Undefined => None,
    }
}

/// A component takes as many bytes as the Rust integer of its width: one
/// for (unsigned) bytes, two for (unsigned) shorts, four for unsigned ints
/// and 32-bit floats; an element has one component for a scalar, `n` for a
/// vector of `n` and `n * n` for an `n` by `n` matrix.
pub proof fn lemma_component_sizes()
    ensures
        component_bytes(ComponentType::Byte) == Some(vstd::layout::size_of::<i8>()),
        component_bytes(ComponentType::UnsignedByte) == Some(vstd::layout::size_of::<u8>()),
        component_bytes(ComponentType::Short) == Some(vstd::layout::size_of::<i16>()),
        component_bytes(ComponentType::UnsignedShort) == Some(vstd::layout::size_of::<u16>()),
        component_bytes(ComponentType::UnsignedInt) == Some(vstd::layout::size_of::<u32>()),
        component_bytes(ComponentType::Float) == Some(vstd::layout::size_of::<u32>()),
        component_bytes(ComponentType::Undefined) is None,
        type_components(AccessorType::Scalar) == Some(1nat),
        type_components(AccessorType::Vec2) == Some(2nat),
        type_components(AccessorType::Vec3) == Some(3nat),
        type_components(AccessorType::Vec4) == Some(4nat),
        type_components(AccessorType::Mat2) == Some((2 * 2) as nat),
        type_components(AccessorType::Mat3) == Some((3 * 3) as nat),
        type_components(AccessorType::Mat4) == Some((4 * 4) as nat),
        type_components(AccessorType::Undefined) is None,
{
    broadcast use vstd::layout::layout_of_primitives;
}

/// The size in bytes of one component of the given type.
pub fn component_size(component_type: ComponentType) -> (r: Result<usize, String>)
    ensures
        match component_bytes(component_type) {
            Some(k) => r matches Ok(n) && n == k,
            None => r matches Err(e) && e@ == "Unsupported component type!"@,
        },
{
    match component_type {
        ComponentType::Byte => Ok(1),
        ComponentType::UnsignedByte => Ok(1),
        ComponentType::Short => Ok(2),
        ComponentType::UnsignedShort => Ok(2),
        ComponentType::UnsignedInt => Ok(4),
        ComponentType::Float => Ok(4),
        _ => Err(String::from_str("Unsupported component type!")),
    }
}

/// The number of components of one element of the given accessor type.
pub fn num_components(accessor_type: AccessorType) -> (r: Result<usize, String>)
    ensures
        match type_components(accessor_type) {
            Some(k) => r matches Ok(n) && n == k,
            None => r matches Err(e) && e@ == "Unsupported accessor type!"@,
        },
{
    match accessor_type {
        AccessorType::Scalar => Ok(1),
        AccessorType::Vec2 => Ok(2),
        AccessorType::Vec3 => Ok(3),
        AccessorType::Vec4 => Ok(4),
        AccessorType::Mat2 => Ok(4),
        AccessorType::Mat3 => Ok(9),
        AccessorType::Mat4 => Ok(16),
        _ => Err(String::from_str("Unsupported accessor type!")),
    }
}

/// Size in bytes of one vertex index of the given component type; only the
/// unsigned integer types can hold indices.
pub open spec fn index_width(ct: ComponentType) -> Option<nat> {
    match ct {
        ComponentType::UnsignedByte => Some(1),
        ComponentType::UnsignedShort => Some(2),
        ComponentType::UnsignedInt => Some(4),
        _ => None,
    }
}

/// Index `k` of `data`, read as a little-endian unsigned integer of the width
/// of `ct`.
pub open spec fn index_value(data: Seq<u8>, ct: ComponentType, k: int) -> int {
    match ct {
        ComponentType::UnsignedByte => data[k] as int,
        ComponentType::UnsignedShort => data[2 * k] + 256 * data[2 * k + 1],
        ComponentType::UnsignedInt => data[4 * k] + 256 * data[4 * k + 1] + 65536 * data[4 * k
            + 2] + 16777216 * data[4 * k + 3],
        _ => 0,
    }
}

/// Stored indices are little-endian: the first byte of an index is its
/// lowest, and each later byte counts 256 times the one before; a wider index
/// is the narrower one read from its first bytes plus its later bytes
/// shifted up.
pub proof fn lemma_index_value_little_endian(data: Seq<u8>, k: int)
    ensures
        index_value(data, ComponentType::UnsignedByte, k) == data[k],
        index_value(data, ComponentType::UnsignedShort, k) % 256 == data[2 * k],
        index_value(data, ComponentType::UnsignedShort, k) / 256 == data[2 * k + 1],
        index_value(data, ComponentType::UnsignedInt, k) % 65536 == index_value(data, ComponentType::UnsignedShort, 2 * k),
        index_value(data, ComponentType::UnsignedInt, k) / 65536 == index_value(data, ComponentType::UnsignedShort, 2 * k + 1),
        0 <= index_value(data, ComponentType::UnsignedInt, k) <= u32::MAX,
{
}

/// Indices are stored only as unsigned integers, each taking its component
/// size: an index accessor of an unsigned byte, short or int type is read
/// that many bytes per index; any other component type cannot hold indices.
pub proof fn lemma_index_width(ct: ComponentType)
    ensures
        index_width(ct) is Some <==> (ct == ComponentType::UnsignedByte || ct == ComponentType::UnsignedShort || ct
            == ComponentType::UnsignedInt),
        index_width(ct) is Some ==> index_width(ct) == component_bytes(ct),
{
}

/// A byte offset that is absent counts as zero.
pub open spec fn offset_or_zero(o: Option<usize>) -> int {
    match o {
        Some(x) => x as int,
        None => 0,
    }
}

/// What reading the vertex indices of a primitive comes to: `None` where the
/// loader's arithmetic overflows (and the program stops), an error message, or
/// the indices, each offset by `v_offset`.
pub open spec fn indices_plan(
    a: Accessor,
    views: Seq<BufferView>,
    bin: Seq<Seq<u8>>,
    v_offset: u32,
) -> Option<Result<Seq<u32>, Seq<char>>> {
    match index_width(a.component_type) {
        None => Some(Err("incompatible component type"@)),
        Some(w) => if a.count * w > usize::MAX {
            None
        } else {
            let len = a.count * w;
            match a.buffer_view {
                None => Some(Err("Accessor for indices has no buffer view defined!"@)),
                Some(vi) => if vi >= views.len() {
                    Some(Err("No buffer view found for indices!"@))
                } else {
                    let v = views[vi as int];
                    let start = offset_or_zero(v.byte_offset) + offset_or_zero(a.byte_offset);
                    if start > usize::MAX {
                        None
                    } else if v.buffer >= bin.len() {
                        Some(Err("Buffer view contains invalid buffer index!"@))
                    } else if start + len > usize::MAX {
                        None
                    } else if start + len > bin[v.buffer as int].len() {
                        Some(Err("Buffer did not contain required slice!"@))
                    } else {
                        let data = bin[v.buffer as int].subrange(start, start + len);
                        if exists|k: int|
                            0 <= k < a.count && #[trigger] index_value(data, a.component_type, k)
                                + v_offset > u32::MAX {
                            None
                        } else {
                            Some(
                                Ok(
                                    Seq::new(
                                        a.count as nat,
                                        |k: int|
                                            (index_value(data, a.component_type, k)
                                                + v_offset) as u32,
                                    ),
                                ),
                            )
                        }
                    }
                },
            }
        },
    }
}

/// The indices an index accessor gives are absolute: each is the stored
/// index moved on by `v_offset`, the place of the primitive's first vertex.
pub proof fn lemma_indices_plan_absolute(a: Accessor, views: Seq<BufferView>, bin: Seq<Seq<u8>>, v_offset: u32)
    ensures
        indices_plan(a, views, bin, v_offset) matches Some(Ok(s)) ==> forall|k: int|
            0 <= k < s.len() ==> v_offset <= #[trigger] s[k],
{
    let p = indices_plan(a, views, bin, v_offset);
    if p matches Some(Ok(_)) {
        let s = p->Some_0->Ok_0;
        let w = index_width(a.component_type)->0;
        let v = views[a.buffer_view->0 as int];
        let start = offset_or_zero(v.byte_offset) + offset_or_zero(a.byte_offset);
        let data = bin[v.buffer as int].subrange(start, start + a.count * w);
        assert forall|k: int| 0 <= k < s.len() implies v_offset <= #[trigger] s[k] by {
            assert(index_value(data, a.component_type, k) + v_offset <= u32::MAX);
            assert(index_value(data, a.component_type, k) >= 0);
        }
    }
}

/// Moving indices on by `v_offset` adds `v_offset` to each stored index:
/// where the plan with an offset succeeds, so does the plan without one, and
/// each index is the stored one plus the offset.
pub proof fn lemma_indices_plan_shift(a: Accessor, views: Seq<BufferView>, bin: Seq<Seq<u8>>, v_offset: u32)
    ensures
        indices_plan(a, views, bin, v_offset) matches Some(Ok(s)) ==> (indices_plan(a, views, bin, 0)
            matches Some(Ok(raw)) && raw.len() == s.len() && forall|k: int|
            0 <= k < s.len() ==> #[trigger] s[k] == raw[k] + v_offset),
{
    let p = indices_plan(a, views, bin, v_offset);
    if p matches Some(Ok(_)) {
        let s = p->Some_0->Ok_0;
        let w = index_width(a.component_type)->0;
        let v = views[a.buffer_view->0 as int];
        let start = offset_or_zero(v.byte_offset) + offset_or_zero(a.byte_offset);
        let data = bin[v.buffer as int].subrange(start, start + a.count * w);
        assert forall|k: int| 0 <= k < a.count implies !(#[trigger] index_value(data, a.component_type, k) + 0u32
            > u32::MAX) by {
            assert(index_value(data, a.component_type, k) + v_offset <= u32::MAX);
        }
        let raw = indices_plan(a, views, bin, 0)->Some_0->Ok_0;
        assert forall|k: int| 0 <= k < s.len() implies #[trigger] s[k] == raw[k] + v_offset by {
            assert(index_value(data, a.component_type, k) + v_offset <= u32::MAX);
            assert(index_value(data, a.component_type, k) >= 0);
        }
    }
}

/// The views of the buffers a document's data is held in.
pub open spec fn buffers_view(bin: Seq<Vec<u8>>) -> Seq<Seq<u8>> {
    Seq::new(bin.len(), |i: int| bin[i]@)
}

fn read_index(data: &[u8], ct: ComponentType, start: usize, end: usize, k: usize) -> (r: u64)
    requires
        start <= end <= data@.len(),
        ct == ComponentType::UnsignedByte ==> start + k + 1 <= end,
        ct == ComponentType::UnsignedShort ==> start + 2 * k + 2 <= end,
        ct == ComponentType::UnsignedInt ==> start + 4 * k + 4 <= end,
        ct == ComponentType::UnsignedByte || ct == ComponentType::UnsignedShort || ct
            == ComponentType::UnsignedInt,
    ensures
        r == index_value(data@.subrange(start as int, end as int), ct, k as int),
{
    let ghost d = data@.subrange(start as int, end as int);
    match ct {
        ComponentType::UnsignedByte => {
            assert(d[k as int] == data@[start + k]);
            data[start + k] as u64
        },
        ComponentType::UnsignedShort => {
            let j = start + 2 * k;
            assert(d[2 * k] == data@[j as int]);
            assert(d[2 * k + 1] == data@[j + 1]);
            data[j] as u64 + 256 * (data[j + 1] as u64)
        },
        _ => {
            let j = start + 4 * k;
            assert(d[4 * k] == data@[j as int]);
            assert(d[4 * k + 1] == data@[j + 1]);
            assert(d[4 * k + 2] == data@[j + 2]);
            assert(d[4 * k + 3] == data@[j + 3]);
            data[j] as u64 + 256 * (data[j + 1] as u64) + 65536 * (data[j + 2] as u64) + 16777216
                * (data[j + 3] as u64)
        },
    }
}

/// Reads the vertex indices of a primitive from the buffer its accessor points
/// into, offsetting each by `v_offset`. `None` stands where the loader's
/// arithmetic overflows and the program stops.
pub fn primitive_indices(
    accessor: &Accessor,
    buffer_views: &Vec<BufferView>,
    bin: &Vec<Vec<u8>>,
    v_offset: u32,
) -> (r: Option<Result<Vec<u32>, String>>)
    ensures
        match indices_plan(*accessor, buffer_views@, buffers_view(bin@), v_offset) {
            None => r is None,
            Some(Err(m)) => r matches Some(Err(e)) && e@ == m,
            Some(Ok(s)) => r matches Some(Ok(v)) && v@ == s,
        },
{
    let ct = accessor.component_type;
    let width: usize = match ct {
        ComponentType::UnsignedByte => 1,
        ComponentType::UnsignedShort => 2,
        ComponentType::UnsignedInt => 4,
        _ => {
            return Some(Err(String::from_str("incompatible component type")));
        },
    };
    let count = accessor.count;
    let len = match count.checked_mul(width) {
        Some(l) => l,
        None => {
            return None;
        },
    };
    let vi = match accessor.buffer_view {
        Some(vi) => vi,
        None => {
            return Some(Err(String::from_str("Accessor for indices has no buffer view defined!")));
        },
    };
    if vi >= buffer_views.len() {
        return Some(Err(String::from_str("No buffer view found for indices!")));
    }
    let view = &buffer_views[vi];
    let view_offset = match view.byte_offset {
        Some(o) => o,
        None => 0,
    };
    let accessor_offset = match accessor.byte_offset {
        Some(o) => o,
        None => 0,
    };
    let start = match view_offset.checked_add(accessor_offset) {
        Some(s) => s,
        None => {
            return None;
        },
    };
    if view.buffer >= bin.len() {
        return Some(Err(String::from_str("Buffer view contains invalid buffer index!")));
    }
    let buffer = &bin[view.buffer];
    proof {
        assert(buffers_view(bin@)[view.buffer as int] == buffer@);
    }
    let end = match start.checked_add(len) {
        Some(e) => e,
        None => {
            return None;
        },
    };
    if end > buffer.len() {
        return Some(Err(String::from_str("Buffer did not contain required slice!")));
    }
    let ghost data = buffer@.subrange(start as int, end as int);
    let mut out: Vec<u32> = Vec::new();
    let mut k: usize = 0;
    #[verifier::loop_isolation(false)]
    while k < count
        invariant
            k <= count,
            count == accessor.count,
            width == index_width(ct).unwrap(),
            ct == accessor.component_type,
            ct == ComponentType::UnsignedByte || ct == ComponentType::UnsignedShort || ct
                == ComponentType::UnsignedInt,
            len == count * width,
            end == start + len,
            end <= buffer@.len(),
            data == buffer@.subrange(start as int, end as int),
            out@.len() == k,
            forall|j: int|
                #![trigger index_value(data, ct, j)]
                0 <= j < k ==> index_value(data, ct, j) + v_offset <= u32::MAX && out@[j] == (
                index_value(data, ct, j) + v_offset) as u32,
        decreases count - k,
    {
        proof {
            assert(width * (k + 1) <= width * count) by (nonlinear_arith)
                requires
                    k + 1 <= count,
            ;
        }
        let value = read_index(buffer.as_slice(), ct, start, end, k);
        if value + (v_offset as u64) > 0xffff_ffff {
            proof {
                assert(index_value(data, ct, k as int) + v_offset > u32::MAX);
                let pv = buffers_view(bin@);
                assert(pv[view.buffer as int] == buffer@);
                assert(len == accessor.count * index_width(ct).unwrap());
            }
            return None;
        }
        out.push((value + v_offset as u64) as u32);
        k = k + 1;
    }
    proof {
        assert(out@ =~= Seq::new(
            count as nat,
            |j: int| (index_value(data, ct, j) + v_offset) as u32,
        ));
        assert(!exists|j: int|
            0 <= j < count && #[trigger] index_value(data, ct, j) + v_offset > u32::MAX);
    }
    Some(Ok(out))
}

/// Appends a primitive's indices; a double-sided material appends them again
/// in reverse order, so that the back face is drawn as a front face.
pub fn append_primitive_indices(indices: &mut Vec<u32>, prim: &Vec<u32>, double_sided: bool)
    ensures
        double_sided ==> final(indices)@ == old(indices)@ + prim@ + prim@.reverse(),
        !double_sided ==> final(indices)@ == old(indices)@ + prim@,
{
    let n = prim.len();
    let mut i: usize = 0;
    while i < n
        invariant
            n == prim@.len(),
            i <= n,
            indices@ == old(indices)@ + prim@.take(i as int),
        decreases n - i,
    {
        indices.push(prim[i]);
        proof {
            assert(prim@.take(i + 1) =~= prim@.take(i as int).push(prim@[i as int]));
        }
        i = i + 1;
    }
    proof {
        assert(prim@.take(n as int) =~= prim@);
    }
    if double_sided {
        let ghost mid = indices@;
        let mut j: usize = n;
        while j > 0
            invariant
                n == prim@.len(),
                j <= n,
                mid == old(indices)@ + prim@,
                indices@ == mid + prim@.reverse().take(n - j),
            decreases j,
        {
            j = j - 1;
            indices.push(prim[j]);
            proof {
                assert(prim@.reverse().take(n - j) =~= prim@.reverse().take(n - j - 1).push(
                    prim@[j as int],
                ));
            }
        }
        proof {
            assert(prim@.reverse().take(n as int) =~= prim@.reverse());
        }
    }
}

/// What a double-sided material appends reads the same backwards: each
/// triangle is followed, at the mirrored place, by the same triangle with its
/// winding reversed.
pub proof fn lemma_double_sided_mirrored(prim: Seq<u32>)
    ensures
        (prim + prim.reverse()).reverse() =~= prim + prim.reverse(),
{
    let both = prim + prim.reverse();
    assert forall|i: int| 0 <= i < both.len() implies #[trigger] both.reverse()[i] == both[i] by {
        let n = prim.len() as int;
        if i < n {
            assert(both.reverse()[i] == both[2 * n - 1 - i]);
            assert(both[2 * n - 1 - i] == prim.reverse()[n - 1 - i]);
        } else {
            assert(both.reverse()[i] == both[2 * n - 1 - i]);
            assert(both[i] == prim.reverse()[i - n]);
        }
    }
}

/// The number of vertices of a primitive drawn without an index accessor:
/// its vertex count cut to 32 bits.
pub open spec fn drawn_count(vertex_count: nat) -> nat {
    (vertex_count as u32) as nat
}

/// The absolute indices `v_offset, v_offset + 1, ..., v_offset + n - 1` of a
/// primitive drawn without an index accessor, whose `n` vertices start at
/// `v_offset` in the vertex list; `None` when the last one does not fit in 32
/// bits.
pub open spec fn sequential_plan(vertex_count: nat, v_offset: u32) -> Option<Seq<u32>> {
    let n = drawn_count(vertex_count);
    if n > 0 && v_offset + n - 1 > u32::MAX {
        None
    } else {
        Some(Seq::new(n, |i: int| (v_offset + i) as u32))
    }
}

/// The indices of a primitive drawn without an index accessor, as
/// [`sequential_plan`] gives them.
pub fn sequential_indices(vertex_count: usize, v_offset: u32) -> (r: Option<Vec<u32>>)
    ensures
        match sequential_plan(vertex_count as nat, v_offset) {
            None => r is None,
            Some(s) => r matches Some(v) && v@ == s,
        },
{
    #[verifier::truncate]
    let n = vertex_count as u32;
    if n > 0 && n - 1 > u32::MAX - v_offset {
        return None;
    }
    let mut out: Vec<u32> = Vec::new();
    let mut i: u32 = 0;
    while i < n
        invariant
            i <= n,
            n == drawn_count(vertex_count as nat),
            n > 0 ==> v_offset + n - 1 <= u32::MAX,
            out@ == Seq::new(i as nat, |k: int| (v_offset + k) as u32),
        decreases n - i,
    {
        out.push(v_offset + i);
        proof {
            assert(out@ =~= Seq::new((i + 1) as nat, |k: int| (v_offset + k) as u32));
        }
        i = i + 1;
    }
    Some(out)
}

/// The bytes of component `k` of an accessor whose elements start at
/// `base`, `stride` bytes apart, each with `nc` components of `cs` bytes.
pub open spec fn component_at(buf: Seq<u8>, base: int, stride: int, nc: nat, cs: nat, k: int) -> Seq<u8> {
    let start = base + (k / (nc as int)) * stride + (k % (nc as int)) * cs;
    buf.subrange(start, start + cs)
}

/// Reading an accessor value by value (`width` its component count): there is
/// one value per element, and component `t` of value `i` is the component's
/// bytes at the accessor's start (the view's offset plus the accessor's),
/// moved on by `i` strides (the view's byte stride, or the element's size
/// where the view sets none) and `t` component sizes.
pub proof fn lemma_values_layout(a: Accessor, v: BufferView, buf: Seq<u8>, width: nat)
    ensures
        values_plan(a, v, buf, width) matches Some(Ok(r)) ==> type_components(a.ty) == Some(width) ==> {
            let nc = width;
            let cs = component_bytes(a.component_type)->0;
            let stride: int = match v.byte_stride {
                Some(s) => s as int,
                None => (nc * cs) as int,
            };
            let start = offset_or_zero(v.byte_offset) + offset_or_zero(a.byte_offset);
            &&& r.len() == a.count
            &&& forall|i: int, t: int|
                0 <= i < a.count && 0 <= t < nc ==> #[trigger] r[i][t] == buf.subrange(
                    start + i * stride + t * cs,
                    start + i * stride + t * cs + cs,
                )
        },
{
    let p = values_plan(a, v, buf, width);
    if p matches Some(Ok(_)) && type_components(a.ty) == Some(width) {
        let r = p->Some_0->Ok_0;
        let nc = width;
        let cs = component_bytes(a.component_type)->0;
        let stride: int = match v.byte_stride {
            Some(s) => s as int,
            None => (nc * cs) as int,
        };
        let start = offset_or_zero(v.byte_offset) + offset_or_zero(a.byte_offset);
        assert(nc > 0);
        if a.count > 0 {
            assert((a.count as nat * nc) / nc == a.count) by {
                vstd::arithmetic::div_mod::lemma_fundamental_div_mod_converse(a.count * nc, nc as int, a.count as int, 0);
            }
        }
        assert forall|i: int, t: int| 0 <= i < a.count && 0 <= t < nc implies #[trigger] r[i][t] == buf.subrange(
            start + i * stride + t * cs,
            start + i * stride + t * cs + cs,
        ) by {
            vstd::arithmetic::div_mod::lemma_fundamental_div_mod_converse(i * nc + t, nc as int, i, t);
            assert(r[i][t] == component_at(buf, start, stride, nc, cs, i * nc + t));
        }
    }
}

/// The message of a component type that reading numbers does not handle.
pub open spec fn unsupported_type_message() -> Seq<char> {
    "unsupported component type: UnsignedInt!"@
}

/// What reading an accessor's numbers and grouping them `width` at a time
/// comes to: the components of all elements in order, grouped into values
/// of `width` components each (a last incomplete group is dropped), each
/// component as its bytes. `None` where the loader's arithmetic overflows,
/// its result vector cannot be allocated or a read falls outside the buffer
/// (each stops the program). Unsigned 32-bit components are refused once
/// the first of them is read.
pub open spec fn values_plan(a: Accessor, v: BufferView, buf: Seq<u8>, width: nat) -> Option<
    Result<Seq<Seq<Seq<u8>>>, Seq<char>>,
> {
    match type_components(a.ty) {
        None => Some(Err("Unsupported accessor type!"@)),
        Some(nc) => match component_bytes(a.component_type) {
            None => Some(Err("Unsupported component type!"@)),
            Some(cs) => {
                let stride = match v.byte_stride {
                    Some(s) => s as int,
                    None => (nc * cs) as int,
                };
                let base = offset_or_zero(v.byte_offset) + offset_or_zero(a.byte_offset);
                if a.count * nc * 4 > isize::MAX {
                    None
                } else if a.count == 0 {
                    Some(Ok(Seq::empty()))
                } else if a.component_type == ComponentType::UnsignedInt {
                    if base + cs > buf.len() {
                        None
                    } else {
                        Some(Err(unsupported_type_message()))
                    }
                } else if base + (a.count - 1) * stride + nc * cs > buf.len() {
                    None
                } else {
                    Some(
                        Ok(
                            Seq::new(
                                (a.count as nat * nc) / width,
                                |j: int|
                                    Seq::new(
                                        width,
                                        |t: int| component_at(buf, base, stride, nc, cs, j * width + t),
                                    ),
                            ),
                        ),
                    )
                }
            },
        },
    }
}

fn copy_range(buf: &[u8], from: usize, to: usize) -> (r: Vec<u8>)
    requires
        from <= to <= buf@.len(),
    ensures
        r@ == buf@.subrange(from as int, to as int),
{
    let mut out: Vec<u8> = Vec::new();
    let mut i = from;
    while i < to
        invariant
            from <= i <= to <= buf@.len(),
            out@ == buf@.subrange(from as int, i as int),
        decreases to - i,
    {
        out.push(buf[i]);
        proof {
            assert(buf@.subrange(from as int, i + 1) =~= buf@.subrange(from as int, i as int).push(
                buf@[i as int],
            ));
        }
        i = i + 1;
    }
    out
}

proof fn lemma_small_sizes(ty: AccessorType, ct: ComponentType)
    ensures
        type_components(ty) matches Some(k) ==> 1 <= k <= 16,
        component_bytes(ct) matches Some(k) ==> 1 <= k <= 4,
{
}

fn span_fits(count: usize, stride: usize, base: usize, element_size: usize, len: usize) -> (r:
    bool)
    ensures
        r == (count == 0 || base + (count - 1) * stride + element_size <= len),
{
    if count == 0 {
        return true;
    }
    proof {
        assert((count - 1) * stride >= 0) by (nonlinear_arith)
            requires
                count >= 1,
        ;
    }
    let span = match (count - 1).checked_mul(stride) {
        Some(m) => m,
        None => {
            return false;
        },
    };
    let last = match base.checked_add(span) {
        Some(m) => m,
        None => {
            return false;
        },
    };
    let end = match last.checked_add(element_size) {
        Some(m) => m,
        None => {
            return false;
        },
    };
    end <= len
}

fn regrouped_components(
    buffer: &[u8],
    count: usize,
    nc: usize,
    cs: usize,
    stride: usize,
    base: usize,
    width: usize,
    total: usize,
) -> (r: Vec<Vec<Vec<u8>>>)
    requires
        1 <= nc <= 16,
        1 <= cs <= 4,
        width >= 1,
        count > 0,
        total == count * nc,
        base + (count - 1) * stride + nc * cs <= buffer@.len(),
    ensures
        r@.len() == total / width,
        forall|j: int|
            0 <= j < r@.len() ==> (#[trigger] r@[j])@.len() == width && forall|t: int|
                0 <= t < width ==> (#[trigger] r@[j]@[t])@ == component_at(
                    buffer@,
                    base as int,
                    stride as int,
                    nc as nat,
                    cs as nat,
                    j * width + t,
                ),
{
    let n = total / width;
    let blen = buffer.len();
    proof {
        assert(n * width <= total) by (nonlinear_arith)
            requires
                n == total / width,
                width >= 1,
        ;
    }
    let mut out: Vec<Vec<Vec<u8>>> = Vec::new();
    let mut e: usize = 0;
    let mut c: usize = 0;
    let mut j: usize = 0;
    while j < n
        invariant
            1 <= nc <= 16,
            1 <= cs <= 4,
            width >= 1,
            count > 0,
            total == count * nc,
            n * width <= total,
            blen == buffer@.len(),
            base + (count - 1) * stride + nc * cs <= buffer@.len(),
            j <= n,
            e * nc + c == j * width,
            c < nc,
            out@.len() == j,
            forall|q: int|
                0 <= q < j ==> (#[trigger] out@[q])@.len() == width && forall|t: int|
                    0 <= t < width ==> (#[trigger] out@[q]@[t])@ == component_at(
                        buffer@,
                        base as int,
                        stride as int,
                        nc as nat,
                        cs as nat,
                        q * width + t,
                    ),
        decreases n - j,
    {
        let mut chunk: Vec<Vec<u8>> = Vec::new();
        let mut t: usize = 0;
        while t < width
            invariant
                1 <= nc <= 16,
                1 <= cs <= 4,
                width >= 1,
                count > 0,
                total == count * nc,
                n * width <= total,
                blen == buffer@.len(),
                base + (count - 1) * stride + nc * cs <= buffer@.len(),
                j < n,
                t <= width,
                e * nc + c == j * width + t,
                c < nc,
                chunk@.len() == t,
                forall|s: int|
                    0 <= s < t ==> (#[trigger] chunk@[s])@ == component_at(
                        buffer@,
                        base as int,
                        stride as int,
                        nc as nat,
                        cs as nat,
                        j * width + s,
                    ),
            decreases width - t,
        {
            let ghost k: int = j * width + t;
            proof {
                assert(k < total) by (nonlinear_arith)
                    requires
                        k == j * width + t,
                        t < width,
                        j < n,
                        n * width <= total,
                ;
                assert(e < count) by (nonlinear_arith)
                    requires
                        e * nc + c == k,
                        k < total,
                        total == count * nc,
                        c >= 0,
                        nc >= 1,
                ;
                assert(e * stride <= (count - 1) * stride) by (nonlinear_arith)
                    requires
                        e <= count - 1,
                        stride >= 0,
                ;
                assert(c * cs + cs <= nc * cs) by (nonlinear_arith)
                    requires
                        c + 1 <= nc,
                        cs >= 0,
                ;
                assert(e * stride >= 0 && c * cs >= 0) by (nonlinear_arith)
                    requires
                        e >= 0,
                        c >= 0,
                        stride >= 0,
                        cs >= 0,
                ;
                vstd::arithmetic::div_mod::lemma_fundamental_div_mod_converse(
                    k,
                    nc as int,
                    e as int,
                    c as int,
                );
            }
            let start = base + e * stride + c * cs;
            chunk.push(copy_range(buffer, start, start + cs));
            c = c + 1;
            if c == nc {
                proof {
                    assert((e + 1) * nc == e * nc + nc) by (nonlinear_arith);
                }
                c = 0;
                e = e + 1;
            }
            t = t + 1;
        }
        proof {
            assert(j * width + width == (j + 1) * width) by (nonlinear_arith);
        }
        out.push(chunk);
        j = j + 1;
    }
    out
}

/// Reads an accessor's numbers as [`values_plan`] describes, grouping them
/// `width` components at a time; turning the bytes into numbers is left to
/// the caller.
pub fn accessor_values(accessor: &Accessor, view: &BufferView, buffer: &[u8], width: usize) -> (r: Option<
    Result<Vec<Vec<Vec<u8>>>, String>,
>)
    requires
        width >= 1,
    ensures
        match values_plan(*accessor, *view, buffer@, width as nat) {
            None => r is None,
            Some(Err(m)) => r matches Some(Err(e)) && e@ == m,
            Some(Ok(s)) => r matches Some(Ok(v)) && v@.len() == s.len() && forall|i: int|
                0 <= i < s.len() ==> (#[trigger] v@[i])@.len() == s[i].len() && forall|j: int|
                    0 <= j < s[i].len() ==> (#[trigger] v@[i]@[j])@ == s[i][j],
        },
{
    proof {
        lemma_small_sizes(accessor.ty, accessor.component_type);
    }
    let nc = match num_components(accessor.ty) {
        Ok(n) => n,
        Err(e) => {
            return Some(Err(e));
        },
    };
    let cs = match component_size(accessor.component_type) {
        Ok(n) => n,
        Err(e) => {
            return Some(Err(e));
        },
    };
    let count = accessor.count;
    assert(1 <= nc <= 16 && 1 <= cs <= 4);
    assert(nc * cs <= 64) by (nonlinear_arith)
        requires
            nc <= 16,
            cs <= 4,
    ;
    let element_size = nc * cs;
    let stride = match view.byte_stride {
        Some(s) => s,
        None => element_size,
    };
    let view_offset = match view.byte_offset {
        Some(o) => o,
        None => 0,
    };
    let accessor_offset = match accessor.byte_offset {
        Some(o) => o,
        None => 0,
    };
    proof {
        assert(count * nc <= 16 * usize::MAX) by (nonlinear_arith)
            requires
                nc <= 16,
                count <= usize::MAX,
        ;
    }
    let wide_total = count as u128 * nc as u128;
    if wide_total * 4 > isize::MAX as u128 {
        return None;
    }
    if count == 0 {
        let empty: Vec<Vec<Vec<u8>>> = Vec::new();
        return Some(Ok(empty));
    }
    let total = count * nc;
    let blen = buffer.len();
    let base = match view_offset.checked_add(accessor_offset) {
        Some(b) => b,
        None => {
            proof {
                assert((count - 1) * stride >= 0) by (nonlinear_arith)
                    requires
                        count >= 1,
                ;
            }
            return None;
        },
    };
    if accessor.component_type == ComponentType::UnsignedInt {
        if cs > blen || base > blen - cs {
            return None;
        }
        return Some(Err(String::from_str("unsupported component type: UnsignedInt!")));
    }
    if !span_fits(count, stride, base, element_size, blen) {
        return None;
    }
    let out = regrouped_components(buffer, count, nc, cs, stride, base, width, total);
    proof {
        let plan = values_plan(*accessor, *view, buffer@, width as nat);
        let sp = plan->Some_0->Ok_0;
        assert(out@.len() == sp.len());
        assert forall|a: int| 0 <= a < sp.len() implies (#[trigger] out@[a])@.len() == sp[a].len()
            && forall|b: int| 0 <= b < sp[a].len() ==> (#[trigger] out@[a]@[b])@ == sp[a][b] by {}
    }
    Some(Ok(out))
}

/// The accessor index that an attribute list gives for `name`: the first
/// entry with that key.
pub open spec fn attribute_lookup(attrs: Seq<(String, usize)>, name: Seq<char>) -> Option<usize>
    decreases attrs.len(),
{
    if attrs.len() == 0 {
        None
    } else if attrs[0].0@ == name {
        Some(attrs[0].1)
    } else {
        attribute_lookup(attrs.drop_first(), name)
    }
}

/// No semantic occurs twice in an attribute list, as in the JSON object of
/// the document, which holds each key once.
pub open spec fn semantics_distinct(attrs: Seq<(String, usize)>) -> bool {
    forall|i: int, j: int| 0 <= i < j < attrs.len() ==> (#[trigger] attrs[i]).0@ != (#[trigger] attrs[j]).0@
}

/// Where no semantic occurs twice, the lookup reads the list as a map from
/// semantic to accessor: it gives `Some(a)` exactly when the list pairs
/// `name` with `a`, and `None` exactly when no entry has that name; the order
/// of the entries does not matter.
pub proof fn lemma_attribute_lookup_is_map(attrs: Seq<(String, usize)>, name: Seq<char>, a: usize)
    requires
        semantics_distinct(attrs),
    ensures
        attribute_lookup(attrs, name) == Some(a) <==> exists|k: int|
            0 <= k < attrs.len() && (#[trigger] attrs[k]).0@ == name && attrs[k].1 == a,
        attribute_lookup(attrs, name) is None <==> forall|k: int|
            0 <= k < attrs.len() ==> (#[trigger] attrs[k]).0@ != name,
    decreases attrs.len(),
{
    if attrs.len() > 0 {
        let t = attrs.drop_first();
        assert forall|i: int, j: int| 0 <= i < j < t.len() implies (#[trigger] t[i]).0@ != (#[trigger] t[j]).0@ by {
            assert(t[i] == attrs[i + 1] && t[j] == attrs[j + 1]);
        }
        lemma_attribute_lookup_is_map(t, name, a);
        if attrs[0].0@ == name {
            assert forall|k: int| 0 < k < attrs.len() implies (#[trigger] attrs[k]).0@ != name by {
                assert(attrs[0].0@ != attrs[k].0@);
            }
        } else {
            assert forall|k: int| 0 < k < attrs.len() implies #[trigger] attrs[k] == t[k - 1] by {}
            if exists|k: int| 0 <= k < attrs.len() && (#[trigger] attrs[k]).0@ == name && attrs[k].1 == a {
                let k = choose|k: int| 0 <= k < attrs.len() && (#[trigger] attrs[k]).0@ == name && attrs[k].1 == a;
                assert(t[k - 1] == attrs[k]);
            }
            if exists|k: int| 0 <= k < t.len() && (#[trigger] t[k]).0@ == name && t[k].1 == a {
                let k = choose|k: int| 0 <= k < t.len() && (#[trigger] t[k]).0@ == name && t[k].1 == a;
                assert(attrs[k + 1] == t[k]);
            }
            if !(forall|k: int| 0 <= k < t.len() ==> (#[trigger] t[k]).0@ != name) {
                let k = choose|k: int| 0 <= k < t.len() && (#[trigger] t[k]).0@ == name;
                assert(attrs[k + 1] == t[k]);
            }
        }
    }
}

/// Looks up the accessor index of an attribute semantic such as `POSITION`.
pub fn attribute_accessor(attrs: &Vec<(String, usize)>, name: &str) -> (r: Option<usize>)
    ensures
        r == attribute_lookup(attrs@, name@),
{
    let n = attrs.len();
    let mut i: usize = 0;
    proof {
        assert(attrs@.skip(0) =~= attrs@);
    }
    while i < n
        invariant
            n == attrs@.len(),
            i <= n,
            attribute_lookup(attrs@, name@) == attribute_lookup(attrs@.skip(i as int), name@),
        decreases n - i,
    {
        proof {
            assert(attrs@.skip(i as int).drop_first() =~= attrs@.skip(i + 1));
        }
        if crate::text::text_eq(attrs[i].0.as_str(), name) {
            return Some(attrs[i].1);
        }
        i = i + 1;
    }
    None
}

/// The record of where a primitive's indices and vertices lie in the shared
/// buffers, and how it is drawn.
#[derive(Debug, Clone, Copy, PartialEq, Eq, Structural)]
pub struct SubMesh {
    pub index_offset: u32,
    pub index_count: u32,
    pub material_id: u32,
    pub first_vertex: u32,
    pub max_vertex: u32,
    /// `1` when the material's alpha mode is not opaque, `0` otherwise.
    pub alpha_cut: u32,
}

/// The text of the error that converting an out-of-range integer gives.
pub open spec fn conversion_error() -> Seq<char> {
    "out of range integral type conversion attempted"@
}

/// Converts a count to 32 bits, failing as `u32::try_from` does.
pub fn count_u32(n: usize) -> (r: Result<u32, String>)
    ensures
        n <= u32::MAX ==> r == Ok::<u32, String>(n as u32),
        n > u32::MAX ==> (r matches Err(e) && e@ == conversion_error()),
{
    if n <= 0xffff_ffff {
        Ok(n as u32)
    } else {
        Err(String::from_str("out of range integral type conversion attempted"))
    }
}

/// Where a primitive starts: the index count so far, the offset of its first
/// index and the offset added to its indices. `None` where the sums overflow.
pub open spec fn offsets_plan(
    indices_len: nat,
    vertices_len: nat,
    initial_index_offset: u32,
    initial_v_offset: u32,
) -> Option<Result<(u32, u32, u32), Seq<char>>> {
    if indices_len > u32::MAX {
        Some(Err(conversion_error()))
    } else if initial_index_offset + indices_len > u32::MAX {
        None
    } else if vertices_len > u32::MAX {
        Some(Err(conversion_error()))
    } else if initial_v_offset + vertices_len > u32::MAX {
        None
    } else {
        Some(
            Ok(
                (
                    indices_len as u32,
                    (initial_index_offset + indices_len) as u32,
                    (initial_v_offset + vertices_len) as u32,
                ),
            ),
        )
    }
}

/// A primitive starts right after what was loaded before it: its first index
/// goes at the initial index offset plus the indices loaded so far, and its
/// indices are moved on by the initial vertex offset plus the vertices loaded
/// so far; where these fit in 32 bits they are given.
pub proof fn lemma_offsets(indices_len: nat, vertices_len: nat, initial_index_offset: u32, initial_v_offset: u32)
    ensures
        offsets_plan(indices_len, vertices_len, initial_index_offset, initial_v_offset) matches Some(Ok(t)) ==> {
            &&& t.0 == indices_len
            &&& t.1 == initial_index_offset + indices_len
            &&& t.2 == initial_v_offset + vertices_len
        },
        (initial_index_offset + indices_len <= u32::MAX && initial_v_offset + vertices_len <= u32::MAX) ==> (
        offsets_plan(indices_len, vertices_len, initial_index_offset, initial_v_offset) matches Some(Ok(_))),
{
}

/// Computes where a primitive starts, given the indices and vertices loaded
/// so far.
pub fn primitive_offsets(
    indices_len: usize,
    vertices_len: usize,
    initial_index_offset: u32,
    initial_v_offset: u32,
) -> (r: Option<Result<(u32, u32, u32), String>>)
    ensures
        match offsets_plan(
            indices_len as nat,
            vertices_len as nat,
            initial_index_offset,
            initial_v_offset,
        ) {
            None => r is None,
            Some(Err(m)) => r matches Some(Err(e)) && e@ == m,
            Some(Ok(t)) => r == Some(Ok::<(u32, u32, u32), String>(t)),
        },
{
    let count = match count_u32(indices_len) {
        Ok(c) => c,
        Err(e) => {
            return Some(Err(e));
        },
    };
    let start = match initial_index_offset.checked_add(count) {
        Some(s) => s,
        None => {
            return None;
        },
    };
    let verts = match count_u32(vertices_len) {
        Ok(c) => c,
        Err(e) => {
            return Some(Err(e));
        },
    };
    let v_offset = match initial_v_offset.checked_add(verts) {
        Some(s) => s,
        None => {
            return None;
        },
    };
    Some(Ok((count, start, v_offset)))
}

/// The submesh record of a primitive once its indices and vertices are
/// loaded. `None` where the loader's arithmetic overflows.
pub open spec fn submesh_plan(
    start_offset: u32,
    initial_indices_count: u32,
    indices_len: nat,
    material_index: nat,
    initial_v_offset: u32,
    vertices_len: nat,
    alpha: Option<MaterialAlphaMode>,
) -> Option<Result<SubMesh, Seq<char>>> {
    if indices_len > u32::MAX {
        Some(Err(conversion_error()))
    } else if indices_len < initial_indices_count {
        None
    } else if material_index > u32::MAX {
        Some(Err(conversion_error()))
    } else if vertices_len > u32::MAX {
        Some(Err(conversion_error()))
    } else if initial_v_offset + vertices_len > u32::MAX {
        None
    } else {
        Some(
            Ok(
                SubMesh {
                    index_offset: start_offset,
                    index_count: (indices_len - initial_indices_count) as u32,
                    material_id: material_index as u32,
                    first_vertex: initial_v_offset,
                    max_vertex: (initial_v_offset + vertices_len) as u32,
                    alpha_cut: match alpha {
                        Some(m) => if m == MaterialAlphaMode::Opaque {
                            0
                        } else {
                            1
                        },
                        None => 0,
                    },
                },
            ),
        )
    }
}

/// The submesh record of a loaded primitive: it draws the indices appended
/// for the primitive, from where they start, with the primitive's vertices,
/// from `initial_v_offset` up to `initial_v_offset + vertices_len`, and the
/// material it names. Its alpha cut is on exactly when the primitive has a
/// material whose alpha mode is not `OPAQUE` (alpha-tested `MASK` and
/// blended `BLEND` materials), and off for a primitive without a material or
/// with an opaque one. Where every count fits in 32 bits and nothing
/// overflows, a record is made.
pub proof fn lemma_submesh_record(
    start_offset: u32,
    initial_indices_count: u32,
    indices_len: nat,
    material_index: nat,
    initial_v_offset: u32,
    vertices_len: nat,
    alpha: Option<MaterialAlphaMode>,
)
    ensures
        submesh_plan(start_offset, initial_indices_count, indices_len, material_index, initial_v_offset, vertices_len, alpha)
            matches Some(Ok(t)) ==> {
            &&& t.index_offset == start_offset
            &&& t.index_count == indices_len - initial_indices_count
            &&& t.material_id == material_index
            &&& t.first_vertex == initial_v_offset
            &&& t.max_vertex == initial_v_offset + vertices_len
            &&& (t.alpha_cut == 1 <==> (alpha matches Some(m) && m != MaterialAlphaMode::Opaque))
            &&& (t.alpha_cut == 0 <==> (alpha is None || alpha == Some(MaterialAlphaMode::Opaque)))
            &&& (alpha == Some(MaterialAlphaMode::Mask) || alpha == Some(MaterialAlphaMode::Blend)) ==> t.alpha_cut == 1
        },
        (indices_len <= u32::MAX && initial_indices_count <= indices_len && material_index <= u32::MAX
            && vertices_len <= u32::MAX && initial_v_offset + vertices_len <= u32::MAX) ==> submesh_plan(
            start_offset,
            initial_indices_count,
            indices_len,
            material_index,
            initial_v_offset,
            vertices_len,
            alpha,
        ) is Some && submesh_plan(start_offset, initial_indices_count, indices_len, material_index, initial_v_offset, vertices_len, alpha)->0 is Ok,
{
}

/// Builds the submesh record of a primitive; `alpha` is the alpha mode of its
/// material, if it has one.
pub fn primitive_submesh(
    start_offset: u32,
    initial_indices_count: u32,
    indices_len: usize,
    material_index: usize,
    initial_v_offset: u32,
    vertices_len: usize,
    alpha: Option<MaterialAlphaMode>,
) -> (r: Option<Result<SubMesh, String>>)
    ensures
        match submesh_plan(
            start_offset,
            initial_indices_count,
            indices_len as nat,
            material_index as nat,
            initial_v_offset,
            vertices_len as nat,
            alpha,
        ) {
            None => r is None,
            Some(Err(m)) => r matches Some(Err(e)) && e@ == m,
            Some(Ok(t)) => r == Some(Ok::<SubMesh, String>(t)),
        },
{
    let count = match count_u32(indices_len) {
        Ok(c) => c,
        Err(e) => {
            return Some(Err(e));
        },
    };
    if count < initial_indices_count {
        return None;
    }
    let material_id = match count_u32(material_index) {
        Ok(c) => c,
        Err(e) => {
            return Some(Err(e));
        },
    };
    let verts = match count_u32(vertices_len) {
        Ok(c) => c,
        Err(e) => {
            return Some(Err(e));
        },
    };
    let max_vertex = match initial_v_offset.checked_add(verts) {
        Some(s) => s,
        None => {
            return None;
        },
    };
    let alpha_cut: u32 = match alpha {
        Some(m) => if m == MaterialAlphaMode::Opaque {
            0
        } else {
            1
        },
        None => 0,
    };
    Some(
        Ok(
            SubMesh {
                index_offset: start_offset,
                index_count: count - initial_indices_count,
                material_id,
                first_vertex: initial_v_offset,
                max_vertex,
                alpha_cut,
            },
        ),
    )
}
} // verus!
