use vstd::prelude::*;
use vstd::std_specs::convert::FromSpec;
use crate::enums::{MeshPrimitiveMode, Undefinable};
use crate::float::F32;
use crate::rules::identity_entry_bits;

use crate::text::join3;
use crate::iri::{iri_reference_is_valid, iri_string_accepts_reference, percent_encode_path, percent_encoded_path};

verus! {

/// `s` starts with `::` at position `k`.
pub open spec fn separator_at(s: Seq<char>, k: int) -> bool {
    0 <= k && k + 1 < s.len() && s[k] == ':' && s[k + 1] == ':'
}

/// The last piece of `s` when it is split at `::`, matching left to right
/// without overlap, as `str::split("::")` does.
pub open spec fn last_segment(s: Seq<char>) -> Seq<char>
    decreases s.len(),
{
    if exists|k: int| separator_at(s, k) {
        let k = choose|k: int| separator_at(s, k) && forall|j: int| 0 <= j < k ==> !separator_at(s, j);
        if separator_at(s, k) && forall|j: int| 0 <= j < k ==> !separator_at(s, j) {
            last_segment(s.skip(k + 2))
        } else {
            s
        }
    } else {
        s
    }
}

/// The message that rejects a field whose value decodes to no variant of the
/// type named `type_path`.
pub open spec fn invalid_field_text(type_path: Seq<char>) -> Seq<char> {
    "Invalid "@ + last_segment(type_path) + " field!"@
}

proof fn lemma_least_separator(s: Seq<char>, k: int)
    requires
        separator_at(s, k),
        forall|j: int| 0 <= j < k ==> !separator_at(s, j),
    ensures
        last_segment(s) == last_segment(s.skip(k + 2)),
{
    let c = choose|c: int| separator_at(s, c) && forall|j: int| 0 <= j < c ==> !separator_at(s, j);
    assert(separator_at(s, c) && forall|j: int| 0 <= j < c ==> !separator_at(s, j));
    if c < k {
        assert(!separator_at(s, c));
    }
    if k < c {
        assert(!separator_at(s, k));
    }
    assert(c == k);
}

/// The last `::`-separated piece of a path such as `a::b::C`.
pub fn last_path_segment(s: &str) -> (r: &str)
    ensures
        r@ == last_segment(s@),
{
    let n = s.unicode_len();
    let mut start: usize = 0;
    let mut i: usize = 0;
    proof {
        assert(s@.skip(0) =~= s@);
    }
    while n - i > 1
        invariant
            n == s@.len(),
            start <= i <= n,
            last_segment(s@) == last_segment(s@.skip(start as int)),
            forall|j: int| start <= j < i ==> !separator_at(s@, j),
        decreases n - i,
    {
        if s.get_char(i) == ':' && s.get_char(i + 1) == ':' {
            proof {
                let t = s@.skip(start as int);
                let k = i - start;
                assert(separator_at(t, k as int));
                assert forall|j: int| 0 <= j < k implies !separator_at(t, j) by {
                    assert(!separator_at(s@, start + j));
                }
                lemma_least_separator(t, k as int);
                assert(t.skip(k + 2) =~= s@.skip(i + 2));
            }
            start = i + 2;
            i = i + 2;
        } else {
            i = i + 1;
        }
    }
    proof {
        let t = s@.skip(start as int);
        assert forall|k: int| !separator_at(t, k) by {
            if separator_at(t, k) {
                assert(separator_at(s@, start + k));
            }
        }
    }
    s.substring_char(start, n)
}

/// The message that rejects a field whose value decodes to no variant of the
/// type named `type_path`.
pub fn invalid_field_message(type_path: &str) -> (r: String)
    ensures
        r@ == invalid_field_text(type_path@),
{
    join3("Invalid ", last_path_segment(type_path), " field!")
}

/// Decodes a number read for a field of enumeration type `T`, whose path is
/// `type_path` (as `std::any::type_name` gives it); a number that decodes to no
/// variant is refused with a message naming the type.
pub fn deserialize_from_usize_to_enum<T: From<usize> + Undefinable>(val: usize, type_path: &str) -> (r: Result<T, String>)
    ensures
        T::obeys_from_spec() ==> match r {
            Ok(t) => t == T::from_spec(val) && !t.spec_is_undefined(),
            Err(m) => T::from_spec(val).spec_is_undefined() && m@ == invalid_field_text(type_path@),
        },
{
    let decoded = T::from(val);
    if decoded.is_undefined() {
        Err(invalid_field_message(type_path))
    } else {
        Ok(decoded)
    }
}

/// Decodes an optional number read for a field of enumeration type `T`, whose
/// path is `type_path`; an absent number gives `None`.
pub fn deserialize_from_option_usize_to_enum<T: From<usize> + Undefinable>(
    val: Option<usize>,
    type_path: &str,
) -> (r: Result<Option<T>, String>)
    ensures
        T::obeys_from_spec() ==> match val {
            None => r == Ok::<Option<T>, String>(None),
            Some(n) => match r {
                Ok(t) => t == Some(T::from_spec(n)) && !T::from_spec(n).spec_is_undefined(),
                Err(m) => T::from_spec(n).spec_is_undefined() && m@ == invalid_field_text(type_path@),
            },
        },
{
    match val {
        None => Ok(None),
        Some(n) => {
            let decoded = T::from(n);
            if decoded.is_undefined() {
                Err(invalid_field_message(type_path))
            } else {
                Ok(Some(decoded))
            }
        },
    }
}

/// Decodes a text read for a field of enumeration type `T`, whose path is
/// `type_path`; a text that decodes to no variant is refused with a message
/// naming the type.
pub fn deserialize_from_string_to_enum<T: From<String> + Undefinable>(val: String, type_path: &str) -> (r: Result<T, String>)
    ensures
        T::obeys_from_spec() ==> match r {
            Ok(t) => t == T::from_spec(val) && !t.spec_is_undefined(),
            Err(m) => T::from_spec(val).spec_is_undefined() && m@ == invalid_field_text(type_path@),
        },
{
    let decoded = T::from(val);
    if decoded.is_undefined() {
        Err(invalid_field_message(type_path))
    } else {
        Ok(decoded)
    }
}

/// Decodes an optional text read for a field of enumeration type `T`, whose
/// path is `type_path`; an absent text gives `None`.
pub fn deserialize_from_option_string_to_enum<T: From<String> + Undefinable>(
    val: Option<String>,
    type_path: &str,
) -> (r: Result<Option<T>, String>)
    ensures
        T::obeys_from_spec() ==> match val {
            None => r == Ok::<Option<T>, String>(None),
            Some(n) => match r {
                Ok(t) => t == Some(T::from_spec(n)) && !T::from_spec(n).spec_is_undefined(),
                Err(m) => T::from_spec(n).spec_is_undefined() && m@ == invalid_field_text(type_path@),
            },
        },
{
    match val {
        None => Ok(None),
        Some(n) => {
            let decoded = T::from(n);
            if decoded.is_undefined() {
                Err(invalid_field_message(type_path))
            } else {
                Ok(Some(decoded))
            }
        },
    }
}

/// The text that a URI read from a document is kept as: itself when it is an
/// IRI reference, otherwise its percent-encoding as an IRI path.
pub open spec fn normalized_uri(s: Seq<char>) -> Seq<char> {
    if iri_string_accepts_reference(s) {
        s
    } else {
        percent_encoded_path(s)
    }
}

/// Keeps a URI read from a document as an IRI: unchanged when it is a valid
/// IRI reference, percent-encoded as a path otherwise; an absent URI stays
/// absent.
pub fn deserialize_string_to_iri(val: Option<String>) -> (r: Option<String>)
    ensures
        match val {
            None => r is None,
            Some(raw) => r matches Some(u) && u@ == normalized_uri(raw@),
        },
{
    match val {
        Some(raw) => {
            if iri_reference_is_valid(raw.as_str()) {
                Some(raw)
            } else {
                Some(percent_encode_path(raw))
            }
        },
        None => None,
    }
}

/// The default topology of a mesh primitive: triangles (code 4).
pub fn default_mesh_primitive_mode() -> (r: MeshPrimitiveMode)
    ensures
        r == MeshPrimitiveMode::Triangles,
{
    MeshPrimitiveMode::from(4)
}

/// The default base colour factor: opaque white, `[1, 1, 1, 1]`.
pub fn default_base_color_factor() -> (r: [F32; 4])
    ensures
        forall|i: int| 0 <= i < 4 ==> (#[trigger] r@[i]).bits == 0x3f80_0000 && r@[i].text@ == "1"@,
{
    [F32::one(), F32::one(), F32::one(), F32::one()]
}

/// The default emissive factor: `[0, 0, 0]`.
pub fn default_emissive_factor() -> (r: [F32; 3])
    ensures
        forall|i: int| 0 <= i < 3 ==> (#[trigger] r@[i]).bits == 0 && r@[i].text@ == "0"@,
{
    [F32::zero(), F32::zero(), F32::zero()]
}

/// The number `1.0`.
pub fn default_f32_1() -> (r: F32)
    ensures
        r.bits == 0x3f80_0000,
        r.text@ == "1"@,
{
    F32::one()
}

/// The number `0.5`.
pub fn default_f32_half() -> (r: F32)
    ensures
        r.bits == 0x3f00_0000,
        r.text@ == "0.5"@,
{
    F32::half()
}

/// The number `0.0`.
pub fn default_f32_0() -> (r: F32)
    ensures
        r.bits == 0,
        r.text@ == "0"@,
{
    F32::zero()
}

/// The default node matrix: the 4x4 identity in column-major order.
pub fn default_matrix() -> (r: [F32; 16])
    ensures
        forall|i: int| 0 <= i < 16 ==> (#[trigger] r@[i]).bits == identity_entry_bits(i) && r@[i].text@
            == (if identity_entry_bits(i) == 0 { "0"@ } else { "1"@ }),
{
    [
        F32::one(), F32::zero(), F32::zero(), F32::zero(),
        F32::zero(), F32::one(), F32::zero(), F32::zero(),
        F32::zero(), F32::zero(), F32::one(), F32::zero(),
        F32::zero(), F32::zero(), F32::zero(), F32::one(),
    ]
}

/// The default node rotation: the identity quaternion `[0, 0, 0, 1]`.
pub fn default_rotation() -> (r: [F32; 4])
    ensures
        r@[0].bits == 0 && r@[1].bits == 0 && r@[2].bits == 0 && r@[3].bits == 0x3f80_0000,
        r@[0].text@ == "0"@ && r@[1].text@ == "0"@ && r@[2].text@ == "0"@ && r@[3].text@ == "1"@,
{
    [F32::zero(), F32::zero(), F32::zero(), F32::one()]
}

/// The default node scale: `[1, 1, 1]`.
pub fn default_scale() -> (r: [F32; 3])
    ensures
        forall|i: int| 0 <= i < 3 ==> (#[trigger] r@[i]).bits == 0x3f80_0000 && r@[i].text@ == "1"@,
{
    [F32::one(), F32::one(), F32::one()]
}

/// The default node translation: `[0, 0, 0]`.
pub fn default_translation() -> (r: [F32; 3])
    ensures
        forall|i: int| 0 <= i < 3 ==> (#[trigger] r@[i]).bits == 0 && r@[i].text@ == "0"@,
{
    [F32::zero(), F32::zero(), F32::zero()]
}

} // verus!
