use vstd::prelude::*;
use vstd::utf8::{decode_utf8, encode_utf8, valid_utf8};
use crate::iri::{iri_reference_is_valid, iri_reference_scheme, iri_string_accepts_reference, iri_string_scheme};
use crate::text::text_eq;
use crate::document::Buffer;

verus! {

/// What loading does with one buffer of a document, given its URI.
#[derive(Debug)]
pub enum BufferStep {
    /// Nothing is loaded for this buffer; go on with the next one.
    Next,
    /// These bytes, embedded in a `data:` URI, are the buffer; go on with the
    /// next one.
    Embedded(Vec<u8>),
    /// The buffer is the file at this path, relative to the document's
    /// directory.
    External(String),
    /// Load no further buffer.
    Stop,
}

/// The step of `BufferStep`, with its data as mathematical values.
pub enum PlannedStep {
    Next,
    Embedded(Seq<u8>),
    External(Seq<char>),
    Stop,
}

/// `s` is the executable form of `p`.
pub open spec fn step_is(s: BufferStep, p: PlannedStep) -> bool {
    match (s, p) {
        (BufferStep::Next, PlannedStep::Next) => true,
        (BufferStep::Embedded(b), PlannedStep::Embedded(q)) => b@ == q,
        (BufferStep::External(t), PlannedStep::External(q)) => t@ == q,
        (BufferStep::Stop, PlannedStep::Stop) => true,
        _ => false,
    }
}

/// Index of the first character of `s` satisfying `p`, or the length of `s`
/// when there is none.
pub open spec fn first_index(s: Seq<char>, p: spec_fn(char) -> bool) -> nat
    decreases s.len(),
{
    if s.len() == 0 {
        0
    } else if p(s[0]) {
        0
    } else {
        1 + first_index(s.drop_first(), p)
    }
}

proof fn lemma_first_index(s: Seq<char>, p: spec_fn(char) -> bool, i: int)
    requires
        0 <= i <= s.len(),
        forall|j: int| 0 <= j < i ==> !p(s[j]),
    ensures
        i == s.len() ==> first_index(s, p) == s.len(),
        i < s.len() && p(s[i]) ==> first_index(s, p) == i,
    decreases i,
{
    if i > 0 {
        lemma_first_index(s.drop_first(), p, i - 1);
    }
}

/// `b` is the ASCII code of a hexadecimal digit.
pub open spec fn is_hex_digit(b: u8) -> bool {
    (0x30 <= b && b <= 0x39) || (0x41 <= b && b <= 0x46) || (0x61 <= b && b <= 0x66)
}

/// The value of a hexadecimal digit.
pub open spec fn hex_value(b: u8) -> int {
    if b <= 0x39 {
        b - 0x30
    } else if b <= 0x46 {
        b - 0x41 + 10
    } else {
        b - 0x61 + 10
    }
}

/// The WHATWG `percent-decode` of `b`: each `%` followed by two hexadecimal
/// digits becomes the byte they encode; every other byte, a stray `%`
/// included, stays as it is.
pub open spec fn percent_decoded(b: Seq<u8>) -> Seq<u8>
    decreases b.len(),
{
    if b.len() == 0 {
        seq![]
    } else if b[0] == 0x25 && b.len() >= 3 && is_hex_digit(b[1]) && is_hex_digit(b[2]) {
        seq![(hex_value(b[1]) * 16 + hex_value(b[2])) as u8] + percent_decoded(b.skip(3))
    } else {
        seq![b[0]] + percent_decoded(b.drop_first())
    }
}

/// The text that the percent-decoding of the UTF-8 bytes of `u` spells, when
/// those decoded bytes are valid UTF-8.
pub open spec fn percent_decoded_text(u: Seq<char>) -> Option<Seq<char>> {
    let b = percent_decoded(encode_utf8(u));
    if valid_utf8(b) {
        Some(decode_utf8(b))
    } else {
        None
    }
}

/// Every `%` in `b` is followed by two hexadecimal digits: `b` holds no
/// stray percent sign.
pub open spec fn percent_well_formed(b: Seq<u8>) -> bool {
    forall|i: int|
        0 <= i < b.len() && #[trigger] b[i] == 0x25 ==> i + 2 < b.len() && is_hex_digit(b[i + 1])
            && is_hex_digit(b[i + 2])
}

fn hex_digit(b: u8) -> (r: bool)
    ensures
        r == is_hex_digit(b),
{
    (0x30 <= b && b <= 0x39) || (0x41 <= b && b <= 0x46) || (0x61 <= b && b <= 0x66)
}

/// Whether the UTF-8 bytes of `u` hold no stray percent sign.
pub fn has_no_stray_percent(u: &str) -> (r: bool)
    ensures
        r == percent_well_formed(encode_utf8(u@)),
{
    let b = u.as_bytes();
    let n = b.len();
    let mut i: usize = 0;
    while i < n
        invariant
            n == b@.len(),
            b@ == encode_utf8(u@),
            i <= n,
            forall|j: int|
                0 <= j < i && #[trigger] b@[j] == 0x25 ==> j + 2 < n && is_hex_digit(b@[j + 1])
                    && is_hex_digit(b@[j + 2]),
        decreases n - i,
    {
        if b[i] == 0x25 {
            if !(n >= 2 && i < n - 2 && hex_digit(b[i + 1]) && hex_digit(b[i + 2])) {
                assert(b@[i as int] == 0x25);
                return false;
            }
        }
        i = i + 1;
    }
    true
}

/// Calls `iri_string::percent_encode::decode::decode_whatwg_bytes` on the
/// UTF-8 bytes of `u` and `into_string` on the result. On bytes without a
/// stray percent sign (the only ones it is given) the contract states the
/// WHATWG percent-decode algorithm that the function documents, followed by
/// `String::from_utf8`, which `into_string` calls: it succeeds exactly on
/// valid UTF-8 and gives the characters the bytes encode. What it returns
/// for bytes with a stray `%` is left unsaid: the crate's decoder does not
/// keep such a `%` in every position.
#[verifier::external_body]
pub(crate) fn percent_decode_text(u: &str) -> (r: Option<String>)
    requires
        percent_well_formed(encode_utf8(u@)),
    ensures
        match percent_decoded_text(u@) {
            Some(t) => r matches Some(s) && s@ == t,
            None => r is None,
        },
{
    match iri_string::percent_encode::decode::decode_whatwg_bytes(u.as_bytes()).into_string() {
        Ok(s) => Some(s),
        Err(_) => None,
    }
}

/// What the standard base64 engine of the `base64` crate decodes the UTF-8
/// bytes of `s` to, or `None` when it refuses them.
pub uninterp spec fn base64_decoded(s: Seq<char>) -> Option<Seq<u8>>;

/// Calls `base64::engine::general_purpose::STANDARD.decode` on the bytes of
/// `s`. Which inputs it accepts (alphabet, padding, trailing bits) and what it
/// decodes them to is left to the name `base64_decoded`.
#[verifier::external_body]
pub(crate) fn base64_decode(s: &str) -> (r: Option<Vec<u8>>)
    ensures
        match base64_decoded(s@) {
            Some(b) => r matches Some(v) && v@ == b,
            None => r is None,
        },
{
    match base64::Engine::decode(&base64::engine::general_purpose::STANDARD, s) {
        Ok(v) => Some(v),
        Err(_) => None,
    }
}

/// `c` separates the pieces of a `data:` URI body.
pub open spec fn is_piece_separator(c: char) -> bool {
    c == ';' || c == ','
}

/// The pieces of `s` between separators, as `str::split` on `;` and `,` gives
/// them (empty pieces included).
pub open spec fn pieces(s: Seq<char>) -> Seq<Seq<char>>
    decreases s.len(),
{
    let k = first_index(s, |c: char| is_piece_separator(c));
    if k >= s.len() {
        seq![s]
    } else {
        seq![s.take(k as int)] + pieces(s.skip(k as int + 1))
    }
}

/// Splits `s` at every `;` and `,`.
pub fn split_pieces(s: &str) -> (r: Vec<String>)
    ensures
        r@.len() == pieces(s@).len(),
        forall|i: int| 0 <= i < r@.len() ==> #[trigger] r@[i]@ == pieces(s@)[i],
{
    let n = s.unicode_len();
    let mut out: Vec<String> = Vec::new();
    let mut start: usize = 0;
    let mut i: usize = 0;
    let ghost mut done: Seq<Seq<char>> = seq![];
    proof {
        assert(s@.skip(0) =~= s@);
    }
    while i < n
        invariant
            n == s@.len(),
            start <= i <= n,
            out@.len() == done.len(),
            forall|j: int| 0 <= j < out@.len() ==> #[trigger] out@[j]@ == done[j],
            pieces(s@) == done + pieces(s@.skip(start as int)),
            forall|j: int| start <= j < i ==> !is_piece_separator(s@[j]),
        decreases n - i,
    {
        let c = s.get_char(i);
        if c == ';' || c == ',' {
            let piece = String::from_str(s.substring_char(start, i));
            proof {
                let t = s@.skip(start as int);
                assert forall|j: int| 0 <= j < i - start implies !is_piece_separator(t[j]) by {
                    assert(t[j] == s@[start + j]);
                }
                lemma_first_index(t, |c: char| is_piece_separator(c), i - start);
                assert(t.take(i - start) =~= s@.subrange(start as int, i as int));
                assert(t.skip(i - start + 1) =~= s@.skip(i + 1));
                assert(pieces(t) == seq![t.take(i - start)] + pieces(t.skip(i - start + 1)));
                done = done.push(piece@);
                assert(pieces(s@) =~= done + pieces(s@.skip(i + 1)));
            }
            out.push(piece);
            start = i + 1;
        }
        i = i + 1;
    }
    let last = String::from_str(s.substring_char(start, n));
    proof {
        let t = s@.skip(start as int);
        assert forall|j: int| 0 <= j < t.len() implies !is_piece_separator(t[j]) by {
            assert(t[j] == s@[start + j]);
        }
        lemma_first_index(t, |c: char| is_piece_separator(c), t.len() as int);
        assert(t =~= s@.subrange(start as int, n as int));
        done = done.push(last@);
        assert(pieces(s@) =~= done);
    }
    out.push(last);
    out
}

/// The characters that `char::is_whitespace` accepts: those with the Unicode
/// `White_Space` property.
pub open spec fn is_white_space(c: char) -> bool {
    let v = c as u32;
    (0x09 <= v && v <= 0x0d) || v == 0x20 || v == 0x85 || v == 0xa0 || v == 0x1680 || (0x2000
        <= v && v <= 0x200a) || v == 0x2028 || v == 0x2029 || v == 0x202f || v == 0x205f || v
        == 0x3000
}

fn white_space(c: char) -> (r: bool)
    ensures
        r == is_white_space(c),
{
    let v = c as u32;
    (0x09 <= v && v <= 0x0d) || v == 0x20 || v == 0x85 || v == 0xa0 || v == 0x1680 || (0x2000
        <= v && v <= 0x200a) || v == 0x2028 || v == 0x2029 || v == 0x202f || v == 0x205f || v
        == 0x3000
}

/// `s` without its leading white space.
pub open spec fn trim_start(s: Seq<char>) -> Seq<char>
    decreases s.len(),
{
    if s.len() > 0 && is_white_space(s[0]) {
        trim_start(s.drop_first())
    } else {
        s
    }
}

/// `s` without its trailing white space.
pub open spec fn trim_end(s: Seq<char>) -> Seq<char>
    decreases s.len(),
{
    if s.len() > 0 && is_white_space(s.last()) {
        trim_end(s.drop_last())
    } else {
        s
    }
}

/// `s` without leading and trailing white space, as `str::trim` gives it.
pub open spec fn trimmed(s: Seq<char>) -> Seq<char> {
    trim_end(trim_start(s))
}

proof fn lemma_trim_start(s: Seq<char>, i: int)
    requires
        0 <= i <= s.len(),
        forall|j: int| 0 <= j < i ==> is_white_space(s[j]),
        i < s.len() ==> !is_white_space(s[i]),
    ensures
        trim_start(s) == s.skip(i),
    decreases i,
{
    if i > 0 {
        lemma_trim_start(s.drop_first(), i - 1);
        assert(s.drop_first().skip(i - 1) =~= s.skip(i));
    } else {
        assert(s.skip(0) =~= s);
    }
}

proof fn lemma_trim_end(s: Seq<char>, e: int)
    requires
        0 <= e <= s.len(),
        forall|j: int| e <= j < s.len() ==> is_white_space(s[j]),
        e > 0 ==> !is_white_space(s[e - 1]),
    ensures
        trim_end(s) == s.take(e),
    decreases s.len() - e,
{
    if e < s.len() {
        lemma_trim_end(s.drop_last(), e);
        assert(s.drop_last().take(e) =~= s.take(e));
    } else {
        assert(s.take(e) =~= s);
    }
}

/// `s` without leading and trailing white space.
pub fn trim_text(s: &str) -> (r: &str)
    ensures
        r@ == trimmed(s@),
{
    let n = s.unicode_len();
    let mut a: usize = 0;
    while a < n && white_space(s.get_char(a))
        invariant
            n == s@.len(),
            a <= n,
            forall|j: int| 0 <= j < a ==> is_white_space(s@[j]),
        decreases n - a,
    {
        a = a + 1;
    }
    let mut e: usize = n;
    while e > a && white_space(s.get_char(e - 1))
        invariant
            n == s@.len(),
            a <= e <= n,
            forall|j: int| e <= j < n ==> is_white_space(s@[j]),
        decreases e,
    {
        e = e - 1;
    }
    proof {
        lemma_trim_start(s@, a as int);
        let t = s@.skip(a as int);
        assert forall|j: int| e - a <= j < t.len() implies is_white_space(t[j]) by {
            assert(t[j] == s@[a + j]);
        }
        if e > a {
            assert(t[e - a - 1] == s@[e - 1]);
        }
        lemma_trim_end(t, e - a);
        assert(t.take(e - a) =~= s@.subrange(a as int, e as int));
    }
    s.substring_char(a, e)
}

/// The media types a `data:` URI of a buffer may name.
pub open spec fn is_buffer_media_type(m: Seq<char>) -> bool {
    m == "application/octet-stream"@ || m == "application/gltf-buffer"@
}

/// What the body of a `data:` URI (the text after `data:`) gives: its first
/// piece, trimmed, must be a buffer media type; when the second piece is
/// `base64` the last piece (there must be a third) is decoded; otherwise
/// nothing is loaded.
pub open spec fn embedded_step(body: Seq<char>) -> PlannedStep {
    let p = pieces(body);
    if !is_buffer_media_type(trimmed(p[0])) {
        PlannedStep::Stop
    } else if p.len() > 1 && p[1] == "base64"@ {
        if p.len() > 2 {
            match base64_decoded(p.last()) {
                Some(b) => PlannedStep::Embedded(b),
                None => PlannedStep::Stop,
            }
        } else {
            PlannedStep::Stop
        }
    } else {
        PlannedStep::Next
    }
}

/// What loading does with a buffer whose URI is `uri`. A path with a stray
/// `%` stops the loading; a valid IRI reference never holds one.
pub open spec fn planned_step(uri: Option<Seq<char>>) -> PlannedStep {
    match uri {
        None => PlannedStep::Next,
        Some(u) => if !iri_string_accepts_reference(u) {
            PlannedStep::Stop
        } else if iri_string_scheme(u) != Some("data"@) {
            if !percent_well_formed(encode_utf8(u)) {
                PlannedStep::Stop
            } else {
                match percent_decoded_text(u) {
                    Some(p) => PlannedStep::External(p),
                    None => PlannedStep::Stop,
                }
            }
        } else if u.len() < 5 || u.take(5) != "data:"@ {
            PlannedStep::Stop
        } else {
            embedded_step(u.skip(5))
        },
    }
}

/// `s` holds no `;` or `,`.
pub open spec fn no_separator(s: Seq<char>) -> bool {
    forall|i: int| 0 <= i < s.len() ==> !is_piece_separator(#[trigger] s[i])
}

proof fn lemma_pieces_split(x: Seq<char>, c: char, y: Seq<char>)
    requires
        no_separator(x),
        is_piece_separator(c),
    ensures
        pieces(x + seq![c] + y) == seq![x] + pieces(y),
{
    let s = x + seq![c] + y;
    assert forall|j: int| 0 <= j < x.len() implies !is_piece_separator(s[j]) by {
        assert(s[j] == x[j]);
    }
    lemma_first_index(s, |ch: char| is_piece_separator(ch), x.len() as int);
    assert(s.take(x.len() as int) =~= x);
    assert(s.skip(x.len() as int + 1) =~= y);
}

proof fn lemma_pieces_whole(x: Seq<char>)
    requires
        no_separator(x),
    ensures
        pieces(x) == seq![x],
{
    lemma_first_index(x, |ch: char| is_piece_separator(ch), x.len() as int);
}

/// The body of a `data:` URI of a buffer is read as `<media type>;base64,<data>`:
/// with one of the buffer media types, the buffer is the data decoded from
/// base64 (nothing is loaded where the data is not base64); as
/// `<media type>,<data>`, with no `base64` marker, the buffer is skipped
/// (unless the data is the marker itself, which lacks its data and stops the
/// loading); any other media type stops the loading.
pub proof fn lemma_data_uri_body(media_type: Seq<char>, data: Seq<char>)
    requires
        no_separator(media_type),
        no_separator(data),
        media_type.len() > 0,
        !is_white_space(media_type[0]),
        !is_white_space(media_type.last()),
    ensures
        embedded_step(media_type + ";base64,"@ + data) == if !is_buffer_media_type(media_type) {
            PlannedStep::Stop
        } else {
            match base64_decoded(data) {
                Some(b) => PlannedStep::Embedded(b),
                None => PlannedStep::Stop,
            }
        },
        embedded_step(media_type + ","@ + data) == if !is_buffer_media_type(media_type) {
            PlannedStep::Stop
        } else if data == "base64"@ {
            PlannedStep::Stop
        } else {
            PlannedStep::Next
        },
{
    reveal_strlit(";base64,");
    reveal_strlit(",");
    reveal_strlit("base64");
    let b64 = "base64"@;
    assert(b64 =~= seq!['b', 'a', 's', 'e', '6', '4']);
    assert(no_separator(b64));
    let s1 = media_type + ";base64,"@ + data;
    assert(s1 =~= media_type + seq![';'] + (b64 + seq![','] + data));
    lemma_pieces_split(media_type, ';', b64 + seq![','] + data);
    lemma_pieces_split(b64, ',', data);
    lemma_pieces_whole(data);
    let p1 = pieces(s1);
    assert(p1 =~= seq![media_type, b64, data]);
    let s2 = media_type + ","@ + data;
    assert(s2 =~= media_type + seq![','] + data);
    lemma_pieces_split(media_type, ',', data);
    assert(pieces(s2) =~= seq![media_type, data]);
    lemma_trim_start(media_type, 0);
    assert(media_type.skip(0) =~= media_type);
    lemma_trim_end(media_type, media_type.len() as int);
    assert(media_type.take(media_type.len() as int) =~= media_type);
}

fn plan_embedded(body: &str) -> (r: BufferStep)
    ensures
        step_is(r, embedded_step(body@)),
{
    let p = split_pieces(body);
    proof {
        assert(pieces(body@).len() >= 1) by {
            reveal_with_fuel(pieces, 1);
        }
    }
    let mime = trim_text(p[0].as_str());
    if !(text_eq(mime, "application/octet-stream") || text_eq(mime, "application/gltf-buffer")) {
        return BufferStep::Stop;
    }
    if p.len() > 1 && text_eq(p[1].as_str(), "base64") {
        if p.len() > 2 {
            match base64_decode(p[p.len() - 1].as_str()) {
                Some(b) => BufferStep::Embedded(b),
                None => BufferStep::Stop,
            }
        } else {
            BufferStep::Stop
        }
    } else {
        BufferStep::Next
    }
}

/// Decides what loading does with a buffer whose URI is `uri`: nothing without
/// a URI; stop when it is not an IRI reference; read the percent-decoded path
/// when its scheme is not `data`; decode the embedded bytes of a `data:` URI.
pub fn plan_buffer(uri: Option<&str>) -> (r: BufferStep)
    ensures
        step_is(r, planned_step(match uri { Some(u) => Some(u@), None => None })),
{
    match uri {
        None => BufferStep::Next,
        Some(u) => {
            if !iri_reference_is_valid(u) {
                return BufferStep::Stop;
            }
            let is_data = match iri_reference_scheme(u) {
                Some(s) => text_eq(s.as_str(), "data"),
                None => false,
            };
            if !is_data {
                if !has_no_stray_percent(u) {
                    return BufferStep::Stop;
                }
                return match percent_decode_text(u) {
                    Some(p) => BufferStep::External(p),
                    None => BufferStep::Stop,
                };
            }
            let n = u.unicode_len();
            if n < 5 || !text_eq(u.substring_char(0, 5), "data:") {
                return BufferStep::Stop;
            }
            plan_embedded(u.substring_char(5, n))
        },
    }
}

/// The URI of a buffer as text.
pub open spec fn uri_view(b: Buffer) -> Option<Seq<char>> {
    match b.uri {
        Some(u) => Some(u@),
        None => None,
    }
}

/// The steps that load the buffers `bs`, one per buffer, up to the first
/// buffer whose URI cannot be loaded (that buffer and the later ones are not
/// loaded).
pub open spec fn planned_steps(bs: Seq<Buffer>) -> Seq<PlannedStep>
    decreases bs.len(),
{
    if bs.len() == 0 {
        seq![]
    } else {
        let p = planned_step(uri_view(bs[0]));
        if p is Stop {
            seq![]
        } else {
            seq![p] + planned_steps(bs.drop_first())
        }
    }
}

proof fn lemma_planned_steps_prefix(bs: Seq<Buffer>, i: int)
    requires
        0 <= i < bs.len(),
        forall|j: int| 0 <= j < i ==> !(planned_step(uri_view(bs[j])) is Stop),
    ensures
        planned_steps(bs) == planned_steps(bs.take(i)) + planned_steps(bs.skip(i)),
        planned_steps(bs.take(i)).len() == i,
        forall|j: int| 0 <= j < i ==> planned_steps(bs.take(i))[j] == planned_step(uri_view(bs[j])),
    decreases i,
{
    if i > 0 {
        let t = bs.drop_first();
        assert forall|j: int| 0 <= j < i - 1 implies !(planned_step(uri_view(t[j])) is Stop) by {
            assert(t[j] == bs[j + 1]);
        }
        lemma_planned_steps_prefix(t, i - 1);
        assert(bs.take(i).drop_first() =~= t.take(i - 1));
        assert(bs.take(i)[0] == bs[0]);
        assert(t.skip(i - 1) =~= bs.skip(i));
        assert forall|j: int| 0 <= j < i implies planned_steps(bs.take(i))[j] == planned_step(
            uri_view(bs[j]),
        ) by {
            if j > 0 {
                assert(t[j - 1] == bs[j]);
            }
        }
    } else {
        assert(bs.skip(0) =~= bs);
        assert(bs.take(0) =~= Seq::<Buffer>::empty());
    }
}

/// Plans the loading of every buffer of a document, in order, as
/// [`planned_steps`] describes: one step per buffer, up to the first buffer
/// whose URI cannot be loaded.
pub fn plan_buffers(bs: &Vec<Buffer>) -> (r: Vec<BufferStep>)
    ensures
        r@.len() == planned_steps(bs@).len(),
        forall|i: int| 0 <= i < r@.len() ==> step_is(#[trigger] r@[i], planned_steps(bs@)[i]),
{
    let mut out: Vec<BufferStep> = Vec::new();
    let mut i: usize = 0;
    while i < bs.len()
        invariant
            i <= bs@.len(),
            out@.len() == i,
            forall|j: int| 0 <= j < i ==> !(planned_step(uri_view(bs@[j])) is Stop),
            forall|j: int| 0 <= j < i ==> step_is(#[trigger] out@[j], planned_step(uri_view(bs@[j]))),
        decreases bs@.len() - i,
    {
        let uri = match &bs[i].uri {
            Some(u) => Some(u.as_str()),
            None => None,
        };
        let step = plan_buffer(uri);
        if let BufferStep::Stop = step {
            proof {
                lemma_planned_steps_prefix(bs@, i as int);
                let rest = bs@.skip(i as int);
                assert(rest[0] == bs@[i as int]);
                assert(planned_steps(rest) =~= seq![]);
                assert(planned_steps(bs@) =~= planned_steps(bs@.take(i as int)));
            }
            return out;
        }
        out.push(step);
        i = i + 1;
    }
    proof {
        if i > 0 {
            lemma_planned_steps_prefix(bs@, (i - 1) as int);
            let rest = bs@.skip(i - 1);
            assert(rest[0] == bs@[i - 1]);
            assert(rest.drop_first() =~= Seq::<Buffer>::empty());
            assert(planned_steps(rest.drop_first()) =~= seq![]);
            assert(planned_steps(bs@).len() == i);
            assert forall|j: int| 0 <= j < i implies planned_steps(bs@)[j] == planned_step(uri_view(bs@[j])) by {
                if j == i - 1 {
                    assert(planned_steps(bs@)[j] == planned_steps(rest)[0]);
                } else {
                    assert(planned_steps(bs@)[j] == planned_steps(bs@.take(i - 1))[j]);
                }
            }
        }
    }
    out
}

} // verus!
