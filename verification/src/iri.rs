use vstd::prelude::*;

verus! {

/// Whether `iref` accepts `s` as an IRI path: the `ipath` production of
/// RFC 3987 as the `iref` crate's grammar compiles it.
pub uninterp spec fn iref_accepts_path(s: Seq<char>) -> bool;

/// The message `iref` gives when it refuses `s` as an IRI path.
pub open spec fn invalid_path_message(s: Seq<char>) -> Seq<char> {
    "Invalid IRI path `"@ + s + "`"@
}

/// Calls `iref::iri::Path::new` on `s`. Whether it succeeds is the `iref`
/// grammar's verdict, which is left to the name `iref_accepts_path`; on
/// failure the error's `Display` text is `Invalid IRI path `<s>``, as the
/// error type that `static-regular-grammar` generates writes it.
#[verifier::external_body]
pub(crate) fn iri_path_error(s: &str) -> (r: Option<String>)
    ensures
        r is None <==> iref_accepts_path(s@),
        r matches Some(m) ==> m@ == invalid_path_message(s@),
{
    match iref::iri::Path::new(s) {
        Ok(_) => None,
        Err(e) => Some(e.to_string()),
    }
}

/// Whether `iri-string` accepts `s` as an IRI reference (RFC 3987
/// `IRI-reference`), as its parser decides.
pub uninterp spec fn iri_string_accepts_reference(s: Seq<char>) -> bool;

/// Calls `iri_string::types::IriReferenceStr::new` on `s` and reports whether
/// it succeeds; the verdict is left to the name `iri_string_accepts_reference`.
#[verifier::external_body]
pub(crate) fn iri_reference_is_valid(s: &str) -> (r: bool)
    ensures
        r == iri_string_accepts_reference(s@),
{
    iri_string::types::IriReferenceStr::new(s).is_ok()
}

/// The scheme that `iri-string` finds in `s` when it parses it as an IRI
/// reference; `None` where it has none or is not an IRI reference.
pub uninterp spec fn iri_string_scheme(s: Seq<char>) -> Option<Seq<char>>;

/// Calls `iri_string::types::IriReferenceStr::new` on `s` and, where that
/// succeeds, `scheme_str` on the result; the scheme it finds is left to the
/// name `iri_string_scheme`.
#[verifier::external_body]
pub(crate) fn iri_reference_scheme(s: &str) -> (r: Option<String>)
    ensures
        match iri_string_scheme(s@) {
            Some(t) => r matches Some(x) && x@ == t,
            None => r is None,
        },
{
    match iri_string::types::IriReferenceStr::new(s) {
        Ok(iri) => iri.scheme_str().map(String::from),
        Err(_) => None,
    }
}

/// The text of `s` percent-encoded as an IRI path by `iri-string`.
pub uninterp spec fn percent_encoded_path(s: Seq<char>) -> Seq<char>;

/// Calls `iri_string::percent_encode::PercentEncoded::<_, IriSpec>::from_path`
/// on `s` and renders the result with `to_string`; the text it gives is left
/// to the name `percent_encoded_path`.
#[verifier::external_body]
pub(crate) fn percent_encode_path(s: String) -> (r: String)
    ensures
        r@ == percent_encoded_path(s@),
{
    iri_string::percent_encode::PercentEncoded::<_, iri_string::spec::IriSpec>::from_path(s).to_string()
}

} // verus!
