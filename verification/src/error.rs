use vstd::prelude::*;
use vstd::std_specs::convert::FromSpecImpl;

verus! {

/// An error raised while reading or checking a glTF document; it carries a
/// human-readable description.
#[derive(Debug)]
pub struct GltfError {
    details: String,
}

impl View for GltfError {
    type V = Seq<char>;

    closed spec fn view(&self) -> Seq<char> {
        self.details@
    }
}

impl GltfError {
    /// An error whose description is `details`.
    pub fn from_text(details: &str) -> (e: GltfError)
        ensures
            e@ == details@,
    {
        GltfError { details: String::from_str(details) }
    }

    /// An error whose description is `details`, taking ownership of it.
    pub fn from_string(details: String) -> (e: GltfError)
        ensures
            e@ == details@,
    {
        GltfError { details }
    }

    /// The description of this error, as its `Display` rendering shows it.
    pub fn to_string(&self) -> (s: String)
        ensures
            s@ == self@,
    {
        self.details.clone()
    }
}

impl<'a> From<&'a str> for GltfError {
    fn from(value: &'a str) -> (r: Self)
        ensures
            r@ == value@,
    {
        GltfError::from_text(value)
    }
}

impl<'a> FromSpecImpl<&'a str> for GltfError {
    open spec fn obeys_from_spec() -> bool {
        false
    }

    open spec fn from_spec(v: &'a str) -> Self {
        arbitrary()
    }
}

impl From<String> for GltfError {
    fn from(value: String) -> (r: Self)
        ensures
            r@ == value@,
    {
        GltfError::from_string(value)
    }
}

impl FromSpecImpl<String> for GltfError {
    open spec fn obeys_from_spec() -> bool {
        false
    }

    open spec fn from_spec(v: String) -> Self {
        arbitrary()
    }
}

} // verus!
