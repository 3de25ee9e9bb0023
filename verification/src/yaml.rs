//! Structured text going out: a mapping from keys to scalars, written as
//! YAML by `serde_yml`.

use vstd::prelude::*;

verus! {

/// A YAML scalar: null, an integer or a string.
#[derive(Debug, Clone, PartialEq, Eq)]
pub enum Scalar {
    Null,
    Integer(i64),
    Text(String),
}

/// A `Scalar` as a mathematical value.
pub enum ScalarView {
    Null,
    Integer(int),
    Text(Seq<char>),
}

impl View for Scalar {
    type V = ScalarView;

    open spec fn view(&self) -> ScalarView {
        match self {
            Scalar::Null => ScalarView::Null,
            Scalar::Integer(n) => ScalarView::Integer(*n as int),
            Scalar::Text(s) => ScalarView::Text(s@),
        }
    }
}

/// The entries of a mapping, each key and value as a mathematical value.
pub open spec fn entries_view(entries: Seq<(String, Scalar)>) -> Seq<(Seq<char>, ScalarView)> {
    entries.map_values(|entry: (String, Scalar)| (entry.0@, entry.1@))
}

/// The error of `serde_yml`. Only its description is taken from it.
#[verifier::external_type_specification]
#[verifier::external_body]
pub struct ExYamlError(serde_yml::Error);

/// The YAML document that `serde_yml::to_string` writes for a mapping with
/// these entries, in this order; `None` where it reports an error.
pub uninterp spec fn yaml_text(entries: Seq<(Seq<char>, ScalarView)>) -> Option<Seq<char>>;

/// `serde_yml::to_string` on a `serde_yml::Mapping` that holds `entries` in
/// order: each key a string, each value null, a number or a string. The
/// contract claims one thing only, that the outcome depends on nothing but
/// the entries: the document is `yaml_text` of them, and an error comes
/// exactly where `yaml_text` is `None`.
#[verifier::external_body]
pub(crate) fn mapping_to_yaml(entries: &Vec<(String, Scalar)>) -> (written: Result<
    String,
    serde_yml::Error,
>)
    ensures
        match written {
            Ok(text) => yaml_text(entries_view(entries@)) == Some(text@),
            Err(_) => yaml_text(entries_view(entries@)) is None,
        },
{
    let mut mapping = serde_yml::Mapping::new();
    for (key, value) in entries {
        let value = match value {
            Scalar::Null => serde_yml::Value::Null,
            Scalar::Integer(n) => serde_yml::Value::Number((*n).into()),
            Scalar::Text(s) => serde_yml::Value::String(s.clone()),
        };
        mapping.insert(serde_yml::Value::String(key.clone()), value);
    }
    serde_yml::to_string(&mapping)
}

} // verus!
