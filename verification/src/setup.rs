//! What is settled before the loop starts: the task is put into its
//! template, the model is looked up among those the service lists, and the
//! credential is asked for.

use crate::error::{BackendError, BackendErrorView};
use crate::text::same_text;
use vstd::prelude::*;
use vstd::string::{StringExecFns, StringSliceAdditionalSpecFns};

verus! {

/// The error of `handlebars`. Only its description is taken from it.
#[verifier::external_type_specification]
#[verifier::external_body]
pub struct ExRenderError(handlebars::RenderError);

/// A byte that may stand inside a plain tag: an ASCII letter or digit, an
/// underscore, a space, a tab, a line feed or a carriage return.
pub open spec fn is_name_byte(b: u8) -> bool {
    ||| 0x30 <= b <= 0x39
    ||| 0x41 <= b <= 0x5a
    ||| 0x61 <= b <= 0x7a
    ||| b == 0x5f
    ||| b == 0x20
    ||| b == 0x09
    ||| b == 0x0a
    ||| b == 0x0d
}

/// Two opening braces stand at `i`.
pub open spec fn opens_at(template: Seq<u8>, i: int) -> bool {
    0 <= i && i + 1 < template.len() && template[i] == 0x7b && template[i + 1] == 0x7b
}

/// Two closing braces stand at `k`.
pub open spec fn closes_at(template: Seq<u8>, k: int) -> bool {
    0 <= k && k + 1 < template.len() && template[k] == 0x7d && template[k + 1] == 0x7d
}

/// The tag opened at `i` is closed at `k`, with nothing but name bytes
/// between the braces.
pub open spec fn plain_tag(template: Seq<u8>, i: int, k: int) -> bool {
    &&& i + 2 <= k
    &&& closes_at(template, k)
    &&& forall|j: int| i + 2 <= j < k ==> is_name_byte(#[trigger] template[j])
}

/// `template`, as UTF-8, holds text and plain tags only: wherever two
/// opening braces stand, two closing braces follow, with nothing but name
/// bytes between. Such a template holds no block, no partial, no decorator,
/// no subexpression and no literal, so nothing in it is nested.
pub open spec fn is_plain_template(template: Seq<u8>) -> bool {
    forall|i: int| #[trigger]
        opens_at(template, i) ==> exists|k: int| plain_tag(template, i, k)
}

/// Whether `b` is a name byte.
fn byte_is_name(b: u8) -> (name: bool)
    ensures
        name == is_name_byte(b),
{
    (0x30 <= b && b <= 0x39) || (0x41 <= b && b <= 0x5a) || (0x61 <= b && b <= 0x7a) || b == 0x5f
        || b == 0x20 || b == 0x09 || b == 0x0a || b == 0x0d
}

/// Whether `template` holds text and plain tags only.
pub fn is_plain(template: &str) -> (plain: bool)
    ensures
        plain == is_plain_template(template.spec_bytes()),
{
    let bytes = template.as_bytes();
    let n: usize = bytes.len();
    let mut i: usize = 0;
    while i < n
        invariant
            n == bytes@.len(),
            bytes@ == template.spec_bytes(),
            i <= n,
            forall|p: int| 0 <= p < i && #[trigger] opens_at(bytes@, p) ==> exists|k: int|
                plain_tag(bytes@, p, k),
        decreases n - i,
    {
        if n - i >= 2 && bytes[i] == 0x7b && bytes[i + 1] == 0x7b {
            let mut k: usize = i + 2;
            while k < n && byte_is_name(bytes[k])
                invariant
                    n == bytes@.len(),
                    i + 2 <= k <= n,
                    forall|j: int| i + 2 <= j < k ==> is_name_byte(#[trigger] bytes@[j]),
                decreases n - k,
            {
                k = k + 1;
            }
            if n - k >= 2 && bytes[k] == 0x7d && bytes[k + 1] == 0x7d {
                assert(plain_tag(bytes@, i as int, k as int));
                assert forall|p: int| i < p < k implies !opens_at(bytes@, p) by {
                    assert(p + 1 < k ==> is_name_byte(bytes@[p + 1]));
                }
                i = k;
            } else {
                assert forall|c: int| !plain_tag(bytes@, i as int, c) by {
                    if plain_tag(bytes@, i as int, c) {
                        assert(c < k ==> is_name_byte(bytes@[c]));
                        assert(c > k ==> is_name_byte(bytes@[k as int]));
                    }
                }
                assert(opens_at(bytes@, i as int));
                return false;
            }
        } else {
            i = i + 1;
        }
    }
    true
}

/// The text that `handlebars` makes of `template` when the one variable
/// `name` stands for `value` and nothing is escaped; `None` where it reports
/// an error.
pub uninterp spec fn expansion(template: Seq<char>, name: Seq<char>, value: Seq<char>) -> Option<
    Seq<char>,
>;

/// `Handlebars::render_template` in a registry as `Handlebars::new` makes
/// it, but for the escape function, which is `handlebars::no_escape`, on data
/// that holds the one entry `name`: `value`. The template must be plain:
/// a template that declares an inline partial can include it in itself
/// without end, and the reader descends once for each level of a nested
/// block, subexpression or literal. In a plain template nothing is declared
/// and nothing is nested. For such templates the contract claims one thing
/// only, that the outcome depends on nothing but the three texts: what is
/// rendered is `expansion` of them, and an error comes exactly where
/// `expansion` is `None`.
#[verifier::external_body]
fn expand(template: &str, name: &str, value: &str) -> (expanded: Result<
    String,
    handlebars::RenderError,
>)
    requires
        is_plain_template(template.spec_bytes()),
    ensures
        match expanded {
            Ok(text) => expansion(template@, name@, value@) == Some(text@),
            Err(_) => expansion(template@, name@, value@) is None,
        },
{
    let mut registry = handlebars::Handlebars::new();
    registry.register_escape_fn(handlebars::no_escape);
    let values = std::collections::HashMap::from([(name, value)]);
    registry.render_template(template, &values)
}

/// Why a template could not be expanded.
#[derive(Debug, Clone, PartialEq, Eq)]
pub struct TemplateError {
    /// The cause: that the template is not plain, or the template engine's
    /// description.
    pub cause: String,
}

/// The name of the one variable that a task template may use.
pub open spec fn task_variable() -> Seq<char> {
    "task"@
}

/// The cause given for a template that is not plain.
pub open spec fn not_plain_cause() -> Seq<char> {
    "the template holds more than text and plain tags"@
}

/// The task put into its template: the variable `task` stands for the task
/// text, which is inserted as it is. A template that is not plain is an
/// error, and so is one that the template engine rejects.
pub fn render_task(template: &str, task: &str) -> (expanded: Result<String, TemplateError>)
    ensures
        match expanded {
            Ok(text) => is_plain_template(template.spec_bytes()) && expansion(
                template@,
                task_variable(),
                task@,
            ) == Some(text@),
            Err(error) => if is_plain_template(template.spec_bytes()) {
                expansion(template@, task_variable(), task@) is None
            } else {
                error.cause@ == not_plain_cause()
            },
        },
{
    if !is_plain(template) {
        return Err(
            TemplateError {
                cause: String::from_str("the template holds more than text and plain tags"),
            },
        );
    }
    match expand(template, "task", task) {
        Ok(text) => Ok(text),
        Err(error) => Err(TemplateError { cause: error.to_string() }),
    }
}

/// The variable of the process environment that holds the API key of the
/// hosted service.
pub const API_KEY_VARIABLE: &'static str = "OPENROUTER_API_KEY";

/// The endpoint of the hosted service where none is given.
pub const DEFAULT_ENDPOINT: &'static str = "https://openrouter.ai/api/v1";

/// Whether one of `listed` is `model`.
pub open spec fn is_listed(listed: Seq<String>, model: Seq<char>) -> bool {
    exists|i: int| 0 <= i < listed.len() && (#[trigger] listed[i])@ == model
}

/// Looks `model` up among the models that the service lists.
pub fn require_listed(listed: &Vec<String>, model: &str) -> (found: Result<(), BackendError>)
    ensures
        found is Ok <==> is_listed(listed@, model@),
        found matches Err(error) ==> error@ == BackendErrorView::ModelNotFound(model@),
{
    let mut i: usize = 0;
    while i < listed.len()
        invariant
            i <= listed.len(),
            forall|k: int| 0 <= k < i ==> (#[trigger] listed@[k])@ != model@,
        decreases listed.len() - i,
    {
        if same_text(listed[i].as_str(), model) {
            return Ok(());
        }
        i = i + 1;
    }
    Err(BackendError::ModelNotFound(String::from_str(model)))
}

/// The API key, where one was supplied.
pub fn require_credential(api_key: Option<String>) -> (key: Result<String, BackendError>)
    ensures
        match key {
            Ok(key) => api_key == Some(key),
            Err(error) => api_key is None && error@ == BackendErrorView::MissingCredential,
        },
{
    match api_key {
        Some(key) => Ok(key),
        None => Err(BackendError::MissingCredential),
    }
}

} // verus!
