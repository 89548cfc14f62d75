//! Declarations of lint rules: what the head of a rule's declaration says,
//! and what is made of it.

use vstd::prelude::*;
use vstd::string::{StrSliceExecFns, StringExecFns};

use crate::text::text_is;

verus! {

/// The categories a rule can be filed under.
#[derive(Clone, Copy, Debug, PartialEq, Eq, Structural)]
pub enum RuleCategory {
    Correctness,
    Suspicious,
    Pedantic,
    Perf,
    Style,
    Restriction,
    Nursery,
}

/// Why a rule's declaration is refused.
#[derive(Clone, Copy, Debug, PartialEq, Eq, Structural)]
pub enum LintError {
    /// An attribute other than a doc comment stands on the rule.
    UnexpectedAttribute,
    /// The category is none of those that exist.
    InvalidCategory,
}

/// An attribute as it was read: a path, and the string it is set to where
/// it has the form `path = "string"`.
#[derive(Clone, Debug, PartialEq, Eq)]
pub struct Attribute {
    pub path: Vec<String>,
    pub literal: Option<String>,
}

/// The head of a rule's declaration.
#[derive(Clone, Debug, PartialEq, Eq)]
pub struct LintRuleMeta {
    pub name: String,
    pub category: String,
    /// The type that describes the rule's configuration, if it has one.
    pub schema: Option<String>,
    pub documentation: String,
    pub used_in_test: bool,
}

/// What is made of a rule's declaration.
#[derive(Clone, Debug, PartialEq, Eq)]
pub struct RuleDeclaration {
    pub name: String,
    /// The name under which the rule is listed: `NoDebugger` is listed as
    /// `no-debugger`.
    pub canonical_name: String,
    pub category: RuleCategory,
    /// Whether the declaration has to import the rule traits itself.
    pub imports_rule_items: bool,
    pub schema: Option<String>,
    pub documentation: String,
}

/// A name in kebab case, as `convert_case` writes it.
pub uninterp spec fn kebab_case(name: Seq<char>) -> Seq<char>;

/// Whether two paths are the same, segment by segment.
pub open spec fn same_path(a: Seq<String>, b: Seq<String>) -> bool {
    a.len() == b.len() && forall|i: int| 0 <= i < a.len() ==> a[i]@ == b[i]@
}

/// `convert_case::Casing::to_case` with `Case::Kebab`: the name split into
/// words, in lower case, joined by hyphens. The result depends on the name
/// alone; the contract gives it a name and says no more.
#[verifier::external_body]
fn to_kebab(name: &str) -> (r: String)
    ensures
        r@ == kebab_case(name@),
{
    convert_case::Casing::to_case(&name, convert_case::Case::Kebab)
}

/// `itertools::equal` on two paths: true where both have the same number
/// of segments and the segments are equal one by one.
#[verifier::external_body]
fn paths_equal(a: &Vec<String>, b: &Vec<String>) -> (r: bool)
    ensures
        r == same_path(a@, b@),
{
    itertools::equal(a, b)
}

/// The category of that name.
pub open spec fn category_named(name: Seq<char>) -> Option<RuleCategory> {
    if name == "correctness"@ {
        Some(RuleCategory::Correctness)
    } else if name == "suspicious"@ {
        Some(RuleCategory::Suspicious)
    } else if name == "pedantic"@ {
        Some(RuleCategory::Pedantic)
    } else if name == "perf"@ {
        Some(RuleCategory::Perf)
    } else if name == "style"@ {
        Some(RuleCategory::Style)
    } else if name == "restriction"@ {
        Some(RuleCategory::Restriction)
    } else if name == "nursery"@ {
        Some(RuleCategory::Nursery)
    } else {
        None
    }
}

/// The category of that name, if there is one.
pub fn category_of(name: &String) -> (r: Option<RuleCategory>)
    ensures
        r == category_named(name@),
{
    if text_is(name, "correctness") {
        Some(RuleCategory::Correctness)
    } else if text_is(name, "suspicious") {
        Some(RuleCategory::Suspicious)
    } else if text_is(name, "pedantic") {
        Some(RuleCategory::Pedantic)
    } else if text_is(name, "perf") {
        Some(RuleCategory::Perf)
    } else if text_is(name, "style") {
        Some(RuleCategory::Style)
    } else if text_is(name, "restriction") {
        Some(RuleCategory::Restriction)
    } else if text_is(name, "nursery") {
        Some(RuleCategory::Nursery)
    } else {
        None
    }
}

/// The string an attribute is set to, where it has the path asked for.
pub open spec fn attr_literal(path: Seq<String>, attr: Attribute) -> Option<String> {
    if same_path(attr.path@, path) {
        attr.literal
    } else {
        None
    }
}

/// The string an attribute is set to, where it has the path asked for.
pub fn parse_attr<'a>(path: &Vec<String>, attr: &'a Attribute) -> (r: Option<&'a String>)
    ensures
        match attr_literal(path@, *attr) {
            Some(s) => r == Some(&s),
            None => r is None,
        },
{
    if paths_equal(&attr.path, path) {
        match &attr.literal {
            Some(s) => Some(s),
            None => None,
        }
    } else {
        None
    }
}

/// A line of a doc comment without the blank that follows the slashes.
pub open spec fn doc_line(value: Seq<char>) -> Seq<char> {
    if value.len() > 0 && value[0] == ' ' {
        value.subrange(1, value.len() as int)
    } else {
        value
    }
}

/// The doc path: the single segment `doc`.
pub open spec fn is_doc_path(path: Seq<String>) -> bool {
    path.len() == 1 && path[0]@ == "doc"@
}

/// Whether the first `k` attributes are all doc comments.
pub open spec fn all_docs(attrs: Seq<Attribute>, k: nat) -> bool {
    forall|i: int|
        0 <= i < k && i < attrs.len() ==> is_doc_path((#[trigger] attrs[i]).path@)
            && attrs[i].literal is Some
}

/// The documentation that the first `k` attributes make: their lines, each
/// ended by a line feed.
pub open spec fn doc_text(attrs: Seq<Attribute>, k: nat) -> Seq<char>
    decreases k,
{
    if k == 0 || k > attrs.len() {
        Seq::empty()
    } else {
        doc_text(attrs, (k - 1) as nat) + (match attrs[k - 1].literal {
            Some(s) => doc_line(s@),
            None => Seq::empty(),
        }) + "\n"@
    }
}

/// Append a line of a doc comment to the documentation.
fn push_doc_line(documentation: &mut String, value: &String)
    ensures
        final(documentation)@ == old(documentation)@ + doc_line(value@) + "\n"@,
{
    let text = value.as_str();
    let n = text.unicode_len();
    if n > 0 && text.get_char(0) == ' ' {
        documentation.append(text.substring_char(1, n));
    } else {
        documentation.append(text);
    }
    documentation.append("\n");
}

impl LintRuleMeta {
    /// Put the head of a declaration together: the doc comments become the
    /// documentation, and any other attribute is refused.
    pub fn parse(
        attrs: &Vec<Attribute>,
        name: String,
        category: String,
        schema: Option<String>,
    ) -> (r: Result<LintRuleMeta, LintError>)
        ensures
            match r {
                Ok(meta) => all_docs(attrs@, attrs@.len()) && meta.name == name && meta.category
                    == category && meta.schema == schema && meta.documentation@ == doc_text(
                    attrs@,
                    attrs@.len(),
                ) && !meta.used_in_test,
                Err(e) => !all_docs(attrs@, attrs@.len()) && e == LintError::UnexpectedAttribute,
            },
    {
        let mut doc_path: Vec<String> = Vec::new();
        doc_path.push(String::from_str("doc"));
        let mut documentation = String::new();
        let mut i: usize = 0;
        while i < attrs.len()
            invariant
                i <= attrs@.len(),
                doc_path@.len() == 1,
                doc_path@[0]@ == "doc"@,
                all_docs(attrs@, i as nat),
                documentation@ == doc_text(attrs@, i as nat),
            decreases attrs@.len() - i,
        {
            match parse_attr(&doc_path, &attrs[i]) {
                Some(value) => {
                    push_doc_line(&mut documentation, value);
                },
                None => {
                    assert(!(is_doc_path(attrs@[i as int].path@) && attrs@[i as int].literal is Some));
                    return Err(LintError::UnexpectedAttribute);
                },
            }
            i += 1;
        }
        Ok(LintRuleMeta { name, category, schema, documentation, used_in_test: false })
    }
}

/// What is made of a declaration whose name in kebab case is at hand.
pub fn declare_named(metadata: LintRuleMeta, canonical_name: String) -> (r: Result<
    RuleDeclaration,
    LintError,
>)
    ensures
        match category_named(metadata.category@) {
            Some(category) => r matches Ok(d) && d.name == metadata.name && d.canonical_name
                == canonical_name && d.category == category && d.imports_rule_items
                == !metadata.used_in_test && d.schema == metadata.schema && d.documentation
                == metadata.documentation,
            None => r matches Err(e) && e == LintError::InvalidCategory,
        },
{
    match category_of(&metadata.category) {
        Some(category) => Ok(
            RuleDeclaration {
                name: metadata.name,
                canonical_name,
                category,
                imports_rule_items: !metadata.used_in_test,
                schema: metadata.schema,
                documentation: metadata.documentation,
            },
        ),
        None => Err(LintError::InvalidCategory),
    }
}

/// What is made of a declaration: the rule is listed under its name in
/// kebab case and filed under its category; a category that does not exist
/// is refused.
pub fn declare_oxc_lint(metadata: LintRuleMeta) -> (r: Result<RuleDeclaration, LintError>)
    ensures
        match category_named(metadata.category@) {
            Some(category) => r matches Ok(d) && d.name == metadata.name && d.canonical_name@
                == kebab_case(metadata.name@) && d.category == category && d.imports_rule_items
                == !metadata.used_in_test && d.schema == metadata.schema && d.documentation
                == metadata.documentation,
            None => r matches Err(e) && e == LintError::InvalidCategory,
        },
{
    let canonical_name = to_kebab(metadata.name.as_str());
    declare_named(metadata, canonical_name)
}

} // verus!
