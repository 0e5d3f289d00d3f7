//! What an operation tells the e-graph about itself, and what the e-graph
//! hands back.
use vstd::prelude::*;

use crate::dtype::DType;
use crate::host::hipblaslt::scalar::HostScalar;

verus! {

/// The sort of an e-graph term.
#[derive(Clone, Copy, Debug, PartialEq, Eq, Structural)]
pub enum SortClass {
    /// The kind of an operation.
    OpKind,
    /// A symbolic integer expression.
    Expression,
    /// A string.
    Text,
    /// An element type.
    Dtype,
    /// A floating-point number.
    Float,
}

/// The declaration of a term constructor: its result sort, its name and its
/// fields in order.
#[derive(Debug)]
pub struct SortDef {
    pub class: SortClass,
    pub name: &'static str,
    pub fields: Vec<(&'static str, SortClass)>,
}

/// The names and sorts of declared fields.
pub open spec fn field_views(fields: Seq<(&'static str, SortClass)>) -> Seq<
    (Seq<char>, SortClass),
> {
    fields.map_values(|field: (&'static str, SortClass)| (field.0@, field.1))
}

impl SortDef {
    /// Whether this declares an operation kind of that name with those fields.
    pub open spec fn declares(
        self,
        name: Seq<char>,
        fields: Seq<(Seq<char>, SortClass)>,
    ) -> bool {
        &&& self.class == SortClass::OpKind
        &&& self.name@ == name
        &&& field_views(self.fields@) == fields
    }
}

/// A child of an operation's kind term, read out of the e-graph. `E` is the
/// type of symbolic expressions.
#[derive(Debug)]
pub enum KindChild<E> {
    /// A symbolic expression.
    Expr(E),
    /// An element type.
    Dtype(DType),
    /// A string, with the quotes that the e-graph keeps around it.
    Text(String),
    /// A number: its literal, and its value unless the literal is none.
    Scalar(String, Option<HostScalar>),
}

impl<E> KindChild<E> {
    /// Whether the child is a term of this sort.
    pub open spec fn has_sort(self, class: SortClass) -> bool {
        match class {
            SortClass::OpKind => false,
            SortClass::Expression => self is Expr,
            SortClass::Text => self is Text,
            SortClass::Dtype => self is Dtype,
            SortClass::Float => self is Scalar,
        }
    }

    /// Whether the child is a term of this sort.
    pub fn fits(&self, class: SortClass) -> (r: bool)
        ensures
            r == self.has_sort(class),
    {
        match (class, self) {
            (SortClass::Expression, KindChild::Expr(_)) => true,
            (SortClass::Text, KindChild::Text(_)) => true,
            (SortClass::Dtype, KindChild::Dtype(_)) => true,
            (SortClass::Float, KindChild::Scalar(_, _)) => true,
            _ => false,
        }
    }
}

/// The children are terms of the sorts that the fields declare.
pub open spec fn well_sorted<E>(
    children: Seq<KindChild<E>>,
    fields: Seq<(Seq<char>, SortClass)>,
) -> bool {
    &&& children.len() >= fields.len()
    &&& forall|i: int|
        0 <= i < fields.len() ==> (#[trigger] children[i]).has_sort(fields[i].1)
}

/// Whether the children are terms of the sorts that `sort` declares.
pub fn is_well_sorted<E>(children: &[KindChild<E>], sort: &SortDef) -> (r: bool)
    ensures
        r == well_sorted(children@, field_views(sort.fields@)),
{
    let fields = &sort.fields;
    if children.len() < fields.len() {
        return false;
    }
    let mut i: usize = 0;
    while i < fields.len()
        invariant
            i <= fields.len() <= children.len(),
            fields == &sort.fields,
            forall|j: int|
                0 <= j < i ==> (#[trigger] children@[j]).has_sort(
                    field_views(sort.fields@)[j].1,
                ),
        decreases fields.len() - i,
    {
        let class = fields[i].1;
        assert(field_views(sort.fields@)[i as int].1 == class);
        if !children[i].fits(class) {
            assert(!children@[i as int].has_sort(field_views(sort.fields@)[i as int].1));
            return false;
        }
        i += 1;
    }
    true
}

/// The expression at `at`.
pub open spec fn expr_at<E>(children: Seq<KindChild<E>>, at: int) -> E {
    children[at]->Expr_0
}

/// The text at `at`, quotes included.
pub open spec fn text_at<E>(children: Seq<KindChild<E>>, at: int) -> Seq<char> {
    children[at]->Text_0@
}

/// The element type at `at`.
pub open spec fn dtype_at<E>(children: Seq<KindChild<E>>, at: int) -> DType {
    children[at]->Dtype_0
}

/// The literal at `at`.
pub open spec fn literal_at<E>(children: Seq<KindChild<E>>, at: int) -> Seq<char> {
    children[at]->Scalar_0@
}

/// The value of the literal at `at`.
pub open spec fn scalar_at<E>(children: Seq<KindChild<E>>, at: int) -> Option<HostScalar> {
    children[at]->Scalar_1
}

/// The expression at `at`.
pub fn expr_child<E: Copy>(children: &[KindChild<E>], at: usize) -> (r: E)
    requires
        at < children@.len(),
        children@[at as int] is Expr,
    ensures
        r == expr_at(children@, at as int),
{
    match &children[at] {
        KindChild::Expr(expr) => *expr,
        _ => unreached(),
    }
}

/// The text at `at`, quotes included.
pub fn text_child<E>(children: &[KindChild<E>], at: usize) -> (r: &str)
    requires
        at < children@.len(),
        children@[at as int] is Text,
    ensures
        r@ == text_at(children@, at as int),
{
    match &children[at] {
        KindChild::Text(text) => text.as_str(),
        _ => unreached(),
    }
}

/// The element type at `at`.
pub fn dtype_child<E>(children: &[KindChild<E>], at: usize) -> (r: DType)
    requires
        at < children@.len(),
        children@[at as int] is Dtype,
    ensures
        r == dtype_at(children@, at as int),
{
    match &children[at] {
        KindChild::Dtype(dtype) => *dtype,
        _ => unreached(),
    }
}

/// The literal at `at`, and its value.
pub fn scalar_child<E>(children: &[KindChild<E>], at: usize) -> (r: (&str, Option<HostScalar>))
    requires
        at < children@.len(),
        children@[at as int] is Scalar,
    ensures
        r.0@ == literal_at(children@, at as int),
        r.1 == scalar_at(children@, at as int),
{
    match &children[at] {
        KindChild::Scalar(literal, value) => (literal.as_str(), *value),
        _ => unreached(),
    }
}

/// A set of rewrite rules.
#[derive(Debug, Clone, Copy)]
pub enum RuleSource {
    /// The rules themselves.
    Inline(&'static str),
    /// The rules in the source file of this name.
    File(&'static str),
}

impl RuleSource {
    /// Whether these are the rules of the file, or else the rules themselves;
    /// with the name or the rules.
    pub open spec fn content(self) -> (bool, Seq<char>) {
        match self {
            RuleSource::Inline(rules) => (false, rules@),
            RuleSource::File(name) => (true, name@),
        }
    }
}

/// The contents of a list of rule sets.
pub open spec fn rule_contents(rules: Seq<RuleSource>) -> Seq<(bool, Seq<char>)> {
    rules.map_values(|rule: RuleSource| rule.content())
}

} // verus!
