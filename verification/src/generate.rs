//! The generator: from a record declaration to a row-producing
//! implementation, and the rendering of record values under it.

use vstd::pervasive::unreached;
use vstd::prelude::*;

use crate::header::HeaderError;
use crate::header::parse_header_attr;
use crate::schema::{
    extract_field_names, extract_types, field_label, first_header_attr, get_field_header_name,
    named_fields, type_head, DeriveError, Field, TypeDecl,
};
use crate::text::{int_text, int_to_string, views_of};

verus! {

/// The per-field part of a generated implementation: which field to read
/// and whether to render it under the optional-field rule.
pub struct FieldPlan {
    /// The field's identifier.
    pub name: String,
    /// Whether the field's declared type is the optional wrapper.
    pub optional: bool,
}

/// A generated row-producing implementation for one record type: the
/// header labels and, for each field in declaration order, how its
/// values are rendered.
pub struct TableImpl {
    /// The record type's identifier.
    pub record_name: String,
    /// The header labels, one per field, in declaration order.
    pub headers: Vec<String>,
    /// The per-field rendering plan, in declaration order.
    pub fields: Vec<FieldPlan>,
}

/// Whether a field's declared type is the optional wrapper.
pub open spec fn field_optional(f: Field) -> bool {
    type_head(f.ty) == Some("Option"@)
}

/// Whether a generated implementation is the one the declaration calls
/// for: one header label and one field plan per field, in declaration
/// order; each label the field's own (possibly overridden) label; and the
/// optional rule applied exactly to the fields whose declared type is the
/// optional wrapper.
pub open spec fn plan_matches(decl: TypeDecl, plan: TableImpl) -> bool {
    named_fields(decl.data) matches Some(fs) && {
        &&& plan.record_name@ == decl.name@
        &&& plan.headers@.len() == fs.len()
        &&& plan.fields@.len() == fs.len()
        &&& forall|i: int|
            0 <= i < fs.len() ==> field_label(#[trigger] fs[i]) == Ok::<
                Seq<char>,
                HeaderError,
            >(plan.headers@[i]@)
        &&& forall|i: int| 0 <= i < fs.len() ==> (#[trigger] plan.fields@[i]).name@ == fs[i].name@
        &&& forall|i: int|
            0 <= i < fs.len() ==> (#[trigger] plan.fields@[i]).optional == field_optional(fs[i])
    }
}

/// Whether a declaration admits a generated implementation: a struct with
/// named fields, every field's type a plain path, and every header
/// annotation well formed.
pub open spec fn derivable(decl: TypeDecl) -> bool {
    named_fields(decl.data) matches Some(fs) && (forall|i: int|
        0 <= i < fs.len() ==> type_head(#[trigger] fs[i].ty) is Some) && (forall|i: int|
        0 <= i < fs.len() ==> field_label(#[trigger] fs[i]) is Ok)
}

/// Which error generation reports: an unsupported declaration shape
/// first, then a field type that is not a plain path, then the first
/// field whose header annotation fails to parse, with its cause.
pub open spec fn derive_error_matches(decl: TypeDecl, e: DeriveError) -> bool {
    match named_fields(decl.data) {
        None => e == DeriveError::UnsupportedShape,
        Some(fs) => if !(forall|i: int|
            0 <= i < fs.len() ==> type_head(#[trigger] fs[i].ty) is Some) {
            e == DeriveError::UnsupportedFieldType
        } else {
            e matches DeriveError::InvalidHeader { field, cause } && 0 <= (field as int)
                < fs.len() && field_label(fs[field as int]) == Err::<
                Seq<char>,
                HeaderError,
            >(cause) && (forall|k: int|
                0 <= k < field as int ==> field_label(#[trigger] fs[k]) is Ok)
        },
    }
}

/// Generates the row-producing implementation for a record declaration:
/// the header labels (override or field name, in declaration order) and
/// the per-field rendering plan. A declaration without named fields, a
/// field type that is not a plain path, or a malformed header annotation
/// is rejected with the error saying so.
pub fn derive(input: &TypeDecl) -> (r: Result<TableImpl, DeriveError>)
    ensures
        r matches Ok(plan) ==> plan_matches(*input, plan),
        r is Ok <==> derivable(*input),
        r matches Err(e) ==> derive_error_matches(*input, e),
{
    let fields = match extract_field_names(&input.data) {
        Ok(fs) => fs,
        Err(e) => {
            return Err(e);
        },
    };
    let heads = match extract_types(fields) {
        Ok(hs) => hs,
        Err(e) => {
            return Err(e);
        },
    };
    let n = fields.len();
    let mut headers: Vec<String> = Vec::new();
    let mut plans: Vec<FieldPlan> = Vec::new();
    let option_word = String::from_str("Option");
    let mut idx: usize = 0;
    while idx < n
        invariant
            n == fields@.len(),
            named_fields(input.data) == Some(fields@),
            heads@.len() == n,
            forall|i: int|
                0 <= i < n as int ==> type_head(#[trigger] fields@[i].ty) == Some(heads@[i]@),
            option_word@ == "Option"@,
            idx <= n,
            headers@.len() == idx,
            plans@.len() == idx,
            forall|i: int|
                0 <= i < idx as int ==> field_label(#[trigger] fields@[i]) == Ok::<
                    Seq<char>,
                    HeaderError,
                >(headers@[i]@),
            forall|i: int|
                0 <= i < idx as int ==> (#[trigger] plans@[i]).name@ == fields@[i].name@,
            forall|i: int|
                0 <= i < idx as int ==> (#[trigger] plans@[i]).optional == field_optional(
                    fields@[i],
                ),
        decreases n - idx,
    {
        let label = match get_field_header_name(&fields[idx]) {
            Ok(l) => l,
            Err(cause) => {
                return Err(DeriveError::InvalidHeader { field: idx, cause });
            },
        };
        headers.push(label);
        let optional = heads[idx] == option_word;
        plans.push(FieldPlan { name: fields[idx].name.clone(), optional });
        idx += 1;
    }
    Ok(TableImpl { record_name: input.name.clone(), headers, fields: plans })
}

/// A displayable field value, as the generated row function renders it.
pub enum Value {
    /// A text value, rendered as itself.
    Text(String),
    /// An integer value, rendered in decimal.
    Int(i64),
}

/// The value one field of one record instance holds: a plain value, or
/// an optional one that may be absent.
pub enum FieldValue {
    /// The value of a plain (non-optional) field.
    Plain(Value),
    /// The value of an optional field: present or absent.
    Optional(Option<Value>),
}

/// The text of a plain value.
pub open spec fn value_text(v: Value) -> Seq<char> {
    match v {
        Value::Text(s) => s@,
        Value::Int(n) => int_text(n as int),
    }
}

/// The row entry for one field value: a plain or present value's text,
/// the empty string for an absent one.
pub open spec fn rendered(v: FieldValue) -> Seq<char> {
    match v {
        FieldValue::Plain(x) => value_text(x),
        FieldValue::Optional(ox) => match ox {
            Some(x) => value_text(x),
            None => Seq::empty(),
        },
    }
}

/// Whether a sequence of field values is a well-typed instance of a
/// generated implementation: one value per field, optional exactly where
/// the field is.
pub open spec fn instance_of(plan: TableImpl, values: Seq<FieldValue>) -> bool {
    values.len() == plan.fields@.len() && (forall|i: int|
        0 <= i < values.len() ==> ((#[trigger] values[i]) is Optional
            <==> plan.fields@[i].optional))
}

/// The whole row of an instance: each field value's rendering, in order.
pub open spec fn row_text(values: Seq<FieldValue>) -> Seq<Seq<char>> {
    values.map_values(|v: FieldValue| rendered(v))
}

/// The text of one plain value: the string itself, or the integer's
/// decimal rendering.
fn render_value(v: &Value) -> (s: String)
    ensures
        s@ == value_text(*v),
{
    match v {
        Value::Text(s) => s.clone(),
        Value::Int(n) => int_to_string(*n),
    }
}

/// The row of one record instance under a generated implementation: one
/// entry per field, in declaration order. A plain field's value renders
/// as its text; an optional field's as the present value's text, or as
/// the empty string when absent.
pub fn row_values(plan: &TableImpl, values: &Vec<FieldValue>) -> (r: Vec<String>)
    requires
        instance_of(*plan, values@),
    ensures
        r@.len() == values@.len(),
        views_of(r@) == row_text(values@),
{
    let n = values.len();
    let mut r: Vec<String> = Vec::new();
    let mut idx: usize = 0;
    while idx < n
        invariant
            instance_of(*plan, values@),
            n == values@.len(),
            idx <= n,
            r@.len() == idx,
            forall|i: int| 0 <= i < idx as int ==> (#[trigger] r@[i])@ == rendered(values@[i]),
        decreases n - idx,
    {
        let entry: String = if plan.fields[idx].optional {
            match &values[idx] {
                FieldValue::Optional(ov) => match ov {
                    Some(x) => render_value(x),
                    None => String::new(),
                },
                FieldValue::Plain(_) => unreached(),
            }
        } else {
            match &values[idx] {
                FieldValue::Plain(x) => render_value(x),
                FieldValue::Optional(_) => unreached(),
            }
        };
        r.push(entry);
        idx += 1;
    }
    proof {
        assert(views_of(r@) =~= row_text(values@));
    }
    r
}

/// For a generated implementation, the header row and the row of any
/// well-typed instance both have one entry per field of the declaration.
pub proof fn lemma_header_and_row_lengths(decl: TypeDecl, plan: TableImpl, values: Seq<FieldValue>)
    requires
        plan_matches(decl, plan),
        instance_of(plan, values),
    ensures
        named_fields(decl.data) matches Some(fs) && plan.headers@.len() == fs.len() && row_text(
            values,
        ).len() == fs.len(),
{
}

/// Positional correspondence for a generated implementation: at each
/// position, the header carries the label of the field declared there,
/// and any instance's row carries the rendering of that same field's
/// value; an optional value stands exactly where the declared type is the
/// optional wrapper.
pub proof fn lemma_positional_correspondence(
    decl: TypeDecl,
    plan: TableImpl,
    values: Seq<FieldValue>,
    i: int,
)
    requires
        plan_matches(decl, plan),
        instance_of(plan, values),
        0 <= i < plan.headers@.len(),
    ensures
        named_fields(decl.data) matches Some(fs) && {
            &&& field_label(fs[i]) == Ok::<Seq<char>, HeaderError>(plan.headers@[i]@)
            &&& row_text(values)[i] == rendered(values[i])
            &&& (values[i] is Optional <==> field_optional(fs[i]))
        },
{
}

/// The override law: where a field's first `header` annotation parses to
/// a label, the header at the field's position is exactly that label;
/// where the field has no `header` annotation, it is the field's own
/// declared name.
pub proof fn lemma_header_override(decl: TypeDecl, plan: TableImpl, i: int)
    requires
        plan_matches(decl, plan),
        0 <= i < plan.headers@.len(),
    ensures
        named_fields(decl.data) matches Some(fs) && {
            &&& (first_header_attr(fs[i].attrs@) matches Some(a) ==> parse_header_attr(a) == Ok::<
                Seq<char>,
                HeaderError,
            >(plan.headers@[i]@))
            &&& (first_header_attr(fs[i].attrs@) is None ==> plan.headers@[i]@ == fs[i].name@)
        },
{
}

/// The optional-field law: a present value renders as its own text, an
/// absent one as the empty string, and a plain value as its own text.
pub proof fn lemma_optional_rendering(v: FieldValue)
    ensures
        v matches FieldValue::Optional(Some(x)) ==> rendered(v) == value_text(x),
        v matches FieldValue::Optional(None) ==> rendered(v) == Seq::<char>::empty(),
        v matches FieldValue::Plain(x) ==> rendered(v) == value_text(x),
{
}

} // verus!
