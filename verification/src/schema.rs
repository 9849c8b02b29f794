//! Record declarations: fields, their types, and their header labels.

use vstd::prelude::*;

use crate::header::{label_result_matches, parse_header_attr, parse_header_name_param, HeaderError};
use crate::tokens::{names_header, Attribute};

verus! {

/// A field's declared type, as the generator reads it.
pub enum TypeRepr {
    /// A plain type path, by the names of its segments: the declared type
    /// `Option<String>` carries `Option` as its first segment.
    Path(Vec<String>),
    /// A type of any other shape (a reference, a tuple, ...).
    Other,
}

/// One named field of a record type: its name, its declared type, and
/// its annotations.
pub struct Field {
    /// The field's identifier.
    pub name: String,
    /// The field's declared type.
    pub ty: TypeRepr,
    /// The field's annotations, in source order.
    pub attrs: Vec<Attribute>,
}

/// The fields of a struct declaration.
pub enum FieldsShape {
    /// Named fields, in declaration order.
    Named(Vec<Field>),
    /// Positional (tuple-style) fields.
    Unnamed,
    /// No fields at all.
    Unit,
}

/// The body of a type declaration.
pub enum RecordData {
    /// A struct with the given fields.
    StructData(FieldsShape),
    /// An enum declaration.
    EnumData,
    /// A union declaration.
    UnionData,
}

/// A record type's declaration: its name and its body.
pub struct TypeDecl {
    /// The declared type's identifier.
    pub name: String,
    /// The declaration's body.
    pub data: RecordData,
}

/// Why no row-producing implementation could be generated for a declaration.
pub enum DeriveError {
    /// The declaration is not a struct with named fields.
    UnsupportedShape,
    /// Some field's declared type is not a plain type path.
    UnsupportedFieldType,
    /// Some field's header annotation does not match `header(name = "<text>")`.
    InvalidHeader { field: usize, cause: HeaderError },
}

/// The named fields of a declaration body, where it has any.
pub open spec fn named_fields(d: RecordData) -> Option<Seq<Field>> {
    match d {
        RecordData::StructData(FieldsShape::Named(fs)) => Some(fs@),
        _ => None,
    }
}

/// The first segment of a field's declared type path, where the type is
/// a non-empty path.
pub open spec fn type_head(t: TypeRepr) -> Option<Seq<char>> {
    match t {
        TypeRepr::Path(segs) => if segs@.len() > 0 {
            Some(segs@[0]@)
        } else {
            None
        },
        TypeRepr::Other => None,
    }
}

/// The first annotation in the sequence that names `header`, if any.
pub open spec fn first_header_attr(attrs: Seq<Attribute>) -> Option<Attribute>
    decreases attrs.len(),
{
    if attrs.len() == 0 {
        None
    } else if names_header(attrs[0]) {
        Some(attrs[0])
    } else {
        first_header_attr(attrs.subrange(1, attrs.len() as int))
    }
}

/// The label a field contributes to the header row: the parsed override
/// from its first `header` annotation, or its own name when it has none.
pub open spec fn field_label(f: Field) -> Result<Seq<char>, HeaderError> {
    match first_header_attr(f.attrs@) {
        Some(a) => parse_header_attr(a),
        None => Ok(f.name@),
    }
}

proof fn lemma_first_header_attr_skip(attrs: Seq<Attribute>, i: int)
    requires
        0 <= i <= attrs.len(),
        forall|k: int| 0 <= k < i ==> !names_header(#[trigger] attrs[k]),
    ensures
        first_header_attr(attrs) == first_header_attr(attrs.subrange(i, attrs.len() as int)),
    decreases i,
{
    if i > 0 {
        let tail = attrs.subrange(1, attrs.len() as int);
        assert forall|k: int| 0 <= k < i - 1 implies !names_header(#[trigger] tail[k]) by {
            assert(tail[k] == attrs[k + 1]);
        }
        lemma_first_header_attr_skip(tail, i - 1);
        assert(tail.subrange(i - 1, tail.len() as int) =~= attrs.subrange(i, attrs.len() as int));
    } else {
        assert(attrs.subrange(0, attrs.len() as int) =~= attrs);
    }
}

/// Picks the named fields out of a declaration body; a declaration of any
/// other shape is rejected as unsupported.
pub fn extract_field_names(data: &RecordData) -> (r: Result<&Vec<Field>, DeriveError>)
    ensures
        r matches Ok(fields) ==> named_fields(*data) == Some(fields@),
        r is Ok <==> named_fields(*data) is Some,
        r matches Err(e) ==> e == DeriveError::UnsupportedShape,
{
    match data {
        RecordData::StructData(FieldsShape::Named(fields)) => Ok(fields),
        _ => Err(DeriveError::UnsupportedShape),
    }
}

/// Reads off the head segment of each field's declared type, in field
/// order; a field whose type is not a plain path is rejected.
pub fn extract_types(fields: &Vec<Field>) -> (r: Result<Vec<String>, DeriveError>)
    ensures
        r matches Ok(heads) ==> heads@.len() == fields@.len() && (forall|i: int|
            0 <= i < fields@.len() ==> type_head(#[trigger] fields@[i].ty) == Some(heads@[i]@)),
        r is Ok <==> (forall|i: int| 0 <= i < fields@.len() ==> type_head(
            #[trigger] fields@[i].ty,
        ) is Some),
        r matches Err(e) ==> e == DeriveError::UnsupportedFieldType,
{
    let mut heads: Vec<String> = Vec::new();
    let n = fields.len();
    let mut idx: usize = 0;
    while idx < n
        invariant
            n == fields@.len(),
            idx <= n,
            heads@.len() == idx,
            forall|i: int| 0 <= i < idx as int ==> type_head(#[trigger] fields@[i].ty) == Some(
                heads@[i]@,
            ),
        decreases n - idx,
    {
        match &fields[idx].ty {
            TypeRepr::Path(segs) => {
                if segs.len() == 0 {
                    proof {
                        assert(type_head(fields@[idx as int].ty) is None);
                    }
                    return Err(DeriveError::UnsupportedFieldType);
                }
                heads.push(segs[0].clone());
            },
            TypeRepr::Other => {
                proof {
                    assert(type_head(fields@[idx as int].ty) is None);
                }
                return Err(DeriveError::UnsupportedFieldType);
            },
        }
        idx += 1;
    }
    Ok(heads)
}

/// The header label of one field: the parsed override from the field's
/// first `header` annotation, or the field's own name when none is found.
pub fn get_field_header_name(field: &Field) -> (r: Result<String, HeaderError>)
    ensures
        label_result_matches(r, field_label(*field)),
{
    let n = field.attrs.len();
    let header_word = String::from_str("header");
    let mut idx: usize = 0;
    while idx < n
        invariant
            n == field.attrs@.len(),
            idx <= n,
            header_word@ == "header"@,
            forall|k: int| 0 <= k < idx as int ==> !names_header(#[trigger] field.attrs@[k]),
        decreases n - idx,
    {
        let attr = &field.attrs[idx];
        let m = attr.path.len();
        let mut j: usize = 0;
        while j < m
            invariant
                n == field.attrs@.len(),
                idx < n,
                forall|k: int| 0 <= k < idx as int ==> !names_header(#[trigger] field.attrs@[k]),
                attr == &field.attrs@[idx as int],
                m == attr.path@.len(),
                j <= m,
                header_word@ == "header"@,
                forall|k: int| 0 <= k < j as int ==> (#[trigger] attr.path@[k])@ != "header"@,
            decreases m - j,
        {
            if attr.path[j] == header_word {
                proof {
                    assert((attr.path@[j as int])@ == "header"@);
                    assert(names_header(field.attrs@[idx as int]));
                    lemma_first_header_attr_skip(field.attrs@, idx as int);
                    let sub = field.attrs@.subrange(idx as int, n as int);
                    assert(sub[0] == field.attrs@[idx as int]);
                }
                return parse_header_name_param(attr);
            }
            j += 1;
        }
        proof {
            assert(!names_header(field.attrs@[idx as int]));
        }
        idx += 1;
    }
    proof {
        lemma_first_header_attr_skip(field.attrs@, n as int);
        assert(field.attrs@.subrange(n as int, n as int).len() == 0);
    }
    Ok(field.name.clone())
}

} // verus!
