//! The record-type convention for stored data: a caller-described field list
//! is augmented with one identity field, prepended, that carries the
//! server-assigned unique identifier of the record.

use vstd::prelude::*;

verus! {

/// One field of a record type: its name and its type, as written in source.
pub struct FieldDef {
    pub name: String,
    pub ty: String,
}

/// Prepends the identity field to a record's field list: afterwards the
/// first field is `id` of type `String`, and the caller's fields follow in
/// their original order, unchanged.
pub fn augment_record_fields(fields: &mut Vec<FieldDef>)
    ensures
        final(fields)@.len() == old(fields)@.len() + 1,
        final(fields)@[0].name@ == "id"@,
        final(fields)@[0].ty@ == "String"@,
        forall|i: int|
            0 <= i < old(fields)@.len() ==> final(fields)@[i + 1].name@ == old(
                fields,
            )@[i].name@ && final(fields)@[i + 1].ty@ == old(fields)@[i].ty@,
{
    fields.insert(0, FieldDef { name: "id".to_owned(), ty: "String".to_owned() });
}

} // verus!
