//! Fields and schemas: the ordered (name, type, nullable) triples a batch of
//! rows conforms to. An absent name is an error, never a silent default.

use vstd::prelude::*;

use crate::error::ErrorCode;
use crate::text::str_eq;
use crate::types::DataType;

verus! {

/// One named, typed column of a schema.
#[derive(Debug, PartialEq)]
pub struct DataField {
    pub name: String,
    pub data_type: DataType,
    pub nullable: bool,
}

impl Clone for DataField {
    /// A clone is the same field.
    fn clone(&self) -> (r: DataField)
        ensures
            r == *self,
    {
        DataField { name: self.name.clone(), data_type: self.data_type, nullable: self.nullable }
    }
}

impl DataField {
    /// Build a field from its parts.
    pub fn new(name: &str, data_type: DataType, nullable: bool) -> (r: DataField)
        ensures
            r.name@ == name@,
            r.data_type == data_type,
            r.nullable == nullable,
    {
        DataField { name: String::from_str(name), data_type, nullable }
    }
}

/// Index of the first field of the given name, or -1 when there is none.
pub open spec fn field_index(fields: Seq<DataField>, name: Seq<char>) -> int
    decreases fields.len(),
{
    if fields.len() == 0 {
        -1
    } else if fields[0].name@ == name {
        0
    } else {
        let rest = field_index(fields.drop_first(), name);
        if rest < 0 {
            -1
        } else {
            rest + 1
        }
    }
}

/// Whether some field bears the name.
pub open spec fn has_field(fields: Seq<DataField>, name: Seq<char>) -> bool {
    exists|i: int| 0 <= i < fields.len() && #[trigger] fields[i].name@ == name
}

/// `field_index` finds the first field of the name, and only fails when no
/// field bears it.
pub proof fn lemma_field_index(fields: Seq<DataField>, name: Seq<char>)
    ensures
        has_field(fields, name) <==> 0 <= field_index(fields, name) < fields.len(),
        !has_field(fields, name) <==> field_index(fields, name) == -1,
        0 <= field_index(fields, name) ==> fields[field_index(fields, name)].name@ == name
            && (forall|j: int| 0 <= j < field_index(fields, name) ==> fields[j].name@ != name),
    decreases fields.len(),
{
    if fields.len() > 0 && fields[0].name@ != name {
        lemma_field_index(fields.drop_first(), name);
        let rest = fields.drop_first();
        assert(forall|i: int|
            1 <= i < fields.len() ==> #[trigger] fields[i].name@ == rest[i - 1].name@);
        if has_field(fields, name) {
            let w = choose|i: int| 0 <= i < fields.len() && #[trigger] fields[i].name@ == name;
            assert(rest[w - 1].name@ == name);
            assert(has_field(rest, name));
        }
        if has_field(rest, name) {
            let w = choose|i: int| 0 <= i < rest.len() && #[trigger] rest[i].name@ == name;
            assert(fields[w + 1].name@ == name);
        }
    }
}

/// An ordered collection of fields; names are meant to be unique.
#[derive(Debug, PartialEq)]
pub struct DataSchema {
    pub fields: Vec<DataField>,
}

impl Clone for DataSchema {
    /// A clone holds the same fields.
    fn clone(&self) -> (r: DataSchema)
        ensures
            r.fields@ == self.fields@,
    {
        let mut fields: Vec<DataField> = Vec::new();
        let mut i: usize = 0;
        while i < self.fields.len()
            invariant
                0 <= i <= self.fields@.len(),
                fields@ =~= self.fields@.take(i as int),
            decreases self.fields@.len() - i,
        {
            fields.push(self.fields[i].clone());
            i = i + 1;
        }
        proof {
            assert(self.fields@.take(i as int) =~= self.fields@);
            assert(fields@ == self.fields@);
        }
        DataSchema { fields }
    }
}

/// No two fields share a name.
pub open spec fn schema_wf(s: DataSchema) -> bool {
    forall|i: int, j: int|
        0 <= i < j < s.fields@.len() ==> (#[trigger] s.fields@[i].name@) != (
        #[trigger] s.fields@[j].name@)
}

impl DataSchema {
    /// Build a schema from its fields in order.
    pub fn new(fields: Vec<DataField>) -> (r: DataSchema)
        ensures
            r.fields == fields,
    {
        DataSchema { fields }
    }

    /// The first field of the given name, or `UnknownColumn` when the
    /// schema lacks it.
    pub fn field_with_name(&self, name: &str) -> (r: Result<&DataField, ErrorCode>)
        ensures
            (r is Ok <==> has_field(self.fields@, name@)),
            (r matches Ok(f) ==> *f == self.fields@[field_index(self.fields@, name@)]),
            (r matches Err(e) ==> e == ErrorCode::UnknownColumn),
    {
        proof {
            lemma_field_index(self.fields@, name@);
        }
        let mut i: usize = 0;
        while i < self.fields.len()
            invariant
                0 <= i <= self.fields@.len(),
                forall|j: int| 0 <= j < i ==> (#[trigger] self.fields@[j].name@) != name@,
            decreases self.fields@.len() - i,
        {
            if str_eq(self.fields[i].name.as_str(), name) {
                proof {
                    lemma_field_index_first(self.fields@, name@, i as int);
                }
                return Ok(&self.fields[i]);
            }
            i = i + 1;
        }
        Err(ErrorCode::UnknownColumn)
    }
}

/// The first match determines `field_index`.
proof fn lemma_field_index_first(fields: Seq<DataField>, name: Seq<char>, i: int)
    requires
        0 <= i < fields.len(),
        fields[i].name@ == name,
        forall|j: int| 0 <= j < i ==> (#[trigger] fields[j].name@) != name,
    ensures
        field_index(fields, name) == i,
    decreases i,
{
    if i > 0 {
        let rest = fields.drop_first();
        assert(forall|k: int|
            0 <= k < rest.len() ==> #[trigger] rest[k].name@ == fields[k + 1].name@);
        lemma_field_index_first(rest, name, i - 1);
    }
}

} // verus!
