//! A batch of rows: an ordered set of columns conforming to a schema.

use vstd::prelude::*;

use crate::column::{col_rows, DataColumn};
use crate::error::ErrorCode;
use crate::schema::{field_index, has_field, lemma_field_index, DataSchema};
use crate::text::str_eq;

verus! {

/// One batch: the schema, and one column per field, in field order.
#[derive(Debug, PartialEq)]
pub struct DataBlock {
    pub schema: DataSchema,
    pub columns: Vec<DataColumn>,
}

/// The row count of a batch: what its first column stands for (an empty
/// batch has no rows).
pub open spec fn block_rows(b: DataBlock) -> nat {
    if b.columns@.len() == 0 {
        0
    } else {
        col_rows(b.columns@[0])
    }
}

/// Well-formedness: one column per field, all standing for the same row
/// count.
pub open spec fn block_wf(b: DataBlock) -> bool {
    &&& b.columns@.len() == b.schema.fields@.len()
    &&& forall|i: int|
        0 <= i < b.columns@.len() ==> col_rows(#[trigger] b.columns@[i]) == block_rows(b)
}

impl DataBlock {
    /// Build a batch from a schema and its columns.
    pub fn new(schema: DataSchema, columns: Vec<DataColumn>) -> (r: DataBlock)
        ensures
            r.schema == schema,
            r.columns == columns,
    {
        DataBlock { schema, columns }
    }

    /// The number of rows this batch holds.
    pub fn num_rows(&self) -> (r: usize)
        ensures
            r as nat == block_rows(*self),
    {
        if self.columns.len() == 0 {
            0
        } else {
            self.columns[0].len()
        }
    }

    /// The column under the given field name, or `UnknownColumn`.
    pub fn column_by_name(&self, name: &str) -> (r: Result<&DataColumn, ErrorCode>)
        requires
            self.columns@.len() == self.schema.fields@.len(),
        ensures
            (r is Ok <==> has_field(self.schema.fields@, name@)),
            (r matches Ok(c) ==> *c == self.columns@[field_index(self.schema.fields@, name@)]),
            (r matches Err(e) ==> e == ErrorCode::UnknownColumn),
    {
        proof {
            lemma_field_index(self.schema.fields@, name@);
        }
        let mut i: usize = 0;
        while i < self.schema.fields.len()
            invariant
                0 <= i <= self.schema.fields@.len(),
                self.columns@.len() == self.schema.fields@.len(),
                forall|j: int| 0 <= j < i ==> (#[trigger] self.schema.fields@[j].name@) != name@,
            decreases self.schema.fields@.len() - i,
        {
            if str_eq(self.schema.fields[i].name.as_str(), name) {
                proof {
                    lemma_field_index_at(self.schema.fields@, name@, i as int);
                }
                return Ok(&self.columns[i]);
            }
            i = i + 1;
        }
        Err(ErrorCode::UnknownColumn)
    }
}

/// The first match determines `field_index`.
proof fn lemma_field_index_at(
    fields: Seq<crate::schema::DataField>,
    name: Seq<char>,
    i: int,
)
    requires
        0 <= i < fields.len(),
        fields[i].name@ == name,
        forall|j: int| 0 <= j < i ==> (#[trigger] fields[j].name@) != name,
    ensures
        field_index(fields, name) == i,
    decreases i,
{
    if i > 0 {
        let rest = fields.drop_first();
        assert(forall|k: int|
            0 <= k < rest.len() ==> #[trigger] rest[k].name@ == fields[k + 1].name@);
        lemma_field_index_at(rest, name, i - 1);
    }
}

} // verus!
