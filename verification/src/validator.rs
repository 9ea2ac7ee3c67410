//! Schema validation against a fixed expected contract, using exact
//! structural equality: field order, names, types and nullability must all
//! match. An unconfigured validator (no contract) accepts every schema.

use vstd::prelude::*;
use crate::schema::{DataTypeTag, Field, FieldView, Schema, TypeView, schema_eq};

verus! {

/// The fixed expected contract: `id` (32-bit signed integer, non-nullable),
/// `name` (UTF-8 string, non-nullable), `amount` (64-bit floating point,
/// non-nullable), in that order.
pub open spec fn expected_contract() -> Seq<FieldView> {
    seq![
        FieldView { name: "id"@, data_type: TypeView::Int32, nullable: false },
        FieldView { name: "name"@, data_type: TypeView::Utf8, nullable: false },
        FieldView { name: "amount"@, data_type: TypeView::Float64, nullable: false },
    ]
}

/// What validation means: with no configured contract every schema passes;
/// with one, only a schema structurally equal to it passes.
pub open spec fn spec_validate(contract: Option<Seq<FieldView>>, actual: Seq<FieldView>) -> bool {
    match contract {
        Option::None => true,
        Option::Some(expected) => expected == actual,
    }
}

/// Validation failure: the decoded schema does not exactly equal the
/// expected contract. Carries both schemas for diagnosis.
#[derive(Debug)]
pub enum ValidationError {
    SchemaMismatch { expected: Schema, actual: Schema },
}

/// Holds the expected schema contract, read-only after construction.
pub struct SchemaValidator {
    pub data_schema: Option<Schema>,
}

impl View for SchemaValidator {
    type V = Option<Seq<FieldView>>;

    open spec fn view(&self) -> Option<Seq<FieldView>> {
        match self.data_schema {
            Option::None => Option::None,
            Option::Some(s) => Option::Some(s@),
        }
    }
}

impl SchemaValidator {
    /// Builds a validator holding the fixed expected contract.
    pub fn new_with_default_schema() -> (r: SchemaValidator)
        ensures
            r@ == Some(expected_contract()),
    {
        let mut fields: Vec<Field> = Vec::new();
        fields.push(
            Field { name: "id".to_owned(), data_type: DataTypeTag::Int32, nullable: false },
        );
        fields.push(
            Field { name: "name".to_owned(), data_type: DataTypeTag::Utf8, nullable: false },
        );
        fields.push(
            Field { name: "amount".to_owned(), data_type: DataTypeTag::Float64, nullable: false },
        );
        let schema = Schema { fields };
        proof {
            assert(schema@ =~= expected_contract());
        }
        SchemaValidator { data_schema: Some(schema) }
    }

    /// Returns whether `actual_schema` satisfies the configured contract.
    pub fn validate(&self, actual_schema: &Schema) -> (r: bool)
        ensures
            r == spec_validate(self@, actual_schema@),
    {
        match &self.data_schema {
            Some(expected) => schema_eq(expected, actual_schema),
            None => true,
        }
    }
}

} // verus!
