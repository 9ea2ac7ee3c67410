//! The library's own model of a columnar schema: an ordered sequence of
//! fields, each with a name, a logical type tag and a nullability flag.
//! Two schemas are equal exactly when the sequences are equal element-wise
//! on all three attributes.

use vstd::prelude::*;

verus! {

/// Logical type tag of a field. The expected contract only uses the three
/// primitive tags; every other decoded type is carried as `Other` with a
/// canonical textual description, so that distinct types stay distinguishable
/// under exact structural equality.
#[derive(Debug)]
pub enum DataTypeTag {
    Int32,
    Utf8,
    Float64,
    Other(String),
}

/// Mathematical value of a `DataTypeTag`: the `Other` payload is a character
/// sequence.
#[verifier::ext_equal]
pub enum TypeView {
    Int32,
    Utf8,
    Float64,
    Other(Seq<char>),
}

impl View for DataTypeTag {
    type V = TypeView;

    open spec fn view(&self) -> TypeView {
        match self {
            DataTypeTag::Int32 => TypeView::Int32,
            DataTypeTag::Utf8 => TypeView::Utf8,
            DataTypeTag::Float64 => TypeView::Float64,
            DataTypeTag::Other(s) => TypeView::Other(s@),
        }
    }
}

/// One schema field: name, logical type, nullability.
#[derive(Debug)]
pub struct Field {
    pub name: String,
    pub data_type: DataTypeTag,
    pub nullable: bool,
}

/// Mathematical value of a `Field`.
#[verifier::ext_equal]
pub struct FieldView {
    pub name: Seq<char>,
    pub data_type: TypeView,
    pub nullable: bool,
}

impl View for Field {
    type V = FieldView;

    open spec fn view(&self) -> FieldView {
        FieldView { name: self.name@, data_type: self.data_type@, nullable: self.nullable }
    }
}

/// An ordered sequence of fields. Order is significant for equality.
#[derive(Debug)]
pub struct Schema {
    pub fields: Vec<Field>,
}

impl View for Schema {
    type V = Seq<FieldView>;

    open spec fn view(&self) -> Seq<FieldView> {
        self.fields@.map_values(|f: Field| f@)
    }
}

/// Decides equality of two type tags, exactly as their mathematical values
/// compare.
pub fn data_type_eq(a: &DataTypeTag, b: &DataTypeTag) -> (r: bool)
    ensures
        r == (a@ == b@),
{
    match (a, b) {
        (DataTypeTag::Int32, DataTypeTag::Int32) => true,
        (DataTypeTag::Utf8, DataTypeTag::Utf8) => true,
        (DataTypeTag::Float64, DataTypeTag::Float64) => true,
        (DataTypeTag::Other(x), DataTypeTag::Other(y)) => *x == *y,
        _ => false,
    }
}

/// Decides equality of two fields on all three attributes.
pub fn field_eq(a: &Field, b: &Field) -> (r: bool)
    ensures
        r == (a@ == b@),
{
    let r = a.name == b.name && data_type_eq(&a.data_type, &b.data_type) && a.nullable
        == b.nullable;
    proof {
        if r {
            assert(a@ =~= b@);
        }
    }
    r
}

/// Decides exact structural equality of two schemas: same length and equal
/// fields at every position.
pub fn schema_eq(a: &Schema, b: &Schema) -> (r: bool)
    ensures
        r == (a@ == b@),
{
    if a.fields.len() != b.fields.len() {
        proof {
            assert(a@.len() == a.fields@.len());
            assert(b@.len() == b.fields@.len());
        }
        return false;
    }
    let n = a.fields.len();
    let mut i: usize = 0;
    while i < n
        invariant
            n == a.fields@.len(),
            n == b.fields@.len(),
            i <= n,
            forall|j: int| 0 <= j < i ==> a.fields@[j]@ == b.fields@[j]@,
        decreases n - i,
    {
        if !field_eq(&a.fields[i], &b.fields[i]) {
            proof {
                assert(a@[i as int] != b@[i as int]);
            }
            return false;
        }
        i += 1;
    }
    proof {
        assert(a@ =~= b@);
    }
    true
}

impl Schema {
    /// Deep copy with the same mathematical value.
    pub fn duplicate(&self) -> (r: Schema)
        ensures
            r@ == self@,
    {
        let mut fields: Vec<Field> = Vec::new();
        let n = self.fields.len();
        let mut i: usize = 0;
        while i < n
            invariant
                n == self.fields@.len(),
                i <= n,
                fields@.len() == i,
                forall|j: int| 0 <= j < i ==> fields@[j]@ == self.fields@[j]@,
            decreases n - i,
        {
            let f = &self.fields[i];
            let data_type = match &f.data_type {
                DataTypeTag::Int32 => DataTypeTag::Int32,
                DataTypeTag::Utf8 => DataTypeTag::Utf8,
                DataTypeTag::Float64 => DataTypeTag::Float64,
                DataTypeTag::Other(s) => DataTypeTag::Other(s.clone()),
            };
            fields.push(Field { name: f.name.clone(), data_type, nullable: f.nullable });
            i += 1;
        }
        let r = Schema { fields };
        proof {
            assert(r@ =~= self@);
        }
        r
    }
}

} // verus!
