use vstd::prelude::*;

use crate::datatypes::values::DataType;

verus! {

/// One column description: name, element type, nullability.
#[derive(Debug, PartialEq, Eq)]
pub struct Field {
    pub name: String,
    pub data_type: DataType,
    pub nullable: bool,
}

/// The mathematical model of a [`Field`].
#[verifier::ext_equal]
pub struct FieldModel {
    pub name: Seq<char>,
    pub data_type: DataType,
    pub nullable: bool,
}

impl View for Field {
    type V = FieldModel;

    open spec fn view(&self) -> FieldModel {
        FieldModel { name: self.name@, data_type: self.data_type, nullable: self.nullable }
    }
}

impl Clone for Field {
    fn clone(&self) -> (res: Self)
        ensures
            res == *self,
    {
        Field { name: self.name.clone(), data_type: self.data_type, nullable: self.nullable }
    }
}

impl Field {
    /// Builds a field from its three parts.
    pub fn new(name: String, data_type: DataType, nullable: bool) -> (r: Field)
        ensures
            r@ == (FieldModel { name: name@, data_type, nullable }),
    {
        Field { name, data_type, nullable }
    }
}

/// An ordered sequence of fields. Names need not be unique; lookup by name
/// returns the first match.
#[derive(Debug, PartialEq, Eq)]
pub struct Schema {
    pub fields: Vec<Field>,
}

impl View for Schema {
    type V = Seq<FieldModel>;

    open spec fn view(&self) -> Seq<FieldModel> {
        self.fields@.map_values(|f: Field| f@)
    }
}

/// The index of the first field with the given name at or after `i`, if any.
pub open spec fn lookup_from(fields: Seq<FieldModel>, name: Seq<char>, i: int) -> Option<int>
    decreases fields.len() - i,
{
    if i < 0 || i >= fields.len() {
        None
    } else if fields[i].name == name {
        Some(i)
    } else {
        lookup_from(fields, name, i + 1)
    }
}

/// The index of the first field with the given name, if any.
pub open spec fn lookup(fields: Seq<FieldModel>, name: Seq<char>) -> Option<int> {
    lookup_from(fields, name, 0)
}

/// What `lookup` finds is in range and is the first field of that name.
pub proof fn lemma_lookup_from(fields: Seq<FieldModel>, name: Seq<char>, i: int)
    requires
        0 <= i <= fields.len(),
    ensures
        match lookup_from(fields, name, i) {
            Some(j) => i <= j < fields.len() && fields[j].name == name && (forall|k: int|
                i <= k < j ==> fields[k].name != name),
            None => forall|k: int| i <= k < fields.len() ==> fields[k].name != name,
        },
    decreases fields.len() - i,
{
    if i < fields.len() && fields[i].name != name {
        lemma_lookup_from(fields, name, i + 1);
    }
}

impl Clone for Schema {
    fn clone(&self) -> (res: Self)
        ensures
            res@ == self@,
    {
        let mut fields: Vec<Field> = Vec::new();
        let mut i: usize = 0;
        while i < self.fields.len()
            invariant
                i <= self.fields.len(),
                fields@.len() == i as nat,
                forall|j: int| 0 <= j < i ==> fields@[j] == self.fields@[j],
            decreases self.fields.len() - i,
        {
            fields.push(self.fields[i].clone());
            i += 1;
        }
        let res = Schema { fields };
        proof {
            assert(res@ =~= self@);
        }
        res
    }
}

impl Schema {
    /// Builds a schema from an ordered list of fields.
    pub fn new(fields: Vec<Field>) -> (r: Schema)
        ensures
            r@ == fields@.map_values(|f: Field| f@),
    {
        Schema { fields }
    }

    /// The number of fields.
    pub fn len(&self) -> (r: usize)
        ensures
            r as nat == self@.len(),
    {
        self.fields.len()
    }

    /// The field at a position.
    pub fn field(&self, i: usize) -> (r: &Field)
        requires
            i < self@.len(),
        ensures
            r@ == self@[i as int],
    {
        &self.fields[i]
    }

    /// The position of the first field with the given name, or `None` when no
    /// field has it.
    pub fn index_of(&self, name: &String) -> (r: Option<usize>)
        ensures
            match r {
                Some(i) => i < self@.len() && lookup(self@, name@) == Some(i as int),
                None => lookup(self@, name@) is None,
            },
    {
        let n = self.fields.len();
        let mut i: usize = 0;
        while i < n
            invariant
                n == self.fields.len(),
                i <= n,
                lookup(self@, name@) == lookup_from(self@, name@, i as int),
            decreases n - i,
        {
            if self.fields[i].name == *name {
                proof {
                    assert(self@[i as int].name == name@);
                }
                return Some(i);
            }
            proof {
                assert(self@[i as int].name != name@);
            }
            i += 1;
        }
        None
    }
}

} // verus!
