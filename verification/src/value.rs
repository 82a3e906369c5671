//! An instance of an enumeration: one active variant and its payload.

use vstd::prelude::*;
use crate::datum::{data_view, Datum, DatumView};

verus! {

/// An instance: the tag of its variant and the payload fields in declared
/// order. Both are fixed when the instance is built; there is no way to
/// change them afterwards.
#[derive(Debug, PartialEq, Eq)]
pub struct Value {
    tag: usize,
    fields: Vec<Datum>,
}

/// What a `Value` stands for.
pub struct ValueView {
    pub tag: nat,
    pub fields: Seq<DatumView>,
}

impl View for Value {
    type V = ValueView;

    closed spec fn view(&self) -> ValueView {
        ValueView { tag: self.tag as nat, fields: data_view(self.fields@) }
    }
}

/// A copy of a list of fields.
fn clone_data(data: &Vec<Datum>) -> (copy: Vec<Datum>)
    ensures
        data_view(copy@) == data_view(data@),
{
    let mut copy: Vec<Datum> = Vec::new();
    let mut index: usize = 0;
    while index < data.len()
        invariant
            index <= data.len(),
            copy.len() == index,
            forall|i: int| 0 <= i < index ==> copy[i]@ == data[i]@,
        decreases data.len() - index,
    {
        copy.push(data[index].clone());
        index += 1;
    }
    assert(data_view(copy@) =~= data_view(data@));
    copy
}

impl Value {
    /// Puts an instance together. Only the constructors of an enumeration
    /// call this, after they have held the payload against the declaration.
    pub(crate) fn assemble(tag: usize, fields: Vec<Datum>) -> (value: Value)
        ensures
            value@ == (ValueView { tag: tag as nat, fields: data_view(fields@) }),
    {
        Value { tag, fields }
    }

    /// The tag of the active variant.
    pub fn tag(&self) -> (tag: usize)
        ensures
            tag == self@.tag,
    {
        self.tag
    }

    /// The payload fields, in declared order.
    pub fn fields(&self) -> (fields: &Vec<Datum>)
        ensures
            data_view(fields@) == self@.fields,
    {
        &self.fields
    }
}

impl Clone for Value {
    fn clone(&self) -> (copy: Self)
        ensures
            copy@ == self@,
    {
        Value { tag: self.tag, fields: clone_data(&self.fields) }
    }
}

} // verus!
