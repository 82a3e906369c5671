//! The payload that a variant declares: nothing, one value, a tuple, or a
//! record of named fields.

use vstd::prelude::*;
use crate::datum::{data_view, Datum, DatumView, Kind};
use crate::optional::Optional;

verus! {

/// One named field of a record.
#[derive(Debug, PartialEq, Eq)]
pub struct FieldDecl {
    pub name: String,
    pub kind: Kind,
}

/// What a `FieldDecl` stands for.
pub struct FieldDeclView {
    pub name: Seq<char>,
    pub kind: Kind,
}

impl View for FieldDecl {
    type V = FieldDeclView;

    open spec fn view(&self) -> FieldDeclView {
        FieldDeclView { name: self.name@, kind: self.kind }
    }
}

/// The declarations that a list of fields stands for, in order.
pub open spec fn fields_view(fields: Seq<FieldDecl>) -> Seq<FieldDeclView> {
    Seq::new(fields.len(), |i: int| fields[i]@)
}

/// No two names of the list are equal.
pub open spec fn distinct(names: Seq<Seq<char>>) -> bool {
    forall|i: int, j: int| 0 <= i < j < names.len() ==> names[i] != names[j]
}

/// The payload shape of a variant.
#[derive(Debug, PartialEq, Eq)]
pub enum Shape {
    /// No payload.
    Unit,
    /// A single value.
    Single(Kind),
    /// Positional fields, each with its own type.
    Tuple(Vec<Kind>),
    /// Named fields, in the order of their declaration.
    Record(Vec<FieldDecl>),
}

/// What a `Shape` stands for.
pub enum ShapeView {
    Unit,
    Single(Kind),
    Tuple(Seq<Kind>),
    Record(Seq<FieldDeclView>),
}

impl View for Shape {
    type V = ShapeView;

    open spec fn view(&self) -> ShapeView {
        match self {
            Shape::Unit => ShapeView::Unit,
            Shape::Single(kind) => ShapeView::Single(*kind),
            Shape::Tuple(kinds) => ShapeView::Tuple(kinds@),
            Shape::Record(fields) => ShapeView::Record(fields_view(fields@)),
        }
    }
}

impl ShapeView {
    /// The types of the payload fields, in order.
    pub open spec fn kinds(self) -> Seq<Kind> {
        match self {
            ShapeView::Unit => Seq::empty(),
            ShapeView::Single(kind) => seq![kind],
            ShapeView::Tuple(kinds) => kinds,
            ShapeView::Record(fields) => Seq::new(fields.len(), |i: int| fields[i].kind),
        }
    }

    /// The names of the payload fields, in order; only a record has any.
    pub open spec fn names(self) -> Seq<Seq<char>> {
        match self {
            ShapeView::Record(fields) => Seq::new(fields.len(), |i: int| fields[i].name),
            _ => Seq::empty(),
        }
    }

    /// A record names each of its fields differently.
    pub open spec fn well_formed(self) -> bool {
        distinct(self.names())
    }

    /// The fields are as many as declared, each of the declared type.
    pub open spec fn admits(self, fields: Seq<DatumView>) -> bool {
        &&& fields.len() == self.kinds().len()
        &&& forall|i: int| 0 <= i < fields.len() ==> (#[trigger] fields[i]).kind() == self.kinds()[i]
    }
}

impl Shape {
    /// The number of payload fields.
    pub fn arity(&self) -> (arity: usize)
        ensures
            arity == self@.kinds().len(),
    {
        match self {
            Shape::Unit => 0,
            Shape::Single(_) => 1,
            Shape::Tuple(kinds) => kinds.len(),
            Shape::Record(fields) => fields.len(),
        }
    }

    /// The type of the payload field at `index`, if there is such a field.
    pub fn kind_at(&self, index: usize) -> (found: Optional<Kind>)
        ensures
            match found {
                Optional::Present(kind) => index < self@.kinds().len() && kind == self@.kinds()[index as int],
                Optional::Absent => index >= self@.kinds().len(),
            },
    {
        match self {
            Shape::Unit => Optional::Absent,
            Shape::Single(kind) => if index == 0 {
                Optional::Present(*kind)
            } else {
                Optional::Absent
            },
            Shape::Tuple(kinds) => if index < kinds.len() {
                Optional::Present(kinds[index])
            } else {
                Optional::Absent
            },
            Shape::Record(fields) => if index < fields.len() {
                Optional::Present(fields[index].kind)
            } else {
                Optional::Absent
            },
        }
    }

    /// Whether the fields are as many as declared, each of the declared type.
    pub fn admits(&self, fields: &Vec<Datum>) -> (fits: bool)
        ensures
            fits == self@.admits(data_view(fields@)),
    {
        if fields.len() != self.arity() {
            return false;
        }
        let mut index: usize = 0;
        while index < fields.len()
            invariant
                index <= fields.len(),
                fields.len() == self@.kinds().len(),
                forall|i: int| 0 <= i < index ==> (#[trigger] data_view(fields@)[i]).kind() == self@.kinds()[i],
            decreases fields.len() - index,
        {
            match self.kind_at(index) {
                Optional::Present(kind) => {
                    if fields[index].kind() != kind {
                        assert(data_view(fields@)[index as int].kind() != self@.kinds()[index as int]);
                        return false;
                    }
                },
                Optional::Absent => {
                    return false;
                },
            }
            index += 1;
        }
        true
    }

    /// Whether a record names each of its fields differently. Other shapes
    /// have no names, so they always pass.
    pub fn is_well_formed(&self) -> (ok: bool)
        ensures
            ok == self@.well_formed(),
    {
        match self {
            Shape::Record(fields) => {
                let mut upper: usize = 0;
                while upper < fields.len()
                    invariant
                        upper <= fields.len(),
                        self@.names().len() == fields.len(),
                        forall|k: int| 0 <= k < fields.len() ==> self@.names()[k] == (#[trigger] fields[k]).name@,
                        forall|i: int, j: int| 0 <= i < j < upper ==> self@.names()[i] != self@.names()[j],
                    decreases fields.len() - upper,
                {
                    let mut lower: usize = 0;
                    while lower < upper
                        invariant
                            lower <= upper < fields.len(),
                            self@.names().len() == fields.len(),
                            forall|k: int| 0 <= k < fields.len() ==> self@.names()[k] == (#[trigger] fields[k]).name@,
                            forall|i: int| 0 <= i < lower ==> self@.names()[i] != self@.names()[upper as int],
                        decreases upper - lower,
                    {
                        if fields[lower].name == fields[upper].name {
                            assert(self@.names()[lower as int] == self@.names()[upper as int]);
                            return false;
                        }
                        lower += 1;
                    }
                    upper += 1;
                }
                true
            },
            _ => true,
        }
    }
}

} // verus!
