//! The plain values that a variant carries, and their types.

use vstd::prelude::*;

verus! {

/// The type of one payload field.
#[derive(Clone, Copy, Debug, PartialEq, Eq, Structural)]
pub enum Kind {
    Int,
    Text,
}

/// One payload field: a whole number or a piece of text.
#[derive(Debug, PartialEq, Eq)]
pub enum Datum {
    Int(i64),
    Text(String),
}

/// What a `Datum` stands for.
pub enum DatumView {
    Int(int),
    Text(Seq<char>),
}

impl DatumView {
    /// The type that this value has.
    pub open spec fn kind(self) -> Kind {
        match self {
            DatumView::Int(_) => Kind::Int,
            DatumView::Text(_) => Kind::Text,
        }
    }
}

impl View for Datum {
    type V = DatumView;

    open spec fn view(&self) -> DatumView {
        match self {
            Datum::Int(number) => DatumView::Int(*number as int),
            Datum::Text(text) => DatumView::Text(text@),
        }
    }
}

/// The values that a list of fields stands for, in order.
pub open spec fn data_view(data: Seq<Datum>) -> Seq<DatumView> {
    Seq::new(data.len(), |i: int| data[i]@)
}

impl Datum {
    /// A whole number.
    pub fn number(number: i64) -> (datum: Datum)
        ensures
            datum@ == DatumView::Int(number as int),
    {
        Datum::Int(number)
    }

    /// A piece of text.
    pub fn text(text: &str) -> (datum: Datum)
        ensures
            datum@ == DatumView::Text(text@),
    {
        Datum::Text(text.to_owned())
    }

    /// The type of this value.
    pub fn kind(&self) -> (kind: Kind)
        ensures
            kind == self@.kind(),
    {
        match self {
            Datum::Int(_) => Kind::Int,
            Datum::Text(_) => Kind::Text,
        }
    }

    /// Whether two values are the same: of one type, and equal.
    pub fn same(&self, other: &Datum) -> (same: bool)
        ensures
            same == (self@ == other@),
    {
        match (self, other) {
            (Datum::Int(left), Datum::Int(right)) => *left == *right,
            (Datum::Text(left), Datum::Text(right)) => *left == *right,
            _ => false,
        }
    }
}

impl Clone for Datum {
    fn clone(&self) -> (copy: Self)
        ensures
            copy@ == self@,
    {
        match self {
            Datum::Int(number) => Datum::Int(*number),
            Datum::Text(text) => Datum::Text(text.clone()),
        }
    }
}

} // verus!
