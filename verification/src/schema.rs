//! An enumeration: a closed list of named variants, and the constructors
//! that build its instances.

use vstd::prelude::*;
use crate::datum::{data_view, Datum, DatumView, Kind};
use crate::error::ModelError;
use crate::optional::Optional;
use crate::shape::{distinct, fields_view, Shape, ShapeView};
use crate::value::{Value, ValueView};

verus! {

/// One variant of an enumeration: its name and the payload it carries.
#[derive(Debug, PartialEq, Eq)]
pub struct VariantDecl {
    pub name: String,
    pub shape: Shape,
}

/// What a `VariantDecl` stands for.
pub struct VariantDeclView {
    pub name: Seq<char>,
    pub shape: ShapeView,
}

impl View for VariantDecl {
    type V = VariantDeclView;

    open spec fn view(&self) -> VariantDeclView {
        VariantDeclView { name: self.name@, shape: self.shape@ }
    }
}

/// The declarations that a list of variants stands for, in order.
pub open spec fn variants_view(variants: Seq<VariantDecl>) -> Seq<VariantDeclView> {
    Seq::new(variants.len(), |i: int| variants[i]@)
}

/// One field of a record payload, under its name.
#[derive(Debug, PartialEq, Eq)]
pub struct NamedDatum {
    pub name: String,
    pub value: Datum,
}

/// What an enumeration stands for: its variants in declared order. The tag
/// of a variant is its position in this list.
pub struct EnumerationView {
    pub variants: Seq<VariantDeclView>,
}

impl EnumerationView {
    /// The names of the variants, in order.
    pub open spec fn names(self) -> Seq<Seq<char>> {
        Seq::new(self.variants.len(), |t: int| self.variants[t].name)
    }

    /// No two variants share a name, and no record names a field twice.
    pub open spec fn well_formed(self) -> bool {
        &&& distinct(self.names())
        &&& forall|t: int| 0 <= t < self.variants.len() ==> (#[trigger] self.variants[t]).shape.well_formed()
    }

    /// The enumeration declares the tag.
    pub open spec fn declares(self, tag: nat) -> bool {
        tag < self.variants.len()
    }

    /// The value is an instance of the enumeration: its tag is declared and
    /// its payload is what that variant declares.
    pub open spec fn has_instance(self, value: ValueView) -> bool {
        &&& self.declares(value.tag)
        &&& self.variants[value.tag as int].shape.admits(value.fields)
    }

    /// The named fields are those of the record, in declared order, each of
    /// the declared type.
    pub open spec fn record_admits(self, tag: nat, names: Seq<Seq<char>>, fields: Seq<DatumView>) -> bool {
        &&& self.declares(tag)
        &&& self.variants[tag as int].shape is Record
        &&& names == self.variants[tag as int].shape.names()
        &&& self.variants[tag as int].shape.admits(fields)
    }
}

/// The names of a list of named fields, in order.
pub open spec fn payload_names(named: Seq<NamedDatum>) -> Seq<Seq<char>> {
    Seq::new(named.len(), |i: int| named[i].name@)
}

/// The values of a list of named fields, in order.
pub open spec fn payload_values(named: Seq<NamedDatum>) -> Seq<DatumView> {
    Seq::new(named.len(), |i: int| named[i].value@)
}

/// A closed set of variants. It is fixed when it is made.
#[derive(Debug, PartialEq, Eq)]
pub struct Enumeration {
    variants: Vec<VariantDecl>,
}

impl View for Enumeration {
    type V = EnumerationView;

    closed spec fn view(&self) -> EnumerationView {
        EnumerationView { variants: variants_view(self.variants@) }
    }
}

impl Enumeration {
    #[verifier::type_invariant]
    spec fn valid(self) -> bool {
        self@.well_formed()
    }

    /// Makes an enumeration of the given variants, in that order. Fails
    /// where two variants, or two fields of one record, share a name.
    pub fn new(variants: Vec<VariantDecl>) -> (made: Result<Enumeration, ModelError>)
        ensures
            match made {
                Ok(schema) => schema@.variants == variants_view(variants@) && schema@.well_formed(),
                Err(error) => error == ModelError::DuplicateName && !(EnumerationView {
                    variants: variants_view(variants@),
                }).well_formed(),
            },
    {
        let ghost view = EnumerationView { variants: variants_view(variants@) };
        let mut upper: usize = 0;
        while upper < variants.len()
            invariant
                upper <= variants.len(),
                view.variants == variants_view(variants@),
                forall|i: int, j: int| 0 <= i < j < upper ==> view.names()[i] != view.names()[j],
                forall|t: int| 0 <= t < upper ==> (#[trigger] view.variants[t]).shape.well_formed(),
            decreases variants.len() - upper,
        {
            if !variants[upper].shape.is_well_formed() {
                assert(!view.variants[upper as int].shape.well_formed());
                return Err(ModelError::DuplicateName);
            }
            let mut lower: usize = 0;
            while lower < upper
                invariant
                    lower <= upper < variants.len(),
                    view.variants == variants_view(variants@),
                    forall|i: int| 0 <= i < lower ==> view.names()[i] != view.names()[upper as int],
                decreases upper - lower,
            {
                if variants[lower].name == variants[upper].name {
                    assert(view.names()[lower as int] == view.names()[upper as int]);
                    return Err(ModelError::DuplicateName);
                }
                lower += 1;
            }
            upper += 1;
        }
        Ok(Enumeration { variants })
    }

    /// The enumeration of an optional value of the given type: `Present`,
    /// with the value, under tag 0 and `Absent`, with nothing, under tag 1.
    pub fn optional(kind: Kind) -> (schema: Enumeration)
        ensures
            schema@.variants.len() == 2,
            schema@.variants[0] == (VariantDeclView { name: "Present"@, shape: ShapeView::Single(kind) }),
            schema@.variants[1] == (VariantDeclView { name: "Absent"@, shape: ShapeView::Unit }),
            schema@.well_formed(),
    {
        let mut variants: Vec<VariantDecl> = Vec::new();
        variants.push(VariantDecl { name: "Present".to_owned(), shape: Shape::Single(kind) });
        variants.push(VariantDecl { name: "Absent".to_owned(), shape: Shape::Unit });
        proof {
            reveal_strlit("Present");
            reveal_strlit("Absent");
            assert("Present"@.len() != "Absent"@.len());
        }
        Enumeration { variants }
    }

    /// The number of variants.
    pub fn len(&self) -> (count: usize)
        ensures
            count == self@.variants.len(),
            self@.well_formed(),
    {
        proof {
            use_type_invariant(self);
        }
        self.variants.len()
    }

    /// The tag of the variant with the given name, if there is one. No other
    /// variant has that name.
    pub fn tag_of(&self, name: &str) -> (found: Optional<usize>)
        ensures
            match found {
                Optional::Present(tag) => self@.declares(tag as nat) && self@.variants[tag as int].name == name@
                    && forall|t: int| 0 <= t < self@.variants.len() && self@.variants[t].name == name@ ==> t == tag,
                Optional::Absent => forall|t: int| 0 <= t < self@.variants.len() ==> self@.variants[t].name != name@,
            },
    {
        proof {
            use_type_invariant(self);
        }
        let wanted = name.to_owned();
        let mut tag: usize = 0;
        while tag < self.variants.len()
            invariant
                tag <= self.variants.len(),
                wanted@ == name@,
                self@.well_formed(),
                forall|t: int| 0 <= t < tag ==> self@.variants[t].name != name@,
            decreases self.variants.len() - tag,
        {
            if self.variants[tag].name == wanted {
                assert forall|t: int| 0 <= t < self@.variants.len() && self@.variants[t].name == name@ implies t == tag by {
                    assert(self@.names()[t] == self@.variants[t].name);
                    assert(self@.names()[tag as int] == self@.variants[tag as int].name);
                }
                return Optional::Present(tag);
            }
            tag += 1;
        }
        Optional::Absent
    }

    /// The declaration of the variant under `tag`, if the tag is declared.
    pub fn variant(&self, tag: usize) -> (found: Optional<&VariantDecl>)
        ensures
            match found {
                Optional::Present(decl) => self@.declares(tag as nat) && decl@ == self@.variants[tag as int],
                Optional::Absent => !self@.declares(tag as nat),
            },
    {
        if tag < self.variants.len() {
            Optional::Present(&self.variants[tag])
        } else {
            Optional::Absent
        }
    }

    /// Whether the value is an instance of this enumeration.
    pub fn admits(&self, value: &Value) -> (fits: bool)
        ensures
            fits == self@.has_instance(value@),
    {
        let tag = value.tag();
        if tag < self.variants.len() {
            self.variants[tag].shape.admits(value.fields())
        } else {
            false
        }
    }

    /// Builds an instance of a variant that carries nothing.
    pub fn unit(&self, tag: usize) -> (made: Result<Value, ModelError>)
        ensures
            match made {
                Ok(value) => self@.declares(tag as nat) && self@.variants[tag as int].shape is Unit
                    && value@ == (ValueView { tag: tag as nat, fields: Seq::empty() })
                    && self@.has_instance(value@),
                Err(error) => if self@.declares(tag as nat) {
                    error == ModelError::TypeMismatch && !(self@.variants[tag as int].shape is Unit)
                } else {
                    error == ModelError::UnknownVariant
                },
            },
    {
        if tag >= self.variants.len() {
            return Err(ModelError::UnknownVariant);
        }
        match &self.variants[tag].shape {
            Shape::Unit => {
                let fields: Vec<Datum> = Vec::new();
                assert(data_view(fields@) =~= Seq::empty());
                Ok(Value::assemble(tag, fields))
            },
            _ => Err(ModelError::TypeMismatch),
        }
    }

    /// Builds an instance of a variant that carries a single value.
    pub fn single(&self, tag: usize, datum: Datum) -> (made: Result<Value, ModelError>)
        ensures
            match made {
                Ok(value) => self@.declares(tag as nat) && self@.variants[tag as int].shape == ShapeView::Single(
                    datum@.kind(),
                ) && value@ == (ValueView { tag: tag as nat, fields: seq![datum@] })
                    && self@.has_instance(value@),
                Err(error) => if self@.declares(tag as nat) {
                    error == ModelError::TypeMismatch && self@.variants[tag as int].shape != ShapeView::Single(
                        datum@.kind(),
                    )
                } else {
                    error == ModelError::UnknownVariant
                },
            },
    {
        if tag >= self.variants.len() {
            return Err(ModelError::UnknownVariant);
        }
        match &self.variants[tag].shape {
            Shape::Single(kind) => {
                if datum.kind() == *kind {
                    let mut fields: Vec<Datum> = Vec::new();
                    fields.push(datum);
                    assert(data_view(fields@) =~= seq![datum@]);
                    Ok(Value::assemble(tag, fields))
                } else {
                    Err(ModelError::TypeMismatch)
                }
            },
            _ => Err(ModelError::TypeMismatch),
        }
    }

    /// Builds an instance of a variant that carries a tuple, from its fields
    /// in order.
    pub fn tuple(&self, tag: usize, fields: Vec<Datum>) -> (made: Result<Value, ModelError>)
        ensures
            match made {
                Ok(value) => self@.declares(tag as nat) && self@.variants[tag as int].shape is Tuple
                    && self@.variants[tag as int].shape.admits(data_view(fields@))
                    && value@ == (ValueView { tag: tag as nat, fields: data_view(fields@) })
                    && self@.has_instance(value@),
                Err(error) => if self@.declares(tag as nat) {
                    error == ModelError::TypeMismatch && !(self@.variants[tag as int].shape is Tuple
                        && self@.variants[tag as int].shape.admits(data_view(fields@)))
                } else {
                    error == ModelError::UnknownVariant
                },
            },
    {
        if tag >= self.variants.len() {
            return Err(ModelError::UnknownVariant);
        }
        match &self.variants[tag].shape {
            Shape::Tuple(_) => {
                if self.variants[tag].shape.admits(&fields) {
                    Ok(Value::assemble(tag, fields))
                } else {
                    Err(ModelError::TypeMismatch)
                }
            },
            _ => Err(ModelError::TypeMismatch),
        }
    }

    /// Builds an instance of a variant that carries a record, from its named
    /// fields in the order of their declaration.
    pub fn record(&self, tag: usize, named: Vec<NamedDatum>) -> (made: Result<Value, ModelError>)
        ensures
            match made {
                Ok(value) => self@.record_admits(tag as nat, payload_names(named@), payload_values(named@))
                    && value@ == (ValueView { tag: tag as nat, fields: payload_values(named@) })
                    && self@.has_instance(value@),
                Err(error) => if self@.declares(tag as nat) {
                    error == ModelError::TypeMismatch && !self@.record_admits(
                        tag as nat,
                        payload_names(named@),
                        payload_values(named@),
                    )
                } else {
                    error == ModelError::UnknownVariant
                },
            },
    {
        if tag >= self.variants.len() {
            return Err(ModelError::UnknownVariant);
        }
        match &self.variants[tag].shape {
            Shape::Record(declared) => {
                if named.len() != declared.len() {
                    assert(payload_names(named@).len() != self@.variants[tag as int].shape.names().len());
                    return Err(ModelError::TypeMismatch);
                }
                let ghost shape = self@.variants[tag as int].shape;
                let mut fields: Vec<Datum> = Vec::new();
                let mut index: usize = 0;
                while index < named.len()
                    invariant
                        index <= named.len(),
                        named.len() == declared.len(),
                        self@.declares(tag as nat),
                        shape == self@.variants[tag as int].shape,
                        shape == ShapeView::Record(fields_view(declared@)),
                        fields.len() == index,
                        forall|i: int| 0 <= i < index ==> fields[i]@ == named[i].value@,
                        forall|i: int| 0 <= i < index ==> named[i].name@ == shape.names()[i],
                        forall|i: int| 0 <= i < index ==> named[i].value@.kind() == shape.kinds()[i],
                    decreases named.len() - index,
                {
                    if named[index].name != declared[index].name {
                        assert(payload_names(named@)[index as int] != shape.names()[index as int]);
                        return Err(ModelError::TypeMismatch);
                    }
                    if named[index].value.kind() != declared[index].kind {
                        assert(payload_values(named@)[index as int].kind() != shape.kinds()[index as int]);
                        return Err(ModelError::TypeMismatch);
                    }
                    fields.push(named[index].value.clone());
                    index += 1;
                }
                assert(data_view(fields@) =~= payload_values(named@));
                assert(payload_names(named@) =~= shape.names());
                Ok(Value::assemble(tag, fields))
            },
            _ => Err(ModelError::TypeMismatch),
        }
    }
}

} // verus!
