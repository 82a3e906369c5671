//! Patterns: what an arm of a match asks of an instance, and what it binds.

use vstd::prelude::*;
use crate::datum::{data_view, Datum, DatumView, Kind};
use crate::optional::Optional;
use crate::error::ModelError;
use crate::schema::{Enumeration, EnumerationView};
use crate::value::{Value, ValueView};

verus! {

/// What a pattern asks of one payload field.
#[derive(Debug, PartialEq, Eq)]
pub enum FieldPattern {
    /// Any value, which is not bound.
    Any,
    /// Any value, which is bound and handed to the handler.
    Bind,
    /// This value and no other.
    Literal(Datum),
}

/// What a `FieldPattern` stands for.
pub enum FieldPatternView {
    Any,
    Bind,
    Literal(DatumView),
}

impl View for FieldPattern {
    type V = FieldPatternView;

    open spec fn view(&self) -> FieldPatternView {
        match self {
            FieldPattern::Any => FieldPatternView::Any,
            FieldPattern::Bind => FieldPatternView::Bind,
            FieldPattern::Literal(datum) => FieldPatternView::Literal(datum@),
        }
    }
}

impl FieldPatternView {
    /// The field meets the pattern: a literal asks for its own value,
    /// the others ask for nothing.
    pub open spec fn accepts(self, datum: DatumView) -> bool {
        self matches FieldPatternView::Literal(literal) ==> literal == datum
    }

    /// The pattern can be held against a field of this type.
    pub open spec fn fits(self, kind: Kind) -> bool {
        self matches FieldPatternView::Literal(literal) ==> literal.kind() == kind
    }
}

/// The sub-patterns that a list of field patterns stands for, in order.
pub open spec fn field_patterns_view(patterns: Seq<FieldPattern>) -> Seq<FieldPatternView> {
    Seq::new(patterns.len(), |i: int| patterns[i]@)
}

/// The payload fields among the first `upto` that the sub-patterns bind,
/// in payload order.
pub open spec fn bound_prefix(patterns: Seq<FieldPatternView>, payload: Seq<DatumView>, upto: nat) -> Seq<
    DatumView,
>
    decreases upto,
{
    if upto == 0 {
        Seq::empty()
    } else {
        let earlier = bound_prefix(patterns, payload, (upto - 1) as nat);
        if patterns[upto - 1] is Bind {
            earlier.push(payload[upto - 1])
        } else {
            earlier
        }
    }
}

/// One pattern of a match.
#[derive(Debug, PartialEq, Eq)]
pub enum Pattern {
    /// Matches every instance and binds nothing.
    Wildcard,
    /// Matches the instances of one variant whose payload meets the
    /// sub-patterns, which are given in the order of the declared fields.
    Variant { tag: usize, fields: Vec<FieldPattern> },
}

/// What a `Pattern` stands for.
pub enum PatternView {
    Wildcard,
    Variant { tag: nat, fields: Seq<FieldPatternView> },
}

impl View for Pattern {
    type V = PatternView;

    open spec fn view(&self) -> PatternView {
        match self {
            Pattern::Wildcard => PatternView::Wildcard,
            Pattern::Variant { tag, fields } => PatternView::Variant {
                tag: *tag as nat,
                fields: field_patterns_view(fields@),
            },
        }
    }
}

impl PatternView {
    /// The instance matches: the tags are equal, the sub-patterns are as
    /// many as the payload fields, and each field meets its sub-pattern.
    pub open spec fn accepts(self, value: ValueView) -> bool {
        match self {
            PatternView::Wildcard => true,
            PatternView::Variant { tag, fields } => {
                &&& tag == value.tag
                &&& fields.len() == value.fields.len()
                &&& forall|i: int| 0 <= i < fields.len() ==> (#[trigger] fields[i]).accepts(value.fields[i])
            },
        }
    }

    /// The payload fields that the pattern binds, in payload order.
    pub open spec fn bindings(self, value: ValueView) -> Seq<DatumView> {
        match self {
            PatternView::Wildcard => Seq::empty(),
            PatternView::Variant { tag, fields } => bound_prefix(fields, value.fields, fields.len()),
        }
    }

    /// The pattern names a variant that the enumeration does not declare.
    pub open spec fn strays(self, schema: EnumerationView) -> bool {
        self matches PatternView::Variant { tag, fields } && !schema.declares(tag)
    }

    /// The pattern can be held against the instances of the enumeration: it
    /// names a declared variant, with one sub-pattern for each declared
    /// field, and each literal is of the field's type.
    pub open spec fn well_typed(self, schema: EnumerationView) -> bool {
        self matches PatternView::Variant { tag, fields } ==> {
            &&& schema.declares(tag)
            &&& fields.len() == schema.variants[tag as int].shape.kinds().len()
            &&& forall|i: int| 0 <= i < fields.len() ==> (#[trigger] fields[i]).fits(
                schema.variants[tag as int].shape.kinds()[i],
            )
        }
    }

    /// The pattern matches every instance of the variant under `tag`: it is
    /// the wildcard, or names that variant and holds no literal.
    pub open spec fn covers(self, tag: nat) -> bool {
        match self {
            PatternView::Wildcard => true,
            PatternView::Variant { tag: own, fields } => {
                &&& own == tag
                &&& forall|i: int| 0 <= i < fields.len() ==> !((#[trigger] fields[i]) is Literal)
            },
        }
    }
}

impl FieldPattern {
    /// Whether the field meets the pattern.
    pub fn accepts(&self, datum: &Datum) -> (met: bool)
        ensures
            met == self@.accepts(datum@),
    {
        match self {
            FieldPattern::Literal(literal) => literal.same(datum),
            _ => true,
        }
    }
}

impl Pattern {
    /// Whether the instance matches the pattern.
    pub fn accepts(&self, value: &Value) -> (met: bool)
        ensures
            met == self@.accepts(value@),
    {
        match self {
            Pattern::Wildcard => true,
            Pattern::Variant { tag, fields } => {
                let payload = value.fields();
                if *tag != value.tag() || fields.len() != payload.len() {
                    return false;
                }
                let mut index: usize = 0;
                while index < fields.len()
                    invariant
                        index <= fields.len(),
                        fields.len() == payload.len(),
                        data_view(payload@) == value@.fields,
                        self@ == (PatternView::Variant { tag: *tag as nat, fields: field_patterns_view(fields@) }),
                        forall|i: int| 0 <= i < index ==> (#[trigger] field_patterns_view(fields@)[i]).accepts(
                            value@.fields[i],
                        ),
                    decreases fields.len() - index,
                {
                    if !fields[index].accepts(&payload[index]) {
                        assert(!field_patterns_view(fields@)[index as int].accepts(value@.fields[index as int]));
                        return false;
                    }
                    index += 1;
                }
                true
            },
        }
    }

    /// Holds the pattern against the declarations of an enumeration. A
    /// pattern for a variant that is not declared is refused as such; one
    /// with the wrong number of sub-patterns, or with a literal of another
    /// type than the field's, as a type mismatch.
    pub fn check(&self, schema: &Enumeration) -> (checked: Result<(), ModelError>)
        ensures
            match checked {
                Ok(_) => self@.well_typed(schema@),
                Err(error) => if self@.strays(schema@) {
                    error == ModelError::UnknownVariant
                } else {
                    error == ModelError::TypeMismatch && !self@.well_typed(schema@)
                },
            },
    {
        match self {
            Pattern::Wildcard => Ok(()),
            Pattern::Variant { tag, fields } => {
                match schema.variant(*tag) {
                    Optional::Absent => Err(ModelError::UnknownVariant),
                    Optional::Present(declared) => {
                        if fields.len() != declared.shape.arity() {
                            return Err(ModelError::TypeMismatch);
                        }
                        let ghost kinds = schema@.variants[*tag as int].shape.kinds();
                        let mut index: usize = 0;
                        while index < fields.len()
                            invariant
                                index <= fields.len(),
                                schema@.declares(*tag as nat),
                                kinds == schema@.variants[*tag as int].shape.kinds(),
                                kinds == declared@.shape.kinds(),
                                fields.len() == kinds.len(),
                                self@ == (PatternView::Variant {
                                    tag: *tag as nat,
                                    fields: field_patterns_view(fields@),
                                }),
                                forall|i: int| 0 <= i < index ==> (#[trigger] field_patterns_view(fields@)[i]).fits(
                                    kinds[i],
                                ),
                            decreases fields.len() - index,
                        {
                            match &fields[index] {
                                FieldPattern::Literal(literal) => {
                                    match declared.shape.kind_at(index) {
                                        Optional::Present(kind) => {
                                            if literal.kind() != kind {
                                                assert(!field_patterns_view(fields@)[index as int].fits(
                                                    kinds[index as int],
                                                ));
                                                return Err(ModelError::TypeMismatch);
                                            }
                                        },
                                        Optional::Absent => {
                                            return Err(ModelError::TypeMismatch);
                                        },
                                    }
                                },
                                _ => {},
                            }
                            index += 1;
                        }
                        Ok(())
                    },
                }
            },
        }
    }

    /// Whether the pattern matches every instance of the variant under `tag`.
    pub fn covers(&self, tag: usize) -> (covered: bool)
        ensures
            covered == self@.covers(tag as nat),
    {
        match self {
            Pattern::Wildcard => true,
            Pattern::Variant { tag: own, fields } => {
                if *own != tag {
                    return false;
                }
                let mut index: usize = 0;
                while index < fields.len()
                    invariant
                        index <= fields.len(),
                        self@ == (PatternView::Variant { tag: *own as nat, fields: field_patterns_view(fields@) }),
                        forall|i: int| 0 <= i < index ==> !((#[trigger] field_patterns_view(fields@)[i]) is Literal),
                    decreases fields.len() - index,
                {
                    match &fields[index] {
                        FieldPattern::Literal(_) => {
                            assert(field_patterns_view(fields@)[index as int] is Literal);
                            return false;
                        },
                        _ => {},
                    }
                    index += 1;
                }
                true
            },
        }
    }

    /// The payload fields that the pattern binds, where the instance
    /// matches; nothing where it does not.
    pub fn extract(&self, value: &Value) -> (bound: Optional<Vec<Datum>>)
        ensures
            match bound {
                Optional::Present(data) => self@.accepts(value@) && data_view(data@) == self@.bindings(value@),
                Optional::Absent => !self@.accepts(value@),
            },
    {
        if !self.accepts(value) {
            return Optional::Absent;
        }
        let mut data: Vec<Datum> = Vec::new();
        match self {
            Pattern::Wildcard => {
                assert(data_view(data@) =~= Seq::empty());
            },
            Pattern::Variant { tag, fields } => {
                let payload = value.fields();
                let ghost patterns = field_patterns_view(fields@);
                assert(data_view(data@) =~= bound_prefix(patterns, value@.fields, 0));
                let mut index: usize = 0;
                while index < fields.len()
                    invariant
                        index <= fields.len(),
                        fields.len() == payload.len(),
                        patterns == field_patterns_view(fields@),
                        data_view(payload@) == value@.fields,
                        data_view(data@) == bound_prefix(patterns, value@.fields, index as nat),
                    decreases fields.len() - index,
                {
                    match &fields[index] {
                        FieldPattern::Bind => {
                            let ghost earlier = data_view(data@);
                            data.push(payload[index].clone());
                            assert(data_view(data@) =~= earlier.push(value@.fields[index as int]));
                        },
                        _ => {},
                    }
                    index += 1;
                }
            },
        }
        Optional::Present(data)
    }
}

} // verus!
