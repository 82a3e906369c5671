//! Full dispatch: an ordered list of arms that is checked against the
//! enumeration when it is defined, and then picks the first arm that an
//! instance matches.

use vstd::prelude::*;
use crate::datum::{data_view, Datum, DatumView};
use crate::error::ModelError;
use crate::optional::Optional;
use crate::pattern::{Pattern, PatternView};
use crate::schema::{Enumeration, EnumerationView};
use crate::value::{Value, ValueView};

verus! {

/// One arm of a match: a pattern and what to run when it is the first to match.
pub struct Arm<H> {
    pub pattern: Pattern,
    pub handler: H,
}

/// The patterns of a list of arms, in order.
pub open spec fn arm_patterns<H>(arms: Seq<Arm<H>>) -> Seq<PatternView> {
    Seq::new(arms.len(), |i: int| arms[i].pattern@)
}

/// Some arm names a variant that the enumeration does not declare.
pub open spec fn strays(schema: EnumerationView, arms: Seq<PatternView>) -> bool {
    exists|i: int| 0 <= i < arms.len() && (#[trigger] arms[i]).strays(schema)
}

/// Every arm can be held against the instances of the enumeration.
pub open spec fn well_typed(schema: EnumerationView, arms: Seq<PatternView>) -> bool {
    forall|i: int| 0 <= i < arms.len() ==> (#[trigger] arms[i]).well_typed(schema)
}

/// Some arm matches every instance of the variant under `tag`.
pub open spec fn covered(arms: Seq<PatternView>, tag: nat) -> bool {
    exists|i: int| 0 <= i < arms.len() && (#[trigger] arms[i]).covers(tag)
}

/// Every declared variant is covered: by an arm of its own that holds no
/// literal, or by a wildcard.
pub open spec fn exhaustive(schema: EnumerationView, arms: Seq<PatternView>) -> bool {
    forall|tag: nat| schema.declares(tag) ==> #[trigger] covered(arms, tag)
}

/// Why a list of arms cannot be defined as a match on the enumeration, if
/// it cannot. Of several faults the first in this order is reported: an
/// undeclared variant, an arm that is not well typed, an uncovered variant.
pub open spec fn fault(schema: EnumerationView, arms: Seq<PatternView>) -> Option<ModelError> {
    if strays(schema, arms) {
        Some(ModelError::UnknownVariant)
    } else if !well_typed(schema, arms) {
        Some(ModelError::TypeMismatch)
    } else if !exhaustive(schema, arms) {
        Some(ModelError::NonExhaustiveMatch)
    } else {
        None
    }
}

/// The arm at `arm` matches the instance and no earlier arm does.
pub open spec fn first_match(arms: Seq<PatternView>, value: ValueView, arm: int) -> bool {
    &&& 0 <= arm < arms.len()
    &&& arms[arm].accepts(value)
    &&& forall|earlier: int| 0 <= earlier < arm ==> !(#[trigger] arms[earlier]).accepts(value)
}

/// The handler, called with fields that stand for `bindings`, may return
/// `result`.
pub open spec fn returns_on<R, H: FnOnce(Vec<Datum>) -> R>(handler: H, bindings: Seq<DatumView>, result: R) -> bool {
    exists|bound: Vec<Datum>| data_view(bound@) == bindings && #[trigger] call_ensures(handler, (bound,), result)
}

/// What a match picks for an instance: the arm, and the payload fields
/// that its pattern binds.
#[derive(Debug, PartialEq, Eq)]
pub struct Selection {
    pub arm: usize,
    pub bindings: Vec<Datum>,
}

impl Selection {
    /// This is what the arms pick for the instance.
    pub open spec fn picked_by(self, arms: Seq<PatternView>, value: ValueView) -> bool {
        &&& first_match(arms, value, self.arm as int)
        &&& data_view(self.bindings@) == arms[self.arm as int].bindings(value)
    }
}

/// What a match stands for: the enumeration it is about, and its patterns
/// in order.
pub struct TableView {
    pub schema: EnumerationView,
    pub arms: Seq<PatternView>,
}

/// A match that has been checked against its enumeration. It exists only
/// where the arms are well typed and leave no variant uncovered.
pub struct MatchTable<'a, H> {
    schema: &'a Enumeration,
    arms: Vec<Arm<H>>,
}

impl<'a, H> View for MatchTable<'a, H> {
    type V = TableView;

    closed spec fn view(&self) -> TableView {
        TableView { schema: self.schema@, arms: arm_patterns(self.arms@) }
    }
}

/// At most one arm is the first to match: a match never goes on to a
/// later arm.
pub proof fn law_first_match_is_unique(arms: Seq<PatternView>, value: ValueView, one: int, other: int)
    requires
        first_match(arms, value, one),
        first_match(arms, value, other),
    ensures
        one == other,
{
}

/// Among the arms up to `found`, which matches, one is the first to match.
proof fn lemma_least_match(arms: Seq<PatternView>, value: ValueView, found: int)
    requires
        0 <= found < arms.len(),
        arms[found].accepts(value),
    ensures
        exists|arm: int| #[trigger] first_match(arms, value, arm),
    decreases found,
{
    if exists|earlier: int| 0 <= earlier < found && (#[trigger] arms[earlier]).accepts(value) {
        let earlier = choose|earlier: int| 0 <= earlier < found && (#[trigger] arms[earlier]).accepts(value);
        lemma_least_match(arms, value, earlier);
    } else {
        assert(first_match(arms, value, found));
    }
}

/// A match that can be defined handles every instance: for each instance of
/// the enumeration there is a first arm that matches it.
pub proof fn law_defined_match_is_total(schema: EnumerationView, arms: Seq<PatternView>, value: ValueView)
    requires
        fault(schema, arms) is None,
        schema.has_instance(value),
    ensures
        exists|arm: int| #[trigger] first_match(arms, value, arm),
{
    assert(covered(arms, value.tag));
    let covering = choose|i: int| 0 <= i < arms.len() && (#[trigger] arms[i]).covers(value.tag);
    assert(arms[covering].well_typed(schema));
    assert(arms[covering].accepts(value));
    lemma_least_match(arms, value, covering);
}

/// Every arm names one variant, is well typed and holds no literal, and
/// every declared variant is named by one arm and no more.
pub open spec fn covers_each_once(schema: EnumerationView, arms: Seq<PatternView>) -> bool {
    &&& forall|i: int|
        0 <= i < arms.len() ==> {
            &&& (#[trigger] arms[i]) matches PatternView::Variant { tag, fields }
            &&& arms[i].well_typed(schema)
            &&& arms[i].covers(tag)
        }
    &&& forall|tag: nat| schema.declares(tag) ==> #[trigger] covered(arms, tag)
    &&& forall|i: int, j: int|
        0 <= i < j < arms.len() ==> (#[trigger] arms[i])->tag != (#[trigger] arms[j])->tag
}

/// A list of arms that covers each variant exactly once, in whatever order,
/// can be defined as a match, and the match has an arm for every instance
/// of the enumeration: the one that names the instance's variant.
pub proof fn law_full_cover_succeeds(schema: EnumerationView, arms: Seq<PatternView>, value: ValueView)
    requires
        covers_each_once(schema, arms),
        schema.has_instance(value),
    ensures
        fault(schema, arms) is None,
        exists|arm: int| #[trigger] first_match(arms, value, arm) && arms[arm]->tag == value.tag,
{
    assert(!strays(schema, arms)) by {
        if strays(schema, arms) {
            let i = choose|i: int| 0 <= i < arms.len() && (#[trigger] arms[i]).strays(schema);
            assert(arms[i].well_typed(schema));
        }
    }
    law_defined_match_is_total(schema, arms, value);
    let arm = choose|arm: int| #[trigger] first_match(arms, value, arm);
    assert(arms[arm] is Variant);
    assert(first_match(arms, value, arm) && arms[arm]->tag == value.tag);
}

/// A list of arms without a wildcard that has no arm for some declared
/// variant cannot be defined as a match; where its arms are well typed, it
/// is refused as not exhaustive. No instance takes part in this: the list
/// is refused whether or not an instance of that variant is ever built.
pub proof fn law_omitted_variant_is_rejected(schema: EnumerationView, arms: Seq<PatternView>, omitted: nat)
    requires
        schema.declares(omitted),
        forall|i: int|
            0 <= i < arms.len() ==> ((#[trigger] arms[i]) matches PatternView::Variant { tag, fields } && tag
                != omitted),
    ensures
        !exhaustive(schema, arms),
        fault(schema, arms) is Some,
        well_typed(schema, arms) ==> fault(schema, arms) == Some(ModelError::NonExhaustiveMatch),
{
    assert(!covered(arms, omitted)) by {
        if covered(arms, omitted) {
            let i = choose|i: int| 0 <= i < arms.len() && (#[trigger] arms[i]).covers(omitted);
            assert(arms[i] is Variant);
        }
    }
    if well_typed(schema, arms) && strays(schema, arms) {
        let i = choose|i: int| 0 <= i < arms.len() && (#[trigger] arms[i]).strays(schema);
        assert(arms[i].well_typed(schema));
    }
}

/// Whether some arm matches every instance of the variant under `tag`.
fn is_covered<H>(arms: &Vec<Arm<H>>, tag: usize) -> (found: bool)
    ensures
        found == covered(arm_patterns(arms@), tag as nat),
{
    let mut index: usize = 0;
    while index < arms.len()
        invariant
            index <= arms.len(),
            forall|i: int| 0 <= i < index ==> !(#[trigger] arm_patterns(arms@)[i]).covers(tag as nat),
        decreases arms.len() - index,
    {
        if arms[index].pattern.covers(tag) {
            assert(arm_patterns(arms@)[index as int].covers(tag as nat));
            return true;
        }
        index += 1;
    }
    false
}

impl<'a, H> MatchTable<'a, H> {
    #[verifier::type_invariant]
    spec fn valid(self) -> bool {
        fault(self@.schema, self@.arms) is None
    }

    /// The handler of the arm at `arm`.
    pub closed spec fn handler(self, arm: int) -> H {
        self.arms@[arm].handler
    }

    /// The handler of the arm that the instance selects may be called with
    /// the fields that the arm binds.
    pub open spec fn handler_ready<R>(self, value: ValueView) -> bool where H: Fn(Vec<Datum>) -> R {
        forall|arm: int, bound: Vec<Datum>|
            first_match(self@.arms, value, arm) && data_view(bound@) == self@.arms[arm].bindings(value)
                ==> #[trigger] call_requires(self.handler(arm), (bound,))
    }

    /// Defines a match on the enumeration from its arms, in order. This is
    /// where a match is refused: for an arm that names no declared variant,
    /// for an arm that is not well typed, and for a list that leaves a
    /// variant uncovered without a wildcard. What is defined here never
    /// lacks an arm when it is used.
    pub fn define(schema: &'a Enumeration, arms: Vec<Arm<H>>) -> (made: Result<MatchTable<'a, H>, ModelError>)
        ensures
            match made {
                Ok(table) => {
                    &&& fault(schema@, arm_patterns(arms@)) is None
                    &&& table@.schema == schema@
                    &&& table@.arms == arm_patterns(arms@)
                    &&& forall|arm: int| 0 <= arm < arms.len() ==> table.handler(arm) == arms[arm].handler
                },
                Err(error) => fault(schema@, arm_patterns(arms@)) == Some(error),
            },
    {
        let ghost patterns = arm_patterns(arms@);
        let mut mistyped = false;
        let mut index: usize = 0;
        while index < arms.len()
            invariant
                index <= arms.len(),
                patterns == arm_patterns(arms@),
                forall|i: int| 0 <= i < index ==> !(#[trigger] patterns[i]).strays(schema@),
                mistyped <==> exists|i: int| 0 <= i < index && !(#[trigger] patterns[i]).well_typed(schema@),
            decreases arms.len() - index,
        {
            match arms[index].pattern.check(schema) {
                Ok(_) => {},
                Err(ModelError::UnknownVariant) => {
                    assert(patterns[index as int].strays(schema@));
                    return Err(ModelError::UnknownVariant);
                },
                Err(_) => {
                    assert(!patterns[index as int].well_typed(schema@));
                    mistyped = true;
                },
            }
            index += 1;
        }
        if mistyped {
            return Err(ModelError::TypeMismatch);
        }
        let count = schema.len();
        let mut tag: usize = 0;
        while tag < count
            invariant
                tag <= count,
                count == schema@.variants.len(),
                patterns == arm_patterns(arms@),
                !strays(schema@, patterns),
                well_typed(schema@, patterns),
                forall|t: nat| t < tag ==> #[trigger] covered(patterns, t),
            decreases count - tag,
        {
            if !is_covered(&arms, tag) {
                assert(schema@.declares(tag as nat) && !covered(patterns, tag as nat));
                return Err(ModelError::NonExhaustiveMatch);
            }
            tag += 1;
        }
        Ok(MatchTable { schema, arms })
    }

    /// The number of arms.
    pub fn len(&self) -> (count: usize)
        ensures
            count == self@.arms.len(),
            fault(self@.schema, self@.arms) is None,
    {
        proof {
            use_type_invariant(self);
        }
        self.arms.len()
    }

    /// Picks the arm for an instance: the first whose pattern matches, with
    /// the fields that the pattern binds. An instance of the enumeration
    /// always has one. A value that is no instance of the enumeration is
    /// refused before any arm is tried.
    pub fn select(&self, value: &Value) -> (chosen: Result<Selection, ModelError>)
        ensures
            match chosen {
                Ok(selection) => self@.schema.has_instance(value@) && selection.picked_by(self@.arms, value@),
                Err(error) => error == ModelError::TypeMismatch && !self@.schema.has_instance(value@),
            },
    {
        if !self.schema.admits(value) {
            return Err(ModelError::TypeMismatch);
        }
        proof {
            use_type_invariant(self);
            law_defined_match_is_total(self@.schema, self@.arms, value@);
        }
        let mut index: usize = 0;
        while index < self.arms.len()
            invariant
                index <= self.arms.len(),
                self@.arms == arm_patterns(self.arms@),
                self@.schema.has_instance(value@),
                forall|i: int| 0 <= i < index ==> !(#[trigger] self@.arms[i]).accepts(value@),
            decreases self.arms.len() - index,
        {
            match self.arms[index].pattern.extract(value) {
                Optional::Present(bindings) => {
                    return Ok(Selection { arm: index, bindings });
                },
                Optional::Absent => {},
            }
            index += 1;
        }
        // Not reached: some arm matches every instance, and the loop has
        // tried them all.
        proof {
            let arm = choose|arm: int| #[trigger] first_match(self@.arms, value@, arm);
            assert(self@.arms[arm].accepts(value@));
            assert(false);
        }
        Err(ModelError::TypeMismatch)
    }

    /// Runs the match on an instance: calls the handler of the first arm
    /// whose pattern matches, with the fields that the pattern binds, and
    /// returns what the handler returns. No other handler is called, so
    /// only that handler has to accept what it is given. A value that is no
    /// instance of the enumeration is refused and no handler is called.
    pub fn dispatch<R>(&self, value: &Value) -> (outcome: Result<R, ModelError>) where H: Fn(Vec<Datum>) -> R
        requires
            self.handler_ready::<R>(value@),
        ensures
            match outcome {
                Ok(result) => self@.schema.has_instance(value@) && exists|arm: int|
                    #![trigger first_match(self@.arms, value@, arm)]
                    first_match(self@.arms, value@, arm) && returns_on(
                        self.handler(arm),
                        self@.arms[arm].bindings(value@),
                        result,
                    ),
                Err(error) => error == ModelError::TypeMismatch && !self@.schema.has_instance(value@),
            },
    {
        match self.select(value) {
            Ok(selection) => {
                let Selection { arm, bindings } = selection;
                let ghost given = bindings;
                assert(call_requires(self.handler(arm as int), (given,)));
                let handler = &self.arms[arm].handler;
                let result = handler(bindings);
                assert(first_match(self@.arms, value@, arm as int) && returns_on(
                    self.handler(arm as int),
                    self@.arms[arm as int].bindings(value@),
                    result,
                )) by {
                    assert(call_ensures(self.handler(arm as int), (given,), result));
                }
                Ok(result)
            },
            Err(error) => Err(error),
        }
    }
}

} // verus!
