//! Partial dispatch: one pattern, one handler and perhaps a fallback. It
//! is not checked for exhaustiveness: an instance that the pattern does not
//! match is passed over unless a fallback is given.

use vstd::prelude::*;
use crate::datum::{data_view, Datum, DatumView};
use crate::dispatch::returns_on;
use crate::optional::Optional;
use crate::pattern::{Pattern, PatternView};
use crate::value::{Value, ValueView};

verus! {

/// What partial dispatch does with an instance.
pub enum Course {
    /// The handler runs, with these bound fields.
    Handler(Seq<DatumView>),
    /// The fallback runs.
    Fallback,
    /// Nothing runs.
    Nothing,
}

/// What partial dispatch does with an instance: the handler where the
/// pattern matches, else the fallback where there is one, else nothing.
pub open spec fn course(pattern: PatternView, value: ValueView, fallback: bool) -> Course {
    if pattern.accepts(value) {
        Course::Handler(pattern.bindings(value))
    } else if fallback {
        Course::Fallback
    } else {
        Course::Nothing
    }
}

/// An instance of another variant than the one the pattern names is passed
/// over where there is no fallback: nothing runs, so nothing can be observed.
pub proof fn law_other_variant_is_passed_over(pattern: PatternView, value: ValueView)
    requires
        pattern matches PatternView::Variant { tag, fields } && tag != value.tag,
    ensures
        course(pattern, value, false) == Course::Nothing,
{
}

/// Runs `handler` on the fields that the pattern binds where the instance
/// matches it; else runs `fallback` where one is given; else does nothing
/// and returns nothing. The handler can be called only on a match and the
/// fallback only without one: for no other call is its precondition asked.
pub fn dispatch_if<R, H, F>(value: &Value, pattern: &Pattern, handler: H, fallback: Optional<F>) -> (outcome:
    Optional<R>) where H: FnOnce(Vec<Datum>) -> R, F: FnOnce() -> R
    requires
        forall|bound: Vec<Datum>|
            course(pattern@, value@, fallback is Present) == Course::Handler(data_view(bound@))
                ==> #[trigger] call_requires(handler, (bound,)),
        course(pattern@, value@, fallback is Present) is Fallback ==> (fallback matches Optional::Present(other)
            && call_requires(other, ())),
    ensures
        course(pattern@, value@, fallback is Present) matches Course::Handler(bindings) ==> (outcome matches Optional::Present(
            result,
        ) && returns_on(handler, bindings, result)),
        course(pattern@, value@, fallback is Present) is Fallback ==> (outcome matches Optional::Present(result)
            && fallback matches Optional::Present(other) && call_ensures(other, (), result)),
        course(pattern@, value@, fallback is Present) is Nothing ==> outcome is Absent,
{
    match pattern.extract(value) {
        Optional::Present(bound) => {
            let ghost given = bound;
            let result = handler(bound);
            assert(returns_on(handler, pattern@.bindings(value@), result)) by {
                assert(data_view(given@) == pattern@.bindings(value@) && call_ensures(handler, (given,), result));
            }
            Optional::Present(result)
        },
        Optional::Absent => match fallback {
            Optional::Present(other) => {
                let result = other();
                Optional::Present(result)
            },
            Optional::Absent => Optional::Absent,
        },
    }
}

} // verus!
