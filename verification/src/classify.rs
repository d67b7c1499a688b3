//! Classification of parameters.
//!
//! A typed parameter is an injected dependency where the last segment of
//! its declared type's path is named `Dep`, and a captured field otherwise.
//! The test is by name only: the type is not resolved, so any path that
//! ends in `Dep` qualifies.

use crate::model::{ArgView, ParamView, ShapeView, TypeShape};
use vstd::prelude::*;
use vstd::string::StringExecFns;

verus! {

/// Whether a type of this shape marks an injected dependency.
pub open spec fn is_dependency(shape: ShapeView) -> bool {
    match shape {
        ShapeView::Path(segments) => segments.len() > 0 && segments.last() == "Dep"@,
        ShapeView::Other => false,
    }
}

/// Whether a parameter of this type is an injected dependency.
pub fn is_dependency_type(ty: &TypeShape) -> (dependency: bool)
    ensures
        dependency == is_dependency(ty@),
{
    match ty {
        TypeShape::Path(segments) => {
            let count = segments.len();
            if count == 0 {
                false
            } else {
                let marker = String::from_str("Dep");
                segments[count - 1] == marker
            }
        },
        TypeShape::Other => false,
    }
}

/// Whether a parameter is a captured field.
pub open spec fn is_captured(arg: ArgView) -> bool {
    arg matches ArgView::Typed(param) && !is_dependency(param.shape)
}

/// Whether a parameter is an injected dependency.
pub open spec fn is_injected(arg: ArgView) -> bool {
    arg matches ArgView::Typed(param) && is_dependency(param.shape)
}

/// Whether any parameter is a receiver.
pub open spec fn has_receiver(inputs: Seq<ArgView>) -> bool {
    exists|i: int| 0 <= i < inputs.len() && inputs[i] is Receiver
}

/// The captured fields among `inputs`, in declaration order.
pub open spec fn captured(inputs: Seq<ArgView>) -> Seq<ParamView>
    decreases inputs.len(),
{
    if inputs.len() == 0 {
        Seq::empty()
    } else {
        let earlier = captured(inputs.drop_last());
        match inputs.last() {
            ArgView::Typed(param) => if is_dependency(param.shape) {
                earlier
            } else {
                earlier.push(param)
            },
            ArgView::Receiver => earlier,
        }
    }
}

/// The injected dependencies among `inputs`, in declaration order.
pub open spec fn injected(inputs: Seq<ArgView>) -> Seq<ParamView>
    decreases inputs.len(),
{
    if inputs.len() == 0 {
        Seq::empty()
    } else {
        let earlier = injected(inputs.drop_last());
        match inputs.last() {
            ArgView::Typed(param) => if is_dependency(param.shape) {
                earlier.push(param)
            } else {
                earlier
            },
            ArgView::Receiver => earlier,
        }
    }
}

/// The typed parameters among `inputs`, in declaration order.
pub open spec fn typed(inputs: Seq<ArgView>) -> Seq<ParamView>
    decreases inputs.len(),
{
    if inputs.len() == 0 {
        Seq::empty()
    } else {
        let earlier = typed(inputs.drop_last());
        match inputs.last() {
            ArgView::Typed(param) => earlier.push(param),
            ArgView::Receiver => earlier,
        }
    }
}

/// The positions among `inputs` of the injected dependencies, or of the
/// captured fields, in increasing order.
pub open spec fn positions(inputs: Seq<ArgView>, dependencies: bool) -> Seq<int>
    decreases inputs.len(),
{
    if inputs.len() == 0 {
        Seq::empty()
    } else {
        let earlier = positions(inputs.drop_last(), dependencies);
        match inputs.last() {
            ArgView::Typed(param) => if is_dependency(param.shape) == dependencies {
                earlier.push(inputs.len() - 1)
            } else {
                earlier
            },
            ArgView::Receiver => earlier,
        }
    }
}

/// The injected dependencies, or the captured fields, among `inputs`.
pub open spec fn selection(inputs: Seq<ArgView>, dependencies: bool) -> Seq<ParamView> {
    if dependencies {
        injected(inputs)
    } else {
        captured(inputs)
    }
}

/// Classification keeps the declaration order within each class.
///
/// The captured fields are exactly the typed parameters whose type is no
/// dependency, and the injected dependencies exactly those whose type is
/// one: the entry at index `j` of either list is the parameter at position
/// `positions(..)[j]`, the positions increase strictly, and every
/// parameter of the class has its position among them.
pub proof fn lemma_selection_in_order(inputs: Seq<ArgView>, dependencies: bool)
    ensures
        positions(inputs, dependencies).len() == selection(inputs, dependencies).len(),
        forall|j: int|
            0 <= j < positions(inputs, dependencies).len() ==> {
                &&& 0 <= #[trigger] positions(inputs, dependencies)[j] < inputs.len()
                &&& inputs[positions(inputs, dependencies)[j]] == ArgView::Typed(
                    selection(inputs, dependencies)[j],
                )
                &&& is_dependency(selection(inputs, dependencies)[j].shape) == dependencies
            },
        forall|j: int, k: int|
            0 <= j < k < positions(inputs, dependencies).len() ==> #[trigger] positions(
                inputs,
                dependencies,
            )[j] < #[trigger] positions(inputs, dependencies)[k],
        forall|i: int|
            0 <= i < inputs.len() && (#[trigger] inputs[i] matches ArgView::Typed(param)
                && is_dependency(param.shape) == dependencies) ==> positions(
                inputs,
                dependencies,
            ).contains(i),
    decreases inputs.len(),
{
    if inputs.len() > 0 {
        let shorter = inputs.drop_last();
        lemma_selection_in_order(shorter, dependencies);
        let earlier = positions(shorter, dependencies);
        let now = positions(inputs, dependencies);
        assert forall|i: int|
            0 <= i < inputs.len() && (#[trigger] inputs[i] matches ArgView::Typed(param)
                && is_dependency(param.shape) == dependencies) implies now.contains(i) by {
            if i < shorter.len() {
                assert(shorter[i] == inputs[i]);
                assert(earlier.contains(i));
                let j = choose|j: int| 0 <= j < earlier.len() && earlier[j] == i;
                assert(now[j] == i);
            } else {
                assert(now[now.len() - 1] == i);
            }
        }
    }
}

/// Every typed parameter is a captured field or an injected dependency,
/// and never both: without a receiver the two classes together are as many
/// as the parameters.
pub proof fn lemma_classes_partition(inputs: Seq<ArgView>)
    ensures
        captured(inputs).len() + injected(inputs).len() == typed(inputs).len(),
        typed(inputs).len() <= inputs.len(),
        !has_receiver(inputs) ==> typed(inputs).len() == inputs.len(),
        has_receiver(inputs) ==> typed(inputs).len() < inputs.len(),
    decreases inputs.len(),
{
    if inputs.len() > 0 {
        let shorter = inputs.drop_last();
        lemma_classes_partition(shorter);
        if has_receiver(shorter) {
            let i = choose|i: int| 0 <= i < shorter.len() && shorter[i] is Receiver;
            assert(inputs[i] is Receiver);
        }
        if has_receiver(inputs) && !has_receiver(shorter) {
            let i = choose|i: int| 0 <= i < inputs.len() && inputs[i] is Receiver;
            if i < shorter.len() {
                assert(shorter[i] is Receiver);
            }
        }
        if inputs.last() is Receiver {
            assert(inputs[inputs.len() - 1] is Receiver);
        }
    }
}

} // verus!
