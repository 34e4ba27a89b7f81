//! Views of the containers that the contracts of this library speak of.
//!
//! A contract speaks of a value by its view: a text by its characters, a
//! record by the views of its fields. These functions carry the view of an
//! element over to the standard containers around it.

use vstd::prelude::*;

verus! {

/// The view of an optional value.
pub open spec fn option_view<T: View>(value: Option<T>) -> Option<T::V> {
    match value {
        Some(inner) => Some(inner@),
        None => None,
    }
}

/// The view of an outcome.
pub open spec fn result_view<T: View, E: View>(value: Result<T, E>) -> Result<T::V, E::V> {
    match value {
        Ok(inner) => Ok(inner@),
        Err(error) => Err(error@),
    }
}

/// The views of the elements of a vector, in order.
pub open spec fn seq_view<T: View>(values: Seq<T>) -> Seq<T::V> {
    Seq::new(values.len(), |i: int| values[i]@)
}

/// A view changes neither whether there is a value nor how an attempt ended.
pub proof fn containers_keep_their_shape<T: View, E: View>(value: T, error: E)
    ensures
        option_view(Some(value)) == Some(value@),
        option_view(None::<T>) is None,
        result_view(Ok::<T, E>(value)) == Ok::<T::V, E::V>(value@),
        result_view(Err::<T, E>(error)) == Err::<T::V, E::V>(error@),
{
}

/// The views of the elements stand in the order of the elements, and none is
/// missing.
pub proof fn elements_keep_their_order<T: View>(values: Seq<T>, last: T)
    ensures
        seq_view(values).len() == values.len(),
        forall|i: int| 0 <= i < values.len() ==> #[trigger] seq_view(values)[i] == values[i]@,
        seq_view(values.push(last)) == seq_view(values).push(last@),
{
    assert(seq_view(values.push(last)) =~= seq_view(values).push(last@));
}

} // verus!
