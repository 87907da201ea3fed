//! Vectors and their models.

use vstd::prelude::*;

verus! {

/// An empty vector.
pub fn empty_list<T: DeepView>() -> (r: Vec<T>)
    ensures
        r@.len() == 0,
        r.deep_view() == Seq::<T::V>::empty(),
{
    let r: Vec<T> = Vec::new();
    assert(r.deep_view() =~= Seq::<T::V>::empty());
    r
}

/// A vector of one element.
pub fn list_of<T: DeepView>(x: T) -> (r: Vec<T>)
    ensures
        r@ == seq![x],
        r.deep_view() == seq![x.deep_view()],
{
    let mut r: Vec<T> = Vec::new();
    r.push(x);
    assert(r@ =~= seq![x]);
    assert(r.deep_view() =~= seq![x.deep_view()]);
    r
}

/// Appends an element.
pub fn push_item<T: DeepView>(v: &mut Vec<T>, x: T)
    ensures
        final(v)@ == old(v)@.push(x),
        final(v).deep_view() == old(v).deep_view().push(x.deep_view()),
{
    let ghost before = v.deep_view();
    v.push(x);
    assert(v.deep_view() =~= before.push(x.deep_view()));
}

/// Puts an element before the one at `i`.
pub fn insert_item<T: DeepView>(v: &mut Vec<T>, i: usize, x: T)
    requires
        i <= old(v)@.len(),
    ensures
        final(v)@ == old(v)@.insert(i as int, x),
        final(v).deep_view() == old(v).deep_view().insert(i as int, x.deep_view()),
{
    let ghost before = v.deep_view();
    v.insert(i, x);
    assert(v.deep_view() =~= before.insert(i as int, x.deep_view()));
}

/// Replaces the element at `i`.
pub fn set_item<T: DeepView>(v: &mut Vec<T>, i: usize, x: T)
    requires
        i < old(v)@.len(),
    ensures
        final(v)@ == old(v)@.update(i as int, x),
        final(v).deep_view() == old(v).deep_view().update(i as int, x.deep_view()),
{
    let ghost before = v.deep_view();
    v.set(i, x);
    assert(v.deep_view() =~= before.update(i as int, x.deep_view()));
}

/// Whether a clone of a value always has the model of that value.
pub open spec fn faithful_clone<T: Clone + DeepView>() -> bool {
    forall|a: T, b: T| #[trigger] cloned(a, b) ==> a.deep_view() == b.deep_view()
}

/// A copy of a vector.
pub fn copy_list<T: Clone + DeepView>(v: &Vec<T>) -> (r: Vec<T>)
    requires
        faithful_clone::<T>(),
    ensures
        r.deep_view() == v.deep_view(),
{
    let mut out: Vec<T> = Vec::new();
    for i in 0..v.len()
        invariant
            faithful_clone::<T>(),
            out@.len() == i,
            forall|j: int| 0 <= j < i ==> #[trigger] out@[j].deep_view() == v@[j].deep_view(),
    {
        let c = v[i].clone();
        assert(cloned(v@[i as int], c));
        out.push(c);
    }
    assert(out.deep_view() =~= v.deep_view());
    out
}

} // verus!
