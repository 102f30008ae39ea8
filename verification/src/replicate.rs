//! Copies that are known to be exact: a replica shows the same plain view,
//! field by field, as the value it was made from.
use vstd::prelude::*;

verus! {

/// A value whose copy has the same deep view as the original.
pub trait Replicate: DeepView + Sized {
    fn replicate(&self) -> (r: Self)
        ensures
            r.deep_view() == self.deep_view(),
    ;
}

impl Replicate for String {
    fn replicate(&self) -> (r: Self) {
        self.clone()
    }
}

impl Replicate for u64 {
    fn replicate(&self) -> (r: Self) {
        *self
    }
}

impl<T: Replicate> Replicate for Option<T> {
    fn replicate(&self) -> (r: Self) {
        match self {
            Some(t) => Some(t.replicate()),
            None => None,
        }
    }
}

impl<A: Replicate, B: Replicate> Replicate for (A, B) {
    fn replicate(&self) -> (r: Self) {
        (self.0.replicate(), self.1.replicate())
    }
}

/// A vector of replicas of the items of `v`, in order.
pub fn replicate_all<T: Replicate>(v: &Vec<T>) -> (r: Vec<T>)
    ensures
        r.deep_view() == v.deep_view(),
{
    let mut out: Vec<T> = Vec::new();
    for i in 0..v.len()
        invariant
            out@.len() == i,
            i <= v@.len(),
            forall|k: int| 0 <= k < i ==> #[trigger] out@[k].deep_view() == v@[k].deep_view(),
    {
        let item = v[i].replicate();
        out.push(item);
    }
    assert(out.deep_view() =~= v.deep_view());
    out
}

} // verus!
