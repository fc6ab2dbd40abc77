use vstd::prelude::*;

verus! {

/// `i` is the position of the smallest of `dists`, the first one where several
/// are equally small.
pub open spec fn is_first_min(dists: Seq<u32>, i: int) -> bool {
    &&& 0 <= i < dists.len()
    &&& forall|j: int| 0 <= j < i ==> dists[i] < #[trigger] dists[j]
    &&& forall|j: int| 0 <= j < dists.len() ==> dists[i] <= #[trigger] dists[j]
}

/// Position of the smallest distance key, ties going to the first; `None`
/// exactly when there is none.
///
/// A key must order as the distances do: for distances that are finite and
/// not negative, their IEEE-754 single-precision bit patterns are such keys.
pub fn nearest(dists: &Vec<u32>) -> (r: Option<usize>)
    ensures
        r is None <==> dists.len() == 0,
        r matches Some(i) ==> is_first_min(dists@, i as int),
{
    if dists.len() == 0 {
        return None;
    }
    let mut best: usize = 0;
    let mut k: usize = 1;
    while k < dists.len()
        invariant
            1 <= k <= dists.len(),
            best < k,
            forall|j: int| 0 <= j < best ==> dists@[best as int] < #[trigger] dists@[j],
            forall|j: int| 0 <= j < k ==> dists@[best as int] <= #[trigger] dists@[j],
        decreases dists.len() - k,
    {
        if dists[k] < dists[best] {
            best = k;
        }
        k = k + 1;
    }
    Some(best)
}

/// Two positions that are both the first smallest are the same position: the
/// choice among equal distances does not vary from call to call.
pub proof fn lemma_first_min_unique(dists: Seq<u32>, i: int, j: int)
    requires
        is_first_min(dists, i),
        is_first_min(dists, j),
    ensures
        i == j,
{
    if i < j {
        assert(dists[j] < dists[i]);
    } else if j < i {
        assert(dists[i] < dists[j]);
    }
}

/// Of two objects at different distances, the nearer one is chosen.
pub proof fn lemma_nearer_of_two(d0: u32, d1: u32)
    requires
        d0 != d1,
    ensures
        is_first_min(seq![d0, d1], if d0 < d1 { 0 } else { 1 }),
{
    let s = seq![d0, d1];
    assert(s[0] == d0 && s[1] == d1);
}

/// The objects of a scene, in the order they were added.
pub struct Scene<O> {
    pub objects: Vec<O>,
}

impl<O> Scene<O> {
    /// A scene with no objects.
    pub fn new() -> (r: Scene<O>)
        ensures
            r.objects@ == Seq::<O>::empty(),
    {
        Scene { objects: Vec::new() }
    }

    /// Adds `obj` after the objects already there.
    pub fn add(&mut self, obj: O)
        ensures
            final(self).objects@ == old(self).objects@.push(obj),
    {
        self.objects.push(obj);
    }

    /// The object nearest to a point, where `dists[i]` is the distance key of
    /// object `i` from that point; ties go to the object added first, and
    /// `None` comes exactly for an empty scene.
    pub fn closest(&self, dists: &Vec<u32>) -> (r: Option<&O>)
        requires
            dists.len() == self.objects.len(),
        ensures
            r is None <==> self.objects.len() == 0,
            r matches Some(o) ==> exists|i: int|
                is_first_min(dists@, i) && *o == self.objects@[i],
    {
        match nearest(dists) {
            Some(i) => Some(&self.objects[i]),
            None => None,
        }
    }
}

} // verus!
