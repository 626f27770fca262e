//! The scene: an ordered collection of objects that a ray is tested against.
use vstd::prelude::*;

use crate::hittable::HitRecord;

verus! {

/// The objects of a scene, in the order in which they were added.
pub struct HittableList<H> {
    objects: Vec<H>,
}

impl<H> View for HittableList<H> {
    type V = Seq<H>;

    closed spec fn view(&self) -> Seq<H> {
        self.objects@
    }
}

impl<H> HittableList<H> {
    /// An empty scene.
    pub fn new() -> (r: HittableList<H>)
        ensures
            r@ == Seq::<H>::empty(),
    {
        HittableList { objects: Vec::new() }
    }

    /// Adds an object after those already there.
    pub fn add(&mut self, object: H)
        ensures
            final(self)@ == old(self)@.push(object),
    {
        self.objects.push(object);
    }

    /// Removes every object.
    pub fn clear(&mut self)
        ensures
            final(self)@ == Seq::<H>::empty(),
    {
        self.objects.clear();
    }

    /// The number of objects.
    pub fn len(&self) -> (r: usize)
        ensures
            r == self@.len(),
    {
        self.objects.len()
    }

    /// The objects, in the order in which they were added.
    pub fn objects(&self) -> (r: &[H])
        ensures
            r@ == self@,
    {
        self.objects.as_slice()
    }
}

/// One step of the closest-hit scan. `found` is what the next object reported
/// when tested with `closest_so_far` as its upper bound; a hit (with whatever
/// it carries, such as its material) replaces the best one so far, and its `t`
/// becomes the bound for the objects after it. A miss changes nothing.
pub fn keep_closest<T>(
    best: &mut Option<(HitRecord, T)>,
    closest_so_far: &mut u64,
    found: Option<(HitRecord, T)>,
)
    ensures
        match found {
            Some((hit, item)) => {
                &&& *final(best) == Some((hit, item))
                &&& *final(closest_so_far) == hit.t
            },
            None => {
                &&& *final(best) == *old(best)
                &&& *final(closest_so_far) == *old(closest_so_far)
            },
        },
{
    if let Some((hit, item)) = found {
        *closest_so_far = hit.t;
        *best = Some((hit, item));
    }
}

} // verus!
