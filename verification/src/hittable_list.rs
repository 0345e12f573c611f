//! Surfaces taken together: a ray sees the nearest of them.
use crate::aabb::{
    spec_has_numbers, spec_holds, spec_surrounding_box, surrounding_box,
    surrounding_box_holds_both, AABB,
};
use crate::hittable::{HitRecord, Hittable};
use crate::scalar::{spec_is_number, spec_le, spec_lt, spec_within, Scalar};
use vstd::prelude::*;

verus! {

/// Surfaces in the order in which they were added.
#[derive(Debug)]
pub struct HittableList {
    list: Vec<Hittable>,
}

impl View for HittableList {
    type V = Seq<Hittable>;

    closed spec fn view(&self) -> Seq<Hittable> {
        self.list@
    }
}

/// The better of the best hit so far and the hit of the next member: the next
/// one where there was none so far, or where it is strictly nearer.
pub open spec fn spec_closer(best: Option<HitRecord>, candidate: Option<HitRecord>) -> Option<
    HitRecord,
> {
    match (best, candidate) {
        (_, None) => best,
        (None, Some(c)) => Some(c),
        (Some(b), Some(c)) => if spec_lt(c.t, b.t) {
            Some(c)
        } else {
            Some(b)
        },
    }
}

/// The hit on a list whose members report `results`, in list order.
pub open spec fn spec_hit(results: Seq<Option<HitRecord>>) -> Option<HitRecord>
    decreases results.len(),
{
    if results.len() == 0 {
        None
    } else {
        spec_closer(spec_hit(results.drop_last()), results.last())
    }
}

/// The upper end of the range in which the next member is asked for a hit: the
/// parameter of the best hit so far, or `t_max` while there is none.
pub open spec fn spec_closest_so_far(best: Option<HitRecord>, t_max: Scalar) -> Scalar {
    match best {
        Some(b) => b.t,
        None => t_max,
    }
}

/// The hit `hit` as a surface reports it when asked only for hits up to
/// `bound`: itself where it is no farther than that, else none.
pub open spec fn spec_up_to(hit: Option<HitRecord>, bound: Scalar) -> Option<HitRecord> {
    match hit {
        Some(h) => if spec_le(h.t, bound) {
            hit
        } else {
            None
        },
        None => None,
    }
}

/// The hit on a list that asks each member only for hits up to the best hit so
/// far. `results` are the hits of the members over the whole range, in list
/// order, and `t_max` is the upper end of that range.
pub open spec fn spec_hit_shrinking(results: Seq<Option<HitRecord>>, t_max: Scalar) -> Option<
    HitRecord,
>
    decreases results.len(),
{
    if results.len() == 0 {
        None
    } else {
        let best = spec_hit_shrinking(results.drop_last(), t_max);
        spec_closer(best, spec_up_to(results.last(), spec_closest_so_far(best, t_max)))
    }
}

/// Whether the parameter of every hit among `results` is a number, as it is
/// where every member keeps to the range it is asked for.
pub open spec fn spec_numbered(results: Seq<Option<HitRecord>>) -> bool {
    forall|j: int|
        0 <= j < results.len() && results[j] is Some ==> spec_is_number(
            (#[trigger] results[j])->Some_0.t,
        )
}

/// The box round a list whose members report the boxes `boxes`: none for an
/// empty list or where a member has none, else the box round them all.
pub open spec fn spec_bounding_box(boxes: Seq<Option<AABB>>) -> Option<AABB>
    decreases boxes.len(),
{
    if boxes.len() == 0 {
        None
    } else if boxes.len() == 1 {
        boxes[0]
    } else {
        match (spec_bounding_box(boxes.drop_last()), boxes.last()) {
            (Some(a), Some(b)) => Some(spec_surrounding_box(a, b)),
            _ => None,
        }
    }
}

impl HittableList {
    /// Adds a surface behind those already in the list.
    pub fn push(&mut self, hittable: Hittable)
        ensures
            final(self)@ == old(self)@.push(hittable),
    {
        self.list.push(hittable)
    }

    /// The list of the given surfaces, in their order.
    pub fn new(list: Vec<Hittable>) -> (r: HittableList)
        ensures
            r@ == list@,
    {
        HittableList { list }
    }

    /// The list without a surface.
    pub fn empty() -> (r: HittableList)
        ensures
            r@ == Seq::<Hittable>::empty(),
    {
        HittableList { list: Vec::new() }
    }

    /// The number of surfaces in the list.
    pub fn len(&self) -> (n: usize)
        ensures
            n == self@.len(),
    {
        self.list.len()
    }

    /// The surface at place `i` of the list.
    pub fn get(&self, i: usize) -> (h: &Hittable)
        requires
            i < self@.len(),
        ensures
            *h == self@[i as int],
    {
        &self.list[i]
    }

    /// The upper end of the range in which the next member is asked for a hit.
    pub fn closest_so_far(best: &Option<HitRecord>, t_max: Scalar) -> (bound: Scalar)
        ensures
            bound == spec_closest_so_far(*best, t_max),
    {
        match best {
            Some(b) => b.t,
            None => t_max,
        }
    }

    /// The better of the best hit so far and the hit of the next member.
    pub fn closer(best: Option<HitRecord>, candidate: Option<HitRecord>) -> (r: Option<HitRecord>)
        ensures
            r == spec_closer(best, candidate),
    {
        match candidate {
            None => best,
            Some(c) => match best {
                None => Some(c),
                Some(b) => if c.t.lt(&b.t) {
                    Some(c)
                } else {
                    Some(b)
                },
            },
        }
    }

    /// The hit on the list, from the hits `results` that its members report in
    /// list order: the nearest of them, and the earliest of the nearest.
    pub fn hit(results: &Vec<Option<HitRecord>>) -> (r: Option<HitRecord>)
        ensures
            r == spec_hit(results@),
    {
        let mut temp_record: Option<HitRecord> = None;
        let mut i: usize = 0;
        while i < results.len()
            invariant
                i <= results.len(),
                temp_record == spec_hit(results@.take(i as int)),
            decreases results.len() - i,
        {
            proof {
                assert(results@.take(i + 1).drop_last() == results@.take(i as int));
            }
            temp_record = HittableList::closer(temp_record, results[i]);
            i += 1;
        }
        proof {
            assert(results@.take(i as int) == results@);
        }
        temp_record
    }

    /// The box round the list, from the boxes `boxes` that its members report
    /// in list order.
    pub fn bounding_box(boxes: &Vec<Option<AABB>>) -> (r: Option<AABB>)
        ensures
            r == spec_bounding_box(boxes@),
    {
        if boxes.len() == 0 {
            return None;
        }
        let mut result: AABB = match boxes[0] {
            Some(b) => b,
            None => {
                proof {
                    none_spoils_the_box(boxes@, 0);
                }
                return None;
            },
        };
        let mut i: usize = 1;
        while i < boxes.len()
            invariant
                1 <= i <= boxes.len(),
                Some(result) == spec_bounding_box(boxes@.take(i as int)),
            decreases boxes.len() - i,
        {
            proof {
                assert(boxes@.take(i + 1).drop_last() == boxes@.take(i as int));
            }
            match boxes[i] {
                Some(bounding_box) => {
                    result = surrounding_box(&result, &bounding_box);
                },
                None => {
                    proof {
                        none_spoils_the_box(boxes@, i as int);
                    }
                    return None;
                },
            }
            i += 1;
        }
        proof {
            assert(boxes@.take(i as int) == boxes@);
        }
        Some(result)
    }
}

/// A list with a member that has no box has none itself.
pub proof fn none_spoils_the_box(boxes: Seq<Option<AABB>>, i: int)
    requires
        0 <= i < boxes.len(),
        boxes[i] is None,
    ensures
        spec_bounding_box(boxes) is None,
    decreases boxes.len(),
{
    if boxes.len() > 1 && i < boxes.len() - 1 {
        none_spoils_the_box(boxes.drop_last(), i);
    }
}

/// A list has a box exactly where it has a member and every member has one.
pub proof fn list_box_needs_every_member(boxes: Seq<Option<AABB>>)
    ensures
        spec_bounding_box(boxes) is Some <==> boxes.len() > 0 && forall|i: int|
            0 <= i < boxes.len() ==> boxes[i] is Some,
    decreases boxes.len(),
{
    if boxes.len() > 1 {
        let front = boxes.drop_last();
        list_box_needs_every_member(front);
        assert(forall|i: int| 0 <= i < front.len() ==> front[i] == boxes[i]);
        if spec_bounding_box(boxes) is None && spec_bounding_box(front) is None {
            if front.len() > 0 && (forall|i: int| 0 <= i < front.len() ==> front[i] is Some) {
                assert(false);
            }
        }
    }
}

/// The box of a list holds the box of every member, where the corners of
/// those are numbers.
pub proof fn list_box_holds_every_member(boxes: Seq<Option<AABB>>)
    requires
        forall|i: int|
            0 <= i < boxes.len() && boxes[i] is Some ==> spec_has_numbers(
                (#[trigger] boxes[i])->Some_0,
            ),
    ensures
        spec_bounding_box(boxes) matches Some(all) ==> spec_has_numbers(all) && forall|i: int|
            0 <= i < boxes.len() ==> spec_holds(all, #[trigger] boxes[i]->Some_0),
    decreases boxes.len(),
{
    list_box_needs_every_member(boxes);
    if boxes.len() > 1 {
        let front = boxes.drop_last();
        assert(forall|i: int| 0 <= i < front.len() ==> front[i] == boxes[i]);
        list_box_holds_every_member(front);
        list_box_needs_every_member(front);
        if spec_bounding_box(boxes) is Some {
            let a = spec_bounding_box(front)->Some_0;
            let b = boxes.last()->Some_0;
            let all = spec_bounding_box(boxes)->Some_0;
            assert(spec_has_numbers(boxes[boxes.len() - 1]->Some_0));
            surrounding_box_holds_both(a, b);
            assert forall|i: int| 0 <= i < boxes.len() implies spec_holds(
                all,
                #[trigger] boxes[i]->Some_0,
            ) by {
                if i < front.len() {
                    assert(spec_holds(a, front[i]->Some_0));
                    assert(spec_has_numbers(boxes[i]->Some_0));
                }
            }
        }
    } else if boxes.len() == 1 && boxes[0] is Some {
        assert(spec_has_numbers(boxes[0]->Some_0));
    }
}

/// The ray sees the nearest surface, and of several equally near ones the
/// earliest in the list. The hit on a list is none exactly where no member
/// reports one. Otherwise it is the report of some member `i`; no member
/// reports a nearer hit, and every member before `i` that reports one reports
/// a strictly farther one.
pub proof fn nearest_wins_earliest_on_ties(results: Seq<Option<HitRecord>>) -> (i: int)
    requires
        spec_numbered(results),
    ensures
        spec_hit(results) is None <==> forall|j: int|
            0 <= j < results.len() ==> results[j] is None,
        spec_hit(results) is Some ==> {
            &&& 0 <= i < results.len()
            &&& results[i] == spec_hit(results)
            &&& forall|j: int|
                0 <= j < results.len() && results[j] is Some ==> spec_hit(results)->Some_0.t@ <= (
                #[trigger] results[j])->Some_0.t@
            &&& forall|j: int|
                0 <= j < i && results[j] is Some ==> spec_hit(results)->Some_0.t@ < (
                #[trigger] results[j])->Some_0.t@
        },
    decreases results.len(),
{
    if results.len() == 0 {
        0
    } else {
        let front = results.drop_last();
        assert(forall|j: int| 0 <= j < front.len() ==> front[j] == results[j]);
        let k = nearest_wins_earliest_on_ties(front);
        if spec_hit(results) == spec_hit(front) && spec_hit(front) is Some {
            k
        } else {
            results.len() - 1
        }
    }
}

/// Where every member keeps to the range it is asked for, so does the list.
pub proof fn list_hit_in_range(results: Seq<Option<HitRecord>>, t_min: Scalar, t_max: Scalar)
    requires
        forall|j: int|
            0 <= j < results.len() && results[j] is Some ==> spec_within(
                (#[trigger] results[j])->Some_0.t,
                t_min,
                t_max,
            ),
    ensures
        spec_hit(results) matches Some(h) ==> spec_within(h.t, t_min, t_max),
{
    let i = nearest_wins_earliest_on_ties(results);
}

/// The bound handed to the members only tightens: after a member has
/// reported, it is no farther than before, given that the member kept to the
/// bound it was asked for.
pub proof fn bound_only_tightens(
    best: Option<HitRecord>,
    candidate: Option<HitRecord>,
    t_max: Scalar,
)
    requires
        candidate matches Some(c) ==> spec_le(c.t, spec_closest_so_far(best, t_max)),
    ensures
        spec_closest_so_far(spec_closer(best, candidate), t_max)@ <= spec_closest_so_far(
            best,
            t_max,
        )@,
{
}

/// Asking each member only for hits up to the best so far changes nothing: the
/// hit on the list is the one it has when every member is asked over the
/// whole range.
pub proof fn shrinking_bound_changes_nothing(results: Seq<Option<HitRecord>>, t_max: Scalar)
    requires
        forall|j: int|
            0 <= j < results.len() && results[j] is Some ==> spec_le(
                (#[trigger] results[j])->Some_0.t,
                t_max,
            ),
    ensures
        spec_hit_shrinking(results, t_max) == spec_hit(results),
    decreases results.len(),
{
    if results.len() > 0 {
        let front = results.drop_last();
        assert(forall|j: int| 0 <= j < front.len() ==> front[j] == results[j]);
        shrinking_bound_changes_nothing(front, t_max);
        let i = nearest_wins_earliest_on_ties(front);
    }
}

/// A list answers a narrower range as its members do: asked for hits up to
/// `bound`, it reports what it reports over the whole range if that is no
/// farther than `bound`, and else nothing.
pub proof fn list_hit_up_to(results: Seq<Option<HitRecord>>, bound: Scalar)
    requires
        spec_numbered(results),
    ensures
        spec_hit(results.map_values(|h: Option<HitRecord>| spec_up_to(h, bound))) == spec_up_to(
            spec_hit(results),
            bound,
        ),
    decreases results.len(),
{
    let narrowed = results.map_values(|h: Option<HitRecord>| spec_up_to(h, bound));
    if results.len() > 0 {
        let front = results.drop_last();
        assert(forall|j: int| 0 <= j < front.len() ==> front[j] == results[j]);
        list_hit_up_to(front, bound);
        assert(narrowed.drop_last() =~= front.map_values(
            |h: Option<HitRecord>| spec_up_to(h, bound),
        ));
        let i = nearest_wins_earliest_on_ties(front);
    }
}

} // verus!
