use vstd::prelude::*;

verus! {

/// The order in which a container draws its objects: each object exactly
/// once, from the first to the last.
pub open spec fn spec_draw_order(object_count: nat) -> Seq<usize> {
    Seq::new(object_count, |i: int| i as usize)
}

/// Indices of a container's objects in drawing order: one draw per object,
/// in the order in which they were added, and none for an empty container.
pub fn draw_order(object_count: usize) -> (order: Vec<usize>)
    ensures
        order@ == spec_draw_order(object_count as nat),
{
    let mut order: Vec<usize> = Vec::new();
    let mut i: usize = 0;
    while i < object_count
        invariant
            i <= object_count,
            order@ == spec_draw_order(i as nat),
        decreases object_count - i,
    {
        order.push(i);
        i = i + 1;
        assert(order@ =~= spec_draw_order(i as nat));
    }
    order
}

/// Every object is drawn exactly once: the drawing order holds each index
/// below the count once and nothing else.
pub proof fn lemma_each_object_drawn_once(object_count: nat)
    requires
        object_count <= usize::MAX,
    ensures
        spec_draw_order(object_count).len() == object_count,
        forall|i: int| 0 <= i < object_count ==> #[trigger] spec_draw_order(object_count)[i] == i,
        spec_draw_order(object_count).no_duplicates(),
{
    let order = spec_draw_order(object_count);
    assert forall|i: int, j: int| 0 <= i < order.len() && 0 <= j < order.len() && i != j implies order[i] != order[j] by {
        assert(order[i] == i as usize && order[j] == j as usize);
    }
}

} // verus!
