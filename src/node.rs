use vstd::prelude::*;
use vstd::set_lib::{lemma_int_range, lemma_subset_equality, set_int_range};

verus! {

/// A resolved width and height in logical pixels.
#[derive(Clone, Copy, Debug, PartialEq, Eq, Structural)]
pub struct PixelSize {
    pub width: i64,
    pub height: i64,
}

/// An axis-aligned rectangle in logical pixels, from its minimum corner to
/// its maximum corner.
#[derive(Clone, Copy, Debug, PartialEq, Eq, Structural)]
pub struct PixelRect {
    pub min_x: i64,
    pub min_y: i64,
    pub max_x: i64,
    pub max_y: i64,
}

/// The size of a UI node, as written by the layout solver.
#[derive(Clone, Copy, Debug, PartialEq, Eq, Structural)]
pub struct Node {
    pub(crate) calculated_size: PixelSize,
}

impl View for Node {
    type V = PixelSize;

    /// The calculated size of the node.
    closed spec fn view(&self) -> PixelSize {
        self.calculated_size
    }
}

impl Node {
    /// A node whose calculated size is `calculated_size`; for the layout
    /// solver, which alone writes it.
    pub fn new(calculated_size: PixelSize) -> (r: Node)
        ensures
            r@ == calculated_size,
    {
        Node { calculated_size }
    }

    /// The calculated size of the node, width and height in logical pixels.
    pub fn size(&self) -> (r: PixelSize)
        ensures
            r == self@,
    {
        self.calculated_size
    }
}

impl Default for Node {
    /// A node of size zero.
    fn default() -> (r: Node)
        ensures
            r@ == (PixelSize { width: 0, height: 0 }),
    {
        Node { calculated_size: PixelSize { width: 0, height: 0 } }
    }
}

/// The size that content of a node asks for (a measured text, an image).
#[derive(Clone, Copy, Debug, PartialEq, Eq, Structural)]
pub struct CalculatedSize {
    /// The size of the content in logical pixels.
    pub size: PixelSize,
    /// Whether the layout should try to keep the aspect ratio of `size`.
    pub preserve_aspect_ratio: bool,
}

impl Default for CalculatedSize {
    /// Size zero, aspect ratio not preserved.
    fn default() -> (r: CalculatedSize)
        ensures
            r == (CalculatedSize {
                size: PixelSize { width: 0, height: 0 },
                preserve_aspect_ratio: false,
            }),
    {
        CalculatedSize { size: PixelSize { width: 0, height: 0 }, preserve_aspect_ratio: false }
    }
}

/// The rectangle that a node and its content are clipped to.
#[derive(Clone, Copy, Debug, PartialEq, Eq, Structural)]
pub struct CalculatedClip {
    pub clip: PixelRect,
}

impl Default for CalculatedClip {
    /// The empty rectangle at the origin.
    fn default() -> (r: CalculatedClip)
        ensures
            r == (CalculatedClip { clip: PixelRect { min_x: 0, min_y: 0, max_x: 0, max_y: 0 } }),
    {
        CalculatedClip { clip: PixelRect { min_x: 0, min_y: 0, max_x: 0, max_y: 0 } }
    }
}

/// An explicit stacking order of a node. A node with a higher index is
/// painted over (and hit before) nodes with a lower index; equal indices keep
/// the order of the tree, later siblings on top.
///
/// A node without one stacks as `Local(0)`.
#[derive(Clone, Copy, Debug, PartialEq, Eq, Structural)]
pub enum ZIndex {
    /// The order among the node's siblings, within its parent's stacking
    /// context.
    Local(i32),
    /// The order within the stacking context of the root nodes, which the
    /// node joins.
    Global(i32),
}

impl Default for ZIndex {
    fn default() -> (r: ZIndex)
        ensures
            r == ZIndex::Local(0),
    {
        ZIndex::Local(0)
    }
}

/// The stacking order that a node with the override `z` has.
pub open spec fn effective_z(z: Option<ZIndex>) -> ZIndex {
    match z {
        Some(z) => z,
        None => ZIndex::Local(0),
    }
}

/// The index by which a node with the override `z` is ordered within its
/// stacking context.
pub open spec fn stack_index(z: Option<ZIndex>) -> int {
    match effective_z(z) {
        ZIndex::Local(n) => n as int,
        ZIndex::Global(n) => n as int,
    }
}

/// Whether, among the members `zs` of one stacking context (in tree order),
/// member `a` is painted below member `b`: a lower index first, and on equal
/// indices the earlier member first.
pub open spec fn paints_before(zs: Seq<Option<ZIndex>>, a: int, b: int) -> bool {
    ||| stack_index(zs[a]) < stack_index(zs[b])
    ||| stack_index(zs[a]) == stack_index(zs[b]) && a < b
}

/// Whether `order` lists the members of `zs` by position, each exactly once,
/// from the bottom of the stack to the top.
pub open spec fn is_paint_order(zs: Seq<Option<ZIndex>>, order: Seq<usize>) -> bool {
    &&& order.len() == zs.len()
    &&& forall|i: int| 0 <= i < order.len() ==> order[i] < zs.len()
    &&& forall|i: int, j: int|
        0 <= i < j < order.len() ==> paints_before(zs, order[i] as int, order[j] as int)
}

impl ZIndex {
    /// The stacking order of a node with the override `z`: `Local(0)` where
    /// there is none.
    pub fn resolve(z: Option<ZIndex>) -> (r: ZIndex)
        ensures
            r == effective_z(z),
    {
        match z {
            Some(z) => z,
            None => ZIndex::Local(0),
        }
    }

    /// The index by which a node with the override `z` is ordered.
    pub fn index_of(z: Option<ZIndex>) -> (r: i32)
        ensures
            r as int == stack_index(z),
    {
        match ZIndex::resolve(z) {
            ZIndex::Local(n) => n,
            ZIndex::Global(n) => n,
        }
    }
}

/// The order in which the members of one stacking context are painted, from
/// bottom to top. `zs` holds the members' overrides in tree order; the result
/// holds their positions in `zs`, by ascending index and, on equal indices,
/// in tree order.
pub fn paint_order(zs: &Vec<Option<ZIndex>>) -> (order: Vec<usize>)
    ensures
        is_paint_order(zs@, order@),
{
    let mut order: Vec<usize> = Vec::new();
    let mut k: usize = 0;
    while k < zs.len()
        invariant
            k <= zs.len(),
            order.len() == k,
            forall|i: int| 0 <= i < order.len() ==> order[i] < k,
            forall|i: int, j: int|
                0 <= i < j < order.len() ==> paints_before(zs@, order[i] as int, order[j] as int),
        decreases zs.len() - k,
    {
        let key = ZIndex::index_of(zs[k]);
        let mut p: usize = 0;
        while p < order.len() && ZIndex::index_of(zs[order[p]]) <= key
            invariant
                p <= order.len(),
                k < zs.len(),
                forall|i: int| 0 <= i < order.len() ==> order[i] < k,
                forall|i: int| 0 <= i < p ==> stack_index(zs@[order[i] as int]) <= key,
            decreases order.len() - p,
        {
            p += 1;
        }
        proof {
            assert forall|i: int| p <= i < order.len() implies stack_index(zs@[order[i] as int]) > key by {
                if i > p {
                    assert(paints_before(zs@, order[p as int] as int, order[i] as int));
                }
            }
        }
        let ghost before = order@;
        order.insert(p, k);
        proof {
            assert forall|i: int, j: int| 0 <= i < j < order.len() implies paints_before(
                zs@,
                order[i] as int,
                order[j] as int,
            ) by {
                if j < p {
                    assert(order[i] == before[i] && order[j] == before[j]);
                } else if j == p {
                    assert(order[i] == before[i]);
                } else if i < p {
                    assert(order[i] == before[i] && order[j] == before[j - 1]);
                } else if i == p {
                    assert(order[j] == before[j - 1]);
                } else {
                    assert(order[i] == before[i - 1] && order[j] == before[j - 1]);
                    assert(paints_before(zs@, before[i - 1] as int, before[j - 1] as int));
                }
            }
        }
        k += 1;
    }
    order
}

/// Every position of `zs` occurs in a paint order of `zs`.
proof fn lemma_paint_order_covers(zs: Seq<Option<ZIndex>>, order: Seq<usize>, x: int)
    requires
        is_paint_order(zs, order),
        0 <= x < zs.len(),
    ensures
        exists|i: int| 0 <= i < order.len() && order[i] == x,
{
    let s = order.map_values(|p: usize| p as int);
    assert(s.no_duplicates()) by {
        assert forall|i: int, j: int| 0 <= i < s.len() && 0 <= j < s.len() && i != j implies s[i]
            != s[j] by {
            if i < j {
                assert(paints_before(zs, order[i] as int, order[j] as int));
            } else {
                assert(paints_before(zs, order[j] as int, order[i] as int));
            }
        }
    }
    s.unique_seq_to_set();
    lemma_int_range(0, zs.len() as int);
    assert(s.to_set().subset_of(set_int_range(0, zs.len() as int))) by {
        assert forall|v: int| s.to_set().contains(v) implies set_int_range(
            0,
            zs.len() as int,
        ).contains(v) by {
            let i = choose|i: int| 0 <= i < s.len() && s[i] == v;
            assert(order[i] < zs.len());
        }
    }
    lemma_subset_equality(s.to_set(), set_int_range(0, zs.len() as int));
    assert(set_int_range(0, zs.len() as int).contains(x));
    assert(s.to_set().contains(x));
    let i = choose|i: int| 0 <= i < s.len() && s[i] == x;
    assert(order[i] == x);
}

/// Two paint orders of `zs` agree at position `i`.
proof fn lemma_paint_orders_agree_at(zs: Seq<Option<ZIndex>>, a: Seq<usize>, b: Seq<usize>, i: int)
    requires
        is_paint_order(zs, a),
        is_paint_order(zs, b),
        0 <= i < a.len(),
    ensures
        a[i] == b[i],
    decreases i,
{
    assert forall|m: int| 0 <= m < i implies a[m] == b[m] by {
        lemma_paint_orders_agree_at(zs, a, b, m);
    }
    if a[i] != b[i] {
        let x = a[i] as int;
        let y = b[i] as int;
        lemma_paint_order_covers(zs, a, y);
        lemma_paint_order_covers(zs, b, x);
        let j = choose|j: int| 0 <= j < a.len() && a[j] == y;
        let l = choose|l: int| 0 <= l < b.len() && b[l] == x;
        if j < i {
            assert(b[j] == y);
            assert(paints_before(zs, b[j] as int, b[i] as int));
        }
        if l < i {
            assert(a[l] == x);
            assert(paints_before(zs, a[l] as int, a[i] as int));
        }
        assert(paints_before(zs, a[i] as int, a[j] as int));
        assert(paints_before(zs, b[i] as int, b[l] as int));
    }
}

/// The paint order of the members of a stacking context is unique: any two
/// sequences that list them from bottom to top are equal.
pub proof fn law_paint_order_unique(zs: Seq<Option<ZIndex>>, a: Seq<usize>, b: Seq<usize>)
    requires
        is_paint_order(zs, a),
        is_paint_order(zs, b),
    ensures
        a == b,
{
    assert forall|i: int| 0 <= i < a.len() implies a[i] == b[i] by {
        lemma_paint_orders_agree_at(zs, a, b, i);
    }
    assert(a =~= b);
}

/// A node without a stacking override is ordered exactly as one given
/// `Local(0)`: replacing a missing override by `Local(0)` changes no
/// comparison, and the paint order of the context stays the same.
pub proof fn law_missing_override_is_local_zero(
    zs: Seq<Option<ZIndex>>,
    k: int,
    order: Seq<usize>,
    order_with_local_zero: Seq<usize>,
)
    requires
        0 <= k < zs.len(),
        zs[k] is None,
        is_paint_order(zs, order),
        is_paint_order(zs.update(k, Some(ZIndex::Local(0))), order_with_local_zero),
    ensures
        effective_z(zs[k]) == effective_z(Some(ZIndex::Local(0))),
        forall|a: int, b: int|
            0 <= a < zs.len() && 0 <= b < zs.len() ==> (paints_before(zs, a, b) <==> paints_before(
                zs.update(k, Some(ZIndex::Local(0))),
                a,
                b,
            )),
        order == order_with_local_zero,
{
    let zs2 = zs.update(k, Some(ZIndex::Local(0)));
    assert forall|a: int| 0 <= a < zs.len() implies stack_index(zs[a]) == stack_index(zs2[a]) by {}
    assert forall|i: int, j: int| 0 <= i < j < order.len() implies paints_before(
        zs2,
        order[i] as int,
        order[j] as int,
    ) by {
        assert(paints_before(zs, order[i] as int, order[j] as int));
    }
    law_paint_order_unique(zs2, order, order_with_local_zero);
}

} // verus!
