use crate::types::stack_item::ItemView;
use crate::vm::reference_counter::CounterView;
use vstd::prelude::*;

verus! {

/// A comparison never leaves more budget than it was given.
pub proof fn lemma_equals_rest(h: CounterView, a: ItemView, b: ItemView, budget: nat, max_bytes: nat)
    ensures
        h.equals(a, b, budget, max_bytes).rest <= budget,
    decreases budget, 0nat,
{
    if budget > 0 {
        match (a, b) {
            (ItemView::Struct(x), ItemView::Struct(y)) => {
                if x != y {
                    match (h.sequence_items(x), h.sequence_items(y)) {
                        (Some(u), Some(v)) => {
                            if u.items.len() == v.items.len() {
                                lemma_equals_from_rest(
                                    h,
                                    u.items,
                                    v.items,
                                    0,
                                    (budget - 1) as nat,
                                    max_bytes,
                                );
                            }
                        },
                        _ => {},
                    }
                }
            },
            _ => {},
        }
    }
}

/// A comparison of two sequences never leaves more budget than it was
/// given.
pub proof fn lemma_equals_from_rest(
    h: CounterView,
    xs: Seq<ItemView>,
    ys: Seq<ItemView>,
    from: int,
    budget: nat,
    max_bytes: nat,
)
    ensures
        h.equals_from(xs, ys, from, budget, max_bytes).rest <= budget,
    decreases budget, xs.len() - from,
{
    if !(from < 0 || from >= xs.len() || from >= ys.len()) {
        lemma_equals_rest(h, xs[from], ys[from], budget, max_bytes);
        let first = h.equals(xs[from], ys[from], budget, max_bytes);
        if first.equal == Some(true) && first.rest <= budget {
            lemma_equals_from_rest(h, xs, ys, from + 1, first.rest, max_bytes);
        }
    }
}

/// Equality is reflexive: where the comparison of an item with itself
/// does not give up, the item equals itself.
pub proof fn lemma_equals_reflexive(h: CounterView, a: ItemView, budget: nat, max_bytes: nat)
    requires
        h.equals(a, a, budget, max_bytes).equal is Some,
    ensures
        h.equals(a, a, budget, max_bytes).equal == Some(true),
{
}

/// Equality is symmetric: the comparison of `a` with `b` and the comparison
/// of `b` with `a` give the same verdict and use the same budget.
pub proof fn lemma_equals_symmetric(
    h: CounterView,
    a: ItemView,
    b: ItemView,
    budget: nat,
    max_bytes: nat,
)
    ensures
        h.equals(a, b, budget, max_bytes) == h.equals(b, a, budget, max_bytes),
    decreases budget, 0nat,
{
    if budget > 0 {
        match (a, b) {
            (ItemView::Struct(x), ItemView::Struct(y)) => {
                if x != y {
                    match (h.sequence_items(x), h.sequence_items(y)) {
                        (Some(u), Some(v)) => {
                            if u.items.len() == v.items.len() {
                                lemma_equals_from_symmetric(
                                    h,
                                    u.items,
                                    v.items,
                                    0,
                                    (budget - 1) as nat,
                                    max_bytes,
                                );
                            }
                        },
                        _ => {},
                    }
                }
            },
            _ => {},
        }
    }
}

/// The comparison of two sequences of equal length is symmetric.
pub proof fn lemma_equals_from_symmetric(
    h: CounterView,
    xs: Seq<ItemView>,
    ys: Seq<ItemView>,
    from: int,
    budget: nat,
    max_bytes: nat,
)
    requires
        xs.len() == ys.len(),
    ensures
        h.equals_from(xs, ys, from, budget, max_bytes) == h.equals_from(
            ys,
            xs,
            from,
            budget,
            max_bytes,
        ),
    decreases budget, xs.len() - from,
{
    if !(from < 0 || from >= xs.len() || from >= ys.len()) {
        lemma_equals_symmetric(h, xs[from], ys[from], budget, max_bytes);
        let first = h.equals(xs[from], ys[from], budget, max_bytes);
        if first.equal == Some(true) && first.rest <= budget {
            lemma_equals_from_symmetric(h, xs, ys, from + 1, first.rest, max_bytes);
        }
    }
}

/// The verdict of a comparison does not depend on the budget: two
/// comparisons of the same items that do not give up agree.
pub proof fn lemma_equals_agree(
    h: CounterView,
    a: ItemView,
    b: ItemView,
    first: nat,
    second: nat,
    max_bytes: nat,
)
    requires
        h.equals(a, b, first, max_bytes).equal is Some,
        h.equals(a, b, second, max_bytes).equal is Some,
    ensures
        h.equals(a, b, first, max_bytes).equal == h.equals(a, b, second, max_bytes).equal,
    decreases first, 0nat,
{
    match (a, b) {
        (ItemView::Struct(x), ItemView::Struct(y)) => {
            if x != y {
                match (h.sequence_items(x), h.sequence_items(y)) {
                    (Some(u), Some(v)) => {
                        if u.items.len() == v.items.len() {
                            lemma_equals_from_agree(
                                h,
                                u.items,
                                v.items,
                                0,
                                (first - 1) as nat,
                                (second - 1) as nat,
                                max_bytes,
                            );
                        }
                    },
                    _ => {},
                }
            }
        },
        _ => {},
    }
}

/// The verdict of a comparison of two sequences does not depend on the
/// budget.
pub proof fn lemma_equals_from_agree(
    h: CounterView,
    xs: Seq<ItemView>,
    ys: Seq<ItemView>,
    from: int,
    first: nat,
    second: nat,
    max_bytes: nat,
)
    requires
        h.equals_from(xs, ys, from, first, max_bytes).equal is Some,
        h.equals_from(xs, ys, from, second, max_bytes).equal is Some,
    ensures
        h.equals_from(xs, ys, from, first, max_bytes).equal == h.equals_from(
            xs,
            ys,
            from,
            second,
            max_bytes,
        ).equal,
    decreases first, xs.len() - from,
{
    if !(from < 0 || from >= xs.len() || from >= ys.len()) {
        let p = h.equals(xs[from], ys[from], first, max_bytes);
        let q = h.equals(xs[from], ys[from], second, max_bytes);
        lemma_equals_rest(h, xs[from], ys[from], first, max_bytes);
        lemma_equals_rest(h, xs[from], ys[from], second, max_bytes);
        lemma_equals_agree(h, xs[from], ys[from], first, second, max_bytes);
        if p.equal == Some(true) {
            lemma_equals_from_agree(h, xs, ys, from + 1, p.rest, q.rest, max_bytes);
        }
    }
}

/// Equality is transitive: where `a` equals `b` and `b` equals `c`, and
/// the comparison of `a` with `c` does not give up, `a` equals `c`.
pub proof fn lemma_equals_transitive(
    h: CounterView,
    a: ItemView,
    b: ItemView,
    c: ItemView,
    first: nat,
    second: nat,
    third: nat,
    max_bytes: nat,
)
    requires
        h.equals(a, b, first, max_bytes).equal == Some(true),
        h.equals(b, c, second, max_bytes).equal == Some(true),
        h.equals(a, c, third, max_bytes).equal is Some,
    ensures
        h.equals(a, c, third, max_bytes).equal == Some(true),
    decreases third, 0nat,
{
    match (a, b, c) {
        (ItemView::Struct(x), ItemView::Struct(y), ItemView::Struct(z)) => {
            if x == z {
            } else if x == y {
                lemma_equals_agree(h, a, c, second, third, max_bytes);
            } else if y == z {
                lemma_equals_agree(h, a, c, first, third, max_bytes);
            } else {
                let u = h.sequence_items(x)->Some_0.items;
                let v = h.sequence_items(y)->Some_0.items;
                let w = h.sequence_items(z)->Some_0.items;
                lemma_equals_from_transitive(
                    h,
                    u,
                    v,
                    w,
                    0,
                    (first - 1) as nat,
                    (second - 1) as nat,
                    (third - 1) as nat,
                    max_bytes,
                );
            }
        },
        _ => {},
    }
}

/// The comparison of sequences of equal length is transitive.
pub proof fn lemma_equals_from_transitive(
    h: CounterView,
    xs: Seq<ItemView>,
    ys: Seq<ItemView>,
    zs: Seq<ItemView>,
    from: int,
    first: nat,
    second: nat,
    third: nat,
    max_bytes: nat,
)
    requires
        xs.len() == ys.len(),
        ys.len() == zs.len(),
        h.equals_from(xs, ys, from, first, max_bytes).equal == Some(true),
        h.equals_from(ys, zs, from, second, max_bytes).equal == Some(true),
        h.equals_from(xs, zs, from, third, max_bytes).equal is Some,
    ensures
        h.equals_from(xs, zs, from, third, max_bytes).equal == Some(true),
    decreases third, xs.len() - from,
{
    if !(from < 0 || from >= xs.len()) {
        let p = h.equals(xs[from], ys[from], first, max_bytes);
        let q = h.equals(ys[from], zs[from], second, max_bytes);
        let r = h.equals(xs[from], zs[from], third, max_bytes);
        lemma_equals_rest(h, xs[from], ys[from], first, max_bytes);
        lemma_equals_rest(h, ys[from], zs[from], second, max_bytes);
        lemma_equals_rest(h, xs[from], zs[from], third, max_bytes);
        lemma_equals_transitive(h, xs[from], ys[from], zs[from], first, second, third, max_bytes);
        lemma_equals_from_transitive(h, xs, ys, zs, from + 1, p.rest, q.rest, r.rest, max_bytes);
    }
}

} // verus!
