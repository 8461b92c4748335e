//! The order in which siblings are shown: by the rank of their kind, then by
//! name, then by where they stood in the list that was handed in.

use crate::node::{DocNode, DocNodeKind, DocNodeView};
use crate::text::chars_of;
use vstd::prelude::*;

verus! {

/// The rank of a kind. A sibling of lower rank is shown first.
pub open spec fn kind_rank(kind: DocNodeKind) -> int {
    match kind {
        DocNodeKind::ModuleDoc => 0,
        DocNodeKind::Function => 1,
        DocNodeKind::Variable => 2,
        DocNodeKind::Class => 3,
        DocNodeKind::Enum => 4,
        DocNodeKind::Interface => 5,
        DocNodeKind::TypeAlias => 6,
        DocNodeKind::Namespace => 7,
        DocNodeKind::Import => 8,
    }
}

/// The rank of a kind.
pub fn rank_of(kind: DocNodeKind) -> (rank: i64)
    ensures
        rank == kind_rank(kind),
{
    match kind {
        DocNodeKind::ModuleDoc => 0,
        DocNodeKind::Function => 1,
        DocNodeKind::Variable => 2,
        DocNodeKind::Class => 3,
        DocNodeKind::Enum => 4,
        DocNodeKind::Interface => 5,
        DocNodeKind::TypeAlias => 6,
        DocNodeKind::Namespace => 7,
        DocNodeKind::Import => 8,
    }
}

/// `a` stands before `b` in the dictionary: at the first place where the two
/// differ `a` has the lower character, or `a` ends there and `b` goes on.
/// Characters are ordered by their code points.
pub open spec fn text_before(a: Seq<char>, b: Seq<char>) -> bool
    decreases a.len(),
{
    if b.len() == 0 {
        false
    } else if a.len() == 0 {
        true
    } else if a[0] != b[0] {
        a[0] < b[0]
    } else {
        text_before(a.drop_first(), b.drop_first())
    }
}

/// Sibling `i` is shown before sibling `j`: it has the lower rank; or the
/// same rank and the name that stands first; or the same rank and name, and
/// it came first in the list.
pub open spec fn sibling_before(nodes: Seq<DocNodeView>, i: int, j: int) -> bool {
    let a = nodes[i];
    let b = nodes[j];
    let rank_a = kind_rank(a.kind());
    let rank_b = kind_rank(b.kind());
    rank_a < rank_b || (rank_a == rank_b && (text_before(a.name, b.name) || (a.name == b.name
        && i < j)))
}

/// `order` lists places in the rule's order: whatever comes earlier in it is
/// shown before whatever comes later.
pub open spec fn in_display_order(nodes: Seq<DocNodeView>, order: Seq<int>) -> bool {
    forall|p: int, q: int|
        0 <= p < q < order.len() ==> sibling_before(nodes, #[trigger] order[p], #[trigger] order[q])
}

/// `order` holds each of the places `0..n`, and nothing else.
pub open spec fn lists_all(order: Seq<int>, n: nat) -> bool {
    &&& order.len() == n
    &&& forall|p: int| 0 <= p < order.len() ==> 0 <= #[trigger] order[p] < n
    &&& forall|i: int| 0 <= i < n ==> order.contains(i)
}

/// `order` is a way to show the siblings `nodes`: it names every sibling
/// once, by its place in `nodes`, and follows the rule.
pub open spec fn is_display_order(nodes: Seq<DocNodeView>, order: Seq<int>) -> bool {
    lists_all(order, nodes.len()) && in_display_order(nodes, order)
}

/// The order in which the siblings `nodes` are shown, as places in `nodes`.
/// There is exactly one: see `lemma_display_order` and
/// `lemma_display_order_unique`.
pub open spec fn display_order(nodes: Seq<DocNodeView>) -> Seq<int> {
    choose|order: Seq<int>| is_display_order(nodes, order)
}

/// No text stands before itself.
pub proof fn lemma_text_before_irreflexive(a: Seq<char>)
    ensures
        !text_before(a, a),
    decreases a.len(),
{
    if a.len() > 0 {
        lemma_text_before_irreflexive(a.drop_first());
    }
}

/// Of two texts, one stands before the other or they are the same text.
pub proof fn lemma_text_before_total(a: Seq<char>, b: Seq<char>)
    ensures
        text_before(a, b) || a == b || text_before(b, a),
    decreases a.len(),
{
    if a.len() == 0 || b.len() == 0 {
        if a.len() == 0 && b.len() == 0 {
            assert(a =~= b);
        }
    } else if a[0] == b[0] {
        lemma_text_before_total(a.drop_first(), b.drop_first());
        if a.drop_first() == b.drop_first() {
            assert(a =~= seq![a[0]] + a.drop_first());
            assert(b =~= seq![b[0]] + b.drop_first());
        }
    }
}

/// Two texts do not each stand before the other.
pub proof fn lemma_text_before_asymmetric(a: Seq<char>, b: Seq<char>)
    requires
        text_before(a, b),
    ensures
        !text_before(b, a),
    decreases a.len(),
{
    if a.len() > 0 && b.len() > 0 && a[0] == b[0] {
        lemma_text_before_asymmetric(a.drop_first(), b.drop_first());
    }
}

/// What stands before a text stands before all that the text stands before.
pub proof fn lemma_text_before_transitive(a: Seq<char>, b: Seq<char>, c: Seq<char>)
    requires
        text_before(a, b),
        text_before(b, c),
    ensures
        text_before(a, c),
    decreases a.len(),
{
    if a.len() > 0 && a[0] == b[0] && b[0] == c[0] {
        lemma_text_before_transitive(a.drop_first(), b.drop_first(), c.drop_first());
    }
}

/// Of two different siblings exactly one is shown before the other.
pub proof fn lemma_sibling_before_total(nodes: Seq<DocNodeView>, i: int, j: int)
    ensures
        i != j ==> (sibling_before(nodes, i, j) <==> !sibling_before(nodes, j, i)),
        !sibling_before(nodes, i, i),
{
    let a = nodes[i].name;
    let b = nodes[j].name;
    lemma_text_before_irreflexive(a);
    lemma_text_before_total(a, b);
    if text_before(a, b) {
        lemma_text_before_asymmetric(a, b);
    }
    if text_before(b, a) {
        lemma_text_before_asymmetric(b, a);
    }
}

/// Being shown before is handed on.
pub proof fn lemma_sibling_before_transitive(nodes: Seq<DocNodeView>, i: int, j: int, k: int)
    requires
        sibling_before(nodes, i, j),
        sibling_before(nodes, j, k),
    ensures
        sibling_before(nodes, i, k),
{
    let a = nodes[i].name;
    let b = nodes[j].name;
    let c = nodes[k].name;
    if text_before(a, b) && text_before(b, c) {
        lemma_text_before_transitive(a, b, c);
    }
}

/// `sorted` with the place `x` put where the rule wants it: behind
/// everything that is not shown after `x`.
spec fn with_sibling(nodes: Seq<DocNodeView>, sorted: Seq<int>, x: int) -> Seq<int>
    decreases sorted.len(),
{
    if sorted.len() > 0 && sibling_before(nodes, x, sorted.last()) {
        with_sibling(nodes, sorted.drop_last(), x).push(sorted.last())
    } else {
        sorted.push(x)
    }
}

/// The first `n` siblings, put in one after the other.
spec fn arranged(nodes: Seq<DocNodeView>, n: nat) -> Seq<int>
    decreases n,
{
    if n == 0 {
        Seq::empty()
    } else {
        with_sibling(nodes, arranged(nodes, (n - 1) as nat), n - 1)
    }
}

/// A place put into a list that follows the rule leaves a list that
/// follows the rule, and that holds the place beside what was there.
proof fn lemma_with_sibling(nodes: Seq<DocNodeView>, sorted: Seq<int>, x: int)
    requires
        in_display_order(nodes, sorted),
        !sorted.contains(x),
    ensures
        in_display_order(nodes, with_sibling(nodes, sorted, x)),
        with_sibling(nodes, sorted, x).len() == sorted.len() + 1,
        forall|v: int|
            #![trigger with_sibling(nodes, sorted, x).contains(v)]
            #![trigger sorted.contains(v)]
            with_sibling(nodes, sorted, x).contains(v) <==> (sorted.contains(v) || v == x),
    decreases sorted.len(),
{
    let r = with_sibling(nodes, sorted, x);
    if sorted.len() > 0 && sibling_before(nodes, x, sorted.last()) {
        let front = sorted.drop_last();
        let last = sorted.last();
        let inner = with_sibling(nodes, front, x);
        assert forall|p: int, q: int| 0 <= p < q < front.len() implies sibling_before(
            nodes,
            #[trigger] front[p],
            #[trigger] front[q],
        ) by {
            assert(front[p] == sorted[p] && front[q] == sorted[q]);
        }
        assert(!front.contains(x)) by {
            if front.contains(x) {
                let p = choose|p: int| 0 <= p < front.len() && front[p] == x;
                assert(sorted[p] == x);
            }
        }
        lemma_with_sibling(nodes, front, x);
        assert forall|p: int, q: int| 0 <= p < q < r.len() implies sibling_before(
            nodes,
            #[trigger] r[p],
            #[trigger] r[q],
        ) by {
            if q < inner.len() {
                assert(r[p] == inner[p] && r[q] == inner[q]);
            } else {
                assert(r[q] == last);
                assert(r[p] == inner[p]);
                assert(inner.contains(inner[p]));
                if inner[p] != x {
                    let k = choose|k: int| 0 <= k < front.len() && front[k] == inner[p];
                    assert(sorted[k] == inner[p]);
                    assert(sorted[sorted.len() - 1] == last);
                }
            }
        }
        assert forall|v: int| r.contains(v) <==> (sorted.contains(v) || v == x) by {
            if r.contains(v) {
                let p = choose|p: int| 0 <= p < r.len() && r[p] == v;
                if p < inner.len() {
                    assert(inner[p] == v);
                    assert(inner.contains(v));
                    if v != x {
                        let k = choose|k: int| 0 <= k < front.len() && front[k] == v;
                        assert(sorted[k] == v);
                    }
                } else {
                    assert(sorted[sorted.len() - 1] == v);
                }
            }
            if sorted.contains(v) || v == x {
                if v == last {
                    assert(r[r.len() - 1] == v);
                } else {
                    if v != x {
                        let k = choose|k: int| 0 <= k < sorted.len() && sorted[k] == v;
                        assert(front[k] == v);
                    }
                    assert(inner.contains(v));
                    let p = choose|p: int| 0 <= p < inner.len() && inner[p] == v;
                    assert(r[p] == v);
                }
            }
        }
    } else {
        assert forall|p: int, q: int| 0 <= p < q < r.len() implies sibling_before(
            nodes,
            #[trigger] r[p],
            #[trigger] r[q],
        ) by {
            if q < sorted.len() {
                assert(r[p] == sorted[p] && r[q] == sorted[q]);
            } else {
                assert(r[q] == x);
                assert(r[p] == sorted[p]);
                assert(sorted.contains(sorted[p]));
                let last = sorted.last();
                lemma_sibling_before_total(nodes, x, last);
                if p < sorted.len() - 1 {
                    assert(sibling_before(nodes, sorted[p], sorted[sorted.len() - 1]));
                    lemma_sibling_before_transitive(nodes, sorted[p], last, x);
                }
            }
        }
        assert forall|v: int| r.contains(v) <==> (sorted.contains(v) || v == x) by {
            if r.contains(v) {
                let p = choose|p: int| 0 <= p < r.len() && r[p] == v;
                if p < sorted.len() {
                    assert(sorted[p] == v);
                }
            }
            if sorted.contains(v) {
                let k = choose|k: int| 0 <= k < sorted.len() && sorted[k] == v;
                assert(r[k] == v);
            }
            if v == x {
                assert(r[r.len() - 1] == v);
            }
        }
    }
}

/// The first `n` siblings, put in one after the other, are a way to show
/// them.
proof fn lemma_arranged(nodes: Seq<DocNodeView>, n: nat)
    ensures
        lists_all(arranged(nodes, n), n),
        in_display_order(nodes, arranged(nodes, n)),
    decreases n,
{
    if n > 0 {
        let prev = arranged(nodes, (n - 1) as nat);
        lemma_arranged(nodes, (n - 1) as nat);
        assert(!prev.contains(n - 1)) by {
            if prev.contains(n - 1) {
                let p = choose|p: int| 0 <= p < prev.len() && prev[p] == n - 1;
            }
        }
        lemma_with_sibling(nodes, prev, n - 1);
        let r = arranged(nodes, n);
        assert forall|p: int| 0 <= p < r.len() implies 0 <= #[trigger] r[p] < n by {
            assert(r.contains(r[p]));
            if r[p] != n - 1 {
                let k = choose|k: int| 0 <= k < prev.len() && prev[k] == r[p];
            }
        }
        assert forall|i: int| 0 <= i < n implies r.contains(i) by {
            if i < n - 1 {
                assert(prev.contains(i));
            }
        }
    }
}

/// Two ways to show the same siblings that both follow the rule agree on
/// every place.
proof fn lemma_orders_agree(nodes: Seq<DocNodeView>, o1: Seq<int>, o2: Seq<int>, upto: nat)
    requires
        is_display_order(nodes, o1),
        is_display_order(nodes, o2),
        upto <= nodes.len(),
    ensures
        forall|k: int| 0 <= k < upto ==> o1[k] == o2[k],
    decreases upto,
{
    if upto > 0 {
        lemma_orders_agree(nodes, o1, o2, (upto - 1) as nat);
        let i = upto - 1;
        let x = o1[i];
        let y = o2[i];
        if x != y {
            // Where does each of the two stand in the other order? Not before
            // `i`, where the orders agree; so behind `i`, and then each of the
            // two is shown before the other.
            assert(o2.contains(x));
            let j = choose|j: int| 0 <= j < o2.len() && o2[j] == x;
            assert(o1.contains(y));
            let k = choose|k: int| 0 <= k < o1.len() && o1[k] == y;
            lemma_sibling_before_total(nodes, x, x);
            lemma_sibling_before_total(nodes, y, y);
            if j < i {
                assert(o1[j] == o2[j]);
                assert(sibling_before(nodes, o1[j], o1[i]));
            }
            if k < i {
                assert(o1[k] == o2[k]);
                assert(sibling_before(nodes, o2[k], o2[i]));
            }
            assert(sibling_before(nodes, o2[i], o2[j]));
            assert(sibling_before(nodes, o1[i], o1[k]));
            lemma_sibling_before_total(nodes, x, y);
        }
    }
}

/// Siblings can be shown in one way only.
pub proof fn lemma_display_order_unique(nodes: Seq<DocNodeView>, order: Seq<int>)
    requires
        is_display_order(nodes, order),
    ensures
        order == display_order(nodes),
{
    let chosen = display_order(nodes);
    lemma_orders_agree(nodes, order, chosen, nodes.len());
    assert(order =~= chosen);
}

/// The order in which siblings are shown names every sibling once and puts
/// the lower rank first, then the name that stands first, then the sibling
/// that came first.
pub proof fn lemma_display_order(nodes: Seq<DocNodeView>)
    ensures
        is_display_order(nodes, display_order(nodes)),
{
    lemma_arranged(nodes, nodes.len());
    assert(is_display_order(nodes, arranged(nodes, nodes.len())));
}

/// Of two siblings the one that is shown first has the lower rank; or the
/// two have the same rank, and its name does not stand behind the other's;
/// and of two siblings of the same rank and name the one that came first in
/// the list is shown first.
pub proof fn lemma_shown_by_rank_then_name(nodes: Seq<DocNodeView>, p: int, q: int)
    requires
        0 <= p < q < nodes.len(),
    ensures
        ({
            let order = display_order(nodes);
            let first = nodes[order[p]];
            let second = nodes[order[q]];
            &&& kind_rank(first.kind()) <= kind_rank(second.kind())
            &&& kind_rank(first.kind()) == kind_rank(second.kind()) ==> !text_before(
                second.name,
                first.name,
            )
            &&& kind_rank(first.kind()) == kind_rank(second.kind()) && first.name == second.name
                ==> order[p] < order[q]
        }),
{
    let order = display_order(nodes);
    lemma_display_order(nodes);
    assert(sibling_before(nodes, order[p], order[q]));
    let first = nodes[order[p]];
    let second = nodes[order[q]];
    lemma_text_before_irreflexive(first.name);
    if text_before(first.name, second.name) {
        lemma_text_before_asymmetric(first.name, second.name);
    }
}

/// The places that a list of machine integers holds.
pub open spec fn places(order: Seq<usize>) -> Seq<int> {
    order.map_values(|p: usize| p as int)
}

/// Whether `a` stands before `b` in the dictionary.
pub fn name_before(a: &Vec<char>, b: &Vec<char>) -> (before: bool)
    ensures
        before == text_before(a@, b@),
{
    let mut i: usize = 0;
    proof {
        assert(a@.skip(0) == a@);
        assert(b@.skip(0) == b@);
    }
    while i < a.len() && i < b.len()
        invariant
            i <= a.len(),
            i <= b.len(),
            text_before(a@, b@) == text_before(a@.skip(i as int), b@.skip(i as int)),
        decreases a.len() - i,
    {
        proof {
            assert(a@.skip(i as int).drop_first() == a@.skip(i + 1));
            assert(b@.skip(i as int).drop_first() == b@.skip(i + 1));
        }
        if a[i] != b[i] {
            return a[i] < b[i];
        }
        i = i + 1;
    }
    i < b.len()
}

/// The order in which the siblings `nodes` are shown, as places in `nodes`.
/// The places are put in one after the other, each where the rule wants
/// it, so the work grows with the square of the number of siblings.
pub fn sorted_order(nodes: &[DocNode]) -> (order: Vec<usize>)
    ensures
        is_display_order(nodes.deep_view(), places(order@)),
        places(order@) == display_order(nodes.deep_view()),
{
    let ghost views = nodes.deep_view();
    let n = nodes.len();
    let mut ranks: Vec<i64> = Vec::new();
    let mut names: Vec<Vec<char>> = Vec::new();
    let mut i: usize = 0;
    while i < n
        invariant
            n == nodes.len(),
            views == nodes.deep_view(),
            i <= n,
            ranks.len() == i,
            names.len() == i,
            forall|k: int| 0 <= k < i ==> ranks[k] == kind_rank(#[trigger] views[k].kind()),
            forall|k: int| 0 <= k < i ==> (#[trigger] names[k])@ == views[k].name,
        decreases n - i,
    {
        ranks.push(rank_of(nodes[i].kind()));
        names.push(chars_of(nodes[i].name.as_str()));
        i = i + 1;
    }
    let mut order: Vec<usize> = Vec::new();
    let mut x: usize = 0;
    while x < n
        invariant
            n == nodes.len(),
            views == nodes.deep_view(),
            x <= n,
            ranks.len() == n,
            names.len() == n,
            forall|k: int| 0 <= k < n ==> ranks[k] == kind_rank(#[trigger] views[k].kind()),
            forall|k: int| 0 <= k < n ==> (#[trigger] names[k])@ == views[k].name,
            places(order@) == arranged(views, x as nat),
        decreases n - x,
    {
        proof {
            lemma_arranged(views, x as nat);
        }
        let ghost sorted = places(order@);
        let mut p: usize = order.len();
        let mut found = false;
        proof {
            assert(sorted.take(p as int) == sorted);
            assert(sorted + sorted.skip(p as int) == sorted);
            assert(with_sibling(views, sorted, x as int) + sorted.skip(p as int) == with_sibling(
                views,
                sorted,
                x as int,
            ));
        }
        while p > 0 && !found
            invariant
                n == nodes.len(),
                views == nodes.deep_view(),
                x < n,
                ranks.len() == n,
                names.len() == n,
                forall|k: int| 0 <= k < n ==> ranks[k] == kind_rank(#[trigger] views[k].kind()),
                forall|k: int| 0 <= k < n ==> (#[trigger] names[k])@ == views[k].name,
                sorted == places(order@),
                lists_all(sorted, x as nat),
                p <= order.len(),
                with_sibling(views, sorted, x as int) == with_sibling(
                    views,
                    sorted.take(p as int),
                    x as int,
                ) + sorted.skip(p as int),
                found ==> p > 0 && !sibling_before(views, x as int, sorted[p - 1]),
            decreases p, if found { 0int } else { 1int },
        {
            let y = order[p - 1];
            assert(y as int == sorted[p - 1]);
            assert(0 <= sorted[p - 1] < x);
            // Both have come in the list's order, `y` first: of equal names
            // it is `y` that is shown first.
            let x_first = ranks[x] < ranks[y] || (ranks[x] == ranks[y] && name_before(
                &names[x],
                &names[y],
            ));
            assert(x_first == sibling_before(views, x as int, y as int));
            if x_first {
                proof {
                    let front = sorted.take(p as int);
                    assert(front.last() == y as int);
                    assert(front.drop_last() == sorted.take(p - 1));
                    assert(sorted.take(p - 1).push(y as int) + sorted.skip(p as int)
                        == sorted.take(p - 1) + sorted.skip(p - 1));
                    assert(with_sibling(views, front, x as int) == with_sibling(
                        views,
                        sorted.take(p - 1),
                        x as int,
                    ).push(y as int));
                }
                p = p - 1;
            } else {
                found = true;
            }
        }
        proof {
            let front = sorted.take(p as int);
            if p > 0 {
                assert(front.last() == sorted[p - 1]);
            }
            assert(with_sibling(views, front, x as int) == front.push(x as int));
            assert(places(order@.insert(p as int, x)) == front.push(x as int) + sorted.skip(
                p as int,
            ));
        }
        order.insert(p, x);
        x = x + 1;
    }
    proof {
        lemma_arranged(views, n as nat);
        lemma_display_order_unique(views, places(order@));
    }
    order
}

} // verus!
