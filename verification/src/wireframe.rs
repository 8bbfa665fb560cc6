//! Which vertices of a Minkowski-sum wireframe are shown, and which pairs of
//! them are joined by a line.
use vstd::prelude::*;

verus! {

/// Number of points in the sum of a box and a segment from the origin:
/// the four box corners and the four corners moved by the segment.
pub const SUM1_LEN: usize = 8;

/// Number of points in the sum above minus a second box: each of the
/// second box's four negated corners added to each of the eight points.
pub const SUM2_LEN: usize = 32;

/// Points of the first sum that its reduced wireframe leaves out.
pub const SUM1_HIDDEN: [usize; 6] = [0, 1, 3, 4, 5, 7];

/// Points of the second sum that its reduced wireframe leaves out.
pub const SUM2_HIDDEN: [usize; 24] = [
    0, 1, 3, 4, 5, 7, 8, 9, 10, 12, 13, 14, 17, 18, 19, 21, 22, 23, 24, 26, 27, 28, 30, 31,
];

/// The indices below `n` that `hidden` does not list, in increasing order.
pub open spec fn shown_below(n: usize, hidden: Seq<usize>) -> Seq<usize>
    decreases n,
{
    if n == 0 {
        seq![]
    } else {
        let rest = shown_below((n - 1) as usize, hidden);
        if hidden.contains((n - 1) as usize) {
            rest
        } else {
            rest.push((n - 1) as usize)
        }
    }
}

/// The pairs `(v, c)` for each `c` of `cols`, in order.
pub open spec fn row_pairs(v: usize, cols: Seq<usize>) -> Seq<(usize, usize)> {
    cols.map_values(|c: usize| (v, c))
}

/// Every pair of a row index and a column index, row by row.
pub open spec fn all_pairs(rows: Seq<usize>, cols: Seq<usize>) -> Seq<(usize, usize)>
    decreases rows.len(),
{
    if rows.len() == 0 {
        seq![]
    } else {
        all_pairs(rows.drop_last(), cols) + row_pairs(rows.last(), cols)
    }
}

/// An index is shown exactly when it is below the bound and not hidden.
pub proof fn lemma_shown_below_members(n: usize, hidden: Seq<usize>, i: usize)
    ensures
        shown_below(n, hidden).contains(i) <==> (i < n && !hidden.contains(i)),
    decreases n,
{
    if n > 0 {
        let rest = shown_below((n - 1) as usize, hidden);
        lemma_shown_below_members((n - 1) as usize, hidden, i);
        if !hidden.contains((n - 1) as usize) {
            if i == n - 1 {
                assert(rest.push(i)[rest.len() as int] == i);
            } else {
                let pushed = rest.push((n - 1) as usize);
                if pushed.contains(i) {
                    let k = choose|k: int| 0 <= k < pushed.len() && #[trigger] pushed[k] == i;
                    assert(rest[k] == i);
                }
                if rest.contains(i) {
                    let k = choose|k: int| 0 <= k < rest.len() && #[trigger] rest[k] == i;
                    assert(pushed[k] == i);
                }
            }
        }
    }
}

/// A pair is listed exactly when its first index is a row and its second a column.
pub proof fn lemma_all_pairs_members(rows: Seq<usize>, cols: Seq<usize>, p: (usize, usize))
    ensures
        all_pairs(rows, cols).contains(p) <==> (rows.contains(p.0) && cols.contains(p.1)),
    decreases rows.len(),
{
    if rows.len() > 0 {
        let front = rows.drop_last();
        let head = all_pairs(front, cols);
        let tail = row_pairs(rows.last(), cols);
        lemma_all_pairs_members(front, cols, p);
        assert(all_pairs(rows, cols) == head + tail);
        if all_pairs(rows, cols).contains(p) {
            let whole = head + tail;
            let k = choose|k: int| 0 <= k < whole.len() && #[trigger] whole[k] == p;
            if k < head.len() {
                assert(head[k] == p);
                let r = choose|r: int| 0 <= r < front.len() && #[trigger] front[r] == p.0;
                assert(rows[r] == p.0);
            } else {
                assert(tail[k - head.len()] == p);
                assert(cols[k - head.len()] == p.1);
                assert(rows[rows.len() - 1] == p.0);
            }
        }
        if rows.contains(p.0) && cols.contains(p.1) {
            let r = choose|r: int| 0 <= r < rows.len() && #[trigger] rows[r] == p.0;
            let c = choose|c: int| 0 <= c < cols.len() && #[trigger] cols[c] == p.1;
            if r < rows.len() - 1 {
                assert(front[r] == p.0);
                let k = choose|k: int| 0 <= k < head.len() && #[trigger] head[k] == p;
                assert((head + tail)[k] == p);
            } else {
                assert(tail[c] == p);
                assert((head + tail)[head.len() + c] == p);
            }
        }
    }
}

/// The shown indices are strictly increasing and all below the bound.
pub proof fn lemma_shown_below_increasing(n: usize, hidden: Seq<usize>)
    ensures
        forall|a: int, b: int|
            0 <= a < b < shown_below(n, hidden).len() ==> #[trigger] shown_below(n, hidden)[a]
                < #[trigger] shown_below(n, hidden)[b],
        forall|a: int| 0 <= a < shown_below(n, hidden).len() ==> #[trigger] shown_below(n, hidden)[a] < n,
    decreases n,
{
    if n > 0 {
        let m = (n - 1) as usize;
        lemma_shown_below_increasing(m, hidden);
        let rest = shown_below(m, hidden);
        let all = shown_below(n, hidden);
        if hidden.contains(m) {
            assert(all == rest);
        } else {
            assert(all == rest.push(m));
            assert forall|a: int| 0 <= a < all.len() implies #[trigger] all[a] < n by {
                if a < rest.len() {
                    assert(all[a] == rest[a]);
                }
            }
            assert forall|a: int, b: int| 0 <= a < b < all.len() implies #[trigger] all[a]
                < #[trigger] all[b] by {
                assert(all[a] == rest[a]);
                if b < rest.len() {
                    assert(all[b] == rest[b]);
                } else {
                    assert(rest[a] < m);
                }
            }
        }
    }
}

/// All pairs of `rows` and `cols` form a grid: the pair at `a * cols.len() + b`
/// joins row `a` and column `b`.
pub proof fn lemma_all_pairs_grid(rows: Seq<usize>, cols: Seq<usize>)
    ensures
        all_pairs(rows, cols).len() == rows.len() * cols.len(),
        forall|a: int, b: int|
            0 <= a < rows.len() && 0 <= b < cols.len() ==> #[trigger] all_pairs(rows, cols)[a
                * cols.len() + b] == (rows[a], cols[b]),
    decreases rows.len(),
{
    let r = rows.len() as int;
    let c = cols.len() as int;
    if r == 0 {
        assert(r * c == 0) by (nonlinear_arith)
            requires
                r == 0,
        ;
    } else {
        let front = rows.drop_last();
        lemma_all_pairs_grid(front, cols);
        let head = all_pairs(front, cols);
        let tail = row_pairs(rows.last(), cols);
        assert(all_pairs(rows, cols) == head + tail);
        assert((r - 1) * c + c == r * c) by (nonlinear_arith);
        assert forall|a: int, b: int| 0 <= a < r && 0 <= b < c implies #[trigger] all_pairs(
            rows,
            cols,
        )[a * c + b] == (rows[a], cols[b]) by {
            if a < r - 1 {
                assert(a * c + b < (r - 1) * c) by (nonlinear_arith)
                    requires
                        0 <= a < r - 1,
                        0 <= b < c,
                ;
                assert(a * c + b >= 0) by (nonlinear_arith)
                    requires
                        0 <= a,
                        0 <= b,
                        0 <= c,
                ;
                assert(front[a] == rows[a]);
            } else {
                assert(a * c + b - head.len() == b) by (nonlinear_arith)
                    requires
                        a == r - 1,
                        head.len() == (r - 1) * c,
                ;
                assert(tail[b] == (rows[a], cols[b]));
            }
        }
    }
}

/// Whether `i` occurs in `list`.
fn is_listed(list: &[usize], i: usize) -> (listed: bool)
    ensures
        listed == list@.contains(i),
{
    let mut k: usize = 0;
    while k < list.len()
        invariant
            k <= list.len(),
            forall|j: int| 0 <= j < k ==> list@[j] != i,
        decreases list.len() - k,
    {
        if list[k] == i {
            assert(list@[k as int] == i);
            return true;
        }
        k = k + 1;
    }
    false
}

/// The indices below `n` that `hidden` does not list, in increasing order:
/// the points of a wireframe that are drawn.
pub fn shown_vertices(n: usize, hidden: &[usize]) -> (shown: Vec<usize>)
    ensures
        shown@ == shown_below(n, hidden@),
        forall|i: usize| shown@.contains(i) <==> (i < n && !hidden@.contains(i)),
        forall|a: int, b: int| 0 <= a < b < shown@.len() ==> #[trigger] shown@[a] < #[trigger] shown@[b],
{
    let mut shown: Vec<usize> = Vec::new();
    for i in 0..n
        invariant
            shown@ == shown_below(i, hidden@),
    {
        if !is_listed(hidden, i) {
            shown.push(i);
        }
    }
    proof {
        assert forall|i: usize| shown@.contains(i) <==> (i < n && !hidden@.contains(i)) by {
            lemma_shown_below_members(n, hidden@, i);
        }
        lemma_shown_below_increasing(n, hidden@);
    }
    shown
}

/// The lines of a wireframe over `n` points, `hidden` left out: one line from
/// each shown point to each shown point (itself included), the first point
/// running slowest, both in increasing order.
pub fn wireframe_edges(n: usize, hidden: &[usize]) -> (edges: Vec<(usize, usize)>)
    ensures
        edges@ == all_pairs(shown_below(n, hidden@), shown_below(n, hidden@)),
        forall|i: usize, j: usize|
            #![trigger edges@.contains((i, j))]
            edges@.contains((i, j)) <==> (i < n && j < n && !hidden@.contains(i)
                && !hidden@.contains(j)),
        edges@.len() == shown_below(n, hidden@).len() * shown_below(n, hidden@).len(),
        forall|a: int, b: int|
            0 <= a < shown_below(n, hidden@).len() && 0 <= b < shown_below(n, hidden@).len()
                ==> #[trigger] edges@[a * shown_below(n, hidden@).len() + b] == (
                shown_below(n, hidden@)[a],
                shown_below(n, hidden@)[b],
            ),
{
    let shown = shown_vertices(n, hidden);
    let k = shown.len();
    let ghost s = shown@;
    let mut edges: Vec<(usize, usize)> = Vec::new();
    for a in 0..k
        invariant
            k == s.len(),
            s == shown@,
            edges@ == all_pairs(s.take(a as int), s),
    {
        let ghost before = edges@;
        for b in 0..k
            invariant
                k == s.len(),
                s == shown@,
                a < k,
                edges@ == before + row_pairs(s[a as int], s.take(b as int)),
        {
            edges.push((shown[a], shown[b]));
            assert(row_pairs(s[a as int], s.take(b + 1)) =~= row_pairs(s[a as int], s.take(b as int)).push(
                (s[a as int], s[b as int]),
            ));
        }
        assert(s.take(k as int) =~= s);
        assert(s.take(a + 1).drop_last() =~= s.take(a as int));
        assert(s.take(a + 1).last() == s[a as int]);
    }
    assert(s.take(k as int) =~= s);
    proof {
        assert forall|i: usize, j: usize|
            #![trigger edges@.contains((i, j))]
            edges@.contains((i, j)) <==> (i < n && j < n && !hidden@.contains(i)
                && !hidden@.contains(j)) by {
            lemma_all_pairs_members(s, s, (i, j));
            lemma_shown_below_members(n, hidden@, i);
            lemma_shown_below_members(n, hidden@, j);
        }
        lemma_all_pairs_grid(s, s);
    }
    edges
}

} // verus!
