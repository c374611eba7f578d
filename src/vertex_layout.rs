use vstd::prelude::*;
use vstd::relations::{sorted_by, total_ordering};
use vstd::seq_lib::{lemma_sorted_unique, lemma_multiset_commutative};
use crate::vertex_format::{VertexFormat, format_size, format_rank, lemma_format_rank_injective};

verus! {

/// Position at which an attribute at `loc` is inserted into `t`: after every
/// leading attribute whose location is not greater than `loc`.
pub open spec fn insertion_point(t: Seq<(u32, VertexFormat)>, loc: u32) -> nat
    decreases t.len(),
{
    if t.len() == 0 {
        0
    } else if t[0].0 > loc {
        0
    } else {
        1 + insertion_point(t.drop_first(), loc)
    }
}

/// `s` sorted by shader location; attributes at equal locations keep their
/// order in `s`.
pub open spec fn stable_sort(s: Seq<(u32, VertexFormat)>) -> Seq<(u32, VertexFormat)>
    decreases s.len(),
{
    if s.len() == 0 {
        s
    } else {
        let t = stable_sort(s.drop_last());
        t.insert(insertion_point(t, s.last().0) as int, s.last())
    }
}

/// Order by shader location alone.
pub open spec fn loc_le() -> spec_fn((u32, VertexFormat), (u32, VertexFormat)) -> bool {
    |a: (u32, VertexFormat), b: (u32, VertexFormat)| a.0 <= b.0
}

/// No two attributes of `s` share a shader location.
pub open spec fn distinct_locations(s: Seq<(u32, VertexFormat)>) -> bool {
    forall|i: int, j: int| 0 <= i < j < s.len() ==> s[i].0 != s[j].0
}

/// Order by location, then by format: total, and used only to compare sorted
/// sequences whose locations are distinct.
spec fn attr_le(a: (u32, VertexFormat), b: (u32, VertexFormat)) -> bool {
    a.0 < b.0 || (a.0 == b.0 && format_rank(a.1) <= format_rank(b.1))
}

spec fn attr_order() -> spec_fn((u32, VertexFormat), (u32, VertexFormat)) -> bool {
    |a: (u32, VertexFormat), b: (u32, VertexFormat)| attr_le(a, b)
}

proof fn lemma_attr_le_total()
    ensures
        total_ordering(attr_order()),
{
    assert forall|a: (u32, VertexFormat), b: (u32, VertexFormat)|
        attr_le(a, b) && attr_le(b, a) implies a == b by {
        lemma_format_rank_injective(a.1, b.1);
    }
}

/// Sum of the byte sizes of the formats in `s`.
pub open spec fn sizes_sum(s: Seq<(u32, VertexFormat)>) -> nat
    decreases s.len(),
{
    if s.len() == 0 {
        0
    } else {
        sizes_sum(s.drop_last()) + format_size(s.last().1)
    }
}

/// One attribute of the vertex buffer layout.
#[derive(Clone, Copy, Debug, PartialEq, Eq, Structural)]
pub struct VertexAttribute {
    pub offset: u64,
    pub format: VertexFormat,
    pub shader_location: u32,
}

/// The per-vertex layout handed to the pipeline.
pub struct VertexLayout {
    pub attributes: Vec<VertexAttribute>,
    pub stride: u64,
}

/// `attrs` places the attributes of `s` one after another, in that order.
pub open spec fn places(s: Seq<(u32, VertexFormat)>, attrs: Seq<VertexAttribute>) -> bool {
    &&& attrs.len() == s.len()
    &&& forall|i: int|
        0 <= i < s.len() ==> {
            &&& (#[trigger] attrs[i]).shader_location == s[i].0
            &&& attrs[i].format == s[i].1
            &&& attrs[i].offset == sizes_sum(s.take(i))
        }
}

proof fn lemma_sizes_sum_bound(s: Seq<(u32, VertexFormat)>)
    ensures
        sizes_sum(s) <= 16 * s.len(),
    decreases s.len(),
{
    if s.len() > 0 {
        lemma_sizes_sum_bound(s.drop_last());
    }
}

proof fn lemma_insertion_point(t: Seq<(u32, VertexFormat)>, loc: u32)
    ensures
        insertion_point(t, loc) <= t.len(),
        forall|j: int| 0 <= j < insertion_point(t, loc) ==> t[j].0 <= loc,
        insertion_point(t, loc) < t.len() ==> t[insertion_point(t, loc) as int].0 > loc,
    decreases t.len(),
{
    if t.len() > 0 && t[0].0 <= loc {
        lemma_insertion_point(t.drop_first(), loc);
        let p = insertion_point(t, loc);
        assert forall|j: int| 0 <= j < p implies t[j].0 <= loc by {
            if j > 0 {
                assert(t[j] == t.drop_first()[j - 1]);
            }
        }
        if p < t.len() {
            assert(t[p as int] == t.drop_first()[p - 1]);
        }
    }
}

proof fn lemma_insertion_point_is(t: Seq<(u32, VertexFormat)>, loc: u32, i: int)
    requires
        0 <= i <= t.len(),
        forall|j: int| 0 <= j < i ==> t[j].0 <= loc,
        i < t.len() ==> t[i].0 > loc,
    ensures
        insertion_point(t, loc) == i,
    decreases i,
{
    if i > 0 {
        let d = t.drop_first();
        assert forall|j: int| 0 <= j < i - 1 implies d[j].0 <= loc by {
            assert(d[j] == t[j + 1]);
        }
        if i - 1 < d.len() {
            assert(d[i - 1] == t[i]);
        }
        lemma_insertion_point_is(d, loc, i - 1);
    }
}

/// `stable_sort(s)` is sorted by location and holds the attributes of `s`;
/// where the locations of `s` are distinct, so are its.
pub proof fn lemma_stable_sort(s: Seq<(u32, VertexFormat)>)
    ensures
        sorted_by(stable_sort(s), loc_le()),
        stable_sort(s).to_multiset() == s.to_multiset(),
        stable_sort(s).len() == s.len(),
        distinct_locations(s) ==> distinct_locations(stable_sort(s)),
    decreases s.len(),
{
    broadcast use vstd::seq_lib::group_to_multiset_ensures, vstd::multiset::group_multiset_axioms;

    if s.len() > 0 {
        let d = s.drop_last();
        let x = s.last();
        let t = stable_sort(d);
        lemma_stable_sort(d);
        lemma_insertion_point(t, x.0);
        let p = insertion_point(t, x.0) as int;
        let r = t.insert(p, x);
        t.insert_ensures(p, x);
        assert(r == stable_sort(s));
        assert forall|a: int, b: int| 0 <= a < b < r.len() implies #[trigger] loc_le()(r[a], r[b]) by {
            if b < p {
                assert(loc_le()(t[a], t[b]));
            } else if b == p {
            } else if a < p {
                if b - 1 > p {
                    assert(loc_le()(t[p], t[b - 1]));
                }
            } else if a == p {
                if b - 1 > p {
                    assert(loc_le()(t[p], t[b - 1]));
                }
            } else {
                assert(loc_le()(t[a - 1], t[b - 1]));
            }
        }
        let tk = t.take(p);
        let tr = t.skip(p);
        lemma_multiset_commutative(tk.push(x), tr);
        lemma_multiset_commutative(tk, tr);
        assert(tk + tr =~= t);
        assert(r =~= tk.push(x) + tr);
        tk.to_multiset_ensures();
        d.to_multiset_ensures();
        assert(d.push(x) =~= s);
        assert(r.to_multiset() =~= s.to_multiset());
        if distinct_locations(s) {
            assert(distinct_locations(d));
            assert forall|j: int| 0 <= j < t.len() implies t[j].0 != x.0 by {
                assert(t.to_multiset().count(t[j]) > 0);
                assert(d.contains(t[j]));
                let k = choose|k: int| 0 <= k < d.len() && d[k] == t[j];
                assert(s[k] == d[k]);
            }
            assert forall|a: int, b: int| 0 <= a < b < r.len() implies r[a].0 != r[b].0 by {
                if a != p && b != p {
                    let a1 = if a < p { a } else { a - 1 };
                    let b1 = if b < p { b } else { b - 1 };
                    assert(t[a1].0 != t[b1].0);
                } else if a == p {
                    assert(t[b - 1].0 != x.0);
                } else {
                    assert(t[a].0 != x.0);
                }
            }
        }
    }
}

/// Sorts registered attributes by shader location; attributes at equal
/// locations keep their registration order.
pub fn sort_attributes(attrs: &Vec<(u32, VertexFormat)>) -> (r: Vec<(u32, VertexFormat)>)
    ensures
        r@ == stable_sort(attrs@),
        sorted_by(r@, loc_le()),
        r@.to_multiset() == attrs@.to_multiset(),
        r@.len() == attrs@.len(),
{
    let mut out: Vec<(u32, VertexFormat)> = Vec::new();
    let mut k: usize = 0;
    while k < attrs.len()
        invariant
            0 <= k <= attrs@.len(),
            out@ == stable_sort(attrs@.take(k as int)),
        decreases attrs@.len() - k,
    {
        let x = attrs[k];
        let mut i: usize = 0;
        while i < out.len() && out[i].0 <= x.0
            invariant
                0 <= i <= out@.len(),
                forall|j: int| 0 <= j < i ==> out@[j].0 <= x.0,
            decreases out@.len() - i,
        {
            i = i + 1;
        }
        proof {
            lemma_insertion_point_is(out@, x.0, i as int);
            let s = attrs@.take(k + 1);
            assert(s.drop_last() =~= attrs@.take(k as int));
            assert(s.last() == x);
        }
        out.insert(i, x);
        k = k + 1;
    }
    proof {
        assert(attrs@.take(attrs@.len() as int) =~= attrs@);
        lemma_stable_sort(attrs@);
    }
    out
}

/// The layout of the attributes registered in `attrs`: sorted by shader
/// location (in registration order where locations are equal), each placed right after the previous one; the stride is the sum
/// of all their sizes.
pub fn compute_vertex_layout(attrs: &Vec<(u32, VertexFormat)>) -> (r: VertexLayout)
    requires
        attrs@.len() < 0x1000_0000_0000_0000,
    ensures
        places(stable_sort(attrs@), r.attributes@),
        r.stride as nat == sizes_sum(stable_sort(attrs@)),
        r.stride as nat == sizes_sum(attrs@),
{
    let sorted = sort_attributes(attrs);
    let mut out: Vec<VertexAttribute> = Vec::new();
    let mut offset: u64 = 0;
    let mut i: usize = 0;
    while i < sorted.len()
        invariant
            0 <= i <= sorted@.len(),
            sorted@.len() < 0x1000_0000_0000_0000,
            offset as nat == sizes_sum(sorted@.take(i as int)),
            places(sorted@.take(i as int), out@),
        decreases sorted@.len() - i,
    {
        let (location, format) = sorted[i];
        out.push(VertexAttribute { offset, format, shader_location: location });
        proof {
            let t = sorted@.take(i + 1);
            assert(t.drop_last() =~= sorted@.take(i as int));
            lemma_sizes_sum_bound(t);
            assert forall|j: int| 0 <= j < i + 1 implies t.take(j) =~= sorted@.take(i as int).take(j) by {}
        }
        offset = offset + format.size();
        i = i + 1;
    }
    proof {
        assert(sorted@.take(sorted@.len() as int) =~= sorted@);
        lemma_sizes_sum_permutation(sorted@, attrs@);
    }
    VertexLayout { attributes: out, stride: offset }
}

proof fn lemma_sizes_sum_remove(s: Seq<(u32, VertexFormat)>, j: int)
    requires
        0 <= j < s.len(),
    ensures
        sizes_sum(s) == sizes_sum(s.remove(j)) + format_size(s[j].1),
    decreases s.len(),
{
    if j == s.len() - 1 {
        assert(s.remove(j) =~= s.drop_last());
    } else {
        assert(s.remove(j).drop_last() =~= s.drop_last().remove(j));
        assert(s.remove(j).last() == s.last());
        lemma_sizes_sum_remove(s.drop_last(), j);
    }
}

proof fn lemma_sizes_sum_permutation(a: Seq<(u32, VertexFormat)>, b: Seq<(u32, VertexFormat)>)
    requires
        a.to_multiset() == b.to_multiset(),
    ensures
        sizes_sum(a) == sizes_sum(b),
    decreases a.len(),
{
    a.to_multiset_ensures();
    b.to_multiset_ensures();
    if a.len() > 0 {
        let x = a.last();
        assert(a.drop_last().push(x) =~= a);
        a.drop_last().to_multiset_ensures();
        assert(b.to_multiset().count(x) > 0);
        let j = choose|j: int| 0 <= j < b.len() && b[j] == x;
        b.remove(j).to_multiset_ensures();
        assert(a.drop_last().to_multiset() =~= a.to_multiset().remove(x));
        lemma_sizes_sum_permutation(a.drop_last(), b.remove(j));
        lemma_sizes_sum_remove(b, j);
    }
}

/// The layout does not depend on the order in which attributes were
/// registered: two registrations of the same attributes, each at a location
/// of its own, give the same attribute order, offsets and stride.
pub proof fn lemma_layout_order_independent(a: Seq<(u32, VertexFormat)>, b: Seq<(u32, VertexFormat)>)
    requires
        a.to_multiset() == b.to_multiset(),
        distinct_locations(a),
        distinct_locations(b),
    ensures
        stable_sort(a) == stable_sort(b),
        forall|attrs: Seq<VertexAttribute>| places(stable_sort(a), attrs) <==> places(stable_sort(b), attrs),
        sizes_sum(stable_sort(a)) == sizes_sum(stable_sort(b)),
{
    lemma_stable_sort(a);
    lemma_stable_sort(b);
    lemma_attr_le_total();
    let x = stable_sort(a);
    let y = stable_sort(b);
    assert forall|i: int, j: int| 0 <= i < j < x.len() implies #[trigger] attr_order()(x[i], x[j]) by {
        assert(loc_le()(x[i], x[j]));
    }
    assert forall|i: int, j: int| 0 <= i < j < y.len() implies #[trigger] attr_order()(y[i], y[j]) by {
        assert(loc_le()(y[i], y[j]));
    }
    lemma_sorted_unique(x, y, attr_order());
}

} // verus!
