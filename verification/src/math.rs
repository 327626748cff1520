//! Vector and tensor helpers over a [`NetworkFunctions`] toolkit: the dot
//! product, the weighted column sum used when propagating derivatives
//! backwards, and element-wise combination of equally shaped tensors.

use vstd::prelude::*;
use crate::functions::{NetworkFunctions, view2};

verus! {

/// The nested view of a rank-3 tensor.
pub open spec fn view3<T>(t: Vec<Vec<Vec<T>>>) -> Seq<Seq<Seq<T>>> {
    Seq::new(t.len() as nat, |i: int| view2(t[i]))
}

/// The sum `zero + a[0]*b[0] + ... + a[n-1]*b[n-1]`, accumulated from the left.
pub open spec fn dot_prefix<T, F: NetworkFunctions<T>>(f: F, a: Seq<T>, b: Seq<T>, n: nat) -> T
    decreases n,
{
    if n == 0 {
        f.zero()
    } else {
        f.add_result(dot_prefix(f, a, b, (n - 1) as nat), f.mul_result(a[n - 1], b[n - 1]))
    }
}

/// The dot product of two vectors of equal length.
pub open spec fn dot<T, F: NetworkFunctions<T>>(f: F, a: Seq<T>, b: Seq<T>) -> T {
    dot_prefix(f, a, b, a.len())
}

/// The sum `zero + d[0]*m[0][j] + ... + d[n-1]*m[n-1][j]`, accumulated from the left:
/// the `j`-th entry of the row vector `d` times the matrix `m`.
pub open spec fn column_prefix<T, F: NetworkFunctions<T>>(
    f: F,
    d: Seq<T>,
    m: Seq<Seq<T>>,
    j: int,
    n: nat,
) -> T
    decreases n,
{
    if n == 0 {
        f.zero()
    } else {
        f.add_result(
            column_prefix(f, d, m, j, (n - 1) as nat),
            f.mul_result(d[n - 1], m[n - 1][j]),
        )
    }
}

/// The `j`-th entry of the row vector `d` times the matrix `m`.
pub open spec fn column_sum<T, F: NetworkFunctions<T>>(f: F, d: Seq<T>, m: Seq<Seq<T>>, j: int) -> T {
    column_prefix(f, d, m, j, d.len())
}

/// `a` and `b` are matrices of the same shape.
pub open spec fn same_shape2<T>(a: Seq<Seq<T>>, b: Seq<Seq<T>>) -> bool {
    &&& a.len() == b.len()
    &&& forall|i: int| 0 <= i < a.len() ==> (#[trigger] a[i]).len() == b[i].len()
}

/// `a` and `b` are rank-3 tensors of the same shape.
pub open spec fn same_shape3<T>(a: Seq<Seq<Seq<T>>>, b: Seq<Seq<Seq<T>>>) -> bool {
    &&& a.len() == b.len()
    &&& forall|i: int| 0 <= i < a.len() ==> same_shape2(#[trigger] a[i], b[i])
}

/// An element-wise operation on two tensors of one shape.
#[derive(Clone, Copy, PartialEq, Eq, Structural, Debug)]
pub enum Combine {
    Add,
    Subtract,
}

/// An element-wise operation of a tensor with a scalar.
#[derive(Clone, Copy, PartialEq, Eq, Structural, Debug)]
pub enum Scale<T> {
    /// Multiply each entry by the scalar.
    MultiplyBy(T),
    /// Divide each entry by the count.
    DivideBy(usize),
}

pub open spec fn combine_value<T, F: NetworkFunctions<T>>(f: F, op: Combine, a: T, b: T) -> T {
    match op {
        Combine::Add => f.add_result(a, b),
        Combine::Subtract => f.sub_result(a, b),
    }
}

pub open spec fn scale_value<T, F: NetworkFunctions<T>>(f: F, op: Scale<T>, a: T) -> T {
    match op {
        Scale::MultiplyBy(s) => f.mul_result(a, s),
        Scale::DivideBy(n) => f.div_result(a, n),
    }
}

pub open spec fn combine1<T, F: NetworkFunctions<T>>(f: F, op: Combine, a: Seq<T>, b: Seq<T>) -> Seq<T> {
    Seq::new(a.len(), |k: int| combine_value(f, op, a[k], b[k]))
}

pub open spec fn combine2<T, F: NetworkFunctions<T>>(
    f: F,
    op: Combine,
    a: Seq<Seq<T>>,
    b: Seq<Seq<T>>,
) -> Seq<Seq<T>> {
    Seq::new(a.len(), |j: int| combine1(f, op, a[j], b[j]))
}

pub open spec fn combine3<T, F: NetworkFunctions<T>>(
    f: F,
    op: Combine,
    a: Seq<Seq<Seq<T>>>,
    b: Seq<Seq<Seq<T>>>,
) -> Seq<Seq<Seq<T>>> {
    Seq::new(a.len(), |l: int| combine2(f, op, a[l], b[l]))
}

pub open spec fn scale1<T, F: NetworkFunctions<T>>(f: F, op: Scale<T>, a: Seq<T>) -> Seq<T> {
    Seq::new(a.len(), |k: int| scale_value(f, op, a[k]))
}

pub open spec fn scale2<T, F: NetworkFunctions<T>>(f: F, op: Scale<T>, a: Seq<Seq<T>>) -> Seq<Seq<T>> {
    Seq::new(a.len(), |j: int| scale1(f, op, a[j]))
}

pub open spec fn scale3<T, F: NetworkFunctions<T>>(
    f: F,
    op: Scale<T>,
    a: Seq<Seq<Seq<T>>>,
) -> Seq<Seq<Seq<T>>> {
    Seq::new(a.len(), |l: int| scale2(f, op, a[l]))
}

/// The dot product of two vectors of equal length.
pub fn dot_product<T: Copy, F: NetworkFunctions<T>>(f: &F, a: &Vec<T>, b: &Vec<T>) -> (r: T)
    requires
        f.valid(),
        a.len() == b.len(),
    ensures
        r == dot(*f, a@, b@),
{
    let mut acc = f.zero_value();
    let mut k: usize = 0;
    while k < a.len()
        invariant
            f.valid(),
            a.len() == b.len(),
            k <= a.len(),
            acc == dot_prefix(*f, a@, b@, k as nat),
        decreases a.len() - k,
    {
        let p = f.mul(a[k], b[k]);
        acc = f.add(acc, p);
        k = k + 1;
    }
    acc
}

/// Entry `j` of the row vector `d` times the matrix `m`.
pub fn weighted_column_sum<T: Copy, F: NetworkFunctions<T>>(
    f: &F,
    d: &Vec<T>,
    m: &Vec<Vec<T>>,
    j: usize,
) -> (r: T)
    requires
        f.valid(),
        d.len() <= m.len(),
        forall|i: int| 0 <= i < d.len() ==> j < (#[trigger] m[i]).len(),
    ensures
        r == column_sum(*f, d@, view2(*m), j as int),
{
    let mut acc = f.zero_value();
    let mut i: usize = 0;
    while i < d.len()
        invariant
            f.valid(),
            d.len() <= m.len(),
            forall|i: int| 0 <= i < d.len() ==> j < (#[trigger] m[i]).len(),
            i <= d.len(),
            acc == column_prefix(*f, d@, view2(*m), j as int, i as nat),
        decreases d.len() - i,
    {
        let p = f.mul(d[i], m[i][j]);
        acc = f.add(acc, p);
        i = i + 1;
    }
    acc
}

fn combine_entry<T: Copy, F: NetworkFunctions<T>>(f: &F, op: Combine, a: T, b: T) -> (r: T)
    requires
        f.valid(),
    ensures
        r == combine_value(*f, op, a, b),
{
    match op {
        Combine::Add => f.add(a, b),
        Combine::Subtract => f.sub(a, b),
    }
}

fn scale_entry<T: Copy, F: NetworkFunctions<T>>(f: &F, op: Scale<T>, a: T) -> (r: T)
    requires
        f.valid(),
    ensures
        r == scale_value(*f, op, a),
{
    match op {
        Scale::MultiplyBy(s) => f.mul(a, s),
        Scale::DivideBy(n) => f.div_count(a, n),
    }
}

/// Combines two vectors of equal length entry by entry.
pub fn combine_vectors<T: Copy, F: NetworkFunctions<T>>(
    f: &F,
    op: Combine,
    a: &Vec<T>,
    b: &Vec<T>,
) -> (r: Vec<T>)
    requires
        f.valid(),
        a.len() == b.len(),
    ensures
        r@ == combine1(*f, op, a@, b@),
{
    let mut r: Vec<T> = Vec::new();
    let mut k: usize = 0;
    while k < a.len()
        invariant
            f.valid(),
            a.len() == b.len(),
            k <= a.len(),
            r@ == combine1(*f, op, a@, b@).take(k as int),
        decreases a.len() - k,
    {
        let x = combine_entry(f, op, a[k], b[k]);
        r.push(x);
        k = k + 1;
    }
    r
}

/// Combines two matrices of one shape entry by entry.
pub fn combine_matrices<T: Copy, F: NetworkFunctions<T>>(
    f: &F,
    op: Combine,
    a: &Vec<Vec<T>>,
    b: &Vec<Vec<T>>,
) -> (r: Vec<Vec<T>>)
    requires
        f.valid(),
        same_shape2(view2(*a), view2(*b)),
    ensures
        view2(r) == combine2(*f, op, view2(*a), view2(*b)),
{
    let mut r: Vec<Vec<T>> = Vec::new();
    let mut j: usize = 0;
    while j < a.len()
        invariant
            f.valid(),
            same_shape2(view2(*a), view2(*b)),
            j <= a.len(),
            view2(r) == combine2(*f, op, view2(*a), view2(*b)).take(j as int),
        decreases a.len() - j,
    {
        assert(view2(*a)[j as int] == a[j as int]@);
        assert(view2(*b)[j as int] == b[j as int]@);
        let row = combine_vectors(f, op, &a[j], &b[j]);
        let ghost old_r = r;
        r.push(row);
        assert(view2(r) =~= view2(old_r).push(row@));
        j = j + 1;
    }
    r
}

/// Combines two rank-3 tensors of one shape entry by entry.
pub fn combine_tensors<T: Copy, F: NetworkFunctions<T>>(
    f: &F,
    op: Combine,
    a: &Vec<Vec<Vec<T>>>,
    b: &Vec<Vec<Vec<T>>>,
) -> (r: Vec<Vec<Vec<T>>>)
    requires
        f.valid(),
        same_shape3(view3(*a), view3(*b)),
    ensures
        view3(r) == combine3(*f, op, view3(*a), view3(*b)),
{
    let mut r: Vec<Vec<Vec<T>>> = Vec::new();
    let mut l: usize = 0;
    while l < a.len()
        invariant
            f.valid(),
            same_shape3(view3(*a), view3(*b)),
            l <= a.len(),
            view3(r) == combine3(*f, op, view3(*a), view3(*b)).take(l as int),
        decreases a.len() - l,
    {
        assert(view3(*a)[l as int] == view2(a[l as int]));
        assert(view3(*b)[l as int] == view2(b[l as int]));
        let m = combine_matrices(f, op, &a[l], &b[l]);
        let ghost old_r = r;
        r.push(m);
        assert(view3(r) =~= view3(old_r).push(view2(m)));
        l = l + 1;
    }
    r
}

/// Applies a scalar operation to each entry of a vector.
pub fn scale_vector<T: Copy, F: NetworkFunctions<T>>(f: &F, op: Scale<T>, a: &Vec<T>) -> (r: Vec<T>)
    requires
        f.valid(),
    ensures
        r@ == scale1(*f, op, a@),
{
    let mut r: Vec<T> = Vec::new();
    let mut k: usize = 0;
    while k < a.len()
        invariant
            f.valid(),
            k <= a.len(),
            r@ == scale1(*f, op, a@).take(k as int),
        decreases a.len() - k,
    {
        let x = scale_entry(f, op, a[k]);
        r.push(x);
        k = k + 1;
    }
    r
}

/// Applies a scalar operation to each entry of a matrix.
pub fn scale_matrix<T: Copy, F: NetworkFunctions<T>>(f: &F, op: Scale<T>, a: &Vec<Vec<T>>) -> (r: Vec<
    Vec<T>,
>)
    requires
        f.valid(),
    ensures
        view2(r) == scale2(*f, op, view2(*a)),
{
    let mut r: Vec<Vec<T>> = Vec::new();
    let mut j: usize = 0;
    while j < a.len()
        invariant
            f.valid(),
            j <= a.len(),
            view2(r) == scale2(*f, op, view2(*a)).take(j as int),
        decreases a.len() - j,
    {
        assert(view2(*a)[j as int] == a[j as int]@);
        let row = scale_vector(f, op, &a[j]);
        let ghost old_r = r;
        r.push(row);
        assert(view2(r) =~= view2(old_r).push(row@));
        j = j + 1;
    }
    r
}

/// Applies a scalar operation to each entry of a rank-3 tensor.
pub fn scale_tensor<T: Copy, F: NetworkFunctions<T>>(
    f: &F,
    op: Scale<T>,
    a: &Vec<Vec<Vec<T>>>,
) -> (r: Vec<Vec<Vec<T>>>)
    requires
        f.valid(),
    ensures
        view3(r) == scale3(*f, op, view3(*a)),
{
    let mut r: Vec<Vec<Vec<T>>> = Vec::new();
    let mut l: usize = 0;
    while l < a.len()
        invariant
            f.valid(),
            l <= a.len(),
            view3(r) == scale3(*f, op, view3(*a)).take(l as int),
        decreases a.len() - l,
    {
        assert(view3(*a)[l as int] == view2(a[l as int]));
        let m = scale_matrix(f, op, &a[l]);
        let ghost old_r = r;
        r.push(m);
        assert(view3(r) =~= view3(old_r).push(view2(m)));
        l = l + 1;
    }
    r
}

} // verus!

verus! {

/// Combining keeps the shape of the first operand.
pub proof fn lemma_combine3_shape<T, F: NetworkFunctions<T>>(
    f: F,
    op: Combine,
    a: Seq<Seq<Seq<T>>>,
    b: Seq<Seq<Seq<T>>>,
)
    ensures
        same_shape3(combine3(f, op, a, b), a),
{
}

/// Combining keeps the shape of the first operand.
pub proof fn lemma_combine2_shape<T, F: NetworkFunctions<T>>(
    f: F,
    op: Combine,
    a: Seq<Seq<T>>,
    b: Seq<Seq<T>>,
)
    ensures
        same_shape2(combine2(f, op, a, b), a),
{
}

/// Scaling keeps the shape.
pub proof fn lemma_scale3_shape<T, F: NetworkFunctions<T>>(f: F, op: Scale<T>, a: Seq<Seq<Seq<T>>>)
    ensures
        same_shape3(scale3(f, op, a), a),
{
}

/// Scaling keeps the shape.
pub proof fn lemma_scale2_shape<T, F: NetworkFunctions<T>>(f: F, op: Scale<T>, a: Seq<Seq<T>>)
    ensures
        same_shape2(scale2(f, op, a), a),
{
}

/// A rank-3 tensor whose view has the shape of another's has its dimensions.
pub proof fn lemma_shape3<T>(x: Vec<Vec<Vec<T>>>, s: Seq<Seq<Seq<T>>>, a: Vec<Vec<Vec<T>>>)
    requires
        view3(x) == s,
        same_shape3(s, view3(a)),
    ensures
        x.len() == a.len(),
        forall|l: int| 0 <= l < x.len() ==> (#[trigger] x[l]).len() == a[l].len(),
        forall|l: int, j: int|
            0 <= l < x.len() && 0 <= j < x[l].len() ==> (#[trigger] x[l][j]).len() == a[l][j].len(),
{
    assert forall|l: int| 0 <= l < x.len() implies (#[trigger] x[l]).len() == a[l].len() by {
        assert(view3(x)[l] == view2(x[l]));
        assert(view3(a)[l] == view2(a[l]));
    }
    assert forall|l: int, j: int| 0 <= l < x.len() && 0 <= j < x[l].len() implies (
    #[trigger] x[l][j]).len() == a[l][j].len() by {
        assert(view3(x)[l] == view2(x[l]));
        assert(view3(a)[l] == view2(a[l]));
        assert(view2(x[l])[j] == x[l][j]@);
        assert(view2(a[l])[j] == a[l][j]@);
    }
}

/// A matrix whose view has the shape of another's has its dimensions.
pub proof fn lemma_shape2<T>(x: Vec<Vec<T>>, s: Seq<Seq<T>>, a: Vec<Vec<T>>)
    requires
        view2(x) == s,
        same_shape2(s, view2(a)),
    ensures
        x.len() == a.len(),
        forall|l: int| 0 <= l < x.len() ==> (#[trigger] x[l]).len() == a[l].len(),
{
    assert forall|l: int| 0 <= l < x.len() implies (#[trigger] x[l]).len() == a[l].len() by {
        assert(view2(x)[l] == x[l]@);
        assert(view2(a)[l] == a[l]@);
    }
}

} // verus!
