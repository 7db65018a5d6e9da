use vstd::prelude::*;
use crate::scalar::RealField;
use crate::vector::{Vector, dot_prefix, seq_add, seq_cross, seq_dot, seq_neg, seq_scale};

verus! {

proof fn lemma_dot_prefix_add_right(u: Seq<int>, v: Seq<int>, w: Seq<int>, n: int)
    requires
        0 <= n <= u.len(),
        u.len() == v.len(),
        v.len() == w.len(),
    ensures
        dot_prefix(u, seq_add(v, w), n) == dot_prefix(u, v, n) + dot_prefix(u, w, n),
    decreases n,
{
    if n > 0 {
        lemma_dot_prefix_add_right(u, v, w, n - 1);
        let (a, b, c) = (u[n - 1], v[n - 1], w[n - 1]);
        assert(a * (b + c) == a * b + a * c) by (nonlinear_arith);
    }
}

proof fn lemma_dot_prefix_add_left(u: Seq<int>, v: Seq<int>, w: Seq<int>, n: int)
    requires
        0 <= n <= u.len(),
        u.len() == v.len(),
        v.len() == w.len(),
    ensures
        dot_prefix(seq_add(u, v), w, n) == dot_prefix(u, w, n) + dot_prefix(v, w, n),
    decreases n,
{
    if n > 0 {
        lemma_dot_prefix_add_left(u, v, w, n - 1);
        let (a, b, c) = (u[n - 1], v[n - 1], w[n - 1]);
        assert((a + b) * c == a * c + b * c) by (nonlinear_arith);
    }
}

proof fn lemma_dot_prefix_scale_right(u: Seq<int>, v: Seq<int>, s: int, n: int)
    requires
        0 <= n <= u.len(),
        u.len() == v.len(),
    ensures
        dot_prefix(u, seq_scale(v, s), n) == s * dot_prefix(u, v, n),
    decreases n,
{
    if n > 0 {
        lemma_dot_prefix_scale_right(u, v, s, n - 1);
        let (a, b, p) = (u[n - 1], v[n - 1], dot_prefix(u, v, n - 1));
        assert(s * p + a * (b * s) == s * (p + a * b)) by (nonlinear_arith);
    }
}

proof fn lemma_dot_prefix_scale_left(u: Seq<int>, v: Seq<int>, s: int, n: int)
    requires
        0 <= n <= u.len(),
        u.len() == v.len(),
    ensures
        dot_prefix(seq_scale(u, s), v, n) == s * dot_prefix(u, v, n),
    decreases n,
{
    if n > 0 {
        lemma_dot_prefix_scale_left(u, v, s, n - 1);
        let (a, b, p) = (u[n - 1], v[n - 1], dot_prefix(u, v, n - 1));
        assert(s * p + (a * s) * b == s * (p + a * b)) by (nonlinear_arith);
    }
}

/// The dot product of two three-component sequences, written out.
proof fn lemma_dot3(u: Seq<int>, v: Seq<int>)
    requires
        u.len() == 3,
    ensures
        seq_dot(u, v) == u[0] * v[0] + u[1] * v[1] + u[2] * v[2],
{
    assert(dot_prefix(u, v, 0) == 0);
    assert(dot_prefix(u, v, 1) == u[0] * v[0]);
    assert(dot_prefix(u, v, 2) == u[0] * v[0] + u[1] * v[1]);
}

/// The dot product is bilinear: in each argument it distributes over the
/// sum of vectors and takes a scalar factor out.
pub proof fn lemma_dot_bilinear<T: RealField>(a: Vector<T>, b: Vector<T>, c: Vector<T>, s: T)
    requires
        a@.len() == b@.len(),
        b@.len() == c@.len(),
    ensures
        seq_dot(a@, seq_add(b@, c@)) == seq_dot(a@, b@) + seq_dot(a@, c@),
        seq_dot(seq_add(a@, b@), c@) == seq_dot(a@, c@) + seq_dot(b@, c@),
        seq_dot(a@, seq_scale(b@, s.val())) == s.val() * seq_dot(a@, b@),
        seq_dot(seq_scale(a@, s.val()), b@) == s.val() * seq_dot(a@, b@),
{
    let n = a@.len() as int;
    lemma_dot_prefix_add_right(a@, b@, c@, n);
    lemma_dot_prefix_add_left(a@, b@, c@, n);
    lemma_dot_prefix_scale_right(a@, b@, s.val(), n);
    lemma_dot_prefix_scale_left(a@, b@, s.val(), n);
}

/// The cross product of two three-component vectors is orthogonal to each
/// of them: its dot product with either is zero.
pub proof fn lemma_cross_orthogonal<T: RealField>(a: Vector<T>, b: Vector<T>)
    requires
        a@.len() == 3,
        b@.len() == 3,
    ensures
        seq_dot(seq_cross(a@, b@), a@) == 0,
        seq_dot(seq_cross(a@, b@), b@) == 0,
{
    let w = seq_cross(a@, b@);
    lemma_dot3(w, a@);
    lemma_dot3(w, b@);
    let (a0, a1, a2, b0, b1, b2) = (a@[0], a@[1], a@[2], b@[0], b@[1], b@[2]);
    assert((a1 * b2 - a2 * b1) * a0 + (a2 * b0 - a0 * b2) * a1 + (a0 * b1 - a1 * b0) * a2 == 0)
        by (nonlinear_arith);
    assert((a1 * b2 - a2 * b1) * b0 + (a2 * b0 - a0 * b2) * b1 + (a0 * b1 - a1 * b0) * b2 == 0)
        by (nonlinear_arith);
}

/// The cross product is antisymmetric: swapping the operands negates it.
pub proof fn lemma_cross_antisymmetric<T: RealField>(a: Vector<T>, b: Vector<T>)
    requires
        a@.len() == 3,
        b@.len() == 3,
    ensures
        seq_cross(a@, b@) == seq_neg(seq_cross(b@, a@)),
{
    let (a0, a1, a2, b0, b1, b2) = (a@[0], a@[1], a@[2], b@[0], b@[1], b@[2]);
    assert(a1 * b2 - a2 * b1 == -(b1 * a2 - b2 * a1)) by (nonlinear_arith);
    assert(a2 * b0 - a0 * b2 == -(b2 * a0 - b0 * a2)) by (nonlinear_arith);
    assert(a0 * b1 - a1 * b0 == -(b0 * a1 - b1 * a0)) by (nonlinear_arith);
    assert(seq_cross(a@, b@) =~= seq_neg(seq_cross(b@, a@)));
}

} // verus!
