use vstd::prelude::*;
use crate::scalar::RealField;

verus! {

/// A vector of two, three or four components over a scalar type `T`.
#[derive(Debug, Clone, Copy, PartialEq, Eq)]
pub enum Vector<T> {
    Vector2 { x: T, y: T },
    Vector3 { x: T, y: T, z: T },
    Vector4 { r: T, g: T, b: T, a: T },
}

/// Why a vector operation refused its operands.
#[derive(Debug, Clone, Copy, PartialEq, Eq, Structural)]
pub enum VectorError {
    /// The two operands have different numbers of components.
    ShapeMismatch,
    /// The cross product was asked of vectors that do not have three components.
    NotThreeDimensional,
}

/// A vector is seen as the sequence of its components' values, in order;
/// its length tells the shape apart.
impl<T: RealField> View for Vector<T> {
    type V = Seq<int>;

    open spec fn view(&self) -> Seq<int> {
        match *self {
            Vector::Vector2 { x, y } => seq![x.val(), y.val()],
            Vector::Vector3 { x, y, z } => seq![x.val(), y.val(), z.val()],
            Vector::Vector4 { r, g, b, a } => seq![r.val(), g.val(), b.val(), a.val()],
        }
    }
}

/// Componentwise sum.
pub open spec fn seq_add(u: Seq<int>, v: Seq<int>) -> Seq<int> {
    Seq::new(u.len(), |i: int| u[i] + v[i])
}

/// Componentwise difference.
pub open spec fn seq_sub(u: Seq<int>, v: Seq<int>) -> Seq<int> {
    Seq::new(u.len(), |i: int| u[i] - v[i])
}

/// Every component multiplied by `s`.
pub open spec fn seq_scale(u: Seq<int>, s: int) -> Seq<int> {
    Seq::new(u.len(), |i: int| u[i] * s)
}

/// Every component negated.
pub open spec fn seq_neg(u: Seq<int>) -> Seq<int> {
    Seq::new(u.len(), |i: int| -u[i])
}

/// The sum of the first `n` pairwise products, added from the left.
pub open spec fn dot_prefix(u: Seq<int>, v: Seq<int>, n: int) -> int
    decreases n,
{
    if n <= 0 {
        0
    } else {
        dot_prefix(u, v, n - 1) + u[n - 1] * v[n - 1]
    }
}

/// The dot product: the sum of all pairwise products.
pub open spec fn seq_dot(u: Seq<int>, v: Seq<int>) -> int {
    dot_prefix(u, v, u.len() as int)
}

/// The three-dimensional cross product.
pub open spec fn seq_cross(u: Seq<int>, v: Seq<int>) -> Seq<int> {
    seq![
        u[1] * v[2] - u[2] * v[1],
        u[2] * v[0] - u[0] * v[2],
        u[0] * v[1] - u[1] * v[0],
    ]
}

impl<T: RealField> Vector<T> {
    /// Every componentwise sum fits in `T`.
    pub open spec fn add_fits(self, other: Self) -> bool {
        forall|i: int| 0 <= i < self@.len() ==> #[trigger] T::fits(self@[i] + other@[i])
    }

    /// Every componentwise difference fits in `T`.
    pub open spec fn sub_fits(self, other: Self) -> bool {
        forall|i: int| 0 <= i < self@.len() ==> #[trigger] T::fits(self@[i] - other@[i])
    }

    /// Every component times `s` fits in `T`.
    pub open spec fn scale_fits(self, s: T) -> bool {
        forall|i: int| 0 <= i < self@.len() ==> #[trigger] T::fits(self@[i] * s.val())
    }

    /// Every pairwise product, and every partial sum of them, fits in `T`.
    pub open spec fn dot_fits(self, other: Self) -> bool {
        forall|k: int|
            1 <= k <= self@.len() ==> #[trigger] T::fits(dot_prefix(self@, other@, k)) && T::fits(
                self@[k - 1] * other@[k - 1],
            )
    }

    /// Every product in the cross product, and every difference of them, fits in `T`.
    pub open spec fn cross_fits(self, other: Self) -> bool {
        let u = self@;
        let v = other@;
        &&& T::fits(u[1] * v[2]) && T::fits(u[2] * v[1]) && T::fits(u[1] * v[2] - u[2] * v[1])
        &&& T::fits(u[2] * v[0]) && T::fits(u[0] * v[2]) && T::fits(u[2] * v[0] - u[0] * v[2])
        &&& T::fits(u[0] * v[1]) && T::fits(u[1] * v[0]) && T::fits(u[0] * v[1] - u[1] * v[0])
    }

    /// Componentwise sum of two vectors of one shape.
    pub fn add(self, other: Self) -> (res: Result<Self, VectorError>)
        requires
            self@.len() == other@.len() ==> self.add_fits(other),
        ensures
            res is Ok <==> self@.len() == other@.len(),
            res matches Ok(v) ==> v@ == seq_add(self@, other@),
            res matches Err(e) ==> e == VectorError::ShapeMismatch,
    {
        match (self, other) {
            (Vector::Vector2 { x: x1, y: y1 }, Vector::Vector2 { x: x2, y: y2 }) => {
                proof {
                    assert(T::fits(self@[0] + other@[0]));
                    assert(T::fits(self@[1] + other@[1]));
                }
                let v = Vector::Vector2 { x: x1.plus(x2), y: y1.plus(y2) };
                assert(v@ =~= seq_add(self@, other@));
                Ok(v)
            },
            (Vector::Vector3 { x: x1, y: y1, z: z1 }, Vector::Vector3 { x: x2, y: y2, z: z2 }) => {
                proof {
                    assert(T::fits(self@[0] + other@[0]));
                    assert(T::fits(self@[1] + other@[1]));
                    assert(T::fits(self@[2] + other@[2]));
                }
                let v = Vector::Vector3 { x: x1.plus(x2), y: y1.plus(y2), z: z1.plus(z2) };
                assert(v@ =~= seq_add(self@, other@));
                Ok(v)
            },
            (
                Vector::Vector4 { r: r1, g: g1, b: b1, a: a1 },
                Vector::Vector4 { r: r2, g: g2, b: b2, a: a2 },
            ) => {
                proof {
                    assert(T::fits(self@[0] + other@[0]));
                    assert(T::fits(self@[1] + other@[1]));
                    assert(T::fits(self@[2] + other@[2]));
                    assert(T::fits(self@[3] + other@[3]));
                }
                let v = Vector::Vector4 {
                    r: r1.plus(r2),
                    g: g1.plus(g2),
                    b: b1.plus(b2),
                    a: a1.plus(a2),
                };
                assert(v@ =~= seq_add(self@, other@));
                Ok(v)
            },
            _ => Err(VectorError::ShapeMismatch),
        }
    }

    /// Componentwise difference of two vectors of one shape.
    pub fn sub(self, other: Self) -> (res: Result<Self, VectorError>)
        requires
            self@.len() == other@.len() ==> self.sub_fits(other),
        ensures
            res is Ok <==> self@.len() == other@.len(),
            res matches Ok(v) ==> v@ == seq_sub(self@, other@),
            res matches Err(e) ==> e == VectorError::ShapeMismatch,
    {
        match (self, other) {
            (Vector::Vector2 { x: x1, y: y1 }, Vector::Vector2 { x: x2, y: y2 }) => {
                proof {
                    assert(T::fits(self@[0] - other@[0]));
                    assert(T::fits(self@[1] - other@[1]));
                }
                let v = Vector::Vector2 { x: x1.minus(x2), y: y1.minus(y2) };
                assert(v@ =~= seq_sub(self@, other@));
                Ok(v)
            },
            (Vector::Vector3 { x: x1, y: y1, z: z1 }, Vector::Vector3 { x: x2, y: y2, z: z2 }) => {
                proof {
                    assert(T::fits(self@[0] - other@[0]));
                    assert(T::fits(self@[1] - other@[1]));
                    assert(T::fits(self@[2] - other@[2]));
                }
                let v = Vector::Vector3 { x: x1.minus(x2), y: y1.minus(y2), z: z1.minus(z2) };
                assert(v@ =~= seq_sub(self@, other@));
                Ok(v)
            },
            (
                Vector::Vector4 { r: r1, g: g1, b: b1, a: a1 },
                Vector::Vector4 { r: r2, g: g2, b: b2, a: a2 },
            ) => {
                proof {
                    assert(T::fits(self@[0] - other@[0]));
                    assert(T::fits(self@[1] - other@[1]));
                    assert(T::fits(self@[2] - other@[2]));
                    assert(T::fits(self@[3] - other@[3]));
                }
                let v = Vector::Vector4 {
                    r: r1.minus(r2),
                    g: g1.minus(g2),
                    b: b1.minus(b2),
                    a: a1.minus(a2),
                };
                assert(v@ =~= seq_sub(self@, other@));
                Ok(v)
            },
            _ => Err(VectorError::ShapeMismatch),
        }
    }

    /// Every component multiplied by the scalar `s`.
    pub fn scale(self, s: T) -> (res: Self)
        requires
            self.scale_fits(s),
        ensures
            res@ == seq_scale(self@, s.val()),
    {
        match self {
            Vector::Vector2 { x, y } => {
                proof {
                    assert(T::fits(self@[0] * s.val()));
                    assert(T::fits(self@[1] * s.val()));
                }
                let v = Vector::Vector2 { x: x.times(s), y: y.times(s) };
                assert(v@ =~= seq_scale(self@, s.val()));
                v
            },
            Vector::Vector3 { x, y, z } => {
                proof {
                    assert(T::fits(self@[0] * s.val()));
                    assert(T::fits(self@[1] * s.val()));
                    assert(T::fits(self@[2] * s.val()));
                }
                let v = Vector::Vector3 { x: x.times(s), y: y.times(s), z: z.times(s) };
                assert(v@ =~= seq_scale(self@, s.val()));
                v
            },
            Vector::Vector4 { r, g, b, a } => {
                proof {
                    assert(T::fits(self@[0] * s.val()));
                    assert(T::fits(self@[1] * s.val()));
                    assert(T::fits(self@[2] * s.val()));
                    assert(T::fits(self@[3] * s.val()));
                }
                let v = Vector::Vector4 { r: r.times(s), g: g.times(s), b: b.times(s), a: a.times(s) };
                assert(v@ =~= seq_scale(self@, s.val()));
                v
            },
        }
    }

    /// The dot product of two vectors of one shape: the sum of the pairwise
    /// products, added from the left.
    pub fn dot(self, other: Self) -> (res: Result<T, VectorError>)
        requires
            self@.len() == other@.len() ==> self.dot_fits(other),
        ensures
            res is Ok <==> self@.len() == other@.len(),
            res matches Ok(d) ==> d.val() == seq_dot(self@, other@),
            res matches Err(e) ==> e == VectorError::ShapeMismatch,
    {
        let ghost u = self@;
        let ghost v = other@;
        match (self, other) {
            (Vector::Vector2 { x: x1, y: y1 }, Vector::Vector2 { x: x2, y: y2 }) => {
                proof {
                    assert(T::fits(dot_prefix(u, v, 1)));
                    assert(T::fits(dot_prefix(u, v, 2)));
                    assert(dot_prefix(u, v, 0) == 0);
                }
                Ok(x1.times(x2).plus(y1.times(y2)))
            },
            (Vector::Vector3 { x: x1, y: y1, z: z1 }, Vector::Vector3 { x: x2, y: y2, z: z2 }) => {
                proof {
                    assert(T::fits(dot_prefix(u, v, 1)));
                    assert(T::fits(dot_prefix(u, v, 2)));
                    assert(T::fits(dot_prefix(u, v, 3)));
                    assert(dot_prefix(u, v, 0) == 0);
                }
                Ok(x1.times(x2).plus(y1.times(y2)).plus(z1.times(z2)))
            },
            (
                Vector::Vector4 { r: r1, g: g1, b: b1, a: a1 },
                Vector::Vector4 { r: r2, g: g2, b: b2, a: a2 },
            ) => {
                proof {
                    assert(T::fits(dot_prefix(u, v, 1)));
                    assert(T::fits(dot_prefix(u, v, 2)));
                    assert(T::fits(dot_prefix(u, v, 3)));
                    assert(T::fits(dot_prefix(u, v, 4)));
                    assert(dot_prefix(u, v, 0) == 0);
                }
                Ok(r1.times(r2).plus(g1.times(g2)).plus(b1.times(b2)).plus(a1.times(a2)))
            },
            _ => Err(VectorError::ShapeMismatch),
        }
    }

    /// The cross product of two three-component vectors:
    /// `(y1 z2 - z1 y2, z1 x2 - x1 z2, x1 y2 - y1 x2)`.
    pub fn cross(self, other: Self) -> (res: Result<Self, VectorError>)
        requires
            self@.len() == 3 && other@.len() == 3 ==> self.cross_fits(other),
        ensures
            res is Ok <==> self@.len() == 3 && other@.len() == 3,
            res matches Ok(w) ==> w@ == seq_cross(self@, other@),
            res matches Err(e) ==> e == (if self@.len() != other@.len() {
                VectorError::ShapeMismatch
            } else {
                VectorError::NotThreeDimensional
            }),
    {
        match (self, other) {
            (Vector::Vector3 { x: x1, y: y1, z: z1 }, Vector::Vector3 { x: x2, y: y2, z: z2 }) => {
                let w = Vector::Vector3 {
                    x: y1.times(z2).minus(z1.times(y2)),
                    y: z1.times(x2).minus(x1.times(z2)),
                    z: x1.times(y2).minus(y1.times(x2)),
                };
                assert(w@ =~= seq_cross(self@, other@));
                Ok(w)
            },
            (Vector::Vector2 { .. }, Vector::Vector2 { .. }) => Err(
                VectorError::NotThreeDimensional,
            ),
            (Vector::Vector4 { .. }, Vector::Vector4 { .. }) => Err(
                VectorError::NotThreeDimensional,
            ),
            _ => Err(VectorError::ShapeMismatch),
        }
    }
}

} // verus!
