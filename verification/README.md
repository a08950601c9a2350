# euclid (integer matrices)

4 by 4 transformation matrices with the source and destination units in their
type, together with the points, 2d matrices and scale factors they work with.
The arithmetic works on `i64` terms. Every operation's contract states its
result over a model of matrices of unbounded integers (`src/model.rs`), and
`src/laws.rs` proves what the operations satisfy together: associativity of
the product, the identity, the adjugate, the determinant of a product and of a
transpose, the inverse with integer terms (which exists exactly when the
determinant is 1 or -1), and how transformations of points compose.

- `src/matrix4d.rs`: `TypedMatrix4D` and its operations.
- `src/model.rs`: the integer model and the conditions under which a
  computation on `i64` terms stays in range.
- `src/laws.rs`: the laws.
- `src/point.rs`, `src/matrix2d.rs`, `src/scale_factor.rs`: the types the
  matrices take and return.
- `app/`: the matrices whose terms are sines, cosines, tangents or quotients
  (rotations, skews, orthographic and perspective projections), on
  floating-point terms.
