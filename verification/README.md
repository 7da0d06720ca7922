# euclid box3d

Axis-aligned boxes in three dimensions (`TypedBox3D`), with the points, vectors,
sizes, lengths and scale factors they are built from, over integer coordinates.

- `src/num.rs`: the `Coord` trait (implemented for the machine integer types up to `i128`, except `u128`),
  stated over each coordinate's mathematical value.
- `src/model.rs`: the mathematical view: triples of integers and cuboids.
- `src/point.rs`, `src/length.rs`, `src/scale.rs`, `src/approxord.rs`: building blocks.
- `src/box3d.rs`: the box and its operations, each with a contract over the view.
- `src/laws.rs`: properties that relate the operations, proved.
- `app/lib.rs`: serialization and display, and boxes with floating-point coordinates.
