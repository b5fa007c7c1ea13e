# togo

2D geometry of points, segments, circles, counter-clockwise arcs, arclines
and polylines.

The crate is split in two:

- `src/` is the verified library (Verus). Coordinates are IEEE-754
  binary64 numbers held as their encodings (`Binary64`), with sign flip,
  equality, ordering and classification specified exactly. The library
  decides everything that follows from comparisons and from the results of
  metric tests: how segments and arcs intersect (from their line or circle
  intersections), whether an arcline is valid, which points a convex hull
  keeps and in which order its walk visits them, the lowest and extreme
  points of a set, the self-intersections of an arcline, the reversal of
  arclines and polylines, the partial order of points.
- `app/` is the floating-point front end with `f64` coordinates: distances,
  intersection points, areas, bounding shapes, tangents, the robust
  orientation tests (`robust`), the spatial index (`aabb`) and SVG output.
  It converts its values to and from the library's types and hands every
  decision to the library.

Modules of the library:

| module | contents |
|---|---|
| `binary64` | binary64 numbers: encoding, classification, negation, IEEE comparisons |
| `constants` | tolerances |
| `point`, `point_order` | points, negation, sorting four collinear points by their coordinates along the line, lexicographic order |
| `segment`, `line`, `rect`, `polyline`, `offset_raw` | primitives, polyline reversal |
| `arc` | arcs and segments as arcs, arcline reversal |
| `validation` | arcline validation, choice of the intersection test |
| `intersection` | intersection configurations and their classification |
| `hull` | convexity, hull candidates (finite, distinct points), extreme points, Akl-Toussaint selection, gift wrapping |
| `arc_hull` | the end points of an arcline, the lowest point, the closed hull chain |
| `bounding` | angular ranges |
| `distance` | where the closest points of a segment and a circle are |
| `self_intersect` | collecting the self-intersections of an arcline |

The tests in `tests/` run the library with the values written as binary64
encodings of `f64` literals.
