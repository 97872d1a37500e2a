//! The authored shape, its closed outline, and the compound collision shape
//! assembled from a triangulation of that outline.

use vstd::prelude::*;
use crate::geometry::{GridPoint, Triangle};

verus! {

/// The authored record of one sprite: where its image lies, the outline
/// clicked so far, and whether its collider is to be a sensor.
///
/// `points` is an open path in insertion order; a point may occur twice, and
/// the edge that closes the outline is not stored.
#[derive(Clone, Debug, PartialEq, Eq)]
pub struct SpritePhysicsAsset {
    pub img_file: String,
    pub points: Vec<GridPoint>,
    pub sensor: bool,
}

/// Marks the sprite that is being authored. `dirty` is set while `points`
/// has changed since the collider was last rebuilt.
#[derive(Clone, Copy, Debug, PartialEq, Eq, Structural)]
pub struct MainImage {
    pub dirty: bool,
}

/// One rigidly placed triangle of a compound shape. `rotation` counts whole
/// degrees, counter-clockwise.
#[derive(Clone, Copy, Debug, PartialEq, Eq, Structural)]
pub struct ShapePart {
    pub offset: GridPoint,
    pub rotation: i32,
    pub triangle: Triangle,
}

/// A collision shape made of triangles, with the sensor flag that goes to
/// the physics engine along with it.
#[derive(Clone, Debug, PartialEq, Eq)]
pub struct CompoundShape {
    pub parts: Vec<ShapePart>,
    pub sensor: bool,
}

/// What a [`CompoundShape`] holds.
pub struct CompoundShapeView {
    pub parts: Seq<ShapePart>,
    pub sensor: bool,
}

/// The vertex and index buffers that a fill tessellator produced. Every
/// three consecutive indices name the corners of one triangle.
#[derive(Clone, Debug, PartialEq, Eq)]
pub struct Tessellation {
    pub vertices: Vec<GridPoint>,
    pub indices: Vec<usize>,
}

/// Why a tessellator gave up on an outline.
#[derive(Clone, Copy, Debug, PartialEq, Eq, Structural)]
pub enum TessellationFailure {
    /// A parameter or a position was not a number the tessellator accepts.
    UnsupportedParameter,
    /// The output buffers could not take another vertex.
    GeometryBuilder,
    /// The sweep could not make sense of the geometry.
    Internal,
}

/// Why a rebuild left the collider as it was.
#[derive(Clone, Copy, Debug, PartialEq, Eq, Structural)]
pub enum RebuildError {
    /// The tessellator failed.
    Tessellation(TessellationFailure),
    /// The tessellation holds no triangle: the outline encloses no area.
    NoTriangles,
    /// An index of a complete group names no vertex.
    IndexOutOfRange,
}

impl View for CompoundShape {
    type V = CompoundShapeView;

    open spec fn view(&self) -> CompoundShapeView {
        CompoundShapeView { parts: self.parts@, sensor: self.sensor }
    }
}

/// The outline as a closed polygon: it starts at the last point and runs
/// through the others in their stored order; the edge back to the start is
/// implied.
pub open spec fn closed_outline(points: Seq<GridPoint>) -> Seq<GridPoint> {
    if points.len() == 0 {
        points
    } else {
        seq![points.last()] + points.drop_last()
    }
}

/// The number of complete groups of three in an index buffer.
pub open spec fn group_count(indices: Seq<usize>) -> int {
    indices.len() as int / 3
}

/// Whether every index of every complete group names a vertex.
pub open spec fn indices_in_range(vertices: Seq<GridPoint>, indices: Seq<usize>) -> bool {
    forall|i: int| 0 <= i < 3 * group_count(indices) ==> (#[trigger] indices[i]) < vertices.len()
}

/// The triangle that group `group` of the index buffer names.
pub open spec fn triangle_at(vertices: Seq<GridPoint>, indices: Seq<usize>, group: int) -> Triangle {
    Triangle {
        a: vertices[indices[3 * group] as int],
        b: vertices[indices[3 * group + 1] as int],
        c: vertices[indices[3 * group + 2] as int],
    }
}

/// A triangle placed at the origin, unrotated.
pub open spec fn rigid_part(triangle: Triangle) -> ShapePart {
    ShapePart { offset: GridPoint { x: 0, y: 0 }, rotation: 0, triangle }
}

/// The parts of the compound shape of a tessellation: one rigid part for
/// each complete group of three indices, in the order of the index buffer.
/// Indices left over after the last complete group are ignored.
pub open spec fn compound_parts(vertices: Seq<GridPoint>, indices: Seq<usize>) -> Seq<ShapePart> {
    Seq::new(
        group_count(indices) as nat,
        |group: int| rigid_part(triangle_at(vertices, indices, group)),
    )
}

/// Closes the stored path into a polygon for the tessellator.
pub fn close_outline(points: &Vec<GridPoint>) -> (outline: Vec<GridPoint>)
    ensures
        outline@ == closed_outline(points@),
{
    let mut outline: Vec<GridPoint> = Vec::new();
    let n: usize = points.len();
    if n == 0 {
        return outline;
    }
    outline.push(points[n - 1]);
    let mut i: usize = 0;
    while i < n - 1
        invariant
            n == points.len(),
            n >= 1,
            i <= n - 1,
            outline@ == seq![points@.last()] + points@.subrange(0, i as int),
        decreases n - i,
    {
        outline.push(points[i]);
        i += 1;
    }
    assert(points@.subrange(0, n - 1) == points@.drop_last());
    outline
}

/// What [`assemble`] answers for the two buffers of a tessellation.
pub open spec fn assembled(vertices: Seq<GridPoint>, indices: Seq<usize>) -> Result<
    Seq<ShapePart>,
    RebuildError,
> {
    if group_count(indices) == 0 {
        Err(RebuildError::NoTriangles)
    } else if !indices_in_range(vertices, indices) {
        Err(RebuildError::IndexOutOfRange)
    } else {
        Ok(compound_parts(vertices, indices))
    }
}

/// Builds the compound shape of a tessellation: each complete group of
/// three indices becomes one triangle at the origin, unrotated.
///
/// Fails, building nothing, where the tessellation has no complete group,
/// or an index of a complete group names no vertex.
pub fn assemble(tessellation: &Tessellation, sensor: bool) -> (shape: Result<
    CompoundShape,
    RebuildError,
>)
    ensures
        match shape {
            Ok(compound) => {
                &&& assembled(tessellation.vertices@, tessellation.indices@) == Ok::<
                    Seq<ShapePart>,
                    RebuildError,
                >(compound.parts@)
                &&& compound.sensor == sensor
            },
            Err(e) => assembled(tessellation.vertices@, tessellation.indices@) == Err::<
                Seq<ShapePart>,
                RebuildError,
            >(e),
        },
{
    let vertices = &tessellation.vertices;
    let indices = &tessellation.indices;
    let groups: usize = indices.len() / 3;
    if groups == 0 {
        return Err(RebuildError::NoTriangles);
    }
    let mut parts: Vec<ShapePart> = Vec::new();
    let mut group: usize = 0;
    while group < groups
        invariant
            *vertices == tessellation.vertices,
            *indices == tessellation.indices,
            groups == group_count(indices@),
            3 * groups <= indices@.len() <= usize::MAX,
            group <= groups,
            forall|i: int| 0 <= i < 3 * group ==> (#[trigger] indices@[i]) < vertices@.len(),
            parts@ == Seq::new(
                group as nat,
                |g: int| rigid_part(triangle_at(vertices@, indices@, g)),
            ),
        decreases groups - group,
    {
        let ia: usize = indices[3 * group];
        let ib: usize = indices[3 * group + 1];
        let ic: usize = indices[3 * group + 2];
        if ia >= vertices.len() || ib >= vertices.len() || ic >= vertices.len() {
            proof {
                let bad: int = if ia >= vertices.len() {
                    3 * group
                } else if ib >= vertices.len() {
                    3 * group + 1
                } else {
                    3 * group + 2
                };
                assert(0 <= bad < 3 * group_count(indices@));
                assert(indices@[bad] >= vertices@.len());
            }
            return Err(RebuildError::IndexOutOfRange);
        }
        let triangle = Triangle { a: vertices[ia], b: vertices[ib], c: vertices[ic] };
        parts.push(ShapePart { offset: GridPoint { x: 0, y: 0 }, rotation: 0, triangle });
        assert forall|i: int| 0 <= i < 3 * (group + 1) implies (#[trigger] indices@[i])
            < vertices@.len() by {
            if i >= 3 * group {
                assert(i == 3 * group || i == 3 * group + 1 || i == 3 * group + 2);
            }
        }
        group += 1;
    }
    Ok(CompoundShape { parts, sensor })
}

/// Closing the outline only moves its start: every stored point is followed
/// in the closed polygon, around the corner, by the point that followed it
/// in the list, and the last stored point by the first. The polygon has the
/// edges of the stored path and the one that closes it.
pub proof fn closed_outline_is_a_rotation(points: Seq<GridPoint>)
    ensures
        closed_outline(points).len() == points.len(),
        forall|i: int|
            0 <= i < points.len() ==> closed_outline(points)[(i + 1) % (points.len() as int)]
                == #[trigger] points[i],
{
    let n = points.len() as int;
    assert forall|i: int| 0 <= i < n implies closed_outline(points)[(i + 1) % n]
        == #[trigger] points[i] by {
        if i == n - 1 {
            vstd::arithmetic::div_mod::lemma_mod_self_0(n);
        } else {
            vstd::arithmetic::div_mod::lemma_small_mod((i + 1) as nat, n as nat);
        }
    }
}

} // verus!
