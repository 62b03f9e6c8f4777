//! Drawing triangles into the buffers.
//!
//! For every pixel of the triangle's bounding box that lies in the frame,
//! the rasterizer computes what the triangle contributes to the pixel,
//! performs the depth test, asks the shading strategy for the colour and
//! writes it. Column `col` and row `row` of the screen are column `col` of
//! row `row` of both buffers.

use vstd::prelude::*;
use crate::color::{color_rgb, rgb_spec, Rgb};
use crate::composite::{
    back_to_front,
    draw_colors,
    draw_depths,
    lemma_depth_test_matches_back_to_front,
    lemma_single_layer_needs_no_depth_test,
    paint_colors,
    surface_layer,
    Shaded,
};
use crate::frame_buffer::{FrameBuffer, Origin};
use crate::fixed::Fixed;
use crate::geometry::{Point3, Vector2, Vector3};
use crate::mesh::{Face, Mesh};
use crate::transform::{project_vertex, projectable, vertex_spec, world_point, world_point_spec};
use crate::vector::matrix44::Matrix4x4;
use crate::grid::{filled, shaped};
use crate::raster::{
    bounding_box,
    bounding_box_spec,
    check_triangle,
    drawable,
    fragment,
    fragment_at,
    lemma_covered_pixel_in_box,
    lemma_fragment_valid,
    rejection,
    covers,
    DegenerateGeometry,
};
use crate::shader::texture::TextureMap;
use crate::vertex::{Triangle, Vertex};
use crate::z_buffer::{ZBuffer, INFINITELY_FAR, MAX_DEPTH};

verus! {

/// The colour that a colour vector becomes in the frame buffer.
pub open spec fn rgb_of(color: Vector3) -> Rgb {
    rgb_spec(color.x as int, color.y as int, color.z as int)
}

/// The layer of a triangle drawn with a shading strategy: for every pixel
/// that the triangle covers, the depth of the triangle at the pixel and the
/// colour that the strategy gives for the pixel's perspective-correct
/// weights.
pub open spec fn triangle_layer<S: TextureMap>(v0: Vertex, v1: Vertex, v2: Vertex, shader: S) -> spec_fn(
    int,
    int,
) -> Option<Shaded> {
    |row: int, col: int|
        match fragment_at(v0.position, v1.position, v2.position, col, row) {
            Some(f) => Some(Shaded { depth: f.depth, color: rgb_of(shader.color_at(f.weights, v0, v1, v2)) }),
            None => None,
        }
}

/// Every contribution of a triangle has the depth of a surface.
pub proof fn lemma_triangle_layer_is_surface<S: TextureMap>(v0: Vertex, v1: Vertex, v2: Vertex, shader: S)
    ensures
        surface_layer(triangle_layer(v0, v1, v2, shader)),
{
    let layer = triangle_layer(v0, v1, v2, shader);
    assert forall|row: int, col: int| (#[trigger] layer(row, col)) is Some implies 1 <= layer(
        row,
        col,
    ).unwrap().depth <= MAX_DEPTH by {
        if fragment_at(v0.position, v1.position, v2.position, col, row) is Some {
            lemma_fragment_valid(v0.position, v1.position, v2.position, col, row);
        }
    }
}

/// The part of `0..size` that lies between `min` and `max`, both
/// included: its first index, and the index after its last.
fn clip_range(min: i32, max: i32, size: usize) -> (r: (usize, usize))
    requires
        min <= max,
    ensures
        r.0 <= r.1 <= size,
        r.0 < r.1 ==> r.0 == (if min < 0 {
            0
        } else {
            min as int
        }) && r.1 == (if max >= size {
            size as int
        } else {
            max + 1
        }),
        r.0 == r.1 ==> max < 0 || min >= size || size == 0,
{
    if max < 0 {
        return (0, 0);
    }
    let lo: usize = if min < 0 {
        0
    } else {
        min as usize
    };
    if lo >= size {
        return (0, 0);
    }
    let hi: usize = if (max as usize) >= size {
        size
    } else {
        (max as usize) + 1
    };
    (lo, hi)
}

fn rasterize<S: TextureMap, Or: Origin>(
    v0: &Vertex,
    v1: &Vertex,
    v2: &Vertex,
    shader: &S,
    z_buffer: &mut ZBuffer,
    frame_buffer: &mut FrameBuffer<Or>,
    depth_test: bool,
) -> (r: Result<(), DegenerateGeometry>)
    requires
        depth_test ==> old(z_buffer).spec_width() == old(frame_buffer).spec_width(),
        depth_test ==> old(z_buffer).spec_height() == old(frame_buffer).spec_height(),
    ensures
        final(frame_buffer).spec_width() == old(frame_buffer).spec_width(),
        final(frame_buffer).spec_height() == old(frame_buffer).spec_height(),
        final(z_buffer).spec_width() == old(z_buffer).spec_width(),
        final(z_buffer).spec_height() == old(z_buffer).spec_height(),
        r.is_ok() <==> drawable(v0.position, v1.position, v2.position),
        r matches Err(e) ==> rejection(v0.position, v1.position, v2.position) == Some(e),
        depth_test ==> final(z_buffer)@ == draw_depths(old(z_buffer)@, triangle_layer(*v0, *v1, *v2, *shader)),
        depth_test ==> final(frame_buffer)@ == draw_colors(
            old(frame_buffer)@,
            old(z_buffer)@,
            triangle_layer(*v0, *v1, *v2, *shader),
        ),
        !depth_test ==> final(z_buffer)@ == old(z_buffer)@,
        !depth_test ==> final(frame_buffer)@ == paint_colors(
            old(frame_buffer)@,
            triangle_layer(*v0, *v1, *v2, *shader),
        ),
{
    let width = frame_buffer.width();
    let height = frame_buffer.height();
    if depth_test {
        // Reading the width brings the shape of the depth buffer into the proof.
        let _ = z_buffer.width();
    }
    let ghost layer = triangle_layer(*v0, *v1, *v2, *shader);
    let ghost fb0 = frame_buffer@;
    let ghost zb0 = z_buffer@;
    let ghost new_fb = if depth_test {
        draw_colors(fb0, zb0, layer)
    } else {
        paint_colors(fb0, layer)
    };
    let ghost new_zb = if depth_test {
        draw_depths(zb0, layer)
    } else {
        zb0
    };
    match check_triangle(&v0.position, &v1.position, &v2.position) {
        Err(e) => {
            proof {
                assert forall|row: int| 0 <= row < fb0.len() implies #[trigger] new_fb[row] == fb0[row] by {
                    assert(new_fb[row] =~= fb0[row]);
                }
                assert(new_fb =~= fb0);
                if depth_test {
                    assert forall|row: int| 0 <= row < zb0.len() implies #[trigger] new_zb[row] == zb0[row] by {
                        assert(new_zb[row] =~= zb0[row]);
                    }
                    assert(new_zb =~= zb0);
                }
            }
            return Err(e);
        },
        Ok(_) => {},
    }
    let bbox = bounding_box(&v0.position, &v1.position, &v2.position);
    let (col_lo, col_hi) = clip_range(bbox.x_min, bbox.x_max, width);
    let (row_lo, row_hi) = clip_range(bbox.y_min, bbox.y_max, height);
    let mut row: usize = row_lo;
    while row < row_hi
        invariant
            row_lo <= row <= row_hi <= height,
            col_lo <= col_hi <= width,
            drawable(v0.position, v1.position, v2.position),
            layer == triangle_layer(*v0, *v1, *v2, *shader),
            frame_buffer.spec_width() == width,
            frame_buffer.spec_height() == height,
            z_buffer.spec_width() == old(z_buffer).spec_width(),
            z_buffer.spec_height() == old(z_buffer).spec_height(),
            depth_test ==> z_buffer.spec_width() == width && z_buffer.spec_height() == height,
            shaped(frame_buffer@, width as int, height as int),
            shaped(fb0, width as int, height as int),
            depth_test ==> shaped(z_buffer@, width as int, height as int),
            depth_test ==> shaped(zb0, width as int, height as int),
            !depth_test ==> z_buffer@ == zb0,
            new_fb == if depth_test {
                draw_colors(fb0, zb0, layer)
            } else {
                paint_colors(fb0, layer)
            },
            new_zb == if depth_test {
                draw_depths(zb0, layer)
            } else {
                zb0
            },
            forall|r: int, c: int|
                0 <= r < height && 0 <= c < width ==> #[trigger] frame_buffer@[r][c] == if row_lo <= r < row
                    && col_lo <= c < col_hi {
                    new_fb[r][c]
                } else {
                    fb0[r][c]
                },
            depth_test ==> forall|r: int, c: int|
                0 <= r < height && 0 <= c < width ==> #[trigger] z_buffer@[r][c] == if row_lo <= r < row && col_lo
                    <= c < col_hi {
                    new_zb[r][c]
                } else {
                    zb0[r][c]
                },
        decreases row_hi - row,
    {
        let mut col: usize = col_lo;
        while col < col_hi
            invariant
                row_lo <= row < row_hi <= height,
                col_lo <= col <= col_hi <= width,
                drawable(v0.position, v1.position, v2.position),
                layer == triangle_layer(*v0, *v1, *v2, *shader),
                frame_buffer.spec_width() == width,
                frame_buffer.spec_height() == height,
                z_buffer.spec_width() == old(z_buffer).spec_width(),
                z_buffer.spec_height() == old(z_buffer).spec_height(),
                depth_test ==> z_buffer.spec_width() == width && z_buffer.spec_height() == height,
                shaped(frame_buffer@, width as int, height as int),
                shaped(fb0, width as int, height as int),
                depth_test ==> shaped(z_buffer@, width as int, height as int),
                depth_test ==> shaped(zb0, width as int, height as int),
                !depth_test ==> z_buffer@ == zb0,
                new_fb == if depth_test {
                    draw_colors(fb0, zb0, layer)
                } else {
                    paint_colors(fb0, layer)
                },
                new_zb == if depth_test {
                    draw_depths(zb0, layer)
                } else {
                    zb0
                },
                forall|r: int, c: int|
                    0 <= r < height && 0 <= c < width ==> #[trigger] frame_buffer@[r][c] == if (row_lo <= r < row
                        && col_lo <= c < col_hi) || (r == row && col_lo <= c < col) {
                        new_fb[r][c]
                    } else {
                        fb0[r][c]
                    },
                depth_test ==> forall|r: int, c: int|
                    0 <= r < height && 0 <= c < width ==> #[trigger] z_buffer@[r][c] == if (row_lo <= r < row
                        && col_lo <= c < col_hi) || (r == row && col_lo <= c < col) {
                        new_zb[r][c]
                    } else {
                        zb0[r][c]
                    },
            decreases col_hi - col,
        {
            let ghost fb_before = frame_buffer@;
            let ghost zb_before = z_buffer@;
            match fragment(&v0.position, &v1.position, &v2.position, col, row) {
                Some(f) => {
                    proof {
                        lemma_fragment_valid(v0.position, v1.position, v2.position, col as int, row as int);
                    }
                    let passed = if depth_test {
                        z_buffer.test_and_set(row, col, f.depth)
                    } else {
                        true
                    };
                    if passed {
                        let color = shader.apply(&f.weights, v0, v1, v2);
                        frame_buffer.set_pixel(row, col, color_rgb(color));
                    }
                },
                None => {},
            }
            proof {
                assert forall|r: int, c: int| 0 <= r < height && 0 <= c < width && !(r == row && c == col) implies (
                #[trigger] frame_buffer@[r][c]) == fb_before[r][c] by {}
                if depth_test {
                    assert forall|r: int, c: int|
                        0 <= r < height && 0 <= c < width && !(r == row && c == col) implies (
                    #[trigger] z_buffer@[r][c]) == zb_before[r][c] by {}
                }
            }
            col = col + 1;
        }
        row = row + 1;
    }
    proof {
        assert forall|r: int, c: int| 0 <= r < height && 0 <= c < width implies (#[trigger] frame_buffer@[r][c])
            == new_fb[r][c] by {
            if !(row_lo <= r < row_hi && col_lo <= c < col_hi) {
                if covers(v0.position, v1.position, v2.position, c, r) {
                    lemma_covered_pixel_in_box(v0.position, v1.position, v2.position, c, r);
                }
            }
        }
        if depth_test {
            assert forall|r: int, c: int| 0 <= r < height && 0 <= c < width implies (#[trigger] z_buffer@[r][c])
                == new_zb[r][c] by {
                if !(row_lo <= r < row_hi && col_lo <= c < col_hi) {
                    if covers(v0.position, v1.position, v2.position, c, r) {
                        lemma_covered_pixel_in_box(v0.position, v1.position, v2.position, c, r);
                    }
                }
            }
        }
        assert forall|r: int| 0 <= r < height implies #[trigger] frame_buffer@[r] == new_fb[r] by {
            assert(frame_buffer@[r] =~= new_fb[r]);
        }
        assert(frame_buffer@ =~= new_fb);
        if depth_test {
            assert forall|r: int| 0 <= r < height implies #[trigger] z_buffer@[r] == new_zb[r] by {
                assert(z_buffer@[r] =~= new_zb[r]);
            }
            assert(z_buffer@ =~= new_zb);
        }
    }
    Ok(())
}

/// Draws a triangle with the depth test: every pixel that the triangle
/// covers and at which it is strictly closer than what the depth buffer
/// has seen takes the colour of the shading strategy, and the depth buffer
/// takes the triangle's depth there. A triangle that is not drawable is
/// skipped: the buffers stay as they are and the reason is returned.
pub fn render_triangle<S: TextureMap, Or: Origin>(
    v0: &Vertex,
    v1: &Vertex,
    v2: &Vertex,
    shader: &S,
    z_buffer: &mut ZBuffer,
    frame_buffer: &mut FrameBuffer<Or>,
) -> (r: Result<(), DegenerateGeometry>)
    requires
        old(z_buffer).spec_width() == old(frame_buffer).spec_width(),
        old(z_buffer).spec_height() == old(frame_buffer).spec_height(),
    ensures
        final(frame_buffer).spec_width() == old(frame_buffer).spec_width(),
        final(frame_buffer).spec_height() == old(frame_buffer).spec_height(),
        final(z_buffer).spec_width() == old(z_buffer).spec_width(),
        final(z_buffer).spec_height() == old(z_buffer).spec_height(),
        r.is_ok() <==> drawable(v0.position, v1.position, v2.position),
        r matches Err(e) ==> rejection(v0.position, v1.position, v2.position) == Some(e),
        final(z_buffer)@ == draw_depths(old(z_buffer)@, triangle_layer(*v0, *v1, *v2, *shader)),
        final(frame_buffer)@ == draw_colors(
            old(frame_buffer)@,
            old(z_buffer)@,
            triangle_layer(*v0, *v1, *v2, *shader),
        ),
{
    rasterize(v0, v1, v2, shader, z_buffer, frame_buffer, true)
}

/// Paints a triangle without a depth test: every pixel that the triangle
/// covers takes the colour of the shading strategy. A triangle that is not
/// drawable is skipped: the frame buffer stays as it is and the reason is
/// returned.
pub fn paint_triangle<S: TextureMap, Or: Origin>(
    v0: &Vertex,
    v1: &Vertex,
    v2: &Vertex,
    shader: &S,
    frame_buffer: &mut FrameBuffer<Or>,
) -> (r: Result<(), DegenerateGeometry>)
    ensures
        final(frame_buffer).spec_width() == old(frame_buffer).spec_width(),
        final(frame_buffer).spec_height() == old(frame_buffer).spec_height(),
        r.is_ok() <==> drawable(v0.position, v1.position, v2.position),
        r matches Err(e) ==> rejection(v0.position, v1.position, v2.position) == Some(e),
        final(frame_buffer)@ == paint_colors(old(frame_buffer)@, triangle_layer(*v0, *v1, *v2, *shader)),
{
    let mut unused = ZBuffer::new(0, 0);
    rasterize(v0, v1, v2, shader, &mut unused, frame_buffer, false)
}

/// The layer of a triangle.
pub open spec fn layer_of<S: TextureMap>(t: Triangle, shader: S) -> spec_fn(int, int) -> Option<Shaded> {
    triangle_layer(t.v0, t.v1, t.v2, shader)
}

/// The frame buffer and the depth buffer after the triangles were drawn
/// with the depth test, one after the other in the order of the sequence.
pub open spec fn draw_all<S: TextureMap>(
    fb: Seq<Seq<Rgb>>,
    zb: Seq<Seq<u32>>,
    triangles: Seq<Triangle>,
    shader: S,
) -> (Seq<Seq<Rgb>>, Seq<Seq<u32>>)
    decreases triangles.len(),
{
    if triangles.len() == 0 {
        (fb, zb)
    } else {
        let before = draw_all(fb, zb, triangles.drop_last(), shader);
        (
            draw_colors(before.0, before.1, layer_of(triangles.last(), shader)),
            draw_depths(before.1, layer_of(triangles.last(), shader)),
        )
    }
}

/// The number of drawable triangles in a sequence.
pub open spec fn count_drawable(triangles: Seq<Triangle>) -> nat
    decreases triangles.len(),
{
    if triangles.len() == 0 {
        0
    } else {
        let t = triangles.last();
        count_drawable(triangles.drop_last()) + if drawable(t.v0.position, t.v1.position, t.v2.position) {
            1nat
        } else {
            0nat
        }
    }
}

/// Drawing no triangle leaves both buffers as they are.
pub proof fn lemma_render_nothing<S: TextureMap>(fb: Seq<Seq<Rgb>>, zb: Seq<Seq<u32>>, shader: S)
    ensures
        draw_all(fb, zb, Seq::<Triangle>::empty(), shader) == (fb, zb),
{
}

/// At most every triangle of a sequence is drawable.
pub proof fn lemma_count_drawable_bound(triangles: Seq<Triangle>)
    ensures
        count_drawable(triangles) <= triangles.len(),
    decreases triangles.len(),
{
    if triangles.len() > 0 {
        lemma_count_drawable_bound(triangles.drop_last());
    }
}

/// Draws the triangles with the depth test, strictly in the order of the
/// slice, and gives the number of triangles that were drawable; the others
/// are skipped and contribute nothing.
pub fn render_triangles<S: TextureMap, Or: Origin>(
    triangles: &[Triangle],
    shader: &S,
    z_buffer: &mut ZBuffer,
    frame_buffer: &mut FrameBuffer<Or>,
) -> (drawn: usize)
    requires
        old(z_buffer).spec_width() == old(frame_buffer).spec_width(),
        old(z_buffer).spec_height() == old(frame_buffer).spec_height(),
    ensures
        final(frame_buffer).spec_width() == old(frame_buffer).spec_width(),
        final(frame_buffer).spec_height() == old(frame_buffer).spec_height(),
        final(z_buffer).spec_width() == old(z_buffer).spec_width(),
        final(z_buffer).spec_height() == old(z_buffer).spec_height(),
        drawn == count_drawable(triangles@),
        (final(frame_buffer)@, final(z_buffer)@) == draw_all(
            old(frame_buffer)@,
            old(z_buffer)@,
            triangles@,
            *shader,
        ),
{
    let ghost fb0 = frame_buffer@;
    let ghost zb0 = z_buffer@;
    let mut drawn: usize = 0;
    let mut i: usize = 0;
    assert(triangles@.subrange(0, 0) =~= Seq::<Triangle>::empty());
    while i < triangles.len()
        invariant
            i <= triangles@.len(),
            frame_buffer.spec_width() == old(frame_buffer).spec_width(),
            frame_buffer.spec_height() == old(frame_buffer).spec_height(),
            z_buffer.spec_width() == old(z_buffer).spec_width(),
            z_buffer.spec_height() == old(z_buffer).spec_height(),
            z_buffer.spec_width() == frame_buffer.spec_width(),
            z_buffer.spec_height() == frame_buffer.spec_height(),
            drawn == count_drawable(triangles@.subrange(0, i as int)),
            (frame_buffer@, z_buffer@) == draw_all(fb0, zb0, triangles@.subrange(0, i as int), *shader),
        decreases triangles@.len() - i,
    {
        let t = &triangles[i];
        proof {
            let next = triangles@.subrange(0, i + 1);
            assert(next.drop_last() =~= triangles@.subrange(0, i as int));
            assert(next.last() == triangles@[i as int]);
            lemma_count_drawable_bound(triangles@.subrange(0, i as int));
        }
        match render_triangle(&t.v0, &t.v1, &t.v2, shader, z_buffer, frame_buffer) {
            Ok(_) => {
                drawn = drawn + 1;
            },
            Err(_) => {},
        }
        i = i + 1;
    }
    assert(triangles@.subrange(0, i as int) =~= triangles@);
    drawn
}

/// Drawing a single triangle into an empty depth buffer gives the same
/// picture with the depth test as without it.
pub proof fn lemma_no_occlusion_invariance<S: TextureMap>(
    fb: Seq<Seq<Rgb>>,
    t: Triangle,
    shader: S,
    width: int,
    height: int,
)
    requires
        shaped(fb, width, height),
    ensures
        draw_colors(fb, filled(width, height, INFINITELY_FAR), layer_of(t, shader)) == paint_colors(
            fb,
            layer_of(t, shader),
        ),
{
    lemma_triangle_layer_is_surface(t.v0, t.v1, t.v2, shader);
    lemma_single_layer_needs_no_depth_test(fb, layer_of(t, shader), width, height);
}

/// Starting from an empty depth buffer, drawing two triangles with the
/// depth test, in either order, gives the same picture as painting them
/// back to front without a depth test: first `back`, then `front`, where
/// `front` is strictly closer than `back`, or of the same colour, at every
/// pixel that both cover.
pub proof fn lemma_depth_buffer_order_independence<S: TextureMap, T: TextureMap>(
    fb: Seq<Seq<Rgb>>,
    back: Triangle,
    back_shader: S,
    front: Triangle,
    front_shader: T,
    width: int,
    height: int,
)
    requires
        shaped(fb, width, height),
        back_to_front(layer_of(back, back_shader), layer_of(front, front_shader)),
    ensures
        ({
            let empty = filled(width, height, INFINITELY_FAR);
            let b = layer_of(back, back_shader);
            let f = layer_of(front, front_shader);
            let painted = paint_colors(paint_colors(fb, b), f);
            &&& draw_colors(draw_colors(fb, empty, b), draw_depths(empty, b), f) == painted
            &&& draw_colors(draw_colors(fb, empty, f), draw_depths(empty, f), b) == painted
        }),
{
    lemma_triangle_layer_is_surface(back.v0, back.v1, back.v2, back_shader);
    lemma_triangle_layer_is_surface(front.v0, front.v1, front.v2, front_shader);
    lemma_depth_test_matches_back_to_front(
        fb,
        layer_of(back, back_shader),
        layer_of(front, front_shader),
        width,
        height,
    );
}

/// The texture coordinates that the three corners of every face of a mesh
/// get.
#[derive(Copy, Clone, Debug, PartialEq, Eq, Structural)]
pub struct FaceAttributes {
    pub st0: Vector2,
    pub st1: Vector2,
    pub st2: Vector2,
}

/// The raster-space triangle of a face of a mesh, seen through the given
/// transforms: nothing when the face refers to a vertex that the mesh does
/// not have, or when one of its corners is not projectable.
pub open spec fn face_triangle(
    vertices: Seq<Point3>,
    face: Face,
    world_to_raster: Matrix4x4<Fixed>,
    world_to_camera: Matrix4x4<Fixed>,
    attributes: FaceAttributes,
) -> Option<Triangle> {
    if face.within(vertices.len() as int) && projectable(
        world_to_raster,
        world_to_camera,
        world_point_spec(vertices[face.v0 as int]),
    ) && projectable(world_to_raster, world_to_camera, world_point_spec(vertices[face.v1 as int])) && projectable(
        world_to_raster,
        world_to_camera,
        world_point_spec(vertices[face.v2 as int]),
    ) {
        Some(
            Triangle {
                v0: vertex_spec(
                    world_to_raster,
                    world_to_camera,
                    world_point_spec(vertices[face.v0 as int]),
                    Vector3 { x: 0, y: 0, z: 0 },
                    attributes.st0,
                ),
                v1: vertex_spec(
                    world_to_raster,
                    world_to_camera,
                    world_point_spec(vertices[face.v1 as int]),
                    Vector3 { x: 0, y: 0, z: 0 },
                    attributes.st1,
                ),
                v2: vertex_spec(
                    world_to_raster,
                    world_to_camera,
                    world_point_spec(vertices[face.v2 as int]),
                    Vector3 { x: 0, y: 0, z: 0 },
                    attributes.st2,
                ),
            },
        )
    } else {
        None
    }
}

/// The raster-space triangles of the faces of a mesh, in the order of the
/// faces; a face without a triangle is left out.
pub open spec fn mesh_triangles_spec(
    vertices: Seq<Point3>,
    faces: Seq<Face>,
    world_to_raster: Matrix4x4<Fixed>,
    world_to_camera: Matrix4x4<Fixed>,
    attributes: FaceAttributes,
) -> Seq<Triangle>
    decreases faces.len(),
{
    if faces.len() == 0 {
        Seq::<Triangle>::empty()
    } else {
        let before = mesh_triangles_spec(vertices, faces.drop_last(), world_to_raster, world_to_camera, attributes);
        match face_triangle(vertices, faces.last(), world_to_raster, world_to_camera, attributes) {
            Some(t) => before.push(t),
            None => before,
        }
    }
}

fn triangle_of_face(
    mesh: &Mesh,
    face: usize,
    world_to_raster: &Matrix4x4<Fixed>,
    world_to_camera: &Matrix4x4<Fixed>,
    attributes: &FaceAttributes,
) -> (r: Option<Triangle>)
    requires
        face < mesh.spec_faces().len(),
    ensures
        r == face_triangle(
            mesh.spec_vertices(),
            mesh.spec_faces()[face as int],
            *world_to_raster,
            *world_to_camera,
            *attributes,
        ),
{
    let (p0, p1, p2) = match mesh.corners(face) {
        Some(c) => c,
        None => {
            return None;
        },
    };
    let black = Vector3 { x: 0, y: 0, z: 0 };
    let v0 = match project_vertex(world_to_raster, world_to_camera, &world_point(&p0), black, attributes.st0) {
        Some(v) => v,
        None => {
            return None;
        },
    };
    let v1 = match project_vertex(world_to_raster, world_to_camera, &world_point(&p1), black, attributes.st1) {
        Some(v) => v,
        None => {
            return None;
        },
    };
    let v2 = match project_vertex(world_to_raster, world_to_camera, &world_point(&p2), black, attributes.st2) {
        Some(v) => v,
        None => {
            return None;
        },
    };
    Some(Triangle { v0, v1, v2 })
}

/// The raster-space triangles of the faces of a mesh whose vertices are
/// points in world coordinates, seen through the given transforms.
pub fn mesh_triangles(
    mesh: &Mesh,
    world_to_raster: &Matrix4x4<Fixed>,
    world_to_camera: &Matrix4x4<Fixed>,
    attributes: &FaceAttributes,
) -> (triangles: Vec<Triangle>)
    ensures
        triangles@ == mesh_triangles_spec(
            mesh.spec_vertices(),
            mesh.spec_faces(),
            *world_to_raster,
            *world_to_camera,
            *attributes,
        ),
{
    let mut triangles: Vec<Triangle> = Vec::new();
    let count = mesh.face_count();
    let mut i: usize = 0;
    assert(mesh.spec_faces().subrange(0, 0) =~= Seq::<Face>::empty());
    while i < count
        invariant
            i <= count,
            count == mesh.spec_faces().len(),
            triangles@ == mesh_triangles_spec(
                mesh.spec_vertices(),
                mesh.spec_faces().subrange(0, i as int),
                *world_to_raster,
                *world_to_camera,
                *attributes,
            ),
        decreases count - i,
    {
        proof {
            let next = mesh.spec_faces().subrange(0, i + 1);
            assert(next.drop_last() =~= mesh.spec_faces().subrange(0, i as int));
            assert(next.last() == mesh.spec_faces()[i as int]);
        }
        match triangle_of_face(mesh, i, world_to_raster, world_to_camera, attributes) {
            Some(t) => {
                triangles.push(t);
            },
            None => {},
        }
        i = i + 1;
    }
    assert(mesh.spec_faces().subrange(0, i as int) =~= mesh.spec_faces());
    triangles
}

/// Draws the faces of a mesh with the depth test, strictly in the order of
/// the faces, and gives the number of faces that were drawn. A face that has
/// no triangle on the screen or a degenerate one is skipped.
pub fn render_mesh<S: TextureMap, Or: Origin>(
    mesh: &Mesh,
    world_to_raster: &Matrix4x4<Fixed>,
    world_to_camera: &Matrix4x4<Fixed>,
    attributes: &FaceAttributes,
    shader: &S,
    z_buffer: &mut ZBuffer,
    frame_buffer: &mut FrameBuffer<Or>,
) -> (drawn: usize)
    requires
        old(z_buffer).spec_width() == old(frame_buffer).spec_width(),
        old(z_buffer).spec_height() == old(frame_buffer).spec_height(),
    ensures
        final(frame_buffer).spec_width() == old(frame_buffer).spec_width(),
        final(frame_buffer).spec_height() == old(frame_buffer).spec_height(),
        final(z_buffer).spec_width() == old(z_buffer).spec_width(),
        final(z_buffer).spec_height() == old(z_buffer).spec_height(),
        drawn == count_drawable(
            mesh_triangles_spec(
                mesh.spec_vertices(),
                mesh.spec_faces(),
                *world_to_raster,
                *world_to_camera,
                *attributes,
            ),
        ),
        (final(frame_buffer)@, final(z_buffer)@) == draw_all(
            old(frame_buffer)@,
            old(z_buffer)@,
            mesh_triangles_spec(
                mesh.spec_vertices(),
                mesh.spec_faces(),
                *world_to_raster,
                *world_to_camera,
                *attributes,
            ),
            *shader,
        ),
{
    let triangles = mesh_triangles(mesh, world_to_raster, world_to_camera, attributes);
    render_triangles(triangles.as_slice(), shader, z_buffer, frame_buffer)
}

} // verus!
