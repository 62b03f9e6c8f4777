use graphics::camera::CameraModel;
use graphics::color::Rgb;
use graphics::fixed::{from_ratio, Fixed};
use graphics::frame_buffer::{frame_buffer, FrameBuffer, TopLeft};
use graphics::geometry::{Point3, Vector2, Vector3};
use graphics::raster::SUBPIXELS;
use graphics::render::{paint_triangle, render_triangle};
use graphics::shader::monochrome::{self, MonochromeShader};
use graphics::transform::{raster_point, transform_point, viewport_matrix, world_to_camera_matrix};
use graphics::vector::matrix44::Matrix4x4;
use graphics::vector::vec3d::Vec3d;
use graphics::vertex::Vertex;
use graphics::z_buffer::{z_buffer, ZBuffer};

type MockShader = MonochromeShader;

fn fx(v: f64) -> Fixed {
    Fixed::from_raw((v * 65536.0).floor() as i64)
}

fn point(x: f64, y: f64, z: f64) -> Vec3d<Fixed> {
    Vec3d::new(fx(x), fx(y), fx(z))
}

/// The vertex that the pipelines rasterize for a point: the first two
/// coordinates of the point itself are taken as the row and the column on
/// the screen, and the third coordinate of its image under the matrix as
/// its depth.
fn vertex(m_wtor: &Matrix4x4<Fixed>, v: &Vec3d<Fixed>) -> Vertex {
    let v_rast = raster_point(&transform_point(m_wtor, v).unwrap()).unwrap();
    let on_screen = raster_point(v).unwrap();
    Vertex::new(Point3::new(on_screen.y, on_screen.x, v_rast.z), Vector3::new(0, 0, 0), Vector2::new(0, 0))
}

struct MockGraphicsPipelineWithZBuffer {
    z_buffer: Box<ZBuffer>,
    frame_buffer: Box<FrameBuffer<TopLeft>>,
}

impl MockGraphicsPipelineWithZBuffer {
    fn new(width: usize, height: usize) -> MockGraphicsPipelineWithZBuffer {
        MockGraphicsPipelineWithZBuffer {
            z_buffer: z_buffer(width, height),
            frame_buffer: frame_buffer(width, height),
        }
    }

    fn run_with(
        &mut self,
        shader: MockShader,
        m_wtor: Matrix4x4<Fixed>,
        v0: Vec3d<Fixed>,
        v1: Vec3d<Fixed>,
        v2: Vec3d<Fixed>,
    ) {
        let r0 = vertex(&m_wtor, &v0);
        let r1 = vertex(&m_wtor, &v1);
        let r2 = vertex(&m_wtor, &v2);
        render_triangle(&r0, &r1, &r2, &shader, &mut self.z_buffer, &mut self.frame_buffer).unwrap();
    }

    fn run(&mut self, m_wtor: Matrix4x4<Fixed>, v0: Vec3d<Fixed>, v1: Vec3d<Fixed>, v2: Vec3d<Fixed>) {
        self.run_with(mock_shader(), m_wtor, v0, v1, v2)
    }
}

struct MockGraphicsPipelineWithoutZBuffer {
    frame_buffer: Box<FrameBuffer<TopLeft>>,
}

impl MockGraphicsPipelineWithoutZBuffer {
    fn new(width: usize, height: usize) -> MockGraphicsPipelineWithoutZBuffer {
        MockGraphicsPipelineWithoutZBuffer { frame_buffer: frame_buffer(width, height) }
    }

    fn run_with(
        &mut self,
        shader: MockShader,
        m_wtor: Matrix4x4<Fixed>,
        v0: Vec3d<Fixed>,
        v1: Vec3d<Fixed>,
        v2: Vec3d<Fixed>,
    ) {
        let r0 = vertex(&m_wtor, &v0);
        let r1 = vertex(&m_wtor, &v1);
        let r2 = vertex(&m_wtor, &v2);
        // Render the scene without z-buffering.
        paint_triangle(&r0, &r1, &r2, &shader, &mut self.frame_buffer).unwrap();
    }

    fn run(&mut self, m_wtor: Matrix4x4<Fixed>, v0: Vec3d<Fixed>, v1: Vec3d<Fixed>, v2: Vec3d<Fixed>) {
        self.run_with(mock_shader(), m_wtor, v0, v1, v2)
    }
}

fn make_pipeline_with_z_buffer(width: usize, height: usize) -> MockGraphicsPipelineWithZBuffer {
    MockGraphicsPipelineWithZBuffer::new(width, height)
}

fn make_pipeline_without_z_buffer(width: usize, height: usize) -> MockGraphicsPipelineWithoutZBuffer {
    MockGraphicsPipelineWithoutZBuffer::new(width, height)
}

fn mock_shader() -> MockShader {
    monochrome::shader(Vector3::new(
        from_ratio(3, 10).unwrap(),
        from_ratio(3, 10).unwrap(),
        from_ratio(4, 10).unwrap(),
    ))
}

#[derive(Copy, Clone)]
struct CameraModelBuilder {
    focal_length: Option<Fixed>,
    aperture_width: Option<Fixed>,
    aperture_height: Option<Fixed>,
}

impl CameraModelBuilder {
    fn new() -> CameraModelBuilder {
        CameraModelBuilder { focal_length: None, aperture_width: None, aperture_height: None }
    }

    fn with_focal_length(&mut self, focal_length: Fixed) -> Self {
        self.focal_length = Some(focal_length);

        *self
    }

    fn with_aperture_width(&mut self, aperture_width: Fixed) -> Self {
        self.aperture_width = Some(aperture_width);

        *self
    }

    fn with_aperture_height(&mut self, aperture_height: Fixed) -> Self {
        self.aperture_height = Some(aperture_height);

        *self
    }

    fn build_maybe(&self) -> Option<CameraModel> {
        match (self.focal_length, self.aperture_width, self.aperture_height) {
            (Some(l), Some(w), Some(h)) => CameraModel::from_spec(l, w, h).ok(),
            _ => None,
        }
    }

    fn build(&self) -> CameraModel {
        self.build_maybe().unwrap()
    }
}

#[derive(Copy, Clone)]
struct WorldToCameraBuilder {
    eye: Option<Vec3d<Fixed>>,
    gaze: Option<Vec3d<Fixed>>,
    top: Option<Vec3d<Fixed>>,
}

impl WorldToCameraBuilder {
    fn new() -> WorldToCameraBuilder {
        WorldToCameraBuilder { eye: None, gaze: None, top: None }
    }

    fn with_eye(&mut self, eye: Vec3d<Fixed>) -> Self {
        self.eye = Some(eye);

        *self
    }

    fn with_gaze(&mut self, gaze: Vec3d<Fixed>) -> Self {
        self.gaze = Some(gaze);

        *self
    }

    fn with_top(&mut self, top: Vec3d<Fixed>) -> Self {
        self.top = Some(top);

        *self
    }

    fn build_maybe(&self) -> Option<Matrix4x4<Fixed>> {
        match (self.eye, self.gaze, self.top) {
            (Some(e), Some(g), Some(t)) => world_to_camera_matrix(e, g, t).ok(),
            _ => None,
        }
    }

    fn build(&self) -> Matrix4x4<Fixed> {
        self.build_maybe().unwrap()
    }
}

#[derive(Copy, Clone)]
struct RasterToViewportBuilder {
    width: Option<usize>,
    height: Option<usize>,
}

impl RasterToViewportBuilder {
    fn new() -> RasterToViewportBuilder {
        RasterToViewportBuilder { width: None, height: None }
    }

    fn with_width(&mut self, width: usize) -> Self {
        self.width = Some(width);

        *self
    }

    fn with_height(&mut self, height: usize) -> Self {
        self.height = Some(height);

        *self
    }

    fn build_maybe(&self) -> Option<Matrix4x4<Fixed>> {
        match (self.width, self.height) {
            (Some(w), Some(h)) => Some(viewport_matrix(w, h)),
            _ => None,
        }
    }

    fn build(&self) -> Matrix4x4<Fixed> {
        self.build_maybe().unwrap()
    }
}

#[derive(Copy, Clone)]
struct PerspectiveMatrixBuilder {
    camera_builder: Option<CameraModelBuilder>,
    near_plane: Option<Fixed>,
    far_plane: Option<Fixed>,
}

impl PerspectiveMatrixBuilder {
    fn new() -> Self {
        PerspectiveMatrixBuilder { camera_builder: None, near_plane: None, far_plane: None }
    }

    fn with_camera_builder(&mut self, camera_builder: CameraModelBuilder) -> Self {
        self.camera_builder = Some(camera_builder);

        *self
    }

    fn with_near_plane(&mut self, near_plane: Fixed) -> Self {
        self.near_plane = Some(near_plane);

        *self
    }

    fn with_far_plane(&mut self, far_plane: Fixed) -> Self {
        self.far_plane = Some(far_plane);

        *self
    }

    fn build_maybe(&self) -> Option<Matrix4x4<Fixed>> {
        match (self.camera_builder, self.near_plane, self.far_plane) {
            (Some(cb), Some(near), Some(far)) => {
                let camera = cb.build();
                let m_per = camera.get_matrix(near, far).unwrap();

                Some(m_per)
            }
            _ => None,
        }
    }

    fn build(&self) -> Matrix4x4<Fixed> {
        self.build_maybe().unwrap()
    }
}

#[derive(Copy, Clone)]
struct WorldToRasterBuilder {
    wtoc_builder: Option<WorldToCameraBuilder>,
    per_builder: Option<PerspectiveMatrixBuilder>,
    viewport_builder: Option<RasterToViewportBuilder>,
}

impl WorldToRasterBuilder {
    fn new() -> Self {
        WorldToRasterBuilder { wtoc_builder: None, per_builder: None, viewport_builder: None }
    }

    fn with_world_to_camera(&mut self, wtoc_builder: WorldToCameraBuilder) -> Self {
        self.wtoc_builder = Some(wtoc_builder);

        *self
    }

    fn with_perspective(&mut self, per_builder: PerspectiveMatrixBuilder) -> Self {
        self.per_builder = Some(per_builder);

        *self
    }

    fn with_viewport(&mut self, viewport_builder: RasterToViewportBuilder) -> Self {
        self.viewport_builder = Some(viewport_builder);

        *self
    }

    fn build_maybe(&self) -> Option<Matrix4x4<Fixed>> {
        match (self.wtoc_builder, self.per_builder, self.viewport_builder) {
            (Some(wtoc_b), Some(per_b), Some(vp_b)) => {
                let m_wtoc = wtoc_b.build();
                let m_per = per_b.build();
                let m_vp = vp_b.build();

                Some(m_vp * m_per * m_wtoc)
            }
            _ => None,
        }
    }

    fn build(&self) -> Matrix4x4<Fixed> {
        self.build_maybe().unwrap()
    }
}

/// Each integration test uses the same camera parameters.
fn make_camera(width: usize, height: usize) -> Matrix4x4<Fixed> {
    // Given a camera focal point on the z axis x units in the
    // positive z direction. This puts it in front of the triangle that way.
    // The gaze direction is the -z axis.
    // Top is defined to be the positive y axis.
    let camera_builder = CameraModelBuilder::new()
        .with_focal_length(fx(5.0))
        .with_aperture_width(fx(80.0))
        .with_aperture_height(fx(80.0));

    // Initialize the world space to camera space transformation.
    let wtoc_builder = WorldToCameraBuilder::new()
        .with_eye(point(0.0, 0.0, 5.0))
        .with_gaze(point(0.0, 0.0, -1.0))
        .with_top(point(0.0, 1.0, 0.0));

    // Initialize the perspective projection matrix.
    let per_builder = PerspectiveMatrixBuilder::new()
        .with_camera_builder(camera_builder)
        .with_near_plane(fx(-5.0))
        .with_far_plane(fx(-10.0));

    // The viewport matrix. We index pixels from the bottom of the screen.
    let vp_builder = RasterToViewportBuilder::new().with_width(width).with_height(height);
    let wtor_builder = WorldToRasterBuilder::new()
        .with_world_to_camera(wtoc_builder)
        .with_perspective(per_builder)
        .with_viewport(vp_builder);

    wtor_builder.build()
}

/// The number of pixels of the buffer that are not black.
fn lit_pixels(buffer: &FrameBuffer<TopLeft>) -> usize {
    let black = Rgb::from_channels(0, 0, 0);
    let mut n = 0;
    for row in 0..buffer.height() {
        for col in 0..buffer.width() {
            if buffer.get_pixel(row, col) != black {
                n += 1;
            }
        }
    }
    n
}

// This test runs through the rendering of one triangle primitive from its placement in
// world space to the pixel values being written to the frame buffer. We then check that
// the state of the graphics system makes sense when it is hypothetically displayed on screen.
// In this case, the z buffer should not affect the output with only one triangle.
#[test]
fn test_z_buffer_should_not_affect_rendering_with_one_primitive() {
    // GIVEN: A scene with exactly one triangle primitive.
    let v0 = point(30.0, 30.0, 0.0);
    let v1 = point(30.0, -30.0, 0.0);
    let v2 = point(-30.0, -30.0, 0.0);

    let width: usize = 512;
    let height: usize = 512;

    let m_total = make_camera(width, height);
    let mut pipeline_z = make_pipeline_with_z_buffer(width, height);
    let mut pipeline_no_z = make_pipeline_without_z_buffer(width, height);

    // WHEN: The scene is rendered using z-buffering.
    pipeline_z.run(m_total, v0, v1, v2);
    pipeline_no_z.run(m_total, v0, v1, v2);

    // THEN: The Z-buffered pipeline should actually render something.
    let zero = frame_buffer(width, height);
    assert_ne!(pipeline_z.frame_buffer, zero);
    assert_ne!(pipeline_no_z.frame_buffer, zero);

    // THEN: The z-buffered pipeline should render the entire triangle
    //       just like the pipeline without z-buffering.
    assert_eq!(pipeline_z.frame_buffer, pipeline_no_z.frame_buffer);

    // The part of the triangle on the screen: the pixels with centres
    // (i + 1/2, j + 1/2) for j <= i < 30, in the colour of the shader.
    assert_eq!(lit_pixels(&pipeline_z.frame_buffer), 30 * 31 / 2);
    assert_eq!(pipeline_z.frame_buffer.get_pixel(29, 0), Rgb::from_channels(76, 76, 101));
    assert_eq!(pipeline_z.frame_buffer.get_pixel(0, 0), Rgb::from_channels(76, 76, 101));
    assert_eq!(pipeline_z.frame_buffer.get_pixel(0, 1), Rgb::from_channels(0, 0, 0));
    assert_eq!(pipeline_z.frame_buffer.get_pixel(30, 0), Rgb::from_channels(0, 0, 0));
    // The depth is that of the plane of the triangle: 1 in the canonical view volume.
    assert_eq!(pipeline_z.z_buffer.depth_at(29, 0), SUBPIXELS as u32);
    assert_eq!(pipeline_z.z_buffer.depth_at(30, 0), graphics::z_buffer::INFINITELY_FAR);
}

#[test]
fn test_z_buffer_should_give_same_results_as_rendering_objects_back_to_front() {
    // GIVEN: A scene with two triangles ordered back to front.
    let u0 = point(30.0, 30.0, 0.0);
    let u1 = point(0.0, -30.0, 0.0);
    let u2 = point(-30.0, 30.0, 0.0);

    let v0 = point(20.0, 20.0, 0.0);
    let v1 = point(20.0, -20.0, 0.0);
    let v2 = point(-20.0, -20.0, 0.0);

    let width: usize = 512;
    let height: usize = 512;

    let m_total = make_camera(width, height);
    let mut pipeline_z = make_pipeline_with_z_buffer(width, height);
    let mut pipeline_no_z = make_pipeline_without_z_buffer(width, height);

    // WHEN: The scene is rendered using z-buffering.
    pipeline_z.run(m_total, v0, v1, v2);
    pipeline_z.run(m_total, u0, u1, u2);

    // THEN: The scene should be rendered as though the triangles were rendered in back to front order without the z buffer.
    pipeline_no_z.run(m_total, u0, u1, u2);
    pipeline_no_z.run(m_total, v0, v1, v2);

    assert_eq!(pipeline_z.frame_buffer, pipeline_no_z.frame_buffer);
    assert_ne!(pipeline_z.frame_buffer, frame_buffer(width, height));
}

#[test]
fn test_z_buffered_pair_equals_painted_pair_in_the_opposite_order() {
    // Triangle B lies inside triangle A on the screen, both in the plane z = 0.
    let a0 = point(30.0, 30.0, 0.0);
    let a1 = point(30.0, -30.0, 0.0);
    let a2 = point(-30.0, -30.0, 0.0);

    let b0 = point(20.0, 20.0, 0.0);
    let b1 = point(20.0, -20.0, 0.0);
    let b2 = point(-20.0, -20.0, 0.0);

    let width: usize = 512;
    let height: usize = 512;

    let m_total = make_camera(width, height);
    let mut pipeline_z = make_pipeline_with_z_buffer(width, height);
    let mut pipeline_no_z = make_pipeline_without_z_buffer(width, height);

    pipeline_z.run(m_total, a0, a1, a2);
    pipeline_z.run(m_total, b0, b1, b2);

    pipeline_no_z.run(m_total, b0, b1, b2);
    pipeline_no_z.run(m_total, a0, a1, a2);

    assert_eq!(pipeline_z.frame_buffer, pipeline_no_z.frame_buffer);
    assert_eq!(lit_pixels(&pipeline_z.frame_buffer), 30 * 31 / 2);
}
