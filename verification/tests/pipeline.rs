use camera_controllers::model_view_projection;
use camera_controllers::Camera;
use camera_controllers::CameraPerspective;
use camera_controllers::FirstPerson;
use camera_controllers::FirstPersonSettings;
use input::Button;
use input::ButtonArgs;
use input::ButtonState;
use input::Input;
use input::Key;
use input::Loop;
use input::RenderArgs;
use input::ResizeArgs;
use input::UpdateArgs;
use little_cube::projection::DrawSize;
use little_cube::projection::Perspective;
use little_cube::projection::Ratio;
use little_cube::render_loop::Action;
use little_cube::render_loop::Event;
use little_cube::render_loop::RenderLoop;

type Matrix = [[f32; 4]; 4];

fn value(ratio: Ratio) -> f32 {
    ratio.num as f32 / ratio.den as f32
}

fn projection_matrix(settings: Perspective) -> Matrix {
    CameraPerspective {
        fov: value(settings.fov),
        near_clip: value(settings.near_clip),
        far_clip: value(settings.far_clip),
        aspect_ratio: value(settings.aspect_ratio),
    }
    .projection()
}

fn close(a: f32, b: f32) -> bool {
    (a - b).abs() <= 1e-5
}

fn assert_matrix_close(a: Matrix, b: Matrix) {
    for row in 0..4 {
        for col in 0..4 {
            assert!(close(a[row][col], b[row][col]), "[{}][{}]: {} vs {}", row, col, a[row][col], b[row][col]);
        }
    }
}

fn classify(event: &input::Event) -> Event {
    match event {
        input::Event::Loop(Loop::Render(_)) => Event::Render,
        input::Event::Input(Input::Resize(args), _) => {
            Event::Resize(DrawSize { width: args.draw_size[0], height: args.draw_size[1] })
        }
        _ => Event::Other,
    }
}

/// Stands in for window and GPU: performs what the loop asks for and keeps
/// every matrix that was drawn with.
struct Scene {
    state: RenderLoop,
    camera: FirstPerson<f32>,
    projection: Matrix,
    transform: Matrix,
    cleared: bool,
    drawn: Vec<Matrix>,
}

impl Scene {
    fn new(size: DrawSize) -> Scene {
        let state = RenderLoop::new(size);
        Scene {
            state,
            camera: FirstPerson::new([0.5, 0.5, 4.0], FirstPersonSettings::keyboard_wasd()),
            projection: projection_matrix(state.projection),
            transform: [[0.0; 4]; 4],
            cleared: false,
            drawn: Vec::new(),
        }
    }

    fn handle(&mut self, event: input::Event) {
        let dt = match &event {
            input::Event::Loop(Loop::Render(args)) => args.ext_dt,
            _ => 0.0,
        };
        for action in self.state.step(classify(&event)) {
            match action {
                Action::UpdateCamera => self.camera.event(&event),
                Action::SetProjection(settings) => self.projection = projection_matrix(settings),
                Action::RefreshTargets => {}
                Action::ClearTargets => self.cleared = true,
                Action::SetTransform => {
                    self.transform = model_view_projection(
                        vecmath::mat4_id(),
                        self.camera.camera(dt).orthogonal(),
                        self.projection,
                    )
                }
                Action::Draw => {
                    assert!(self.cleared);
                    self.cleared = false;
                    self.drawn.push(self.transform)
                }
            }
        }
    }
}

fn render(ext_dt: f64) -> input::Event {
    input::Event::Loop(Loop::Render(RenderArgs {
        ext_dt,
        window_size: [640.0, 480.0],
        draw_size: [640, 480],
    }))
}

fn update(dt: f64) -> input::Event {
    input::Event::Loop(Loop::Update(UpdateArgs { dt }))
}

fn key(state: ButtonState, key: Key) -> input::Event {
    input::Event::Input(
        Input::Button(ButtonArgs { state, button: Button::Keyboard(key), scancode: None }),
        None,
    )
}

fn resize(width: u32, height: u32) -> input::Event {
    input::Event::Input(
        Input::Resize(ResizeArgs {
            window_size: [width as f64, height as f64],
            draw_size: [width, height],
        }),
        None,
    )
}

#[test]
fn reference_projection_matrix_for_the_initial_window() {
    let matrix = projection_matrix(Perspective::new(DrawSize { width: 640, height: 480 }));
    let reference: Matrix = [
        [0.75, 0.0, 0.0, 0.0],
        [0.0, 1.0, 0.0, 0.0],
        [0.0, 0.0, -1.0002, -1.0],
        [0.0, 0.0, -0.20002, 0.0],
    ];
    assert_matrix_close(matrix, reference);
}

#[test]
fn scene_settings_are_the_fixed_numbers() {
    let settings = Perspective::new(DrawSize { width: 640, height: 480 });
    assert_eq!(value(settings.fov), 90.0f32);
    assert_eq!(value(settings.near_clip), 0.1f32);
    assert_eq!(value(settings.far_clip), 1000.0f32);
    assert_eq!(value(settings.aspect_ratio), 640.0f32 / 480.0f32);
}

#[test]
fn resize_to_800_by_600_changes_only_the_aspect_ratio() {
    let mut scene = Scene::new(DrawSize { width: 640, height: 480 });
    scene.handle(resize(800, 600));
    let settings = scene.state.projection;
    assert_eq!(value(settings.aspect_ratio), 800.0f32 / 600.0f32);
    assert_eq!(value(settings.fov), 90.0f32);
    assert_eq!(value(settings.near_clip), 0.1f32);
    assert_eq!(value(settings.far_clip), 1000.0f32);
    assert_matrix_close(scene.projection, projection_matrix(settings));
}

#[test]
fn resize_to_another_shape_changes_the_projection_matrix() {
    let mut scene = Scene::new(DrawSize { width: 640, height: 480 });
    let before = scene.projection;
    scene.handle(resize(1000, 500));
    assert!(close(scene.projection[0][0], 0.5));
    assert!(!close(scene.projection[0][0], before[0][0]));
    assert_eq!(scene.projection[1], before[1]);
    assert_eq!(scene.projection[2], before[2]);
    assert_eq!(scene.projection[3], before[3]);
}

#[test]
fn identity_model_leaves_projection_times_view() {
    let projection = projection_matrix(Perspective::new(DrawSize { width: 640, height: 480 }));
    let mut camera: Camera<f32> = Camera::new([0.0, 0.0, 0.0]);
    camera.set_yaw_pitch(0.0, 0.0);
    let view = camera.orthogonal();
    let combined = model_view_projection(vecmath::mat4_id(), view, projection);
    assert_eq!(combined, vecmath::col_mat4_mul(projection, view));
}

#[test]
fn view_matrix_is_orthonormal_rotation_with_translation() {
    let poses: [([f32; 3], f32, f32); 4] = [
        ([0.5, 0.5, 4.0], 0.0, 0.0),
        ([-3.0, 2.0, 1.0], 0.7, -0.3),
        ([10.0, -4.0, 0.25], 2.5, 1.2),
        ([0.0, 0.0, 0.0], -1.9, 0.4),
    ];
    for (position, yaw, pitch) in poses {
        let mut camera: Camera<f32> = Camera::new(position);
        camera.set_yaw_pitch(yaw, pitch);
        let view = camera.orthogonal();
        for i in 0..3 {
            for j in 0..3 {
                let rows: f32 = (0..3).map(|k| view[i][k] * view[j][k]).sum();
                let cols: f32 = (0..3).map(|k| view[k][i] * view[k][j]).sum();
                let expected = if i == j { 1.0 } else { 0.0 };
                assert!(close(rows, expected));
                assert!(close(cols, expected));
            }
            assert_eq!(view[i][3], 0.0);
        }
        assert_eq!(view[3][3], 1.0);
    }
}

#[test]
fn moving_forward_changes_the_translation_of_the_drawn_transform() {
    let mut scene = Scene::new(DrawSize { width: 640, height: 480 });
    scene.handle(render(0.0));
    scene.handle(key(ButtonState::Press, Key::W));
    scene.handle(update(1.0));
    scene.handle(render(0.0));
    assert_eq!(scene.drawn.len(), 2);
    assert_ne!(scene.drawn[0][3], scene.drawn[1][3]);
    assert_eq!(scene.camera.position, [0.5, 0.5, 3.0]);
}

#[test]
fn render_tick_extrapolates_the_camera_by_its_own_time_step() {
    let mut scene = Scene::new(DrawSize { width: 640, height: 480 });
    scene.handle(render(0.0));
    scene.handle(key(ButtonState::Press, Key::W));
    scene.handle(render(1.0));
    assert_eq!(scene.drawn.len(), 2);
    assert_ne!(scene.drawn[0][3], scene.drawn[1][3]);
    assert_eq!(scene.camera.position, [0.5, 0.5, 4.0]);
}

#[test]
fn standing_still_draws_the_same_transform_again() {
    let mut scene = Scene::new(DrawSize { width: 640, height: 480 });
    scene.handle(render(0.0));
    scene.handle(update(1.0));
    scene.handle(render(0.0));
    assert_eq!(scene.drawn.len(), 2);
    assert_eq!(scene.drawn[0], scene.drawn[1]);
}

#[test]
fn drawn_transform_is_projection_times_view_of_the_camera_at_draw_time() {
    let mut scene = Scene::new(DrawSize { width: 640, height: 480 });
    scene.handle(key(ButtonState::Press, Key::D));
    scene.handle(update(0.5));
    scene.handle(resize(1000, 500));
    scene.handle(render(0.0));
    let expected = vecmath::col_mat4_mul(
        projection_matrix(Perspective::new(DrawSize { width: 1000, height: 500 })),
        scene.camera.camera(0.0).orthogonal(),
    );
    assert_eq!(scene.drawn.len(), 1);
    assert_matrix_close(scene.drawn[0], expected);
}
