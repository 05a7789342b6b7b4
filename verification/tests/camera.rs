use cgmath::InnerSpace;
use cgmath::Matrix4;
use cgmath::Point3;
use cgmath::Vector3;
use cubes::camera::Camera;
use cubes::camera::Coord3;

const EPS: f64 = 1e-4;

fn close(a: f64, b: f64) -> bool {
    (a - b).abs() < EPS
}

fn point(c: Coord3) -> Point3<f64> {
    Point3::new(c.x as f64 / 10.0, c.y as f64 / 10.0, c.z as f64 / 10.0)
}

fn vector(c: Coord3) -> Vector3<f64> {
    Vector3::new(c.x as f64 / 10.0, c.y as f64 / 10.0, c.z as f64 / 10.0)
}

/// The fixed remap of the projection's canonical -1..1 depth range into
/// the target API's 0..1 range, as the renderer applies it.
fn depth_remap() -> Matrix4<f64> {
    Matrix4::new(
        1.0, 0.0, 0.0, 0.0, //
        0.0, 1.0, 0.0, 0.0, //
        0.0, 0.0, 0.5, 0.5, //
        0.0, 0.0, 0.0, 1.0,
    )
}

fn view_matrix(camera: &Camera) -> Matrix4<f64> {
    Matrix4::look_at_rh(point(camera.eye), point(camera.target), vector(camera.up))
}

fn view_projection(camera: &Camera) -> Matrix4<f64> {
    let proj = cgmath::perspective(
        cgmath::Deg(camera.fov as f64 / 10.0),
        camera.aspect_width as f64 / camera.aspect_height as f64,
        camera.znear as f64 / 10.0,
        camera.zfar as f64 / 10.0,
    );
    depth_remap() * proj * view_matrix(camera)
}

/// The camera starts at eye (0, 8, 15) looking at the origin with up +Y,
/// a 45 degree field of view, aspect ratio 1 and planes 0.1 and 100.
#[test]
fn initial_parameters() {
    let camera = Camera::new();
    assert_eq!(camera.eye, Coord3 { x: 0, y: 80, z: 150 });
    assert_eq!(camera.target, Coord3 { x: 0, y: 0, z: 0 });
    assert_eq!(camera.up, Coord3 { x: 0, y: 10, z: 0 });
    assert_eq!(camera.fov, 450);
    assert_eq!(camera.aspect_width, 1);
    assert_eq!(camera.aspect_height, 1);
    assert_eq!(camera.znear, 1);
    assert_eq!(camera.zfar, 1000);
}

/// Updating the aspect ratio changes the aspect fields and nothing else.
#[test]
fn aspect_update_touches_only_aspect() {
    let mut camera = Camera::new();
    camera.update_aspect_ratio(1920, 1080);
    assert_eq!(camera.aspect_width, 1920);
    assert_eq!(camera.aspect_height, 1080);
    let fresh = Camera::new();
    assert_eq!(camera.eye, fresh.eye);
    assert_eq!(camera.target, fresh.target);
    assert_eq!(camera.up, fresh.up);
    assert_eq!(camera.fov, fresh.fov);
    assert_eq!(camera.znear, fresh.znear);
    assert_eq!(camera.zfar, fresh.zfar);
}

/// The initial camera yields a fixed, reproducible view-projection
/// matrix (golden values, column major).
#[test]
fn view_projection_matches_golden_values() {
    let m = view_projection(&Camera::new());
    let golden = [
        [2.4142136, 0.0, 0.0, 0.0],
        [0.0, 2.1301884, -0.2357652, -0.7063534],
        [0.0, -1.1361005, -0.4420597, -1.3244126],
        [0.0, 0.0, 8.4169169, 25.4169169],
    ];
    for (col, g) in golden.iter().enumerate() {
        for (row, want) in g.iter().enumerate() {
            assert!(
                close(m[col][row], *want),
                "entry (col {}, row {}): {} vs {}",
                col,
                row,
                m[col][row],
                want
            );
        }
    }
    // Computing it twice gives the same matrix.
    let again = view_projection(&Camera::new());
    for col in 0..4 {
        for row in 0..4 {
            assert_eq!(m[col][row], again[col][row]);
        }
    }
}

/// Round trip: the eye position, the view direction and the up basis
/// re-derived from the view matrix's rotation and translation match the
/// camera's parameters.
#[test]
fn view_matrix_round_trip() {
    let camera = Camera::new();
    let v = view_matrix(&camera);

    // Orthonormal basis rows: side, up, -forward.
    let s = Vector3::new(v[0][0], v[1][0], v[2][0]);
    let u = Vector3::new(v[0][1], v[1][1], v[2][1]);
    let f = -Vector3::new(v[0][2], v[1][2], v[2][2]);
    let t = Vector3::new(v[3][0], v[3][1], v[3][2]);

    // eye = (eye . s) s + (eye . u) u + (eye . f) f, and the translation
    // column stores (-eye . s, -eye . u, eye . f).
    let eye = s * (-t.x) + u * (-t.y) + f * t.z;
    let want_eye = point(camera.eye);
    assert!(close(eye.x, want_eye.x));
    assert!(close(eye.y, want_eye.y));
    assert!(close(eye.z, want_eye.z));

    // The view direction points from the eye to the target.
    let want_f = (point(camera.target) - want_eye).normalize();
    assert!(close(f.x, want_f.x));
    assert!(close(f.y, want_f.y));
    assert!(close(f.z, want_f.z));

    // The up basis is the input up vector orthonormalized against the
    // view direction.
    let up_in = vector(camera.up).normalize();
    let want_u = (up_in - f * up_in.dot(f)).normalize();
    assert!(close(u.x, want_u.x));
    assert!(close(u.y, want_u.y));
    assert!(close(u.z, want_u.z));

    // The basis is orthonormal.
    assert!(close(s.dot(u), 0.0));
    assert!(close(s.dot(f), 0.0));
    assert!(close(u.dot(f), 0.0));
    assert!(close(s.magnitude(), 1.0));
    assert!(close(u.magnitude(), 1.0));
    assert!(close(f.magnitude(), 1.0));
}
