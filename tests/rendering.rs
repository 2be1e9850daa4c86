use console_core::graphics::{
    cos, create_cube, fixed_mul, get_line_char, sin, Camera, Line3D, Object3D, Point3D, Renderer3D,
    FIXED_ONE,
};
use console_core::screen::{Color, Screen};
use console_core::window_manager::Window;

fn demo_window() -> Window {
    Window::new(15, 4, 50, 20, "3D Graphics Demo", Color::LightBlue)
}

fn same_grid(a: &Screen, b: &Screen) -> bool {
    (0..25).all(|y| (0..80).all(|x| a.cell_at(x, y) == b.cell_at(x, y)))
}

#[test]
fn sine_and_cosine_values() {
    assert_eq!(sin(0), 0);
    assert_eq!(sin(15708), 10000);
    assert_eq!(sin(10000), 8416);
    assert_eq!(sin(-10000), -8416);
    assert_eq!(sin(5000), 4794);
    assert_eq!(cos(0), 10000);
    // the angle is reduced modulo 62832 first
    assert_eq!(sin(62832 + 10000), 8416);
}

#[test]
fn line_glyph_by_slope() {
    assert_eq!(get_line_char(0, 5), b'|');
    assert_eq!(get_line_char(0, 0), b'|');
    assert_eq!(get_line_char(10, 1), b'-');
    assert_eq!(get_line_char(-10, 4), b'-');
    assert_eq!(get_line_char(1, 10), b'|');
    assert_eq!(get_line_char(3, 3), b'\\');
    assert_eq!(get_line_char(-3, -4), b'\\');
    assert_eq!(get_line_char(3, -3), b'/');
    assert_eq!(get_line_char(4, 2), b'\\');
}

#[test]
fn draw_line_plots_each_step() {
    let mut screen = Screen::new();
    let w = demo_window();
    let r = Renderer3D::new();
    r.draw_line(&w, &mut screen, (2, 3), (6, 3));
    // five steps at t = 0, 1/5, ..., 4/5: the far end itself is not reached
    for x in 2..=5 {
        assert_eq!(screen.cell_at(15 + 1 + x, 4 + 1 + 3).glyph, b'-');
    }
    assert_eq!(screen.cell_at(15 + 1 + 6, 8).glyph, b' ');
    let mut diag = Screen::new();
    r.draw_line(&w, &mut diag, (5, 5), (2, 2));
    for k in 2..=5 {
        assert_eq!(diag.cell_at(16 + k, 5 + k).glyph, b'\\');
    }
}

#[test]
fn cube_has_twelve_unit_edges() {
    let cube = create_cube();
    assert_eq!(cube.lines.len(), 12);
    for l in cube.lines.iter() {
        for p in [l.from, l.to] {
            assert_eq!(p.x.abs(), FIXED_ONE);
            assert_eq!(p.y.abs(), FIXED_ONE);
            assert_eq!(p.z.abs(), FIXED_ONE);
        }
    }
    let first = cube.lines[0];
    assert_eq!((first.from.x, first.from.y, first.from.z), (-10000, -10000, 10000));
    assert_eq!((first.to.x, first.to.y, first.to.z), (10000, -10000, 10000));
    let joining = cube.lines[8];
    assert_eq!((joining.from.z, joining.to.z), (10000, -10000));
    assert_eq!((joining.from.x, joining.from.y), (joining.to.x, joining.to.y));
    for (i, l) in cube.lines.iter().enumerate() {
        let differ = (l.from.x != l.to.x) as u8 + (l.from.y != l.to.y) as u8 + (l.from.z != l.to.z) as u8;
        assert_eq!(differ, 1);
        for m in cube.lines.iter().skip(i + 1) {
            let same = (l.from.x, l.from.y, l.from.z, l.to.x, l.to.y, l.to.z)
                == (m.from.x, m.from.y, m.from.z, m.to.x, m.to.y, m.to.z)
                || (l.from.x, l.from.y, l.from.z, l.to.x, l.to.y, l.to.z)
                    == (m.to.x, m.to.y, m.to.z, m.from.x, m.from.y, m.from.z);
            assert!(!same);
        }
    }
    let c = Camera::new();
    assert_eq!((c.scale, c.distance), (10000, 50000));
}

#[test]
fn zero_rotation_changes_no_projection() {
    let w = demo_window();
    let cube = create_cube();
    let mut turned = Renderer3D::new();
    turned.rotate(1234, -777, 400);
    let mut again = turned;
    again.rotate(0, 0, 0);
    assert_eq!(again.rotation, turned.rotation);
    let mut a = Screen::new();
    let mut b = Screen::new();
    turned.render_object(&w, &mut a, &cube);
    again.render_object(&w, &mut b, &cube);
    assert!(same_grid(&a, &b));
}

#[test]
fn segment_behind_the_camera_is_not_drawn() {
    let w = demo_window();
    let r = Renderer3D::new();
    let behind = Line3D {
        from: Point3D { x: -10000, y: 0, z: -60000 },
        to: Point3D { x: 10000, y: 0, z: -50000 },
    };
    let mut screen = Screen::new();
    let blank = Screen::new();
    r.render_object(&w, &mut screen, &Object3D { lines: vec![behind] });
    assert!(same_grid(&screen, &blank));
    let front = Line3D {
        from: Point3D { x: -10000, y: 0, z: 0 },
        to: Point3D { x: 10000, y: 0, z: 0 },
    };
    let mut one = Screen::new();
    let mut both = Screen::new();
    r.render_object(&w, &mut one, &Object3D { lines: vec![front] });
    r.render_object(&w, &mut both, &Object3D { lines: vec![behind, front, behind] });
    assert!(same_grid(&one, &both));
    assert!(!same_grid(&one, &blank));
}

#[test]
fn front_face_of_the_cube_projects_into_the_viewport() {
    let w = demo_window();
    let r = Renderer3D::new();
    let mut screen = Screen::new();
    r.render_object(&w, &mut screen, &create_cube());
    // (-1, -1, 1): depth 6, scale 1/6; x = (1 - 1/6) * 23 + 2 = 21.16 -> 21
    // y = (1 - 1/6) * 8 + 2 = 8.66 -> 8
    assert_ne!(screen.cell_at(15 + 1 + 21, 4 + 1 + 8).glyph, b' ');
}

#[test]
fn rotate_camera_turns_only_the_camera() {
    let mut r = Renderer3D::new();
    r.rotate_camera(100, 200);
    assert_eq!(r.camera.rotation, (100, 200, 0));
    assert_eq!(r.rotation, (0, 0, 0));
}

#[test]
fn fixed_point_products_truncate_toward_zero() {
    assert_eq!(fixed_mul(-15000, 20000), -30000);
    assert_eq!(fixed_mul(15000, 20000), 30000);
    assert_eq!(fixed_mul(3, 3333), 0);
    assert_eq!(fixed_mul(-3, 3334), -1);
    assert_eq!(fixed_mul(-10000, -10000), 10000);
}
