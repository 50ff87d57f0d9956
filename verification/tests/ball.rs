use pong::{Ball, Serve, Sign, Vector2I};

fn ball(x: i32, y: i32, radius: i32, vx: i32, vy: i32) -> Ball {
    Ball::new(Vector2I::new(x, y), radius, Vector2I::new(vx, vy))
}

#[test]
fn integrate_adds_velocity_to_position() {
    let mut b = ball(640, 400, 20, 7, -7);
    assert!(b.can_integrate());
    b.integrate();
    assert_eq!(b.position, Vector2I::new(647, 393));
    assert_eq!(b.velocity, Vector2I::new(7, -7));
    assert_eq!(b.radius, 20);
}

#[test]
fn integrate_is_refused_at_the_end_of_the_grid() {
    let b = ball(i32::MAX - 3, 0, 20, 7, 7);
    assert!(!b.can_integrate());
    let b = ball(0, i32::MIN + 6, 20, 7, -7);
    assert!(!b.can_integrate());
    let b = ball(i32::MAX - 7, i32::MIN + 7, 20, 7, -7);
    assert!(b.can_integrate());
}

#[test]
fn bounce_at_top_edge_flips_vertical_velocity_each_call() {
    let mut b = ball(640, 0, 20, 7, -5);
    b.bounce_off_walls(1280, 800);
    assert_eq!(b.velocity, Vector2I::new(7, 5));
    assert_eq!(b.position, Vector2I::new(640, 0));
    b.bounce_off_walls(1280, 800);
    assert_eq!(b.velocity, Vector2I::new(7, -5));
    assert_eq!(b.position, Vector2I::new(640, 0));
}

#[test]
fn bounce_leaves_a_ball_inside_the_field_alone() {
    let mut b = ball(640, 400, 20, 7, 7);
    b.bounce_off_walls(1280, 800);
    assert_eq!(b, ball(640, 400, 20, 7, 7));
}

#[test]
fn bounce_comparisons_are_inclusive() {
    // Exactly touching the bottom edge: y + radius == height.
    let mut b = ball(640, 780, 20, 7, 7);
    assert!(b.meets_top_or_bottom(800));
    b.bounce_off_walls(1280, 800);
    assert_eq!(b.velocity, Vector2I::new(7, -7));
    // One unit short of it.
    let mut b = ball(640, 779, 20, 7, 7);
    assert!(!b.meets_top_or_bottom(800));
    b.bounce_off_walls(1280, 800);
    assert_eq!(b.velocity, Vector2I::new(7, 7));
    // Exactly touching the top edge: y - radius == 0.
    let mut b = ball(640, 20, 20, 7, -7);
    b.bounce_off_walls(1280, 800);
    assert_eq!(b.velocity, Vector2I::new(7, 7));
    let mut b = ball(640, 21, 20, 7, -7);
    b.bounce_off_walls(1280, 800);
    assert_eq!(b.velocity, Vector2I::new(7, -7));
}

#[test]
fn bounce_at_side_edges_flips_horizontal_velocity() {
    let mut b = ball(1260, 400, 20, 7, 7);
    assert!(b.meets_right_edge(1280));
    assert!(!b.meets_left_edge());
    b.bounce_off_walls(1280, 800);
    assert_eq!(b.velocity, Vector2I::new(-7, 7));
    let mut b = ball(20, 400, 20, -7, 7);
    assert!(b.meets_left_edge());
    assert!(!b.meets_right_edge(1280));
    assert!(b.meets_left_or_right(1280));
    b.bounce_off_walls(1280, 800);
    assert_eq!(b.velocity, Vector2I::new(7, 7));
    let b = ball(21, 400, 20, -7, 7);
    assert!(!b.meets_left_or_right(1280));
}

#[test]
fn bounce_in_a_corner_flips_both_components() {
    let mut b = ball(1270, 790, 20, 7, 7);
    b.bounce_off_walls(1280, 800);
    assert_eq!(b.velocity, Vector2I::new(-7, -7));
}

#[test]
fn bounce_is_refused_where_the_negation_cannot_be_stored() {
    let b = ball(640, 0, 20, 7, i32::MIN);
    assert!(!b.can_bounce_off_walls(1280, 800));
    let b = ball(0, 400, 20, i32::MIN, 7);
    assert!(!b.can_bounce_off_walls(1280, 800));
    let b = ball(640, 400, 20, i32::MIN, i32::MIN);
    assert!(b.can_bounce_off_walls(1280, 800));
}

#[test]
fn edge_tests_do_not_wrap_at_the_end_of_the_grid() {
    let b = ball(i32::MAX, i32::MAX, i32::MAX, 1, 1);
    assert!(b.meets_right_edge(i32::MAX));
    assert!(b.meets_top_or_bottom(i32::MAX));
    assert!(b.meets_left_edge());
    let b = ball(i32::MIN, i32::MIN, i32::MAX, 1, 1);
    assert!(!b.meets_right_edge(0));
    assert!(b.meets_left_edge());
    assert!(b.meets_top_or_bottom(0));
}

#[test]
fn update_moves_then_tests_at_the_new_position() {
    // 775 + 7 = 782, and 782 + 20 >= 800.
    let mut b = ball(640, 775, 20, 7, 7);
    assert!(b.can_update(1280, 800));
    b.update(1280, 800);
    assert_eq!(b.position, Vector2I::new(647, 782));
    assert_eq!(b.velocity, Vector2I::new(7, -7));
    // The old position met the edge, the new one does not.
    let mut b = ball(640, 20, 20, 7, 7);
    b.update(1280, 800);
    assert_eq!(b.position, Vector2I::new(647, 27));
    assert_eq!(b.velocity, Vector2I::new(7, 7));
}

#[test]
fn update_is_refused_where_a_step_cannot_be_stored() {
    let b = ball(i32::MAX, 400, 20, 1, 1);
    assert!(!b.can_update(1280, 800));
    let b = ball(640, 740, 20, 7, i32::MIN);
    assert!(!b.can_update(1280, 800));
}

#[test]
fn speed_magnitude_survives_many_frames() {
    let mut b = ball(640, 400, 20, 7, 7);
    for _ in 0..5000 {
        assert!(b.can_update(1280, 800));
        b.update(1280, 800);
        assert_eq!(b.velocity.x.abs(), 7);
        assert_eq!(b.velocity.y.abs(), 7);
        assert_eq!(b.radius, 20);
    }
}

#[test]
fn serve_centres_the_ball_and_applies_the_signs() {
    let mut b = ball(1279, 13, 20, 7, -7);
    let serve = Serve { sign_x: Sign::Negative, sign_y: Sign::Positive };
    assert!(b.can_serve(1280, 800, serve));
    b.serve(1280, 800, serve);
    assert_eq!(b, ball(640, 400, 20, -7, -7));
    let serve = Serve { sign_x: Sign::Negative, sign_y: Sign::Negative };
    b.serve(1280, 800, serve);
    assert_eq!(b, ball(640, 400, 20, 7, 7));
    let serve = Serve { sign_x: Sign::Positive, sign_y: Sign::Positive };
    b.serve(1281, 801, serve);
    assert_eq!(b, ball(640, 400, 20, 7, 7));
}

#[test]
fn serve_multiplies_whatever_velocity_the_ball_has() {
    let mut b = ball(0, 0, 20, -3, 11);
    b.serve(100, 50, Serve { sign_x: Sign::Negative, sign_y: Sign::Negative });
    assert_eq!(b, ball(50, 25, 20, 3, -11));
}

#[test]
fn serve_rounds_the_centre_towards_zero() {
    let mut b = ball(0, 0, 20, 7, 7);
    b.serve(-3, -5, Serve { sign_x: Sign::Positive, sign_y: Sign::Positive });
    assert_eq!(b.position, Vector2I::new(-1, -2));
    b.serve(3, 5, Serve { sign_x: Sign::Positive, sign_y: Sign::Positive });
    assert_eq!(b.position, Vector2I::new(1, 2));
}

#[test]
fn serve_is_refused_where_the_negation_cannot_be_stored() {
    let b = ball(0, 0, 20, i32::MIN, 7);
    assert!(!b.can_serve(1280, 800, Serve { sign_x: Sign::Negative, sign_y: Sign::Positive }));
    assert!(b.can_serve(1280, 800, Serve { sign_x: Sign::Positive, sign_y: Sign::Negative }));
}
