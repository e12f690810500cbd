use platformer::{
    Control, FrameInput, Hitboxes, Player, Rect, Velocity, World, DASH_LIMIT,
};

fn quiet() -> FrameInput {
    FrameInput { controls: Vec::new(), mouse_x: 0, mouse_y: 0, dash_pressed: false }
}

fn holding(controls: Vec<Control>) -> FrameInput {
    FrameInput { controls, mouse_x: 0, mouse_y: 0, dash_pressed: false }
}

#[test]
fn free_fall_one_frame() {
    let mut p = Player::new();
    p.update(&[], &quiet());
    assert!(p.is_falling);
    assert_eq!(p.velocity, Velocity { x: 0, y: -150 });
    assert_eq!(p.body, Rect::new(100_000, 100_150, 32_000, 32_000));
    assert_eq!(p.hitboxes, Hitboxes::of(&p.body));
}

#[test]
fn free_fall_accelerates() {
    let mut p = Player::new();
    p.update(&[], &quiet());
    p.update(&[], &quiet());
    assert_eq!(p.velocity.y, -300);
    assert_eq!(p.body.y, 100_450);
}

#[test]
fn resting_on_platform_stays_put() {
    // The lower hitbox starts one pixel below the body's bottom edge (133 px).
    let floor = Rect::new(0, 134_000, 300_000, 20_000);
    let mut p = Player::new();
    p.velocity.y = -2000;
    p.update(&[floor], &quiet());
    assert!(!p.is_falling);
    assert_eq!(p.velocity.y, 0);
    assert_eq!(p.body.y, 100_000);
    p.update(&[floor], &quiet());
    assert!(!p.is_falling);
    assert_eq!(p.body.y, 100_000);
}

#[test]
fn grounded_by_any_platform_in_the_list() {
    let floor = Rect::new(0, 134_000, 300_000, 20_000);
    let far = Rect::new(900_000, 900_000, 10_000, 10_000);
    let mut p = Player::new();
    p.update(&[floor, far], &quiet());
    assert!(!p.is_falling);
    let mut q = Player::new();
    q.update(&[far, floor], &quiet());
    assert!(!q.is_falling);
}

#[test]
fn ceiling_takes_priority_over_floor() {
    // Overlaps both the upper band (97..103.4 px) and the lower band (133..139.4 px).
    let slab = Rect::new(100_000, 90_000, 32_000, 50_000);
    let mut p = Player::new();
    p.velocity.y = 1000;
    p.update(&[slab], &quiet());
    assert!(p.is_falling);
    assert_eq!(p.velocity.y, -950);
    assert_eq!(p.body.y, 100_950);
}

#[test]
fn ceiling_bounce_reverses_and_damps() {
    let ceiling = Rect::new(100_000, 90_000, 32_000, 8_000);
    let mut p = Player::new();
    p.velocity.y = 1000;
    p.update(&[ceiling], &quiet());
    assert!(p.is_falling);
    assert_eq!(p.velocity.y, -800 - 150);
    assert_eq!(p.body.y, 100_950);
}

#[test]
fn left_wall_blocks_and_reverses() {
    let wall = Rect::new(90_000, 100_000, 5_000, 40_000);
    let mut p = Player::new();
    p.velocity.x = -3000;
    p.update(&[wall], &holding(vec![Control::MoveLeft]));
    assert!(!p.can_walk_left);
    assert!(p.can_walk_right);
    assert_eq!(p.velocity.x, 2800);
    assert_eq!(p.body.x, 102_800);
}

#[test]
fn right_wall_blocks_and_reverses() {
    // The right band spans 131..137.4 px horizontally.
    let wall = Rect::new(135_000, 100_000, 5_000, 40_000);
    let mut p = Player::new();
    p.velocity.x = 3000;
    p.update(&[wall], &holding(vec![Control::MoveRight]));
    assert!(!p.can_walk_right);
    assert!(p.can_walk_left);
    assert_eq!(p.velocity.x, -2800);
    assert_eq!(p.body.x, 97_200);
}

#[test]
fn deadzone_settles_and_stays() {
    let mut p = Player::new();
    p.velocity.x = 500;
    p.update(&[], &quiet());
    assert_eq!(p.velocity.x, 0);
    assert_eq!(p.body.x, 100_000);
    p.update(&[], &holding(vec![Control::Jump, Control::Other]));
    assert_eq!(p.velocity.x, 0);
    assert_eq!(p.body.x, 100_000);
}

#[test]
fn horizontal_friction_values() {
    let mut p = Player::new();
    p.velocity.x = 2000;
    p.update(&[], &quiet());
    assert_eq!(p.velocity.x, 1800);
    let mut q = Player::new();
    q.velocity.x = -1000;
    q.update(&[], &quiet());
    assert_eq!(q.velocity.x, -800);
}

#[test]
fn jump_ignored_while_falling() {
    let mut p = Player::new();
    p.update(&[], &holding(vec![Control::Jump]));
    assert!(p.is_falling);
    assert_eq!(p.velocity.y, -150);
}

#[test]
fn jump_from_the_ground() {
    let floor = Rect::new(0, 134_000, 300_000, 20_000);
    let mut p = Player::new();
    p.update(&[floor], &holding(vec![Control::Jump]));
    assert!(!p.is_falling);
    assert_eq!(p.velocity.y, 6000);
    assert_eq!(p.body.y, 94_000);
}

#[test]
fn last_direction_wins() {
    let mut p = Player::new();
    p.update(&[], &holding(vec![Control::MoveRight, Control::MoveLeft]));
    assert_eq!(p.velocity.x, -4000);
    assert_eq!(p.body.x, 96_000);
    let mut q = Player::new();
    q.update(&[], &holding(vec![Control::MoveLeft, Control::Other, Control::MoveRight]));
    assert_eq!(q.velocity.x, 4000);
    assert_eq!(q.body.x, 104_000);
}

#[test]
fn dash_on_click() {
    let mut p = Player::new();
    let input = FrameInput {
        controls: vec![Control::MoveLeft],
        mouse_x: 300_000,
        mouse_y: 116_000,
        dash_pressed: true,
    };
    p.update(&[], &input);
    assert_eq!(p.velocity, Velocity { x: DASH_LIMIT, y: 0 });
    assert_eq!(p.body.x, 110_000);
    assert_eq!(p.body.y, 100_000);
}

#[test]
fn dash_without_click_does_nothing() {
    let mut p = Player::new();
    let input = FrameInput { controls: Vec::new(), mouse_x: 300_000, mouse_y: 0, dash_pressed: false };
    p.update(&[], &input);
    assert_eq!(p.velocity, Velocity { x: 0, y: -150 });
}

#[test]
fn world_update_keeps_platforms() {
    let mut w = World::new();
    let before = w.platforms.clone();
    w.update();
    assert_eq!(w.platforms, before);
    assert_eq!(w.platforms.len(), 4);
    assert_eq!(w.platforms[2], Rect::new(-200_000, 550_000, 1_000_000, 100_000));
}

#[test]
fn player_falls_onto_the_world_ground() {
    let w = World::new();
    let mut p = Player::with_body(Rect::new(300_000, 400_000, 32_000, 32_000), 4000, 6000);
    let mut frames: u32 = 0;
    while p.is_falling || frames == 0 {
        p.update(&w.platforms, &quiet());
        frames += 1;
        assert!(frames < 1000);
    }
    // The lower band reaches the ground at 550 px.
    assert!(p.body.y + p.body.h + 1000 <= 550_000);
    assert!(p.body.y + p.body.h + 1000 + p.body.h / 5 >= 550_000);
}
