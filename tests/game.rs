use daisy::arena::{DOT_MAX_VELOCITY, MAX_X, MAX_Y, MIN_X, MIN_Y, WALL_OFFSET};
use daisy::game::Daisy;
use daisy::input::{Button, ButtonState, Event};
use daisy::render::{index_of, Pixel};
use daisy::target::Target;

fn press(button: Button) -> Event {
    Event { button, state: ButtonState::Pressed }
}

fn release(button: Button) -> Event {
    Event { button, state: ButtonState::Released }
}

#[test]
fn arena_is_512_square() {
    assert_eq!(Daisy::with_target(20, 20).dimensions(), (512, 512));
}

#[test]
fn new_game_starts_in_the_middle() {
    let g = Daisy::new();
    assert_eq!((g.dot.get_x(), g.dot.get_y()), (256, 256));
    assert_eq!((g.dot.dx, g.dot.dy), (0, 0));
    assert_eq!((g.red, g.green), (50, 50));
    assert!(MIN_X <= g.target.get_x() && g.target.get_x() < MAX_X);
    assert!(MIN_Y <= g.target.get_y() && g.target.get_y() < MAX_Y);
}

#[test]
fn random_targets_stay_inside_and_vary() {
    let mut xs = Vec::new();
    for _ in 0..200 {
        let t = Target::new();
        assert!(MIN_X <= t.get_x() && t.get_x() < MAX_X);
        assert!(MIN_Y <= t.get_y() && t.get_y() < MAX_Y);
        let b = t.get_bounds();
        assert!(b.left >= 0 && b.right < 512 && b.top >= 0 && b.bottom < 512);
        xs.push(t.get_x());
    }
    assert!(xs.iter().any(|x| *x != xs[0]));
}

#[test]
fn catch_respawns_target_at_the_drawn_spot() {
    let mut g = Daisy::with_target(256, 256);
    g.tick_with(&[], 100, 200);
    assert_eq!((g.target.get_x(), g.target.get_y()), (100, 200));
    let b = g.target.get_bounds();
    assert!(b.left > WALL_OFFSET && b.top > WALL_OFFSET);
    assert!(b.right < 512 - WALL_OFFSET && b.bottom < 512 - WALL_OFFSET);
    assert_eq!((g.dot.get_width(), g.dot.get_height()), (16, 16));
}

#[test]
fn no_catch_keeps_the_target() {
    let mut g = Daisy::with_target(20, 20);
    g.tick_with(&[], 100, 200);
    assert_eq!((g.target.get_x(), g.target.get_y()), (20, 20));
    assert_eq!(g.dot.get_width(), 11);
}

#[test]
fn random_respawn_after_a_catch() {
    let mut g = Daisy::with_target(256, 256);
    g.tick(&[]);
    assert!(MIN_X <= g.target.get_x() && g.target.get_x() < MAX_X);
    assert!(MIN_Y <= g.target.get_y() && g.target.get_y() < MAX_Y);
    assert_eq!(g.dot.get_width(), 16);
}

#[test]
fn holding_right_for_thirty_ticks() {
    let mut g = Daisy::with_target(20, 20);
    g.tick(&[press(Button::Right)]);
    for _ in 0..30 {
        g.tick(&[]);
    }
    assert!(g.dot.get_x() > 256);
    assert!(g.dot.dx.abs() <= DOT_MAX_VELOCITY);
    assert_eq!(g.dot.dx, 775);
    assert_eq!(g.dot.get_y(), 256);
}

#[test]
fn colours_stay_within_full_range() {
    let mut g = Daisy::with_target(20, 20);
    for _ in 0..30 {
        g.tick(&[press(Button::Up), press(Button::Right)]);
        assert!(0 <= g.red && g.red <= 100);
        assert!(0 <= g.green && g.green <= 100);
    }
    assert_eq!((g.red, g.green), (100, 100));
    for _ in 0..30 {
        g.tick(&[press(Button::Down), press(Button::Left)]);
        assert!(0 <= g.red && g.red <= 100);
        assert!(0 <= g.green && g.green <= 100);
    }
    assert_eq!((g.red, g.green), (0, 0));
}

#[test]
fn one_colour_step_per_tick_from_the_last_press() {
    let mut g = Daisy::with_target(20, 20);
    g.tick(&[press(Button::Up), press(Button::Down), press(Button::Left)]);
    assert_eq!((g.red, g.green), (45, 45));
    g.tick(&[release(Button::Down), release(Button::Left)]);
    assert_eq!((g.red, g.green), (45, 45));
    g.tick(&[press(Button::Other)]);
    assert_eq!((g.red, g.green), (45, 45));
}

#[test]
fn stale_release_keeps_the_newer_direction() {
    let mut g = Daisy::with_target(20, 20);
    g.tick(&[press(Button::Left), press(Button::Right), release(Button::Left)]);
    assert_eq!(g.dot.x_dir, 1);
    g.tick(&[release(Button::Right)]);
    assert_eq!(g.dot.x_dir, 0);
    g.tick(&[press(Button::Up)]);
    assert_eq!(g.dot.y_dir, -1);
    g.tick(&[press(Button::Down), release(Button::Up)]);
    assert_eq!(g.dot.y_dir, 1);
}

#[test]
fn pixel_indices_are_row_major() {
    assert_eq!(index_of(0, 0), Some(0));
    assert_eq!(index_of(3, 2), Some(2 * 512 + 3));
    assert_eq!(index_of(511, 511), Some(512 * 512 - 1));
    assert_eq!(index_of(-1, 0), None);
    assert_eq!(index_of(512, 0), None);
    assert_eq!(index_of(0, 512), None);
}

fn blank() -> Vec<Pixel> {
    vec![Pixel { red: 0, green: 0, blue: 0, alpha: 0 }; 512 * 512]
}

#[test]
fn render_draws_background_dot_and_target() {
    let g = Daisy::with_target(100, 200);
    let mut pixels = blank();
    g.render(&mut pixels);
    assert_eq!(pixels[0], Pixel { red: 50, green: 50, blue: 0, alpha: 100 });
    assert_eq!(pixels[3], Pixel { red: 50, green: 50, blue: 15, alpha: 100 });
    assert_eq!(pixels[21], Pixel { red: 50, green: 50, blue: 5, alpha: 100 });
    let dot = Pixel { red: 50, green: 50, blue: 50, alpha: 100 };
    assert_eq!(pixels[256 * 512 + 256], dot);
    assert_eq!(pixels[251 * 512 + 261], dot);
    assert_ne!(pixels[251 * 512 + 262], dot);
    let white = Pixel { red: 100, green: 100, blue: 100, alpha: 100 };
    assert_eq!(pixels[200 * 512 + 100], white);
    assert_eq!(pixels[195 * 512 + 95], white);
    assert_eq!(pixels[205 * 512 + 105], white);
    assert_ne!(pixels[206 * 512 + 105], white);
}

#[test]
fn render_twice_gives_the_same_frame() {
    let mut g = Daisy::with_target(30, 40);
    g.tick(&[press(Button::Right), press(Button::Up)]);
    let mut first = blank();
    g.render(&mut first);
    let mut second = first.clone();
    g.render(&mut second);
    assert_eq!(first, second);
    let mut third = vec![Pixel { red: 7, green: 7, blue: 7, alpha: 7 }; 512 * 512];
    g.render(&mut third);
    assert_eq!(first, third);
}

#[test]
fn dot_partly_off_screen_is_clipped() {
    let mut g = Daisy::with_target(400, 400);
    for _ in 0..7 {
        g.dot.grow();
    }
    g.dot.x = MIN_X;
    g.dot.y = MIN_Y;
    assert_eq!(g.dot.get_width(), 181);
    let mut pixels = blank();
    g.render(&mut pixels);
    let dot = Pixel { red: 50, green: 50, blue: 50, alpha: 100 };
    assert_eq!(pixels[0], dot);
    assert_eq!(pixels[95 * 512 + 95], dot);
    assert_ne!(pixels[96 * 512 + 96], dot);
}
