use bracket_lib::random::RandomNumberGenerator;
use flappy::obstacle::{gap_size, Obstacle};
use flappy::player::Player;

#[test]
fn gap_size_at_score_zero_is_twenty() {
    assert_eq!(gap_size(0), 20);
}

#[test]
fn gap_size_shrinks_with_score() {
    assert_eq!(gap_size(1), 19);
    assert_eq!(gap_size(10), 10);
    assert_eq!(gap_size(15), 5);
}

#[test]
fn gap_size_floor_reached_at_score_twenty() {
    // score = 20 gives max(5, 20 - 20) = 5: floored, not zero or negative.
    assert_eq!(gap_size(20), 5);
    assert_eq!(gap_size(21), 5);
    assert_eq!(gap_size(1000), 5);
}

#[test]
fn gap_size_never_below_minimum() {
    let mut s: i32 = 0;
    while s <= 100 {
        let g = gap_size(s);
        assert!(g >= 5);
        assert_eq!(g, i32::max(5, 20 - s));
        s += 1;
    }
}

#[test]
fn new_obstacle_gap_stays_in_valid_band() {
    let mut seed: u64 = 0;
    while seed < 100 {
        let mut rng = RandomNumberGenerator::seeded(seed);
        let o = Obstacle::new(&mut rng, 80, 0);
        assert_eq!(o.x, 80);
        assert_eq!(o.size, 20);
        let half = o.size / 2;
        assert!(o.gap_y >= half + 2);
        assert!(o.gap_y < 50 - half - 2);
        seed += 1;
    }
}

#[test]
fn new_obstacle_gap_varies_with_the_generator() {
    let mut seen_low = false;
    let mut seen_high = false;
    let mut first: Option<i32> = None;
    let mut seed: u64 = 0;
    while seed < 100 {
        let mut rng = RandomNumberGenerator::seeded(seed);
        let o = Obstacle::new(&mut rng, 80, 0);
        match first {
            None => first = Some(o.gap_y),
            Some(f) => {
                if o.gap_y < f {
                    seen_low = true;
                }
                if o.gap_y > f {
                    seen_high = true;
                }
            }
        }
        seed += 1;
    }
    assert!(seen_low || seen_high);
}

#[test]
fn constrained_obstacle_stays_near_history() {
    let mut seed: u64 = 0;
    while seed < 100 {
        let mut rng = RandomNumberGenerator::seeded(seed);
        let o = Obstacle::with_constraint(&mut rng, 110, 3, Some(25));
        assert_eq!(o.x, 110);
        assert_eq!(o.size, 17);
        let half = o.size / 2;
        assert!(o.gap_y >= half + 2);
        assert!(o.gap_y <= 50 - half - 2);
        assert!((o.gap_y - 25).abs() <= 33);
        seed += 1;
    }
}

#[test]
fn degenerate_clamp_falls_back_to_valid_band() {
    // A history far outside the playfield empties the clamped band
    // (min_allowed > max_allowed); the result must still lie inside the
    // unclamped valid band.
    let mut seed: u64 = 0;
    while seed < 100 {
        let mut rng = RandomNumberGenerator::seeded(seed);
        let o = Obstacle::with_constraint(&mut rng, 200, 0, Some(1000));
        assert_eq!(o.size, 20);
        let half = o.size / 2;
        assert!(o.gap_y >= half + 2);
        assert!(o.gap_y <= 50 - half - 2);
        seed += 1;
    }
}

#[test]
fn clamp_pinched_to_a_single_row_returns_it() {
    // At score 0 the valid band is [12, 38]; a history of 71 pinches the
    // clamped band to exactly {38}, which is returned without a draw.
    let mut rng = RandomNumberGenerator::seeded(4);
    let o = Obstacle::with_constraint(&mut rng, 200, 0, Some(71));
    assert_eq!(o.gap_y, 38);
}

#[test]
fn hit_only_in_same_column_outside_gap() {
    let o = Obstacle { x: 10, gap_y: 25, size: 10 };
    // Gap band spans rows 20..=30, i.e. 200..=300 in vertical subunits.
    let above = Player { x: 10, y: 199, velocity: 0 };
    let top_edge = Player { x: 10, y: 200, velocity: 0 };
    let inside = Player { x: 10, y: 250, velocity: 0 };
    let bottom_edge = Player { x: 10, y: 300, velocity: 0 };
    let below = Player { x: 10, y: 301, velocity: 0 };
    let other_column = Player { x: 11, y: 0, velocity: 0 };
    assert!(o.hit_obstacle(&above));
    assert!(!o.hit_obstacle(&top_edge));
    assert!(!o.hit_obstacle(&inside));
    assert!(!o.hit_obstacle(&bottom_edge));
    assert!(o.hit_obstacle(&below));
    assert!(!o.hit_obstacle(&other_column));
}

#[test]
fn flap_sets_upward_velocity_from_any_prior_velocity() {
    let mut falling = Player { x: 5, y: 250, velocity: 20 };
    falling.flap();
    assert_eq!(falling.velocity, -20);

    let mut rising = Player { x: 5, y: 250, velocity: -20 };
    rising.flap();
    // Not cumulative: flapping while rising does not stack impulses.
    assert_eq!(rising.velocity, -20);

    let mut at_rest = Player::new(5, 25);
    at_rest.flap();
    assert_eq!(at_rest.velocity, -20);
    assert_eq!(at_rest.x, 5);
    assert_eq!(at_rest.y, 250);
}

#[test]
fn gravity_accelerates_and_moves() {
    let mut p = Player::new(5, 25);
    p.gravity_and_move();
    assert_eq!(p.velocity, 2);
    assert_eq!(p.y, 252);
    assert_eq!(p.x, 6);
}

#[test]
fn gravity_caps_at_terminal_velocity() {
    let mut p = Player::new(5, 25);
    let mut i: i32 = 0;
    while i < 30 {
        p.gravity_and_move();
        assert!(p.velocity <= 20);
        i += 1;
    }
    assert_eq!(p.velocity, 20);
}

#[test]
fn position_clamped_at_top_of_playfield() {
    let mut p = Player { x: 5, y: 0, velocity: -20 };
    p.gravity_and_move();
    assert_eq!(p.y, 0);
    assert_eq!(p.velocity, -18);
}
