use bracket_lib::random::RandomNumberGenerator;
use flappy::game::{
    check_obstacles, max_obstacle_x, ButtonAction, GameMode, Key, State, TickInput,
};
use flappy::obstacle::Obstacle;
use flappy::player::Player;
use flappy::sound::SoundEffect;

fn playing_state(player: Player, obstacles: Vec<Obstacle>, score: i32) -> State {
    State {
        player,
        frame_time: 0,
        mode: GameMode::Playing,
        obstacles,
        score,
        audio_enabled: true,
        music_enabled: true,
        buttons: Vec::new(),
        last_obstacle_gap_y: Some(25),
    }
}

fn three_obstacles() -> Vec<Obstacle> {
    vec![
        Obstacle { x: 80, gap_y: 25, size: 20 },
        Obstacle { x: 110, gap_y: 25, size: 20 },
        Obstacle { x: 140, gap_y: 25, size: 20 },
    ]
}

#[test]
fn new_game_starts_in_menu() {
    let mut rng = RandomNumberGenerator::seeded(7);
    let s = State::new(&mut rng);
    assert!(matches!(s.mode, GameMode::Menu));
    assert_eq!(s.score, 0);
    assert!(s.audio_enabled);
    assert!(s.music_enabled);
    assert_eq!(s.obstacles.len(), 3);
    assert_eq!(s.obstacles[0].x, 80);
    assert_eq!(s.obstacles[1].x, 110);
    assert_eq!(s.obstacles[2].x, 140);
    assert!(s.last_obstacle_gap_y.is_none());
}

#[test]
fn pass_scores_and_replaces_obstacle() {
    // Entity at x = 81 has just passed the obstacle at x = 80 of the set
    // 80/110/140 with interval 30: one point, and the passed obstacle is
    // replaced at 140 + 30 = 170 with gap size max(5, 20 - 1) = 19, its gap
    // center within 33 (two thirds of 50) of the previous one.
    let mut rng = RandomNumberGenerator::seeded(11);
    let mut s = playing_state(Player { x: 81, y: 250, velocity: 0 }, three_obstacles(), 0);
    let out = s.play(&mut rng, 0, None);
    assert_eq!(s.score, 1);
    assert!(matches!(s.mode, GameMode::Playing));
    assert_eq!(s.obstacles[0].x, 170);
    assert_eq!(s.obstacles[0].size, 19);
    assert!((s.obstacles[0].gap_y - 25).abs() <= 33);
    assert_eq!(s.obstacles[1].x, 110);
    assert_eq!(s.obstacles[2].x, 140);
    assert_eq!(s.last_obstacle_gap_y, Some(s.obstacles[0].gap_y));
    assert!(!out.quit);
    assert!(out.sounds.is_empty());
}

#[test]
fn multiple_passes_in_one_tick_score_once() {
    // With the entity past two obstacle columns at once, only the
    // highest-indexed one is reported for replacement and the score grows by
    // exactly one.
    let mut rng = RandomNumberGenerator::seeded(19);
    let mut s = playing_state(Player { x: 120, y: 250, velocity: 0 }, three_obstacles(), 0);
    let _ = s.play(&mut rng, 0, None);
    assert_eq!(s.score, 1);
    assert_eq!(s.obstacles[0].x, 80);
    assert_eq!(s.obstacles[1].x, 170);
    assert_eq!(s.obstacles[2].x, 140);
}

#[test]
fn sub_threshold_tick_leaves_entity_unmoved() {
    let mut rng = RandomNumberGenerator::seeded(3);
    let mut s = playing_state(Player { x: 5, y: 250, velocity: 0 }, three_obstacles(), 0);
    let _ = s.play(&mut rng, 75, None);
    assert_eq!(s.frame_time, 75);
    assert_eq!(s.player.x, 5);
    assert_eq!(s.player.y, 250);
    let _ = s.play(&mut rng, 1, None);
    // 75 + 1 exceeds the threshold: the step runs and the accumulator resets.
    assert_eq!(s.frame_time, 0);
    assert_eq!(s.player.x, 6);
    assert_eq!(s.player.y, 252);
    assert_eq!(s.player.velocity, 2);
}

#[test]
fn fall_below_floor_ends_round_exactly_once() {
    let mut rng = RandomNumberGenerator::seeded(5);
    let mut s = playing_state(Player { x: 5, y: 501, velocity: 0 }, three_obstacles(), 4);
    let out = s.play(&mut rng, 0, None);
    assert!(matches!(s.mode, GameMode::End));
    assert_eq!(out.sounds, vec![SoundEffect::GameOver]);
    // The score earned so far is kept on the end screen.
    assert_eq!(s.score, 4);
    // Further ticks without a restart leave the mode at End and emit nothing.
    let input = TickInput { elapsed_ms: 0, mouse_x: 0, mouse_y: 0, clicked: false, key: None };
    let out2 = s.tick(&mut rng, input);
    assert!(matches!(s.mode, GameMode::End));
    assert!(out2.sounds.is_empty());
    let out3 = s.tick(&mut rng, input);
    assert!(matches!(s.mode, GameMode::End));
    assert!(out3.sounds.is_empty());
    // A restart key brings the game back to Playing with a cleared score.
    let restart =
        TickInput { elapsed_ms: 0, mouse_x: 0, mouse_y: 0, clicked: false, key: Some(Key::P) };
    let out4 = s.tick(&mut rng, restart);
    assert!(matches!(s.mode, GameMode::Playing));
    assert_eq!(s.score, 0);
    assert_eq!(out4.music, vec![true]);
}

#[test]
fn collision_ends_round_with_hit_sound() {
    let mut rng = RandomNumberGenerator::seeded(5);
    // Same column as the first obstacle, above its gap band.
    let mut s = playing_state(Player { x: 80, y: 0, velocity: 0 }, three_obstacles(), 0);
    let out = s.play(&mut rng, 0, None);
    assert!(matches!(s.mode, GameMode::End));
    assert_eq!(out.sounds, vec![SoundEffect::Hit]);
}

#[test]
fn flap_key_emits_sound_only_while_audio_enabled() {
    let mut rng = RandomNumberGenerator::seeded(9);
    let mut s = playing_state(Player { x: 5, y: 250, velocity: 0 }, three_obstacles(), 0);
    let out = s.play(&mut rng, 0, Some(Key::Space));
    assert_eq!(s.player.velocity, -20);
    assert_eq!(out.sounds, vec![SoundEffect::Flap]);

    let mut quiet = playing_state(Player { x: 5, y: 250, velocity: 0 }, three_obstacles(), 0);
    quiet.audio_enabled = false;
    let out2 = quiet.play(&mut rng, 0, Some(Key::Space));
    assert_eq!(quiet.player.velocity, -20);
    assert!(out2.sounds.is_empty());
}

#[test]
fn toggle_keys_flip_audio_flags_while_playing() {
    let mut rng = RandomNumberGenerator::seeded(9);
    let mut s = playing_state(Player { x: 5, y: 250, velocity: 0 }, three_obstacles(), 0);
    let _ = s.play(&mut rng, 0, Some(Key::M));
    assert!(!s.audio_enabled);
    let out = s.play(&mut rng, 0, Some(Key::B));
    assert!(!s.music_enabled);
    assert_eq!(out.music, vec![false]);
}

#[test]
fn restart_twice_differs_only_in_gap_centers() {
    let mut rng = RandomNumberGenerator::seeded(21);
    let mut s = State::new(&mut rng);
    s.score = 9;
    let m1 = s.restart(&mut rng);
    let first: Vec<Obstacle> = s.obstacles.clone();
    let score1 = s.score;
    let player1 = s.player;
    let m2 = s.restart(&mut rng);
    assert_eq!(m1, Some(true));
    assert_eq!(m2, Some(true));
    assert_eq!(score1, 0);
    assert_eq!(s.score, 0);
    assert!(matches!(s.mode, GameMode::Playing));
    assert_eq!(s.player, player1);
    assert_eq!(s.frame_time, 0);
    assert!(s.buttons.is_empty());
    assert_eq!(s.obstacles.len(), first.len());
    for (a, b) in first.iter().zip(s.obstacles.iter()) {
        assert_eq!(a.x, b.x);
        assert_eq!(a.size, b.size);
    }
    // The regenerated set obeys the smoothness constraint between
    // consecutive gap centers.
    for w in s.obstacles.windows(2) {
        assert!((w[1].gap_y - w[0].gap_y).abs() <= 33);
    }
    assert_eq!(s.last_obstacle_gap_y, Some(s.obstacles[2].gap_y));
}

#[test]
fn menu_click_on_play_starts_the_game() {
    let mut rng = RandomNumberGenerator::seeded(13);
    let mut s = State::new(&mut rng);
    // First menu tick creates the buttons.
    let input = TickInput { elapsed_ms: 0, mouse_x: 0, mouse_y: 0, clicked: false, key: None };
    let _ = s.tick(&mut rng, input);
    assert_eq!(s.buttons.len(), 4);
    assert!(matches!(s.buttons[0].action, ButtonAction::Play));
    // Click inside the Play button at (30..50, 15..18).
    let click =
        TickInput { elapsed_ms: 0, mouse_x: 31, mouse_y: 16, clicked: true, key: None };
    let out = s.tick(&mut rng, click);
    assert!(matches!(s.mode, GameMode::Playing));
    assert_eq!(s.score, 0);
    assert_eq!(out.music, vec![true]);
    assert!(!out.quit);
}

#[test]
fn menu_quit_key_requests_exit() {
    let mut rng = RandomNumberGenerator::seeded(13);
    let mut s = State::new(&mut rng);
    let input =
        TickInput { elapsed_ms: 0, mouse_x: 0, mouse_y: 0, clicked: false, key: Some(Key::Q) };
    let out = s.tick(&mut rng, input);
    assert!(out.quit);
    assert!(matches!(s.mode, GameMode::Menu));
}

#[test]
fn menu_hover_marks_follow_the_pointer() {
    let mut rng = RandomNumberGenerator::seeded(13);
    let mut s = State::new(&mut rng);
    let input =
        TickInput { elapsed_ms: 0, mouse_x: 31, mouse_y: 16, clicked: false, key: None };
    let _ = s.tick(&mut rng, input);
    assert!(s.buttons[0].hover);
    assert!(!s.buttons[1].hover);
}

#[test]
fn end_screen_builds_its_own_buttons() {
    let mut rng = RandomNumberGenerator::seeded(17);
    let mut s = playing_state(Player { x: 5, y: 501, velocity: 0 }, three_obstacles(), 0);
    let _ = s.play(&mut rng, 0, None);
    let input = TickInput { elapsed_ms: 0, mouse_x: 0, mouse_y: 0, clicked: false, key: None };
    let _ = s.tick(&mut rng, input);
    assert_eq!(s.buttons.len(), 4);
    assert!(matches!(s.buttons[0].action, ButtonAction::Restart));
    assert_eq!(s.buttons[0].y, 20);
}

#[test]
fn toggle_music_click_rebuilds_buttons_and_commands_playback() {
    let mut rng = RandomNumberGenerator::seeded(17);
    let mut s = State::new(&mut rng);
    let input = TickInput { elapsed_ms: 0, mouse_x: 0, mouse_y: 0, clicked: false, key: None };
    let _ = s.tick(&mut rng, input);
    let out = s.handle_button_click(&mut rng, ButtonAction::ToggleMusic);
    assert!(!s.music_enabled);
    assert_eq!(out.music, vec![false]);
    assert_eq!(s.buttons.len(), 4);
    let out2 = s.handle_button_click(&mut rng, ButtonAction::ToggleAudio);
    assert!(!s.audio_enabled);
    assert!(out2.music.is_empty());
}

#[test]
fn play_sound_respects_audio_flag() {
    let mut rng = RandomNumberGenerator::seeded(1);
    let mut s = State::new(&mut rng);
    assert_eq!(s.play_sound(SoundEffect::Flap), Some(SoundEffect::Flap));
    s.audio_enabled = false;
    assert_eq!(s.play_sound(SoundEffect::BGM), None);
}

#[test]
fn evaluator_reports_highest_passed_index() {
    let player = Player { x: 120, y: 250, velocity: 0 };
    let obstacles = three_obstacles();
    let (hit, passed) = check_obstacles(&player, &obstacles);
    assert!(!hit);
    assert_eq!(passed, Some(1));

    let fresh = Player { x: 5, y: 250, velocity: 0 };
    let (hit2, passed2) = check_obstacles(&fresh, &obstacles);
    assert!(!hit2);
    assert_eq!(passed2, None);
}

#[test]
fn farthest_column_defaults_to_screen_width() {
    assert_eq!(max_obstacle_x(&three_obstacles()), 140);
    assert_eq!(max_obstacle_x(&Vec::new()), 80);
}

#[test]
fn button_hit_test_is_exact_on_the_edges() {
    let mut rng = RandomNumberGenerator::seeded(1);
    let mut s = State::new(&mut rng);
    s.create_menu_buttons();
    let b = s.buttons[0];
    assert!(b.contains_point(30, 15));
    assert!(b.contains_point(49, 17));
    assert!(!b.contains_point(50, 15));
    assert!(!b.contains_point(30, 18));
    assert!(!b.contains_point(29, 15));
}
