use flappy_dragon::obstacle::Obstacle;
use flappy_dragon::player::Player;
use flappy_dragon::session::Action;
use flappy_dragon::session::GameMode;
use flappy_dragon::session::State;

fn playing_state(player: Player, obstacle: Obstacle, score: i32) -> State {
    State {
        player,
        frame_time: 0,
        obstacle,
        score,
        mode: GameMode::Playing,
        quitting: false,
    }
}

#[test]
fn new_player_is_at_rest() {
    let p = Player::new(5, 25);
    assert_eq!(p.x, 5);
    assert_eq!(p.y, 250);
    assert_eq!(p.velocity, 0);
    assert_eq!(p.frame, 0);
}

#[test]
fn velocity_caps_and_y_stays_non_negative() {
    let mut p = Player::new(5, 25);
    let mut expected_velocity: i32 = 0;
    for _ in 0..10 {
        p.gravity_and_move();
        if expected_velocity < 20 {
            expected_velocity += 4;
        }
        assert_eq!(p.velocity, expected_velocity);
        assert!(p.velocity <= 20);
        assert!(p.y >= 0);
    }
    assert_eq!(p.velocity, 20);
}

#[test]
fn y_is_clamped_at_the_floor() {
    let mut p = Player::new(5, 0);
    p.flap();
    p.gravity_and_move();
    assert_eq!(p.velocity, -16);
    assert_eq!(p.y, 0);
}

#[test]
fn flap_overrides_any_velocity() {
    let mut p = Player::new(5, 25);
    for _ in 0..6 {
        p.gravity_and_move();
    }
    assert_eq!(p.velocity, 20);
    p.flap();
    assert_eq!(p.velocity, -20);
    p.flap();
    assert_eq!(p.velocity, -20);
}

#[test]
fn gravity_advances_column_and_frame() {
    let mut p = Player::new(5, 25);
    for step in 1..8usize {
        p.gravity_and_move();
        assert_eq!(p.x, 5 + step as i32);
        assert_eq!(p.frame, step % 6);
    }
}

#[test]
fn sprite_glyph_cycles_through_the_frame_table() {
    let glyphs: [u16; 6] = [64, 1, 2, 3, 2, 1];
    for (frame, expected) in glyphs.iter().enumerate() {
        let p = Player {
            x: 0,
            y: 0,
            velocity: 0,
            frame,
        };
        assert_eq!(p.sprite_glyph(), *expected);
    }
}

#[test]
fn obstacle_size_shrinks_to_a_floor_of_two() {
    assert_eq!(Obstacle::new(80, 0).size, 10);
    assert_eq!(Obstacle::new(80, 3).size, 7);
    assert_eq!(Obstacle::new(80, 8).size, 2);
    assert_eq!(Obstacle::new(80, 9).size, 2);
    assert_eq!(Obstacle::new(80, 100).size, 2);
}

#[test]
fn obstacle_gap_center_is_inside_the_band() {
    for score in 0..20 {
        let ob = Obstacle::new(80, score);
        assert_eq!(ob.x, 80);
        assert!(ob.gap_y >= 10);
        assert!(ob.gap_y < 40);
    }
}

#[test]
fn hit_requires_matching_column_and_row_outside_gap() {
    let ob = Obstacle {
        x: 10,
        gap_y: 25,
        size: 4,
    };
    let at = |x: i32, y_tenths: i32| Player {
        x,
        y: y_tenths,
        velocity: 0,
        frame: 0,
    };
    // Row 22 is above the gap [23, 27]: hit.
    assert!(ob.hit_obstacle(&at(10, 220)));
    // Rows 23 and 27 are the edges of the gap: no hit.
    assert!(!ob.hit_obstacle(&at(10, 230)));
    assert!(!ob.hit_obstacle(&at(10, 270)));
    // Row 28 is below the gap: hit.
    assert!(ob.hit_obstacle(&at(10, 280)));
    // Any other column misses, whatever the row.
    assert!(!ob.hit_obstacle(&at(9, 0)));
    assert!(!ob.hit_obstacle(&at(11, 490)));
}

#[test]
fn screen_column_is_relative_to_the_player() {
    let ob = Obstacle {
        x: 100,
        gap_y: 25,
        size: 10,
    };
    assert_eq!(ob.screen_column(30), 70);
    assert_eq!(ob.screen_column(100), 0);
}

#[test]
fn bar_rows_cover_everything_outside_the_gap() {
    let ob = Obstacle {
        x: 10,
        gap_y: 25,
        size: 4,
    };
    let above = ob.rows_above_gap();
    assert_eq!(above.len(), 23);
    for (i, row) in above.iter().enumerate() {
        assert_eq!(*row, i as i32);
    }
    let below = ob.rows_below_gap();
    assert_eq!(below.len(), 23);
    assert_eq!(below[0], 27);
    assert_eq!(below[22], 49);
}

#[test]
fn menu_play_action_starts_a_round() {
    let mut s = State::new();
    assert_eq!(s.mode, GameMode::Menu);
    s.tick(Some(Action::Play), 0);
    assert_eq!(s.mode, GameMode::Playing);
    assert_eq!(s.score, 0);
    assert_eq!(s.player.x, 5);
    assert_eq!(s.player.y, 250);
    assert_eq!(s.player.velocity, 0);
    assert_eq!(s.frame_time, 0);
    assert_eq!(s.obstacle.x, 80);
    assert_eq!(s.obstacle.size, 10);
}

#[test]
fn menu_ignores_the_flap_action() {
    let mut s = State::new();
    s.tick(Some(Action::Flap), 0);
    assert_eq!(s.mode, GameMode::Menu);
    assert_eq!(s.score, 0);
    assert!(!s.quitting);
}

#[test]
fn quit_action_raises_the_quitting_flag() {
    let mut s = State::new();
    s.tick(Some(Action::Quit), 0);
    assert_eq!(s.mode, GameMode::Menu);
    assert!(s.quitting);
}

#[test]
fn frame_time_accumulates_until_one_step_fires() {
    let mut s = State::new();
    s.tick(Some(Action::Play), 0);
    s.tick(None, 30);
    assert_eq!(s.frame_time, 30);
    assert_eq!(s.player.x, 5);
    s.tick(None, 30);
    assert_eq!(s.frame_time, 60);
    assert_eq!(s.player.x, 5);
    // 60 + 30 crosses the 75 ms threshold: exactly one physics step fires.
    s.tick(None, 30);
    assert_eq!(s.frame_time, 0);
    assert_eq!(s.player.x, 6);
    assert_eq!(s.player.velocity, 4);
    assert_eq!(s.player.y, 254);
    assert!(s.frame_time < 75);
}

#[test]
fn physics_step_fires_only_past_the_threshold() {
    let mut s = State::new();
    s.tick(Some(Action::Play), 0);
    // Exactly 75 ms accumulated does not yet exceed the threshold.
    s.tick(None, 75);
    assert_eq!(s.frame_time, 75);
    assert_eq!(s.player.x, 5);
    s.tick(None, 1);
    assert_eq!(s.frame_time, 0);
    assert_eq!(s.player.x, 6);
}

#[test]
fn flap_is_not_gated_by_the_physics_threshold() {
    let mut s = State::new();
    s.tick(Some(Action::Play), 0);
    s.tick(Some(Action::Flap), 10);
    assert_eq!(s.frame_time, 10);
    assert_eq!(s.player.velocity, -20);
    // No physics step fired, so the height is untouched.
    assert_eq!(s.player.y, 250);
}

#[test]
fn passing_the_obstacle_scores_and_rebuilds_it() {
    let player = Player {
        x: 79,
        y: 250,
        velocity: 0,
        frame: 0,
    };
    let obstacle = Obstacle {
        x: 79,
        gap_y: 25,
        size: 10,
    };
    let mut s = playing_state(player, obstacle, 0);
    assert!(s.tick_ready(76));
    s.tick(None, 76);
    assert_eq!(s.player.x, 80);
    assert_eq!(s.score, 1);
    assert_eq!(s.obstacle.x, 160);
    assert_eq!(s.obstacle.size, 9);
    assert_eq!(s.mode, GameMode::Playing);
}

#[test]
fn falling_past_the_screen_ends_the_game() {
    let player = Player {
        x: 5,
        y: 505,
        velocity: 20,
        frame: 0,
    };
    let obstacle = Obstacle {
        x: 80,
        gap_y: 25,
        size: 10,
    };
    let mut s = playing_state(player, obstacle, 0);
    assert!(s.tick_ready(76));
    s.tick(None, 76);
    // Row 52 exceeds the screen height of 50.
    assert_eq!(s.player.y, 525);
    assert_eq!(s.mode, GameMode::End);
}

#[test]
fn colliding_with_the_bar_ends_the_game() {
    let player = Player {
        x: 9,
        y: 10,
        velocity: 0,
        frame: 0,
    };
    let obstacle = Obstacle {
        x: 10,
        gap_y: 25,
        size: 4,
    };
    let mut s = playing_state(player, obstacle, 0);
    s.tick(None, 76);
    // The player reaches the obstacle's column at row 1, above the gap.
    assert_eq!(s.player.x, 10);
    assert_eq!(s.mode, GameMode::End);
}

#[test]
fn staying_inside_the_gap_does_not_end_the_game() {
    let player = Player {
        x: 9,
        y: 250,
        velocity: 0,
        frame: 0,
    };
    let obstacle = Obstacle {
        x: 10,
        gap_y: 25,
        size: 4,
    };
    let mut s = playing_state(player, obstacle, 0);
    s.tick(None, 76);
    assert_eq!(s.player.x, 10);
    assert_eq!(s.mode, GameMode::Playing);
}

#[test]
fn end_play_action_resets_and_restarts() {
    let player = Player {
        x: 200,
        y: 505,
        velocity: 20,
        frame: 3,
    };
    let obstacle = Obstacle {
        x: 240,
        gap_y: 25,
        size: 3,
    };
    let mut s = State {
        player,
        frame_time: 40,
        obstacle,
        score: 7,
        mode: GameMode::End,
        quitting: false,
    };
    s.tick(Some(Action::Play), 0);
    assert_eq!(s.mode, GameMode::Playing);
    assert_eq!(s.score, 0);
    assert_eq!(s.frame_time, 0);
    assert_eq!(s.player.x, 5);
    assert_eq!(s.player.y, 250);
    assert_eq!(s.player.velocity, 0);
    assert_eq!(s.obstacle.x, 80);
    assert_eq!(s.obstacle.size, 10);
}

#[test]
fn tick_ready_accepts_fresh_states_and_rejects_broken_ones() {
    let s = State::new();
    assert!(s.tick_ready(16));
    let mut broken = State::new();
    // A velocity that is not a whole number of gravity increments.
    broken.player.velocity = 3;
    assert!(!broken.tick_ready(16));
    let mut too_far = State::new();
    too_far.player.x = i32::MAX - 40;
    assert!(!too_far.tick_ready(16));
}
