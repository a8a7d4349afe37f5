use ping_pong::{
    decimal_string, score_text, FrameClock, HeldKeys, MainState, Player, MARGIN, PADDLE_HEIGHT,
    PLAYER_SPEED, SCALE, STEP_TICKS, WINDOW_HEIGHT,
};

const NONE: HeldKeys = HeldKeys { w: false, s: false, up: false, down: false };

fn top() -> u64 {
    MARGIN * SCALE
}

fn bottom(screen_h: u64) -> u64 {
    (screen_h - PADDLE_HEIGHT - MARGIN) * SCALE
}

#[test]
fn players_start_at_fixed_positions() {
    let state = MainState::new();
    assert_eq!(state.player.x, 25 * SCALE);
    assert_eq!(state.player.y, 10 * SCALE);
    assert_eq!(state.opponent.x, (1000 - 10 - 25) * SCALE);
    assert_eq!(state.opponent.y, 10 * SCALE);
    assert_eq!(state.player.points, 0);
    assert_eq!(state.opponent.points, 0);
}

#[test]
fn score_text_three_five() {
    assert_eq!(score_text(3, 5), "3 - 5");
}

#[test]
fn score_text_of_new_game() {
    assert_eq!(MainState::new().score_text(), "0 - 0");
}

#[test]
fn score_text_of_state_reads_both_scores() {
    let mut state = MainState::new();
    state.player.points = 12;
    state.opponent.points = 7;
    assert_eq!(state.score_text(), "12 - 7");
}

#[test]
fn decimal_string_edges() {
    assert_eq!(decimal_string(0), "0");
    assert_eq!(decimal_string(9), "9");
    assert_eq!(decimal_string(10), "10");
    assert_eq!(decimal_string(305), "305");
    assert_eq!(decimal_string(65535), "65535");
}

#[test]
fn up_key_moves_up_by_speed_times_time() {
    let mut p = Player::new(0, 300 * SCALE);
    let keys = HeldKeys { w: true, ..NONE };
    p.handle_input(keys, STEP_TICKS, 700, false);
    assert_eq!(p.y, 300 * SCALE - PLAYER_SPEED * STEP_TICKS);
    // 700 units per second for a seventy-fifth of a second
    assert_eq!(p.y * 3, 300 * SCALE * 3 - 28 * SCALE);
}

#[test]
fn down_key_moves_down_by_speed_times_time() {
    let mut p = Player::new(0, 300 * SCALE);
    let keys = HeldKeys { down: true, ..NONE };
    p.handle_input(keys, SCALE / 10, 700, true);
    assert_eq!(p.y, 370 * SCALE);
}

#[test]
fn keys_of_the_other_scheme_are_ignored() {
    let mut p = Player::new(0, 300 * SCALE);
    let keys = HeldKeys { up: true, down: false, w: false, s: true };
    p.handle_input(keys, SCALE / 10, 700, false);
    assert_eq!(p.y, 370 * SCALE);
    p.handle_input(keys, SCALE / 10, 700, true);
    assert_eq!(p.y, 300 * SCALE);
}

#[test]
fn neither_or_both_keys_hold_still() {
    let mut p = Player::new(5, 300 * SCALE);
    p.handle_input(NONE, SCALE, 700, false);
    assert_eq!(p.y, 300 * SCALE);
    let both = HeldKeys { w: true, s: true, up: true, down: true };
    p.handle_input(both, SCALE, 700, false);
    assert_eq!(p.y, 300 * SCALE);
    p.handle_input(both, u64::MAX, 700, true);
    assert_eq!(p.y, 300 * SCALE);
    assert_eq!(p.x, 5);
}

#[test]
fn long_press_is_clamped_to_the_band() {
    let mut p = Player::new(0, 300 * SCALE);
    p.handle_input(HeldKeys { w: true, ..NONE }, u64::MAX, 700, false);
    assert_eq!(p.y, top());
    p.handle_input(HeldKeys { s: true, ..NONE }, u64::MAX, 700, false);
    assert_eq!(p.y, bottom(700));
    p.handle_input(HeldKeys { s: true, ..NONE }, SCALE, 700, false);
    assert_eq!(p.y, bottom(700));
}

#[test]
fn band_follows_the_screen_height() {
    let mut p = Player::new(0, 300 * SCALE);
    p.handle_input(HeldKeys { s: true, ..NONE }, SCALE, 500, false);
    assert_eq!(p.y, bottom(500));
    let mut q = Player::new(0, 300 * SCALE);
    q.handle_input(NONE, 0, 120, false);
    assert_eq!(q.y, top());
    assert_eq!(bottom(120), top());
}

#[test]
fn out_of_band_start_is_brought_back() {
    let mut p = Player::new(0, 0);
    p.handle_input(NONE, 0, WINDOW_HEIGHT as u32, false);
    assert_eq!(p.y, top());
}

#[test]
fn clock_counts_whole_steps() {
    let mut c = FrameClock::new();
    assert_eq!(c.advance(13_333_333), 0);
    assert_eq!(c.advance(1), 1);
    assert_eq!(c.advance(1_000_000_000), 75);
    assert_eq!(c.advance(0), 0);
}

#[test]
fn clock_steps_do_not_depend_on_split() {
    let splits: [&[u64]; 4] = [
        &[1_000_000_000],
        &[1, 999_999_999],
        &[16_000_000; 62],
        &[7_000_000, 5_000_000, 300_000_000, 688_000_000],
    ];
    for parts in splits.iter() {
        let mut c = FrameClock::new();
        let mut total: u64 = 0;
        let mut elapsed: u64 = 0;
        for &p in parts.iter() {
            total += c.advance(p);
            elapsed += p;
        }
        assert_eq!(total, elapsed * 75 / 1_000_000_000);
    }
    let mut c = FrameClock::new();
    let mut total: u64 = 0;
    for _ in 0..1000 {
        total += c.advance(3_000_001);
    }
    assert_eq!(total, 3_000_001_000 * 75 / 1_000_000_000);
}

#[test]
fn clock_takes_the_largest_interval() {
    let mut c = FrameClock::new();
    assert_eq!(c.advance(u64::MAX), ((u64::MAX as u128) * 75 / 1_000_000_000) as u64);
}

#[test]
fn update_moves_each_paddle_by_its_own_keys() {
    let mut state = MainState::new();
    let keys = HeldKeys { w: false, s: true, up: true, down: false };
    let steps = state.update(1_000_000_000 / 5, keys, 700);
    assert_eq!(steps, 15);
    assert_eq!(state.player.y, top() + 15 * PLAYER_SPEED * STEP_TICKS);
    assert_eq!(state.player.y, 150 * SCALE);
    assert_eq!(state.opponent.y, top());
    assert_eq!(state.player.x, 25 * SCALE);
}

#[test]
fn update_without_a_due_step_moves_nothing() {
    let mut state = MainState::new();
    let keys = HeldKeys { w: false, s: true, up: false, down: true };
    assert_eq!(state.update(10_000_000, keys, 700), 0);
    assert_eq!(state.player.y, top());
    assert_eq!(state.opponent.y, top());
    assert_eq!(state.update(10_000_000, keys, 700), 1);
    assert_eq!(state.player.y, top() + PLAYER_SPEED * STEP_TICKS);
    assert_eq!(state.opponent.y, top() + PLAYER_SPEED * STEP_TICKS);
}

#[test]
fn long_update_rests_at_the_bottom() {
    let mut state = MainState::new();
    let keys = HeldKeys { w: false, s: true, up: false, down: false };
    let steps = state.update(10_000_000_000, keys, 700);
    assert_eq!(steps, 750);
    assert_eq!(state.player.y, bottom(700));
    assert_eq!(state.opponent.y, top());
}
