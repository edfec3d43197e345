use bracket_lib::prelude::RandomNumberGenerator;
use flappy_dragon::obstacle::Obstacle;
use flappy_dragon::player::Player;
use flappy_dragon::render::{Color, RenderCommand};

fn player_at(x: i32, y: i32) -> Player {
    Player { x, y, x_velocity: 5, y_velocity: 0 }
}

fn wall(col: i32, row: i32) -> RenderCommand {
    RenderCommand::SetCell { col, row, fg: Color::Red, bg: Color::Black, glyph: 124 }
}

#[test]
fn gap_narrows_by_one_row_per_point() {
    for (score, size) in [(0, 20), (1, 19), (5, 15), (17, 3), (18, 2)] {
        assert_eq!(Obstacle::with_gap(80, score, 25).gap_size, size, "score {score}");
    }
}

#[test]
fn gap_never_narrows_below_two_rows() {
    for score in [18, 19, 20, 21, 100, i32::MAX] {
        assert_eq!(Obstacle::with_gap(80, score, 25).gap_size, 2, "score {score}");
    }
}

#[test]
fn with_gap_keeps_column_and_row() {
    assert_eq!(Obstacle::with_gap(165, 4, 31), Obstacle { x: 165, gap_y: 31, gap_size: 16 });
    assert_eq!(Obstacle::with_gap(-3, 0, 7), Obstacle { x: -3, gap_y: 7, gap_size: 20 });
}

#[test]
fn generated_gap_is_centered_in_rows_10_to_39() {
    let mut rng = RandomNumberGenerator::seeded(1);
    for score in 0..500 {
        let o = Obstacle::new(80 + score, score, &mut rng);
        assert!((10..40).contains(&o.gap_y), "row {}", o.gap_y);
        assert_eq!(o.gap_size, i32::max(2, 20 - score));
        assert_eq!(o.x, 80 + score);
    }
}

#[test]
fn generated_gaps_vary() {
    let mut rng = RandomNumberGenerator::seeded(7);
    let rows: Vec<i32> = (0..200).map(|_| Obstacle::new(80, 0, &mut rng).gap_y).collect();
    let lowest = *rows.iter().min().unwrap();
    let highest = *rows.iter().max().unwrap();
    assert!(lowest < highest);
    assert!(lowest >= 10 && highest < 40);
    assert!(rows.iter().any(|&row| row != 10));
}

#[test]
fn generation_is_determined_by_the_seed() {
    let mut first = RandomNumberGenerator::seeded(42);
    let mut second = RandomNumberGenerator::seeded(42);
    for score in 0..50 {
        assert_eq!(Obstacle::new(80, score, &mut first), Obstacle::new(80, score, &mut second));
    }
}

#[test]
fn collision_scenario() {
    let o = Obstacle { x: 40, gap_y: 20, gap_size: 10 };
    assert!(o.lethal_interaction(&player_at(40, 30)));
    assert!(!o.lethal_interaction(&player_at(40, 25)));
}

#[test]
fn collision_only_in_the_column_of_the_wall() {
    let o = Obstacle { x: 40, gap_y: 20, gap_size: 10 };
    assert!(!o.lethal_interaction(&player_at(39, 30)));
    assert!(!o.lethal_interaction(&player_at(41, 30)));
    assert!(!o.lethal_interaction(&player_at(39, 0)));
    assert!(o.lethal_interaction(&player_at(40, 0)));
}

#[test]
fn collision_bounds_are_inclusive_of_the_gap() {
    let o = Obstacle { x: 40, gap_y: 20, gap_size: 10 };
    assert!(o.lethal_interaction(&player_at(40, 14)));
    assert!(!o.lethal_interaction(&player_at(40, 15)));
    assert!(!o.lethal_interaction(&player_at(40, 20)));
    assert!(!o.lethal_interaction(&player_at(40, 25)));
    assert!(o.lethal_interaction(&player_at(40, 26)));
}

#[test]
fn odd_gap_uses_truncated_half() {
    let o = Obstacle { x: 40, gap_y: 20, gap_size: 5 };
    let safe: Vec<i32> = (0..50).filter(|&y| !o.lethal_interaction(&player_at(40, y))).collect();
    assert_eq!(safe, vec![18, 19, 20, 21, 22]);
}

#[test]
fn narrowest_gap_spares_three_rows() {
    let o = Obstacle { x: 40, gap_y: 20, gap_size: 2 };
    let safe: Vec<i32> = (0..50).filter(|&y| !o.lethal_interaction(&player_at(40, y))).collect();
    assert_eq!(safe, vec![19, 20, 21]);
}

#[test]
fn collision_is_total_on_extreme_values() {
    let o = Obstacle { x: 0, gap_y: i32::MAX, gap_size: i32::MAX };
    assert!(!o.lethal_interaction(&player_at(0, i32::MAX)));
    let o = Obstacle { x: 0, gap_y: i32::MIN, gap_size: i32::MAX };
    assert!(o.lethal_interaction(&player_at(0, 0)));
    let o = Obstacle { x: 0, gap_y: 0, gap_size: -5 };
    assert!(o.lethal_interaction(&player_at(0, 0)));
}

#[test]
fn wall_is_drawn_above_and_below_the_gap() {
    let o = Obstacle { x: 50, gap_y: 20, gap_size: 10 };
    let commands = o.render(10);
    let mut expected = Vec::new();
    for row in 0..15 {
        expected.push(wall(40, row));
    }
    for row in 25..50 {
        expected.push(wall(40, row));
    }
    assert_eq!(commands, expected);
}

#[test]
fn odd_gap_is_drawn_with_truncated_half() {
    let o = Obstacle { x: 12, gap_y: 30, gap_size: 5 };
    let commands = o.render(12);
    assert_eq!(commands.len(), 28 + 18);
    assert_eq!(commands[27], wall(0, 27));
    assert_eq!(commands[28], wall(0, 32));
    assert_eq!(commands[45], wall(0, 49));
}

#[test]
fn widest_gap_at_the_top_leaves_no_upper_wall() {
    let o = Obstacle { x: 80, gap_y: 10, gap_size: 20 };
    let commands = o.render(5);
    assert_eq!(commands.len(), 30);
    assert_eq!(commands[0], wall(75, 20));
    assert_eq!(commands[29], wall(75, 49));
}

#[test]
fn passed_wall_is_drawn_left_of_the_screen() {
    let o = Obstacle { x: 84, gap_y: 39, gap_size: 2 };
    let commands = o.render(85);
    assert_eq!(commands.len(), 38 + 10);
    assert!(commands.iter().all(|c| matches!(c, RenderCommand::SetCell { col: -1, .. })));
}

#[test]
fn gap_outside_the_screen_is_drawn_as_it_is() {
    let o = Obstacle { x: 3, gap_y: -4, gap_size: 4 };
    let commands = o.render(0);
    assert_eq!(commands.len(), 52);
    assert_eq!(commands[0], wall(3, -2));
    let o = Obstacle { x: 3, gap_y: 60, gap_size: 4 };
    let commands = o.render(0);
    assert_eq!(commands.len(), 58);
    assert_eq!(commands[57], wall(3, 57));
}
