use lifegame::Game;
use lifegame::{is_alive, neighbors};

fn cells_of(pattern: &[&str]) -> Vec<Vec<bool>> {
    pattern
        .iter()
        .map(|row| row.chars().map(|ch| ch == '#').collect())
        .collect()
}

fn game_of(pattern: &[&str]) -> Game {
    Game::from_cells(cells_of(pattern)).unwrap()
}

fn lines_of(pattern: &[&str]) -> Vec<String> {
    pattern
        .iter()
        .map(|row| {
            row.chars()
                .map(|ch| if ch == '#' { '█' } else { ' ' })
                .collect()
        })
        .collect()
}

#[test]
fn rule_live_cell_survives_on_two_or_three() {
    for n in 0..9 {
        assert_eq!(is_alive(true, n), n == 2 || n == 3);
    }
}

#[test]
fn rule_dead_cell_births_on_exactly_three() {
    for n in 0..9 {
        assert_eq!(is_alive(false, n), n == 3);
    }
}

#[test]
fn neighbor_count_in_the_interior() {
    let cells = cells_of(&["###", "# #", "###"]);
    assert_eq!(neighbors(1, 1, &cells), 8);
    let cells = cells_of(&["   ", " # ", "   "]);
    assert_eq!(neighbors(1, 1, &cells), 0);
    assert_eq!(neighbors(0, 0, &cells), 1);
}

#[test]
fn corner_counts_at_most_three() {
    let cells = cells_of(&["###", "###", "###"]);
    assert_eq!(neighbors(0, 0, &cells), 3);
    assert_eq!(neighbors(0, 2, &cells), 3);
    assert_eq!(neighbors(2, 0, &cells), 3);
    assert_eq!(neighbors(2, 2, &cells), 3);
    assert_eq!(neighbors(0, 1, &cells), 5);
    assert_eq!(neighbors(1, 1, &cells), 8);
}

#[test]
fn edges_never_wrap() {
    // A live column on the far right contributes nothing to the far left.
    let cells = cells_of(&["  #", "  #", "  #"]);
    assert_eq!(neighbors(1, 0, &cells), 0);
    // A single cell alone in its grid has no neighbors at all.
    let cells = cells_of(&["#"]);
    assert_eq!(neighbors(0, 0, &cells), 0);
}

#[test]
fn positions_outside_the_grid_count_nothing() {
    let cells = cells_of(&["##", "##"]);
    assert_eq!(neighbors(5, 5, &cells), 0);
    assert_eq!(neighbors(2, 0, &cells), 2);
}

#[test]
fn lone_cell_dies_of_underpopulation() {
    let mut game = game_of(&["   ", " # ", "   "]);
    game.update();
    assert_eq!(game.render(), lines_of(&["   ", "   ", "   "]));
}

#[test]
fn block_is_stable() {
    let start = ["    ", " ## ", " ## ", "    "];
    let mut game = game_of(&start);
    game.update();
    assert_eq!(game.render(), lines_of(&start));
    game.update();
    assert_eq!(game.render(), lines_of(&start));
}

#[test]
fn blinker_oscillates() {
    let horizontal = ["     ", " ### ", "     ", "     ", "     "];
    let vertical = ["  #  ", "  #  ", "  #  ", "     ", "     "];
    let mut game = game_of(&horizontal);
    game.update();
    assert_eq!(game.render(), lines_of(&vertical));
    game.update();
    assert_eq!(game.render(), lines_of(&horizontal));
}

#[test]
fn update_is_deterministic() {
    let pattern = ["#  # ", " ##  ", "#  ##", " ### "];
    let mut a = game_of(&pattern);
    let mut b = game_of(&pattern);
    a.update();
    b.update();
    assert_eq!(a.render(), b.render());
    a.update();
    b.update();
    assert_eq!(a.render(), b.render());
}

#[test]
fn all_dead_grid_renders_as_spaces() {
    let game = game_of(&["      ", "      ", "      ", "      "]);
    let lines = game.render();
    assert_eq!(lines.len(), 4);
    for line in lines {
        assert_eq!(line, "      ");
    }
}

#[test]
fn render_uses_one_glyph_per_cell() {
    let game = game_of(&["# #", " # "]);
    assert_eq!(game.render(), vec!["█ █".to_string(), " █ ".to_string()]);
}

#[test]
fn from_cells_rejects_ragged_rows() {
    assert!(Game::from_cells(vec![vec![true, false], vec![true]]).is_none());
    assert!(Game::from_cells(vec![vec![], vec![true]]).is_none());
}

#[test]
fn from_cells_accepts_rectangles() {
    assert!(Game::from_cells(vec![]).is_some());
    assert!(Game::from_cells(vec![vec![true, false], vec![false, true]]).is_some());
}

#[test]
fn empty_grid_stays_empty() {
    let mut game = Game::from_cells(vec![]).unwrap();
    game.update();
    assert_eq!(game.render(), Vec::<String>::new());
}

#[test]
fn random_population_fills_the_requested_shape() {
    let game = Game::new(3, 7);
    let lines = game.render();
    assert_eq!(lines.len(), 3);
    for line in lines {
        assert_eq!(line.chars().count(), 7);
        for ch in line.chars() {
            assert!(ch == '█' || ch == ' ');
        }
    }
}
