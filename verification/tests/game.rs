use achtung::game::{
    Direction, FrameEvent, Game, Player, StartPosition, translated,
};

fn player(name: &str, cells: &[(i32, i32)], direction: Direction) -> Player {
    let mut p = Player::new(name.to_string(), (cells[0], direction));
    for c in &cells[1..] {
        p.line.push(*c);
    }
    p
}

#[test]
fn translated_moves_one_cell() {
    assert_eq!(translated((3, 4), Direction::Up), (3, 3));
    assert_eq!(translated((3, 4), Direction::Left), (2, 4));
    assert_eq!(translated((3, 4), Direction::Down), (3, 5));
    assert_eq!(translated((3, 4), Direction::Right), (4, 4));
}

#[test]
fn start_positions_sit_on_the_edges_pointing_inward() {
    let size = (35, 15);
    assert_eq!(StartPosition::North.resolve(size), ((17, 0), Direction::Down));
    assert_eq!(StartPosition::West.resolve(size), ((0, 7), Direction::Right));
    assert_eq!(StartPosition::South.resolve(size), ((17, 14), Direction::Up));
    assert_eq!(StartPosition::East.resolve(size), ((34, 7), Direction::Left));
    assert_eq!(StartPosition::East.direction(), Direction::Left);
    assert_eq!(StartPosition::West.direction(), Direction::Right);
}

#[test]
fn a_step_appends_the_next_cell() {
    let mut game = Game::new(
        (10, 10),
        vec![player("P1", &[(4, 4)], Direction::Right)],
        1,
    );
    let events = game.run_frame();
    assert_eq!(game.players[0].line, vec![(4, 4), (5, 4)]);
    assert!(!game.players[0].crashed);
    assert_eq!(game.frame, 2);
    // A single surviving player decides the match at once.
    assert_eq!(events, vec![FrameEvent::PlayerWon(0)]);
    assert!(game.game_over);
}

#[test]
fn scenario_three_frames_to_the_right_wall() {
    // Interior columns of a four-cell-wide arena are 1 and 2; the head
    // crashes the frame it would stand on column 3.
    let mut game = Game::new(
        (4, 7),
        vec![player("P1", &[(1, 3)], Direction::Right)],
        1,
    );

    let events = game.run_frame();
    assert_eq!(game.players[0].line, vec![(1, 3), (2, 3)]);
    assert!(!game.players[0].crashed);
    assert_eq!(events, vec![FrameEvent::PlayerWon(0)]);

    let events = game.run_frame();
    assert_eq!(game.players[0].line, vec![(1, 3), (2, 3), (3, 3)]);
    assert!(game.players[0].crashed);
    assert_eq!(
        events,
        vec![FrameEvent::PlayerCrashed(0), FrameEvent::EveryoneCrashed]
    );

    let events = game.run_frame();
    assert_eq!(game.players[0].line, vec![(1, 3), (2, 3), (3, 3)]);
    assert_eq!(events, vec![FrameEvent::EveryoneCrashed]);
    assert_eq!(game.frame, 4);
}

#[test]
fn reentering_own_trail_crashes() {
    // The head walks a loop and lands on its own oldest cell.
    let mut game = Game::new(
        (12, 12),
        vec![
            player("P1", &[(5, 5), (6, 5), (6, 6), (5, 6)], Direction::Up),
            player("P2", &[(9, 9)], Direction::Up),
        ],
        1,
    );
    let events = game.run_frame();
    assert!(game.players[0].crashed);
    assert_eq!(events, vec![FrameEvent::PlayerCrashed(0), FrameEvent::PlayerWon(1)]);
}

#[test]
fn standing_on_the_just_claimed_cell_is_not_a_crash() {
    // After a plain step the head always lies on its own trail's last cell;
    // that alone never crashes it.
    let mut game = Game::new(
        (12, 12),
        vec![
            player("P1", &[(5, 5), (6, 5)], Direction::Right),
            player("P2", &[(9, 9)], Direction::Up),
        ],
        1,
    );
    game.run_frame();
    assert!(!game.players[0].crashed);
    assert_eq!(game.players[0].line, vec![(5, 5), (6, 5), (7, 5)]);
}

#[test]
fn hitting_another_trail_crashes() {
    let mut game = Game::new(
        (12, 12),
        vec![
            player("P1", &[(4, 5)], Direction::Right),
            player("P2", &[(5, 4), (5, 5), (5, 6)], Direction::Down),
        ],
        1,
    );
    let events = game.run_frame();
    assert!(game.players[0].crashed);
    assert!(!game.players[1].crashed);
    assert_eq!(events, vec![FrameEvent::PlayerCrashed(0), FrameEvent::PlayerWon(1)]);
}

#[test]
fn head_on_collision_crashes_both() {
    // Both heads claim cells on the other's trail in the same frame.
    let mut game = Game::new(
        (12, 12),
        vec![
            player("P1", &[(5, 5)], Direction::Right),
            player("P2", &[(6, 5)], Direction::Left),
        ],
        1,
    );
    let events = game.run_frame();
    assert!(game.players[0].crashed);
    assert!(game.players[1].crashed);
    assert_eq!(
        events,
        vec![
            FrameEvent::PlayerCrashed(0),
            FrameEvent::PlayerCrashed(1),
            FrameEvent::EveryoneCrashed,
        ]
    );
    assert!(game.game_over);
}

#[test]
fn crashed_players_stay_as_obstacles_and_do_not_move() {
    let mut game = Game::new(
        (12, 12),
        vec![
            player("P1", &[(1, 1)], Direction::Up),
            player("P2", &[(5, 5)], Direction::Right),
            player("P3", &[(3, 8)], Direction::Right),
        ],
        1,
    );
    let events = game.run_frame();
    assert!(game.players[0].crashed);
    assert_eq!(events, vec![FrameEvent::PlayerCrashed(0)]);
    assert!(!game.game_over);

    let trail_before = game.players[0].line.clone();
    game.run_frame();
    assert_eq!(game.players[0].line, trail_before);
}

#[test]
fn leaving_the_interior_on_any_side_crashes() {
    for (start, direction) in [
        ((1, 5), Direction::Left),
        ((8, 5), Direction::Right),
        ((5, 1), Direction::Up),
        ((5, 8), Direction::Down),
    ] {
        let mut game = Game::new(
            (10, 10),
            vec![player("P1", &[start], direction)],
            1,
        );
        let events = game.run_frame();
        assert!(game.players[0].crashed, "start {:?} {:?}", start, direction);
        assert_eq!(
            events,
            vec![FrameEvent::PlayerCrashed(0), FrameEvent::EveryoneCrashed]
        );
    }
}

#[test]
fn is_vacant_sees_borders_and_trails() {
    let game = Game::new(
        (10, 10),
        vec![player("P1", &[(4, 4), (5, 4)], Direction::Right)],
        1,
    );
    assert!(game.is_vacant((2, 2)));
    assert!(!game.is_vacant((4, 4)));
    assert!(!game.is_vacant((5, 4)));
    assert!(!game.is_vacant((0, 5)));
    assert!(!game.is_vacant((9, 5)));
    assert!(!game.is_vacant((5, 0)));
}

#[test]
fn player_accessors_report_the_trail_head() {
    let mut p = player("P1", &[(4, 4), (5, 4)], Direction::Down);
    assert_eq!(p.head(), (5, 4));
    assert_eq!(p.next_position(), (5, 5));
    p.advance_one_step();
    assert_eq!(p.head(), (5, 5));
    assert_eq!(p.line, vec![(4, 4), (5, 4), (5, 5)]);
}
