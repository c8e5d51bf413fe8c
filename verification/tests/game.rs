use snake::{initialize_game, draw_border, Direction, DrawCommand, FoodError, GameState, Glyph};

fn game(cells: &[(u16, u16)], heading: Direction, food: (u16, u16)) -> GameState {
    GameState::from_parts(cells.to_vec(), heading, food).unwrap()
}

fn segment(cell: (u16, u16)) -> DrawCommand {
    DrawCommand { x: cell.0, y: cell.1, glyph: Glyph::Blocks(2) }
}

fn blank(cell: (u16, u16)) -> DrawCommand {
    DrawCommand { x: cell.0, y: cell.1, glyph: Glyph::Blank }
}

#[test]
fn new_game_starts_in_the_middle_heading_right() {
    let (state, draws) = GameState::new((100, 20)).unwrap();
    assert_eq!(state.snake(), vec![(50, 10)]);
    assert_eq!(state.direction(), Direction::Right);
    assert!(state.in_play());
    let food = state.food();
    assert_ne!(food, (50, 10));
    assert_eq!(food.0 % 2, 0);
    assert!(2 <= food.0 && food.0 <= 96);
    assert!(1 <= food.1 && food.1 <= 18);
    assert_eq!(draws.len(), 2);
    assert_eq!(draws[0], segment((50, 10)));
    assert_eq!((draws[1].x, draws[1].y), food);
    assert!(matches!(draws[1].glyph, Glyph::Food(_)));
}

#[test]
fn new_game_rounds_the_middle_down() {
    let (state, _) = GameState::new((81, 25)).unwrap();
    assert_eq!(state.snake(), vec![(40, 12)]);
    let (state, _) = GameState::new((6, 3)).unwrap();
    assert_eq!(state.snake(), vec![(3, 1)]);
    assert_eq!(state.food(), (1, 1));
}

#[test]
fn new_game_needs_room_for_food() {
    assert_eq!(GameState::new((5, 20)).err(), Some(FoodError::NoInterior));
    assert_eq!(GameState::new((100, 2)).err(), Some(FoodError::NoInterior));
    assert_eq!(GameState::new((0, 0)).err(), Some(FoodError::NoInterior));
    assert_eq!(GameState::new((7, 3)).err(), Some(FoodError::BoardFull));
}

#[test]
fn initialize_game_draws_the_frame_first() {
    let (state, draws) = initialize_game(100, 20).unwrap();
    let frame = draw_border(100, 20);
    assert_eq!(draws.len(), frame.len() + 2);
    assert_eq!(draws[..frame.len()], frame[..]);
    assert_eq!(draws[frame.len()], segment((50, 10)));
    assert_eq!((draws[frame.len() + 1].x, draws[frame.len() + 1].y), state.food());
    assert!(matches!(draws[frame.len() + 1].glyph, Glyph::Food(_)));
    assert_eq!(state.snake(), vec![(50, 10)]);
    assert_eq!(state.direction(), Direction::Right);
}

#[test]
fn initialize_game_needs_room_for_food() {
    assert_eq!(initialize_game(5, 20).err(), Some(FoodError::NoInterior));
    assert_eq!(initialize_game(0, 0).err(), Some(FoodError::NoInterior));
    assert_eq!(initialize_game(1, 0).err(), Some(FoodError::NoInterior));
    assert_eq!(initialize_game(7, 3).err(), Some(FoodError::BoardFull));
}

#[test]
fn first_tick_from_the_center() {
    let (mut state, _) = GameState::new((100, 20)).unwrap();
    let tick = state.move_snake((100, 20)).unwrap();
    assert!(!tick.collided);
    let cells = state.snake();
    assert!(cells.len() >= 1);
    assert_eq!(cells[0], (52, 10));
}

#[test]
fn tick_without_food_moves_a_single_cell() {
    let mut state = game(&[(50, 10)], Direction::Right, (20, 5));
    let tick = state.move_snake((100, 20)).unwrap();
    assert!(!tick.collided);
    assert_eq!(state.snake(), vec![(52, 10)]);
    assert_eq!(state.food(), (20, 5));
    assert_eq!(state.direction(), Direction::Right);
    assert_eq!(tick.draws, vec![segment((52, 10)), blank((50, 10))]);
}

#[test]
fn tick_without_food_keeps_the_length() {
    let mut state = game(&[(20, 8), (18, 8), (18, 9), (18, 10)], Direction::Up, (30, 3));
    let tick = state.move_snake((100, 20)).unwrap();
    assert!(!tick.collided);
    assert_eq!(state.snake(), vec![(20, 7), (20, 8), (18, 8), (18, 9)]);
    assert_eq!(tick.draws, vec![segment((20, 7)), blank((18, 10))]);
    assert!(state.in_play());
}

#[test]
fn tick_in_each_direction() {
    for (heading, to) in [
        (Direction::Up, (50, 9)),
        (Direction::Down, (50, 11)),
        (Direction::Left, (48, 10)),
        (Direction::Right, (52, 10)),
    ] {
        let mut state = game(&[(50, 10)], heading, (20, 5));
        let tick = state.move_snake((100, 20)).unwrap();
        assert!(!tick.collided);
        assert_eq!(state.snake(), vec![to]);
    }
}

#[test]
fn wall_collision_just_inside_the_right_margin() {
    let mut state = game(&[(97, 10)], Direction::Right, (20, 5));
    let tick = state.move_snake((100, 20)).unwrap();
    assert!(tick.collided);
    assert_eq!(state.snake(), vec![(99, 10)]);
    assert_eq!(state.food(), (20, 5));

    let mut state = game(&[(97, 10)], Direction::Right, (21, 5));
    assert!(state.in_play());
    assert!(state.move_snake((100, 20)).unwrap().collided);
}

#[test]
fn wall_collision_on_each_side() {
    let mut state = game(&[(4, 10)], Direction::Left, (20, 5));
    assert!(state.move_snake((100, 20)).unwrap().collided);
    let mut state = game(&[(5, 10)], Direction::Left, (21, 5));
    assert!(!state.move_snake((100, 20)).unwrap().collided);

    let mut state = game(&[(96, 10)], Direction::Right, (20, 5));
    assert!(state.move_snake((100, 20)).unwrap().collided);
    let mut state = game(&[(95, 10)], Direction::Right, (21, 5));
    assert!(!state.move_snake((100, 20)).unwrap().collided);

    let mut state = game(&[(50, 1)], Direction::Up, (20, 5));
    assert!(state.move_snake((100, 20)).unwrap().collided);
    let mut state = game(&[(50, 2)], Direction::Up, (20, 5));
    assert!(!state.move_snake((100, 20)).unwrap().collided);

    let mut state = game(&[(50, 18)], Direction::Down, (20, 5));
    assert!(state.move_snake((100, 20)).unwrap().collided);
    let mut state = game(&[(50, 17)], Direction::Down, (20, 5));
    assert!(!state.move_snake((100, 20)).unwrap().collided);
}

#[test]
fn wall_follows_the_size_of_each_tick() {
    let mut state = game(&[(50, 10)], Direction::Right, (20, 5));
    assert!(!state.move_snake((100, 20)).unwrap().collided);
    assert!(state.move_snake((56, 20)).unwrap().collided);

    let mut state = game(&[(50, 10)], Direction::Down, (20, 5));
    assert!(state.move_snake((100, 12)).unwrap().collided);

    let mut state = game(&[(50, 10)], Direction::Down, (20, 5));
    assert!(state.move_snake((0, 0)).unwrap().collided);
}

#[test]
fn self_collision_of_a_four_segment_snake() {
    let mut state = game(&[(10, 5), (12, 5), (14, 5), (16, 5)], Direction::Right, (20, 5));
    let tick = state.move_snake((100, 20)).unwrap();
    assert!(tick.collided);
    assert_eq!(state.snake(), vec![(12, 5), (10, 5), (12, 5), (14, 5)]);
    assert!(!state.in_play());
}

#[test]
fn moving_onto_the_cell_that_the_tail_leaves_is_no_collision() {
    let mut state = game(&[(10, 5), (10, 6), (12, 6), (12, 5)], Direction::Right, (20, 5));
    let tick = state.move_snake((100, 20)).unwrap();
    assert!(!tick.collided);
    assert_eq!(state.snake(), vec![(12, 5), (10, 5), (10, 6), (12, 6)]);
}

#[test]
fn eating_grows_the_snake_and_moves_the_food() {
    let mut state = game(&[(18, 5)], Direction::Right, (20, 5));
    let tick = state.move_snake((100, 20)).unwrap();
    assert!(!tick.collided);
    let cells = state.snake();
    assert_eq!(cells, vec![(20, 5), (18, 5)]);
    let food = state.food();
    assert_ne!(food, (20, 5));
    assert!(!cells.contains(&food));
    assert_eq!(food.0 % 2, 0);
    assert!(2 <= food.0 && food.0 <= 96 && 1 <= food.1 && food.1 <= 18);
    assert_eq!(tick.draws.len(), 3);
    assert_eq!(tick.draws[0], segment((20, 5)));
    assert_eq!(tick.draws[1], segment((20, 5)));
    assert_eq!((tick.draws[2].x, tick.draws[2].y), food);
    assert!(matches!(tick.draws[2].glyph, Glyph::Food(_)));
    assert!(state.in_play());
}

#[test]
fn eating_keeps_the_whole_body() {
    let mut state = game(&[(18, 5), (16, 5), (14, 5)], Direction::Right, (20, 5));
    let tick = state.move_snake((100, 20)).unwrap();
    assert!(!tick.collided);
    assert_eq!(state.snake(), vec![(20, 5), (18, 5), (16, 5), (14, 5)]);
    assert!(!state.snake().contains(&state.food()));
}

#[test]
fn eating_into_the_wall_still_grows() {
    let mut state = game(&[(96, 5)], Direction::Right, (98, 5));
    let tick = state.move_snake((100, 20)).unwrap();
    assert!(tick.collided);
    assert_eq!(state.snake(), vec![(98, 5), (96, 5)]);
    assert_ne!(state.food(), (98, 5));
}

#[test]
fn eating_on_a_full_board_fails_and_changes_nothing() {
    let mut state = game(&[(5, 1)], Direction::Left, (3, 1));
    assert_eq!(state.move_snake((7, 3)).err(), Some(FoodError::BoardFull));
    assert_eq!(state.snake(), vec![(5, 1)]);
    assert_eq!(state.food(), (3, 1));
    assert_eq!(state.direction(), Direction::Left);
    assert!(state.in_play());
}

#[test]
fn eating_without_interior_fails_and_changes_nothing() {
    let mut state = game(&[(18, 5)], Direction::Right, (20, 5));
    assert_eq!(state.move_snake((5, 20)).err(), Some(FoodError::NoInterior));
    assert_eq!(state.snake(), vec![(18, 5)]);
    assert_eq!(state.food(), (20, 5));
}

#[test]
fn many_ticks_keep_the_game_in_play() {
    let (mut state, _) = GameState::new((100, 20)).unwrap();
    let turns = [Direction::Down, Direction::Left, Direction::Up, Direction::Right];
    let mut length = 1;
    for round in 0..200 {
        if round % 3 == 0 {
            state.change_direction(turns[(round / 3) % 4]);
        }
        let before = state.snake();
        let food = state.food();
        let tick = state.move_snake((100, 20)).unwrap();
        let after = state.snake();
        if after[0] == food {
            length += 1;
            assert_ne!(state.food(), food);
        } else {
            assert_eq!(state.food(), food);
            assert_eq!(after[1..], before[..before.len() - 1]);
        }
        assert_eq!(after.len(), length);
        if tick.collided {
            break;
        }
        assert!(state.in_play());
        assert!(!after.contains(&state.food()));
    }
}

#[test]
fn from_parts_takes_a_game_in_play() {
    let state = game(&[(10, 5), (12, 5), (14, 5)], Direction::Left, (20, 7));
    assert_eq!(state.snake(), vec![(10, 5), (12, 5), (14, 5)]);
    assert_eq!(state.direction(), Direction::Left);
    assert_eq!(state.food(), (20, 7));
    assert!(state.in_play());
}

#[test]
fn from_parts_needs_a_head_that_can_step() {
    let none = |cells: &[(u16, u16)]| {
        GameState::from_parts(cells.to_vec(), Direction::Right, (20, 5)).is_none()
    };
    assert!(none(&[]));
    assert!(none(&[(1, 5)]));
    assert!(none(&[(10, 0)]));
    assert!(none(&[(65534, 5)]));
    assert!(none(&[(10, 65535)]));
    assert!(none(&[(1, 5), (10, 5)]));
    assert!(!none(&[(2, 1)]));
    assert!(!none(&[(65533, 65534)]));
    assert!(!none(&[(10, 5), (1, 0)]));
    assert!(!none(&[(10, 5), (12, 5), (10, 5)]));
}

#[test]
fn in_play_asks_for_more_than_a_head_that_can_step() {
    let in_play = |cells: &[(u16, u16)], food: (u16, u16)| {
        let state = game(cells, Direction::Right, food);
        assert!(state.can_move());
        state.in_play()
    };
    assert!(in_play(&[(10, 5), (12, 5)], (20, 5)));
    assert!(in_play(&[(65532, 65533)], (20, 5)));
    assert!(in_play(&[(3, 1)], (1, 1)));
    assert!(!in_play(&[(10, 5), (12, 5), (10, 5)], (20, 5)));
    assert!(!in_play(&[(10, 5), (12, 5)], (12, 5)));
    assert!(!in_play(&[(10, 5), (13, 5)], (20, 5)));
    assert!(!in_play(&[(10, 5), (12, 5)], (21, 5)));
    assert!(!in_play(&[(2, 5)], (20, 5)));
    assert!(!in_play(&[(65533, 5)], (21, 5)));
    assert!(!in_play(&[(11, 65534)], (21, 5)));
}

#[test]
fn tick_from_the_ends_of_the_range() {
    let mut state = game(&[(2, 1)], Direction::Left, (20, 5));
    assert!(state.move_snake((100, 20)).unwrap().collided);
    assert_eq!(state.snake(), vec![(0, 1)]);
    assert!(!state.can_move());

    let mut state = game(&[(2, 1)], Direction::Up, (20, 5));
    assert!(state.move_snake((100, 20)).unwrap().collided);
    assert_eq!(state.snake(), vec![(2, 0)]);
    assert!(!state.can_move());

    let mut state = game(&[(65533, 65534)], Direction::Right, (20, 5));
    assert!(state.move_snake((65535, 65535)).unwrap().collided);
    assert_eq!(state.snake(), vec![(65535, 65534)]);

    let mut state = game(&[(65533, 65534)], Direction::Down, (20, 5));
    assert!(state.move_snake((65535, 65535)).unwrap().collided);
    assert_eq!(state.snake(), vec![(65533, 65535)]);
}

#[test]
fn tick_of_a_game_not_in_play_still_follows_the_rules() {
    let mut state = game(&[(10, 5), (12, 5), (10, 5)], Direction::Down, (21, 5));
    assert!(!state.in_play());
    let tick = state.move_snake((100, 20)).unwrap();
    assert!(!tick.collided);
    assert_eq!(state.snake(), vec![(10, 6), (10, 5), (12, 5)]);
    assert_eq!(tick.draws, vec![segment((10, 6)), blank((10, 5))]);
}

#[test]
fn eating_succeeds_where_no_draw_can_fall_on_the_snake() {
    // On six columns food goes to column 1, and the snake is on column 3.
    for _ in 0..100 {
        let mut state = game(&[(3, 2)], Direction::Up, (3, 1));
        let tick = state.move_snake((6, 4)).unwrap();
        assert!(!tick.collided);
        assert_eq!(state.snake(), vec![(3, 1), (3, 2)]);
        assert_eq!(state.food().0, 1);
        assert!(state.food().1 == 1 || state.food().1 == 2);
    }
}

#[test]
fn new_game_on_six_columns_always_starts() {
    for height in 3..40u16 {
        let (state, _) = GameState::new((6, height)).unwrap();
        assert_eq!(state.snake(), vec![(3, height / 2)]);
        assert_eq!(state.food().0, 1);
        assert!(initialize_game(6, height).is_ok());
    }
}
