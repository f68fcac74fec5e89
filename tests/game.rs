use std::cmp::Ordering;

use ecs::collision::{check_collision, check_gameover, get_clear_lines, mesh_sort};
use ecs::component::{Cell, Gravity, Mesh, Position, Preview, Scoring, Size};
use ecs::game::{bg_cell, clear_grid, load_registry, Error, GameState, GLASS_HEIGHT, GLASS_WIDTH};
use ecs::input::{hard_drop, move_player, on_input_event};
use ecs::pieces::{create_entities, create_single_cell, hold_from_player, make_scoring, player_from_hold};
use ecs::rules::{get_level, get_lines, get_score, move_entity, rotate_tetromino, simulate};
use ecs::score::update_score;
use ecs::system::{paint_entities, TimerAction, TimerState};
use ecs::tetromino::Tetromino;
use ecs::types::{GameEvent, InputEvent, RotationDirection, TimerEvent};
use ecs::vector::Vector2;

fn ready_state() -> GameState {
    let mut state = GameState::new();
    load_registry(&mut state.ecs.component_registry);
    state
}

fn pos_of(state: &GameState, e: ecs::entity::Entity) -> Option<Position> {
    state.ecs.component_registry.get_component::<Position>(&e).copied()
}

#[test]
fn new_game_has_blank_board() {
    let state = GameState::new();
    assert_eq!(state.grid.len(), GLASS_HEIGHT);
    for row in state.grid.iter() {
        assert_eq!(row.len(), GLASS_WIDTH);
        assert!(row.iter().all(|c| *c == bg_cell()));
    }
    assert!(state.current_piece.is_none());
    assert!(state.next_pieces.is_empty());
}

#[test]
fn create_entities_sets_up_a_game() {
    let mut state = ready_state();
    create_entities(&mut state);
    assert!(state.scoring.is_some());
    let player = state.current_piece.unwrap();
    assert_eq!(state.next_pieces.len(), 4);
    assert_eq!(pos_of(&state, player), Some(Vector2 { x: 4, y: 0 }));
    assert!(state.ecs.component_registry.get_component::<Preview>(&player).is_none());
    assert!(state.ecs.component_registry.get_component::<Gravity>(&player).is_some());
    for e in state.next_pieces.iter() {
        assert!(state.ecs.component_registry.get_component::<Preview>(e).is_some());
    }
    assert_eq!(get_score(&state).unwrap(), 0);
    assert_eq!(get_lines(&state).unwrap(), 0);
    assert_eq!(get_level(&state).unwrap(), 0);
}

#[test]
fn update_score_counts_lines_and_levels() {
    let mut state = ready_state();
    make_scoring(&mut state);
    assert_eq!(update_score(&mut state, 4).unwrap(), None);
    assert_eq!(get_score(&state).unwrap(), 800);
    assert_eq!(get_lines(&state).unwrap(), 4);
    assert_eq!(update_score(&mut state, 4).unwrap(), None);
    let evt = update_score(&mut state, 2).unwrap();
    assert_eq!(evt, Some(TimerEvent::SetInterval(250)));
    assert_eq!(get_level(&state).unwrap(), 1);
    assert_eq!(get_lines(&state).unwrap(), 10);
    assert_eq!(get_score(&state).unwrap(), 800 + 800 + 300);
}

#[test]
fn update_score_without_component_is_an_error() {
    let mut state = ready_state();
    let e = state.ecs.create_entity();
    state.scoring = Some(e);
    assert_eq!(update_score(&mut state, 1), Err(Error::MissingComponent("Scoring")));
}

#[test]
fn collision_with_floor_walls_and_cells() {
    let mut state = ready_state();
    let b = state.ecs.build_entity();
    let b = b.with(&mut state.ecs, Tetromino::O.new());
    let b = b.with(&mut state.ecs, Vector2 { x: 0, y: 18 });
    let e = b.done(&mut state.ecs);
    assert_eq!(check_collision(&mut state, e, Vector2 { x: 0, y: 0 }).unwrap(), None);
    assert_eq!(
        check_collision(&mut state, e, Vector2 { x: 0, y: 1 }).unwrap(),
        Some(GameEvent::Collision(e))
    );
    assert_eq!(
        check_collision(&mut state, e, Vector2 { x: -1, y: 0 }).unwrap(),
        Some(GameEvent::Collision(e))
    );
    assert_eq!(check_collision(&mut state, e, Vector2 { x: 1, y: 0 }).unwrap(), None);
    state.grid[19][3] = Cell::rgb(1, 2, 3);
    assert_eq!(
        check_collision(&mut state, e, Vector2 { x: 2, y: 0 }).unwrap(),
        Some(GameEvent::Collision(e))
    );
    let bare = state.ecs.create_entity();
    assert_eq!(
        check_collision(&mut state, bare, Vector2 { x: 0, y: 1 }),
        Err(Error::MissingComponent("Position"))
    );
    state.ecs.add_component(bare, Vector2 { x: 0, y: 0 }).unwrap();
    assert_eq!(
        check_collision(&mut state, bare, Vector2 { x: 0, y: 1 }),
        Err(Error::MissingComponent("Mesh"))
    );
}

#[test]
fn clear_lines_reports_full_rows_bottom_up() {
    let mut state = ready_state();
    assert_eq!(get_clear_lines(&mut state), None);
    let red = Cell::rgb(255, 0, 0);
    for x in 0..GLASS_WIDTH {
        state.grid[19][x] = red;
        state.grid[17][x] = red;
    }
    state.grid[18][0] = red;
    assert_eq!(get_clear_lines(&mut state), Some(GameEvent::ClearedLines(vec![19, 17])));
    clear_grid(&mut state);
    assert_eq!(get_clear_lines(&mut state), None);
}

#[test]
fn mesh_sort_orders_rows_then_columns() {
    let a = Vector2 { x: 0, y: 2 };
    let b = Vector2 { x: 5, y: 1 };
    assert_eq!(mesh_sort(&a, &b), Ordering::Less);
    assert_eq!(mesh_sort(&b, &a), Ordering::Greater);
    let c = Vector2 { x: 3, y: 2 };
    assert_eq!(mesh_sort(&a, &c), Ordering::Less);
    assert_eq!(mesh_sort(&a, &a), Ordering::Equal);
}

#[test]
fn gameover_when_resting_high() {
    let mut state = ready_state();
    let e = state.ecs.create_entity();
    assert_eq!(check_gameover(&mut state.ecs, e), Err(Error::MissingComponent("Position")));
    state.ecs.add_component(e, Vector2 { x: 4, y: 1 }).unwrap();
    assert_eq!(check_gameover(&mut state.ecs, e), Ok(true));
    state.ecs.set_component(e, Vector2 { x: 4, y: 2 });
    assert_eq!(check_gameover(&mut state.ecs, e), Ok(false));
}

#[test]
fn tetromino_shapes_colours_sizes() {
    assert_eq!(Tetromino::I.new().0, vec![
        Vector2 { x: 0, y: 1 },
        Vector2 { x: 1, y: 1 },
        Vector2 { x: 2, y: 1 },
        Vector2 { x: 3, y: 1 },
    ]);
    assert_eq!(Tetromino::Z.new().0[2], Vector2 { x: 0, y: 0 });
    assert_eq!(Tetromino::O.size(), 2);
    assert_eq!(Tetromino::I.size(), 4);
    assert_eq!(Tetromino::T.size(), 3);
    assert_eq!(Tetromino::O.color(), Cell::rgb(0, 0, 255));
    assert_eq!(Tetromino::T.color(), Cell::rgb(255, 255, 0));
    assert_eq!(Tetromino::from_index(3), Tetromino::L);
    assert_eq!(Tetromino::from_index(42), Tetromino::T);
    for _ in 0..20 {
        assert_eq!(Tetromino::random().new().0.len(), 4);
    }
}

#[test]
fn mesh_translate_and_turns() {
    let mut m = Mesh::new(vec![Vector2 { x: 1, y: 2 }, Vector2 { x: -3, y: 0 }]);
    m.translate(Vector2 { x: 1, y: 1 });
    assert_eq!(m.0, vec![Vector2 { x: 2, y: 3 }, Vector2 { x: -2, y: 1 }]);
    assert_eq!(m.rotate_cw().0, vec![Vector2 { x: -2, y: -2 }, Vector2 { x: 2, y: 2 }]);
    assert_eq!(m.rotate_ccw().0, vec![Vector2 { x: -2, y: 2 }, Vector2 { x: 2, y: -2 }]);
    assert_eq!(Scoring::new(), Scoring { lines: 0, level: 0, score: 0 });
    assert_eq!(Gravity::default().g, Vector2 { x: 0, y: 1 });
    assert_eq!(Gravity::new(Vector2 { x: 1, y: 0 }).g, Vector2 { x: 1, y: 0 });
}

#[test]
fn moving_and_dropping_the_player() {
    let mut state = ready_state();
    create_entities(&mut state);
    let p = state.current_piece.unwrap();
    move_player(&mut state, Vector2 { x: 1, y: 0 }).unwrap();
    assert_eq!(pos_of(&state, p), Some(Vector2 { x: 5, y: 0 }));
    on_input_event(&mut state, InputEvent::Left).unwrap();
    on_input_event(&mut state, InputEvent::Left).unwrap();
    assert_eq!(pos_of(&state, p), Some(Vector2 { x: 3, y: 0 }));
    hard_drop(&mut state).unwrap();
    let y = pos_of(&state, p).unwrap().y;
    assert!(y >= 16 && y <= 18);
    assert_eq!(
        check_collision(&mut state, p, Vector2 { x: 0, y: 1 }).unwrap(),
        Some(GameEvent::Collision(p))
    );
}

#[test]
fn hard_drop_without_piece_fails() {
    let mut state = ready_state();
    assert_eq!(hard_drop(&mut state), Err(Error::NoCurrentPiece));
    create_entities(&mut state);
    state.current_piece = None;
    assert_eq!(simulate(&mut state), Err(Error::NoCurrentPiece));
}

#[test]
fn simulate_moves_piece_down() {
    let mut state = ready_state();
    create_entities(&mut state);
    let p = state.current_piece.unwrap();
    assert_eq!(simulate(&mut state).unwrap(), None);
    assert_eq!(pos_of(&state, p), Some(Vector2 { x: 4, y: 1 }));
}

#[test]
fn hold_swaps_pieces() {
    let mut state = ready_state();
    create_entities(&mut state);
    let first = state.current_piece.unwrap();
    let next = state.next_pieces[0];
    on_input_event(&mut state, InputEvent::Hold).unwrap();
    assert_eq!(state.hold_piece, Some(first));
    assert_eq!(state.current_piece, Some(next));
    assert!(pos_of(&state, first).is_none());
    on_input_event(&mut state, InputEvent::Hold).unwrap();
    assert_eq!(state.current_piece, Some(first));
    assert_eq!(state.hold_piece, Some(next));
    assert_eq!(pos_of(&state, first), Some(Vector2 { x: 4, y: 0 }));
}

#[test]
fn hold_and_player_markers() {
    let mut state = ready_state();
    let e = state.ecs.create_entity();
    player_from_hold(&mut state.ecs, e);
    assert_eq!(pos_of(&state, e), Some(Vector2 { x: 4, y: 0 }));
    hold_from_player(&mut state.ecs, e);
    assert_eq!(pos_of(&state, e), None);
}

#[test]
fn rotation_of_t_piece() {
    let mut state = ready_state();
    let b = state.ecs.build_entity();
    let b = b.with(&mut state.ecs, Tetromino::T.new());
    let b = b.with(&mut state.ecs, Size(3));
    let b = b.with(&mut state.ecs, Vector2 { x: 4, y: 5 });
    let e = b.done(&mut state.ecs);
    rotate_tetromino(&mut state, e, RotationDirection::CW).unwrap();
    let m = state.ecs.component_registry.get_component::<Mesh>(&e).unwrap().0.clone();
    assert_eq!(m, vec![
        Vector2 { x: 1, y: 2 },
        Vector2 { x: 1, y: 1 },
        Vector2 { x: 1, y: 0 },
        Vector2 { x: 0, y: 1 },
    ]);
    assert_eq!(pos_of(&state, e), Some(Vector2 { x: 4, y: 5 }));
}

#[test]
fn rotation_kicks_off_the_wall_and_o_does_not_turn() {
    let mut state = ready_state();
    let b = state.ecs.build_entity();
    let b = b.with(&mut state.ecs, Tetromino::I.new());
    let b = b.with(&mut state.ecs, Size(4));
    let b = b.with(&mut state.ecs, Vector2 { x: -1, y: 5 });
    let e = b.done(&mut state.ecs);
    rotate_tetromino(&mut state, e, RotationDirection::CCW).unwrap();
    let p = pos_of(&state, e).unwrap();
    assert_eq!(p.y, 5);
    let m = state.ecs.component_registry.get_component::<Mesh>(&e).unwrap().0.clone();
    for c in m.iter() {
        assert!(c.x + p.x >= 0 && c.x + p.x < GLASS_WIDTH as i32);
    }

    let b = state.ecs.build_entity();
    let b = b.with(&mut state.ecs, Tetromino::O.new());
    let b = b.with(&mut state.ecs, Size(2));
    let b = b.with(&mut state.ecs, Vector2 { x: 4, y: 5 });
    let o = b.done(&mut state.ecs);
    rotate_tetromino(&mut state, o, RotationDirection::CW).unwrap();
    assert_eq!(state.ecs.component_registry.get_component::<Mesh>(&o).unwrap().0, Tetromino::O.new().0);
}

#[test]
fn move_entity_errors_and_dead_entities() {
    let mut state = ready_state();
    let e = state.ecs.create_entity();
    assert_eq!(move_entity(&mut state.ecs, e, Vector2 { x: 1, y: 1 }), Err(Error::MissingComponent("Position")));
    state.ecs.add_component(e, Vector2 { x: 1, y: 1 }).unwrap();
    move_entity(&mut state.ecs, e, Vector2 { x: 2, y: 3 }).unwrap();
    assert_eq!(pos_of(&state, e), Some(Vector2 { x: 3, y: 4 }));
    state.ecs.destroy_entity(&e);
    move_entity(&mut state.ecs, e, Vector2 { x: 2, y: 3 }).unwrap();
    assert_eq!(pos_of(&state, e), Some(Vector2 { x: 3, y: 4 }));
}

#[test]
fn landing_piece_fills_and_clears_a_line() {
    let mut state = ready_state();
    create_entities(&mut state);
    let red = Cell::rgb(255, 0, 0);
    for x in 0..GLASS_WIDTH as i32 {
        if x < 4 || x > 7 {
            create_single_cell(&mut state.ecs, red, Vector2 { x, y: 19 });
        }
    }
    let p = state.current_piece.unwrap();
    state.ecs.set_component(p, Tetromino::I.new());
    state.ecs.set_component(p, Vector2 { x: 4, y: 18 });
    clear_grid(&mut state);
    let painted = paint_entities(&mut state);
    assert_eq!(painted.len(), 6 + 4);
    assert_eq!(get_clear_lines(&mut state), Some(GameEvent::ClearedLines(vec![19])));
    let evt = state.on_event(GameEvent::Collision(p));
    assert!(evt.is_ok());
    assert!(!state.ecs.entity_manager.alive(&p));
    clear_grid(&mut state);
    paint_entities(&mut state);
    assert!(state.grid[19].iter().all(|c| *c == bg_cell()));
    assert_eq!(get_lines(&state).unwrap(), 1);
    assert_eq!(get_score(&state).unwrap(), 100);
    assert!(state.current_piece.is_some());
}

#[test]
fn timer_decisions() {
    let mut t = TimerState::new(300);
    assert!(t.tick_due(300));
    assert!(!t.tick_due(299));
    assert_eq!(t.on_message(TimerEvent::Pause), TimerAction::Continue);
    assert!(!t.tick_due(1000));
    assert_eq!(t.on_message(TimerEvent::SetInterval(25)), TimerAction::Continue);
    assert_eq!(t.on_message(TimerEvent::Pause), TimerAction::Continue);
    assert!(t.tick_due(25));
    assert_eq!(t.on_message(TimerEvent::Stop), TimerAction::Exit);
}

#[test]
fn random_tetromino_varies() {
    let first = Tetromino::random();
    let mut varied = false;
    for _ in 0..200 {
        if Tetromino::random() != first {
            varied = true;
        }
    }
    assert!(varied);
}

#[test]
fn hold_and_preview_cells_for_drawing() {
    let mut state = ready_state();
    create_entities(&mut state);
    assert!(ecs::system::hold_cells(&state).is_empty());
    let previews = ecs::system::preview_cells(&state);
    assert_eq!(previews.len(), 16);
    let first = state.next_pieces[0];
    let mesh = state.ecs.component_registry.get_component::<Mesh>(&first).unwrap().0.clone();
    let color = *state.ecs.component_registry.get_component::<Cell>(&first).unwrap();
    assert_eq!(previews[0], (Vector2 { x: mesh[0].x + 25, y: mesh[0].y + 3 }, color));
    let player = state.current_piece.unwrap();
    on_input_event(&mut state, InputEvent::Hold).unwrap();
    let held = ecs::system::hold_cells(&state);
    let mesh = state.ecs.component_registry.get_component::<Mesh>(&player).unwrap().0.clone();
    assert_eq!(held.len(), 4);
    assert_eq!(held[1].0, Vector2 { x: mesh[1].x + 6, y: mesh[1].y + 9 });
}
