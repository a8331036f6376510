use farm_player::display::update_tool_display;
use farm_player::input::{InputSnapshot, MoveVector};
use farm_player::player::{setup, update, Player, FRAME_RATE, SHEET_COLUMNS};
use farm_player::sprite::{AnimatedSprite, AnimationType, Direction, ToolAction, SHEET_ROWS};

const TENTH: u64 = 100_000_000;

#[test]
fn sheet_has_eight_columns_and_twenty_four_rows() {
    assert_eq!(SHEET_COLUMNS, 8);
    assert_eq!(SHEET_ROWS, 24);
    assert_eq!(FRAME_RATE, 10);
}

#[test]
fn player_spawns_idle_facing_down() {
    let player = setup();
    assert_eq!(player.animated.direction, Direction::Down);
    assert_eq!(player.animated.state, AnimationType::Idle);
    assert_eq!(player.animated.action, ToolAction::NoTool);
    assert_eq!(player.atlas_index, Some(0));
    assert_eq!(player.config.frames_per_row(), 8);
    assert_eq!(player.config.fps(), 10);
    assert_eq!(player.config.elapsed_nanos(), 0);
}

#[test]
fn idle_frames_without_time_change_nothing() {
    let mut player = setup();
    player.animated.direction = Direction::Left;
    player.atlas_index = Some(29);
    player.config.tick(70_000_000);
    let input = InputSnapshot::released();
    for _ in 0..100 {
        let movement = player.update(&input, 0);
        assert!(movement.is_zero());
        assert_eq!(player.animated.state, AnimationType::Idle);
        assert_eq!(player.animated.direction, Direction::Left);
        assert_eq!(player.animated.action, ToolAction::NoTool);
        assert_eq!(player.atlas_index, Some(29));
        assert_eq!(player.config.elapsed_nanos(), 70_000_000);
    }
}

#[test]
fn idle_frames_cycle_through_the_idle_row_of_the_facing() {
    let facings = [
        (Direction::Down, 0),
        (Direction::Up, 1),
        (Direction::Right, 2),
        (Direction::Left, 3),
    ];
    for (direction, row) in facings {
        let mut player = setup();
        player.animated.direction = direction;
        let input = InputSnapshot::released();
        for frame in 1..=20 {
            let movement = player.update(&input, TENTH);
            assert!(movement.is_zero());
            assert_eq!(player.animated.state, AnimationType::Idle);
            assert_eq!(player.animated.direction, direction);
            assert_eq!(player.atlas_index, Some(row * 8 + frame % 8));
        }
    }
}

#[test]
fn controller_runs_before_the_animation_driver() {
    let mut player = setup();
    let mut input = InputSnapshot::released();
    input.right = true;
    let movement = player.update(&input, TENTH);
    assert_eq!(movement, MoveVector { x: 1, y: 0 });
    assert_eq!(player.animated.state, AnimationType::Walking);
    assert_eq!(player.animated.direction, Direction::Right);
    assert_eq!(player.atlas_index, Some(6 * 8 + 1));
}

#[test]
fn walking_right_then_releasing_goes_idle_facing_right() {
    let mut player = setup();
    let mut input = InputSnapshot::released();
    input.right = true;
    let frame: u64 = 20_000_000;
    let mut position: (f32, f32) = (0.0, 0.0);
    for _ in 0..50 {
        let movement = player.update(&input, frame);
        position.0 += f32::from(movement.x) * 100.0 * 0.02;
        position.1 += f32::from(movement.y) * 100.0 * 0.02;
    }
    assert!((position.0 - 100.0).abs() < 0.01);
    assert_eq!(position.1, 0.0);
    assert_eq!(player.animated.state, AnimationType::Walking);
    assert_eq!(player.animated.direction, Direction::Right);
    assert_eq!(player.atlas_index, Some(6 * 8 + 10 % 8));
    assert_eq!(player.config.elapsed_nanos(), 0);

    let movement = player.update(&InputSnapshot::released(), frame);
    assert!(movement.is_zero());
    assert_eq!(player.animated.state, AnimationType::Idle);
    assert_eq!(player.animated.direction, Direction::Right);
}

#[test]
fn chopping_upwards_plays_row_17() {
    let mut player = setup();
    let mut input = InputSnapshot::released();
    input.up = true;
    player.update(&input, 0);
    let mut input = InputSnapshot::released();
    input.select_chop = true;
    input.act = true;
    player.update(&input, TENTH);
    assert_eq!(player.animated.state, AnimationType::Acting);
    assert_eq!(player.animated.action, ToolAction::Chop);
    assert_eq!(player.animated.row_index(), 17);
    assert_eq!(player.atlas_index, Some(17 * 8 + 1));
}

#[test]
fn game_without_a_player_skips_the_frame() {
    let mut slot: Option<Player> = None;
    let mut input = InputSnapshot::released();
    input.up = true;
    input.act = true;
    input.select_water = true;
    let movement = update(&mut slot, &input, TENTH);
    assert!(movement.is_zero());
    assert!(slot.is_none());
}

#[test]
fn game_with_a_player_runs_its_frame() {
    let mut slot = Some(setup());
    let mut input = InputSnapshot::released();
    input.down = true;
    input.left = true;
    let movement = update(&mut slot, &input, 130_000_000);
    assert_eq!(movement, MoveVector { x: -1, y: -1 });
    let player = slot.unwrap();
    assert_eq!(player.animated.state, AnimationType::Walking);
    assert_eq!(player.animated.direction, Direction::Down);
    assert_eq!(player.atlas_index, Some(4 * 8 + 1));
    assert_eq!(player.config.elapsed_nanos(), 30_000_000);
}

#[test]
fn player_without_atlas_still_keeps_time() {
    let mut player = setup();
    player.atlas_index = None;
    let mut input = InputSnapshot::released();
    input.up = true;
    player.update(&input, 250_000_000);
    assert_eq!(player.atlas_index, None);
    assert_eq!(player.config.elapsed_nanos(), 50_000_000);
    assert_eq!(player.animated.state, AnimationType::Walking);
}

#[test]
fn tool_names_are_those_of_the_label() {
    assert_eq!(ToolAction::Chop.name(), "Chop");
    assert_eq!(ToolAction::Hoe.name(), "Hoe");
    assert_eq!(ToolAction::Water.name(), "Water");
    assert_eq!(ToolAction::NoTool.name(), "None");
}

#[test]
fn label_names_the_tool_in_hand() {
    let mut animated = AnimatedSprite {
        direction: Direction::Down,
        state: AnimationType::Idle,
        action: ToolAction::NoTool,
    };
    assert_eq!(update_tool_display(&animated), "Action: None");
    animated.action = ToolAction::Chop;
    assert_eq!(update_tool_display(&animated), "Action: Chop");
    animated.action = ToolAction::Hoe;
    assert_eq!(update_tool_display(&animated), "Action: Hoe");
    animated.action = ToolAction::Water;
    assert_eq!(update_tool_display(&animated), "Action: Water");
}

#[test]
fn label_of_a_spawned_player_shows_no_tool() {
    assert_eq!(update_tool_display(&setup().animated), "Action: None");
}
