use cubegame::world::block::{Block, BlockType, COORD_LIMIT};
use cubegame::world::map::{Chunk, WorldMap, ORIGIN_LIMIT};
use cubegame::world::world::{decide, scene_objects, Action, Event, Key, Motion, Turn};

#[test]
fn block_keeps_coordinates_and_kind() {
    let b = Block::new(BlockType::Bedrock, [3, -4, 5]);
    assert_eq!(b.coordinates, [3, -4, 5]);
    assert_eq!(b.block_type, BlockType::Bedrock);
    assert_eq!(b.render.vertices[0].position, (70, -70, 110));
}

#[test]
fn block_one_step_along_x_is_shifted_by_one_cube_edge() {
    let a = Block::new(BlockType::Void, [0, 0, 0]);
    let b = Block::new(BlockType::Void, [1, 0, 0]);
    for k in 0..8 {
        assert_eq!(b.render.vertices[k].position.0 - a.render.vertices[k].position.0, 20);
        assert_eq!(b.render.vertices[k].position.1, a.render.vertices[k].position.1);
        assert_eq!(b.render.vertices[k].position.2, a.render.vertices[k].position.2);
    }
}

#[test]
fn block_ten_steps_along_x_is_shifted_by_200() {
    let a = Block::new(BlockType::Void, [0, 0, 0]);
    let b = Block::new(BlockType::Bedrock, [10, 0, 0]);
    for k in 0..8 {
        assert_eq!(b.render.vertices[k].position.0 - a.render.vertices[k].position.0, 200);
    }
}

#[test]
fn block_at_the_coordinate_limit() {
    let b = Block::new(BlockType::Void, [COORD_LIMIT, -COORD_LIMIT, 0]);
    assert_eq!(b.render.vertices[0].position.0, COORD_LIMIT * 20 + 10);
    assert_eq!(b.render.vertices[7].position.1, -COORD_LIMIT * 20 - 10);
}

#[test]
fn block_type_solidity() {
    assert!(!BlockType::Void.is_solid());
    assert!(BlockType::Bedrock.is_solid());
}

#[test]
fn floor_chunk_shows_256_meshes() {
    let c = Chunk::floor([0, 0, 0]);
    assert_eq!(c.get_show().len(), 256);
}

#[test]
fn void_chunk_shows_nothing() {
    let c = Chunk::new([2, -1, 3]);
    assert_eq!(c.get_show().len(), 0);
}

#[test]
fn chunk_blocks_in_scan_order() {
    let c = Chunk::new([1, 2, 3]);
    assert_eq!(c.blocks.len(), 4096);
    assert_eq!(c.blocks[0].coordinates, [16, 32, 48]);
    assert_eq!(c.blocks[1].coordinates, [16, 32, 49]);
    assert_eq!(c.blocks[16].coordinates, [16, 33, 48]);
    assert_eq!(c.blocks[256].coordinates, [17, 32, 48]);
    assert_eq!(c.blocks[4095].coordinates, [31, 47, 63]);
}

#[test]
fn floor_chunk_bottom_layer_is_bedrock() {
    let c = Chunk::floor([0, 0, 0]);
    for (i, b) in c.blocks.iter().enumerate() {
        let y = (i / 16) % 16;
        assert_eq!(b.block_type == BlockType::Bedrock, y == 0);
        assert_eq!(b.coordinates[1], y as i64);
    }
}

#[test]
fn floor_chunk_shows_the_bottom_layer_in_order() {
    let c = Chunk::floor([1, 0, 1]);
    let shown = c.get_show();
    assert_eq!(shown[0].vertices[0].position, (16 * 20 + 10, 10, 16 * 20 + 10));
    assert_eq!(shown[1].vertices[0].position, (16 * 20 + 10, 10, 17 * 20 + 10));
    assert_eq!(shown[16].vertices[0].position, (17 * 20 + 10, 10, 16 * 20 + 10));
    assert_eq!(shown[255].vertices[7].position, (31 * 20 - 10, -10, 31 * 20 - 10));
}

#[test]
fn chunk_at_the_origin_limit() {
    let c = Chunk::new([ORIGIN_LIMIT, -ORIGIN_LIMIT, 0]);
    assert_eq!(c.blocks[4095].coordinates, [ORIGIN_LIMIT * 16 + 15, -ORIGIN_LIMIT * 16 + 15, 15]);
}

#[test]
fn new_map_has_two_floor_chunks_and_512_meshes() {
    let m = WorldMap::new();
    assert_eq!(m.chunks.len(), 2);
    assert_eq!(m.chunks[0].origin, [0, 0, 0]);
    assert_eq!(m.chunks[1].origin, [1, 0, 1]);
    let counts: Vec<usize> = m.chunks.iter().map(|c| c.get_show().len()).collect();
    assert_eq!(counts, vec![256, 256]);
    assert_eq!(counts.iter().sum::<usize>(), 512);
}

#[test]
fn window_events_map_to_actions() {
    assert_eq!(decide(Event::CloseRequested), Action::Exit);
    assert_eq!(decide(Event::RedrawRequested), Action::Render);
    assert_eq!(decide(Event::Resized(800, 600)), Action::Resize(800, 600));
    assert_eq!(decide(Event::AboutToWait), Action::RequestRedraw);
    assert_eq!(decide(Event::Ignored), Action::Nothing);
}

#[test]
fn pressed_keys_map_to_actions() {
    let press = |key| decide(Event::Key { key, pressed: true });
    assert_eq!(press(Key::Escape), Action::Exit);
    assert_eq!(press(Key::W), Action::Move(Motion::Forward));
    assert_eq!(press(Key::S), Action::Move(Motion::Backward));
    assert_eq!(press(Key::A), Action::Move(Motion::Left));
    assert_eq!(press(Key::D), Action::Move(Motion::Right));
    assert_eq!(press(Key::E), Action::Move(Motion::Up));
    assert_eq!(press(Key::Q), Action::Move(Motion::Down));
    assert_eq!(press(Key::ArrowUp), Action::Rotate(Turn::PitchUp));
    assert_eq!(press(Key::ArrowDown), Action::Rotate(Turn::PitchDown));
    assert_eq!(press(Key::ArrowLeft), Action::Rotate(Turn::YawLeft));
    assert_eq!(press(Key::ArrowRight), Action::Rotate(Turn::YawRight));
    assert_eq!(press(Key::Other), Action::UnknownKey);
    assert_eq!(press(Key::Unidentified), Action::UnidentifiedKey);
}

#[test]
fn released_keys_do_nothing() {
    assert_eq!(decide(Event::Key { key: Key::Escape, pressed: false }), Action::Nothing);
    assert_eq!(decide(Event::Key { key: Key::W, pressed: false }), Action::Nothing);
}

#[test]
fn motion_weights_pick_one_axis() {
    assert_eq!(Motion::Forward.weights(), (1, 0, 0));
    assert_eq!(Motion::Backward.weights(), (-1, 0, 0));
    assert_eq!(Motion::Right.weights(), (0, 1, 0));
    assert_eq!(Motion::Left.weights(), (0, -1, 0));
    assert_eq!(Motion::Up.weights(), (0, 0, 1));
    assert_eq!(Motion::Down.weights(), (0, 0, -1));
}

#[test]
fn turn_axis_and_sign() {
    assert!(Turn::PitchDown.is_pitch());
    assert!(Turn::PitchUp.is_pitch());
    assert!(!Turn::YawLeft.is_pitch());
    assert!(!Turn::YawRight.is_pitch());
    assert_eq!(Turn::PitchDown.sign(), 1);
    assert_eq!(Turn::PitchUp.sign(), -1);
    assert_eq!(Turn::YawLeft.sign(), -1);
    assert_eq!(Turn::YawRight.sign(), 1);
}

#[test]
fn scene_has_two_cubes_100_apart() {
    let objects = scene_objects();
    assert_eq!(objects.len(), 2);
    assert_eq!(objects[0].vertices[0].position, (10, 10, 10));
    assert_eq!(objects[1].vertices[0].position, (110, 10, 10));
}
