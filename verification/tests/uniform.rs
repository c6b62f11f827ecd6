use mini_engine::uniform::{identity, Matrix, UniformArena, UniformData, UniformEntry, ONE_BITS};

fn matrix(seed: u32) -> Matrix {
    let mut m = [[0u32; 4]; 4];
    for (c, column) in m.iter_mut().enumerate() {
        for (r, cell) in column.iter_mut().enumerate() {
            *cell = ((seed + (4 * c + r) as u32) as f32).to_bits();
        }
    }
    m
}

fn data(seed: u32) -> UniformData {
    UniformData {
        model: matrix(seed),
        view: matrix(seed + 100),
        projection: matrix(seed + 200),
        normal: matrix(seed + 300),
    }
}

#[test]
fn one_has_the_bits_of_the_float_one() {
    assert_eq!(f32::from_bits(ONE_BITS), 1.0);
}

#[test]
fn identity_is_the_identity_by_columns() {
    let m = identity();
    for (c, column) in m.iter().enumerate() {
        for (r, cell) in column.iter().enumerate() {
            let expected = if c == r { 1.0 } else { 0.0 };
            assert_eq!(f32::from_bits(*cell), expected);
        }
    }
}

#[test]
fn new_arena_has_no_slots() {
    let arena = UniformArena::new();
    assert_eq!(arena.len(), 0);
    assert_eq!(arena.read(0), None);
}

#[test]
fn allocation_takes_slots_in_order() {
    let mut arena = UniformArena::new();
    assert_eq!(arena.allocate(0, data(1)), 0);
    assert_eq!(arena.allocate(0, data(2)), 1);
    assert_eq!(arena.allocate(1, data(3)), 2);
    assert_eq!(arena.len(), 3);
}

#[test]
fn written_data_is_read_back_identical() {
    let mut arena = UniformArena::new();
    let slot = arena.allocate(5, data(7));
    assert_eq!(arena.read(slot), Some(UniformEntry { frame: 5, data: data(7) }));
}

#[test]
fn data_of_a_frame_in_flight_survives_later_frames() {
    let mut arena = UniformArena::new();
    let first = arena.allocate(1, data(10));
    let second = arena.allocate(1, data(20));
    arena.release(0);
    let third = arena.allocate(2, data(30));
    let fourth = arena.allocate(3, data(40));
    assert_eq!(arena.read(first), Some(UniformEntry { frame: 1, data: data(10) }));
    assert_eq!(arena.read(second), Some(UniformEntry { frame: 1, data: data(20) }));
    assert_eq!(arena.read(third), Some(UniformEntry { frame: 2, data: data(30) }));
    assert_eq!(arena.read(fourth), Some(UniformEntry { frame: 3, data: data(40) }));
    let slots = [first, second, third, fourth];
    for a in 0..slots.len() {
        for b in a + 1..slots.len() {
            assert_ne!(slots[a], slots[b]);
        }
    }
}

#[test]
fn release_frees_the_slots_of_completed_frames_only() {
    let mut arena = UniformArena::new();
    let a = arena.allocate(1, data(1));
    let b = arena.allocate(2, data(2));
    let c = arena.allocate(3, data(3));
    arena.release(2);
    assert_eq!(arena.read(a), None);
    assert_eq!(arena.read(b), None);
    assert_eq!(arena.read(c), Some(UniformEntry { frame: 3, data: data(3) }));
    assert_eq!(arena.len(), 3);
}

#[test]
fn a_slot_is_reused_only_after_its_frame_is_released() {
    let mut arena = UniformArena::new();
    let a = arena.allocate(1, data(1));
    let b = arena.allocate(2, data(2));
    assert_ne!(a, b);
    arena.release(1);
    let c = arena.allocate(3, data(3));
    assert_eq!(c, a);
    assert_eq!(arena.read(c), Some(UniformEntry { frame: 3, data: data(3) }));
    assert_eq!(arena.read(b), Some(UniformEntry { frame: 2, data: data(2) }));
    let d = arena.allocate(3, data(4));
    assert_eq!(d, 2);
}

#[test]
fn reading_a_slot_that_does_not_exist_gives_nothing() {
    let mut arena = UniformArena::new();
    arena.allocate(1, data(1));
    assert_eq!(arena.read(1), None);
    assert_eq!(arena.read(usize::MAX), None);
}

#[test]
fn uniform_data_lies_in_memory_as_four_matrices_by_columns() {
    let words = data(0).words();
    assert_eq!(words.len(), 64);
    assert_eq!(words.len() * 4, 4 * 64);
    let floats: Vec<f32> = words.iter().map(|w| f32::from_bits(*w)).collect();
    for i in 0..16 {
        assert_eq!(floats[i], i as f32);
        assert_eq!(floats[16 + i], (100 + i) as f32);
        assert_eq!(floats[32 + i], (200 + i) as f32);
        assert_eq!(floats[48 + i], (300 + i) as f32);
    }
}

#[test]
fn a_matrix_lies_in_memory_column_after_column() {
    let mut model = [[0u32; 4]; 4];
    model[1][2] = 7;
    model[3][0] = 9;
    let data = UniformData { model, view: identity(), projection: identity(), normal: identity() };
    let words = data.words();
    assert_eq!(words[4 * 1 + 2], 7);
    assert_eq!(words[4 * 3 + 0], 9);
    assert_eq!(words[..16].iter().filter(|w| **w != 0).count(), 2);
    for matrix in 1..4 {
        for column in 0..4 {
            for row in 0..4 {
                let expected = if column == row { ONE_BITS } else { 0 };
                assert_eq!(words[16 * matrix + 4 * column + row], expected);
            }
        }
    }
}
