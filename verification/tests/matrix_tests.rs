use render_assembly::matrix::Mat4;
use render_assembly::matrix::MatrixStack;
use render_assembly::matrix::Vec4;

fn matrix_of(seed: u32) -> Mat4 {
    let mut cells = [0u32; 16];
    for (i, cell) in cells.iter_mut().enumerate() {
        *cell = (seed as f32 + i as f32).to_bits();
    }
    Mat4 { cells }
}

#[test]
fn the_identity_has_ones_on_the_diagonal() {
    let identity = Mat4::identity();
    for column in 0..4 {
        for row in 0..4 {
            let want = if column == row { 1.0f32 } else { 0.0 };
            assert_eq!(f32::from_bits(identity.cells[column * 4 + row]), want);
        }
    }
    assert!(identity.equals(&Mat4::identity()));
    assert!(!identity.equals(&matrix_of(3)));
    let mut other = Mat4::identity();
    other.cells[15] = 0;
    assert!(!identity.equals(&other));
}

#[test]
fn white_and_zero() {
    let white = Vec4::ones();
    assert_eq!(
        [white.x, white.y, white.z, white.w].map(f32::from_bits),
        [1.0, 1.0, 1.0, 1.0]
    );
    assert_eq!(Vec4::zeros(), Vec4 { x: 0, y: 0, z: 0, w: 0 });
}

#[test]
fn a_new_stack_holds_the_identity() {
    let stack = MatrixStack::new();
    assert_eq!(*stack.get(), Mat4::identity());
}

#[test]
fn push_puts_the_top_on_top_once_more() {
    let mut stack = MatrixStack::new();
    stack.set(matrix_of(1));
    stack.push();
    assert_eq!(*stack.get(), matrix_of(1));
    stack.set(matrix_of(2));
    assert_eq!(*stack.get(), matrix_of(2));
    stack.pop();
    assert_eq!(*stack.get(), matrix_of(1));
}

#[test]
fn pop_stops_at_the_first_matrix() {
    let mut stack = MatrixStack::new();
    stack.set(matrix_of(9));
    for _ in 0..10 {
        stack.pop();
        assert_eq!(*stack.get(), matrix_of(9));
    }
    stack.push();
    stack.pop();
    stack.pop();
    stack.pop();
    assert_eq!(*stack.get(), matrix_of(9));
}

#[test]
fn a_slot_that_was_left_is_used_again() {
    let mut stack = MatrixStack::new();
    stack.push();
    stack.push();
    stack.set(matrix_of(5));
    stack.pop();
    stack.pop();
    stack.set(matrix_of(6));
    stack.push();
    assert_eq!(*stack.get(), matrix_of(6));
    stack.push();
    assert_eq!(*stack.get(), matrix_of(6));
    stack.push();
    assert_eq!(*stack.get(), matrix_of(6));
}

#[test]
fn any_run_of_pushes_and_pops_leaves_a_matrix_on_top() {
    let mut stack = MatrixStack::new();
    let mut depth = 0usize;
    let mut state = 12345u32;
    for step in 0..2000 {
        state = state.wrapping_mul(1664525).wrapping_add(1013904223);
        if state >> 31 == 0 {
            stack.push();
            depth += 1;
            stack.set(matrix_of(step));
        } else {
            stack.pop();
            depth = depth.saturating_sub(1);
        }
        let _ = stack.get();
    }
    for _ in 0..depth + 3 {
        stack.pop();
    }
    let _ = stack.get();
}

#[test]
fn load_identity_replaces_the_top_only() {
    let mut stack = MatrixStack::new();
    stack.set(matrix_of(1));
    stack.push();
    stack.set(matrix_of(2));
    stack.load_identity();
    assert_eq!(*stack.get(), Mat4::identity());
    stack.pop();
    assert_eq!(*stack.get(), matrix_of(1));
}
