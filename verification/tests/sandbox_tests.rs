use std::sync::Arc;

use render_assembly::assembler::RenderInsnAssembler;
use render_assembly::commands::CommandQueue;
use render_assembly::instruction::RenderInstruction;
use render_assembly::sandbox::push_instruction;
use render_assembly::sandbox::put_sandbox;
use render_assembly::sandbox::take_sandbox;
use render_assembly::sandbox::PushOutcome;
use render_assembly::sandbox::RenderSandbox;
use render_assembly::spinlock::SpinLock;
use render_assembly::textures::sheet_layout;
use render_assembly::textures::AnimationMetadata;
use render_assembly::textures::SheetLayout;
use render_assembly::textures::TimedFrame;
use render_assembly::utils::Extract;
use render_assembly::utils::MainRenderThread;
use render_assembly::utils::Ref;

#[test]
fn without_a_sandbox_an_instruction_is_dropped() {
    let mut slot = RenderSandbox::Empty;
    assert!(matches!(push_instruction(&mut slot, RenderInstruction::PushMatrix), PushOutcome::Dropped));
    assert!(matches!(slot, RenderSandbox::Empty));
    assert_eq!(slot.get_bound_texture(), None);
    assert!(take_sandbox(&mut slot).is_none());
}

#[test]
fn a_list_takes_instructions_in_their_order() {
    let mut slot = RenderSandbox::Empty;
    put_sandbox(&mut slot, RenderSandbox::List(Vec::new()));
    assert!(matches!(push_instruction(&mut slot, RenderInstruction::PushMatrix), PushOutcome::Listed));
    assert!(matches!(slot.push(RenderInstruction::BindTexture(4)), PushOutcome::Listed));
    assert!(matches!(slot.push(RenderInstruction::PopMatrix), PushOutcome::Listed));
    match take_sandbox(&mut slot) {
        Some(RenderSandbox::List(insns)) => assert_eq!(
            insns,
            vec![
                RenderInstruction::PushMatrix,
                RenderInstruction::BindTexture(4),
                RenderInstruction::PopMatrix
            ]
        ),
        _ => panic!(),
    }
    assert!(matches!(slot, RenderSandbox::Empty));
}

#[test]
fn the_last_bind_of_a_list_counts() {
    let mut list = RenderSandbox::List(Vec::new());
    assert_eq!(list.get_bound_texture(), None);
    list.push(RenderInstruction::BindTexture(4));
    list.push(RenderInstruction::PushMatrix);
    assert_eq!(list.get_bound_texture(), Some(4));
    list.push(RenderInstruction::BindTexture(0));
    list.push(RenderInstruction::ClearDepth);
    assert_eq!(list.get_bound_texture(), Some(0));
}

#[test]
fn an_assembler_in_the_sandbox_is_fed() {
    let assembler = RenderInsnAssembler::new(CommandQueue::new());
    let mut slot = RenderSandbox::Empty;
    put_sandbox(&mut slot, RenderSandbox::Assembler(Box::new(assembler)));
    match push_instruction(&mut slot, RenderInstruction::BindTexture(12)) {
        PushOutcome::Fed(report) => {
            assert_eq!(report.consumed, 1);
            assert!(report.task.is_none());
        }
        other => panic!("{:?}", other),
    }
    assert_eq!(slot.get_bound_texture(), Some(12));
    match push_instruction(&mut slot, RenderInstruction::ClearDepth) {
        PushOutcome::Fed(report) => assert_eq!(report.consumed, 1),
        other => panic!("{:?}", other),
    }
    match take_sandbox(&mut slot) {
        Some(RenderSandbox::Assembler(assembler)) => assert_eq!(assembler.commands.len(), 1),
        _ => panic!(),
    }
}

#[test]
fn a_lock_hands_out_what_was_put_behind_it() {
    let lock = SpinLock::new(5u32);
    assert_eq!(lock.swap(6), 5);
    assert_eq!(lock.swap(7), 6);
    assert_eq!(lock.extract(), 7);
    assert_eq!(lock.extract(), 0);
    let list = SpinLock::new(Vec::new());
    list.push(1u8);
    list.push(2u8);
    assert_eq!(list.extract(), vec![1, 2]);
    assert_eq!(list.extract(), Vec::<u8>::new());
    let shared = SpinLock::new(Arc::new(String::from("a")));
    assert_eq!(*shared.get(), "a");
    shared.set(Arc::new(String::from("b")));
    assert_eq!(*shared.get(), "b");
    assert_eq!(*shared.get(), "b");
}

#[test]
fn a_shared_value_is_read_and_written_through_handles() {
    let value = Ref::new(vec![1u8]);
    let other = value.clone();
    let reader = value.read();
    assert_eq!(*reader.borrow(), vec![1]);
    reader.release_read();
    let (mut taken, handle) = other.write();
    taken.push(2);
    handle.release_write(taken);
    let reader = value.read();
    assert_eq!(*reader.borrow(), vec![1, 2]);
    reader.release_read();
}

#[test]
fn extracting_leaves_the_default_value() {
    let mut text = String::from("abc");
    assert_eq!(text.extract(), "abc");
    assert_eq!(text, "");
    let mut number = 9u8;
    assert_eq!(number.extract(), 9);
    assert_eq!(number, 0);
    let wrapped = MainRenderThread(3u8);
    assert_eq!(wrapped.0, 3);
}

#[test]
fn an_animation_starts_over_when_it_has_run_through() {
    let animation = AnimationMetadata { animation_frames: vec![3, 1, 4] };
    assert_eq!(animation.frame_at(0), Some(3));
    assert_eq!(animation.frame_at(1), Some(1));
    assert_eq!(animation.frame_at(2), Some(4));
    assert_eq!(animation.frame_at(3), Some(3));
    assert_eq!(animation.frame_at(u32::MAX), Some(3));
    assert_eq!(AnimationMetadata { animation_frames: vec![] }.frame_at(5), None);
    assert_eq!(AnimationMetadata::sequential(4).animation_frames, vec![0, 1, 2, 3]);
    assert!(AnimationMetadata::sequential(0).animation_frames.is_empty());
}

#[test]
fn a_sheet_is_cut_along_its_longer_side() {
    assert_eq!(
        sheet_layout(16, 64),
        Some(SheetLayout { sprite_size: 16, frame_count: 4, step_x: 0, step_y: 16 })
    );
    assert_eq!(
        sheet_layout(48, 16),
        Some(SheetLayout { sprite_size: 16, frame_count: 3, step_x: 16, step_y: 0 })
    );
    assert_eq!(
        sheet_layout(32, 32),
        Some(SheetLayout { sprite_size: 32, frame_count: 1, step_x: 32, step_y: 0 })
    );
    assert_eq!(sheet_layout(16, 40), None);
    assert_eq!(sheet_layout(0, 16), None);
    assert_eq!(sheet_layout(16, 0), None);
}

#[test]
fn a_guard_holds_the_lock_until_it_is_given_back() {
    let lock = SpinLock::new(vec![1u8]);
    let mut guard = lock.lock();
    assert_eq!(*guard.get(), vec![1]);
    guard.set(vec![1, 2]);
    assert_eq!(*guard.get(), vec![1, 2]);
    guard.unlock();
    assert_eq!(lock.swap(vec![]), vec![1, 2]);
    let guard = lock.lock();
    assert!(guard.get().is_empty());
    guard.unlock();
}

#[test]
fn timed_frames_are_shown_for_their_ticks() {
    let frames = [
        TimedFrame { frame_index: 2, frame_time: 3 },
        TimedFrame { frame_index: 0, frame_time: -1 },
        TimedFrame { frame_index: 7, frame_time: 0 },
        TimedFrame { frame_index: 5, frame_time: 1 },
        TimedFrame { frame_index: 9, frame_time: -4 },
        TimedFrame { frame_index: -1, frame_time: 1 },
        TimedFrame { frame_index: 65537, frame_time: 1 },
        TimedFrame { frame_index: i32::MIN, frame_time: 1 },
        TimedFrame { frame_index: -65536 - 3, frame_time: 1 },
    ];
    let animation = AnimationMetadata::from_timed_frames(&frames, 2);
    assert_eq!(
        animation.animation_frames,
        vec![2, 2, 2, 0, 0, 5, (-1i32) as u16, 65537i32 as u16, i32::MIN as u16, (-65539i32) as u16]
    );
    assert!(AnimationMetadata::from_timed_frames(&frames[1..2], -1).animation_frames.is_empty());
    assert!(AnimationMetadata::from_timed_frames(&[], 5).animation_frames.is_empty());
}
