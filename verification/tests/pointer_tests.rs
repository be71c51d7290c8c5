use render_assembly::gl::PointerArrayType;
use render_assembly::gl::PointerDataType;
use render_assembly::instruction::RenderInstruction;
use render_assembly::pointer::pack_pointer_array;
use render_assembly::pointer::PackedPointer;
use render_assembly::pointer::PointerError;

#[test]
fn padding_between_vectors_is_dropped() {
    let mut source = vec![0u8; 20];
    let mut want = Vec::new();
    for group in 0..5u8 {
        for b in 0..3u8 {
            source[(group * 4 + b) as usize] = 10 * group + b + 1;
            want.push(10 * group + b + 1);
        }
        source[(group * 4 + 3) as usize] = 0xEE;
    }
    let packed = pack_pointer_array(3, 4, PointerDataType::U8, &source).unwrap();
    assert_eq!(packed.vec_count, 5);
    assert_eq!(packed.data.len(), 15);
    assert_eq!(packed.data, want);
}

#[test]
fn a_stride_of_zero_means_tightly_packed() {
    let source: Vec<u8> = (0..24).collect();
    let packed = pack_pointer_array(3, 0, PointerDataType::I16, &source).unwrap();
    assert_eq!(packed, PackedPointer { vec_count: 4, data: source.clone() });
    let same = pack_pointer_array(3, 6, PointerDataType::I16, &source).unwrap();
    assert_eq!(same, PackedPointer { vec_count: 4, data: source });
}

#[test]
fn bytes_that_do_not_fill_a_stride_are_left_out() {
    let source: Vec<u8> = (0..19).collect();
    let packed = pack_pointer_array(3, 4, PointerDataType::U8, &source).unwrap();
    assert_eq!(packed.vec_count, 4);
    assert_eq!(packed.data, vec![0, 1, 2, 4, 5, 6, 8, 9, 10, 12, 13, 14]);
    let empty = pack_pointer_array(2, 0, PointerDataType::F64, &[1, 2, 3]).unwrap();
    assert_eq!(empty, PackedPointer { vec_count: 0, data: vec![] });
}

#[test]
fn vectors_of_no_or_too_many_items_are_refused() {
    assert_eq!(pack_pointer_array(0, 4, PointerDataType::U8, &[0; 8]), Err(PointerError::BadElementCount));
    assert_eq!(pack_pointer_array(5, 0, PointerDataType::U8, &[0; 8]), Err(PointerError::BadElementCount));
    assert_eq!(pack_pointer_array(0, 0, PointerDataType::U8, &[0; 8]), Err(PointerError::BadElementCount));
}

#[test]
fn a_last_vector_that_overruns_the_source_is_refused() {
    assert_eq!(
        pack_pointer_array(3, 2, PointerDataType::U8, &[0, 1, 2, 3]),
        Err(PointerError::VectorOutOfBounds)
    );
    assert_eq!(
        pack_pointer_array(4, 3, PointerDataType::F32, &[0; 18]),
        Err(PointerError::VectorOutOfBounds)
    );
}

#[test]
fn vectors_may_overlap_where_they_fit() {
    let packed = pack_pointer_array(3, 2, PointerDataType::U8, &[0, 1, 2, 3, 4]).unwrap();
    assert_eq!(packed, PackedPointer { vec_count: 2, data: vec![0, 1, 2, 2, 3, 4] });
}

#[test]
fn the_instruction_holds_the_packed_vectors() {
    let source: Vec<u8> = (0..32).collect();
    let insn = RenderInstruction::set_pointer(
        2,
        16,
        PointerArrayType::TexCoord,
        PointerDataType::F32,
        &source,
    )
    .unwrap();
    match insn {
        RenderInstruction::SetPointer { vec_count, array_type, item_type, data, size } => {
            assert_eq!(vec_count, 2);
            assert_eq!(array_type, PointerArrayType::TexCoord);
            assert_eq!(item_type, PointerDataType::F32);
            assert_eq!(size, 2);
            assert_eq!(*data, vec![0, 1, 2, 3, 4, 5, 6, 7, 16, 17, 18, 19, 20, 21, 22, 23]);
        }
        other => panic!("{:?}", other),
    }
    assert_eq!(
        RenderInstruction::set_pointer(9, 0, PointerArrayType::Color, PointerDataType::U8, &source),
        Err(PointerError::BadElementCount)
    );
}
