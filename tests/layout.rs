use emscripten_env::layout::{
    align_memory, compute_layout, dynamic_base, dynamictop_ptr, stack_max, stacktop, try_compute_layout,
    MemoryLayout, MAX_STATIC_BUMP, STATIC_BUMP,
};

#[test]
fn default_layout_values() {
    assert_eq!(STATIC_BUMP, 215536);
    assert_eq!(dynamictop_ptr(215536), 216624);
    assert_eq!(stacktop(215536), 216640);
    assert_eq!(stack_max(215536), 5459520);
    assert_eq!(dynamic_base(215536), 5459520);
    assert_eq!(
        compute_layout(215536),
        MemoryLayout { dynamictop_ptr: 216624, stacktop: 216640, stack_max: 5459520, dynamic_base: 5459520 }
    );
}

#[test]
fn align_memory_rounds_up_to_sixteen() {
    assert_eq!(align_memory(0), 0);
    assert_eq!(align_memory(1), 16);
    assert_eq!(align_memory(16), 16);
    assert_eq!(align_memory(17), 32);
    assert_eq!(align_memory(216628), 216640);
    assert_eq!(align_memory(u32::MAX - 15), u32::MAX - 15);
}

#[test]
fn layouts_are_ordered_and_aligned() {
    for sb in [0u32, 1, 15, 16, 1000, 215536, 1 << 20, 123456789, MAX_STATIC_BUMP - 1, MAX_STATIC_BUMP] {
        let l = compute_layout(sb);
        assert!(l.dynamictop_ptr < l.stacktop, "{}", sb);
        assert!(l.stacktop <= l.stack_max);
        assert!(l.stack_max <= l.dynamic_base);
        assert_eq!(l.stacktop % 16, 0);
        assert_eq!(l.stack_max % 16, 0);
        assert_eq!(l.dynamic_base % 16, 0);
    }
}

#[test]
fn zero_static_data() {
    let l = compute_layout(0);
    assert_eq!(l, MemoryLayout { dynamictop_ptr: 1088, stacktop: 1104, stack_max: 5243984, dynamic_base: 5243984 });
}

#[test]
fn largest_static_data_fits() {
    let l = try_compute_layout(MAX_STATIC_BUMP).unwrap();
    assert_eq!(l.dynamic_base, 4294967280);
    assert_eq!(try_compute_layout(MAX_STATIC_BUMP + 1), None);
    assert_eq!(try_compute_layout(u32::MAX), None);
    assert_eq!(try_compute_layout(215536), Some(compute_layout(215536)));
}

#[test]
fn step_functions_cover_their_own_range() {
    assert_eq!(dynamictop_ptr(u32::MAX - 1088), u32::MAX);
    assert_eq!(stacktop(u32::MAX - 1107), 4294967280);
    for sb in [0u32, 5, 1000, 215536, u32::MAX - 1107 - 16] {
        assert_eq!(stacktop(sb + 16), stacktop(sb) + 16);
        assert!(dynamictop_ptr(sb) + 4 <= stacktop(sb) && stacktop(sb) <= dynamictop_ptr(sb) + 19);
    }
}
