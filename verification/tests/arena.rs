use oui::arena::MemoryArena;

#[test]
fn basic_allocation() {
    let mut arena = MemoryArena::new(1024, 0);

    let token = arena.allocate(4, 4);
    arena.write(&token, &42u32.to_le_bytes());
    assert_eq!(arena.borrow(&token), &42u32.to_le_bytes());

    let token2 = arena.allocate(8, 8);
    arena.write(&token2, &std::f64::consts::PI.to_le_bytes());
    assert_eq!(arena.borrow(&token2), &std::f64::consts::PI.to_le_bytes());
}

#[test]
fn array_allocation() {
    let mut arena = MemoryArena::new(1024, 0);

    let token = arena.allocate_array(4, 4, 4);
    assert_eq!(arena.borrow_slice(&token), &[0u8; 16]);

    let mut bytes = Vec::new();
    for v in [1u32, 2, 3, 4] {
        bytes.extend_from_slice(&v.to_le_bytes());
    }
    arena.write_slice(&token, &bytes);

    assert_eq!(arena.borrow_slice(&token), bytes.as_slice());
    assert_eq!(token.len(), 4);
}

#[test]
fn cleaning() {
    let mut arena = MemoryArena::new(1024, 0);

    let token = arena.allocate(4, 4);
    arena.write(&token, &42u32.to_le_bytes());
    assert_eq!(arena.borrow(&token), &42u32.to_le_bytes());

    arena.clean();

    let token2 = arena.allocate(4, 4);
    assert_eq!(arena.borrow(&token2), &[0u8; 4]);
}

#[test]
fn try_borrow_after_clean() {
    let mut arena = MemoryArena::new(1024, 0);

    let token = arena.allocate(4, 4);
    arena.write(&token, &42u32.to_le_bytes());
    assert_eq!(arena.try_borrow(&token).unwrap(), &42u32.to_le_bytes());

    arena.clean();

    // The token is from a previous generation.
    assert!(arena.try_borrow(&token).is_none());
}

#[test]
fn used_sums_aligned_sizes() {
    let mut arena = MemoryArena::new(1024, 0);
    assert_eq!(arena.used(), 0);

    arena.allocate(8, 8);
    arena.allocate(8, 8);
    arena.allocate(8, 8);
    assert_eq!(arena.used(), 24);

    // One odd-sized allocation pads the next one up to its alignment.
    arena.allocate(3, 1);
    assert_eq!(arena.used(), 27);
    arena.allocate(8, 8);
    assert_eq!(arena.used(), 40);
    assert_eq!(arena.size(), 1024);
}

#[test]
fn arena_reuse_across_frames() {
    let mut arena = MemoryArena::new(1024, 0);

    let mut old_tokens = Vec::new();
    for _ in 0..8 {
        let t = arena.allocate(16, 8);
        arena.write(&t, &[7u8; 16]);
        old_tokens.push(t);
    }
    assert_eq!(arena.used(), 128);

    arena.clean();
    assert_eq!(arena.used(), 0);

    let mut new_tokens = Vec::new();
    for _ in 0..8 {
        new_tokens.push(arena.allocate(16, 8));
    }
    assert_eq!(arena.used(), 128);

    for t in &old_tokens {
        assert!(arena.try_borrow(t).is_none());
    }
    for t in &new_tokens {
        assert_eq!(arena.borrow(t), &[0u8; 16]);
    }
}

#[test]
fn write_leaves_other_allocations() {
    let mut arena = MemoryArena::new(1024, 0);
    let a = arena.allocate(4, 4);
    let b = arena.allocate(4, 4);
    arena.write(&a, &[1, 2, 3, 4]);
    arena.write(&b, &[5, 6, 7, 8]);
    assert_eq!(arena.borrow(&a), &[1, 2, 3, 4]);
    assert_eq!(arena.borrow(&b), &[5, 6, 7, 8]);
}
