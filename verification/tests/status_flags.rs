use hera::StatusFlags;

/// The eight registers there are, each with the word that stands for it.
fn every_register() -> Vec<(StatusFlags, u16)> {
    let mut out = Vec::new();
    for word in 0u16..8 {
        let flags = StatusFlags::from_bits(word).expect("a status word");
        out.push((flags, word));
    }
    out
}

#[test]
fn status_flags_reset_clears_all_flags() {
    let mut flags = StatusFlags::all();
    assert_eq!(
        flags,
        StatusFlags::SIGN() | StatusFlags::OVERFLOW() | StatusFlags::CARRY()
    );
    assert!(flags.is_all());
    assert!(!flags.is_empty());
    flags.reset();
    assert!(!flags.is_all());
    assert!(flags.is_empty());
}

#[test]
fn flags_default_is_empty() {
    let flags: StatusFlags = Default::default();
    assert!(!flags.is_all());
    assert!(flags.is_empty());
}

#[test]
fn fresh_flags_are_empty_and_not_all() {
    let flags = StatusFlags::empty();
    assert!(flags.is_empty());
    assert!(!flags.is_all());
    assert_eq!(flags.bits(), 0);
    assert_eq!(flags, StatusFlags::default());
}

#[test]
fn all_flags_are_the_union_of_the_three() {
    let flags = StatusFlags::all();
    assert!(flags.is_all());
    assert!(!flags.is_empty());
    assert_eq!(flags.bits(), 0b0000_0000_0000_0111);
    let mut built = StatusFlags::empty();
    built.insert(StatusFlags::SIGN());
    built.insert(StatusFlags::OVERFLOW());
    built.insert(StatusFlags::CARRY());
    assert_eq!(flags, built);
}

#[test]
fn named_flags_have_their_bits() {
    assert_eq!(StatusFlags::SIGN().bits(), 0b0000000000000001);
    assert_eq!(StatusFlags::OVERFLOW().bits(), 0b0000000000000010);
    assert_eq!(StatusFlags::CARRY().bits(), 0b0000000000000100);
    assert_ne!(StatusFlags::SIGN(), StatusFlags::OVERFLOW());
    assert_ne!(StatusFlags::OVERFLOW(), StatusFlags::CARRY());
    assert_ne!(StatusFlags::CARRY(), StatusFlags::SIGN());
}

#[test]
fn bits_is_the_sum_of_the_flag_weights() {
    assert_eq!((StatusFlags::SIGN() | StatusFlags::CARRY()).bits(), 5);
    assert_eq!((StatusFlags::SIGN() | StatusFlags::OVERFLOW()).bits(), 3);
    assert_eq!((StatusFlags::OVERFLOW() | StatusFlags::CARRY()).bits(), 6);
    assert_eq!((StatusFlags::CARRY() | StatusFlags::CARRY()).bits(), 4);
    for (flags, word) in every_register() {
        assert_eq!(flags.bits(), word);
        let mut sum = 0;
        if flags.contains(StatusFlags::SIGN()) {
            sum += 1;
        }
        if flags.contains(StatusFlags::OVERFLOW()) {
            sum += 2;
        }
        if flags.contains(StatusFlags::CARRY()) {
            sum += 4;
        }
        assert_eq!(sum, word);
    }
}

#[test]
fn reset_empties_every_register() {
    for (mut flags, _) in every_register() {
        flags.reset();
        assert!(flags.is_empty());
        assert!(!flags.is_all());
        assert_eq!(flags.bits(), 0);
        assert_eq!(flags, StatusFlags::empty());
        flags.reset();
        assert!(flags.is_empty());
        assert!(!flags.is_all());
    }
}

#[test]
fn set_carry_then_reset() {
    let mut flags = StatusFlags::empty();
    flags.insert(StatusFlags::CARRY());
    assert!(flags.contains(StatusFlags::CARRY()));
    assert!(!flags.contains(StatusFlags::SIGN()));
    assert!(!flags.contains(StatusFlags::OVERFLOW()));
    assert_eq!(flags.bits(), 4);
    flags.reset();
    assert!(!flags.contains(StatusFlags::CARRY()));
    assert!(flags.is_empty());
}

#[test]
fn from_bits_takes_status_words_only() {
    for word in 0u16..8 {
        let flags = StatusFlags::from_bits(word);
        assert!(flags.is_some());
        assert_eq!(flags.unwrap().bits(), word);
    }
    assert_eq!(StatusFlags::from_bits(0), Some(StatusFlags::empty()));
    assert_eq!(StatusFlags::from_bits(7), Some(StatusFlags::all()));
    assert_eq!(StatusFlags::from_bits(2), Some(StatusFlags::OVERFLOW()));
    assert_eq!(StatusFlags::from_bits(8), None);
    assert_eq!(StatusFlags::from_bits(9), None);
    assert_eq!(StatusFlags::from_bits(0x8000), None);
    assert_eq!(StatusFlags::from_bits(0x8001), None);
    assert_eq!(StatusFlags::from_bits(0xFFFF), None);
    for word in 8u16..=0xFFFF {
        assert!(StatusFlags::from_bits(word).is_none());
    }
}

#[test]
fn from_bits_truncate_drops_the_other_bits() {
    assert_eq!(StatusFlags::from_bits_truncate(0xFFFF), StatusFlags::all());
    assert_eq!(StatusFlags::from_bits_truncate(0xFFF8), StatusFlags::empty());
    assert_eq!(StatusFlags::from_bits_truncate(0xFFF9), StatusFlags::SIGN());
    assert_eq!(StatusFlags::from_bits_truncate(0x0104).bits(), 4);
    assert_eq!(StatusFlags::from_bits_truncate(6).bits(), 6);
    for word in 0u16..=0xFFFF {
        let flags = StatusFlags::from_bits_truncate(word);
        assert_eq!(flags.bits(), word % 8);
        assert!(flags.bits() <= 7);
    }
}

#[test]
fn no_register_has_a_bit_outside_the_flags() {
    for (a, _) in every_register() {
        for (b, _) in every_register() {
            let mut inserted = a;
            inserted.insert(b);
            let mut removed = a;
            removed.remove(b);
            let mut toggled = a;
            toggled.toggle(b);
            assert_eq!(inserted.bits() & !7, 0);
            assert_eq!(removed.bits() & !7, 0);
            assert_eq!(toggled.bits() & !7, 0);
            assert_eq!((a | b).bits() & !7, 0);
        }
    }
}

#[test]
fn insert_sets_and_keeps_the_rest() {
    let mut flags = StatusFlags::SIGN();
    flags.insert(StatusFlags::CARRY());
    assert_eq!(flags.bits(), 5);
    assert!(flags.contains(StatusFlags::SIGN()));
    assert!(flags.contains(StatusFlags::CARRY()));
    assert!(!flags.contains(StatusFlags::OVERFLOW()));
    for (a, x) in every_register() {
        for (b, y) in every_register() {
            let mut flags = a;
            flags.insert(b);
            assert_eq!(flags.bits(), x | y);
            assert_eq!(flags, a | b);
        }
    }
}

#[test]
fn insert_of_a_set_flag_changes_nothing() {
    let mut flags = StatusFlags::SIGN() | StatusFlags::OVERFLOW();
    let before = flags;
    flags.insert(StatusFlags::OVERFLOW());
    assert_eq!(flags, before);
    flags.insert(StatusFlags::OVERFLOW());
    assert_eq!(flags, before);
    flags.insert(StatusFlags::empty());
    assert_eq!(flags, before);
    let mut all = StatusFlags::all();
    all.insert(StatusFlags::all());
    assert_eq!(all, StatusFlags::all());
}

#[test]
fn remove_clears_and_keeps_the_rest() {
    let mut flags = StatusFlags::all();
    flags.remove(StatusFlags::OVERFLOW());
    assert_eq!(flags.bits(), 5);
    assert!(!flags.contains(StatusFlags::OVERFLOW()));
    assert!(flags.contains(StatusFlags::SIGN()));
    assert!(flags.contains(StatusFlags::CARRY()));
    for (a, x) in every_register() {
        for (b, y) in every_register() {
            let mut flags = a;
            flags.remove(b);
            assert_eq!(flags.bits(), x & !y);
            assert!(!flags.intersects(b));
        }
    }
}

#[test]
fn remove_of_a_clear_flag_changes_nothing() {
    let mut flags = StatusFlags::SIGN();
    let before = flags;
    flags.remove(StatusFlags::CARRY());
    assert_eq!(flags, before);
    flags.remove(StatusFlags::CARRY() | StatusFlags::OVERFLOW());
    assert_eq!(flags, before);
    flags.remove(StatusFlags::empty());
    assert_eq!(flags, before);
    let mut empty = StatusFlags::empty();
    empty.remove(StatusFlags::all());
    assert_eq!(empty, StatusFlags::empty());
}

#[test]
fn toggle_inverts_the_given_flags() {
    let mut flags = StatusFlags::SIGN() | StatusFlags::OVERFLOW();
    flags.toggle(StatusFlags::OVERFLOW() | StatusFlags::CARRY());
    assert_eq!(flags, StatusFlags::SIGN() | StatusFlags::CARRY());
    assert_eq!(flags.bits(), 5);
    flags.toggle(StatusFlags::OVERFLOW() | StatusFlags::CARRY());
    assert_eq!(flags.bits(), 3);
    for (a, x) in every_register() {
        for (b, y) in every_register() {
            let mut flags = a;
            flags.toggle(b);
            assert_eq!(flags.bits(), x ^ y);
        }
    }
}

#[test]
fn set_inserts_on_true_and_removes_on_false() {
    let mut flags = StatusFlags::empty();
    flags.set(StatusFlags::CARRY(), true);
    assert_eq!(flags, StatusFlags::CARRY());
    flags.set(StatusFlags::SIGN(), true);
    assert_eq!(flags.bits(), 5);
    flags.set(StatusFlags::CARRY(), false);
    assert_eq!(flags, StatusFlags::SIGN());
    flags.set(StatusFlags::CARRY(), false);
    assert_eq!(flags, StatusFlags::SIGN());
    flags.set(StatusFlags::SIGN(), false);
    assert!(flags.is_empty());
}

#[test]
fn contains_asks_for_every_flag_of_the_argument() {
    let flags = StatusFlags::SIGN() | StatusFlags::CARRY();
    assert!(flags.contains(StatusFlags::SIGN()));
    assert!(flags.contains(StatusFlags::CARRY()));
    assert!(flags.contains(StatusFlags::SIGN() | StatusFlags::CARRY()));
    assert!(flags.contains(StatusFlags::empty()));
    assert!(!flags.contains(StatusFlags::OVERFLOW()));
    assert!(!flags.contains(StatusFlags::SIGN() | StatusFlags::OVERFLOW()));
    assert!(!flags.contains(StatusFlags::all()));
    assert!(StatusFlags::empty().contains(StatusFlags::empty()));
    assert!(!StatusFlags::empty().contains(StatusFlags::SIGN()));
    for (a, x) in every_register() {
        for (b, y) in every_register() {
            assert_eq!(a.contains(b), x & y == y);
        }
    }
}

#[test]
fn intersects_asks_for_one_common_flag() {
    let flags = StatusFlags::SIGN() | StatusFlags::CARRY();
    assert!(flags.intersects(StatusFlags::SIGN()));
    assert!(flags.intersects(StatusFlags::SIGN() | StatusFlags::OVERFLOW()));
    assert!(flags.intersects(StatusFlags::all()));
    assert!(!flags.intersects(StatusFlags::OVERFLOW()));
    assert!(!flags.intersects(StatusFlags::empty()));
    assert!(!StatusFlags::empty().intersects(StatusFlags::all()));
    for (a, x) in every_register() {
        for (b, y) in every_register() {
            assert_eq!(a.intersects(b), x & y != 0);
        }
    }
}

#[test]
fn is_empty_and_is_all_on_every_register() {
    for (flags, word) in every_register() {
        assert_eq!(flags.is_empty(), word == 0);
        assert_eq!(flags.is_all(), word == 7);
    }
}

#[test]
fn registers_are_equal_when_their_words_are() {
    for (a, x) in every_register() {
        for (b, y) in every_register() {
            assert_eq!(a == b, x == y);
            assert_eq!(a != b, x != y);
        }
    }
    let mut built = StatusFlags::empty();
    built.insert(StatusFlags::OVERFLOW());
    assert_eq!(built, StatusFlags::OVERFLOW());
    assert_ne!(built, StatusFlags::empty());
}

#[test]
fn union_is_set_in_either() {
    assert_eq!(
        (StatusFlags::SIGN() | StatusFlags::OVERFLOW()).bits(),
        0b0000000000000011
    );
    assert_eq!(StatusFlags::SIGN() | StatusFlags::SIGN(), StatusFlags::SIGN());
    assert_eq!(StatusFlags::empty() | StatusFlags::CARRY(), StatusFlags::CARRY());
    assert_eq!(StatusFlags::all() | StatusFlags::empty(), StatusFlags::all());
    for (a, x) in every_register() {
        for (b, y) in every_register() {
            assert_eq!((a | b).bits(), x | y);
        }
    }
}

#[test]
fn a_copy_of_a_register_is_independent() {
    let flags = StatusFlags::SIGN();
    let mut copy = flags;
    copy.insert(StatusFlags::CARRY());
    assert_eq!(flags, StatusFlags::SIGN());
    assert_eq!(copy.bits(), 5);
    let mut cloned = flags.clone();
    cloned.reset();
    assert_eq!(flags.bits(), 1);
    assert!(cloned.is_empty());
}
