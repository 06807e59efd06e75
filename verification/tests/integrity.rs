use runtime_guard::security::integrity::{
    check_function_integrity, check_integrity, ARM64_B_MASK, ARM64_B_OPCODE, ARM64_RET,
};

#[test]
fn opcode_constants_are_those_of_arm64() {
    assert_eq!(ARM64_RET, 0xD65F03C0);
    assert_eq!(ARM64_B_MASK, 0xFC000000);
    assert_eq!(ARM64_B_OPCODE, 0x14000000);
}

#[test]
fn bare_return_is_a_failure() {
    assert!(!check_function_integrity(0xD65F03C0));
    assert!(!check_integrity(Some(0xD65F03C0)));
}

#[test]
fn unconditional_branch_is_a_failure() {
    for word in [0x14000000u32, 0x14000001, 0x14000010, 0x15ABCDEF, 0x17FFFFFF] {
        assert_eq!(word & 0xFC000000, 0x14000000);
        assert!(!check_function_integrity(word), "{:#010x}", word);
        assert!(!check_integrity(Some(word)), "{:#010x}", word);
    }
}

#[test]
fn words_next_to_the_branch_range_pass() {
    assert!(check_function_integrity(0x13FFFFFF));
    assert!(check_function_integrity(0x18000000));
}

#[test]
fn ordinary_prologue_words_pass() {
    // stp x29, x30, [sp, #-16]! ; sub sp, sp, #0x20 ; paciasp
    for word in [0xA9BF7BFDu32, 0xD10083FF, 0xD503233F, 0x00000000, 0xFFFFFFFF] {
        assert!(check_function_integrity(word), "{:#010x}", word);
        assert!(check_integrity(Some(word)), "{:#010x}", word);
    }
}

#[test]
fn other_branch_forms_are_not_looked_for() {
    // bl, br x16, ret x1: the check is narrow on purpose.
    for word in [0x94000010u32, 0xD61F0200, 0xD65F0020] {
        assert!(check_function_integrity(word), "{:#010x}", word);
    }
}

#[test]
fn return_differs_from_every_branch() {
    assert_ne!(ARM64_RET & ARM64_B_MASK, ARM64_B_OPCODE);
}

#[test]
fn unread_entry_is_a_failure() {
    assert!(!check_integrity(None));
}

#[test]
fn integrity_agrees_with_the_mask_rule_on_a_sweep() {
    let mut word: u32 = 0;
    loop {
        let expected = word != 0xD65F03C0 && (word & 0xFC000000) != 0x14000000;
        assert_eq!(check_function_integrity(word), expected, "{:#010x}", word);
        match word.checked_add(0x00FF_FFC1) {
            Some(next) => word = next,
            None => break,
        }
    }
}
