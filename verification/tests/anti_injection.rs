use runtime_guard::security::anti_injection::{
    check_suspicious_dylibs, contains_bytes, decode_pattern, is_suspicious_name,
    CYDIA_SUBSTRATE_KEY, CYDIA_SUBSTRATE_STORED, CYNJECT_KEY, CYNJECT_STORED, FRIDA_GADGET_KEY,
    FRIDA_GADGET_STORED, FRIDA_KEY, FRIDA_STORED, LIBCYCRIPT_KEY, LIBCYCRIPT_STORED,
    MOBILE_SUBSTRATE_KEY, MOBILE_SUBSTRATE_STORED, PATTERN_COUNT, SSL_KILL_SWITCH_2_KEY,
    SSL_KILL_SWITCH_2_STORED, SSL_KILL_SWITCH_KEY, SSL_KILL_SWITCH_STORED, TWEAK_INJECT_KEY,
    TWEAK_INJECT_STORED,
};

fn plain_names() -> Vec<&'static [u8]> {
    vec![
        b"FridaGadget",
        b"frida",
        b"cynject",
        b"libcycript",
        b"CydiaSubstrate",
        b"MobileSubstrate",
        b"TweakInject",
        b"SSLKillSwitch",
        b"SSLKillSwitch2",
    ]
}

fn held_constants() -> Vec<Vec<u8>> {
    vec![
        FRIDA_GADGET_STORED.to_vec(),
        FRIDA_GADGET_KEY.to_vec(),
        FRIDA_STORED.to_vec(),
        FRIDA_KEY.to_vec(),
        CYNJECT_STORED.to_vec(),
        CYNJECT_KEY.to_vec(),
        LIBCYCRIPT_STORED.to_vec(),
        LIBCYCRIPT_KEY.to_vec(),
        CYDIA_SUBSTRATE_STORED.to_vec(),
        CYDIA_SUBSTRATE_KEY.to_vec(),
        MOBILE_SUBSTRATE_STORED.to_vec(),
        MOBILE_SUBSTRATE_KEY.to_vec(),
        TWEAK_INJECT_STORED.to_vec(),
        TWEAK_INJECT_KEY.to_vec(),
        SSL_KILL_SWITCH_STORED.to_vec(),
        SSL_KILL_SWITCH_KEY.to_vec(),
        SSL_KILL_SWITCH_2_STORED.to_vec(),
        SSL_KILL_SWITCH_2_KEY.to_vec(),
    ]
}

fn names(list: &[&str]) -> Vec<Vec<u8>> {
    list.iter().map(|name| name.as_bytes().to_vec()).collect()
}

#[test]
fn nine_patterns_are_known() {
    assert_eq!(PATTERN_COUNT, 9);
    assert_eq!(plain_names().len(), PATTERN_COUNT);
}

#[test]
fn every_pattern_decodes_to_its_plain_name() {
    for (index, plain) in plain_names().iter().enumerate() {
        assert_eq!(decode_pattern(index), Some(plain.to_vec()), "pattern {}", index);
    }
}

#[test]
fn decoding_is_repeatable() {
    for index in 0..PATTERN_COUNT {
        assert_eq!(decode_pattern(index), decode_pattern(index));
    }
}

#[test]
fn no_pattern_beyond_the_last() {
    assert_eq!(decode_pattern(PATTERN_COUNT), None);
    assert_eq!(decode_pattern(PATTERN_COUNT + 1), None);
    assert_eq!(decode_pattern(usize::MAX), None);
}

#[test]
fn stored_form_differs_from_what_it_decodes_to() {
    let held = held_constants();
    for (index, plain) in plain_names().iter().enumerate() {
        assert_ne!(held[2 * index].as_slice(), *plain);
        assert_ne!(held[2 * index + 1].as_slice(), *plain);
        assert_eq!(held[2 * index].len(), plain.len());
        assert_eq!(held[2 * index + 1].len(), plain.len());
    }
}

#[test]
fn no_plain_name_stands_in_a_held_constant() {
    for constant in held_constants() {
        for plain in plain_names() {
            assert!(!contains_bytes(&constant, plain));
        }
    }
}

#[test]
fn stored_bytes_and_key_bytes_sum_within_a_byte() {
    let held = held_constants();
    for (index, plain) in plain_names().iter().enumerate() {
        for at in 0..plain.len() {
            let sum = held[2 * index][at] as u32 + held[2 * index + 1][at] as u32;
            assert!(sum <= 255);
            assert_eq!(sum, plain[at] as u32);
        }
    }
}

#[test]
fn contains_finds_a_part_at_every_place() {
    assert!(contains_bytes(b"abcdef", b"abc"));
    assert!(contains_bytes(b"abcdef", b"cd"));
    assert!(contains_bytes(b"abcdef", b"def"));
    assert!(contains_bytes(b"abcdef", b"abcdef"));
    assert!(contains_bytes(b"abcdef", b"f"));
}

#[test]
fn contains_rejects_what_is_not_a_part() {
    assert!(!contains_bytes(b"abcdef", b"abd"));
    assert!(!contains_bytes(b"abcdef", b"fa"));
    assert!(!contains_bytes(b"abcdef", b"abcdefg"));
    assert!(!contains_bytes(b"", b"a"));
    assert!(!contains_bytes(b"ace", b"ae"));
}

#[test]
fn contains_accepts_the_empty_needle() {
    assert!(contains_bytes(b"abc", b""));
    assert!(contains_bytes(b"", b""));
}

#[test]
fn contains_resumes_after_a_partial_match() {
    assert!(contains_bytes(b"aaab", b"aab"));
    assert!(contains_bytes(b"frifrida", b"frida"));
    assert!(!contains_bytes(b"frifrid", b"frida"));
}

#[test]
fn contains_is_case_sensitive() {
    assert!(!contains_bytes(b"FRIDA", b"frida"));
    assert!(!contains_bytes(b"Frida", b"frida"));
    assert!(contains_bytes(b"frida", b"frida"));
}

#[test]
fn contains_agrees_with_the_standard_search() {
    let hays = ["", "a", "ab", "frida", "xfridax", "libfrida-agent.dylib", "aaaa", "abab"];
    let needles = ["", "a", "b", "ab", "ba", "frida", "aa", "aaaaa", "bab"];
    for hay in hays {
        for needle in needles {
            assert_eq!(
                contains_bytes(hay.as_bytes(), needle.as_bytes()),
                hay.contains(needle),
                "{:?} in {:?}",
                needle,
                hay
            );
        }
    }
}

#[test]
fn frida_gadget_module_is_suspicious() {
    assert!(is_suspicious_name(b"FridaGadget.dylib"));
}

#[test]
fn every_known_name_makes_a_module_suspicious() {
    for plain in plain_names() {
        assert!(is_suspicious_name(plain));
        let mut path = b"/usr/lib/".to_vec();
        path.extend_from_slice(plain);
        path.extend_from_slice(b".dylib");
        assert!(is_suspicious_name(&path));
    }
}

#[test]
fn known_paths_of_hooking_tools_are_suspicious() {
    assert!(is_suspicious_name(b"/usr/lib/frida/frida-agent.dylib"));
    assert!(is_suspicious_name(b"/usr/lib/libcycript.dylib"));
    assert!(is_suspicious_name(b"/usr/bin/cynject"));
    assert!(is_suspicious_name(
        b"/Library/Frameworks/CydiaSubstrate.framework/CydiaSubstrate"
    ));
    assert!(is_suspicious_name(
        b"/Library/MobileSubstrate/DynamicLibraries/SSLKillSwitch2.dylib"
    ));
    assert!(is_suspicious_name(b"/usr/lib/TweakInject.dylib"));
}

#[test]
fn system_modules_are_not_suspicious() {
    assert!(!is_suspicious_name(b"/usr/lib/libSystem.B.dylib"));
    assert!(!is_suspicious_name(b"/usr/lib/libobjc.A.dylib"));
    assert!(!is_suspicious_name(
        b"/System/Library/Frameworks/Foundation.framework/Foundation"
    ));
    assert!(!is_suspicious_name(b""));
}

#[test]
fn names_in_another_case_are_not_suspicious() {
    assert!(!is_suspicious_name(b"FRIDA"));
    assert!(!is_suspicious_name(b"Frida.dylib"));
    assert!(!is_suspicious_name(b"FRIDAGADGET"));
    assert!(is_suspicious_name(b"fridagadget"));
    assert!(!is_suspicious_name(b"mobilesubstrate"));
    assert!(!is_suspicious_name(b"sslkillswitch"));
}

#[test]
fn truncated_names_are_not_suspicious() {
    assert!(!is_suspicious_name(b"frid"));
    assert!(!is_suspicious_name(b"FridaGadge"));
    assert!(!is_suspicious_name(b"SSLKillSwitc"));
    assert!(!is_suspicious_name(b"f-r-i-d-a"));
}

#[test]
fn empty_module_list_is_clean() {
    assert!(!check_suspicious_dylibs(&Vec::new()));
}

#[test]
fn clean_module_list_is_clean_at_any_length() {
    let mut modules = Vec::new();
    for round in 0..200 {
        modules.push(format!("/usr/lib/system/libsystem_{}.dylib", round).into_bytes());
        assert!(!check_suspicious_dylibs(&modules));
    }
}

#[test]
fn one_suspicious_module_taints_the_list_wherever_it_stands() {
    let clean = ["/usr/lib/libSystem.B.dylib", "/usr/lib/libobjc.A.dylib", "/usr/lib/libc++.1.dylib"];
    for place in 0..=clean.len() {
        let mut modules = names(&clean);
        modules.insert(place, b"FridaGadget.dylib".to_vec());
        assert!(check_suspicious_dylibs(&modules), "place {}", place);
    }
}

#[test]
fn verdict_does_not_depend_on_the_order() {
    let tainted = names(&["/usr/lib/a.dylib", "/usr/lib/frida-agent.dylib", "/usr/lib/b.dylib"]);
    let clean = names(&["/usr/lib/a.dylib", "/usr/lib/c.dylib", "/usr/lib/b.dylib"]);
    let orders = [[0usize, 1, 2], [0, 2, 1], [1, 0, 2], [1, 2, 0], [2, 0, 1], [2, 1, 0]];
    for order in orders {
        let shuffled: Vec<Vec<u8>> = order.iter().map(|&at| tainted[at].clone()).collect();
        assert!(check_suspicious_dylibs(&shuffled));
        let shuffled: Vec<Vec<u8>> = order.iter().map(|&at| clean[at].clone()).collect();
        assert!(!check_suspicious_dylibs(&shuffled));
    }
}

#[test]
fn list_verdict_is_that_of_its_names() {
    let modules = names(&["", "libfoo.dylib", "cynject", "libbar.dylib"]);
    let expected = modules.iter().any(|name| is_suspicious_name(name));
    assert!(expected);
    assert_eq!(check_suspicious_dylibs(&modules), expected);
}
