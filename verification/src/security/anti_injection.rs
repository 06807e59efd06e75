//! Scan of the loaded modules for the names of known hooking tools.
//!
//! The names to look for are kept masked: each is stored as a byte array
//! together with a key stream, and is unmasked one at a time while a module
//! name is examined. The plain names are written down in ghost code only,
//! which leaves no trace in the compiled program.

use vstd::prelude::*;
use vstd::slice::slice_to_vec;

verus! {

/// How many names of hooking tools are known.
pub const PATTERN_COUNT: usize = 9;

// Each known name as it is held: the masked bytes (`_STORED`) and the key
// stream (`_KEY`) that unmasks them. Added byte by byte they give the name.

pub const FRIDA_GADGET_STORED: [u8; 11] = [
    0x18, 0x41, 0x19, 0x5B, 0x03, 0x25, 0x2D, 0x48, 0x54, 0x54, 0x26,
];

pub const FRIDA_GADGET_KEY: [u8; 11] = [
    0x2E, 0x31, 0x50, 0x09, 0x5E, 0x22, 0x34, 0x1C, 0x13, 0x11, 0x4E,
];

pub const FRIDA_STORED: [u8; 5] = [0x21, 0x5B, 0x50, 0x15, 0x48];

pub const FRIDA_KEY: [u8; 5] = [0x45, 0x17, 0x19, 0x4F, 0x19];

pub const CYNJECT_STORED: [u8; 7] = [0x4B, 0x1B, 0x28, 0x2C, 0x19, 0x2C, 0x59];

pub const CYNJECT_KEY: [u8; 7] = [0x18, 0x5E, 0x46, 0x3E, 0x4C, 0x37, 0x1B];

pub const LIBCYCRIPT_STORED: [u8; 10] = [
    0x1C, 0x3B, 0x06, 0x3E, 0x0A, 0x0F, 0x1C, 0x37, 0x48, 0x14,
];

pub const LIBCYCRIPT_KEY: [u8; 10] = [
    0x50, 0x2E, 0x5C, 0x25, 0x6F, 0x54, 0x56, 0x32, 0x28, 0x60,
];

pub const CYDIA_SUBSTRATE_STORED: [u8; 14] = [
    0x27, 0x62, 0x2C, 0x22, 0x40, 0x1A, 0x46, 0x1C, 0x1A, 0x6F, 0x14, 0x4B, 0x24, 0x20,
];

pub const CYDIA_SUBSTRATE_KEY: [u8; 14] = [
    0x1C, 0x17, 0x38, 0x47, 0x21, 0x39, 0x2F, 0x46, 0x59, 0x05, 0x5E, 0x16, 0x50, 0x45,
];

pub const MOBILE_SUBSTRATE_STORED: [u8; 15] = [
    0x01, 0x25, 0x54, 0x25, 0x21, 0x2F, 0x17, 0x6E, 0x55, 0x1D, 0x69, 0x25, 0x60, 0x46, 0x4D,
];

pub const MOBILE_SUBSTRATE_KEY: [u8; 15] = [
    0x4C, 0x4A, 0x0E, 0x44, 0x4B, 0x36, 0x3C, 0x07, 0x0D, 0x56, 0x0B, 0x4D, 0x01, 0x2E, 0x18,
];

pub const TWEAK_INJECT_STORED: [u8; 11] = [
    0x44, 0x6A, 0x02, 0x1A, 0x36, 0x0D, 0x5D, 0x26, 0x64, 0x25, 0x46,
];

pub const TWEAK_INJECT_KEY: [u8; 11] = [
    0x10, 0x0D, 0x63, 0x47, 0x35, 0x3C, 0x11, 0x44, 0x01, 0x3E, 0x2E,
];

pub const SSL_KILL_SWITCH_STORED: [u8; 13] = [
    0x28, 0x07, 0x21, 0x32, 0x61, 0x5E, 0x3C, 0x43, 0x6E, 0x59, 0x30, 0x0E, 0x3B,
];

pub const SSL_KILL_SWITCH_KEY: [u8; 13] = [
    0x2B, 0x4C, 0x2B, 0x19, 0x08, 0x0E, 0x30, 0x10, 0x09, 0x10, 0x44, 0x55, 0x2D,
];

pub const SSL_KILL_SWITCH_2_STORED: [u8; 14] = [
    0x4C, 0x27, 0x06, 0x32, 0x24, 0x33, 0x5D, 0x51, 0x26, 0x53, 0x04, 0x30, 0x39, 0x04,
];

pub const SSL_KILL_SWITCH_2_KEY: [u8; 14] = [
    0x07, 0x2C, 0x46, 0x19, 0x45, 0x39, 0x0F, 0x02, 0x51, 0x16, 0x70, 0x33, 0x2F, 0x2E,
];

/// The bytes of a text of ASCII characters.
pub open spec fn ascii(text: Seq<char>) -> Seq<u8> {
    Seq::new(text.len(), |i: int| text[i] as u8)
}

/// The names looked for, in the order in which they are tried.
pub open spec fn known_patterns() -> Seq<Seq<u8>> {
    seq![
        ascii("FridaGadget"@),
        ascii("frida"@),
        ascii("cynject"@),
        ascii("libcycript"@),
        ascii("CydiaSubstrate"@),
        ascii("MobileSubstrate"@),
        ascii("TweakInject"@),
        ascii("SSLKillSwitch"@),
        ascii("SSLKillSwitch2"@),
    ]
}

/// The masked form of each name, as it is held in the program.
pub open spec fn stored_patterns() -> Seq<Seq<u8>> {
    seq![
        FRIDA_GADGET_STORED@,
        FRIDA_STORED@,
        CYNJECT_STORED@,
        LIBCYCRIPT_STORED@,
        CYDIA_SUBSTRATE_STORED@,
        MOBILE_SUBSTRATE_STORED@,
        TWEAK_INJECT_STORED@,
        SSL_KILL_SWITCH_STORED@,
        SSL_KILL_SWITCH_2_STORED@,
    ]
}

/// The key stream of each name.
pub open spec fn pattern_keys() -> Seq<Seq<u8>> {
    seq![
        FRIDA_GADGET_KEY@,
        FRIDA_KEY@,
        CYNJECT_KEY@,
        LIBCYCRIPT_KEY@,
        CYDIA_SUBSTRATE_KEY@,
        MOBILE_SUBSTRATE_KEY@,
        TWEAK_INJECT_KEY@,
        SSL_KILL_SWITCH_KEY@,
        SSL_KILL_SWITCH_2_KEY@,
    ]
}

/// Byte by byte, the sum of a stored pattern and its key stream.
pub open spec fn unmasked(stored: Seq<u8>, key: Seq<u8>) -> Seq<u8> {
    Seq::new(stored.len(), |i: int| (stored[i] + key[i]) as u8)
}

/// The key stream is as long as the stored pattern, and no stored byte added
/// to its key byte exceeds a byte.
pub open spec fn unmasks_within_bytes(stored: Seq<u8>, key: Seq<u8>) -> bool {
    &&& stored.len() == key.len()
    &&& forall|i: int| 0 <= i < stored.len() ==> #[trigger] stored[i] + key[i] <= 255
}

/// `needle` stands in `hay` from index `at` on.
pub open spec fn occurs_at(needle: Seq<u8>, hay: Seq<u8>, at: int) -> bool {
    &&& 0 <= at
    &&& at + needle.len() <= hay.len()
    &&& hay.subrange(at, at + needle.len()) == needle
}

/// `needle` is a contiguous part of `hay`. Bytes are compared as they are, so
/// letters of different case differ.
pub open spec fn occurs_in(needle: Seq<u8>, hay: Seq<u8>) -> bool {
    exists|at: int| occurs_at(needle, hay, at)
}

/// A module name is suspicious when one of the known names is a part of it.
pub open spec fn name_suspicious(name: Seq<u8>) -> bool {
    exists|k: int|
        0 <= k < known_patterns().len() && occurs_in(#[trigger] known_patterns()[k], name)
}

/// A module list is suspicious when one of its names is.
pub open spec fn list_suspicious(names: Seq<Seq<u8>>) -> bool {
    exists|i: int| 0 <= i < names.len() && name_suspicious(#[trigger] names[i])
}

/// The names of a module list as sequences of bytes.
pub open spec fn names_of(modules: Seq<Vec<u8>>) -> Seq<Seq<u8>> {
    Seq::new(modules.len(), |i: int| modules[i]@)
}

/// Calls `obfstr::bytes::deobfuscate` on the stored bytes, held in an
/// `obfstr::bytes::Obfuscated` without padding, and the key stream.
///
/// That function adds the key stream to the stored bytes with wrapping
/// addition, in words of eight, four, two and one bytes read in the machine's
/// byte order. The contract claims the result only where no stored byte added
/// to its key byte exceeds 255: then no carry leaves a byte, and each byte of
/// the result is the sum of the two bytes at its index, whatever the word
/// size and the byte order.
#[verifier::external_body]
fn unmask<const N: usize>(stored: &[u8; N], key: &[u8; N]) -> (plain: [u8; N])
    requires
        unmasks_within_bytes(stored@, key@),
    ensures
        plain@ == unmasked(stored@, key@),
{
    let held = obfstr::bytes::Obfuscated::<N, 0> { data: *stored, padding: [] };
    obfstr::bytes::deobfuscate(&held, key)
}

proof fn lemma_unmask_frida_gadget()
    ensures
        unmasks_within_bytes(FRIDA_GADGET_STORED@, FRIDA_GADGET_KEY@),
        unmasked(FRIDA_GADGET_STORED@, FRIDA_GADGET_KEY@) == ascii("FridaGadget"@),
{
    reveal_strlit("FridaGadget");
    assert(unmasked(FRIDA_GADGET_STORED@, FRIDA_GADGET_KEY@) =~= ascii("FridaGadget"@));
}

proof fn lemma_unmask_frida()
    ensures
        unmasks_within_bytes(FRIDA_STORED@, FRIDA_KEY@),
        unmasked(FRIDA_STORED@, FRIDA_KEY@) == ascii("frida"@),
{
    reveal_strlit("frida");
    assert(unmasked(FRIDA_STORED@, FRIDA_KEY@) =~= ascii("frida"@));
}

proof fn lemma_unmask_cynject()
    ensures
        unmasks_within_bytes(CYNJECT_STORED@, CYNJECT_KEY@),
        unmasked(CYNJECT_STORED@, CYNJECT_KEY@) == ascii("cynject"@),
{
    reveal_strlit("cynject");
    assert(unmasked(CYNJECT_STORED@, CYNJECT_KEY@) =~= ascii("cynject"@));
}

proof fn lemma_unmask_libcycript()
    ensures
        unmasks_within_bytes(LIBCYCRIPT_STORED@, LIBCYCRIPT_KEY@),
        unmasked(LIBCYCRIPT_STORED@, LIBCYCRIPT_KEY@) == ascii("libcycript"@),
{
    reveal_strlit("libcycript");
    assert(unmasked(LIBCYCRIPT_STORED@, LIBCYCRIPT_KEY@) =~= ascii("libcycript"@));
}

proof fn lemma_unmask_cydia_substrate()
    ensures
        unmasks_within_bytes(CYDIA_SUBSTRATE_STORED@, CYDIA_SUBSTRATE_KEY@),
        unmasked(CYDIA_SUBSTRATE_STORED@, CYDIA_SUBSTRATE_KEY@) == ascii("CydiaSubstrate"@),
{
    reveal_strlit("CydiaSubstrate");
    assert(unmasked(CYDIA_SUBSTRATE_STORED@, CYDIA_SUBSTRATE_KEY@) =~= ascii(
        "CydiaSubstrate"@,
    ));
}

proof fn lemma_unmask_mobile_substrate()
    ensures
        unmasks_within_bytes(MOBILE_SUBSTRATE_STORED@, MOBILE_SUBSTRATE_KEY@),
        unmasked(MOBILE_SUBSTRATE_STORED@, MOBILE_SUBSTRATE_KEY@) == ascii("MobileSubstrate"@),
{
    reveal_strlit("MobileSubstrate");
    assert(unmasked(MOBILE_SUBSTRATE_STORED@, MOBILE_SUBSTRATE_KEY@) =~= ascii(
        "MobileSubstrate"@,
    ));
}

proof fn lemma_unmask_tweak_inject()
    ensures
        unmasks_within_bytes(TWEAK_INJECT_STORED@, TWEAK_INJECT_KEY@),
        unmasked(TWEAK_INJECT_STORED@, TWEAK_INJECT_KEY@) == ascii("TweakInject"@),
{
    reveal_strlit("TweakInject");
    assert(unmasked(TWEAK_INJECT_STORED@, TWEAK_INJECT_KEY@) =~= ascii("TweakInject"@));
}

proof fn lemma_unmask_ssl_kill_switch()
    ensures
        unmasks_within_bytes(SSL_KILL_SWITCH_STORED@, SSL_KILL_SWITCH_KEY@),
        unmasked(SSL_KILL_SWITCH_STORED@, SSL_KILL_SWITCH_KEY@) == ascii("SSLKillSwitch"@),
{
    reveal_strlit("SSLKillSwitch");
    assert(unmasked(SSL_KILL_SWITCH_STORED@, SSL_KILL_SWITCH_KEY@) =~= ascii(
        "SSLKillSwitch"@,
    ));
}

proof fn lemma_unmask_ssl_kill_switch_2()
    ensures
        unmasks_within_bytes(SSL_KILL_SWITCH_2_STORED@, SSL_KILL_SWITCH_2_KEY@),
        unmasked(SSL_KILL_SWITCH_2_STORED@, SSL_KILL_SWITCH_2_KEY@) == ascii("SSLKillSwitch2"@),
{
    reveal_strlit("SSLKillSwitch2");
    assert(unmasked(SSL_KILL_SWITCH_2_STORED@, SSL_KILL_SWITCH_2_KEY@) =~= ascii(
        "SSLKillSwitch2"@,
    ));
}

/// Unmasking is the inverse of the masking that was applied to each name:
/// every stored pattern, with its key stream, gives back its plain name, byte
/// for byte, and no byte sum leaves a byte on the way.
pub proof fn lemma_patterns_unmask()
    ensures
        known_patterns().len() == PATTERN_COUNT,
        stored_patterns().len() == PATTERN_COUNT,
        pattern_keys().len() == PATTERN_COUNT,
        forall|k: int|
            0 <= k < PATTERN_COUNT ==> unmasks_within_bytes(
                #[trigger] stored_patterns()[k],
                pattern_keys()[k],
            ),
        forall|k: int|
            0 <= k < PATTERN_COUNT ==> unmasked(#[trigger] stored_patterns()[k], pattern_keys()[k])
                == known_patterns()[k],
{
    lemma_unmask_frida_gadget();
    lemma_unmask_frida();
    lemma_unmask_cynject();
    lemma_unmask_libcycript();
    lemma_unmask_cydia_substrate();
    lemma_unmask_mobile_substrate();
    lemma_unmask_tweak_inject();
    lemma_unmask_ssl_kill_switch();
    lemma_unmask_ssl_kill_switch_2();
}

/// No name is held as it is spelled: the stored form of each differs from
/// the plain name, and so does its key stream.
pub proof fn lemma_patterns_are_masked()
    ensures
        forall|k: int|
            0 <= k < PATTERN_COUNT ==> #[trigger] stored_patterns()[k] != known_patterns()[k],
        forall|k: int|
            0 <= k < PATTERN_COUNT ==> #[trigger] pattern_keys()[k] != known_patterns()[k],
{
    lemma_patterns_unmask();
    assert forall|k: int| 0 <= k < PATTERN_COUNT implies #[trigger] stored_patterns()[k]
        != known_patterns()[k] && pattern_keys()[k] != known_patterns()[k] by {
        let stored = stored_patterns()[k];
        let key = pattern_keys()[k];
        assert(unmasks_within_bytes(stored, key));
        assert(unmasked(stored, key) == known_patterns()[k]);
        assert(stored[0] + key[0] <= 255);
        assert(unmasked(stored, key)[0] == stored[0] + key[0]);
        assert(stored[0] != 0 && key[0] != 0);
    }
}

/// Unmasks one known name. `Some` for an index below `PATTERN_COUNT`, holding
/// the plain name; `None` for any other index.
pub fn decode_pattern(index: usize) -> (plain: Option<Vec<u8>>)
    ensures
        match plain {
            Some(bytes) => index < PATTERN_COUNT && bytes@ == known_patterns()[index as int],
            None => index >= PATTERN_COUNT,
        },
{
    proof {
        lemma_patterns_unmask();
        assert(forall|k: int|
            0 <= k < PATTERN_COUNT ==> unmasked(#[trigger] stored_patterns()[k], pattern_keys()[k])
                == known_patterns()[k]);
    }
    match index {
        0 => {
            assert(unmasks_within_bytes(stored_patterns()[0], pattern_keys()[0]));
            let plain = unmask(&FRIDA_GADGET_STORED, &FRIDA_GADGET_KEY);
            Some(slice_to_vec(plain.as_slice()))
        },
        1 => {
            assert(unmasks_within_bytes(stored_patterns()[1], pattern_keys()[1]));
            let plain = unmask(&FRIDA_STORED, &FRIDA_KEY);
            Some(slice_to_vec(plain.as_slice()))
        },
        2 => {
            assert(unmasks_within_bytes(stored_patterns()[2], pattern_keys()[2]));
            let plain = unmask(&CYNJECT_STORED, &CYNJECT_KEY);
            Some(slice_to_vec(plain.as_slice()))
        },
        3 => {
            assert(unmasks_within_bytes(stored_patterns()[3], pattern_keys()[3]));
            let plain = unmask(&LIBCYCRIPT_STORED, &LIBCYCRIPT_KEY);
            Some(slice_to_vec(plain.as_slice()))
        },
        4 => {
            assert(unmasks_within_bytes(stored_patterns()[4], pattern_keys()[4]));
            let plain = unmask(&CYDIA_SUBSTRATE_STORED, &CYDIA_SUBSTRATE_KEY);
            Some(slice_to_vec(plain.as_slice()))
        },
        5 => {
            assert(unmasks_within_bytes(stored_patterns()[5], pattern_keys()[5]));
            let plain = unmask(&MOBILE_SUBSTRATE_STORED, &MOBILE_SUBSTRATE_KEY);
            Some(slice_to_vec(plain.as_slice()))
        },
        6 => {
            assert(unmasks_within_bytes(stored_patterns()[6], pattern_keys()[6]));
            let plain = unmask(&TWEAK_INJECT_STORED, &TWEAK_INJECT_KEY);
            Some(slice_to_vec(plain.as_slice()))
        },
        7 => {
            assert(unmasks_within_bytes(stored_patterns()[7], pattern_keys()[7]));
            let plain = unmask(&SSL_KILL_SWITCH_STORED, &SSL_KILL_SWITCH_KEY);
            Some(slice_to_vec(plain.as_slice()))
        },
        8 => {
            assert(unmasks_within_bytes(stored_patterns()[8], pattern_keys()[8]));
            let plain = unmask(&SSL_KILL_SWITCH_2_STORED, &SSL_KILL_SWITCH_2_KEY);
            Some(slice_to_vec(plain.as_slice()))
        },
        _ => None,
    }
}

/// Compares `needle` with the part of `hay` that begins at `at`.
fn matches_at(hay: &[u8], needle: &[u8], at: usize) -> (hit: bool)
    requires
        at + needle@.len() <= hay@.len(),
    ensures
        hit == occurs_at(needle@, hay@, at as int),
{
    let ghost window = hay@.subrange(at as int, at + needle@.len());
    let width: usize = needle.len();
    let total: usize = hay.len();
    let mut j: usize = 0;
    while j < width
        invariant
            j <= width == needle@.len(),
            at + width <= total == hay@.len(),
            window == hay@.subrange(at as int, at + needle@.len()),
            forall|i: int| 0 <= i < j ==> window[i] == needle@[i],
        decreases width - j,
    {
        if hay[at + j] != needle[j] {
            assert(window[j as int] != needle@[j as int]);
            return false;
        }
        j += 1;
    }
    assert(window =~= needle@);
    true
}

/// Tells whether `needle` is a contiguous part of `hay`. The empty `needle`
/// is a part of every `hay`.
pub fn contains_bytes(hay: &[u8], needle: &[u8]) -> (found: bool)
    ensures
        found == occurs_in(needle@, hay@),
{
    if needle.len() > hay.len() {
        return false;
    }
    if needle.len() == 0 {
        assert(occurs_at(needle@, hay@, 0)) by {
            assert(hay@.subrange(0, 0) =~= needle@);
        }
        return true;
    }
    let last: usize = hay.len() - needle.len();
    let mut at: usize = 0;
    while at <= last
        invariant
            at <= last + 1,
            last == hay@.len() - needle@.len(),
            needle@.len() > 0,
            hay@.len() <= usize::MAX,
            forall|before: int| 0 <= before < at ==> !occurs_at(needle@, hay@, before),
        decreases last + 1 - at,
    {
        if matches_at(hay, needle, at) {
            return true;
        }
        at += 1;
    }
    false
}

/// Tells whether a module name holds one of the known names. The known names
/// are unmasked one after the other, and the search ends at the first that is
/// found.
pub fn is_suspicious_name(name: &[u8]) -> (hit: bool)
    ensures
        hit == name_suspicious(name@),
{
    let mut k: usize = 0;
    while k < PATTERN_COUNT
        invariant
            k <= PATTERN_COUNT,
            known_patterns().len() == PATTERN_COUNT,
            forall|tried: int| 0 <= tried < k ==> !occurs_in(#[trigger] known_patterns()[tried], name@),
        decreases PATTERN_COUNT - k,
    {
        if let Some(pattern) = decode_pattern(k) {
            if contains_bytes(name, pattern.as_slice()) {
                return true;
            }
        }
        k += 1;
    }
    false
}

/// Scans the names of the loaded modules and reports whether any of them
/// holds a known name. The scan ends at the first such module.
///
/// A list without such a module is never reported, and a list with one always
/// is, whatever the length of the list and wherever the module stands in it.
pub fn check_suspicious_dylibs(modules: &Vec<Vec<u8>>) -> (suspicious: bool)
    ensures
        suspicious == list_suspicious(names_of(modules@)),
        (forall|i: int| 0 <= i < modules@.len() ==> !name_suspicious(#[trigger] modules@[i]@))
            ==> !suspicious,
        (exists|i: int| 0 <= i < modules@.len() && name_suspicious(#[trigger] modules@[i]@))
            ==> suspicious,
{
    let ghost names = names_of(modules@);
    let mut i: usize = 0;
    while i < modules.len()
        invariant
            i <= modules@.len(),
            names == names_of(modules@),
            forall|seen: int| 0 <= seen < i ==> !name_suspicious(#[trigger] names[seen]),
        decreases modules@.len() - i,
    {
        if is_suspicious_name(modules[i].as_slice()) {
            assert(name_suspicious(names[i as int]));
            return true;
        }
        i += 1;
    }
    proof {
        assert forall|j: int| 0 <= j < modules@.len() implies name_suspicious(
            #[trigger] modules@[j]@,
        ) == name_suspicious(names[j]) by {}
    }
    false
}

/// The verdict on a module list depends on which names it holds, not on
/// their order nor on how often each occurs.
pub proof fn lemma_scan_ignores_order(first: Seq<Seq<u8>>, second: Seq<Seq<u8>>)
    requires
        forall|name: Seq<u8>| first.contains(name) <==> second.contains(name),
    ensures
        list_suspicious(first) == list_suspicious(second),
{
    if list_suspicious(first) {
        let i = choose|i: int| 0 <= i < first.len() && name_suspicious(#[trigger] first[i]);
        assert(first.contains(first[i]));
        let j = choose|j: int| 0 <= j < second.len() && second[j] == first[i];
        assert(name_suspicious(second[j]));
    }
    if list_suspicious(second) {
        let i = choose|i: int| 0 <= i < second.len() && name_suspicious(#[trigger] second[i]);
        assert(second.contains(second[i]));
        let j = choose|j: int| 0 <= j < first.len() && first[j] == second[i];
        assert(name_suspicious(first[j]));
    }
}

} // verus!
