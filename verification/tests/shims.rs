use rust_shims::add;
use rust_shims::locale::ActiveLocale;
use rust_shims::locale::CompareStrategy;
use rust_shims::locale::LocaleScope;
use rust_shims::locale::ParseStrategy;
use rust_shims::locale::Platform;
use rust_shims::locale::UnsupportedExplicitLocale;
use rust_shims::locale::compare_strategy;
use rust_shims::locale::parse_strategy;
use rust_shims::macroman::encode_scalar;
use rust_shims::macroman::macroman_entry_for;
use rust_shims::macroman::macroman_code_point_at;
use rust_shims::macroman::macroman_mapping;
use rust_shims::platform_shims::lock_environ;
use rust_shims::platform_shims::unlock_environ;
use rust_shims::string_shims::compare_c_locale;
use rust_shims::Allocator;

#[test]
fn it_works() {
    let result = add(2, 2);
    assert_eq!(result, 4);
}

#[test]
fn default_allocator_is_the_marker() {
    assert_eq!(Allocator::default(), Allocator);
}

#[test]
fn compare_folds_ascii_case() {
    assert_eq!(compare_c_locale(b"ABC", b"abc", 3), 0);
    assert_eq!(compare_c_locale(b"abc", b"ABC", 3), 0);
    assert_eq!(compare_c_locale(b"MiXeD", b"mIxEd", 5), 0);
}

#[test]
fn compare_orders_on_first_difference() {
    assert!(compare_c_locale(b"ABD", b"abc", 3) > 0);
    assert!(compare_c_locale(b"abc", b"ABD", 3) < 0);
}

#[test]
fn compare_is_zero_on_itself() {
    assert_eq!(compare_c_locale(b"", b"", 4), 0);
    assert_eq!(compare_c_locale(b"hello", b"hello", 5), 0);
    assert_eq!(compare_c_locale(b"hello", b"hello", 99), 0);
}

#[test]
fn compare_negates_under_swap() {
    let pairs: [(&[u8], &[u8]); 4] = [
        (b"alpha", b"beta"),
        (b"Zebra", b"zeal"),
        (b"", b"x"),
        (b"same", b"same"),
    ];
    for (a, b) in pairs {
        for n in 0..6usize {
            assert_eq!(compare_c_locale(a, b, n), -compare_c_locale(b, a, n));
        }
    }
}

#[test]
fn compare_stops_at_zero_byte() {
    assert_eq!(compare_c_locale(b"ab\0xyz", b"AB\0qrs", 6), 0);
    assert!(compare_c_locale(b"ab\0x", b"abcx", 4) < 0);
}

#[test]
fn compare_respects_length_bound() {
    assert_eq!(compare_c_locale(b"abcX", b"abcY", 3), 0);
    assert!(compare_c_locale(b"abcX", b"abcY", 4) < 0);
    assert_eq!(compare_c_locale(b"anything", b"at all", 0), 0);
}

#[test]
fn compare_treats_slice_end_as_terminator() {
    assert!(compare_c_locale(b"ab", b"abc", 3) < 0);
    assert!(compare_c_locale(b"abc", b"ab", 3) > 0);
}

#[test]
fn compare_folds_letters_only() {
    // '[' and '{' are 0x20 apart like the letter pairs, but stay distinct
    assert!(compare_c_locale(b"[", b"{", 1) != 0);
    assert!(compare_c_locale(b"0", b"p", 1) != 0);
}

#[test]
fn compare_never_folds_bytes_outside_ascii() {
    // 0xC4 and 0xE4 are an upper/lower pair in several single-byte
    // locales; "C"-locale folding leaves both alone
    assert!(compare_c_locale(&[0xC4], &[0xE4], 1) != 0);
    assert!(compare_c_locale(&[0x80], &[0xA0], 1) != 0);
}

#[test]
fn explicit_handle_is_used_where_supported() {
    assert_eq!(
        compare_strategy(Platform::MacOs, true),
        Ok(CompareStrategy::WithCallerHandle)
    );
    assert_eq!(
        compare_strategy(Platform::Other, true),
        Ok(CompareStrategy::WithCallerHandle)
    );
}

#[test]
fn explicit_handle_is_fatal_where_unsupported() {
    assert_eq!(
        compare_strategy(Platform::Android, true),
        Err(UnsupportedExplicitLocale)
    );
}

#[test]
fn default_compare_paths_per_platform() {
    assert_eq!(
        compare_strategy(Platform::Android, false),
        Ok(CompareStrategy::PlainDefault)
    );
    assert_eq!(
        compare_strategy(Platform::MacOs, false),
        Ok(CompareStrategy::WithNullHandle)
    );
    assert_eq!(
        compare_strategy(Platform::Other, false),
        Ok(CompareStrategy::UnderCLocale)
    );
}

#[test]
fn parse_paths_per_platform() {
    assert_eq!(parse_strategy(Platform::MacOs), ParseStrategy::WithCallerHandle);
    assert_eq!(parse_strategy(Platform::Android), ParseStrategy::ScopedCSwap);
    assert_eq!(parse_strategy(Platform::Other), ParseStrategy::ScopedCSwap);
}

#[test]
fn scope_installs_and_restores() {
    let mut slot = ActiveLocale::new(7);
    let scope = LocaleScope::enter(&mut slot, 42);
    assert_eq!(slot.handle(), 42);
    scope.exit(&mut slot);
    assert_eq!(slot.handle(), 7);
}

#[test]
fn scopes_nest_and_unwind_in_order() {
    let mut slot = ActiveLocale::new(1);
    let outer = LocaleScope::enter(&mut slot, 2);
    let inner = LocaleScope::enter(&mut slot, 3);
    assert_eq!(slot.handle(), 3);
    inner.exit(&mut slot);
    assert_eq!(slot.handle(), 2);
    outer.exit(&mut slot);
    assert_eq!(slot.handle(), 1);
}

#[test]
fn swap_hands_back_the_previous_handle() {
    let mut slot = ActiveLocale::new(11);
    let previous = slot.swap(13);
    assert_eq!(previous, 11);
    assert_eq!(slot.handle(), 13);
}

#[test]
fn table_has_exactly_128_entries() {
    assert_eq!(macroman_mapping().len(), 128);
}

#[test]
fn table_boundary_entries() {
    let table = macroman_mapping();
    // code point 0x80: LATIN CAPITAL LETTER A WITH DIAERESIS, U+00C4
    assert_eq!(table[0], [0xC3, 0x84, 0x00]);
    // code point 0xFF: CARON, U+02C7
    assert_eq!(table[127], [0xCB, 0x87, 0x00]);
}

#[test]
fn table_known_three_byte_entries() {
    let table = macroman_mapping();
    // code point 0xA0: DAGGER, U+2020
    assert_eq!(table[0x20], [0xE2, 0x80, 0xA0]);
    // code point 0xDB: EURO SIGN, U+20AC
    assert_eq!(table[0x5B], [0xE2, 0x82, 0xAC]);
}

#[test]
fn every_entry_is_utf8_and_decodes_to_its_code_point() {
    let table = macroman_mapping();
    for (i, entry) in table.iter().enumerate() {
        let end = entry.iter().position(|&b| b == 0).unwrap_or(3);
        let text = std::str::from_utf8(&entry[..end]).expect("entry must be valid UTF-8");
        let mut chars = text.chars();
        let ch = chars.next().expect("entry must hold one scalar");
        assert!(chars.next().is_none(), "entry must hold exactly one scalar");
        assert_eq!(ch as u32, macroman_code_point_at(i) as u32);
    }
}

#[test]
fn entry_lookup_follows_the_indexing_rule() {
    let table = macroman_mapping();
    for cp in 0x80..=0xFFusize {
        assert_eq!(macroman_entry_for(cp as u8), table[cp - 0x80]);
    }
    // code point 0xCA: NO-BREAK SPACE, U+00A0
    assert_eq!(macroman_entry_for(0xCA), [0xC2, 0xA0, 0x00]);
}

#[test]
fn encoder_matches_known_utf8_forms() {
    assert_eq!(encode_scalar(0x80), [0xC2, 0x80, 0x00]);
    assert_eq!(encode_scalar(0x7FF), [0xDF, 0xBF, 0x00]);
    assert_eq!(encode_scalar(0x800), [0xE0, 0xA0, 0x80]);
    assert_eq!(encode_scalar(0xFFFF), [0xEF, 0xBF, 0xBF]);
}

#[test]
fn lock_and_unlock_are_harmless_in_any_interleaving() {
    let table = macroman_mapping();
    let before = table[0];
    for round in 0..100 {
        lock_environ();
        if round % 3 == 0 {
            lock_environ();
        }
        assert_eq!(table[0], before);
        unlock_environ();
        unlock_environ();
    }
    assert_eq!(table[0], before);
}
