use plugit::{DetectError, Format};

/// A 64-bit little-endian Mach-O dylib whose symbol table holds one symbol
/// of the given `n_type`, in section 1. Where `looping_trie` is set it also
/// carries an export trie whose root node leads back to itself.
fn macho_with_symbol(name: &str, n_type: u8, looping_trie: bool) -> Vec<u8> {
    let ncmds: u32 = if looping_trie { 2 } else { 1 };
    let sizeofcmds: u32 = if looping_trie { 40 } else { 24 };
    let symoff = 32 + sizeofcmds;
    let stroff = symoff + 16;
    let mut strings = vec![0u8];
    strings.extend_from_slice(name.as_bytes());
    strings.push(0);

    let mut b = Vec::new();
    for word in [0xfeed_facfu32, 0x0100_0007, 3, 6, ncmds, sizeofcmds, 0, 0] {
        b.extend_from_slice(&word.to_le_bytes());
    }
    // LC_SYMTAB
    for word in [2u32, 24, symoff, 1, stroff, strings.len() as u32] {
        b.extend_from_slice(&word.to_le_bytes());
    }
    let trie_at = stroff + strings.len() as u32;
    if looping_trie {
        // LC_DYLD_EXPORTS_TRIE
        for word in [0x8000_0033u32, 16, trie_at, 4] {
            b.extend_from_slice(&word.to_le_bytes());
        }
    }
    // nlist_64: name at 1, the type, section 1, value 0x1000
    b.extend_from_slice(&1u32.to_le_bytes());
    b.push(n_type);
    b.push(1);
    b.extend_from_slice(&0u16.to_le_bytes());
    b.extend_from_slice(&0x1000u64.to_le_bytes());
    b.extend_from_slice(&strings);
    if looping_trie {
        // not terminal, one branch, empty edge, child at offset 0
        b.extend_from_slice(&[0, 1, 0, 0]);
    }
    b
}

const EXTERNAL_IN_SECTION: u8 = 0x0f;
const LOCAL_IN_SECTION: u8 = 0x0e;

#[test]
fn macho_exporting_underscored_factory_is_vst3() {
    let bin = macho_with_symbol("_GetPluginFactory", EXTERNAL_IN_SECTION, false);
    assert!(matches!(Format::contains_symbol(&bin, "GetPluginFactory"), Ok(true)));
    assert!(matches!(Format::parse_from_symbols("synth.dylib", &bin), Ok(Format::Vst3)));
}

#[test]
fn macho_without_underscore_is_not_detected() {
    let bin = macho_with_symbol("GetPluginFactory", EXTERNAL_IN_SECTION, false);
    assert!(matches!(Format::contains_symbol(&bin, "GetPluginFactory"), Ok(false)));
    match Format::parse_from_symbols("synth.dylib", &bin) {
        Err(DetectError::NoFormatMatch(path)) => assert_eq!(path, "synth.dylib"),
        other => panic!("{other:?}"),
    }
}

#[test]
fn macho_local_symbol_is_not_exported() {
    let bin = macho_with_symbol("_GetPluginFactory", LOCAL_IN_SECTION, false);
    assert!(matches!(Format::contains_symbol(&bin, "GetPluginFactory"), Ok(false)));
}

#[test]
fn macho_with_looping_export_trie_returns() {
    let bin = macho_with_symbol("_GetPluginFactory", EXTERNAL_IN_SECTION, true);
    assert!(matches!(Format::parse_from_symbols("synth.dylib", &bin), Ok(Format::Vst3)));
}

#[test]
fn fat_container_uses_its_first_slice() {
    let slice = macho_with_symbol("_GetPluginFactory", EXTERNAL_IN_SECTION, false);
    let mut b = Vec::new();
    // FAT_MAGIC, one architecture; the slice starts at 4096
    for word in [0xcafe_babeu32, 1, 0x0100_0007, 3, 4096, slice.len() as u32, 12] {
        b.extend_from_slice(&word.to_be_bytes());
    }
    b.resize(4096, 0);
    b.extend_from_slice(&slice);
    assert!(matches!(Format::parse_from_symbols("synth", &b), Ok(Format::Vst3)));
}
