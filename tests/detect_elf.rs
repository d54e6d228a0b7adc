use plugit::{DetectError, Format};

fn put16(b: &mut Vec<u8>, at: usize, v: u16) {
    b[at..at + 2].copy_from_slice(&v.to_le_bytes());
}

fn put32(b: &mut Vec<u8>, at: usize, v: u32) {
    b[at..at + 4].copy_from_slice(&v.to_le_bytes());
}

fn put64(b: &mut Vec<u8>, at: usize, v: u64) {
    b[at..at + 8].copy_from_slice(&v.to_le_bytes());
}

/// A 64-bit little-endian ELF shared object whose dynamic symbol table holds
/// one global symbol named `name`, of the given type, defined at 0x1000.
fn elf_with_symbol(name: &str, sym_type: u8) -> Vec<u8> {
    const PHDRS: usize = 64;
    const DYN: usize = 176;
    const HASH: usize = 272;
    const SYMTAB: usize = 296;
    const STRTAB: usize = 344;
    let strtab_len = name.len() + 2;
    let total = STRTAB + strtab_len;
    let mut b = vec![0u8; total];
    b[0..4].copy_from_slice(b"\x7fELF");
    b[4] = 2; // 64-bit
    b[5] = 1; // little endian
    b[6] = 1; // version
    put16(&mut b, 16, 3); // ET_DYN
    put16(&mut b, 18, 62); // x86-64
    put32(&mut b, 20, 1);
    put64(&mut b, 32, PHDRS as u64);
    put16(&mut b, 52, 64);
    put16(&mut b, 54, 56);
    put16(&mut b, 56, 2);
    put16(&mut b, 58, 64);
    // PT_LOAD mapping the whole file at address 0
    put32(&mut b, PHDRS, 1);
    put32(&mut b, PHDRS + 4, 5);
    put64(&mut b, PHDRS + 32, total as u64);
    put64(&mut b, PHDRS + 40, total as u64);
    put64(&mut b, PHDRS + 48, 0x1000);
    // PT_DYNAMIC
    let p = PHDRS + 56;
    put32(&mut b, p, 2);
    put32(&mut b, p + 4, 6);
    put64(&mut b, p + 8, DYN as u64);
    put64(&mut b, p + 16, DYN as u64);
    put64(&mut b, p + 24, DYN as u64);
    put64(&mut b, p + 32, 96);
    put64(&mut b, p + 40, 96);
    put64(&mut b, p + 48, 8);
    // dynamic entries: DT_HASH, DT_STRTAB, DT_SYMTAB, DT_STRSZ, DT_SYMENT, DT_NULL
    let entries: [(u64, u64); 6] =
        [(4, HASH as u64), (5, STRTAB as u64), (6, SYMTAB as u64), (10, strtab_len as u64), (11, 24), (0, 0)];
    for (i, (tag, val)) in entries.iter().enumerate() {
        put64(&mut b, DYN + 16 * i, *tag);
        put64(&mut b, DYN + 16 * i + 8, *val);
    }
    // SysV hash table: one bucket, two chain entries
    put32(&mut b, HASH, 1);
    put32(&mut b, HASH + 4, 2);
    put32(&mut b, HASH + 8, 1);
    // symbol 1: global, defined in section 1 at 0x1000
    let s = SYMTAB + 24;
    put32(&mut b, s, 1);
    b[s + 4] = (1 << 4) | sym_type;
    put16(&mut b, s + 6, 1);
    put64(&mut b, s + 8, 0x1000);
    b[STRTAB + 1..STRTAB + 1 + name.len()].copy_from_slice(name.as_bytes());
    b
}

const STT_FUNC: u8 = 2;
const STT_OBJECT: u8 = 1;

#[test]
fn elf_exporting_factory_is_vst3() {
    let bin = elf_with_symbol("GetPluginFactory", STT_FUNC);
    assert!(matches!(Format::contains_symbol(&bin, "GetPluginFactory"), Ok(true)));
    assert!(matches!(Format::parse_from_symbols("synth.so", &bin), Ok(Format::Vst3)));
}

#[test]
fn elf_with_renamed_symbol_matches_nothing() {
    let bin = elf_with_symbol("GetPluginFactorz", STT_FUNC);
    assert!(matches!(Format::contains_symbol(&bin, "GetPluginFactory"), Ok(false)));
    match Format::parse_from_symbols("synth.so", &bin) {
        Err(DetectError::NoFormatMatch(path)) => assert_eq!(path, "synth.so"),
        other => panic!("{other:?}"),
    }
}

#[test]
fn elf_data_symbol_is_not_a_factory() {
    let bin = elf_with_symbol("GetPluginFactory", STT_OBJECT);
    assert!(matches!(Format::parse_from_symbols("synth.so", &bin), Err(DetectError::NoFormatMatch(_))));
}
