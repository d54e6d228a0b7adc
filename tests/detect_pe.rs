use plugit::{DetectError, Format};

fn put16(b: &mut [u8], at: usize, v: u16) {
    b[at..at + 2].copy_from_slice(&v.to_le_bytes());
}

fn put32(b: &mut [u8], at: usize, v: u32) {
    b[at..at + 4].copy_from_slice(&v.to_le_bytes());
}

/// A PE32+ DLL with one section, mapped at 0x1000 from file offset 0x200,
/// that holds an export directory naming one exported function.
fn pe_exporting(name: &str) -> Vec<u8> {
    let mut b = vec![0u8; 0x400];
    b[0..2].copy_from_slice(b"MZ");
    put32(&mut b, 0x3c, 0x40);
    b[0x40..0x44].copy_from_slice(b"PE\0\0");
    // COFF header
    put16(&mut b, 0x44, 0x8664);
    put16(&mut b, 0x46, 1);
    put16(&mut b, 0x54, 240);
    put16(&mut b, 0x56, 0x2022);
    // optional header
    let o = 0x58;
    put16(&mut b, o, 0x20b);
    put32(&mut b, o + 32, 0x1000);
    put32(&mut b, o + 36, 0x200);
    put32(&mut b, o + 56, 0x2000);
    put32(&mut b, o + 60, 0x200);
    put32(&mut b, o + 108, 16);
    put32(&mut b, o + 112, 0x1000);
    put32(&mut b, o + 116, 0x60);
    // section table
    let s = o + 240;
    b[s..s + 6].copy_from_slice(b".edata");
    put32(&mut b, s + 8, 0x200);
    put32(&mut b, s + 12, 0x1000);
    put32(&mut b, s + 16, 0x200);
    put32(&mut b, s + 20, 0x200);
    put32(&mut b, s + 36, 0x4000_0040);
    // export directory at rva 0x1000
    let e = 0x200;
    put32(&mut b, e + 12, 0x1034);
    put32(&mut b, e + 16, 1);
    put32(&mut b, e + 20, 1);
    put32(&mut b, e + 24, 1);
    put32(&mut b, e + 28, 0x1028);
    put32(&mut b, e + 32, 0x102c);
    put32(&mut b, e + 36, 0x1030);
    put32(&mut b, e + 0x28, 0x2000);
    put32(&mut b, e + 0x2c, 0x1040);
    put16(&mut b, e + 0x30, 0);
    b[e + 0x34..e + 0x3d].copy_from_slice(b"synth.dll");
    b[e + 0x40..e + 0x40 + name.len()].copy_from_slice(name.as_bytes());
    b
}

#[test]
fn pe_exporting_factory_is_vst3() {
    let bin = pe_exporting("GetPluginFactory");
    assert!(matches!(Format::contains_symbol(&bin, "GetPluginFactory"), Ok(true)));
    assert!(matches!(Format::parse_from_symbols("synth.dll", &bin), Ok(Format::Vst3)));
}

#[test]
fn pe_with_other_export_is_not_detected() {
    let bin = pe_exporting("_GetPluginFactory");
    assert!(matches!(Format::contains_symbol(&bin, "GetPluginFactory"), Ok(false)));
    assert!(matches!(Format::parse_from_symbols("synth.dll", &bin), Err(DetectError::NoFormatMatch(_))));
}
