use pidtrace::elf::ElfInfo;
use pidtrace::loader::{ProgramCategory, Programs};

fn u16le(out: &mut Vec<u8>, v: u16) {
    out.extend_from_slice(&v.to_le_bytes());
}

fn u32le(out: &mut Vec<u8>, v: u32) {
    out.extend_from_slice(&v.to_le_bytes());
}

fn u64le(out: &mut Vec<u8>, v: u64) {
    out.extend_from_slice(&v.to_le_bytes());
}

#[allow(clippy::too_many_arguments)]
fn section_header(
    out: &mut Vec<u8>,
    name: u32,
    kind: u32,
    flags: u64,
    offset: u64,
    size: u64,
    link: u32,
    info: u32,
    align: u64,
    entsize: u64,
) {
    u32le(out, name);
    u32le(out, kind);
    u64le(out, flags);
    u64le(out, 0);
    u64le(out, offset);
    u64le(out, size);
    u32le(out, link);
    u32le(out, info);
    u64le(out, align);
    u64le(out, entsize);
}

/// A relocatable 64-bit little-endian object whose one code section is named
/// `section` and holds the global function symbol `symbol`.
fn object_file(symbol: &str, section: &str) -> Vec<u8> {
    let strtab: Vec<u8> = [b"\0", symbol.as_bytes(), b"\0"].concat();
    let sec_name = 1u32;
    let symtab_name = sec_name + section.len() as u32 + 1;
    let strtab_name = symtab_name + 8;
    let shstrtab_name = strtab_name + 8;
    let shstrtab: Vec<u8> =
        [b"\0", section.as_bytes(), b"\0.symtab\0.strtab\0.shstrtab\0"].concat();

    let code_off = 64u64;
    let symtab_off = code_off + 8;
    let strtab_off = symtab_off + 48;
    let shstrtab_off = strtab_off + strtab.len() as u64;
    let mut shoff = shstrtab_off + shstrtab.len() as u64;
    shoff += (8 - shoff % 8) % 8;

    let mut out = Vec::new();
    out.extend_from_slice(&[0x7f, b'E', b'L', b'F', 2, 1, 1, 0, 0, 0, 0, 0, 0, 0, 0, 0]);
    u16le(&mut out, 1);
    u16le(&mut out, 247);
    u32le(&mut out, 1);
    u64le(&mut out, 0);
    u64le(&mut out, 0);
    u64le(&mut out, shoff);
    u32le(&mut out, 0);
    u16le(&mut out, 64);
    u16le(&mut out, 0);
    u16le(&mut out, 0);
    u16le(&mut out, 64);
    u16le(&mut out, 5);
    u16le(&mut out, 4);
    assert_eq!(out.len() as u64, code_off);

    out.extend_from_slice(&[0u8; 8]);
    out.extend_from_slice(&[0u8; 24]);
    u32le(&mut out, 1);
    out.push(0x12);
    out.push(0);
    u16le(&mut out, 1);
    u64le(&mut out, 0);
    u64le(&mut out, 8);
    out.extend_from_slice(&strtab);
    out.extend_from_slice(&shstrtab);
    out.resize(shoff as usize, 0);

    out.extend_from_slice(&[0u8; 64]);
    section_header(&mut out, sec_name, 1, 6, code_off, 8, 0, 0, 8, 0);
    section_header(&mut out, symtab_name, 2, 0, symtab_off, 48, 3, 1, 8, 24);
    section_header(&mut out, strtab_name, 3, 0, strtab_off, strtab.len() as u64, 0, 0, 1, 0);
    section_header(&mut out, shstrtab_name, 3, 0, shstrtab_off, shstrtab.len() as u64, 0, 0, 1, 0);
    out
}

#[test]
fn raw_elf_maps_symbol_to_section() {
    let image = object_file("S", "tracepoint/raw_syscalls/sys_enter");
    let info = ElfInfo::from_raw_elf(&image).expect("an object file");
    assert_eq!(
        info.get_by_symbol_name("S").expect("symbol S").section_name,
        "tracepoint/raw_syscalls/sys_enter"
    );
    assert!(info.get_by_symbol_name("T").is_none());
}

#[test]
fn resolver_reads_compiled_image() {
    let image = object_file("S", "tracepoint/raw_syscalls/sys_enter");
    let ps = Programs::discover(vec![
        ("S".to_string(), ProgramCategory::TracePoint),
        ("missing".to_string(), ProgramCategory::KProbe),
    ])
    .with_elf_info(&image)
    .expect("an object file");
    let s = ps.get(0);
    assert_eq!(s.attach_point.as_deref(), Some("sys_enter"));
    assert_eq!(s.tracepoint_category().as_deref(), Some("raw_syscalls"));
    assert!(!s.enabled && !s.loaded && !s.attached);
    assert!(ps.get(1).attach_point.is_none());
}
