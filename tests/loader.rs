use pidtrace::elf::{ElfInfo, SymbolInfo};
use pidtrace::loader::{
    attach_point_of, category_of, AttachRequest, LoadRequest, LoadedLink, LoaderError, Program,
    ProgramCategory, Programs,
};

fn info(section: &str) -> SymbolInfo {
    SymbolInfo { section_name: section.to_string() }
}

fn tracepoint(name: &str, section: &str) -> Program {
    let mut p = Program::from_program(name.to_string(), ProgramCategory::TracePoint);
    p.with_sym_info(info(section));
    p.enabled = true;
    p
}

#[test]
fn section_components() {
    assert_eq!(attach_point_of("tracepoint/raw_syscalls/sys_enter"), "sys_enter");
    assert_eq!(category_of("tracepoint/raw_syscalls/sys_enter"), Some("raw_syscalls".to_string()));
    assert_eq!(attach_point_of("kprobe"), "kprobe");
    assert_eq!(category_of("kprobe"), None);
    assert_eq!(attach_point_of("kretprobe/"), "");
    assert_eq!(category_of("/x"), Some(String::new()));
}

#[test]
fn resolver_finds_tracepoint() {
    let elf = ElfInfo::from_symbols(vec![
        ("S".to_string(), "tracepoint/raw_syscalls/sys_enter".to_string()),
        ("T".to_string(), "kprobe/__sys_connect".to_string()),
    ]);
    assert_eq!(elf.get_by_symbol_name("T").unwrap().section_name, "kprobe/__sys_connect");
    assert!(elf.get_by_symbol_name("U").is_none());
    let ps = Programs::from_programs(vec![
        Program::from_program("S".to_string(), ProgramCategory::TracePoint),
        Program::from_program("U".to_string(), ProgramCategory::KProbe),
    ])
    .resolve(&elf);
    let s = ps.get(0);
    assert_eq!(s.attach_point.as_deref(), Some("sys_enter"));
    assert_eq!(s.tracepoint_category().as_deref(), Some("raw_syscalls"));
    assert!(ps.get(1).attach_point.is_none());
    assert!(ps.get(1).info.is_none());
}

#[test]
fn later_symbol_wins() {
    let elf = ElfInfo::from_symbols(vec![
        ("S".to_string(), "a/b".to_string()),
        ("S".to_string(), "c/d".to_string()),
    ]);
    assert_eq!(elf.get_by_symbol_name("S").unwrap().section_name, "c/d");
}

#[test]
fn raw_elf_rejects_garbage() {
    assert!(ElfInfo::from_raw_elf(&[1, 2, 3, 4]).is_err());
    let ps = Programs::from_programs(vec![]);
    assert!(ps.with_elf_info(&[0u8; 8]).is_err());
}

#[test]
fn lifecycle_of_a_tracepoint() {
    let mut p = tracepoint("S", "tracepoint/raw_syscalls/sys_enter");
    assert!(matches!(p.load_request(), Ok(LoadRequest::Plain)));
    assert!(p.load(Ok(())).is_ok());
    assert!(p.loaded);
    match p.attach_request() {
        Ok(AttachRequest::TracePoint { category, hook }) => {
            assert_eq!(category, "raw_syscalls");
            assert_eq!(hook, "sys_enter");
        }
        other => panic!("unexpected {:?}", other),
    }
    assert!(p.attach(Ok(7)).is_ok());
    assert!(p.attached);
    assert_eq!(p.link_id, Some(LoadedLink::TracePoint(7)));
    assert!(p.unload(Ok(())).is_ok());
    assert!(!p.loaded && !p.attached);
    assert_eq!(p.link_id, None);
}

#[test]
fn lsm_loads_with_hook() {
    let mut p = Program::from_program("L".to_string(), ProgramCategory::Lsm);
    p.with_sym_info(info("lsm/file_open"));
    p.enabled = true;
    match p.load_request() {
        Ok(LoadRequest::WithBtf(hook)) => assert_eq!(hook, "file_open"),
        other => panic!("unexpected {:?}", other),
    }
    assert!(matches!(p.attach_request(), Ok(AttachRequest::Lsm)));
    assert!(p.attach(Ok(1)).is_ok());
    assert_eq!(p.link_id, Some(LoadedLink::Lsm(1)));
}

#[test]
fn load_errors() {
    let mut p = Program::from_program("D".to_string(), ProgramCategory::KProbe);
    assert!(matches!(p.load(Ok(())), Err(LoaderError::ProgramIsDisabled(n)) if n == "D"));
    p.enabled = true;
    assert!(matches!(p.load(Ok(())), Err(LoaderError::AttachPointMissing(n)) if n == "D"));
    p.with_sym_info(info("kprobe/__sys_connect"));
    assert!(matches!(
        p.load(Err("verifier".to_string())),
        Err(LoaderError::Kernel(n, m)) if n == "D" && m == "verifier"
    ));
    assert!(!p.loaded);
    let mut q = Program::from_program("O".to_string(), ProgramCategory::Other);
    q.with_sym_info(info("xdp/x"));
    q.enabled = true;
    assert!(matches!(q.load(Ok(())), Err(LoaderError::Unsupported(n)) if n == "O"));
    assert!(matches!(q.unload(Ok(())), Err(LoaderError::Unsupported(_))));
    assert!(matches!(q.attach(Ok(1)), Err(LoaderError::Unsupported(_))));
}

#[test]
fn attach_errors() {
    let mut p = tracepoint("S", "sys_enter");
    assert!(matches!(p.attach(Ok(1)), Err(LoaderError::TracePointCategoryMissing(n)) if n == "S"));
    let mut k = Program::from_program("K".to_string(), ProgramCategory::KProbe);
    assert!(matches!(k.attach(Ok(1)), Err(LoaderError::AttachPointMissing(_))));
    k.with_sym_info(info("kprobe/__sys_connect"));
    assert!(matches!(k.attach(Err("busy".to_string())), Err(LoaderError::Kernel(_, m)) if m == "busy"));
    assert!(!k.attached);
    assert!(k.attach(Ok(2)).is_ok());
    assert_eq!(k.link_id, Some(LoadedLink::KProbe(2)));
}

#[test]
fn failure_of_one_program_leaves_others() {
    let a = Program::from_program("A".to_string(), ProgramCategory::TracePoint);
    let b = tracepoint("B", "tracepoint/syscalls/sys_enter_mmap");
    let mut c = Program::from_program("C".to_string(), ProgramCategory::KProbe);
    c.with_sym_info(info("kprobe/__sys_connect"));
    let mut ps = Programs::from_programs(vec![a, b, c]);
    ps.set_enabled(2, true);
    assert_eq!(ps.len(), 3);
    assert!(ps.load_request(0).is_err());
    assert!(ps.load(0, Ok(())).is_err());
    for i in 1..3 {
        assert!(ps.load_request(i).is_ok());
        assert!(ps.load(i, Ok(())).is_ok());
        assert!(ps.attach_request(i).is_ok());
        assert!(ps.attach(i, Ok(i as u64)).is_ok());
    }
    assert!(!ps.get(0).loaded && !ps.get(0).attached);
    assert!(ps.get(1).attached && ps.get(2).attached);
    assert!(ps.unload(1, Ok(())).is_ok());
    assert!(!ps.get(1).attached && ps.get(2).attached);
}

#[test]
fn only_defined_symbols_are_kept() {
    let table = vec![
        (Some("S".to_string()), Some("tracepoint/raw_syscalls/sys_enter".to_string())),
        (Some("undefined".to_string()), None),
        (None, Some("kprobe/x".to_string())),
        (Some("T".to_string()), Some("kprobe/__sys_connect".to_string())),
    ];
    let pairs = pidtrace::elf::defined_symbols(table);
    assert_eq!(
        pairs,
        vec![
            ("S".to_string(), "tracepoint/raw_syscalls/sys_enter".to_string()),
            ("T".to_string(), "kprobe/__sys_connect".to_string()),
        ]
    );
}
