use socbus::dbg::{
    get_syscall_desc, nul_prefix_len, syscall_ignored, syscall_index, ArgType, ExecutionCtx,
};

#[test]
fn execution_ctx_from_program_counter() {
    assert_eq!(ExecutionCtx::from(0x1386_0040), ExecutionCtx::CRY);
    assert_eq!(ExecutionCtx::from(0x2000_0000), ExecutionCtx::FS);
    assert_eq!(ExecutionCtx::from(0x2010_ffff), ExecutionCtx::ES);
    assert_eq!(ExecutionCtx::from(0xffff_0010), ExecutionCtx::KRN);
    assert_eq!(ExecutionCtx::from(0x0000_0000), ExecutionCtx::UNK);
    assert_eq!(ExecutionCtx::from(0x2011_0000), ExecutionCtx::UNK);
}

#[test]
fn syscall_table_resolves_known_entries() {
    let d = get_syscall_desc(0x1c);
    assert_eq!(d.name, "Open");
    assert_eq!(d.arg, vec![ArgType::StrPtr, ArgType::Int]);

    let d = get_syscall_desc(0x02);
    assert_eq!(d.name, "ThreadCancel");
    assert_eq!(d.arg.len(), 0);

    let d = get_syscall_desc(0x11);
    assert_eq!(d.name, "TimerCreate");
    assert_eq!(d.arg, vec![ArgType::Int, ArgType::Int, ArgType::Int, ArgType::Uint]);

    let d = get_syscall_desc(0x6d);
    assert_eq!(d.name, "IoscGenBlockMac");
    assert_eq!(d.arg, vec![ArgType::Uint, ArgType::Uint, ArgType::Uint]);
}

#[test]
fn syscall_index_decodes_opcode_bits() {
    // Bits 5..24 hold the index; the surrounding bits are ignored.
    assert_eq!(syscall_index(0x1c << 5), 0x1c);
    assert_eq!(syscall_index(0xff00_001f | (0x2a << 5)), 0x2a);
    assert_eq!(syscall_index(0), 0);
}

#[test]
fn quiet_syscalls_are_passed_over() {
    assert!(syscall_ignored(0x0e));
    assert!(syscall_ignored(0x2f));
    assert!(syscall_ignored(0x30));
    assert!(syscall_ignored(0x3f));
    assert!(syscall_ignored(0x4f));
    assert!(!syscall_ignored(0x1c));
    assert!(!syscall_ignored(0x02));
}

#[test]
fn nul_scan_takes_prefix_through_first_nul() {
    assert_eq!(nul_prefix_len(&[b'a', b'b', 0, b'c']), 3);
    assert_eq!(nul_prefix_len(&[0, 1, 2]), 1);
    assert_eq!(nul_prefix_len(&[1, 2, 3]), 3);
    assert_eq!(nul_prefix_len(&[]), 0);
    assert_eq!(nul_prefix_len(&[5, 0, 0]), 2);
}
