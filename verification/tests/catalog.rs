use riscv_target::RiscvCpu;
use riscv_target::RiscvRegisterType;

/// The expected privileged CSR set, as (address, name) pairs in catalog order.
fn expected_csrs() -> Vec<(u32, String)> {
    let mut csrs: Vec<(u32, String)> = Vec::new();
    // User trap setup
    csrs.push((0x000, "ustatus".to_string()));
    csrs.push((0x004, "uie".to_string()));
    csrs.push((0x005, "utvec".to_string()));
    // User trap handling
    csrs.push((0x040, "uscratch".to_string()));
    csrs.push((0x041, "uepc".to_string()));
    csrs.push((0x042, "ucause".to_string()));
    csrs.push((0x043, "utval".to_string()));
    csrs.push((0x044, "uip".to_string()));
    // User counter/timers
    csrs.push((0xc00, "cycle".to_string()));
    csrs.push((0xc01, "time".to_string()));
    csrs.push((0xc02, "instret".to_string()));
    for n in 3..32 {
        csrs.push((0xc00 + n, format!("hpmcounter{}", n)));
    }
    csrs.push((0xc80, "cycleh".to_string()));
    csrs.push((0xc81, "timeh".to_string()));
    csrs.push((0xc82, "instreth".to_string()));
    for n in 3..32 {
        csrs.push((0xc80 + n, format!("hpmcounter{}h", n)));
    }
    // Supervisor trap setup
    csrs.push((0x100, "sstatus".to_string()));
    csrs.push((0x102, "sedeleg".to_string()));
    csrs.push((0x103, "sideleg".to_string()));
    csrs.push((0x104, "sie".to_string()));
    csrs.push((0x105, "stvec".to_string()));
    csrs.push((0x106, "scounteren".to_string()));
    // Supervisor trap handling
    csrs.push((0x140, "sscratch".to_string()));
    csrs.push((0x141, "sepc".to_string()));
    csrs.push((0x142, "scause".to_string()));
    csrs.push((0x143, "stval".to_string()));
    csrs.push((0x144, "sip".to_string()));
    // Supervisor protection and translation
    csrs.push((0x180, "satp".to_string()));
    // Machine information registers
    csrs.push((0xf11, "mvendorid".to_string()));
    csrs.push((0xf12, "marchid".to_string()));
    csrs.push((0xf13, "mimpid".to_string()));
    csrs.push((0xf14, "mhartid".to_string()));
    // Machine trap setup
    csrs.push((0x300, "mstatus".to_string()));
    csrs.push((0x301, "misa".to_string()));
    csrs.push((0x302, "medeleg".to_string()));
    csrs.push((0x303, "mideleg".to_string()));
    csrs.push((0x304, "mie".to_string()));
    csrs.push((0x305, "mtvec".to_string()));
    csrs.push((0x306, "mcounteren".to_string()));
    // Machine trap handling
    csrs.push((0x340, "mscratch".to_string()));
    csrs.push((0x341, "mepc".to_string()));
    csrs.push((0x342, "mcause".to_string()));
    csrs.push((0x343, "mtval".to_string()));
    csrs.push((0x344, "mip".to_string()));
    // Machine protection and translation
    for n in 0..4 {
        csrs.push((0x3a0 + n, format!("pmpcfg{}", n)));
    }
    for n in 0..16 {
        csrs.push((0x3b0 + n, format!("pmpaddr{}", n)));
    }
    // Machine counter/timers
    csrs.push((0xb00, "mcycle".to_string()));
    csrs.push((0xb02, "minstret".to_string()));
    for n in 3..32 {
        csrs.push((0xb00 + n, format!("mhpmcounter{}", n)));
    }
    csrs.push((0xb80, "mcycleh".to_string()));
    csrs.push((0xb82, "minstreth".to_string()));
    for n in 3..32 {
        csrs.push((0xb80 + n, format!("mhpmcounter{}h", n)));
    }
    // Machine counter setup
    for n in 3..32 {
        csrs.push((0x320 + n, format!("mhpmevent{}", n)));
    }
    // Debug/trace registers
    csrs.push((0x7a0, "tselect".to_string()));
    csrs.push((0x7a1, "tdata1".to_string()));
    csrs.push((0x7a2, "tdata2".to_string()));
    csrs.push((0x7a3, "tdata3".to_string()));
    // Debug mode registers
    csrs.push((0x7b0, "dcsr".to_string()));
    csrs.push((0x7b1, "dpc".to_string()));
    csrs.push((0x7b2, "dscratch".to_string()));
    csrs
}

#[test]
fn general_registers_come_first_and_are_present() {
    let regs = RiscvCpu::make_registers();
    assert_eq!(regs.len(), 251);
    for i in 0..32usize {
        let r = &regs[i];
        assert!(matches!(r.register_type, RiscvRegisterType::General));
        assert_eq!(r.index, i as u32);
        assert_eq!(r.name, format!("x{}", i));
        assert!(r.present);
    }
    let pc = &regs[32];
    assert!(matches!(pc.register_type, RiscvRegisterType::General));
    assert_eq!(pc.index, 32);
    assert_eq!(pc.name, "pc");
    assert!(pc.present);
}

#[test]
fn csr_catalog_matches_privileged_set() {
    let regs = RiscvCpu::make_registers();
    let expected = expected_csrs();
    assert_eq!(regs.len(), 33 + expected.len());
    for (k, (address, name)) in expected.iter().enumerate() {
        let r = &regs[33 + k];
        assert!(matches!(r.register_type, RiscvRegisterType::CSR));
        assert_eq!(r.index, *address, "address of {}", name);
        assert_eq!(&r.name, name);
        assert!(!r.present, "{} must default to not present", name);
    }
}

#[test]
fn csr_addresses_are_unique() {
    let expected = expected_csrs();
    for (i, (a, _)) in expected.iter().enumerate() {
        for (b, _) in expected.iter().skip(i + 1) {
            assert_ne!(a, b);
        }
    }
}

#[test]
fn feature_and_group_names() {
    assert_eq!(RiscvRegisterType::General.feature_name(), "org.gnu.gdb.riscv.cpu");
    assert_eq!(RiscvRegisterType::CSR.feature_name(), "org.gnu.gdb.riscv.csr");
    assert_eq!(RiscvRegisterType::General.group(), "general");
    assert_eq!(RiscvRegisterType::CSR.group(), "csr");
}
