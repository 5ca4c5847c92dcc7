use riscv_target::RiscvCpu;
use riscv_target::RiscvRegister;

const XML_HEADER: &str =
    "<?xml version=\"1.0\"?>\n<!DOCTYPE target SYSTEM \"gdb-target.dtd\">\n<target version=\"1.0\">\n";

fn count_occurrences(haystack: &str, needle: &str) -> usize {
    let mut count: usize = 0;
    let mut rest = haystack;
    while let Some(pos) = rest.find(needle) {
        count += 1;
        rest = &rest[pos + needle.len()..];
    }
    count
}

#[test]
fn rendering_is_deterministic() {
    let regs = RiscvCpu::make_registers();
    let first = RiscvCpu::make_target_xml(&regs);
    let second = RiscvCpu::make_target_xml(&regs);
    assert_eq!(first, second);

    let cpu_a = RiscvCpu::new().unwrap();
    let cpu_b = RiscvCpu::new().unwrap();
    assert_eq!(
        cpu_a.get_feature("target.xml").unwrap(),
        cpu_b.get_feature("target.xml").unwrap()
    );
}

#[test]
fn one_reg_element_per_present_register() {
    let regs = vec![
        RiscvRegister::general(0, "x0"),
        RiscvRegister::general(1, "x1"),
        RiscvRegister::csr(0x300, "mstatus", true),
        RiscvRegister::csr(0x305, "mtvec", false),
    ];
    let xml = RiscvCpu::make_target_xml(&regs);
    assert_eq!(count_occurrences(&xml, "<reg "), 3);
    assert_eq!(count_occurrences(&xml, "name=\"x0\""), 1);
    assert_eq!(count_occurrences(&xml, "name=\"x1\""), 1);
    assert_eq!(count_occurrences(&xml, "name=\"mstatus\""), 1);
    assert_eq!(count_occurrences(&xml, "mtvec"), 0);
}

#[test]
fn document_structure_is_well_formed() {
    let regs = RiscvCpu::make_registers();
    let xml = RiscvCpu::make_target_xml(&regs);
    assert!(xml.starts_with(XML_HEADER));
    assert!(xml.ends_with("</feature>\n</target>\n"));
    assert_eq!(count_occurrences(&xml, "<target "), 1);
    assert_eq!(count_occurrences(&xml, "</target>"), 1);
    assert_eq!(count_occurrences(&xml, "<feature "), 2);
    assert_eq!(count_occurrences(&xml, "</feature>"), 2);
    // Each feature opens before it closes, and the two do not nest.
    let body = &xml[XML_HEADER.len()..];
    let cpu_open = body.find("<feature name=\"org.gnu.gdb.riscv.cpu\">").unwrap();
    let csr_open = body.find("<feature name=\"org.gnu.gdb.riscv.csr\">").unwrap();
    let first_close = body.find("</feature>").unwrap();
    assert!(cpu_open < first_close);
    assert!(first_close < csr_open);
    // Every reg element is self-closing and sits inside some feature element.
    assert_eq!(count_occurrences(&xml, "<reg "), count_occurrences(&xml, "\"/>\n"));
}

#[test]
fn minimal_catalog_renders_exactly() {
    let regs = vec![
        RiscvRegister::general(0, "x0"),
        RiscvRegister::csr(0x300, "mstatus", false),
    ];
    let xml = RiscvCpu::make_target_xml(&regs);
    let expected = format!(
        "{}<feature name=\"org.gnu.gdb.riscv.cpu\">\n\
         <reg name=\"x0\" bitsize=\"32\" regnum=\"0\" save-restore=\"no\" type=\"int\" group=\"general\"/>\n\
         </feature>\n\
         <feature name=\"org.gnu.gdb.riscv.csr\">\n\
         </feature>\n\
         </target>\n",
        XML_HEADER
    );
    assert_eq!(xml, expected);
    assert!(xml.contains("<reg name=\"x0\""));
    assert!(!xml.contains("mstatus"));
}

#[test]
fn regnum_is_the_raw_namespace_index() {
    // `regnum` carries the architectural namespace index (the CSR address for
    // CSRs), not the register's ordinal position in the document.
    let regs = vec![
        RiscvRegister::general(32, "pc"),
        RiscvRegister::csr(0x300, "mstatus", true),
    ];
    let xml = RiscvCpu::make_target_xml(&regs);
    assert!(xml.contains("<reg name=\"pc\" bitsize=\"32\" regnum=\"32\""));
    assert!(xml.contains("<reg name=\"mstatus\" bitsize=\"32\" regnum=\"768\""));
}

#[test]
fn full_catalog_emits_only_general_registers() {
    // In the canonical catalog every CSR defaults to not present, so only the
    // 33 general registers are listed.
    let regs = RiscvCpu::make_registers();
    let xml = RiscvCpu::make_target_xml(&regs);
    assert_eq!(count_occurrences(&xml, "<reg "), 33);
    assert_eq!(count_occurrences(&xml, "group=\"general\""), 33);
    assert_eq!(count_occurrences(&xml, "group=\"csr\""), 0);
}
