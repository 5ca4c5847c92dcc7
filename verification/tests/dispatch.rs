use riscv_target::RiscvCpu;
use riscv_target::RiscvCpuError;

const THREADS_XML: &str = "<?xml version=\"1.0\"?>\n<threads>\n</threads>";

#[test]
fn get_feature_target_xml_matches_rendering() {
    let cpu = RiscvCpu::new().unwrap();
    let bytes = cpu.get_feature("target.xml").unwrap();
    let rendered = RiscvCpu::make_target_xml(&RiscvCpu::make_registers());
    assert_eq!(bytes, rendered.into_bytes());
}

#[test]
fn get_feature_threads_returns_placeholder() {
    let cpu = RiscvCpu::new().unwrap();
    let bytes = cpu.get_feature("threads").unwrap();
    assert_eq!(bytes, THREADS_XML.as_bytes());
}

#[test]
fn get_threads_returns_placeholder() {
    let cpu = RiscvCpu::new().unwrap();
    let bytes = cpu.get_threads().unwrap();
    assert_eq!(bytes, THREADS_XML.as_bytes());
}

#[test]
fn get_feature_unrecognized_name_fails() {
    let cpu = RiscvCpu::new().unwrap();
    match cpu.get_feature("bogus.xml") {
        Err(RiscvCpuError::UnrecognizedFile(name)) => assert_eq!(name, "bogus.xml"),
        Ok(_) => panic!("bogus.xml must not be recognized"),
    }
}

#[test]
fn get_feature_empty_name_fails() {
    let cpu = RiscvCpu::new().unwrap();
    match cpu.get_feature("") {
        Err(RiscvCpuError::UnrecognizedFile(name)) => assert_eq!(name, ""),
        Ok(_) => panic!("the empty name must not be recognized"),
    }
}
