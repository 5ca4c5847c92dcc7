//! The CPU model: owns the register catalog and a cached copy of the rendered
//! target description, and dispatches named feature-file requests.
//!
//! `get_feature` is the entry point an RSP transport layer calls with the
//! decoded filename of a `qXfer` read: `"target.xml"` yields the cached
//! target description, `"threads"` (the thread-transfer path) yields the
//! thread-list placeholder, and any other name fails with
//! `UnrecognizedFile` carrying the offending name.

use vstd::prelude::*;
use vstd::string::StrSliceExecFns;
use vstd::string::StringExecFns;
use vstd::utf8::encode_utf8;
use crate::document::push_feature;
use crate::document::spec_target_xml;
use crate::document::spec_threads_xml;
use crate::document::spec_xml_header;
use crate::registers::RiscvRegister;
use crate::registers::RiscvRegisterType;
use crate::registers::push_debug_csrs;
use crate::registers::push_general_registers;
use crate::registers::push_machine_csrs;
use crate::registers::push_supervisor_csrs;
use crate::registers::push_user_csrs;
use crate::registers::regs_view;
use crate::registers::spec_catalog;

verus! {

/// The one failure this subsystem can signal.
#[derive(Debug)]
pub enum RiscvCpuError {
    /// Someone tried to request an unrecognized feature file; carries the
    /// requested filename.
    UnrecognizedFile(String),
}

/// Relies on `<str as PartialEq>::eq`: two string slices compare equal
/// exactly when their character contents are equal.
#[verifier::external_body]
fn str_eq(a: &str, b: &str) -> (r: bool)
    ensures
        r == (a@ == b@),
{
    a == b
}

/// A RISC-V CPU model: the full register catalog and the target-description
/// document rendered from it, both fixed for the life of the value.
pub struct RiscvCpu {
    /// A list of all available registers on this CPU.
    registers: Vec<RiscvRegister>,
    /// An XML representation of the register mapping.
    target_xml: String,
}

impl RiscvCpu {
    /// The catalog is the canonical one and the cached document is its
    /// rendering.
    #[verifier::type_invariant]
    spec fn wf(self) -> bool {
        &&& regs_view(self.registers@) == spec_catalog()
        &&& self.target_xml@ == spec_target_xml(spec_catalog())
    }

    /// Builds the CPU model: the canonical catalog and its rendered target
    /// description. Construction cannot fail; the `Result` is kept for the
    /// callers' convenience.
    pub fn new() -> (r: Result<RiscvCpu, RiscvCpuError>)
        ensures
            r is Ok,
    {
        let registers = Self::make_registers();
        let target_xml = Self::make_target_xml(&registers);
        Ok(RiscvCpu { registers, target_xml })
    }

    /// Builds the complete, architecture-correct register catalog: `x0..x31`
    /// and `pc` (present), then the RISC-V privileged CSR set (not present by
    /// default).
    pub fn make_registers() -> (r: Vec<RiscvRegister>)
        ensures
            regs_view(r@) == spec_catalog(),
    {
        let mut registers: Vec<RiscvRegister> = Vec::new();
        push_general_registers(&mut registers);
        push_user_csrs(&mut registers);
        push_supervisor_csrs(&mut registers);
        push_machine_csrs(&mut registers);
        push_debug_csrs(&mut registers);
        proof {
            assert(regs_view(registers@) =~~= spec_catalog());
        }
        registers
    }

    /// Renders the target-description document of a catalog.
    pub fn make_target_xml(registers: &Vec<RiscvRegister>) -> (r: String)
        ensures
            r@ == spec_target_xml(regs_view(registers@)),
    {
        let mut target_xml = String::from_str(
            "<?xml version=\"1.0\"?>\n<!DOCTYPE target SYSTEM \"gdb-target.dtd\">\n<target version=\"1.0\">\n",
        );
        proof {
            assert(target_xml@ == spec_xml_header());
        }
        push_feature(&mut target_xml, RiscvRegisterType::General, registers);
        push_feature(&mut target_xml, RiscvRegisterType::CSR, registers);
        target_xml.append("</target>\n");
        proof {
            assert(target_xml@ =~= spec_target_xml(regs_view(registers@)));
        }
        target_xml
    }

    /// Returns the bytes of the named feature file: the target description
    /// for `"target.xml"`, the thread-list placeholder for `"threads"`, and
    /// `UnrecognizedFile` with the offending name for anything else.
    pub fn get_feature(&self, name: &str) -> (r: Result<Vec<u8>, RiscvCpuError>)
        ensures
            name@ == "target.xml"@ ==> (r matches Ok(b) && b@ == encode_utf8(
                spec_target_xml(spec_catalog()),
            )),
            name@ == "threads"@ ==> (r matches Ok(b) && b@ == encode_utf8(spec_threads_xml())),
            name@ != "target.xml"@ && name@ != "threads"@ ==> (r matches Err(e)
                && e matches RiscvCpuError::UnrecognizedFile(f) && f@ == name@),
    {
        proof {
            use_type_invariant(self);
            reveal_strlit("target.xml");
            reveal_strlit("threads");
            assert("target.xml"@.len() == 10);
            assert("threads"@.len() == 7);
            assert("target.xml"@ != "threads"@);
        }
        if str_eq(name, "target.xml") {
            Ok(self.target_xml.as_str().as_bytes_vec())
        } else if str_eq(name, "threads") {
            self.get_threads()
        } else {
            Err(RiscvCpuError::UnrecognizedFile(String::from_str(name)))
        }
    }

    /// Returns the bytes of the thread-list document: a fixed, minimal
    /// placeholder, since harts/threads are not enumerated.
    pub fn get_threads(&self) -> (r: Result<Vec<u8>, RiscvCpuError>)
        ensures
            r matches Ok(b) && b@ == encode_utf8(spec_threads_xml()),
    {
        Ok("<?xml version=\"1.0\"?>\n<threads>\n</threads>".as_bytes_vec())
    }
}

} // verus!
