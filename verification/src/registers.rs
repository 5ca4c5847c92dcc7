//! The register catalog: the ordered list of machine registers a RISC-V
//! target exposes to a debugger, and its full mathematical description.
//!
//! The catalog holds the 33 general-purpose registers (`x0..x31` and `pc`),
//! always present, followed by the RISC-V privileged control-and-status
//! register (CSR) address space. CSR entries default to not present: presence
//! detection is a concern of an external collaborator.

use vstd::prelude::*;
use vstd::string::StringExecFns;
use crate::numerals::dec_rep;
use crate::numerals::push_dec;

verus! {

/// Which GDB feature a register belongs to. This determines the feature
/// element the register is listed under in the target description and its
/// display grouping.
#[derive(Clone, Copy, PartialEq, Eq, Structural, Debug)]
pub enum RiscvRegisterType {
    /// Normal CPU registers.
    General,
    /// Architecture-specific control and status registers.
    CSR,
}

/// The canonical GDB feature name of a register group.
pub open spec fn spec_feature_name(t: RiscvRegisterType) -> Seq<char> {
    match t {
        RiscvRegisterType::General => "org.gnu.gdb.riscv.cpu"@,
        RiscvRegisterType::CSR => "org.gnu.gdb.riscv.csr"@,
    }
}

/// The display-group name of a register group.
pub open spec fn spec_group_name(t: RiscvRegisterType) -> Seq<char> {
    match t {
        RiscvRegisterType::General => "general"@,
        RiscvRegisterType::CSR => "csr"@,
    }
}

impl RiscvRegisterType {
    /// The canonical GDB feature name of this register group.
    pub fn feature_name(&self) -> (r: &str)
        ensures
            r@ == spec_feature_name(*self),
    {
        match *self {
            RiscvRegisterType::General => "org.gnu.gdb.riscv.cpu",
            RiscvRegisterType::CSR => "org.gnu.gdb.riscv.csr",
        }
    }

    /// The display-group name of this register group.
    pub fn group(&self) -> (r: &str)
        ensures
            r@ == spec_group_name(*self),
    {
        match *self {
            RiscvRegisterType::General => "general",
            RiscvRegisterType::CSR => "csr",
        }
    }
}

/// The mathematical image of one register entry.
#[verifier::ext_equal]
pub ghost struct RegisterModel {
    /// Which register group the entry belongs to.
    pub register_type: RiscvRegisterType,
    /// Index within its namespace: the architectural register number for
    /// general registers (32 for `pc`), the CSR address for CSR registers.
    pub index: u32,
    /// Architectural mnemonic.
    pub name: Seq<char>,
    /// Whether the register is present on the attached target.
    pub present: bool,
}

/// One architectural register exposed to the debugger.
pub struct RiscvRegister {
    /// Which register group this belongs to.
    pub register_type: RiscvRegisterType,
    /// Index within its namespace (e.g. `ustatus` is a CSR with index 0x000).
    pub index: u32,
    /// Architecture name.
    pub name: String,
    /// Whether this register is present on this device.
    pub present: bool,
}

impl View for RiscvRegister {
    type V = RegisterModel;

    open spec fn view(&self) -> RegisterModel {
        RegisterModel {
            register_type: self.register_type,
            index: self.index,
            name: self.name@,
            present: self.present,
        }
    }
}

/// The image of a sequence of registers.
pub open spec fn regs_view(rs: Seq<RiscvRegister>) -> Seq<RegisterModel> {
    rs.map_values(|r: RiscvRegister| r@)
}

/// A general-purpose register entry, always present.
pub open spec fn gen_entry(index: u32, name: Seq<char>) -> RegisterModel {
    RegisterModel { register_type: RiscvRegisterType::General, index, name, present: true }
}

/// A CSR entry, not present by default.
pub open spec fn csr_entry(index: u32, name: Seq<char>) -> RegisterModel {
    RegisterModel { register_type: RiscvRegisterType::CSR, index, name, present: false }
}

impl RiscvRegister {
    /// A general-purpose register, marked present.
    pub fn general(index: u32, name: &str) -> (r: RiscvRegister)
        ensures
            r@ == gen_entry(index, name@),
    {
        RiscvRegister {
            register_type: RiscvRegisterType::General,
            index,
            name: String::from_str(name),
            present: true,
        }
    }

    /// A control-and-status register with the given presence flag.
    pub fn csr(index: u32, name: &str, present: bool) -> (r: RiscvRegister)
        ensures
            r@ == (RegisterModel {
                register_type: RiscvRegisterType::CSR,
                index,
                name: name@,
                present,
            }),
    {
        RiscvRegister {
            register_type: RiscvRegisterType::CSR,
            index,
            name: String::from_str(name),
            present,
        }
    }
}

/// The general-purpose part of the catalog: `x0..x31` with namespace indices
/// 0..31, then the program counter `pc` with index 32, all present.
pub open spec fn general_registers() -> Seq<RegisterModel> {
    Seq::new(
        33,
        |i: int|
            if i < 32 {
                gen_entry(i as u32, "x"@ + dec_rep(i as nat))
            } else {
                gen_entry(32, "pc"@)
            },
    )
}

/// A numbered CSR family: entries `prefix<n>suffix` at address `base + n` for
/// `n` in `lo .. lo + count`.
pub open spec fn csr_family(
    base: int,
    lo: int,
    count: nat,
    prefix: Seq<char>,
    suffix: Seq<char>,
) -> Seq<RegisterModel> {
    Seq::new(count, |j: int| csr_entry((base + lo + j) as u32, prefix + dec_rep((lo + j) as nat) + suffix))
}

/// The user-mode CSRs: trap setup, trap handling, and counters/timers with the
/// `hpmcounterN`/`hpmcounterNh` families.
pub open spec fn user_csrs() -> Seq<RegisterModel> {
    seq![
        csr_entry(0x000, "ustatus"@),
        csr_entry(0x004, "uie"@),
        csr_entry(0x005, "utvec"@),
        csr_entry(0x040, "uscratch"@),
        csr_entry(0x041, "uepc"@),
        csr_entry(0x042, "ucause"@),
        csr_entry(0x043, "utval"@),
        csr_entry(0x044, "uip"@),
        csr_entry(0xc00, "cycle"@),
        csr_entry(0xc01, "time"@),
        csr_entry(0xc02, "instret"@),
    ] + csr_family(0xc00, 3, 29, "hpmcounter"@, ""@) + seq![
        csr_entry(0xc80, "cycleh"@),
        csr_entry(0xc81, "timeh"@),
        csr_entry(0xc82, "instreth"@),
    ] + csr_family(0xc80, 3, 29, "hpmcounter"@, "h"@)
}

/// The supervisor-mode CSRs: trap setup, trap handling, and `satp`.
pub open spec fn supervisor_csrs() -> Seq<RegisterModel> {
    seq![
        csr_entry(0x100, "sstatus"@),
        csr_entry(0x102, "sedeleg"@),
        csr_entry(0x103, "sideleg"@),
        csr_entry(0x104, "sie"@),
        csr_entry(0x105, "stvec"@),
        csr_entry(0x106, "scounteren"@),
        csr_entry(0x140, "sscratch"@),
        csr_entry(0x141, "sepc"@),
        csr_entry(0x142, "scause"@),
        csr_entry(0x143, "stval"@),
        csr_entry(0x144, "sip"@),
        csr_entry(0x180, "satp"@),
    ]
}

/// The machine-mode CSRs: information registers, trap setup and handling,
/// physical memory protection, counters/timers, and counter setup.
pub open spec fn machine_csrs() -> Seq<RegisterModel> {
    seq![
        csr_entry(0xf11, "mvendorid"@),
        csr_entry(0xf12, "marchid"@),
        csr_entry(0xf13, "mimpid"@),
        csr_entry(0xf14, "mhartid"@),
        csr_entry(0x300, "mstatus"@),
        csr_entry(0x301, "misa"@),
        csr_entry(0x302, "medeleg"@),
        csr_entry(0x303, "mideleg"@),
        csr_entry(0x304, "mie"@),
        csr_entry(0x305, "mtvec"@),
        csr_entry(0x306, "mcounteren"@),
        csr_entry(0x340, "mscratch"@),
        csr_entry(0x341, "mepc"@),
        csr_entry(0x342, "mcause"@),
        csr_entry(0x343, "mtval"@),
        csr_entry(0x344, "mip"@),
    ] + csr_family(0x3a0, 0, 4, "pmpcfg"@, ""@) + csr_family(0x3b0, 0, 16, "pmpaddr"@, ""@) + seq![
        csr_entry(0xb00, "mcycle"@),
        csr_entry(0xb02, "minstret"@),
    ] + csr_family(0xb00, 3, 29, "mhpmcounter"@, ""@) + seq![
        csr_entry(0xb80, "mcycleh"@),
        csr_entry(0xb82, "minstreth"@),
    ] + csr_family(0xb80, 3, 29, "mhpmcounter"@, "h"@) + csr_family(0x320, 3, 29, "mhpmevent"@, ""@)
}

/// The debug/trace and debug-mode CSRs.
pub open spec fn debug_csrs() -> Seq<RegisterModel> {
    seq![
        csr_entry(0x7a0, "tselect"@),
        csr_entry(0x7a1, "tdata1"@),
        csr_entry(0x7a2, "tdata2"@),
        csr_entry(0x7a3, "tdata3"@),
        csr_entry(0x7b0, "dcsr"@),
        csr_entry(0x7b1, "dpc"@),
        csr_entry(0x7b2, "dscratch"@),
    ]
}

/// The complete register catalog for the supported architecture profile, in
/// the order the registers are enumerated to GDB.
pub open spec fn spec_catalog() -> Seq<RegisterModel> {
    general_registers() + user_csrs() + supervisor_csrs() + machine_csrs() + debug_csrs()
}

/// A character that may stand in a register name: an ASCII lowercase letter
/// or a decimal digit. Neither is XML markup, so a name never opens or
/// closes a tag, an attribute value, or an entity reference.
pub open spec fn xml_safe_char(c: char) -> bool {
    (97 <= c as u32 && c as u32 <= 122) || (48 <= c as u32 && c as u32 <= 57)
}

/// Every character of `s` may stand in a register name.
pub open spec fn xml_safe_chars(s: Seq<char>) -> bool {
    forall|k: int| 0 <= k < s.len() ==> xml_safe_char(#[trigger] s[k])
}

/// A valid register name: nonempty, with XML-safe characters alone.
pub open spec fn xml_safe_name(s: Seq<char>) -> bool {
    s.len() > 0 && xml_safe_chars(s)
}

/// Concatenation preserves name safety.
proof fn lemma_safe_chars_concat(a: Seq<char>, b: Seq<char>)
    requires
        xml_safe_chars(a),
        xml_safe_chars(b),
    ensures
        xml_safe_chars(a + b),
{
    assert forall|k: int| 0 <= k < (a + b).len() implies xml_safe_char((a + b)[k]) by {
        if k < a.len() {
            assert((a + b)[k] == a[k]);
        } else {
            assert((a + b)[k] == b[k - a.len()]);
        }
    }
}

/// Every name of a numbered CSR family is XML-safe once its prefix and
/// suffix are.
proof fn lemma_family_names_safe(
    base: int,
    lo: int,
    count: nat,
    prefix: Seq<char>,
    suffix: Seq<char>,
)
    requires
        0 <= lo,
        xml_safe_name(prefix),
        xml_safe_chars(suffix),
    ensures
        forall|j: int|
            0 <= j < count ==> xml_safe_name(
                (#[trigger] csr_family(base, lo, count, prefix, suffix)[j]).name,
            ),
{
    assert forall|j: int| 0 <= j < count implies xml_safe_name(
        (#[trigger] csr_family(base, lo, count, prefix, suffix)[j]).name,
    ) by {
        crate::numerals::lemma_dec_rep_digits((lo + j) as nat);
        assert(xml_safe_chars(dec_rep((lo + j) as nat)));
        lemma_safe_chars_concat(prefix, dec_rep((lo + j) as nat));
        lemma_safe_chars_concat(prefix + dec_rep((lo + j) as nat), suffix);
    }
}

/// Law: every name in the canonical catalog is nonempty and consists of
/// ASCII lowercase letters and decimal digits alone. In particular no name
/// contains a markup character, so each name renders into its `<reg>`
/// element as a literal attribute value.
pub proof fn lemma_catalog_names_xml_safe()
    ensures
        forall|i: int|
            0 <= i < spec_catalog().len() ==> xml_safe_name(
                (#[trigger] spec_catalog()[i]).name,
            ),
{
    reveal_strlit("x");
    reveal_strlit("pc");
    reveal_strlit("");
    reveal_strlit("h");
    reveal_strlit("hpmcounter");
    reveal_strlit("pmpcfg");
    reveal_strlit("pmpaddr");
    reveal_strlit("mhpmcounter");
    reveal_strlit("mhpmevent");
    reveal_strlit("ustatus");
    reveal_strlit("uie");
    reveal_strlit("utvec");
    reveal_strlit("uscratch");
    reveal_strlit("uepc");
    reveal_strlit("ucause");
    reveal_strlit("utval");
    reveal_strlit("uip");
    reveal_strlit("cycle");
    reveal_strlit("time");
    reveal_strlit("instret");
    reveal_strlit("cycleh");
    reveal_strlit("timeh");
    reveal_strlit("instreth");
    reveal_strlit("sstatus");
    reveal_strlit("sedeleg");
    reveal_strlit("sideleg");
    reveal_strlit("sie");
    reveal_strlit("stvec");
    reveal_strlit("scounteren");
    reveal_strlit("sscratch");
    reveal_strlit("sepc");
    reveal_strlit("scause");
    reveal_strlit("stval");
    reveal_strlit("sip");
    reveal_strlit("satp");
    reveal_strlit("mvendorid");
    reveal_strlit("marchid");
    reveal_strlit("mimpid");
    reveal_strlit("mhartid");
    reveal_strlit("mstatus");
    reveal_strlit("misa");
    reveal_strlit("medeleg");
    reveal_strlit("mideleg");
    reveal_strlit("mie");
    reveal_strlit("mtvec");
    reveal_strlit("mcounteren");
    reveal_strlit("mscratch");
    reveal_strlit("mepc");
    reveal_strlit("mcause");
    reveal_strlit("mtval");
    reveal_strlit("mip");
    reveal_strlit("mcycle");
    reveal_strlit("minstret");
    reveal_strlit("mcycleh");
    reveal_strlit("minstreth");
    reveal_strlit("tselect");
    reveal_strlit("tdata1");
    reveal_strlit("tdata2");
    reveal_strlit("tdata3");
    reveal_strlit("dcsr");
    reveal_strlit("dpc");
    reveal_strlit("dscratch");
    assert(xml_safe_name("x"@));
    assert(xml_safe_chars(""@));
    assert(xml_safe_chars("h"@));
    assert(xml_safe_name("hpmcounter"@));
    assert(xml_safe_name("pmpcfg"@));
    assert(xml_safe_name("pmpaddr"@));
    assert(xml_safe_name("mhpmcounter"@));
    assert(xml_safe_name("mhpmevent"@));
    assert forall|i: int| 0 <= i < 33 implies xml_safe_name(
        (#[trigger] general_registers()[i]).name,
    ) by {
        if i < 32 {
            crate::numerals::lemma_dec_rep_digits(i as nat);
            lemma_safe_chars_concat("x"@, dec_rep(i as nat));
        } else {
            assert(xml_safe_name("pc"@));
        }
    }
    lemma_family_names_safe(0xc00, 3, 29, "hpmcounter"@, ""@);
    lemma_family_names_safe(0xc80, 3, 29, "hpmcounter"@, "h"@);
    lemma_family_names_safe(0x3a0, 0, 4, "pmpcfg"@, ""@);
    lemma_family_names_safe(0x3b0, 0, 16, "pmpaddr"@, ""@);
    lemma_family_names_safe(0xb00, 3, 29, "mhpmcounter"@, ""@);
    lemma_family_names_safe(0xb80, 3, 29, "mhpmcounter"@, "h"@);
    lemma_family_names_safe(0x320, 3, 29, "mhpmevent"@, ""@);
    assert forall|j: int| 0 <= j < user_csrs().len() implies xml_safe_name(
        (#[trigger] user_csrs()[j]).name,
    ) by {
        assert(xml_safe_name("ustatus"@));
        assert(xml_safe_name("uie"@));
        assert(xml_safe_name("utvec"@));
        assert(xml_safe_name("uscratch"@));
        assert(xml_safe_name("uepc"@));
        assert(xml_safe_name("ucause"@));
        assert(xml_safe_name("utval"@));
        assert(xml_safe_name("uip"@));
        assert(xml_safe_name("cycle"@));
        assert(xml_safe_name("time"@));
        assert(xml_safe_name("instret"@));
        assert(xml_safe_name("cycleh"@));
        assert(xml_safe_name("timeh"@));
        assert(xml_safe_name("instreth"@));
    }
    assert forall|j: int| 0 <= j < supervisor_csrs().len() implies xml_safe_name(
        (#[trigger] supervisor_csrs()[j]).name,
    ) by {
        assert(xml_safe_name("sstatus"@));
        assert(xml_safe_name("sedeleg"@));
        assert(xml_safe_name("sideleg"@));
        assert(xml_safe_name("sie"@));
        assert(xml_safe_name("stvec"@));
        assert(xml_safe_name("scounteren"@));
        assert(xml_safe_name("sscratch"@));
        assert(xml_safe_name("sepc"@));
        assert(xml_safe_name("scause"@));
        assert(xml_safe_name("stval"@));
        assert(xml_safe_name("sip"@));
        assert(xml_safe_name("satp"@));
    }
    assert forall|j: int| 0 <= j < machine_csrs().len() implies xml_safe_name(
        (#[trigger] machine_csrs()[j]).name,
    ) by {
        assert(xml_safe_name("mvendorid"@));
        assert(xml_safe_name("marchid"@));
        assert(xml_safe_name("mimpid"@));
        assert(xml_safe_name("mhartid"@));
        assert(xml_safe_name("mstatus"@));
        assert(xml_safe_name("misa"@));
        assert(xml_safe_name("medeleg"@));
        assert(xml_safe_name("mideleg"@));
        assert(xml_safe_name("mie"@));
        assert(xml_safe_name("mtvec"@));
        assert(xml_safe_name("mcounteren"@));
        assert(xml_safe_name("mscratch"@));
        assert(xml_safe_name("mepc"@));
        assert(xml_safe_name("mcause"@));
        assert(xml_safe_name("mtval"@));
        assert(xml_safe_name("mip"@));
        assert(xml_safe_name("mcycle"@));
        assert(xml_safe_name("minstret"@));
        assert(xml_safe_name("mcycleh"@));
        assert(xml_safe_name("minstreth"@));
    }
    assert forall|j: int| 0 <= j < debug_csrs().len() implies xml_safe_name(
        (#[trigger] debug_csrs()[j]).name,
    ) by {
        assert(xml_safe_name("tselect"@));
        assert(xml_safe_name("tdata1"@));
        assert(xml_safe_name("tdata2"@));
        assert(xml_safe_name("tdata3"@));
        assert(xml_safe_name("dcsr"@));
        assert(xml_safe_name("dpc"@));
        assert(xml_safe_name("dscratch"@));
    }
    assert(user_csrs().len() == 72);
    assert(supervisor_csrs().len() == 12);
    assert(machine_csrs().len() == 127);
    assert(debug_csrs().len() == 7);
}

/// Law: the catalog begins with exactly 33 general registers — `x0..x31`
/// with namespace indices 0..31 in that order, then `pc` with index 32 — all
/// marked present.
pub proof fn lemma_general_registers()
    ensures
        spec_catalog().len() == 251,
        forall|i: int|
            0 <= i < 33 ==> (#[trigger] spec_catalog()[i]).register_type
                == RiscvRegisterType::General,
        forall|i: int| 0 <= i < 33 ==> (#[trigger] spec_catalog()[i]).present,
        forall|i: int| 0 <= i < 33 ==> (#[trigger] spec_catalog()[i]).index == i,
        forall|i: int|
            0 <= i < 32 ==> (#[trigger] spec_catalog()[i]).name == "x"@ + dec_rep(i as nat),
        spec_catalog()[32].name == "pc"@,
{
    assert(user_csrs().len() == 72);
    assert(supervisor_csrs().len() == 12);
    assert(machine_csrs().len() == 127);
    assert(debug_csrs().len() == 7);
    assert forall|i: int| 0 <= i < 33 implies spec_catalog()[i] == general_registers()[i] by {}
}

/// Law: every catalog entry past the 33 general registers is a CSR entry and
/// defaults to not present.
pub proof fn lemma_csr_defaults()
    ensures
        spec_catalog().len() == 251,
        forall|i: int|
            33 <= i < 251 ==> (#[trigger] spec_catalog()[i]).register_type
                == RiscvRegisterType::CSR,
        forall|i: int| 33 <= i < 251 ==> !(#[trigger] spec_catalog()[i]).present,
{
    assert(user_csrs().len() == 72);
    assert(supervisor_csrs().len() == 12);
    assert(machine_csrs().len() == 127);
    assert(debug_csrs().len() == 7);
    assert forall|i: int|
        33 <= i < 251 implies (#[trigger] spec_catalog()[i]).register_type
        == RiscvRegisterType::CSR && !spec_catalog()[i].present by {}
}

/// Appends one CSR entry that is not present by default.
fn push_csr(regs: &mut Vec<RiscvRegister>, index: u32, name: &str)
    ensures
        regs_view(final(regs)@) == regs_view(old(regs)@).push(csr_entry(index, name@)),
{
    regs.push(RiscvRegister::csr(index, name, false));
    proof {
        assert(regs_view(regs@) =~~= regs_view(old(regs)@).push(csr_entry(index, name@)));
    }
}

/// Appends the family `prefix<n>suffix` at addresses `base + n` for `n` in
/// `lo .. lo + count`.
fn push_csr_family(
    regs: &mut Vec<RiscvRegister>,
    base: u32,
    lo: u32,
    count: u32,
    prefix: &str,
    suffix: &str,
)
    requires
        base + lo + count <= u32::MAX,
    ensures
        regs_view(final(regs)@) == regs_view(old(regs)@) + csr_family(
            base as int,
            lo as int,
            count as nat,
            prefix@,
            suffix@,
        ),
{
    let ghost fam = csr_family(base as int, lo as int, count as nat, prefix@, suffix@);
    for j in 0..count
        invariant
            base + lo + count <= u32::MAX,
            fam == csr_family(base as int, lo as int, count as nat, prefix@, suffix@),
            regs_view(regs@) == regs_view(old(regs)@) + fam.take(j as int),
    {
        let n: u32 = lo + j;
        let mut name = String::from_str(prefix);
        push_dec(&mut name, n);
        name.append(suffix);
        let ghost prev = regs@;
        regs.push(RiscvRegister::csr(base + n, name.as_str(), false));
        proof {
            assert(name@ == prefix@ + dec_rep(n as nat) + suffix@);
            assert(regs_view(prev.push(regs@.last())) =~~= regs_view(prev).push(
                regs@.last()@,
            ));
            assert(regs@.last()@ =~~= fam[j as int]);
            assert(fam.take(j + 1) =~~= fam.take(j as int).push(fam[j as int]));
            assert(regs_view(old(regs)@) + fam.take(j + 1) =~~= (regs_view(old(regs)@)
                + fam.take(j as int)).push(fam[j as int]));
        }
    }
    proof {
        assert(fam.take(count as int) =~~= fam);
    }
}

/// Appends the general-purpose registers `x0..x31` and `pc`, all present.
pub(crate) fn push_general_registers(regs: &mut Vec<RiscvRegister>)
    ensures
        regs_view(final(regs)@) == regs_view(old(regs)@) + general_registers(),
{
    for i in 0..32u32
        invariant
            regs_view(regs@) == regs_view(old(regs)@) + general_registers().take(i as int),
    {
        let ghost g = general_registers();
        let mut name = String::from_str("x");
        push_dec(&mut name, i);
        let ghost prev = regs@;
        regs.push(RiscvRegister::general(i, name.as_str()));
        proof {
            assert(regs_view(prev.push(regs@.last())) =~~= regs_view(prev).push(
                regs@.last()@,
            ));
            assert(regs@.last()@ =~~= g[i as int]);
            assert(g.take(i + 1) =~~= g.take(i as int).push(g[i as int]));
            assert(regs_view(old(regs)@) + g.take(i + 1) =~~= (regs_view(old(regs)@)
                + g.take(i as int)).push(g[i as int]));
        }
    }
    let ghost g = general_registers();
    let ghost prev = regs@;
    regs.push(RiscvRegister::general(32, "pc"));
    proof {
        assert(regs_view(prev.push(regs@.last())) =~~= regs_view(prev).push(regs@.last()@));
        assert(regs@.last()@ =~~= g[32]);
        assert(g =~~= g.take(32).push(g[32]));
        assert(regs_view(old(regs)@) + g =~~= (regs_view(old(regs)@) + g.take(32)).push(
            g[32],
        ));
    }
}

/// Appends the user-mode CSRs in catalog order.
pub(crate) fn push_user_csrs(regs: &mut Vec<RiscvRegister>)
    ensures
        regs_view(final(regs)@) == regs_view(old(regs)@) + user_csrs(),
{
    push_csr(regs, 0x000, "ustatus");
    push_csr(regs, 0x004, "uie");
    push_csr(regs, 0x005, "utvec");
    push_csr(regs, 0x040, "uscratch");
    push_csr(regs, 0x041, "uepc");
    push_csr(regs, 0x042, "ucause");
    push_csr(regs, 0x043, "utval");
    push_csr(regs, 0x044, "uip");
    push_csr(regs, 0xc00, "cycle");
    push_csr(regs, 0xc01, "time");
    push_csr(regs, 0xc02, "instret");
    push_csr_family(regs, 0xc00, 3, 29, "hpmcounter", "");
    push_csr(regs, 0xc80, "cycleh");
    push_csr(regs, 0xc81, "timeh");
    push_csr(regs, 0xc82, "instreth");
    push_csr_family(regs, 0xc80, 3, 29, "hpmcounter", "h");
    proof {
        assert(regs_view(regs@) =~~= regs_view(old(regs)@) + user_csrs());
    }
}

/// Appends the supervisor-mode CSRs in catalog order.
pub(crate) fn push_supervisor_csrs(regs: &mut Vec<RiscvRegister>)
    ensures
        regs_view(final(regs)@) == regs_view(old(regs)@) + supervisor_csrs(),
{
    push_csr(regs, 0x100, "sstatus");
    push_csr(regs, 0x102, "sedeleg");
    push_csr(regs, 0x103, "sideleg");
    push_csr(regs, 0x104, "sie");
    push_csr(regs, 0x105, "stvec");
    push_csr(regs, 0x106, "scounteren");
    push_csr(regs, 0x140, "sscratch");
    push_csr(regs, 0x141, "sepc");
    push_csr(regs, 0x142, "scause");
    push_csr(regs, 0x143, "stval");
    push_csr(regs, 0x144, "sip");
    push_csr(regs, 0x180, "satp");
    proof {
        assert(regs_view(regs@) =~~= regs_view(old(regs)@) + supervisor_csrs());
    }
}

/// Appends the machine-mode CSRs in catalog order.
pub(crate) fn push_machine_csrs(regs: &mut Vec<RiscvRegister>)
    ensures
        regs_view(final(regs)@) == regs_view(old(regs)@) + machine_csrs(),
{
    push_csr(regs, 0xf11, "mvendorid");
    push_csr(regs, 0xf12, "marchid");
    push_csr(regs, 0xf13, "mimpid");
    push_csr(regs, 0xf14, "mhartid");
    push_csr(regs, 0x300, "mstatus");
    push_csr(regs, 0x301, "misa");
    push_csr(regs, 0x302, "medeleg");
    push_csr(regs, 0x303, "mideleg");
    push_csr(regs, 0x304, "mie");
    push_csr(regs, 0x305, "mtvec");
    push_csr(regs, 0x306, "mcounteren");
    push_csr(regs, 0x340, "mscratch");
    push_csr(regs, 0x341, "mepc");
    push_csr(regs, 0x342, "mcause");
    push_csr(regs, 0x343, "mtval");
    push_csr(regs, 0x344, "mip");
    push_csr_family(regs, 0x3a0, 0, 4, "pmpcfg", "");
    push_csr_family(regs, 0x3b0, 0, 16, "pmpaddr", "");
    push_csr(regs, 0xb00, "mcycle");
    push_csr(regs, 0xb02, "minstret");
    push_csr_family(regs, 0xb00, 3, 29, "mhpmcounter", "");
    push_csr(regs, 0xb80, "mcycleh");
    push_csr(regs, 0xb82, "minstreth");
    push_csr_family(regs, 0xb80, 3, 29, "mhpmcounter", "h");
    push_csr_family(regs, 0x320, 3, 29, "mhpmevent", "");
    proof {
        assert(regs_view(regs@) =~~= regs_view(old(regs)@) + machine_csrs());
    }
}

/// Appends the debug/trace and debug-mode CSRs in catalog order.
pub(crate) fn push_debug_csrs(regs: &mut Vec<RiscvRegister>)
    ensures
        regs_view(final(regs)@) == regs_view(old(regs)@) + debug_csrs(),
{
    push_csr(regs, 0x7a0, "tselect");
    push_csr(regs, 0x7a1, "tdata1");
    push_csr(regs, 0x7a2, "tdata2");
    push_csr(regs, 0x7a3, "tdata3");
    push_csr(regs, 0x7b0, "dcsr");
    push_csr(regs, 0x7b1, "dpc");
    push_csr(regs, 0x7b2, "dscratch");
    proof {
        assert(regs_view(regs@) =~~= regs_view(old(regs)@) + debug_csrs());
    }
}

} // verus!
