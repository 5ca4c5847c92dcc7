//! Feature documents: the exact character sequences of the GDB
//! target-description document and of the thread-list document, and a
//! verified renderer for the target description.
//!
//! A document is byte-for-byte deterministic for a given catalog: its
//! specification is a function of the catalog alone. Within each feature
//! element, the renderer emits one `<reg>` element per register that is
//! present and belongs to the feature's group, in catalog order, and nothing
//! for any other register.

use vstd::prelude::*;
use vstd::string::StringExecFns;
use crate::numerals::dec_rep;
use crate::numerals::push_dec;
use crate::registers::RegisterModel;
use crate::registers::RiscvRegister;
use crate::registers::RiscvRegisterType;
use crate::registers::regs_view;
use crate::registers::spec_feature_name;
use crate::registers::spec_group_name;

verus! {

/// The XML declaration, the GDB target DTD doctype, and the opening root
/// element of the target description.
pub open spec fn spec_xml_header() -> Seq<char> {
    "<?xml version=\"1.0\"?>\n<!DOCTYPE target SYSTEM \"gdb-target.dtd\">\n<target version=\"1.0\">\n"@
}

/// The thread-list document: a fixed, minimal placeholder. Harts/threads are
/// not enumerated.
pub open spec fn spec_threads_xml() -> Seq<char> {
    "<?xml version=\"1.0\"?>\n<threads>\n</threads>"@
}

/// The `<reg>` element of one register. `regnum` carries the register's raw
/// namespace index (for a CSR, its architectural CSR address), not its ordinal
/// position in the document.
pub open spec fn spec_reg_line(r: RegisterModel) -> Seq<char> {
    "<reg name=\""@ + r.name + "\" bitsize=\"32\" regnum=\""@ + dec_rep(r.index as nat)
        + "\" save-restore=\"no\" type=\"int\" group=\""@ + spec_group_name(r.register_type)
        + "\"/>\n"@
}

/// The `<reg>` element as a function value, for mapping over a catalog.
pub open spec fn reg_line_fn() -> spec_fn(RegisterModel) -> Seq<char> {
    |r: RegisterModel| spec_reg_line(r)
}

/// Membership of a register in the feature of group `t`: the register is
/// present and belongs to that group.
pub open spec fn in_feature(t: RiscvRegisterType) -> spec_fn(RegisterModel) -> bool {
    |r: RegisterModel| r.present && r.register_type == t
}

/// The registers listed under the feature of group `t`: exactly the present
/// registers of that group, in catalog order.
pub open spec fn emitted_registers(t: RiscvRegisterType, regs: Seq<RegisterModel>) -> Seq<
    RegisterModel,
> {
    regs.filter(in_feature(t))
}

/// The feature element of group `t`: its opening tag, one `<reg>` element per
/// emitted register, and its closing tag.
pub open spec fn spec_feature_block(t: RiscvRegisterType, regs: Seq<RegisterModel>) -> Seq<char> {
    "<feature name=\""@ + spec_feature_name(t) + "\">\n"@ + emitted_registers(t, regs).flat_map(
        reg_line_fn(),
    ) + "</feature>\n"@
}

/// The complete target-description document for a catalog: the header, the
/// general feature, the CSR feature, and the closing root tag.
pub open spec fn spec_target_xml(regs: Seq<RegisterModel>) -> Seq<char> {
    spec_xml_header() + spec_feature_block(RiscvRegisterType::General, regs)
        + spec_feature_block(RiscvRegisterType::CSR, regs) + "</target>\n"@
}

/// Law: a feature element lists exactly the present registers of its group.
/// Every register a feature lists is present and belongs to that feature's
/// group, and the two features of the document together list every present
/// register of the catalog exactly once — none twice, none dropped.
pub proof fn lemma_features_partition(regs: Seq<RegisterModel>)
    ensures
        emitted_registers(RiscvRegisterType::General, regs).len() + emitted_registers(
            RiscvRegisterType::CSR,
            regs,
        ).len() == regs.filter(|r: RegisterModel| r.present).len(),
        forall|t: RiscvRegisterType, j: int|
            0 <= j < emitted_registers(t, regs).len() ==> (#[trigger] emitted_registers(t, regs)[j]).present
                && emitted_registers(t, regs)[j].register_type == t,
    decreases regs.len(),
{
    let present = |r: RegisterModel| r.present;
    if regs.len() == 0 {
        reveal(Seq::filter);
    } else {
        let l = regs.last();
        lemma_features_partition(regs.drop_last());
        assert(regs.drop_last().push(l) =~~= regs);
        regs.drop_last().lemma_filter_push(l, in_feature(RiscvRegisterType::General));
        regs.drop_last().lemma_filter_push(l, in_feature(RiscvRegisterType::CSR));
        regs.drop_last().lemma_filter_push(l, present);
        assert(in_feature(RiscvRegisterType::General)(l) <==> (l.present && l.register_type
            == RiscvRegisterType::General));
        assert(in_feature(RiscvRegisterType::CSR)(l) <==> (l.present && l.register_type
            == RiscvRegisterType::CSR));
    }
}

/// Appends the feature element of group `t` to `xml`.
pub(crate) fn push_feature(xml: &mut String, t: RiscvRegisterType, registers: &Vec<RiscvRegister>)
    ensures
        final(xml)@ == old(xml)@ + spec_feature_block(t, regs_view(registers@)),
{
    let ghost rv = regs_view(registers@);
    xml.append("<feature name=\"");
    xml.append(t.feature_name());
    xml.append("\">\n");
    let ghost opener = "<feature name=\""@ + spec_feature_name(t) + "\">\n"@;
    proof {
        assert(xml@ == old(xml)@ + opener);
    }
    for i in 0..registers.len()
        invariant
            rv == regs_view(registers@),
            opener == "<feature name=\""@ + spec_feature_name(t) + "\">\n"@,
            xml@ == old(xml)@ + opener + emitted_registers(t, rv.take(i as int)).flat_map(
                reg_line_fn(),
            ),
    {
        let ghost before = xml@;
        let reg = &registers[i];
        if reg.present && reg.register_type == t {
            xml.append("<reg name=\"");
            xml.append(reg.name.as_str());
            xml.append("\" bitsize=\"32\" regnum=\"");
            push_dec(xml, reg.index);
            xml.append("\" save-restore=\"no\" type=\"int\" group=\"");
            xml.append(reg.register_type.group());
            xml.append("\"/>\n");
            proof {
                assert(xml@ =~= before + spec_reg_line(rv[i as int]));
            }
        }
        proof {
            let emitted = emitted_registers(t, rv.take(i as int));
            assert(rv.take(i + 1) =~~= rv.take(i as int).push(rv[i as int]));
            rv.take(i as int).lemma_filter_push(rv[i as int], in_feature(t));
            if in_feature(t)(rv[i as int]) {
                emitted.lemma_flat_map_push(reg_line_fn(), rv[i as int]);
                assert(xml@ =~= old(xml)@ + opener + emitted_registers(
                    t,
                    rv.take(i + 1),
                ).flat_map(reg_line_fn()));
            } else {
                assert(xml@ =~= old(xml)@ + opener + emitted_registers(
                    t,
                    rv.take(i + 1),
                ).flat_map(reg_line_fn()));
            }
        }
    }
    proof {
        assert(rv.take(registers@.len() as int) =~~= rv);
    }
    xml.append("</feature>\n");
    proof {
        assert(xml@ =~= old(xml)@ + spec_feature_block(t, rv));
    }
}

} // verus!
