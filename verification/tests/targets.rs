use pmi::cpu::Profile;
use pmi::sev;
use pmi::vm::vcpu::aarch64::{CpuState, PState};
use pmi::Target;

#[test]
fn targets_are_carried_in_their_own_sections() {
    assert_eq!(<pmi::vm::Spec<pmi::vm::vcpu::x86_64::CpuState> as Target>::NAME, "vm");
    assert_eq!(<pmi::vm::Spec<pmi::vm::vcpu::aarch64::CpuState> as Target>::SECTION, ".pmi.vm");
    assert_eq!(<pmi::cca::Spec as Target>::NAME, "cca");
    assert_eq!(<pmi::cca::Spec as Target>::SECTION, ".pmi.cca");
    assert_eq!(<pmi::sev::Spec as Target>::NAME, "sev");
    assert_eq!(<pmi::sev::Spec as Target>::SECTION, ".pmi.sev");
    assert_eq!(<pmi::tdx::Spec as Target>::NAME, "tdx");
    assert_eq!(<pmi::tdx::Spec as Target>::SECTION, ".pmi.tdx");
    for (name, section) in [
        (<pmi::cca::Spec as Target>::NAME, <pmi::cca::Spec as Target>::SECTION),
        (<pmi::sev::Spec as Target>::NAME, <pmi::sev::Spec as Target>::SECTION),
        (<pmi::tdx::Spec as Target>::NAME, <pmi::tdx::Spec as Target>::SECTION),
    ] {
        assert_eq!(format!(".pmi.{name}"), section);
    }
}

#[test]
fn profile_carries_the_name_verbatim() {
    assert_eq!(Profile::new("x86-64-v3").as_str(), "x86-64-v3");
    assert_eq!(Profile::new(String::from("armv9.2-a")).as_str(), "armv9.2-a");
    assert_eq!(Profile::from("armv8.2-a").as_str(), "armv8.2-a");
    assert_eq!(Profile::from(String::from("x86-64-v4")).as_str(), "x86-64-v4");
    let p: Profile = "x86-64-v2".into();
    assert_eq!(p, Profile::new("x86-64-v2"));
    assert_eq!(Profile::new("").as_str(), "");
}

#[test]
fn load_kinds_default_and_skip() {
    assert!(pmi::vm::LoadKind::default().is_default());
    assert_eq!(pmi::cca::LoadKind::default(), pmi::cca::LoadKind::Default);
    assert!(sev::LoadKind::default().is_default());
    assert!(!sev::LoadKind::Vmsa.is_default());
    assert_eq!(sev::LoadKind::default(), sev::LoadKind::Default);
}

#[test]
fn target_specs_build_from_their_parts() {
    let vcpu = CpuState {
        x0: 0x80000, x1: 0, x2: 0, x3: 0, x4: 0, x5: 0, x6: 0, x7: 0, x8: 0, x9: 0, x10: 0,
        x11: 0, x12: 0, x13: 0, x14: 0, x15: 0, x16: 0, x17: 0, x18: 0, x19: 0, x20: 0,
        x21: 0, x22: 0, x23: 0, x24: 0, x25: 0, x26: 0, x27: 0, x28: 0, x29: 0, x30: 0,
        sp_el1: 0, pc: 0x100000, pstate: PState::new(0x3C5).unwrap(), sctlr_el1: 0,
        tcr_el1: 0, ttbr0_el1: 0, ttbr1_el1: 0, mair_el1: 0, vbar_el1: 0, cpacr_el1: 0,
    };
    let cca = pmi::cca::Spec {
        version: pmi::Version::default(),
        actions: vec![
            pmi::cca::Action::Load(pmi::cca::Load { section: ".linux".into(), kind: pmi::cca::LoadKind::Default }),
            pmi::cca::Action::Fill(pmi::cca::Fill { section: ".dtbo".into(), kind: pmi::cca::FillKind::DtDtbo }),
        ],
        vcpu,
        cpu_profile: "armv9.2-a".into(),
    };
    assert_eq!(cca.vcpu.pstate.get(), 0x3C5);
    assert_eq!(cca.actions.len(), 2);

    let sev = pmi::sev::Spec {
        version: pmi::Version::default(),
        actions: vec![
            pmi::sev::Action::Load(pmi::sev::Load { gpa: 0xFFFF_F000, section: ".vmsa".into(), kind: pmi::sev::LoadKind::Vmsa }),
            pmi::sev::Action::Fill(pmi::sev::Fill { gpa: 0x1000, section: ".secrets".into(), kind: pmi::sev::FillKind::Secrets }),
            pmi::sev::Action::Fill(pmi::sev::Fill { gpa: 0x2000, section: ".cpuid".into(), kind: pmi::sev::FillKind::Cpuid }),
        ],
        id: Some(pmi::sev::Id { block: ".idblock".into(), auth: ".idauth".into() }),
        cpu_profile: "x86-64-v3".into(),
        dt_dtb: None,
    };
    assert_eq!(sev.actions.len(), 3);
    assert_eq!(sev.version.value(), 1);

    let tdx = pmi::tdx::Spec {
        version: pmi::Version::default(),
        actions: vec![pmi::tdx::Action::Load(pmi::tdx::Load { gpa: 0xFFFF_0000, section: ".tdx.consumer".into(), kind: pmi::tdx::LoadKind::Default })],
        cpu_profile: "x86-64-v4".into(),
        merged_dtb: Some(".dtb".into()),
    };
    assert_eq!(tdx.merged_dtb.as_deref(), Some(".dtb"));
}
