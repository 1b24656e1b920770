//! The schema scenarios of the wire format, checked on the decisions the
//! library makes for the decoder: the version, the register invariants and
//! the defaults that the encoder omits.

use pmi::vm::vcpu::aarch64::PState;
use pmi::vm::vcpu::x86_64::{rflags_is_default, CpuState, RFlags, SegAttributes};
use pmi::vm::vcpu::is_zero;
use pmi::vm::{Action, Fill, FillKind, Load, LoadKind, Spec};
use pmi::{UnsupportedVersion, Version};

fn bundled_example() -> Spec<CpuState> {
    Spec {
        version: Version::default(),
        vcpu: CpuState {
            rip: 0x100000,
            rsp: 0x80000,
            ..CpuState::default()
        },
        cpu_profile: "x86-64-v2".into(),
        dt_dtb: Some(".dtb".to_owned()),
        actions: vec![
            Action::Load(Load {
                gpa: 0x100000,
                section: ".linux".to_owned(),
                kind: LoadKind::Default,
            }),
            Action::Load(Load {
                gpa: 0x2001000,
                section: ".dtb".to_owned(),
                kind: LoadKind::Default,
            }),
            Action::Fill(Fill {
                gpa: 0x2011000,
                section: ".dtbo".to_owned(),
                kind: FillKind::DtDtbo,
            }),
        ],
    }
}

#[test]
fn bundled_example_holds_its_fields() {
    let spec = bundled_example();
    assert_eq!(spec.version, Version::<1>::default());
    assert_eq!(spec.version.value(), 1);
    assert_eq!(spec.dt_dtb.as_deref(), Some(".dtb"));
    assert_eq!(spec.cpu_profile.as_str(), "x86-64-v2");
    assert_eq!(spec.vcpu.rip, 0x100000);
    assert_eq!(spec.vcpu.rflags.get(), 0x2, "rflags default survives");
    assert!(rflags_is_default(&spec.vcpu.rflags));
    assert_eq!(spec.actions.len(), 3);
    match &spec.actions[0] {
        Action::Load(l) => assert!(l.kind.is_default(), "LoadKind::Default is skipped on the wire"),
        other => panic!("expected a load, got {other:?}"),
    }
    match &spec.actions[2] {
        Action::Fill(f) => assert_eq!(f.kind, FillKind::DtDtbo),
        other => panic!("expected a fill, got {other:?}"),
    }
}

#[test]
fn wrong_version_is_rejected() {
    assert!(Version::<1>::try_from(2u32).is_err(), "Version<1> must reject version 2");
    assert_eq!(
        Version::<1>::try_from(2u32),
        Err(UnsupportedVersion { expected: 1, got: 2 })
    );
    assert_eq!(Version::<1>::try_from(0u32).err(), Some(UnsupportedVersion { expected: 1, got: 0 }));
    assert_eq!(Version::<1>::try_from(1u32), Ok(Version::<1>::default()));
    assert_eq!(Version::<7>::try_from(7u32).unwrap().value(), 7);
    assert!(Version::<7>::try_from(1u32).is_err());
}

#[test]
fn default_vcpu_meets_every_skip_rule_and_defaults_rflags() {
    let s = CpuState::default();
    assert!(rflags_is_default(&s.rflags));
    assert!(is_zero(&s.rip) && is_zero(&s.cs) && is_zero(&s.gdtr));
    assert_eq!(s.rflags.get(), 0x2);
    assert_eq!(s.rip, 0);
}

#[test]
fn rflags_reserved_bit_is_enforced() {
    assert!(RFlags::new(0).is_err(), "rflags with bit 1 clear must be rejected");
    assert_eq!(RFlags::new(0x202).expect("valid rflags").get(), 0x202);
}

#[test]
fn reserved_segment_attribute_bits_are_rejected() {
    assert!(SegAttributes::new(0x1000).is_err(), "segment attribute bits 12-15 must be zero");
}

#[test]
fn aarch64_pstate_must_select_el1() {
    assert!(PState::new(0).is_err());
    assert_eq!(PState::new(0x5).expect("EL1h pstate is valid").get(), 0x5);
}

#[test]
fn detached_mode_has_no_attribute_and_a_dtb_fill() {
    let mut spec = bundled_example();
    spec.dt_dtb = None;
    spec.actions[1] = Action::Fill(Fill {
        gpa: 0x2001000,
        section: ".dtb".to_owned(),
        kind: FillKind::DtDtb,
    });
    assert_eq!(spec.dt_dtb, None);
    match &spec.actions[1] {
        Action::Fill(f) => assert_eq!(f.kind, FillKind::DtDtb),
        other => panic!("expected a dt:dtb fill, got {other:?}"),
    }
}
