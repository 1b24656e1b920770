use pmi::vm::vcpu::aarch64::PState;
use pmi::vm::vcpu::InvalidRegister;

#[test]
fn pstate_accepts_only_el1() {
    assert_eq!(PState::new(0x5).unwrap().get(), 0x5); // EL1h
    assert_eq!(PState::new(0x4).unwrap().get(), 0x4); // EL1t
    assert!(PState::new(0x0).is_err()); // EL0t
    assert!(PState::new(0x9).is_err()); // EL2h
                                        // DAIF masks (bits 6-9) do not affect EL selection.
    assert!(PState::new(0x3C5).is_ok());
}

#[test]
fn pstate_rejects_aarch32_and_reports_the_rule() {
    // M[4] = 1 selects AArch32 even when M[3:0] looks like EL1.
    assert_eq!(PState::new(0x14), Err(InvalidRegister::PstateNotEl1));
    assert_eq!(PState::new(0x15), Err(InvalidRegister::PstateNotEl1));
    assert_eq!(PState::try_from(0xD), Err(InvalidRegister::PstateNotEl1)); // EL3h
    assert_eq!(PState::try_from(0x3C4u64).unwrap().get(), 0x3C4);
    // NZCV flags do not affect EL selection either.
    assert_eq!(PState::new(0xF000_0005).unwrap().get(), 0xF000_0005);
}
