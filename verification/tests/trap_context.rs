use trap_context::context::TrapContext;
use trap_context::sstatus::{Spp, Sstatus};

const SPP_MASK: usize = 0x100;
const SIE: usize = 0x2;
const SPIE: usize = 0x20;

#[test]
fn new_status_is_all_clear() {
    let s = Sstatus::new();
    assert_eq!(s.bits(), 0);
    assert_eq!(s.spp(), Spp::User);
}

#[test]
fn from_bits_round_trips() {
    let s = Sstatus::from_bits(SPP_MASK | SPIE | SIE);
    assert_eq!(s.bits(), SPP_MASK | SPIE | SIE);
    assert_eq!(s.spp(), Spp::Supervisor);
}

#[test]
fn set_spp_changes_only_the_spp_field() {
    let mut s = Sstatus::from_bits(SPIE | SIE);
    assert_eq!(s.spp(), Spp::User);
    s.set_spp(Spp::Supervisor);
    assert_eq!(s.spp(), Spp::Supervisor);
    assert_eq!(s.bits(), SPP_MASK | SPIE | SIE);
    s.set_spp(Spp::User);
    assert_eq!(s.spp(), Spp::User);
    assert_eq!(s.bits(), SPIE | SIE);
}

#[test]
fn initial_context_concrete_scenario() {
    let ambient = Sstatus::new();
    let cx = TrapContext::app_init_context_with_status(0x80400000, 0x80200000, ambient);
    assert_eq!(cx.sepc, 0x80400000);
    assert_eq!(cx.x[2], 0x80200000);
    for i in 0..32 {
        if i != 2 {
            assert_eq!(cx.x[i], 0);
        }
    }
    assert_eq!(cx.sstatus.spp(), Spp::User);
}

#[test]
fn initial_context_drops_supervisor_privilege() {
    let mut ambient = Sstatus::new();
    ambient.set_spp(Spp::Supervisor);
    let cx = TrapContext::app_init_context_with_status(0x1000, 0x2000, ambient);
    assert_eq!(cx.sstatus.spp(), Spp::User);
    assert_eq!(cx.sstatus.bits(), 0);
}

#[test]
fn initial_context_inherits_ambient_status_bits() {
    let ambient = Sstatus::from_bits(SPP_MASK | SPIE | SIE);
    let cx = TrapContext::app_init_context_with_status(0x1000, 0x2000, ambient);
    assert_eq!(cx.sstatus.spp(), Spp::User);
    assert_eq!(cx.sstatus.bits(), SPIE | SIE);
}

#[test]
fn initial_context_from_live_status() {
    // On a target without the sstatus register the all-clear template
    // stands in, so the call still yields a user-mode initial context.
    let cx = TrapContext::app_init_context(0x80400000, 0x80200000);
    assert_eq!(cx.sepc, 0x80400000);
    assert_eq!(cx.x[2], 0x80200000);
    for i in 0..32 {
        if i != 2 {
            assert_eq!(cx.x[i], 0);
        }
    }
    assert_eq!(cx.sstatus.spp(), Spp::User);
}

#[test]
fn set_sp_changes_only_slot_two() {
    let ambient = Sstatus::from_bits(SPIE);
    let mut cx = TrapContext::app_init_context_with_status(0x1000, 0x2000, ambient);
    let before_x = cx.x;
    let before_status = cx.sstatus;
    let before_sepc = cx.sepc;
    cx.set_sp(0x3000);
    assert_eq!(cx.x[2], 0x3000);
    for i in 0..32 {
        if i != 2 {
            assert_eq!(cx.x[i], before_x[i]);
        }
    }
    assert_eq!(cx.sstatus, before_status);
    assert_eq!(cx.sepc, before_sepc);
}

#[test]
fn construction_is_deterministic() {
    let ambient = Sstatus::from_bits(SPP_MASK | SIE);
    let a = TrapContext::app_init_context_with_status(0x1234, 0x5678, ambient);
    let b = TrapContext::app_init_context_with_status(0x1234, 0x5678, ambient);
    assert_eq!(a.x, b.x);
    assert_eq!(a.sepc, b.sepc);
    assert_eq!(a.sstatus, b.sstatus);
    assert_eq!(a.sstatus.spp(), b.sstatus.spp());
}
