use add_lookup::assignment::AdviceSlot;
use add_lookup::assignment::CellHandle;
use add_lookup::assignment::CircuitAssignment;
use add_lookup::checker::check;
use add_lookup::checker::Verdict;
use add_lookup::checker::Violation;
use add_lookup::checker::ViolationKind;
use add_lookup::field::FieldElement;
use add_lookup::schema::AddChip;
use add_lookup::schema::AddChipConfig;
use add_lookup::schema::ConfigurationError;

fn fe(v: u64) -> FieldElement {
    FieldElement::from_u64(v)
}

fn check_one(cfg: &AddChipConfig, a: u64, b: u64, c: u64, public: u64) -> Verdict {
    let mut asg = CircuitAssignment::new();
    let handle = asg.assign(0, fe(a), fe(b), fe(c)).unwrap();
    asg.constrain_instance(handle, fe(public));
    check(cfg, &asg).unwrap()
}

fn failures(v: Verdict) -> Vec<Violation> {
    match v {
        Verdict::Pass => panic!("expected a failing verdict"),
        Verdict::Fail { violations } => violations,
    }
}

#[test]
fn scenario_correct_witness_and_public_passes() {
    let cfg = AddChip::configure(10);
    assert!(matches!(check_one(&cfg, 7, 8, 15, 15), Verdict::Pass));
}

#[test]
fn scenario_wrong_public_fails_with_mismatch_only() {
    let cfg = AddChip::configure(10);
    let violations = failures(check_one(&cfg, 7, 8, 15, 0));
    assert_eq!(violations.len(), 1);
    assert_eq!(violations[0].row, 0);
    match violations[0].kind {
        ViolationKind::InstanceMismatch { cell_value, public_value } => {
            assert_eq!(cell_value, fe(15));
            assert_eq!(public_value, fe(0));
        },
        ViolationKind::LookupMiss { .. } => panic!("the lookup must still succeed"),
    }
}

#[test]
fn scenario_out_of_domain_fails_with_lookup_miss_only() {
    let cfg = AddChip::configure(10);
    let violations = failures(check_one(&cfg, 11, 0, 11, 11));
    assert_eq!(violations.len(), 1);
    assert_eq!(violations[0].row, 0);
    match violations[0].kind {
        ViolationKind::LookupMiss { a, b, c } => {
            assert_eq!(a, fe(11));
            assert_eq!(b, fe(0));
            assert_eq!(c, fe(11));
        },
        ViolationKind::InstanceMismatch { .. } => {
            panic!("a numerically correct public value cannot mask the miss")
        },
    }
}

#[test]
fn every_in_domain_addition_passes() {
    let cfg = AddChip::configure(10);
    for a in 0..=10u64 {
        for b in 0..=10u64 {
            assert!(matches!(check_one(&cfg, a, b, a + b, a + b), Verdict::Pass));
        }
    }
}

#[test]
fn every_wrong_public_fails_with_mismatch_only() {
    let cfg = AddChip::configure(10);
    for a in 0..=10u64 {
        for b in 0..=10u64 {
            let violations = failures(check_one(&cfg, a, b, a + b, a + b + 1));
            assert_eq!(violations.len(), 1);
            assert!(matches!(violations[0].kind, ViolationKind::InstanceMismatch { .. }));
        }
    }
}

#[test]
fn out_of_domain_inputs_fail_regardless_of_public() {
    let cfg = AddChip::configure(10);
    for (a, b, c, public) in [(11, 0, 11, 11), (0, 12, 12, 12), (99, 99, 198, 0)] {
        let violations = failures(check_one(&cfg, a, b, c, public));
        assert!(violations
            .iter()
            .any(|v| matches!(v.kind, ViolationKind::LookupMiss { .. })));
    }
}

#[test]
fn arithmetic_error_fails_with_lookup_miss() {
    let cfg = AddChip::configure(10);
    let violations = failures(check_one(&cfg, 2, 3, 6, 6));
    assert_eq!(violations.len(), 1);
    assert!(matches!(violations[0].kind, ViolationKind::LookupMiss { .. }));
}

#[test]
fn lookup_and_instance_violations_report_in_order() {
    let cfg = AddChip::configure(10);
    let mut asg = CircuitAssignment::new();
    let handle = asg.assign(0, fe(11), fe(0), fe(11)).unwrap();
    asg.constrain_instance(handle, fe(5));
    let violations = failures(check(&cfg, &asg).unwrap());
    assert_eq!(violations.len(), 2);
    assert!(matches!(violations[0].kind, ViolationKind::LookupMiss { .. }));
    assert!(matches!(violations[1].kind, ViolationKind::InstanceMismatch { .. }));
}

#[test]
fn many_rows_check_independently() {
    let cfg = AddChip::configure(10);
    let mut asg = CircuitAssignment::new();
    let h0 = asg.assign(0, fe(3), fe(4), fe(7)).unwrap();
    let h1 = asg.assign(1, fe(5), fe(5), fe(10)).unwrap();
    asg.constrain_instance(h0, fe(7));
    asg.constrain_instance(h1, fe(10));
    assert!(matches!(check(&cfg, &asg).unwrap(), Verdict::Pass));

    let mut asg = CircuitAssignment::new();
    let h0 = asg.assign(0, fe(3), fe(4), fe(7)).unwrap();
    let h1 = asg.assign(1, fe(5), fe(5), fe(10)).unwrap();
    asg.constrain_instance(h0, fe(7));
    asg.constrain_instance(h1, fe(0));
    let violations = failures(check(&cfg, &asg).unwrap());
    assert_eq!(violations.len(), 1);
    assert_eq!(violations[0].row, 1);
}

#[test]
fn bindings_can_name_any_assigned_slot() {
    let cfg = AddChip::configure(10);
    let mut asg = CircuitAssignment::new();
    asg.assign(0, fe(3), fe(4), fe(7)).unwrap();
    asg.constrain_instance(CellHandle { slot: AdviceSlot::A, row: 0 }, fe(3));
    asg.constrain_instance(CellHandle { slot: AdviceSlot::B, row: 0 }, fe(4));
    assert!(matches!(check(&cfg, &asg).unwrap(), Verdict::Pass));

    let mut asg = CircuitAssignment::new();
    asg.assign(0, fe(3), fe(4), fe(7)).unwrap();
    asg.constrain_instance(CellHandle { slot: AdviceSlot::A, row: 0 }, fe(4));
    let violations = failures(check(&cfg, &asg).unwrap());
    assert_eq!(violations.len(), 1);
    assert!(matches!(violations[0].kind, ViolationKind::InstanceMismatch { .. }));
}

#[test]
fn missing_lookup_registration_aborts_before_checks() {
    let mut cfg = AddChip::configure(10);
    cfg.lookup = None;
    let asg = CircuitAssignment::new();
    assert_eq!(check(&cfg, &asg), Err(ConfigurationError::LookupNotRegistered));
}

#[test]
fn misbound_lookup_aborts_before_checks() {
    let mut cfg = AddChip::configure(10);
    let mut lookup = cfg.lookup.unwrap();
    lookup.advice_a = cfg.b_col;
    cfg.lookup = Some(lookup);
    let asg = CircuitAssignment::new();
    assert_eq!(check(&cfg, &asg), Err(ConfigurationError::SchemaMalformed));
}

#[test]
fn configure_declares_a_well_formed_schema() {
    let cfg = AddChip::configure(10);
    assert!(cfg.validate().is_ok());
    assert_eq!(cfg.table.domain_max, 10);
    assert_eq!(cfg.table.rows.len(), 121);
    assert!(cfg.lookup.is_some());
    assert!(cfg.equality_enabled(cfg.a_col));
    assert!(cfg.equality_enabled(cfg.b_col));
    assert!(cfg.equality_enabled(cfg.c_col));
    assert!(cfg.equality_enabled(cfg.pub_col));
    assert!(!cfg.equality_enabled(cfg.add_a_col));
    let chip = AddChip::new(cfg);
    assert_eq!(chip.config_ref().table.domain_max, 10);
}
