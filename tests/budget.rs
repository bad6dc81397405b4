use soroban_env_host::budget::{Budget, FuelConfig, DEFAULT_CPU_INSN_LIMIT, DEFAULT_MEM_BYTES_LIMIT};
use soroban_env_host::dimension::{BudgetDimension, ContractCostType};
use soroban_env_host::error::{Error, HostError, ScErrorCode, ScErrorType};
use soroban_env_host::model::{CostModel, ScaledU64};

fn exceeded() -> Error {
    Error::from_type_and_code(ScErrorType::Budget, ScErrorCode::ExceededLimit)
}

fn conflict() -> Error {
    Error::from_type_and_code(ScErrorType::Context, ScErrorCode::InternalError)
}

fn budget_with_cpu_model(limit: u64, const_cpu: u64) -> Budget {
    let mut b = Budget::new();
    b.reset_limits(limit, u64::MAX).unwrap();
    b.override_model_with_unscaled_params(ContractCostType::VisitObject, const_cpu, 0, 0, 0)
        .unwrap();
    b
}

#[test]
fn eleven_real_charges_pass_the_limit_on_the_last() {
    let mut b = budget_with_cpu_model(100, 10);
    for i in 0..10 {
        assert!(b.charge(ContractCostType::VisitObject, 0).is_ok(), "charge {}", i);
    }
    let r = b.charge(ContractCostType::VisitObject, 0);
    assert!(HostError::result_matches_err(r, exceeded()));
    assert_eq!(b.get_cpu_insns_consumed().unwrap(), 110);
    assert_eq!(b.get_shadow_cpu_insns_consumed().unwrap(), 0);
}

#[test]
fn eleven_shadow_charges_leave_the_real_count_alone() {
    let mut b = budget_with_cpu_model(100, 10);
    for _ in 0..10 {
        let r = b.with_shadow_mode_fallible(|b: &mut Budget| b.charge(ContractCostType::VisitObject, 0));
        assert!(r.is_ok());
    }
    let r = b.with_shadow_mode_fallible(|b: &mut Budget| b.charge(ContractCostType::VisitObject, 0));
    assert!(HostError::result_matches_err(r, exceeded()));
    assert_eq!(b.get_cpu_insns_consumed().unwrap(), 0);
    assert_eq!(b.get_shadow_cpu_insns_consumed().unwrap(), 110);
    assert_eq!(b.shadow_cpu_limit_exceeded().unwrap(), true);
    // Once over the shadow limit, the closure is not run at all.
    let mut ran = false;
    let r = b.with_shadow_mode_fallible(|_b: &mut Budget| {
        ran = true;
        Ok(())
    });
    assert!(HostError::result_matches_err(r, exceeded()));
    assert!(!ran);
    assert_eq!(b.get_shadow_cpu_insns_consumed().unwrap(), 110);
    assert_eq!(b.is_in_shadow_mode().unwrap(), false);
}

#[test]
fn equal_to_limit_is_not_exceeded() {
    let mut d = BudgetDimension::with_limit(20);
    d.set_cost_model(ContractCostType::MemCpy, CostModel { const_term: 20, lin_term: ScaledU64(0) });
    assert!(d.charge(ContractCostType::MemCpy, 0, false).is_ok());
    assert_eq!(d.total_count, 20);
    assert_eq!(d.charge(ContractCostType::MemCpy, 0, false), Err(exceeded()));
    assert_eq!(d.check_budget_limit(false), Err(exceeded()));
    assert_eq!(d.check_budget_limit(true), Ok(()));
}

#[test]
fn counts_saturate_instead_of_wrapping() {
    let mut d = BudgetDimension::with_limit(u64::MAX);
    d.set_cost_model(
        ContractCostType::MemAlloc,
        CostModel { const_term: u64::MAX - 1, lin_term: ScaledU64(0) },
    );
    assert!(d.charge(ContractCostType::MemAlloc, 0, false).is_ok());
    assert!(d.charge(ContractCostType::MemAlloc, 0, false).is_ok());
    assert_eq!(d.total_count, u64::MAX);
    assert!(d.charge(ContractCostType::MemAlloc, 0, true).is_ok());
    assert!(d.charge(ContractCostType::MemAlloc, 0, true).is_ok());
    assert_eq!(d.shadow_total_count, u64::MAX);
}

#[test]
fn shadow_and_real_counters_are_isolated() {
    let mut d = BudgetDimension::with_limit(1000);
    d.set_cost_model(ContractCostType::ValSer, CostModel { const_term: 7, lin_term: ScaledU64(0) });
    d.charge(ContractCostType::ValSer, 0, true).unwrap();
    assert_eq!(d.total_count, 0);
    assert_eq!(d.shadow_total_count, 7);
    d.charge(ContractCostType::ValSer, 0, false).unwrap();
    assert_eq!(d.total_count, 7);
    assert_eq!(d.shadow_total_count, 7);
    assert_eq!(d.limit, 1000);
}

#[test]
fn reset_clears_counts_and_sets_both_limits() {
    let mut b = budget_with_cpu_model(100, 10);
    b.charge(ContractCostType::VisitObject, 0).unwrap();
    b.with_shadow_mode_fallible(|b: &mut Budget| b.charge(ContractCostType::VisitObject, 0)).unwrap();
    b.track_wasm_mem_alloc(64).unwrap();
    b.reset_limits(5, 7).unwrap();
    assert_eq!(b.get_cpu_insns_consumed().unwrap(), 0);
    assert_eq!(b.get_shadow_cpu_insns_consumed().unwrap(), 0);
    assert_eq!(b.get_mem_bytes_consumed().unwrap(), 0);
    assert_eq!(b.get_cpu_insns_limit().unwrap(), 5);
    assert_eq!(b.get_mem_bytes_limit().unwrap(), 7);
    assert_eq!(b.get_wasm_mem_alloc().unwrap(), 0);
    let mut d = BudgetDimension::with_limit(3);
    d.shadow_total_count = 9;
    d.total_count = 4;
    d.reset(11);
    assert_eq!((d.total_count, d.shadow_total_count, d.limit, d.shadow_limit), (0, 0, 11, 11));
}

#[test]
fn shadow_flag_is_restored_after_nested_and_failing_runs() {
    let mut b = budget_with_cpu_model(100, 10);
    let r: Result<(), HostError> = b.with_shadow_mode_fallible(|b: &mut Budget| {
        assert_eq!(b.is_in_shadow_mode().unwrap(), true);
        let inner: Result<(), HostError> = b.with_shadow_mode_fallible(|b: &mut Budget| {
            assert_eq!(b.is_in_shadow_mode().unwrap(), true);
            Err(HostError::from(Error::from_type_and_code(ScErrorType::Value, ScErrorCode::InvalidInput)))
        });
        assert!(inner.is_err());
        assert_eq!(b.is_in_shadow_mode().unwrap(), true);
        Ok(())
    });
    assert!(r.is_ok());
    assert_eq!(b.is_in_shadow_mode().unwrap(), false);
}

#[test]
fn access_while_locked_is_a_fatal_internal_fault() {
    let mut b = budget_with_cpu_model(100, 10);
    b.lock().unwrap();
    assert!(HostError::result_matches_err(b.lock(), conflict()));
    assert!(HostError::result_matches_err(b.reset_limits(1, 1), conflict()));
    assert!(HostError::result_matches_err(b.charge(ContractCostType::VisitObject, 0), conflict()));
    assert!(HostError::result_matches_err(b.get_shadow_mem_bytes_consumed(), conflict()));
    let r = b.with_shadow_mode_fallible(|_b: &mut Budget| Ok(()));
    assert!(HostError::result_matches_err(r, conflict()));
    let e = b.reset_tracker().unwrap_err();
    assert!(!e.is_recoverable());
    b.unlock();
    assert_eq!(b.get_cpu_insns_limit().unwrap(), 100);
    assert_eq!(b.get_cpu_insns_consumed().unwrap(), 0);
}

#[test]
fn cost_model_evaluation_values() {
    let m = CostModel { const_term: 10, lin_term: ScaledU64::from_unscaled_u64(3) };
    assert_eq!(m.evaluate(5), 25);
    let half = CostModel { const_term: 0, lin_term: ScaledU64(64) };
    assert_eq!(half.evaluate(3), 1);
    assert_eq!(half.evaluate(4), 2);
    let big = CostModel { const_term: 1, lin_term: ScaledU64(u64::MAX) };
    assert_eq!(big.evaluate(2), 1 + (u64::MAX >> 7));
    assert_eq!(ScaledU64::from_unscaled_u64(u64::MAX).0, u64::MAX);
    assert_eq!(ScaledU64::from_unscaled_u64(2).0, 256);
    assert_eq!(ScaledU64(300).unscale(), 2);
}

#[test]
fn override_with_scaled_params_changes_one_category() {
    let mut b = Budget::new();
    b.reset_limits(1000, 1000).unwrap();
    b.override_model_with_scaled_params(ContractCostType::MemCmp, 3, ScaledU64(256), 1, ScaledU64(128))
        .unwrap();
    b.charge(ContractCostType::MemCmp, 4).unwrap();
    assert_eq!(b.get_cpu_insns_consumed().unwrap(), 11);
    assert_eq!(b.get_mem_bytes_consumed().unwrap(), 5);
    b.charge(ContractCostType::MemCpy, 4).unwrap();
    assert_eq!(b.get_cpu_insns_consumed().unwrap(), 11);
    b.reset_models().unwrap();
    b.charge(ContractCostType::MemCmp, 4).unwrap();
    assert_eq!(b.get_cpu_insns_consumed().unwrap(), 11);
}

#[test]
fn memory_limit_fails_after_cpu_passes() {
    let mut b = Budget::new();
    b.reset_limits(1000, 2).unwrap();
    b.override_model_with_unscaled_params(ContractCostType::MemAlloc, 1, 0, 3, 0).unwrap();
    let r = b.charge(ContractCostType::MemAlloc, 0);
    assert!(HostError::result_matches_err(r, exceeded()));
    assert_eq!(b.get_cpu_insns_consumed().unwrap(), 1);
    assert_eq!(b.get_mem_bytes_consumed().unwrap(), 3);
    assert_eq!(b.shadow_mem_limit_exceeded().unwrap(), false);
}

#[test]
fn shadow_memory_limit_is_reported() {
    let mut b = Budget::new();
    b.reset_limits(1000, 2).unwrap();
    b.override_model_with_unscaled_params(ContractCostType::MemAlloc, 0, 0, 3, 0).unwrap();
    let r = b.charge_shadow(ContractCostType::MemAlloc, 0);
    assert!(HostError::result_matches_err(r, exceeded()));
    assert_eq!(b.shadow_mem_limit_exceeded().unwrap(), true);
    assert_eq!(b.get_shadow_mem_bytes_consumed().unwrap(), 3);
    assert_eq!(b.get_mem_bytes_consumed().unwrap(), 0);
    assert_eq!(b.is_in_shadow_mode().unwrap(), false);
}

#[test]
fn tracker_saturates_and_resets() {
    let mut b = Budget::new();
    b.track_wasm_mem_alloc(u64::MAX - 3).unwrap();
    b.track_wasm_mem_alloc(10).unwrap();
    assert_eq!(b.get_wasm_mem_alloc().unwrap(), u64::MAX);
    b.reset_tracker().unwrap();
    assert_eq!(b.get_wasm_mem_alloc().unwrap(), 0);
}

#[test]
fn fuel_config_resets_to_unit_weights() {
    let mut b = Budget::new();
    assert_eq!(
        b.get_fuel_config().unwrap(),
        FuelConfig { base: 1, entity: 3, load: 2, store: 1, call: 67 }
    );
    b.reset_fuel_config().unwrap();
    assert_eq!(
        b.get_fuel_config().unwrap(),
        FuelConfig { base: 1, entity: 1, load: 1, store: 1, call: 1 }
    );
}

#[test]
fn unlimited_and_default_resets() {
    let mut b = budget_with_cpu_model(100, 10);
    b.charge(ContractCostType::VisitObject, 0).unwrap();
    b.reset_unlimited_cpu().unwrap();
    assert_eq!(b.get_cpu_insns_limit().unwrap(), u64::MAX);
    assert_eq!(b.get_cpu_insns_consumed().unwrap(), 0);
    b.reset_limits(3, 4).unwrap();
    b.reset_unlimited_mem().unwrap();
    assert_eq!(b.get_cpu_insns_limit().unwrap(), 3);
    assert_eq!(b.get_mem_bytes_limit().unwrap(), u64::MAX);
    b.reset_limits(3, 4).unwrap();
    b.reset_unlimited().unwrap();
    assert_eq!(b.get_cpu_insns_limit().unwrap(), u64::MAX);
    assert_eq!(b.get_mem_bytes_limit().unwrap(), u64::MAX);
    b.reset_default().unwrap();
    assert_eq!(b.get_cpu_insns_limit().unwrap(), DEFAULT_CPU_INSN_LIMIT);
    assert_eq!(b.get_mem_bytes_limit().unwrap(), DEFAULT_MEM_BYTES_LIMIT);
    b.charge(ContractCostType::VisitObject, 0).unwrap();
    assert_eq!(b.get_cpu_insns_consumed().unwrap(), 0);
}

#[test]
fn shadow_flag_is_restored_when_the_closure_keeps_the_token() {
    let mut b = budget_with_cpu_model(100, 10);
    let r: Result<(), HostError> = b.with_shadow_mode_fallible(|b: &mut Budget| b.lock());
    assert!(HostError::result_matches_err(r, conflict()));
    b.unlock();
    assert_eq!(b.is_in_shadow_mode().unwrap(), false);
}

#[test]
fn non_fallible_shadow_mode_ignores_the_outcome() {
    let mut b = budget_with_cpu_model(100, 10);
    b.with_shadow_mode(|b: &mut Budget| {
        b.charge(ContractCostType::VisitObject, 0)?;
        Err::<(), HostError>(HostError::from(conflict()))
    });
    assert_eq!(b.get_shadow_cpu_insns_consumed().unwrap(), 10);
    assert_eq!(b.get_cpu_insns_consumed().unwrap(), 0);
    assert_eq!(b.is_in_shadow_mode().unwrap(), false);
    let d = Budget::default();
    assert_eq!(d.get_cpu_insns_limit().unwrap(), DEFAULT_CPU_INSN_LIMIT);
}

#[test]
fn closure_runs_when_shadow_count_equals_limit() {
    let mut b = budget_with_cpu_model(100, 10);
    for _ in 0..10 {
        b.charge_shadow(ContractCostType::VisitObject, 0).unwrap();
    }
    assert_eq!(b.get_shadow_cpu_insns_consumed().unwrap(), 100);
    assert_eq!(b.shadow_cpu_limit_exceeded().unwrap(), false);
    let r = b.with_shadow_mode_fallible(|b: &mut Budget| Ok(b.is_in_shadow_mode().unwrap()));
    assert_eq!(r.ok(), Some(true));
}

#[test]
fn two_saturating_shadow_charges() {
    let mut b = Budget::new();
    b.reset_unlimited().unwrap();
    b.override_model_with_unscaled_params(ContractCostType::Int256Pow, u64::MAX, 0, 0, 0).unwrap();
    let r = b.with_shadow_mode_fallible(|b: &mut Budget| {
        b.charge(ContractCostType::Int256Pow, 1)?;
        b.charge(ContractCostType::Int256Pow, 1)
    });
    assert!(r.is_ok());
    assert_eq!(b.get_shadow_cpu_insns_consumed().unwrap(), u64::MAX);
    assert_eq!(b.get_cpu_insns_consumed().unwrap(), 0);
}
