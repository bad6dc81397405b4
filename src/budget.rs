use crate::dimension::{BudgetDimension, ContractCostType};
use crate::error::{
    access_conflict_error, bare, budget_exceeded_error, Error, HostError, ScErrorCode, ScErrorType,
};
use crate::model::{sat_add, sat_mul, CostModel, ScaledU64};
use vstd::prelude::*;

verus! {

/// The CPU instruction limit of a default budget.
pub const DEFAULT_CPU_INSN_LIMIT: u64 = 100_000_000;

/// The memory byte limit of a default budget.
pub const DEFAULT_MEM_BYTES_LIMIT: u64 = 41_943_040;

/// Saturating counters for resources that are not charged through a cost model.
#[derive(Clone, Copy, Debug, PartialEq, Eq, Structural)]
pub struct ResourceTracker {
    pub wasm_memory: u64,
}

impl ResourceTracker {
    pub fn new() -> (r: ResourceTracker)
        ensures
            r.wasm_memory == 0,
    {
        ResourceTracker { wasm_memory: 0 }
    }

    pub fn reset(&mut self)
        ensures
            final(self).wasm_memory == 0,
    {
        self.wasm_memory = 0;
    }
}

/// Weights of the interpreter's fuel categories.
#[derive(Clone, Copy, Debug, PartialEq, Eq, Structural)]
pub struct FuelConfig {
    pub base: u64,
    pub entity: u64,
    pub load: u64,
    pub store: u64,
    pub call: u64,
}

impl FuelConfig {
    /// Every weight is one, so that fuel counts instructions one for one.
    pub open spec fn is_unit(self) -> bool {
        &&& self.base == 1
        &&& self.entity == 1
        &&& self.load == 1
        &&& self.store == 1
        &&& self.call == 1
    }

    /// The production weights.
    pub open spec fn default_spec() -> FuelConfig {
        FuelConfig { base: 1, entity: 3, load: 2, store: 1, call: 67 }
    }

    pub fn new() -> (r: FuelConfig)
        ensures
            r == FuelConfig::default_spec(),
    {
        FuelConfig { base: 1, entity: 3, load: 2, store: 1, call: 67 }
    }

    /// Sets every weight to one, for calibration runs.
    pub fn reset(&mut self)
        ensures
            final(self).is_unit(),
    {
        self.base = 1;
        self.entity = 1;
        self.load = 1;
        self.store = 1;
        self.call = 1;
    }
}

/// The mutable state behind a budget handle.
#[derive(Clone, Copy)]
pub struct BudgetImpl {
    pub cpu_insns: BudgetDimension,
    pub mem_bytes: BudgetDimension,
    pub tracker: ResourceTracker,
    pub fuel_config: FuelConfig,
    pub is_in_shadow_mode: bool,
}

impl BudgetImpl {
    /// The state of a fresh default budget.
    pub open spec fn is_default(self) -> bool {
        &&& self.cpu_insns.is_fresh(DEFAULT_CPU_INSN_LIMIT)
        &&& self.cpu_insns.has_zero_models()
        &&& self.mem_bytes.is_fresh(DEFAULT_MEM_BYTES_LIMIT)
        &&& self.mem_bytes.has_zero_models()
        &&& self.tracker.wasm_memory == 0
        &&& self.fuel_config == FuelConfig::default_spec()
        &&& !self.is_in_shadow_mode
    }

    pub fn new() -> (r: BudgetImpl)
        ensures
            r.is_default(),
    {
        BudgetImpl {
            cpu_insns: BudgetDimension::with_limit(DEFAULT_CPU_INSN_LIMIT),
            mem_bytes: BudgetDimension::with_limit(DEFAULT_MEM_BYTES_LIMIT),
            tracker: ResourceTracker::new(),
            fuel_config: FuelConfig::new(),
            is_in_shadow_mode: false,
        }
    }

    /// The state after charging `input` under `ty` in the current mode: CPU
    /// first, and memory only when the CPU limit still holds.
    pub open spec fn charged(self, ty: ContractCostType, input: u64) -> (BudgetImpl, Result<(), Error>) {
        let sh = self.is_in_shadow_mode;
        let cpu = self.cpu_insns.charged(ty, input, sh);
        if cpu.exceeded(sh) {
            (BudgetImpl { cpu_insns: cpu, ..self }, Err(budget_exceeded_error()))
        } else {
            let mem = self.mem_bytes.charged(ty, input, sh);
            (BudgetImpl { cpu_insns: cpu, mem_bytes: mem, ..self }, mem.limit_outcome(sh))
        }
    }

    /// The state after charging `input` under `ty` with shadow mode on for
    /// the duration of the charge; nothing is charged when a shadow limit has
    /// already been passed.
    pub open spec fn shadow_charged(self, ty: ContractCostType, input: u64) -> (BudgetImpl, Result<(), Error>) {
        if self.shadow_exceeded() {
            (self, Err(budget_exceeded_error()))
        } else {
            let c = BudgetImpl { is_in_shadow_mode: true, ..self }.charged(ty, input);
            (BudgetImpl { is_in_shadow_mode: self.is_in_shadow_mode, ..c.0 }, c.1)
        }
    }

    /// Whether either dimension has passed its shadow limit.
    pub open spec fn shadow_exceeded(self) -> bool {
        self.cpu_insns.exceeded(true) || self.mem_bytes.exceeded(true)
    }
}

/// The accounting engine: the budget state behind a single exclusive-access
/// point. Holding the access token while asking for it again is a defect and
/// fails with a fatal internal fault, leaving the state as it was.
pub struct Budget {
    state: BudgetImpl,
    locked: bool,
}

impl Budget {
    /// The current budget state.
    pub closed spec fn inner(&self) -> BudgetImpl {
        self.state
    }

    /// Whether the exclusive-access token is out.
    pub closed spec fn is_locked(&self) -> bool {
        self.locked
    }

    /// The outcome of asking for exclusive access.
    pub open spec fn access_outcome(&self) -> Result<(), HostError> {
        if self.is_locked() {
            Err(bare(access_conflict_error()))
        } else {
            Ok(())
        }
    }

    pub fn new() -> (r: Budget)
        ensures
            r.inner().is_default(),
            !r.is_locked(),
    {
        Budget { state: BudgetImpl::new(), locked: false }
    }

    fn access(&self) -> (r: Result<(), HostError>)
        ensures
            r == self.access_outcome(),
    {
        if self.locked {
            Err(HostError::from(
                Error::from_type_and_code(ScErrorType::Context, ScErrorCode::InternalError),
            ))
        } else {
            Ok(())
        }
    }

    /// Takes the exclusive-access token.
    pub fn lock(&mut self) -> (r: Result<(), HostError>)
        ensures
            r == old(self).access_outcome(),
            final(self).inner() == old(self).inner(),
            final(self).is_locked(),
    {
        self.access()?;
        self.locked = true;
        Ok(())
    }

    /// Hands the exclusive-access token back.
    pub fn unlock(&mut self)
        ensures
            final(self).inner() == old(self).inner(),
            !final(self).is_locked(),
    {
        self.locked = false;
    }

    /// Puts back the uncalibrated cost models on both dimensions; counters
    /// and limits stay.
    pub fn reset_models(&mut self) -> (r: Result<(), HostError>)
        ensures
            r == old(self).access_outcome(),
            final(self).is_locked() == old(self).is_locked(),
            old(self).is_locked() ==> final(self).inner() == old(self).inner(),
            !old(self).is_locked() ==> {
                let (o, n) = (old(self).inner(), final(self).inner());
                &&& n.cpu_insns.has_zero_models()
                &&& n.mem_bytes.has_zero_models()
                &&& n.cpu_insns.limit == o.cpu_insns.limit
                &&& n.cpu_insns.total_count == o.cpu_insns.total_count
                &&& n.cpu_insns.shadow_limit == o.cpu_insns.shadow_limit
                &&& n.cpu_insns.shadow_total_count == o.cpu_insns.shadow_total_count
                &&& n.mem_bytes.limit == o.mem_bytes.limit
                &&& n.mem_bytes.total_count == o.mem_bytes.total_count
                &&& n.mem_bytes.shadow_limit == o.mem_bytes.shadow_limit
                &&& n.mem_bytes.shadow_total_count == o.mem_bytes.shadow_total_count
                &&& n.tracker == o.tracker
                &&& n.fuel_config == o.fuel_config
                &&& n.is_in_shadow_mode == o.is_in_shadow_mode
            },
    {
        self.access()?;
        self.state.cpu_insns.reset_models();
        self.state.mem_bytes.reset_models();
        Ok(())
    }

    /// Installs the given models for `ty`, the linear terms already scaled.
    pub fn override_model_with_scaled_params(
        &mut self,
        ty: ContractCostType,
        const_cpu: u64,
        lin_cpu: ScaledU64,
        const_mem: u64,
        lin_mem: ScaledU64,
    ) -> (r: Result<(), HostError>)
        ensures
            r == old(self).access_outcome(),
            final(self).is_locked() == old(self).is_locked(),
            old(self).is_locked() ==> final(self).inner() == old(self).inner(),
            !old(self).is_locked() ==> {
                let (o, n) = (old(self).inner(), final(self).inner());
                &&& n.cpu_insns.cost_models@ == o.cpu_insns.cost_models@.update(
                    ty.slot(),
                    CostModel { const_term: const_cpu, lin_term: lin_cpu },
                )
                &&& n.mem_bytes.cost_models@ == o.mem_bytes.cost_models@.update(
                    ty.slot(),
                    CostModel { const_term: const_mem, lin_term: lin_mem },
                )
                &&& n.cpu_insns.limit == o.cpu_insns.limit
                &&& n.cpu_insns.total_count == o.cpu_insns.total_count
                &&& n.cpu_insns.shadow_limit == o.cpu_insns.shadow_limit
                &&& n.cpu_insns.shadow_total_count == o.cpu_insns.shadow_total_count
                &&& n.mem_bytes.limit == o.mem_bytes.limit
                &&& n.mem_bytes.total_count == o.mem_bytes.total_count
                &&& n.mem_bytes.shadow_limit == o.mem_bytes.shadow_limit
                &&& n.mem_bytes.shadow_total_count == o.mem_bytes.shadow_total_count
                &&& n.tracker == o.tracker
                &&& n.fuel_config == o.fuel_config
                &&& n.is_in_shadow_mode == o.is_in_shadow_mode
            },
    {
        self.access()?;
        self.state.cpu_insns.set_cost_model(ty, CostModel { const_term: const_cpu, lin_term: lin_cpu });
        self.state.mem_bytes.set_cost_model(ty, CostModel { const_term: const_mem, lin_term: lin_mem });
        Ok(())
    }

    /// Installs the given models for `ty`, scaling the linear terms first.
    pub fn override_model_with_unscaled_params(
        &mut self,
        ty: ContractCostType,
        const_cpu: u64,
        lin_cpu: u64,
        const_mem: u64,
        lin_mem: u64,
    ) -> (r: Result<(), HostError>)
        ensures
            r == old(self).access_outcome(),
            final(self).is_locked() == old(self).is_locked(),
            old(self).is_locked() ==> final(self).inner() == old(self).inner(),
            !old(self).is_locked() ==> {
                let (o, n) = (old(self).inner(), final(self).inner());
                &&& n.cpu_insns.cost_models@ == o.cpu_insns.cost_models@.update(
                    ty.slot(),
                    CostModel { const_term: const_cpu, lin_term: ScaledU64(sat_mul(lin_cpu, 128)) },
                )
                &&& n.mem_bytes.cost_models@ == o.mem_bytes.cost_models@.update(
                    ty.slot(),
                    CostModel { const_term: const_mem, lin_term: ScaledU64(sat_mul(lin_mem, 128)) },
                )
                &&& n.cpu_insns.limit == o.cpu_insns.limit
                &&& n.cpu_insns.total_count == o.cpu_insns.total_count
                &&& n.cpu_insns.shadow_limit == o.cpu_insns.shadow_limit
                &&& n.cpu_insns.shadow_total_count == o.cpu_insns.shadow_total_count
                &&& n.mem_bytes.limit == o.mem_bytes.limit
                &&& n.mem_bytes.total_count == o.mem_bytes.total_count
                &&& n.mem_bytes.shadow_limit == o.mem_bytes.shadow_limit
                &&& n.mem_bytes.shadow_total_count == o.mem_bytes.shadow_total_count
                &&& n.tracker == o.tracker
                &&& n.fuel_config == o.fuel_config
                &&& n.is_in_shadow_mode == o.is_in_shadow_mode
            },
    {
        self.override_model_with_scaled_params(
            ty,
            const_cpu,
            ScaledU64::from_unscaled_u64(lin_cpu),
            const_mem,
            ScaledU64::from_unscaled_u64(lin_mem),
        )
    }

    /// Adds `delta` to the guest linear-memory counter, saturating.
    pub fn track_wasm_mem_alloc(&mut self, delta: u64) -> (r: Result<(), HostError>)
        ensures
            r == old(self).access_outcome(),
            final(self).is_locked() == old(self).is_locked(),
            old(self).is_locked() ==> final(self).inner() == old(self).inner(),
            !old(self).is_locked() ==> final(self).inner() == (BudgetImpl {
                tracker: ResourceTracker {
                    wasm_memory: sat_add(old(self).inner().tracker.wasm_memory, delta),
                },
                ..old(self).inner()
            }),
    {
        self.access()?;
        self.state.tracker.wasm_memory = self.state.tracker.wasm_memory.saturating_add(delta);
        Ok(())
    }

    pub fn get_wasm_mem_alloc(&self) -> (r: Result<u64, HostError>)
        ensures
            self.is_locked() ==> r == Err::<u64, HostError>(bare(access_conflict_error())),
            !self.is_locked() ==> r == Ok::<u64, HostError>(self.inner().tracker.wasm_memory),
    {
        self.access()?;
        Ok(self.state.tracker.wasm_memory)
    }

    /// Charges `input` under the model of `ty` to both dimensions, in shadow
    /// mode to the shadow counters. Fails with `(Budget, ExceededLimit)` as
    /// soon as a dimension's count of that mode passes its limit; the charge
    /// stays.
    pub fn charge(&mut self, ty: ContractCostType, input: u64) -> (r: Result<(), HostError>)
        ensures
            final(self).is_locked() == old(self).is_locked(),
            old(self).is_locked() ==> final(self).inner() == old(self).inner() && r == Err::<
                (),
                HostError,
            >(bare(access_conflict_error())),
            !old(self).is_locked() ==> final(self).inner() == old(self).inner().charged(ty, input).0,
            !old(self).is_locked() ==> r == match old(self).inner().charged(ty, input).1 {
                Ok(()) => Ok::<(), HostError>(()),
                Err(e) => Err(bare(e)),
            },
    {
        self.access()?;
        let sh = self.state.is_in_shadow_mode;
        match self.state.cpu_insns.charge(ty, input, sh) {
            Ok(()) => {},
            Err(e) => {
                return Err(HostError::from(e));
            },
        }
        match self.state.mem_bytes.charge(ty, input, sh) {
            Ok(()) => Ok(()),
            Err(e) => Err(HostError::from(e)),
        }
    }

    /// Runs `f` with charges routed to the shadow counters, then puts the
    /// shadow-mode flag back as it was. `f` is not run when either dimension
    /// has already passed its shadow limit.
    pub fn with_shadow_mode_fallible<T, F>(&mut self, f: F) -> (r: Result<T, HostError>) where
        F: FnOnce(&mut Budget) -> Result<T, HostError>,
        requires
            forall|b: &mut Budget| f.requires((b,)),
        ensures
            final(self).inner().is_in_shadow_mode == old(self).inner().is_in_shadow_mode,
            final(self).is_locked() ==> r == Err::<T, HostError>(bare(access_conflict_error())),
            old(self).is_locked() ==> final(self).inner() == old(self).inner()
                && final(self).is_locked()
                && r == Err::<T, HostError>(bare(access_conflict_error())),
            !old(self).is_locked() && old(self).inner().shadow_exceeded() ==> final(self).inner()
                == old(self).inner() && !final(self).is_locked() && r == Err::<T, HostError>(
                bare(budget_exceeded_error()),
            ),
            !old(self).is_locked() && !old(self).inner().shadow_exceeded() ==> exists|
                m: &mut Budget,
                rf: Result<T, HostError>,
            |
                #![trigger f.ensures((m,), rf)]
                m.inner() == (BudgetImpl { is_in_shadow_mode: true, ..old(self).inner() })
                    && !m.is_locked() && f.ensures((m,), rf) && final(self).inner() == (BudgetImpl {
                    is_in_shadow_mode: old(self).inner().is_in_shadow_mode,
                    ..final(m).inner()
                }) && final(self).is_locked() == final(m).is_locked() && (!final(m).is_locked()
                    ==> r == rf),
    {
        self.access()?;
        let prev = self.state.is_in_shadow_mode;
        self.state.is_in_shadow_mode = true;
        let should_execute = match self.state.cpu_insns.check_budget_limit(true) {
            Ok(()) => self.state.mem_bytes.check_budget_limit(true),
            Err(e) => Err(e),
        };
        let rt = match should_execute {
            Ok(()) => f(self),
            Err(e) => Err(HostError::from(e)),
        };
        self.state.is_in_shadow_mode = prev;
        self.access()?;
        rt
    }

    /// Runs `f` with charges routed to the shadow counters, ignoring its
    /// outcome, then puts the shadow-mode flag back as it was. `f` is not run
    /// when the access token is out or either dimension has already passed
    /// its shadow limit.
    pub fn with_shadow_mode<T, F>(&mut self, f: F) where
        F: FnOnce(&mut Budget) -> Result<T, HostError>,
        requires
            forall|b: &mut Budget| f.requires((b,)),
        ensures
            final(self).inner().is_in_shadow_mode == old(self).inner().is_in_shadow_mode,
            old(self).is_locked() || old(self).inner().shadow_exceeded() ==> final(self).inner()
                == old(self).inner() && final(self).is_locked() == old(self).is_locked(),
            !old(self).is_locked() && !old(self).inner().shadow_exceeded() ==> exists|
                m: &mut Budget,
                rf: Result<T, HostError>,
            |
                #![trigger f.ensures((m,), rf)]
                m.inner() == (BudgetImpl { is_in_shadow_mode: true, ..old(self).inner() })
                    && !m.is_locked() && f.ensures((m,), rf) && final(self).inner() == (BudgetImpl {
                    is_in_shadow_mode: old(self).inner().is_in_shadow_mode,
                    ..final(m).inner()
                }) && final(self).is_locked() == final(m).is_locked(),
    {
        let _ = self.with_shadow_mode_fallible(f);
    }

    /// Charges `input` under `ty` to the shadow counters, whatever the current
    /// mode, for work that must not count against the real budget.
    pub fn charge_shadow(&mut self, ty: ContractCostType, input: u64) -> (r: Result<(), HostError>)
        ensures
            final(self).is_locked() == old(self).is_locked(),
            old(self).is_locked() ==> final(self).inner() == old(self).inner() && r == Err::<
                (),
                HostError,
            >(bare(access_conflict_error())),
            !old(self).is_locked() ==> final(self).inner() == old(self).inner().shadow_charged(
                ty,
                input,
            ).0,
            !old(self).is_locked() ==> r == match old(self).inner().shadow_charged(ty, input).1 {
                Ok(()) => Ok::<(), HostError>(()),
                Err(e) => Err(bare(e)),
            },
    {
        self.access()?;
        let shadow_exceeded = self.state.cpu_insns.shadow_total_count
            > self.state.cpu_insns.shadow_limit || self.state.mem_bytes.shadow_total_count
            > self.state.mem_bytes.shadow_limit;
        if shadow_exceeded {
            return Err(HostError::from(
                Error::from_type_and_code(ScErrorType::Budget, ScErrorCode::ExceededLimit),
            ));
        }
        let prev = self.state.is_in_shadow_mode;
        self.state.is_in_shadow_mode = true;
        let r = self.charge(ty, input);
        self.state.is_in_shadow_mode = prev;
        r
    }

    /// Puts the whole state back to that of a fresh default budget.
    pub fn reset_default(&mut self) -> (r: Result<(), HostError>)
        ensures
            r == old(self).access_outcome(),
            final(self).is_locked() == old(self).is_locked(),
            old(self).is_locked() ==> final(self).inner() == old(self).inner(),
            !old(self).is_locked() ==> final(self).inner().is_default(),
    {
        self.access()?;
        self.state = BudgetImpl::new();
        Ok(())
    }

    /// Lifts both limits to the largest value and clears all counters.
    pub fn reset_unlimited(&mut self) -> (r: Result<(), HostError>)
        ensures
            r == old(self).access_outcome(),
            final(self).is_locked() == old(self).is_locked(),
            old(self).is_locked() ==> final(self).inner() == old(self).inner(),
            !old(self).is_locked() ==> final(self).inner() == (BudgetImpl {
                cpu_insns: old(self).inner().cpu_insns.reset_spec(u64::MAX),
                mem_bytes: old(self).inner().mem_bytes.reset_spec(u64::MAX),
                tracker: ResourceTracker { wasm_memory: 0 },
                ..old(self).inner()
            }),
    {
        self.reset_unlimited_cpu()?;
        self.reset_unlimited_mem()?;
        Ok(())
    }

    /// Lifts the CPU limit to the largest value, clearing its counters and the tracker.
    pub fn reset_unlimited_cpu(&mut self) -> (r: Result<(), HostError>)
        ensures
            r == old(self).access_outcome(),
            final(self).is_locked() == old(self).is_locked(),
            old(self).is_locked() ==> final(self).inner() == old(self).inner(),
            !old(self).is_locked() ==> final(self).inner() == (BudgetImpl {
                cpu_insns: old(self).inner().cpu_insns.reset_spec(u64::MAX),
                tracker: ResourceTracker { wasm_memory: 0 },
                ..old(self).inner()
            }),
    {
        self.access()?;
        self.state.cpu_insns.reset(u64::MAX);
        self.reset_tracker()
    }

    /// Lifts the memory limit to the largest value, clearing its counters and the tracker.
    pub fn reset_unlimited_mem(&mut self) -> (r: Result<(), HostError>)
        ensures
            r == old(self).access_outcome(),
            final(self).is_locked() == old(self).is_locked(),
            old(self).is_locked() ==> final(self).inner() == old(self).inner(),
            !old(self).is_locked() ==> final(self).inner() == (BudgetImpl {
                mem_bytes: old(self).inner().mem_bytes.reset_spec(u64::MAX),
                tracker: ResourceTracker { wasm_memory: 0 },
                ..old(self).inner()
            }),
    {
        self.access()?;
        self.state.mem_bytes.reset(u64::MAX);
        self.reset_tracker()
    }

    /// Clears the tracker alone.
    pub fn reset_tracker(&mut self) -> (r: Result<(), HostError>)
        ensures
            r == old(self).access_outcome(),
            final(self).is_locked() == old(self).is_locked(),
            old(self).is_locked() ==> final(self).inner() == old(self).inner(),
            !old(self).is_locked() ==> final(self).inner() == (BudgetImpl {
                tracker: ResourceTracker { wasm_memory: 0 },
                ..old(self).inner()
            }),
    {
        self.access()?;
        self.state.tracker.reset();
        Ok(())
    }

    /// Sets the real and shadow limits of each dimension and clears all counters.
    pub fn reset_limits(&mut self, cpu: u64, mem: u64) -> (r: Result<(), HostError>)
        ensures
            r == old(self).access_outcome(),
            final(self).is_locked() == old(self).is_locked(),
            old(self).is_locked() ==> final(self).inner() == old(self).inner(),
            !old(self).is_locked() ==> final(self).inner() == (BudgetImpl {
                cpu_insns: old(self).inner().cpu_insns.reset_spec(cpu),
                mem_bytes: old(self).inner().mem_bytes.reset_spec(mem),
                tracker: ResourceTracker { wasm_memory: 0 },
                ..old(self).inner()
            }),
    {
        self.access()?;
        self.state.cpu_insns.reset(cpu);
        self.state.mem_bytes.reset(mem);
        self.reset_tracker()
    }

    /// Sets every fuel weight to one, so that a calibration run can divide the
    /// measured consumption by the fuel count.
    pub fn reset_fuel_config(&mut self) -> (r: Result<(), HostError>)
        ensures
            r == old(self).access_outcome(),
            final(self).is_locked() == old(self).is_locked(),
            old(self).is_locked() ==> final(self).inner() == old(self).inner(),
            !old(self).is_locked() ==> final(self).inner() == (BudgetImpl {
                fuel_config: FuelConfig { base: 1, entity: 1, load: 1, store: 1, call: 1 },
                ..old(self).inner()
            }),
    {
        self.access()?;
        self.state.fuel_config.reset();
        Ok(())
    }

    /// CPU instructions consumed in shadow mode.
    pub fn get_shadow_cpu_insns_consumed(&self) -> (r: Result<u64, HostError>)
        ensures
            self.is_locked() ==> r == Err::<u64, HostError>(bare(access_conflict_error())),
            !self.is_locked() ==> r == Ok::<u64, HostError>(self.inner().cpu_insns.shadow_total_count),
    {
        self.access()?;
        Ok(self.state.cpu_insns.shadow_total_count)
    }

    /// Memory bytes consumed in shadow mode.
    pub fn get_shadow_mem_bytes_consumed(&self) -> (r: Result<u64, HostError>)
        ensures
            self.is_locked() ==> r == Err::<u64, HostError>(bare(access_conflict_error())),
            !self.is_locked() ==> r == Ok::<u64, HostError>(self.inner().mem_bytes.shadow_total_count),
    {
        self.access()?;
        Ok(self.state.mem_bytes.shadow_total_count)
    }

    /// Whether the shadow CPU count has passed the shadow CPU limit.
    pub fn shadow_cpu_limit_exceeded(&self) -> (r: Result<bool, HostError>)
        ensures
            self.is_locked() ==> r == Err::<bool, HostError>(bare(access_conflict_error())),
            !self.is_locked() ==> r == Ok::<bool, HostError>(self.inner().cpu_insns.shadow_total_count > self.inner().cpu_insns.shadow_limit),
    {
        self.access()?;
        Ok(self.state.cpu_insns.shadow_total_count > self.state.cpu_insns.shadow_limit)
    }

    /// Whether the shadow memory count has passed the shadow memory limit.
    pub fn shadow_mem_limit_exceeded(&self) -> (r: Result<bool, HostError>)
        ensures
            self.is_locked() ==> r == Err::<bool, HostError>(bare(access_conflict_error())),
            !self.is_locked() ==> r == Ok::<bool, HostError>(self.inner().mem_bytes.shadow_total_count > self.inner().mem_bytes.shadow_limit),
    {
        self.access()?;
        Ok(self.state.mem_bytes.shadow_total_count > self.state.mem_bytes.shadow_limit)
    }

    /// CPU instructions consumed in real mode.
    pub fn get_cpu_insns_consumed(&self) -> (r: Result<u64, HostError>)
        ensures
            self.is_locked() ==> r == Err::<u64, HostError>(bare(access_conflict_error())),
            !self.is_locked() ==> r == Ok::<u64, HostError>(self.inner().cpu_insns.total_count),
    {
        self.access()?;
        Ok(self.state.cpu_insns.total_count)
    }

    /// Memory bytes consumed in real mode.
    pub fn get_mem_bytes_consumed(&self) -> (r: Result<u64, HostError>)
        ensures
            self.is_locked() ==> r == Err::<u64, HostError>(bare(access_conflict_error())),
            !self.is_locked() ==> r == Ok::<u64, HostError>(self.inner().mem_bytes.total_count),
    {
        self.access()?;
        Ok(self.state.mem_bytes.total_count)
    }

    /// The real CPU limit.
    pub fn get_cpu_insns_limit(&self) -> (r: Result<u64, HostError>)
        ensures
            self.is_locked() ==> r == Err::<u64, HostError>(bare(access_conflict_error())),
            !self.is_locked() ==> r == Ok::<u64, HostError>(self.inner().cpu_insns.limit),
    {
        self.access()?;
        Ok(self.state.cpu_insns.limit)
    }

    /// The real memory limit.
    pub fn get_mem_bytes_limit(&self) -> (r: Result<u64, HostError>)
        ensures
            self.is_locked() ==> r == Err::<u64, HostError>(bare(access_conflict_error())),
            !self.is_locked() ==> r == Ok::<u64, HostError>(self.inner().mem_bytes.limit),
    {
        self.access()?;
        Ok(self.state.mem_bytes.limit)
    }

    /// The fuel weights.
    pub fn get_fuel_config(&self) -> (r: Result<FuelConfig, HostError>)
        ensures
            self.is_locked() ==> r == Err::<FuelConfig, HostError>(bare(access_conflict_error())),
            !self.is_locked() ==> r == Ok::<FuelConfig, HostError>(self.inner().fuel_config),
    {
        self.access()?;
        Ok(self.state.fuel_config)
    }

    /// Whether charges currently go to the shadow counters.
    pub fn is_in_shadow_mode(&self) -> (r: Result<bool, HostError>)
        ensures
            self.is_locked() ==> r == Err::<bool, HostError>(bare(access_conflict_error())),
            !self.is_locked() ==> r == Ok::<bool, HostError>(self.inner().is_in_shadow_mode),
    {
        self.access()?;
        Ok(self.state.is_in_shadow_mode)
    }
}

impl Default for Budget {
    fn default() -> (r: Budget)
        ensures
            r.inner().is_default(),
            !r.is_locked(),
    {
        Budget::new()
    }
}

/// A charge through the budget in shadow mode leaves every real count and
/// limit as it was; one in real mode leaves every shadow count and limit as
/// it was. Either way no count decreases and the mode flag stays.
pub proof fn lemma_budget_charge_isolation(s: BudgetImpl, ty: ContractCostType, input: u64)
    ensures
        s.charged(ty, input).0.is_in_shadow_mode == s.is_in_shadow_mode,
        s.charged(ty, input).0.cpu_insns.total_count >= s.cpu_insns.total_count,
        s.charged(ty, input).0.mem_bytes.total_count >= s.mem_bytes.total_count,
        s.charged(ty, input).0.cpu_insns.shadow_total_count >= s.cpu_insns.shadow_total_count,
        s.charged(ty, input).0.mem_bytes.shadow_total_count >= s.mem_bytes.shadow_total_count,
        s.is_in_shadow_mode ==> {
            &&& s.charged(ty, input).0.cpu_insns.total_count == s.cpu_insns.total_count
            &&& s.charged(ty, input).0.mem_bytes.total_count == s.mem_bytes.total_count
            &&& s.charged(ty, input).0.cpu_insns.limit == s.cpu_insns.limit
            &&& s.charged(ty, input).0.mem_bytes.limit == s.mem_bytes.limit
        },
        !s.is_in_shadow_mode ==> {
            &&& s.charged(ty, input).0.cpu_insns.shadow_total_count == s.cpu_insns.shadow_total_count
            &&& s.charged(ty, input).0.mem_bytes.shadow_total_count == s.mem_bytes.shadow_total_count
            &&& s.charged(ty, input).0.cpu_insns.shadow_limit == s.cpu_insns.shadow_limit
            &&& s.charged(ty, input).0.mem_bytes.shadow_limit == s.mem_bytes.shadow_limit
        },
{
}

/// The state after charging `charges` (a category and an input each) in
/// order through the budget.
pub open spec fn budget_charged_all(s: BudgetImpl, charges: Seq<(ContractCostType, u64)>) -> BudgetImpl
    decreases charges.len(),
{
    if charges.len() == 0 {
        s
    } else {
        let c = charges.last();
        budget_charged_all(s, charges.drop_last()).charged(c.0, c.1).0
    }
}

/// Over any sequence of charges through the budget, whatever their
/// magnitudes and whether they fail: no count decreases, no limit or mode
/// changes, in shadow mode the real counts stay, and in real mode the shadow
/// counts stay.
pub proof fn lemma_budget_charges_monotone(s: BudgetImpl, charges: Seq<(ContractCostType, u64)>)
    ensures
        ({
            let t = budget_charged_all(s, charges);
            &&& t.cpu_insns.total_count >= s.cpu_insns.total_count
            &&& t.mem_bytes.total_count >= s.mem_bytes.total_count
            &&& t.cpu_insns.shadow_total_count >= s.cpu_insns.shadow_total_count
            &&& t.mem_bytes.shadow_total_count >= s.mem_bytes.shadow_total_count
            &&& t.cpu_insns.limit == s.cpu_insns.limit
            &&& t.mem_bytes.limit == s.mem_bytes.limit
            &&& t.cpu_insns.shadow_limit == s.cpu_insns.shadow_limit
            &&& t.mem_bytes.shadow_limit == s.mem_bytes.shadow_limit
            &&& t.is_in_shadow_mode == s.is_in_shadow_mode
            &&& s.is_in_shadow_mode ==> t.cpu_insns.total_count == s.cpu_insns.total_count
                && t.mem_bytes.total_count == s.mem_bytes.total_count
            &&& !s.is_in_shadow_mode ==> t.cpu_insns.shadow_total_count
                == s.cpu_insns.shadow_total_count && t.mem_bytes.shadow_total_count
                == s.mem_bytes.shadow_total_count
        }),
    decreases charges.len(),
{
    if charges.len() > 0 {
        let c = charges.last();
        lemma_budget_charges_monotone(s, charges.drop_last());
        lemma_budget_charge_isolation(budget_charged_all(s, charges.drop_last()), c.0, c.1);
    }
}

/// A charge through the budget fails only with `(Budget, ExceededLimit)`.
pub proof fn budget_exceeded_error_is_only_charge_failure(
    s: BudgetImpl,
    ty: ContractCostType,
    input: u64,
)
    ensures
        s.charged(ty, input).1 is Err ==> s.charged(ty, input).1 == Err::<(), Error>(
            budget_exceeded_error(),
        ),
{
}

/// Whether a shadow charge of `n` under `ty` goes through, on a budget in
/// state `s` whose access token is out iff `locked`.
pub open spec fn admitted(locked: bool, s: BudgetImpl, ty: ContractCostType, n: int) -> bool {
    !locked && s.shadow_charged(ty, n as u64).1 is Ok
}

/// The state after a shadow charge of `n` under `ty` was asked for.
pub open spec fn stepped(locked: bool, s: BudgetImpl, ty: ContractCostType, n: int) -> BudgetImpl {
    if locked {
        s
    } else {
        s.shadow_charged(ty, n as u64).0
    }
}

/// `a` and `b` agree on everything but the shadow counters: real counts and
/// limits, tracker, fuel weights and the mode flag.
pub open spec fn same_real(a: BudgetImpl, b: BudgetImpl) -> bool {
    &&& a.cpu_insns.total_count == b.cpu_insns.total_count
    &&& a.cpu_insns.limit == b.cpu_insns.limit
    &&& a.mem_bytes.total_count == b.mem_bytes.total_count
    &&& a.mem_bytes.limit == b.mem_bytes.limit
    &&& a.tracker == b.tracker
    &&& a.fuel_config == b.fuel_config
    &&& a.is_in_shadow_mode == b.is_in_shadow_mode
}

/// Work metered on the shadow counters leaves the real budget as it was.
pub proof fn lemma_shadow_charge_keeps_real(s: BudgetImpl, ty: ContractCostType, input: u64)
    ensures
        same_real(s, s.shadow_charged(ty, input).0),
{
}

} // verus!
