use crate::error::{budget_exceeded_error, Error, ScErrorCode, ScErrorType};
use crate::model::{sat_add, CostModel};
use vstd::array::*;
use vstd::prelude::*;

verus! {

/// The number of operation categories that carry a cost model.
pub const NUM_COST_TYPES: usize = 23;

/// A category of metered host operation.
#[derive(Clone, Copy, Debug, PartialEq, Eq, Structural)]
pub enum ContractCostType {
    WasmInsnExec,
    MemAlloc,
    MemCpy,
    MemCmp,
    DispatchHostFunction,
    VisitObject,
    ValSer,
    ValDeser,
    ComputeSha256Hash,
    ComputeEd25519PubKey,
    VerifyEd25519Sig,
    VmInstantiation,
    VmCachedInstantiation,
    InvokeVmFunction,
    ComputeKeccak256Hash,
    DecodeEcdsaCurve256Sig,
    RecoverEcdsaSecp256k1Key,
    Int256AddSub,
    Int256Mul,
    Int256Div,
    Int256Pow,
    Int256Shift,
    ChaCha20DrawBytes,
}

impl ContractCostType {
    /// The slot of this category in a cost-model table.
    pub open spec fn slot(self) -> int {
        match self {
            ContractCostType::WasmInsnExec => 0,
            ContractCostType::MemAlloc => 1,
            ContractCostType::MemCpy => 2,
            ContractCostType::MemCmp => 3,
            ContractCostType::DispatchHostFunction => 4,
            ContractCostType::VisitObject => 5,
            ContractCostType::ValSer => 6,
            ContractCostType::ValDeser => 7,
            ContractCostType::ComputeSha256Hash => 8,
            ContractCostType::ComputeEd25519PubKey => 9,
            ContractCostType::VerifyEd25519Sig => 10,
            ContractCostType::VmInstantiation => 11,
            ContractCostType::VmCachedInstantiation => 12,
            ContractCostType::InvokeVmFunction => 13,
            ContractCostType::ComputeKeccak256Hash => 14,
            ContractCostType::DecodeEcdsaCurve256Sig => 15,
            ContractCostType::RecoverEcdsaSecp256k1Key => 16,
            ContractCostType::Int256AddSub => 17,
            ContractCostType::Int256Mul => 18,
            ContractCostType::Int256Div => 19,
            ContractCostType::Int256Pow => 20,
            ContractCostType::Int256Shift => 21,
            ContractCostType::ChaCha20DrawBytes => 22,
        }
    }

    pub fn index(self) -> (r: usize)
        ensures
            r == self.slot(),
            r < NUM_COST_TYPES,
    {
        match self {
            ContractCostType::WasmInsnExec => 0,
            ContractCostType::MemAlloc => 1,
            ContractCostType::MemCpy => 2,
            ContractCostType::MemCmp => 3,
            ContractCostType::DispatchHostFunction => 4,
            ContractCostType::VisitObject => 5,
            ContractCostType::ValSer => 6,
            ContractCostType::ValDeser => 7,
            ContractCostType::ComputeSha256Hash => 8,
            ContractCostType::ComputeEd25519PubKey => 9,
            ContractCostType::VerifyEd25519Sig => 10,
            ContractCostType::VmInstantiation => 11,
            ContractCostType::VmCachedInstantiation => 12,
            ContractCostType::InvokeVmFunction => 13,
            ContractCostType::ComputeKeccak256Hash => 14,
            ContractCostType::DecodeEcdsaCurve256Sig => 15,
            ContractCostType::RecoverEcdsaSecp256k1Key => 16,
            ContractCostType::Int256AddSub => 17,
            ContractCostType::Int256Mul => 18,
            ContractCostType::Int256Div => 19,
            ContractCostType::Int256Pow => 20,
            ContractCostType::Int256Shift => 21,
            ContractCostType::ChaCha20DrawBytes => 22,
        }
    }
}

/// One resource axis (CPU instructions or memory bytes): a cost model per
/// category, real and shadow consumption counters and their limits.
#[derive(Clone, Copy)]
pub struct BudgetDimension {
    pub cost_models: [CostModel; 23],
    pub limit: u64,
    pub total_count: u64,
    pub shadow_limit: u64,
    pub shadow_total_count: u64,
}

impl BudgetDimension {
    /// The cost model installed for `ty`.
    pub open spec fn model(self, ty: ContractCostType) -> CostModel {
        self.cost_models@[ty.slot()]
    }

    /// Whether the count of the given mode strictly exceeds its limit.
    pub open spec fn exceeded(self, is_shadow: bool) -> bool {
        if is_shadow {
            self.shadow_total_count > self.shadow_limit
        } else {
            self.total_count > self.limit
        }
    }

    /// The outcome of a limit check in the given mode.
    pub open spec fn limit_outcome(self, is_shadow: bool) -> Result<(), Error> {
        if self.exceeded(is_shadow) {
            Err(budget_exceeded_error())
        } else {
            Ok(())
        }
    }

    /// Every category charges nothing.
    pub open spec fn has_zero_models(self) -> bool {
        forall|i: int| 0 <= i < NUM_COST_TYPES ==> self.cost_models@[i] == CostModel::zero_spec()
    }

    /// Both counters are zero and both limits are `limit`.
    pub open spec fn is_fresh(self, limit: u64) -> bool {
        &&& self.total_count == 0
        &&& self.shadow_total_count == 0
        &&& self.limit == limit
        &&& self.shadow_limit == limit
    }

    /// This dimension after `reset(limit)`.
    pub open spec fn reset_spec(self, limit: u64) -> BudgetDimension {
        BudgetDimension {
            limit,
            total_count: 0,
            shadow_limit: limit,
            shadow_total_count: 0,
            ..self
        }
    }

    /// This dimension after charging `input` under the model of `ty`.
    pub open spec fn charged(self, ty: ContractCostType, input: u64, is_shadow: bool) -> BudgetDimension {
        if is_shadow {
            BudgetDimension {
                shadow_total_count: sat_add(self.shadow_total_count, self.model(ty).cost(input)),
                ..self
            }
        } else {
            BudgetDimension {
                total_count: sat_add(self.total_count, self.model(ty).cost(input)),
                ..self
            }
        }
    }

    /// A dimension with the given limit, no consumption, and models that
    /// charge nothing until calibrated ones are installed.
    pub fn with_limit(limit: u64) -> (r: BudgetDimension)
        ensures
            r.is_fresh(limit),
            r.has_zero_models(),
    {
        let cost_models = array_fill_for_copy_types::<CostModel, 23>(CostModel::zero());
        BudgetDimension {
            cost_models,
            limit,
            total_count: 0,
            shadow_limit: limit,
            shadow_total_count: 0,
        }
    }

    pub fn reset_models(&mut self)
        ensures
            final(self).has_zero_models(),
            final(self).limit == old(self).limit,
            final(self).total_count == old(self).total_count,
            final(self).shadow_limit == old(self).shadow_limit,
            final(self).shadow_total_count == old(self).shadow_total_count,
    {
        self.cost_models = array_fill_for_copy_types::<CostModel, 23>(CostModel::zero());
    }

    pub fn get_cost_model(&self, ty: ContractCostType) -> (r: CostModel)
        ensures
            r == self.model(ty),
    {
        self.cost_models[ty.index()]
    }

    /// Installs `m` as the model of `ty`, leaving every other category as it was.
    pub fn set_cost_model(&mut self, ty: ContractCostType, m: CostModel)
        ensures
            final(self).cost_models@ == old(self).cost_models@.update(ty.slot(), m),
            final(self).limit == old(self).limit,
            final(self).total_count == old(self).total_count,
            final(self).shadow_limit == old(self).shadow_limit,
            final(self).shadow_total_count == old(self).shadow_total_count,
    {
        let i = ty.index();
        self.cost_models[i] = m;
    }

    /// Exceeded iff the relevant count is strictly greater than the relevant limit.
    pub fn check_budget_limit(&self, is_shadow: bool) -> (r: Result<(), Error>)
        ensures
            r == self.limit_outcome(is_shadow),
    {
        let exceeded = if is_shadow {
            self.shadow_total_count > self.shadow_limit
        } else {
            self.total_count > self.limit
        };
        if exceeded {
            Err(Error::from_type_and_code(ScErrorType::Budget, ScErrorCode::ExceededLimit))
        } else {
            Ok(())
        }
    }

    /// Adds the cost of `input` under the model of `ty` to the counter of the
    /// given mode, then checks that mode's limit. A charge is never refunded.
    pub fn charge(&mut self, ty: ContractCostType, input: u64, is_shadow: bool) -> (r: Result<
        (),
        Error,
    >)
        ensures
            final(self).cost_models == old(self).cost_models,
            final(self).limit == old(self).limit,
            final(self).shadow_limit == old(self).shadow_limit,
            is_shadow ==> final(self).shadow_total_count == sat_add(
                old(self).shadow_total_count,
                old(self).model(ty).cost(input),
            ) && final(self).total_count == old(self).total_count,
            !is_shadow ==> final(self).total_count == sat_add(
                old(self).total_count,
                old(self).model(ty).cost(input),
            ) && final(self).shadow_total_count == old(self).shadow_total_count,
            r == final(self).limit_outcome(is_shadow),
            *final(self) == old(self).charged(ty, input, is_shadow),
    {
        let cost = self.get_cost_model(ty).evaluate(input);
        if is_shadow {
            self.shadow_total_count = self.shadow_total_count.saturating_add(cost);
        } else {
            self.total_count = self.total_count.saturating_add(cost);
        }
        self.check_budget_limit(is_shadow)
    }

    /// Zeroes both counters and sets both limits to `limit`.
    pub fn reset(&mut self, limit: u64)
        ensures
            final(self).is_fresh(limit),
            final(self).cost_models == old(self).cost_models,
            *final(self) == old(self).reset_spec(limit),
    {
        self.limit = limit;
        self.total_count = 0;
        self.shadow_limit = limit;
        self.shadow_total_count = 0;
    }
}

/// A charge: a category, an input size, and whether it goes to the shadow counter.
pub type Charge = (ContractCostType, u64, bool);

/// The dimension after applying `charges` in order.
pub open spec fn charged_all(d: BudgetDimension, charges: Seq<Charge>) -> BudgetDimension
    decreases charges.len(),
{
    if charges.len() == 0 {
        d
    } else {
        let c = charges.last();
        charged_all(d, charges.drop_last()).charged(c.0, c.1, c.2)
    }
}

/// Over any sequence of charges, whatever their magnitudes, neither the real
/// nor the shadow count ever decreases, and the limits and models stay.
pub proof fn lemma_charges_monotone(d: BudgetDimension, charges: Seq<Charge>)
    ensures
        charged_all(d, charges).total_count >= d.total_count,
        charged_all(d, charges).shadow_total_count >= d.shadow_total_count,
        charged_all(d, charges).limit == d.limit,
        charged_all(d, charges).shadow_limit == d.shadow_limit,
        charged_all(d, charges).cost_models == d.cost_models,
    decreases charges.len(),
{
    if charges.len() > 0 {
        lemma_charges_monotone(d, charges.drop_last());
    }
}

/// A limit check fails exactly when the count of its mode is strictly above
/// the limit of that mode; a count equal to the limit passes.
pub proof fn lemma_limit_equivalence(d: BudgetDimension, is_shadow: bool)
    ensures
        d.limit_outcome(is_shadow) is Err <==> (if is_shadow {
            d.shadow_total_count > d.shadow_limit
        } else {
            d.total_count > d.limit
        }),
        d.limit_outcome(is_shadow) is Err ==> d.limit_outcome(is_shadow) == Err::<(), Error>(
            budget_exceeded_error(),
        ),
        !is_shadow && d.total_count == d.limit ==> d.limit_outcome(is_shadow) is Ok,
        is_shadow && d.shadow_total_count == d.shadow_limit ==> d.limit_outcome(is_shadow) is Ok,
{
}

/// A shadow charge leaves the real count and limit as they were, and a real
/// charge leaves the shadow count and limit as they were.
pub proof fn lemma_shadow_isolation(d: BudgetDimension, ty: ContractCostType, input: u64)
    ensures
        d.charged(ty, input, true).total_count == d.total_count,
        d.charged(ty, input, true).limit == d.limit,
        d.charged(ty, input, false).shadow_total_count == d.shadow_total_count,
        d.charged(ty, input, false).shadow_limit == d.shadow_limit,
{
}

/// Whatever the prior state, a reset leaves both counts at zero and both
/// limits at the given value, and a second reset changes nothing.
pub proof fn lemma_reset_fresh(d: BudgetDimension, limit: u64)
    ensures
        d.reset_spec(limit).is_fresh(limit),
        d.reset_spec(limit).reset_spec(limit) == d.reset_spec(limit),
{
}

} // verus!
