use crate::budget::{
    admitted, budget_exceeded_error_is_only_charge_failure, lemma_shadow_charge_keeps_real, same_real,
    stepped, Budget, BudgetImpl,
};
use crate::callstack::{capture_backtrace, is_trimmed, trim_backtrace};
use crate::dimension::ContractCostType;
use crate::error::{
    access_conflict_error, bare, budget_exceeded_error, error_text, DebugInfo, Error, HostError,
    ScErrorCode, ScErrorType,
};
use crate::events::{
    copy_events, copy_vals, same_events, same_vals, DiagnosticEvent, Hash32, LedgerKey, ScAddress, Val,
};
use vstd::prelude::*;
use vstd::string::*;

verus! {

/// An access outside the declared storage footprint.
pub open spec fn is_footprint_violation(e: Error) -> bool {
    e == (Error { type_: ScErrorType::Storage, code: ScErrorCode::ExceededLimit })
}

/// What building the fault for `error` leaves behind, from a host whose
/// budget token is out iff `lk`, with budget state `s0`, debug flag `debug`,
/// event lease `elocked` and events `ev0`. With diagnostics on, an event
/// carrying `error`, `msg` and `args` is appended when the shadow budget
/// admits it, then a snapshot of the whole event log is attached when the
/// shadow budget admits that too. The real budget never changes.
pub open spec fn error_outcome(
    lk: bool,
    s0: BudgetImpl,
    debug: bool,
    elocked: bool,
    ev0: Seq<DiagnosticEvent>,
    new: Host,
    error: Error,
    msg: Seq<char>,
    args: Seq<Val>,
    r: HostError,
) -> bool {
    &&& r.error == error
    &&& new.debug == debug
    &&& new.events_locked == elocked
    &&& new.budget.is_locked() == lk
    &&& same_real(s0, new.budget.inner())
    &&& if !debug || elocked {
        r.info is None && new.events@ == ev0 && new.budget.inner() == s0
    } else {
        let rec = admitted(lk, s0, ContractCostType::MemAlloc, args.len() as int);
        let s1 = stepped(lk, s0, ContractCostType::MemAlloc, args.len() as int);
        let n0 = ev0.len() as int;
        let n1 = if rec {
            n0 + 1
        } else {
            n0
        };
        &&& new.budget.inner() == stepped(lk, s1, ContractCostType::MemCpy, n1)
        &&& (r.info is Some <==> admitted(lk, s1, ContractCostType::MemCpy, n1))
        &&& new.events@.len() == n1
        &&& new.events@.subrange(0, n0) == ev0
        &&& rec ==> new.events@.last().error == error && new.events@.last().msg@ == msg
            && same_vals(args, new.events@.last().args@)
        &&& r.info is Some ==> same_events(new.events@, r.info->0.events@)
    }
}

/// `error_outcome` from the host `old` to the host `new`.
pub open spec fn error_post(
    old: Host,
    new: Host,
    error: Error,
    msg: Seq<char>,
    args: Seq<Val>,
    r: HostError,
) -> bool {
    error_outcome(
        old.budget.is_locked(),
        old.budget.inner(),
        old.debug,
        old.events_locked,
        old.events@,
        new,
        error,
        msg,
        args,
        r,
    )
}

/// The bytes of a hash, in order.
pub fn hash_bytes(h: &Hash32) -> (r: Vec<u8>)
    ensures
        r@ == h.0@,
{
    let mut r: Vec<u8> = Vec::new();
    let mut i: usize = 0;
    while i < 32
        invariant
            i <= 32,
            r@ == h.0@.subrange(0, i as int),
        decreases 32 - i,
    {
        r.push(h.0[i]);
        i = i + 1;
        assert(r@ =~= h.0@.subrange(0, i as int));
    }
    assert(h.0@.subrange(0, 32) =~= h.0@);
    r
}

/// The execution host, as far as fault construction is concerned: the
/// budget, the diagnostic event buffer with its exclusive-access lease, and
/// whether diagnostics are on.
pub struct Host {
    pub budget: Budget,
    pub events: Vec<DiagnosticEvent>,
    pub events_locked: bool,
    pub debug: bool,
}

impl Host {
    pub open spec fn debug_mode(&self) -> bool {
        self.debug
    }

    pub open spec fn events(&self) -> Seq<DiagnosticEvent> {
        self.events@
    }

    /// Whether the lease on the event buffer is held.
    pub open spec fn events_locked(&self) -> bool {
        self.events_locked
    }

    pub fn new(debug: bool) -> (r: Host)
        ensures
            r.debug_mode() == debug,
            r.events().len() == 0,
            !r.events_locked(),
            r.budget.inner().is_default(),
            !r.budget.is_locked(),
    {
        Host { budget: Budget::new(), events: Vec::new(), events_locked: false, debug }
    }

    pub fn with_budget(budget: Budget, debug: bool) -> (r: Host)
        ensures
            r.debug_mode() == debug,
            r.events().len() == 0,
            !r.events_locked(),
            r.budget == budget,
    {
        Host { budget, events: Vec::new(), events_locked: false, debug }
    }

    pub fn is_debug(&self) -> (r: bool)
        ensures
            r == self.debug_mode(),
    {
        self.debug
    }

    pub fn set_debug(&mut self, debug: bool)
        ensures
            final(self).debug_mode() == debug,
            final(self).events() == old(self).events(),
            final(self).events_locked() == old(self).events_locked(),
            final(self).budget == old(self).budget,
    {
        self.debug = debug;
    }

    /// Takes the lease on the event buffer; `false` when it is already held.
    pub fn lock_events(&mut self) -> (r: bool)
        ensures
            r == !old(self).events_locked(),
            final(self).events_locked(),
            final(self).debug_mode() == old(self).debug_mode(),
            final(self).events() == old(self).events(),
            final(self).budget == old(self).budget,
    {
        if self.events_locked {
            false
        } else {
            self.events_locked = true;
            true
        }
    }

    pub fn unlock_events(&mut self)
        ensures
            !final(self).events_locked(),
            final(self).debug_mode() == old(self).debug_mode(),
            final(self).events() == old(self).events(),
            final(self).budget == old(self).budget,
    {
        self.events_locked = false;
    }

    pub fn get_events(&self) -> (r: &Vec<DiagnosticEvent>)
        ensures
            r@ == self.events(),
    {
        &self.events
    }

    /// Whether diagnostics may be recorded: they are on and the event buffer
    /// lease is free.
    pub open spec fn diagnosing(&self) -> bool {
        self.debug_mode() && !self.events_locked()
    }

    /// A snapshot of the event buffer and the trimmed call history, metered on
    /// the shadow budget. None when diagnostics are off, when the event buffer
    /// lease is held (a fault raised while diagnosing another), or when the
    /// shadow budget refuses the snapshot.
    pub fn maybe_get_debug_info(&mut self) -> (r: Option<DebugInfo>)
        ensures
            final(self).debug_mode() == old(self).debug_mode(),
            final(self).events_locked() == old(self).events_locked(),
            final(self).events() == old(self).events(),
            final(self).budget.is_locked() == old(self).budget.is_locked(),
            old(self).diagnosing() ==> final(self).budget.inner() == stepped(
                old(self).budget.is_locked(),
                old(self).budget.inner(),
                ContractCostType::MemCpy,
                old(self).events().len() as int,
            ),
            !old(self).diagnosing() ==> final(self).budget.inner() == old(self).budget.inner(),
            r is Some <==> old(self).diagnosing() && admitted(
                old(self).budget.is_locked(),
                old(self).budget.inner(),
                ContractCostType::MemCpy,
                old(self).events().len() as int,
            ),
            r is Some ==> same_events(old(self).events(), r->0.events@),
            r is Some ==> exists|c: Seq<Vec<Option<String>>>|
                #![trigger is_trimmed(c, r->0.backtrace@)]
                is_trimmed(c, r->0.backtrace@),
    {
        if !self.debug || self.events_locked {
            return None;
        }
        let charged = self.budget.charge_shadow(ContractCostType::MemCpy, self.events.len() as u64);
        if charged.is_err() {
            return None;
        }
        let events = copy_events(&self.events);
        let captured = capture_backtrace();
        let ghost c = captured@;
        let backtrace = trim_backtrace(captured);
        let info = DebugInfo { events, backtrace };
        assert(is_trimmed(c, info.backtrace@));
        Some(info)
    }

    /// Builds the fault for `error`. With diagnostics on, first records a
    /// diagnostic event with `msg` and `args`, then attaches a snapshot; both
    /// steps are skipped when the event buffer lease is held, so a fault
    /// raised while diagnosing another carries no diagnostic payload. The
    /// real budget is never charged.
    pub fn error(&mut self, error: Error, msg: &str, args: &[Val]) -> (r: HostError)
        ensures
            r.error == error,
            old(self).events_locked() ==> r.info is None,
            error_post(*old(self), *final(self), error, msg@, args@, r),
    {
        if !self.debug || self.events_locked {
            return HostError::from(error);
        }
        let ghost s0 = self.budget.inner();
        let ghost lk = self.budget.is_locked();
        self.record_err_diagnostics(error, msg, args);
        let ghost s1 = self.budget.inner();
        let ghost e1 = self.events@;
        let info = self.maybe_get_debug_info();
        proof {
            if !lk {
                lemma_shadow_charge_keeps_real(s0, ContractCostType::MemAlloc, args@.len() as u64);
                lemma_shadow_charge_keeps_real(s1, ContractCostType::MemCpy, e1.len() as u64);
            }
            assert(e1.subrange(0, old(self).events@.len() as int) =~= old(self).events@);
        }
        HostError { error, info }
    }

    /// Builds the fault `(type_, code)` through `error`.
    pub fn err(&mut self, type_: ScErrorType, code: ScErrorCode, msg: &str, args: &[Val]) -> (r:
        HostError)
        ensures
            r.error == (Error { type_, code }),
            old(self).events_locked() ==> r.info is None,
            error_post(*old(self), *final(self), Error { type_, code }, msg@, args@, r),
    {
        let error = Error::from_type_and_code(type_, code);
        self.error(error, msg, args)
    }

    /// `(Value, ArithDomain)`: an arithmetic overflow.
    pub fn err_arith_overflow(&mut self) -> (r: HostError)
        ensures
            error_post(
                *old(self),
                *final(self),
                Error { type_: ScErrorType::Value, code: ScErrorCode::ArithDomain },
                "arithmetic overflow"@,
                Seq::<Val>::empty(),
                r,
            ),
    {
        let args: Vec<Val> = Vec::new();
        self.err(ScErrorType::Value, ScErrorCode::ArithDomain, "arithmetic overflow", args.as_slice())
    }

    /// `(WasmVm, IndexBounds)`: an access outside guest linear memory.
    pub fn err_oob_linear_memory(&mut self) -> (r: HostError)
        ensures
            error_post(
                *old(self),
                *final(self),
                Error { type_: ScErrorType::WasmVm, code: ScErrorCode::IndexBounds },
                "out-of-bounds access to WASM linear memory"@,
                Seq::<Val>::empty(),
                r,
            ),
    {
        let args: Vec<Val> = Vec::new();
        self.err(
            ScErrorType::WasmVm,
            ScErrorCode::IndexBounds,
            "out-of-bounds access to WASM linear memory",
            args.as_slice(),
        )
    }

    /// `(Object, IndexBounds)`: an object index out of range, naming the
    /// index when it is known.
    pub fn err_oob_object_index(&mut self, index: Option<u32>) -> (r: HostError)
        ensures
            error_post(
                *old(self),
                *final(self),
                Error { type_: ScErrorType::Object, code: ScErrorCode::IndexBounds },
                "object index out of bounds"@,
                match index {
                    None => Seq::<Val>::empty(),
                    Some(i) => Seq::<Val>::empty().push(Val::U32(i)),
                },
                r,
            ),
    {
        let mut args: Vec<Val> = Vec::new();
        match index {
            None => {},
            Some(index) => args.push(Val::U32(index)),
        }
        self.err(
            ScErrorType::Object,
            ScErrorCode::IndexBounds,
            "object index out of bounds",
            args.as_slice(),
        )
    }

    /// Turns the error of `res` into a fault through `error`; with
    /// diagnostics on, the event's message is the error's text, otherwise it
    /// is empty.
    pub fn map_err<T>(&mut self, res: Result<T, Error>) -> (r: Result<T, HostError>)
        ensures
            res is Ok ==> r is Ok && r->Ok_0 == res->Ok_0 && *final(self) == *old(self),
            res is Err ==> r is Err && error_post(
                *old(self),
                *final(self),
                res->Err_0,
                if old(self).debug_mode() {
                    error_text(res->Err_0)
                } else {
                    ""@
                },
                Seq::<Val>::empty(),
                r->Err_0,
            ),
    {
        match res {
            Ok(v) => Ok(v),
            Err(e) => {
                let args: Vec<Val> = Vec::new();
                if self.is_debug() {
                    let msg = e.debug_text();
                    Err(self.error(e, msg.as_str(), args.as_slice()))
                } else {
                    Err(self.error(e, "", args.as_slice()))
                }
            },
        }
    }

    /// The account named by a ledger key, as an address value; `Void` for keys
    /// that name no account. Copying the account id is charged to the budget
    /// in the current mode.
    pub fn account_address_from_key(&mut self, lk: &LedgerKey) -> (r: Result<Val, HostError>)
        ensures
            final(self).debug_mode() == old(self).debug_mode(),
            final(self).events() == old(self).events(),
            final(self).events_locked() == old(self).events_locked(),
            final(self).budget.is_locked() == old(self).budget.is_locked(),
            match *lk {
                LedgerKey::Account { account_id } | LedgerKey::Trustline { account_id } => {
                    &&& old(self).budget.is_locked() ==> final(self).budget.inner() == old(
                        self,
                    ).budget.inner() && r == Err::<Val, HostError>(bare(access_conflict_error()))
                    &&& !old(self).budget.is_locked() ==> final(self).budget.inner() == old(
                        self,
                    ).budget.inner().charged(ContractCostType::MemCpy, 32).0
                    &&& !old(self).budget.is_locked() && old(self).budget.inner().charged(
                        ContractCostType::MemCpy,
                        32,
                    ).1 is Err ==> r == Err::<Val, HostError>(bare(budget_exceeded_error()))
                    &&& r is Ok <==> !old(self).budget.is_locked() && old(
                        self,
                    ).budget.inner().charged(ContractCostType::MemCpy, 32).1 is Ok
                    &&& r is Ok ==> r->Ok_0 == Val::Address(ScAddress::Account(account_id))
                },
                _ => r == Ok::<Val, HostError>(Val::Void) && final(self).budget == old(
                    self,
                ).budget,
            },
    {
        let account_id = match lk {
            LedgerKey::Account { account_id } => account_id,
            LedgerKey::Trustline { account_id } => account_id,
            _ => {
                return Ok(Val::Void);
            },
        };
        proof {
            budget_exceeded_error_is_only_charge_failure(
                self.budget.inner(),
                ContractCostType::MemCpy,
                32,
            );
        }
        self.budget.charge(ContractCostType::MemCpy, 32)?;
        Ok(Val::Address(ScAddress::Account(*account_id)))
    }

    /// Re-raises a footprint violation `(Storage, ExceededLimit)` naming the
    /// account of `lk` (`Void` for keys that name none); any other fault is
    /// returned as it is. When naming the account fails, that failure is
    /// returned instead.
    pub fn decorate_account_footprint_error(&mut self, err: HostError, lk: &LedgerKey, msg: &str) -> (r:
        HostError)
        ensures
            !is_footprint_violation(err.error) ==> r == err && *final(self) == *old(self),
            is_footprint_violation(err.error) ==> match *lk {
                LedgerKey::Account { account_id } | LedgerKey::Trustline { account_id } => {
                    let lkd = old(self).budget.is_locked();
                    let c = old(self).budget.inner().charged(ContractCostType::MemCpy, 32);
                    &&& lkd ==> r == bare(access_conflict_error()) && final(self).events()
                        == old(self).events() && final(self).budget.inner() == old(self).budget.inner()
                    &&& !lkd && c.1 is Err ==> r == bare(budget_exceeded_error())
                        && final(self).events() == old(self).events()
                    &&& !lkd && c.1 is Ok ==> error_outcome(
                        lkd,
                        c.0,
                        old(self).debug,
                        old(self).events_locked,
                        old(self).events@,
                        *final(self),
                        err.error,
                        msg@,
                        seq![Val::Address(ScAddress::Account(account_id))],
                        r,
                    )
                },
                _ => error_post(*old(self), *final(self), err.error, msg@, seq![Val::Void], r),
            },
    {
        if err.error.is_type(ScErrorType::Storage) && err.error.is_code(ScErrorCode::ExceededLimit) {
            match self.account_address_from_key(lk) {
                Ok(account_address) => {
                    let mut args: Vec<Val> = Vec::new();
                    args.push(account_address);
                    return self.err(
                        ScErrorType::Storage,
                        ScErrorCode::ExceededLimit,
                        msg,
                        args.as_slice(),
                    );
                },
                Err(e) => {
                    return e;
                },
            }
        }
        err
    }

    /// Re-raises a footprint violation or a missing value on a contract
    /// storage key, naming the key; any other fault is returned as it is.
    pub fn decorate_contract_data_storage_error(&mut self, err: HostError, key: Val) -> (r: HostError)
        ensures
            is_footprint_violation(err.error) ==> error_post(
                *old(self),
                *final(self),
                err.error,
                "trying to access contract storage key outside of the footprint"@,
                seq![key],
                r,
            ),
            err.error == (Error { type_: ScErrorType::Storage, code: ScErrorCode::MissingValue })
                ==> error_post(
                *old(self),
                *final(self),
                err.error,
                "trying to get non-existing value for contract storage key"@,
                seq![key],
                r,
            ),
            !is_footprint_violation(err.error) && err.error != (Error {
                type_: ScErrorType::Storage,
                code: ScErrorCode::MissingValue,
            }) ==> r == err && *final(self) == *old(self),
    {
        if !err.error.is_type(ScErrorType::Storage) {
            return err;
        }
        if err.error.is_code(ScErrorCode::ExceededLimit) {
            let mut args: Vec<Val> = Vec::new();
            args.push(key);
            return self.err(
                ScErrorType::Storage,
                ScErrorCode::ExceededLimit,
                "trying to access contract storage key outside of the footprint",
                args.as_slice(),
            );
        }
        if err.error.is_code(ScErrorCode::MissingValue) {
            let mut args: Vec<Val> = Vec::new();
            args.push(key);
            return self.err(
                ScErrorType::Storage,
                ScErrorCode::MissingValue,
                "trying to get non-existing value for contract storage key",
                args.as_slice(),
            );
        }
        err
    }

    /// Re-raises a footprint violation on a contract instance, naming the
    /// contract; any other fault is returned as it is.
    pub fn decorate_contract_instance_storage_error(&mut self, err: HostError, contract_id: &Hash32) -> (r:
        HostError)
        ensures
            is_footprint_violation(err.error) ==> error_post(
                *old(self),
                *final(self),
                err.error,
                "trying to access contract instance key outside of the footprint"@,
                seq![Val::Address(ScAddress::Contract(*contract_id))],
                r,
            ),
            !is_footprint_violation(err.error) ==> r == err && *final(self) == *old(self),
    {
        if err.error.is_type(ScErrorType::Storage) && err.error.is_code(ScErrorCode::ExceededLimit) {
            let mut args: Vec<Val> = Vec::new();
            args.push(Val::Address(ScAddress::Contract(*contract_id)));
            return self.err(
                ScErrorType::Storage,
                ScErrorCode::ExceededLimit,
                "trying to access contract instance key outside of the footprint",
                args.as_slice(),
            );
        }
        err
    }

    /// Re-raises a footprint violation on contract code, naming the code
    /// hash by its bytes; any other fault is returned as it is.
    pub fn decorate_contract_code_storage_error(&mut self, err: HostError, wasm_hash: &Hash32) -> (r:
        HostError)
        ensures
            is_footprint_violation(err.error) ==> exists|args: Seq<Val>|
                #![trigger error_post(*old(self), *final(self), err.error, "trying to access contract code key outside of the footprint"@, args, r)]
                args.len() == 1 && args[0] is Bytes && args[0]->Bytes_0@ == wasm_hash.0@
                    && error_post(
                    *old(self),
                    *final(self),
                    err.error,
                    "trying to access contract code key outside of the footprint"@,
                    args,
                    r,
                ),
            !is_footprint_violation(err.error) ==> r == err && *final(self) == *old(self),
    {
        if err.error.is_type(ScErrorType::Storage) && err.error.is_code(ScErrorCode::ExceededLimit) {
            let mut args: Vec<Val> = Vec::new();
            args.push(Val::Bytes(hash_bytes(wasm_hash)));
            let ghost a = args@;
            let r = self.err(
                ScErrorType::Storage,
                ScErrorCode::ExceededLimit,
                "trying to access contract code key outside of the footprint",
                args.as_slice(),
            );
            assert(a.len() == 1 && a[0] is Bytes && a[0]->Bytes_0@ == wasm_hash.0@);
            return r;
        }
        err
    }

    /// Appends a diagnostic event for `error`, metered on the shadow budget;
    /// nothing is appended when the shadow budget refuses the charge.
    fn record_err_diagnostics(&mut self, error: Error, msg: &str, args: &[Val])
        ensures
            final(self).debug_mode() == old(self).debug_mode(),
            final(self).events_locked() == old(self).events_locked(),
            final(self).budget.is_locked() == old(self).budget.is_locked(),
            final(self).budget.inner() == stepped(
                old(self).budget.is_locked(),
                old(self).budget.inner(),
                ContractCostType::MemAlloc,
                args@.len() as int,
            ),
            admitted(
                old(self).budget.is_locked(),
                old(self).budget.inner(),
                ContractCostType::MemAlloc,
                args@.len() as int,
            ) ==> {
                &&& final(self).events().len() == old(self).events().len() + 1
                &&& final(self).events().drop_last() == old(self).events()
                &&& final(self).events().last().error == error
                &&& final(self).events().last().msg@ == msg@
                &&& same_vals(args@, final(self).events().last().args@)
            },
            !admitted(
                old(self).budget.is_locked(),
                old(self).budget.inner(),
                ContractCostType::MemAlloc,
                args@.len() as int,
            ) ==> final(self).events() == old(self).events(),
    {
        let charged = self.budget.charge_shadow(ContractCostType::MemAlloc, args.len() as u64);
        if charged.is_err() {
            return ;
        }
        let event = DiagnosticEvent { error, msg: String::from_str(msg), args: copy_vals(args) };
        self.events.push(event);
        proof {
            assert(self.events@.drop_last() =~= old(self).events@);
        }
    }
}

} // verus!
