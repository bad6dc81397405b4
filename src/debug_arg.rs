use crate::budget::{admitted, same_real};
use crate::dimension::ContractCostType;
use crate::error::{bare, diagnostic_placeholder_error, Error, HostError, ScErrorCode, ScErrorType};
use crate::events::{Hash32, Val};
use crate::host::{hash_bytes, Host};
use vstd::prelude::*;
use vstd::string::*;

verus! {

/// The placeholder value left where an argument could not be rendered.
pub open spec fn placeholder() -> Val {
    Val::Error(diagnostic_placeholder_error())
}

/// A diagnostic argument that can be rendered as a host value.
pub trait DebugArg {
    /// Renders `arg`; the work is metered on the shadow budget alone and may fail.
    fn debug_arg_maybe_expensive_or_fallible(host: &mut Host, arg: &Self) -> (r: Result<
        Val,
        HostError,
    >)
        ensures
            final(host).debug_mode() == old(host).debug_mode(),
            final(host).events() == old(host).events(),
            final(host).events_locked() == old(host).events_locked(),
            final(host).budget.is_locked() == old(host).budget.is_locked(),
            same_real(old(host).budget.inner(), final(host).budget.inner()),
    ;
}

/// Renders a diagnostic argument, degrading to the placeholder when
/// diagnostics are off, when the event buffer lease is held (a fault raised
/// while another is being diagnosed), or when rendering fails. The lease is
/// held while rendering, so that a fault raised by the rendering itself is
/// built without diagnostics.
pub fn debug_arg<A: DebugArg + ?Sized>(host: &mut Host, arg: &A) -> (r: Val)
    ensures
        !old(host).diagnosing() ==> r == placeholder() && *final(host) == *old(host),
        final(host).debug_mode() == old(host).debug_mode(),
        final(host).events() == old(host).events(),
        final(host).events_locked() == old(host).events_locked(),
        final(host).budget.is_locked() == old(host).budget.is_locked(),
        same_real(old(host).budget.inner(), final(host).budget.inner()),
        old(host).diagnosing() ==> exists|m: &mut Host, rf: Result<Val, HostError>|
            #![trigger call_ensures(A::debug_arg_maybe_expensive_or_fallible, (m, arg), rf)]
            *m == (Host { events_locked: true, ..*old(host) }) && call_ensures(
                A::debug_arg_maybe_expensive_or_fallible,
                (m, arg),
                rf,
            ) && r == match rf {
                Ok(v) => v,
                Err(_) => placeholder(),
            },
{
    if host.events_locked || !host.is_debug() {
        return Val::Error(
            Error::from_type_and_code(ScErrorType::Events, ScErrorCode::InternalError),
        );
    }
    host.events_locked = true;
    let r = match A::debug_arg_maybe_expensive_or_fallible(host, arg) {
        Ok(v) => v,
        Err(_) => Val::Error(
            Error::from_type_and_code(ScErrorType::Events, ScErrorCode::InternalError),
        ),
    };
    host.events_locked = false;
    r
}

impl DebugArg for u32 {
    fn debug_arg_maybe_expensive_or_fallible(host: &mut Host, arg: &u32) -> (r: Result<
        Val,
        HostError,
    >)
        ensures
            r == Ok::<Val, HostError>(Val::U32(*arg)),
    {
        Ok(Val::U32(*arg))
    }
}

impl DebugArg for usize {
    /// Fails with `(Value, UnexpectedType)` when `arg` does not fit in 32 bits.
    fn debug_arg_maybe_expensive_or_fallible(host: &mut Host, arg: &usize) -> (r: Result<
        Val,
        HostError,
    >)
        ensures
            *arg <= u32::MAX ==> r == Ok::<Val, HostError>(Val::U32(*arg as u32)),
            *arg > u32::MAX ==> r == Err::<Val, HostError>(
                bare(Error { type_: ScErrorType::Value, code: ScErrorCode::UnexpectedType }),
            ),
    {
        if *arg <= 0xffff_ffff {
            Ok(Val::U32(*arg as u32))
        } else {
            Err(
                HostError::from(
                    Error::from_type_and_code(ScErrorType::Value, ScErrorCode::UnexpectedType),
                ),
            )
        }
    }
}

impl DebugArg for Error {
    fn debug_arg_maybe_expensive_or_fallible(host: &mut Host, arg: &Error) -> (r: Result<
        Val,
        HostError,
    >)
        ensures
            r == Ok::<Val, HostError>(Val::Error(*arg)),
    {
        Ok(Val::Error(*arg))
    }
}

impl DebugArg for Hash32 {
    /// The hash's bytes, copying them charged to the shadow budget.
    fn debug_arg_maybe_expensive_or_fallible(host: &mut Host, arg: &Hash32) -> (r: Result<
        Val,
        HostError,
    >)
        ensures
            r is Ok <==> admitted(
                old(host).budget.is_locked(),
                old(host).budget.inner(),
                ContractCostType::MemCpy,
                32,
            ),
            r is Ok ==> r->Ok_0 is Bytes && r->Ok_0->Bytes_0@ == arg.0@,
    {
        let ghost s0 = host.budget.inner();
        let charged = host.budget.charge_shadow(ContractCostType::MemCpy, 32);
        proof {
            if !old(host).budget.is_locked() {
                crate::budget::lemma_shadow_charge_keeps_real(s0, ContractCostType::MemCpy, 32);
            }
        }
        charged?;
        Ok(Val::Bytes(hash_bytes(arg)))
    }
}

impl DebugArg for str {
    /// The string itself, copying it charged to the shadow budget.
    fn debug_arg_maybe_expensive_or_fallible(host: &mut Host, arg: &str) -> (r: Result<
        Val,
        HostError,
    >)
        ensures
            r is Ok <==> admitted(
                old(host).budget.is_locked(),
                old(host).budget.inner(),
                ContractCostType::MemCpy,
                arg@.len() as int,
            ),
            r is Ok ==> r->Ok_0 is Str && r->Ok_0->Str_0@ == arg@,
    {
        let ghost s0 = host.budget.inner();
        let n = arg.unicode_len();
        let charged = host.budget.charge_shadow(ContractCostType::MemCpy, n as u64);
        proof {
            if !old(host).budget.is_locked() {
                crate::budget::lemma_shadow_charge_keeps_real(s0, ContractCostType::MemCpy, n as u64);
            }
        }
        charged?;
        Ok(Val::Str(String::from_str(arg)))
    }
}

} // verus!
