use crate::error::Error;
use vstd::prelude::*;

verus! {

/// A 32-byte identifier (a contract id or a code hash).
#[derive(Clone, Copy, Debug, PartialEq, Eq)]
pub struct Hash32(pub [u8; 32]);

/// An account or a contract, as addresses are shown in diagnostics.
#[derive(Clone, Copy, Debug, PartialEq, Eq)]
pub enum ScAddress {
    Account([u8; 32]),
    Contract(Hash32),
}

/// The key of a ledger entry, as far as footprint errors name one.
#[derive(Clone, Copy, Debug, PartialEq, Eq)]
pub enum LedgerKey {
    Account { account_id: [u8; 32] },
    Trustline { account_id: [u8; 32] },
    ContractData { contract: Hash32 },
    ContractCode { hash: Hash32 },
}

/// The host's generic value representation, as far as diagnostics use it.
#[derive(Clone, Debug)]
pub enum Val {
    Void,
    U32(u32),
    Error(Error),
    Address(ScAddress),
    Bytes(Vec<u8>),
    Str(String),
}

/// A diagnostic event: the fault it reports, a message, and arguments
/// rendered as values.
#[derive(Clone, Debug)]
pub struct DiagnosticEvent {
    pub error: Error,
    pub msg: String,
    pub args: Vec<Val>,
}

/// `a` and `b` hold the same value (byte strings and strings compared by
/// their contents).
pub open spec fn same_val(a: Val, b: Val) -> bool {
    match (a, b) {
        (Val::Bytes(x), Val::Bytes(y)) => x@ == y@,
        (Val::Str(x), Val::Str(y)) => x@ == y@,
        _ => a == b,
    }
}

pub open spec fn same_vals(a: Seq<Val>, b: Seq<Val>) -> bool {
    a.len() == b.len() && forall|i: int| 0 <= i < a.len() ==> #[trigger] same_val(a[i], b[i])
}

pub open spec fn same_event(a: DiagnosticEvent, b: DiagnosticEvent) -> bool {
    a.error == b.error && a.msg@ == b.msg@ && same_vals(a.args@, b.args@)
}

pub open spec fn same_events(a: Seq<DiagnosticEvent>, b: Seq<DiagnosticEvent>) -> bool {
    a.len() == b.len() && forall|i: int| 0 <= i < a.len() ==> #[trigger] same_event(a[i], b[i])
}

pub fn copy_bytes(b: &Vec<u8>) -> (r: Vec<u8>)
    ensures
        r@ == b@,
{
    let mut r: Vec<u8> = Vec::new();
    let mut i: usize = 0;
    while i < b.len()
        invariant
            i <= b@.len(),
            r@ == b@.subrange(0, i as int),
        decreases b@.len() - i,
    {
        r.push(b[i]);
        i = i + 1;
        assert(r@ =~= b@.subrange(0, i as int));
    }
    assert(b@.subrange(0, b@.len() as int) =~= b@);
    r
}

pub fn copy_val(v: &Val) -> (r: Val)
    ensures
        same_val(*v, r),
{
    match v {
        Val::Void => Val::Void,
        Val::U32(x) => Val::U32(*x),
        Val::Error(e) => Val::Error(*e),
        Val::Address(a) => Val::Address(*a),
        Val::Bytes(b) => Val::Bytes(copy_bytes(b)),
        Val::Str(t) => Val::Str(t.clone()),
    }
}

pub fn copy_vals(vs: &[Val]) -> (r: Vec<Val>)
    ensures
        same_vals(vs@, r@),
{
    let mut r: Vec<Val> = Vec::new();
    let mut i: usize = 0;
    while i < vs.len()
        invariant
            i <= vs@.len(),
            r@.len() == i,
            forall|j: int| 0 <= j < i ==> #[trigger] same_val(vs@[j], r@[j]),
        decreases vs@.len() - i,
    {
        r.push(copy_val(&vs[i]));
        i = i + 1;
    }
    r
}

pub fn copy_event(e: &DiagnosticEvent) -> (r: DiagnosticEvent)
    ensures
        same_event(*e, r),
{
    DiagnosticEvent { error: e.error, msg: e.msg.clone(), args: copy_vals(e.args.as_slice()) }
}

pub fn copy_events(es: &Vec<DiagnosticEvent>) -> (r: Vec<DiagnosticEvent>)
    ensures
        same_events(es@, r@),
{
    let mut r: Vec<DiagnosticEvent> = Vec::new();
    let mut i: usize = 0;
    while i < es.len()
        invariant
            i <= es@.len(),
            r@.len() == i,
            forall|j: int| 0 <= j < i ==> #[trigger] same_event(es@[j], r@[j]),
        decreases es@.len() - i,
    {
        r.push(copy_event(&es[i]));
        i = i + 1;
    }
    r
}

} // verus!
