use soroban_env_host::callstack::{contains_str, trim_backtrace};
use soroban_env_host::debug_arg::debug_arg;
use soroban_env_host::error::{DebugInfo, Error, HostError, ScErrorCode, ScErrorType};
use soroban_env_host::events::{DiagnosticEvent, Hash32, LedgerKey, ScAddress, Val};
use soroban_env_host::host::{hash_bytes, Host};

fn e(t: ScErrorType, c: ScErrorCode) -> Error {
    Error::from_type_and_code(t, c)
}

fn he(t: ScErrorType, c: ScErrorCode) -> HostError {
    HostError::from(e(t, c))
}

#[test]
fn recoverability_table() {
    assert!(!he(ScErrorType::Budget, ScErrorCode::ExceededLimit).is_recoverable());
    assert!(!he(ScErrorType::Storage, ScErrorCode::ExceededLimit).is_recoverable());
    assert!(!he(ScErrorType::Context, ScErrorCode::InternalError).is_recoverable());
    assert!(he(ScErrorType::Contract, ScErrorCode::InternalError).is_recoverable());
    assert!(he(ScErrorType::Value, ScErrorCode::ArithDomain).is_recoverable());
    assert!(he(ScErrorType::Object, ScErrorCode::ExceededLimit).is_recoverable());
    assert!(!he(ScErrorType::Events, ScErrorCode::InternalError).is_recoverable());
}

#[test]
fn double_fault_carries_no_diagnostics() {
    let mut host = Host::new(true);
    assert!(host.lock_events());
    let err = host.err(ScErrorType::Value, ScErrorCode::InvalidInput, "inner", &[]);
    assert_eq!(err.error, e(ScErrorType::Value, ScErrorCode::InvalidInput));
    assert!(!err.has_debug_info());
    assert_eq!(host.get_events().len(), 0);
    host.unlock_events();
    let err = host.err(ScErrorType::Value, ScErrorCode::InvalidInput, "outer", &[Val::U32(4)]);
    assert!(err.has_debug_info());
    assert_eq!(host.get_events().len(), 1);
    assert_eq!(host.get_events()[0].msg, "outer");
    assert_eq!(host.get_events()[0].args.len(), 1);
    assert_eq!(err.info.as_ref().unwrap().events.len(), 1);
}

#[test]
fn without_debug_mode_nothing_is_recorded() {
    let mut host = Host::new(false);
    let err = host.err_arith_overflow();
    assert_eq!(err.error, e(ScErrorType::Value, ScErrorCode::ArithDomain));
    assert!(err.info.is_none());
    assert_eq!(host.get_events().len(), 0);
    let err = host.err_oob_linear_memory();
    assert_eq!(err.error, e(ScErrorType::WasmVm, ScErrorCode::IndexBounds));
}

#[test]
fn object_index_error_names_the_index() {
    let mut host = Host::new(true);
    let err = host.err_oob_object_index(Some(3));
    assert_eq!(err.error, e(ScErrorType::Object, ScErrorCode::IndexBounds));
    assert_eq!(host.get_events()[0].msg, "object index out of bounds");
    assert!(matches!(host.get_events()[0].args[0], Val::U32(3)));
    host.err_oob_object_index(None);
    assert_eq!(host.get_events()[1].args.len(), 0);
}

#[test]
fn diagnostics_do_not_touch_the_real_budget() {
    let mut host = Host::new(true);
    host.budget.reset_limits(50, 50).unwrap();
    host.budget
        .override_model_with_unscaled_params(
            soroban_env_host::dimension::ContractCostType::MemAlloc,
            5,
            0,
            5,
            0,
        )
        .unwrap();
    host.err(ScErrorType::Value, ScErrorCode::InvalidInput, "m", &[]);
    assert_eq!(host.budget.get_cpu_insns_consumed().unwrap(), 0);
    assert_eq!(host.budget.get_shadow_cpu_insns_consumed().unwrap(), 5);
}

#[test]
fn map_err_uses_the_error_text_as_message() {
    let mut host = Host::new(true);
    let ok: Result<u32, Error> = Ok(7);
    assert_eq!(host.map_err(ok).ok(), Some(7));
    let bad: Result<u32, Error> = Err(e(ScErrorType::Budget, ScErrorCode::ExceededLimit));
    let r = host.map_err(bad);
    assert!(HostError::result_matches_err(r, e(ScErrorType::Budget, ScErrorCode::ExceededLimit)));
    assert_eq!(host.get_events()[0].msg, "Error(Budget, ExceededLimit)");
    let mut quiet = Host::new(false);
    let bad: Result<u32, Error> = Err(e(ScErrorType::Value, ScErrorCode::ArithDomain));
    let r = quiet.map_err(bad).unwrap_err();
    assert_eq!(r.error, e(ScErrorType::Value, ScErrorCode::ArithDomain));
    assert!(r.info.is_none());
}

#[test]
fn error_text_and_matching() {
    assert_eq!(e(ScErrorType::Value, ScErrorCode::ArithDomain).debug_text(), "Error(Value, ArithDomain)");
    let r: Result<(), HostError> = Err(he(ScErrorType::Storage, ScErrorCode::MissingValue));
    assert!(HostError::result_matches_err(r, e(ScErrorType::Storage, ScErrorCode::MissingValue)));
    let r: Result<(), HostError> = Err(he(ScErrorType::Storage, ScErrorCode::MissingValue));
    assert!(!HostError::result_matches_err(r, e(ScErrorType::Storage, ScErrorCode::ExceededLimit)));
    let r: Result<(), HostError> = Ok(());
    assert!(!HostError::result_matches_err(r, e(ScErrorType::Storage, ScErrorCode::MissingValue)));
    let back: Error = he(ScErrorType::Auth, ScErrorCode::InvalidAction).into();
    assert_eq!(back, e(ScErrorType::Auth, ScErrorCode::InvalidAction));
}

#[test]
fn equality_ignores_the_diagnostic_payload() {
    let mut host = Host::new(true);
    let with_info = host.err(ScErrorType::Value, ScErrorCode::InvalidInput, "x", &[]);
    assert!(with_info.has_debug_info());
    assert!(with_info == he(ScErrorType::Value, ScErrorCode::InvalidInput));
    assert!(with_info != he(ScErrorType::Value, ScErrorCode::ArithDomain));
}

#[test]
fn report_text() {
    let plain = he(ScErrorType::Budget, ScErrorCode::ExceededLimit);
    assert_eq!(
        plain.report(),
        "HostError: Error(Budget, ExceededLimit)\nDebugInfo not available\n"
    );
    let mut host = Host::new(true);
    let rich = host.err(ScErrorType::Value, ScErrorCode::InvalidInput, "bad input", &[Val::U32(9)]);
    let text = rich.report();
    assert!(text.starts_with("HostError: Error(Value, InvalidInput)\n"));
    assert!(text.contains("Event log (newest first):"));
    assert!(text.contains("   0: Error(Value, InvalidInput) bad input [9]"));
    assert!(text.contains("Backtrace (newest first):"));
}

#[test]
fn report_lists_at_most_twenty_five_events() {
    let mut host = Host::new(true);
    for _ in 0..30 {
        host.err(ScErrorType::Value, ScErrorCode::InvalidInput, "again", &[]);
    }
    let text = host.err(ScErrorType::Value, ScErrorCode::InvalidInput, "last", &[]).report();
    assert!(text.contains("   24: "));
    assert!(text.contains("   25: ... elided ...\n"));
    assert!(text.contains("   0: Error(Value, InvalidInput) last"));
}

fn frame(names: &[&str]) -> Vec<Option<String>> {
    names.iter().map(|n| Some(n.to_string())).collect()
}

#[test]
fn backtrace_trimming() {
    let frames = vec![
        frame(&["<T as core::convert::Into<U>>::into"]),
        frame(&["soroban::host::Host::err"]),
        frame(&["app::work"]),
        vec![None],
        frame(&["app::main"]),
        frame(&["std::sys::backtrace::__rust_begin_short_backtrace"]),
        frame(&["std::rt::lang_start"]),
    ];
    let t = trim_backtrace(frames);
    assert_eq!(t, vec![frame(&["app::work"]), vec![None], frame(&["app::main"])]);
    let none: Vec<Vec<Option<String>>> = vec![frame(&["x::from"])];
    assert_eq!(trim_backtrace(none), Vec::<Vec<Option<String>>>::new());
    let plain = vec![frame(&["a"]), frame(&["b"])];
    assert_eq!(trim_backtrace(plain.clone()), plain);
}

#[test]
fn substring_search() {
    assert!(contains_str("abc::from_x", "::from"));
    assert!(!contains_str("abc::fro", "::from"));
    assert!(contains_str("abc", ""));
    assert!(!contains_str("", "a"));
    assert!(contains_str("aab", "ab"));
}

#[test]
fn debug_arg_rendering() {
    let mut host = Host::new(true);
    assert!(matches!(debug_arg(&mut host, &7u32), Val::U32(7)));
    assert!(matches!(debug_arg(&mut host, &8usize), Val::U32(8)));
    let too_big = (u32::MAX as usize) + 1;
    let placeholder = e(ScErrorType::Events, ScErrorCode::InternalError);
    assert!(matches!(debug_arg(&mut host, &too_big), Val::Error(x) if x == placeholder));
    assert!(matches!(debug_arg(&mut host, "hi"), Val::Str(ref s) if s == "hi"));
    match debug_arg(&mut host, &Hash32([5u8; 32])) {
        Val::Bytes(b) => assert_eq!(b, vec![5u8; 32]),
        _ => panic!("expected bytes"),
    }
    assert!(!host.events_locked);
    assert!(host.lock_events());
    assert!(matches!(debug_arg(&mut host, &7u32), Val::Error(x) if x == placeholder));
    host.unlock_events();
    let mut quiet = Host::new(false);
    assert!(matches!(debug_arg(&mut quiet, &7u32), Val::Error(x) if x == placeholder));
}

#[test]
fn storage_errors_are_decorated_with_the_key() {
    let mut host = Host::new(true);
    let r = host.decorate_contract_data_storage_error(
        he(ScErrorType::Storage, ScErrorCode::MissingValue),
        Val::U32(1),
    );
    assert_eq!(r.error, e(ScErrorType::Storage, ScErrorCode::MissingValue));
    assert_eq!(host.get_events().len(), 1);
    assert_eq!(host.get_events()[0].msg, "trying to get non-existing value for contract storage key");
    let r = host.decorate_contract_data_storage_error(
        he(ScErrorType::Value, ScErrorCode::MissingValue),
        Val::U32(1),
    );
    assert_eq!(r.error, e(ScErrorType::Value, ScErrorCode::MissingValue));
    assert_eq!(host.get_events().len(), 1);
    let r = host.decorate_contract_instance_storage_error(
        he(ScErrorType::Storage, ScErrorCode::ExceededLimit),
        &Hash32([1u8; 32]),
    );
    assert_eq!(r.error, e(ScErrorType::Storage, ScErrorCode::ExceededLimit));
    assert!(matches!(host.get_events()[1].args[0], Val::Address(ScAddress::Contract(Hash32(h))) if h == [1u8; 32]));
    let r = host.decorate_contract_code_storage_error(
        he(ScErrorType::Storage, ScErrorCode::ExceededLimit),
        &Hash32([2u8; 32]),
    );
    assert!(r.has_debug_info());
    assert!(matches!(host.get_events()[2].args[0], Val::Bytes(ref b) if *b == vec![2u8; 32]));
}

#[test]
fn account_footprint_errors_name_the_account() {
    let mut host = Host::new(true);
    let key = LedgerKey::Trustline { account_id: [9u8; 32] };
    assert!(matches!(host.account_address_from_key(&key), Ok(Val::Address(ScAddress::Account(a))) if a == [9u8; 32]));
    let code_key = LedgerKey::ContractCode { hash: Hash32([0u8; 32]) };
    assert!(matches!(host.account_address_from_key(&code_key), Ok(Val::Void)));
    let r = host.decorate_account_footprint_error(
        he(ScErrorType::Storage, ScErrorCode::ExceededLimit),
        &LedgerKey::Account { account_id: [3u8; 32] },
        "account outside footprint",
    );
    assert_eq!(r.error, e(ScErrorType::Storage, ScErrorCode::ExceededLimit));
    assert_eq!(host.get_events()[0].msg, "account outside footprint");
    let r = host.decorate_account_footprint_error(
        he(ScErrorType::Budget, ScErrorCode::ExceededLimit),
        &key,
        "unused",
    );
    assert_eq!(r.error, e(ScErrorType::Budget, ScErrorCode::ExceededLimit));
    assert_eq!(host.get_events().len(), 1);
    assert_eq!(hash_bytes(&Hash32([4u8; 32])), vec![4u8; 32]);
}

#[test]
fn report_text_with_payload_is_exact() {
    let ev = |m: &str, args: Vec<Val>| DiagnosticEvent {
        error: e(ScErrorType::Value, ScErrorCode::InvalidInput),
        msg: m.to_string(),
        args,
    };
    let info = DebugInfo {
        events: vec![
            ev("first", vec![]),
            ev("second", vec![Val::U32(120), Val::Bytes(vec![1, 2]), Val::Str("s".to_string())]),
        ],
        backtrace: vec![vec![Some("a::b".to_string()), None], vec![]],
    };
    let h = HostError { error: e(ScErrorType::Budget, ScErrorCode::ExceededLimit), info: Some(info) };
    assert_eq!(
        h.report(),
        "HostError: Error(Budget, ExceededLimit)\n\
         \nEvent log (newest first):\n\
         \x20  0: Error(Value, InvalidInput) second [120, Bytes(2), s]\n\
         \x20  1: Error(Value, InvalidInput) first\n\
         \nBacktrace (newest first):\n\
         \x20  0: a::b / <unknown>\n\
         \x20  1: \n"
    );
}

#[test]
fn capture_frames_are_trimmed() {
    let frames = vec![
        frame(&["soroban_env_host::callstack::capture_backtrace"]),
        frame(&["soroban_env_host::host::Host::maybe_get_debug_info"]),
        frame(&["soroban_env_host::host::Host::error"]),
        frame(&["user::code"]),
    ];
    assert_eq!(trim_backtrace(frames), vec![frame(&["user::code"])]);
}

#[test]
fn largest_u32_usize_still_renders() {
    let mut host = Host::new(true);
    assert!(matches!(debug_arg(&mut host, &(u32::MAX as usize)), Val::U32(u32::MAX)));
    assert!(matches!(debug_arg(&mut host, &Error::from_type_and_code(ScErrorType::Auth, ScErrorCode::InvalidAction)), Val::Error(_)));
}

#[test]
fn decimal_text() {
    let mut s = String::from("n=");
    soroban_env_host::report::append_decimal(&mut s, 0);
    soroban_env_host::report::append_decimal(&mut s, 1907);
    assert_eq!(s, "n=01907");
}

#[test]
fn map_err_without_diagnostics_leaves_the_log() {
    let mut host = Host::new(true);
    host.err_arith_overflow();
    assert_eq!(host.get_events()[0].msg, "arithmetic overflow");
    host.set_debug(false);
    let bad: Result<(), Error> = Err(e(ScErrorType::Value, ScErrorCode::ArithDomain));
    assert!(host.map_err(bad).is_err());
    assert_eq!(host.get_events().len(), 1);
}
