use stellar_canary::soroban::{
    build_invoke_transaction_envelope, BuilderError, InvocationSpec, ScValInput, NO_MEMO_XDR,
    NO_PRECONDITIONS_XDR, TRANSACTION_EXT_V0_XDR,
};
use stellar_strkey::ed25519::PublicKey as StrkeyPublicKey;
use stellar_strkey::Contract as StrkeyContract;
use stellar_xdr::{
    ContractId, HostFunction, Limits, Memo, MuxedAccount, OperationBody, Preconditions, ReadXdr,
    ScAddress, ScVal, TransactionEnvelope, TransactionExt, Uint256,
};

/// A well-formed but arbitrary account/contract pair, encoded from all-zero
/// payload bytes purely to exercise strkey decoding.
fn spec() -> InvocationSpec {
    let source_account = StrkeyPublicKey([0u8; 32]).to_string();
    let contract_id = StrkeyContract([0u8; 32]).to_string();
    InvocationSpec {
        source_account: source_account.to_string(),
        contract_id: contract_id.to_string(),
        function_name: "hello".to_string(),
        args: vec![ScValInput::Symbol("world".to_string())],
        sequence_number: 1,
    }
}

#[test]
fn builds_a_valid_base64_envelope() {
    let base64 = build_invoke_transaction_envelope(&spec()).expect("builds");
    assert!(!base64.is_empty());
    TransactionEnvelope::from_xdr_base64(&base64, Limits::none()).expect("the built envelope must be valid XDR");
}

#[test]
fn rejects_an_invalid_source_account() {
    let mut spec = spec();
    spec.source_account = "not-a-strkey".to_string();
    let err = build_invoke_transaction_envelope(&spec).unwrap_err();
    assert!(matches!(err, BuilderError::InvalidSourceAccount { .. }));
}

#[test]
fn rejects_an_invalid_contract_id() {
    let mut spec = spec();
    spec.contract_id = "not-a-strkey".to_string();
    let err = build_invoke_transaction_envelope(&spec).unwrap_err();
    assert!(matches!(err, BuilderError::InvalidContractId { .. }));
}

#[test]
fn supports_scalar_argument_types() {
    let mut spec = spec();
    spec.args = vec![
        ScValInput::Bool(true),
        ScValInput::U32(1),
        ScValInput::I32(-1),
        ScValInput::U64(2),
        ScValInput::I64(-2),
        ScValInput::String("hi".to_string()),
    ];
    assert!(build_invoke_transaction_envelope(&spec).is_ok());
}

#[test]
fn the_envelope_carries_the_invocation_unsigned() {
    let base64 = build_invoke_transaction_envelope(&spec()).unwrap();
    let envelope = TransactionEnvelope::from_xdr_base64(&base64, Limits::none()).unwrap();
    match envelope {
        TransactionEnvelope::Tx(v1) => {
            assert!(v1.signatures.is_empty());
            assert_eq!(v1.tx.fee, 100);
            assert_eq!(v1.tx.seq_num.0, 1);
            assert_eq!(v1.tx.operations.len(), 1);
            match &v1.tx.operations[0].body {
                OperationBody::InvokeHostFunction(op) => match &op.host_function {
                    HostFunction::InvokeContract(args) => {
                        assert_eq!(args.function_name.0.to_vec(), b"hello".to_vec());
                        assert_eq!(args.args.len(), 1);
                        assert!(matches!(args.args[0], ScVal::Symbol(_)));
                    }
                    other => panic!("unexpected host function {other:?}"),
                },
                other => panic!("unexpected operation {other:?}"),
            }
        }
        other => panic!("unexpected envelope {other:?}"),
    }
}

#[test]
fn a_function_name_over_32_bytes_is_rejected() {
    let mut spec = spec();
    spec.function_name = "a".repeat(33);
    let err = build_invoke_transaction_envelope(&spec).unwrap_err();
    assert!(matches!(err, BuilderError::InvalidFunctionName { .. }));
    assert_eq!(
        err.message(),
        format!("invalid function name {:?}: xdr value max length exceeded", "a".repeat(33))
    );
    spec.function_name = "a".repeat(32);
    assert!(build_invoke_transaction_envelope(&spec).is_ok());
}

#[test]
fn a_symbol_argument_over_32_bytes_is_rejected() {
    let mut spec = spec();
    spec.args = vec![ScValInput::U32(7), ScValInput::Symbol("s".repeat(33))];
    let err = build_invoke_transaction_envelope(&spec).unwrap_err();
    assert_eq!(err, BuilderError::InvalidArgument("xdr value max length exceeded".to_string()));
    assert_eq!(err.message(), "invalid argument: xdr value max length exceeded");
}

#[test]
fn the_source_account_is_checked_before_the_contract_id() {
    let mut spec = spec();
    spec.source_account = "bad".to_string();
    spec.contract_id = "also bad".to_string();
    match build_invoke_transaction_envelope(&spec).unwrap_err() {
        BuilderError::InvalidSourceAccount { account, reason } => {
            assert_eq!(account, "bad");
            assert!(!reason.is_empty());
        }
        other => panic!("unexpected error {other:?}"),
    }
}

#[test]
fn a_contract_strkey_is_not_an_account_strkey() {
    let mut spec = spec();
    spec.source_account = spec.contract_id.clone();
    let err = build_invoke_transaction_envelope(&spec).unwrap_err();
    assert!(matches!(err, BuilderError::InvalidSourceAccount { .. }));
    assert!(err.message().starts_with("invalid source account strkey \"C"));
}

#[test]
fn the_envelope_holds_the_decoded_account_and_contract_keys() {
    let spec = InvocationSpec {
        source_account: StrkeyPublicKey([1u8; 32]).to_string().to_string(),
        contract_id: StrkeyContract([2u8; 32]).to_string().to_string(),
        function_name: "transfer".to_string(),
        args: vec![ScValInput::U64(5), ScValInput::Bool(false)],
        sequence_number: 42,
    };
    let base64 = build_invoke_transaction_envelope(&spec).unwrap();
    let TransactionEnvelope::Tx(v1) = TransactionEnvelope::from_xdr_base64(&base64, Limits::none()).unwrap() else {
        panic!("expected a v1 envelope");
    };
    assert_eq!(v1.tx.source_account, MuxedAccount::Ed25519(Uint256([1u8; 32])));
    assert_eq!(v1.tx.seq_num.0, 42);
    assert_eq!(v1.tx.fee, 100);
    assert_eq!(v1.tx.cond, Preconditions::None);
    assert_eq!(v1.tx.memo, Memo::None);
    assert_eq!(v1.tx.ext, TransactionExt::V0);
    assert!(v1.signatures.is_empty());
    assert_eq!(v1.tx.operations.len(), 1);
    assert_eq!(v1.tx.operations[0].source_account, None);
    let OperationBody::InvokeHostFunction(op) = &v1.tx.operations[0].body else {
        panic!("expected an InvokeHostFunction operation");
    };
    let HostFunction::InvokeContract(args) = &op.host_function else {
        panic!("expected a contract invocation");
    };
    assert_eq!(args.contract_address, ScAddress::Contract(ContractId(stellar_xdr::Hash([2u8; 32]))));
    assert_eq!(args.function_name.0.to_vec(), b"transfer".to_vec());
    assert_eq!(args.args.to_vec(), vec![ScVal::U64(5), ScVal::Bool(false)]);
    assert!(op.auth.is_empty());
}

#[test]
fn the_fixed_transaction_parts_decode_to_their_plain_values() {
    assert_eq!(Preconditions::from_xdr_base64(NO_PRECONDITIONS_XDR, Limits::none()).unwrap(), Preconditions::None);
    assert_eq!(Memo::from_xdr_base64(NO_MEMO_XDR, Limits::none()).unwrap(), Memo::None);
    assert_eq!(TransactionExt::from_xdr_base64(TRANSACTION_EXT_V0_XDR, Limits::none()).unwrap(), TransactionExt::V0);
}
