//! Building an unsigned Soroban `InvokeHostFunction` transaction envelope.
//!
//! Nothing here signs anything or needs a secret key: Stellar RPC's
//! `simulateTransaction` only needs an unsigned envelope, and the project
//! never submits a transaction. The envelope itself is assembled and
//! encoded by the official `stellar-xdr` crate; account and contract
//! strkeys are decoded by `stellar-strkey`.

use stellar_xdr::{
    ContractId, DecoratedSignature, Error as XdrError, HostFunction, InvokeContractArgs,
    InvokeHostFunctionOp, Limits, Memo, MuxedAccount, Operation, OperationBody, Preconditions,
    ReadXdr, ScAddress, ScString, ScSymbol, ScVal, SequenceNumber, SorobanAuthorizationEntry,
    StringM, Transaction, TransactionEnvelope, TransactionExt, TransactionV1Envelope, Uint256,
    WriteXdr,
};
use vstd::prelude::*;
use vstd::string::StringSliceAdditionalSpecFns;

use crate::rpc_client::{debug_quoted, debug_text};
use crate::text::owned;

verus! {

broadcast use vstd::string::group_string_axioms;

/// Why an invocation could not be turned into an envelope.
#[derive(Debug, Clone, PartialEq, Eq)]
pub enum BuilderError {
    InvalidSourceAccount { account: String, reason: String },
    InvalidContractId { contract: String, reason: String },
    InvalidFunctionName { name: String, reason: String },
    InvalidArgument(String),
    Encode(String),
}

/// The text of a builder error, as it is displayed.
pub open spec fn builder_error_text(e: BuilderError) -> Seq<char> {
    match e {
        BuilderError::InvalidSourceAccount { account, reason } => "invalid source account strkey "@
            + debug_text(account@) + ": "@ + reason@,
        BuilderError::InvalidContractId { contract, reason } => "invalid contract strkey "@ + debug_text(
            contract@,
        ) + ": "@ + reason@,
        BuilderError::InvalidFunctionName { name, reason } => "invalid function name "@ + debug_text(
            name@,
        ) + ": "@ + reason@,
        BuilderError::InvalidArgument(m) => "invalid argument: "@ + m@,
        BuilderError::Encode(m) => "failed to encode transaction envelope: "@ + m@,
    }
}

fn labelled(label: &str, subject: &str, reason: &str) -> (s: String)
    ensures
        s@ == label@ + debug_text(subject@) + ": "@ + reason@,
{
    let mut s = owned(label);
    let q = debug_quoted(subject);
    s.append(q.as_str());
    s.append(": ");
    s.append(reason);
    s
}

impl BuilderError {
    /// The error's text, as it is displayed.
    pub fn message(&self) -> (s: String)
        ensures
            s@ == builder_error_text(*self),
    {
        match self {
            BuilderError::InvalidSourceAccount { account, reason } => labelled(
                "invalid source account strkey ",
                account.as_str(),
                reason.as_str(),
            ),
            BuilderError::InvalidContractId { contract, reason } => labelled(
                "invalid contract strkey ",
                contract.as_str(),
                reason.as_str(),
            ),
            BuilderError::InvalidFunctionName { name, reason } => labelled(
                "invalid function name ",
                name.as_str(),
                reason.as_str(),
            ),
            BuilderError::InvalidArgument(m) => {
                let mut s = owned("invalid argument: ");
                s.append(m.as_str());
                s
            },
            BuilderError::Encode(m) => {
                let mut s = owned("failed to encode transaction envelope: ");
                s.append(m.as_str());
                s
            },
        }
    }
}

/// A Soroban value a fixture can pass as a contract function argument:
/// a small set of scalar types, each mapping to the `ScVal` variant of
/// the same name.
#[derive(Debug, Clone, PartialEq)]
pub enum ScValInput {
    Bool(bool),
    U32(u32),
    I32(i32),
    U64(u64),
    I64(i64),
    /// An `ScVal::Symbol`; XDR limits a symbol to 32 bytes.
    Symbol(String),
    String(String),
}

/// Everything needed to build an unsigned `InvokeHostFunction` transaction.
#[derive(Debug, Clone, PartialEq)]
pub struct InvocationSpec {
    pub source_account: String,
    pub contract_id: String,
    pub function_name: String,
    pub args: Vec<ScValInput>,
    pub sequence_number: i64,
}

/// The fee, in stroops, the built transaction offers.
pub const INVOKE_FEE: u32 = 100;

/// The depth limit every XDR value here is decoded and encoded with.
pub const ENVELOPE_DEPTH_LIMIT: u32 = crate::xdr::XDR_DEPTH_LIMIT;

/// What `stellar-strkey` decodes an account strkey (`G...`) to: its
/// 32-byte ed25519 public key, or the decoding error's text.
pub uninterp spec fn account_strkey(text: Seq<char>) -> Result<Seq<u8>, Seq<char>>;

/// What `stellar-strkey` decodes a contract strkey (`C...`) to: its
/// 32-byte contract hash, or the decoding error's text.
pub uninterp spec fn contract_strkey(text: Seq<char>) -> Result<Seq<u8>, Seq<char>>;

/// The text of `stellar-xdr`'s `Error::LengthExceedsMax`.
pub open spec fn length_exceeded_text() -> Seq<char> {
    "xdr value max length exceeded"@
}

/// Whether text fits in an XDR string of at most `max` bytes.
pub open spec fn fits_bytes(s: Seq<char>, max: int) -> bool {
    vstd::utf8::encode_utf8(s).len() <= max
}

/// Whether an argument can be expressed as an `ScVal`: a symbol holds at
/// most 32 bytes, a string at most `u32::MAX` bytes.
pub open spec fn arg_fits(a: ScValInput) -> bool {
    match a {
        ScValInput::Symbol(s) => fits_bytes(s@, 32),
        ScValInput::String(s) => fits_bytes(s@, u32::MAX as int),
        _ => true,
    }
}

/// `stellar_strkey::ed25519::PublicKey::from_string`, keeping the key's
/// bytes and the error's text. The contract claims only that the outcome
/// is the named function of the text.
#[verifier::external_body]
fn account_key(text: &str) -> (r: Result<[u8; 32], String>)
    ensures
        match r {
            Ok(b) => account_strkey(text@) == Ok::<Seq<u8>, Seq<char>>(b@),
            Err(e) => account_strkey(text@) == Err::<Seq<u8>, Seq<char>>(e@),
        },
{
    stellar_strkey::ed25519::PublicKey::from_string(text).map(|k| k.0).map_err(|e| e.to_string())
}

/// `stellar_strkey::Contract::from_string`, keeping the contract's bytes
/// and the error's text. The contract claims only that the outcome is the
/// named function of the text.
#[verifier::external_body]
fn contract_key(text: &str) -> (r: Result<[u8; 32], String>)
    ensures
        match r {
            Ok(b) => contract_strkey(text@) == Ok::<Seq<u8>, Seq<char>>(b@),
            Err(e) => contract_strkey(text@) == Err::<Seq<u8>, Seq<char>>(e@),
        },
{
    stellar_strkey::Contract::from_string(text).map(|c| c.0).map_err(|e| e.to_string())
}

/// `StringM<32>::try_from(&str)`, the conversion a symbol goes through:
/// it succeeds exactly when the text's UTF-8 form has at most 32 bytes,
/// and fails with `LengthExceedsMax`.
#[verifier::external_body]
fn check_symbol(text: &str) -> (r: Result<(), String>)
    ensures
        r is Ok <==> fits_bytes(text@, 32),
        r matches Err(e) ==> e@ == length_exceeded_text(),
{
    StringM::<32>::try_from(text).map(|_| ()).map_err(|e| e.to_string())
}

/// The base64 XDR text `stellar-xdr` encodes (with no limits) the `ScVal`
/// of the same variant as an argument that fits its variant, or the
/// encoder's message.
pub uninterp spec fn sc_val_xdr(input: ScValInput) -> Result<Seq<char>, Seq<char>>;

/// An argument made the `ScVal` of the same variant (a symbol or string
/// through `StringM::try_from(&str)`) and encoded by `to_xdr_base64` with
/// `Limits::none()`. A conversion failure is tagged `true` and is
/// `LengthExceedsMax`, exactly when the argument does not fit; an encoder
/// failure is tagged `false`. The encoded text is the named function of
/// the argument.
#[verifier::external_body]
fn sc_val_text(input: &ScValInput) -> (r: Result<String, (bool, String)>)
    ensures
        match r {
            Ok(t) => arg_fits(*input) && sc_val_xdr(*input) == Ok::<Seq<char>, Seq<char>>(t@),
            Err((true, m)) => !arg_fits(*input) && m@ == length_exceeded_text(),
            Err((false, m)) => arg_fits(*input) && sc_val_xdr(*input) == Err::<Seq<char>, Seq<char>>(m@),
        },
{
    let too_long = |e: XdrError| (true, e.to_string());
    let value = match input {
        ScValInput::Bool(b) => ScVal::Bool(*b),
        ScValInput::U32(v) => ScVal::U32(*v),
        ScValInput::I32(v) => ScVal::I32(*v),
        ScValInput::U64(v) => ScVal::U64(*v),
        ScValInput::I64(v) => ScVal::I64(*v),
        ScValInput::Symbol(s) => ScVal::Symbol(ScSymbol(s.as_str().try_into().map_err(too_long)?)),
        ScValInput::String(s) => ScVal::String(ScString(s.as_str().try_into().map_err(too_long)?)),
    };
    value.to_xdr_base64(Limits::none()).map_err(|e| (false, e.to_string()))
}

/// What `stellar-xdr` gives for the `InvokeContractArgs` calling
/// `function_name` on the contract with these hash bytes with the
/// arguments whose XDR texts are given, in order, encoded with this depth
/// limit: its base64 XDR text, or the first error's message.
pub uninterp spec fn invoke_args_xdr(contract: Seq<u8>, function_name: Seq<char>, args: Seq<Seq<char>>, depth: u32) -> Result<Seq<char>, Seq<char>>;

/// Decodes each argument text as an `ScVal`, makes `InvokeContractArgs`
/// (`ScAddress::Contract` of the hash, the function name as an
/// `ScSymbol`, the arguments as a `VecM`) and encodes it, all with
/// `Limits::depth(depth)`. The outcome is the named function of the
/// arguments.
#[verifier::external_body]
fn invoke_args_text(contract: [u8; 32], function_name: &str, args: &Vec<String>, depth: u32) -> (r: Result<String, String>)
    requires
        depth <= ENVELOPE_DEPTH_LIMIT,
    ensures
        xdr_text_view(r) == invoke_args_xdr(contract@, function_name@, string_views(args@), depth),
{
    let (l, err) = (Limits::depth(depth), |e: XdrError| e.to_string());
    let args: Vec<ScVal> = args.iter().map(|a| ScVal::from_xdr_base64(a, l.clone())).collect::<Result<_, _>>().map_err(err)?;
    let function_name = ScSymbol(function_name.try_into().map_err(err)?);
    let contract_address = ScAddress::Contract(ContractId(stellar_xdr::Hash(contract)));
    InvokeContractArgs { contract_address, function_name, args: args.try_into().map_err(err)? }.to_xdr_base64(l).map_err(err)
}

/// What `stellar-xdr` gives for the `InvokeHostFunction` operation
/// invoking the contract call with this XDR text, with this source account
/// (the ed25519 key's bytes, or none) and these authorization entries
/// (XDR texts, in order), encoded with this depth limit: its base64 XDR
/// text, or the first error's message.
pub uninterp spec fn operation_xdr(source_account: Option<Seq<u8>>, invoke_args: Seq<char>, auth: Seq<Seq<char>>, depth: u32) -> Result<Seq<char>, Seq<char>>;

/// Decodes the contract call and each authorization entry, makes the
/// `Operation` (`OperationBody::InvokeHostFunction` of
/// `HostFunction::InvokeContract`, the source account as
/// `MuxedAccount::Ed25519` when given) and encodes it, all with
/// `Limits::depth(depth)`. The outcome is the named function of the
/// arguments.
#[verifier::external_body]
fn operation_text(source_account: Option<[u8; 32]>, invoke_args: &str, auth: &Vec<String>, depth: u32) -> (r: Result<String, String>)
    requires
        depth <= ENVELOPE_DEPTH_LIMIT,
    ensures
        xdr_text_view(r) == operation_xdr(key_view(source_account), invoke_args@, string_views(auth@), depth),
{
    let (l, err) = (Limits::depth(depth), |e: XdrError| e.to_string());
    let invoke = InvokeContractArgs::from_xdr_base64(invoke_args, l.clone()).map_err(err)?;
    let auth: Vec<SorobanAuthorizationEntry> = auth.iter().map(|a| SorobanAuthorizationEntry::from_xdr_base64(a, l.clone())).collect::<Result<_, _>>().map_err(err)?;
    let host_function = HostFunction::InvokeContract(invoke);
    let body = OperationBody::InvokeHostFunction(InvokeHostFunctionOp { host_function, auth: auth.try_into().map_err(err)? });
    let source_account = source_account.map(|k| MuxedAccount::Ed25519(Uint256(k)));
    Operation { source_account, body }.to_xdr_base64(l).map_err(err)
}

/// The base64 XDR of `Preconditions::None`: the union's discriminant 0,
/// with no arm.
pub const NO_PRECONDITIONS_XDR: &'static str = "AAAAAA==";

/// The base64 XDR of `Memo::None`: the union's discriminant 0, with no arm.
pub const NO_MEMO_XDR: &'static str = "AAAAAA==";

/// The base64 XDR of `TransactionExt::V0`: the union's discriminant 0,
/// with no arm.
pub const TRANSACTION_EXT_V0_XDR: &'static str = "AAAAAA==";

/// What `stellar-xdr` gives for the `Transaction` from the ed25519 account
/// with these key bytes, with this fee and sequence number, these
/// preconditions, this memo, the one operation and this extension (each
/// given as XDR text), encoded with this depth limit: its base64 XDR text,
/// or the first error's message.
pub uninterp spec fn transaction_xdr(
    source: Seq<u8>,
    fee: u32,
    sequence_number: i64,
    cond: Seq<char>,
    memo: Seq<char>,
    operation: Seq<char>,
    ext: Seq<char>,
    depth: u32,
) -> Result<Seq<char>, Seq<char>>;

/// Decodes the preconditions, the memo, the operation and the extension,
/// makes the `Transaction` holding that one operation and encodes it, all with
/// `Limits::depth(depth)`. The outcome is the named function of the
/// arguments.
#[verifier::external_body]
fn transaction_text(source: [u8; 32], fee: u32, seq: i64, cond: &str, memo: &str, op: &str, ext: &str, depth: u32) -> (r: Result<String, String>)
    requires
        depth <= ENVELOPE_DEPTH_LIMIT,
    ensures
        xdr_text_view(r) == transaction_xdr(source@, fee, seq, cond@, memo@, op@, ext@, depth),
{
    let (l, err) = (Limits::depth(depth), |e: XdrError| e.to_string());
    let cond = Preconditions::from_xdr_base64(cond, l.clone()).map_err(err)?;
    let memo = Memo::from_xdr_base64(memo, l.clone()).map_err(err)?;
    let ext = TransactionExt::from_xdr_base64(ext, l.clone()).map_err(err)?;
    let operations = vec![Operation::from_xdr_base64(op, l.clone()).map_err(err)?].try_into().map_err(err)?;
    Transaction { source_account: MuxedAccount::Ed25519(Uint256(source)), fee, seq_num: SequenceNumber(seq), cond, memo, operations, ext }.to_xdr_base64(l).map_err(err)
}

/// What `stellar-xdr` gives for the `TransactionEnvelope::Tx` holding the
/// transaction with this XDR text and the signatures with these XDR texts
/// in order, encoded with this depth limit: its base64 XDR text, or the
/// first error's message.
pub uninterp spec fn envelope_xdr(transaction: Seq<char>, signatures: Seq<Seq<char>>, depth: u32) -> Result<Seq<char>, Seq<char>>;

/// Decodes the transaction and each `DecoratedSignature`, makes the
/// `TransactionEnvelope::Tx` (a `TransactionV1Envelope`) and encodes it,
/// all with `Limits::depth(depth)`. The outcome is the named function of
/// the arguments.
#[verifier::external_body]
fn envelope_text(transaction: &str, signatures: &Vec<String>, depth: u32) -> (r: Result<String, String>)
    requires
        depth <= ENVELOPE_DEPTH_LIMIT,
    ensures
        xdr_text_view(r) == envelope_xdr(transaction@, string_views(signatures@), depth),
{
    let (l, err) = (Limits::depth(depth), |e: XdrError| e.to_string());
    let tx = Transaction::from_xdr_base64(transaction, l.clone()).map_err(err)?;
    let signatures: Vec<DecoratedSignature> = signatures.iter().map(|g| DecoratedSignature::from_xdr_base64(g, l.clone())).collect::<Result<_, _>>().map_err(err)?;
    TransactionEnvelope::Tx(TransactionV1Envelope { tx, signatures: signatures.try_into().map_err(err)? }).to_xdr_base64(l).map_err(err)
}

/// The view of an encoding outcome.
pub open spec fn xdr_text_view(r: Result<String, String>) -> Result<Seq<char>, Seq<char>> {
    match r {
        Ok(t) => Ok(t@),
        Err(m) => Err(m@),
    }
}

/// The views of a sequence of strings.
pub open spec fn string_views(s: Seq<String>) -> Seq<Seq<char>> {
    s.map_values(|x: String| x@)
}

/// The view of an optional key.
pub open spec fn key_view(k: Option<[u8; 32]>) -> Option<Seq<u8>> {
    match k {
        Some(b) => Some(b@),
        None => None,
    }
}

/// The XDR texts of the arguments, in order, or the first failure: for an
/// argument that does not fit its variant, `(true, message)`; for one the
/// encoder refuses, `(false, message)`.
pub open spec fn args_xdr(args: Seq<ScValInput>) -> Result<Seq<Seq<char>>, (bool, Seq<char>)>
    decreases args.len(),
{
    if args.len() == 0 {
        Ok(Seq::empty())
    } else {
        match args_xdr(args.drop_last()) {
            Err(e) => Err(e),
            Ok(texts) => {
                let a = args.last();
                if !arg_fits(a) {
                    Err((true, length_exceeded_text()))
                } else {
                    match sc_val_xdr(a) {
                        Ok(t) => Ok(texts.push(t)),
                        Err(m) => Err((false, m)),
                    }
                }
            },
        }
    }
}

/// The unsigned envelope invoking `function_name` on the contract with
/// hash bytes `contract`, from the account with key bytes `source`, as
/// base64 XDR; or the first failure, tagged `true` for an argument
/// problem and `false` for an encoding problem. The invocation has no
/// operation source account and no authorization entries; the transaction
/// offers [`INVOKE_FEE`], has no preconditions, no memo and extension
/// `V0`; and the envelope carries no signatures.
pub open spec fn unsigned_invocation(
    source: Seq<u8>,
    contract: Seq<u8>,
    function_name: Seq<char>,
    args: Seq<ScValInput>,
    sequence_number: i64,
) -> Result<Seq<char>, (bool, Seq<char>)> {
    let d = ENVELOPE_DEPTH_LIMIT;
    match args_xdr(args) {
        Err(e) => Err(e),
        Ok(texts) => match invoke_args_xdr(contract, function_name, texts, d) {
            Err(m) => Err((true, m)),
            Ok(call) => match operation_xdr(None, call, Seq::empty(), d) {
                Err(m) => Err((false, m)),
                Ok(op) => match transaction_xdr(
                    source,
                    INVOKE_FEE,
                    sequence_number,
                    NO_PRECONDITIONS_XDR@,
                    NO_MEMO_XDR@,
                    op,
                    TRANSACTION_EXT_V0_XDR@,
                    d,
                ) {
                    Err(m) => Err((false, m)),
                    Ok(tx) => match envelope_xdr(tx, Seq::empty(), d) {
                        Err(m) => Err((false, m)),
                        Ok(env) => Ok(env),
                    },
                },
            },
        },
    }
}

/// Builds an unsigned `TransactionEnvelope` invoking a Soroban contract
/// function, encoded as base64 XDR ready to pass to
/// `simulateTransaction`. The checks come in this order: the source
/// account, the contract id, the function name, each argument in turn;
/// then the envelope is assembled. Whatever the input, the envelope has
/// no signatures, and the operation no source account and no
/// authorization entries.
pub fn build_invoke_transaction_envelope(spec: &InvocationSpec) -> (r: Result<String, BuilderError>)
    ensures
        account_strkey(spec.source_account@) is Err ==> (r matches Err(
            BuilderError::InvalidSourceAccount { account, reason },
        ) && account == spec.source_account && reason@ == account_strkey(spec.source_account@)->Err_0),
        account_strkey(spec.source_account@) is Ok && contract_strkey(spec.contract_id@) is Err ==> (r matches Err(
            BuilderError::InvalidContractId { contract, reason },
        ) && contract == spec.contract_id && reason@ == contract_strkey(spec.contract_id@)->Err_0),
        account_strkey(spec.source_account@) is Ok && contract_strkey(spec.contract_id@) is Ok && !fits_bytes(
            spec.function_name@,
            32,
        ) ==> (r matches Err(BuilderError::InvalidFunctionName { name, reason }) && name == spec.function_name
            && reason@ == length_exceeded_text()),
        account_strkey(spec.source_account@) is Ok && contract_strkey(spec.contract_id@) is Ok && fits_bytes(
            spec.function_name@,
            32,
        ) ==> match unsigned_invocation(
            account_strkey(spec.source_account@)->Ok_0,
            contract_strkey(spec.contract_id@)->Ok_0,
            spec.function_name@,
            spec.args@,
            spec.sequence_number,
        ) {
            Ok(envelope) => r matches Ok(s) && s@ == envelope,
            Err((true, m)) => r matches Err(BuilderError::InvalidArgument(e)) && e@ == m,
            Err((false, m)) => r matches Err(BuilderError::Encode(e)) && e@ == m,
        },
{
    let source = match account_key(spec.source_account.as_str()) {
        Ok(b) => b,
        Err(reason) => {
            return Err(BuilderError::InvalidSourceAccount { account: spec.source_account.clone(), reason });
        },
    };
    let contract = match contract_key(spec.contract_id.as_str()) {
        Ok(b) => b,
        Err(reason) => {
            return Err(BuilderError::InvalidContractId { contract: spec.contract_id.clone(), reason });
        },
    };
    match check_symbol(spec.function_name.as_str()) {
        Ok(()) => {},
        Err(reason) => {
            return Err(BuilderError::InvalidFunctionName { name: spec.function_name.clone(), reason });
        },
    }
    let ghost all = spec.args@;
    let mut texts: Vec<String> = Vec::new();
    let mut i: usize = 0;
    assert(all.take(0) =~= Seq::<ScValInput>::empty());
    assert(string_views(texts@) =~= Seq::<Seq<char>>::empty());
    while i < spec.args.len()
        invariant
            all == spec.args@,
            i <= all.len(),
            account_strkey(spec.source_account@) == Ok::<Seq<u8>, Seq<char>>(source@),
            contract_strkey(spec.contract_id@) == Ok::<Seq<u8>, Seq<char>>(contract@),
            fits_bytes(spec.function_name@, 32),
            args_xdr(all.take(i as int)) == Ok::<Seq<Seq<char>>, (bool, Seq<char>)>(string_views(texts@)),
        decreases all.len() - i,
    {
        proof {
            assert(all.take(i + 1).drop_last() =~= all.take(i as int));
            assert(all.take(i + 1).last() == all[i as int]);
        }
        match sc_val_text(&spec.args[i]) {
            Ok(t) => {
                let ghost before = texts@;
                let ghost text = t@;
                texts.push(t);
                proof {
                    assert(texts@.drop_last() =~= before);
                    assert(string_views(texts@) =~= string_views(before).push(text));
                }
            },
            Err((fits_failure, m)) => {
                proof {
                    lemma_args_xdr_keeps_first_failure(all, i as int + 1);
                }
                if fits_failure {
                    return Err(BuilderError::InvalidArgument(m));
                } else {
                    return Err(BuilderError::Encode(m));
                }
            },
        }
        i = i + 1;
    }
    assert(all.take(i as int) =~= all);
    let call = match invoke_args_text(contract, spec.function_name.as_str(), &texts, ENVELOPE_DEPTH_LIMIT) {
        Ok(t) => t,
        Err(m) => {
            return Err(BuilderError::InvalidArgument(m));
        },
    };
    let no_auth: Vec<String> = Vec::new();
    assert(string_views(no_auth@) =~= Seq::<Seq<char>>::empty());
    let operation = match operation_text(None, call.as_str(), &no_auth, ENVELOPE_DEPTH_LIMIT) {
        Ok(t) => t,
        Err(m) => {
            return Err(BuilderError::Encode(m));
        },
    };
    let transaction = match transaction_text(
        source,
        INVOKE_FEE,
        spec.sequence_number,
        NO_PRECONDITIONS_XDR,
        NO_MEMO_XDR,
        operation.as_str(),
        TRANSACTION_EXT_V0_XDR,
        ENVELOPE_DEPTH_LIMIT,
    ) {
        Ok(t) => t,
        Err(m) => {
            return Err(BuilderError::Encode(m));
        },
    };
    let no_signatures: Vec<String> = Vec::new();
    assert(string_views(no_signatures@) =~= Seq::<Seq<char>>::empty());
    match envelope_text(transaction.as_str(), &no_signatures, ENVELOPE_DEPTH_LIMIT) {
        Ok(s) => Ok(s),
        Err(m) => Err(BuilderError::Encode(m)),
    }
}

/// Once a prefix of the arguments fails, every longer prefix fails the
/// same way.
proof fn lemma_args_xdr_keeps_first_failure(args: Seq<ScValInput>, k: int)
    requires
        0 <= k <= args.len(),
        args_xdr(args.take(k)) is Err,
    ensures
        args_xdr(args) == args_xdr(args.take(k)),
    decreases args.len() - k,
{
    if k < args.len() {
        assert(args.take(k + 1).drop_last() =~= args.take(k));
        lemma_args_xdr_keeps_first_failure(args, k + 1);
    } else {
        assert(args.take(k) =~= args);
    }
}

} // verus!
