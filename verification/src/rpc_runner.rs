//! The RPC compatibility runner's logic: reading an RPC fixture's body,
//! checking a response against the fixture's field assertions, and
//! turning the outcome into a result.
//!
//! A fixture declares which fields of the response must be present,
//! absent, equal to a value or of a JSON type; a field it does not
//! mention is ignored, so an unrelated new optional field can never fail
//! a check.

use vstd::prelude::*;

use crate::json_value::{first_member, has_member_named, lemma_member_finds_the_first_named_member, member, JsonShape, JsonValue};
use crate::model::{CompatibilityResult, FixtureMetadata, ProtocolVersion, Status, Surface};
use crate::rpc_client::{debug_quoted, debug_text, rpc_error_text, RpcError};
use crate::text::{decimal, owned, push_decimal, str_eq};

verus! {

/// A fixture body that cannot be used.
#[derive(Debug, Clone, PartialEq, Eq)]
pub enum RpcFixtureError {
    InvalidFixtureBody { source_path: std::path::PathBuf, reason: String },
}

/// Which RPC method a fixture exercises.
#[derive(Debug, Clone, Copy, PartialEq, Eq, Structural)]
pub enum RpcMethod {
    GetNetwork,
    GetLatestLedger,
}

/// The method's name as `Debug` writes it.
pub open spec fn method_debug(m: RpcMethod) -> Seq<char> {
    match m {
        RpcMethod::GetNetwork => "GetNetwork"@,
        RpcMethod::GetLatestLedger => "GetLatestLedger"@,
    }
}

/// The method a fixture names, or why the name is not supported.
pub open spec fn method_named(s: Seq<char>) -> Result<RpcMethod, Seq<char>> {
    if s == "get-network"@ {
        Ok(RpcMethod::GetNetwork)
    } else if s == "get-latest-ledger"@ {
        Ok(RpcMethod::GetLatestLedger)
    } else {
        Err(
            "unsupported rpc method "@ + debug_text(s)
                + ": supported methods are: \"get-network\", \"get-latest-ledger\""@,
        )
    }
}

impl RpcMethod {
    pub fn from_str(s: &str) -> (r: Result<RpcMethod, String>)
        ensures
            match r {
                Ok(m) => method_named(s@) == Ok::<RpcMethod, Seq<char>>(m),
                Err(e) => method_named(s@) == Err::<RpcMethod, Seq<char>>(e@),
            },
    {
        if str_eq(s, "get-network") {
            Ok(RpcMethod::GetNetwork)
        } else if str_eq(s, "get-latest-ledger") {
            Ok(RpcMethod::GetLatestLedger)
        } else {
            let mut e = owned("unsupported rpc method ");
            let q = debug_quoted(s);
            e.append(q.as_str());
            e.append(": supported methods are: \"get-network\", \"get-latest-ledger\"");
            Err(e)
        }
    }

    /// The method's name as `Debug` writes it.
    pub fn debug_name(&self) -> (s: &'static str)
        ensures
            s@ == method_debug(*self),
    {
        match self {
            RpcMethod::GetNetwork => "GetNetwork",
            RpcMethod::GetLatestLedger => "GetLatestLedger",
        }
    }
}

/// The expected JSON type of a field, for `field-type` assertions.
#[derive(Debug, Clone, Copy, PartialEq, Eq, Structural)]
pub enum JsonType {
    String,
    Number,
    Bool,
    Object,
    Array,
    Null,
}

/// The type's name as `Debug` writes it.
pub open spec fn json_type_debug(t: JsonType) -> Seq<char> {
    match t {
        JsonType::String => "String"@,
        JsonType::Number => "Number"@,
        JsonType::Bool => "Bool"@,
        JsonType::Object => "Object"@,
        JsonType::Array => "Array"@,
        JsonType::Null => "Null"@,
    }
}

/// Whether a value is of a JSON type.
pub open spec fn has_type(t: JsonType, v: JsonValue) -> bool {
    match t {
        JsonType::String => v.shape is String,
        JsonType::Number => v.shape is Number,
        JsonType::Bool => v.shape is Bool,
        JsonType::Object => v.shape is Object,
        JsonType::Array => v.shape is Array,
        JsonType::Null => v.shape is Null,
    }
}

/// The JSON type a fixture names, or why the name is not supported.
pub open spec fn json_type_named(s: Seq<char>) -> Result<JsonType, Seq<char>> {
    if s == "string"@ {
        Ok(JsonType::String)
    } else if s == "number"@ {
        Ok(JsonType::Number)
    } else if s == "bool"@ {
        Ok(JsonType::Bool)
    } else if s == "object"@ {
        Ok(JsonType::Object)
    } else if s == "array"@ {
        Ok(JsonType::Array)
    } else if s == "null"@ {
        Ok(JsonType::Null)
    } else {
        Err("unsupported json type "@ + debug_text(s))
    }
}

impl JsonType {
    pub fn matches(self, value: &JsonValue) -> (b: bool)
        ensures
            b == has_type(self, *value),
    {
        match (self, &value.shape) {
            (JsonType::String, JsonShape::String) => true,
            (JsonType::Number, JsonShape::Number) => true,
            (JsonType::Bool, JsonShape::Bool) => true,
            (JsonType::Object, JsonShape::Object(_)) => true,
            (JsonType::Array, JsonShape::Array) => true,
            (JsonType::Null, JsonShape::Null) => true,
            _ => false,
        }
    }

    pub fn from_str(s: &str) -> (r: Result<JsonType, String>)
        ensures
            match r {
                Ok(t) => json_type_named(s@) == Ok::<JsonType, Seq<char>>(t),
                Err(e) => json_type_named(s@) == Err::<JsonType, Seq<char>>(e@),
            },
    {
        if str_eq(s, "string") {
            Ok(JsonType::String)
        } else if str_eq(s, "number") {
            Ok(JsonType::Number)
        } else if str_eq(s, "bool") {
            Ok(JsonType::Bool)
        } else if str_eq(s, "object") {
            Ok(JsonType::Object)
        } else if str_eq(s, "array") {
            Ok(JsonType::Array)
        } else if str_eq(s, "null") {
            Ok(JsonType::Null)
        } else {
            let mut e = owned("unsupported json type ");
            let q = debug_quoted(s);
            e.append(q.as_str());
            Err(e)
        }
    }

    pub fn debug_name(&self) -> (s: &'static str)
        ensures
            s@ == json_type_debug(*self),
    {
        match self {
            JsonType::String => "String",
            JsonType::Number => "Number",
            JsonType::Bool => "Bool",
            JsonType::Object => "Object",
            JsonType::Array => "Array",
            JsonType::Null => "Null",
        }
    }
}

/// One assertion about a field in the RPC response.
#[derive(Debug, PartialEq)]
pub enum FieldAssertion {
    Exists { field: String },
    Absent { field: String },
    Equals { field: String, value: JsonValue },
    TypeIs { field: String, expected: JsonType },
}

/// The field an assertion is about.
pub open spec fn assertion_field(a: FieldAssertion) -> String {
    match a {
        FieldAssertion::Exists { field } => field,
        FieldAssertion::Absent { field } => field,
        FieldAssertion::Equals { field, .. } => field,
        FieldAssertion::TypeIs { field, .. } => field,
    }
}

/// The failure message of an assertion about a field that is missing.
pub open spec fn missing_text(field: Seq<char>) -> Seq<char> {
    "expected field "@ + debug_text(field) + " to be present, but it was missing"@
}

/// Whether an assertion holds of a response, and if not, why: `Ok` when
/// it holds, else the failure message.
pub open spec fn check_outcome(a: FieldAssertion, response: JsonValue) -> Result<(), Seq<char>> {
    let found = member(response, assertion_field(a)@);
    let fd = debug_text(assertion_field(a)@);
    match a {
        FieldAssertion::Exists { .. } => match found {
            Some(_) => Ok(()),
            None => Err(missing_text(assertion_field(a)@)),
        },
        FieldAssertion::Absent { .. } => match found {
            None => Ok(()),
            Some(_) => Err("expected field "@ + fd + " to be absent, but it was present"@),
        },
        FieldAssertion::Equals { value, .. } => match found {
            None => Err("expected field "@ + fd + " to equal "@ + value.text@ + ", but it was missing"@),
            Some(actual) => if actual.text@ == value.text@ {
                Ok(())
            } else {
                Err("expected field "@ + fd + " to equal "@ + value.text@ + ", but found "@ + actual.text@)
            },
        },
        FieldAssertion::TypeIs { expected, .. } => match found {
            None => Err(missing_text(assertion_field(a)@)),
            Some(actual) => if has_type(expected, actual) {
                Ok(())
            } else {
                Err("expected field "@ + fd + " to have type "@ + json_type_debug(expected)
                    + ", but found "@ + actual.text@)
            },
        },
    }
}

impl FieldAssertion {
    pub fn field(&self) -> (f: &str)
        ensures
            f@ == assertion_field(*self)@,
    {
        match self {
            FieldAssertion::Exists { field } => field.as_str(),
            FieldAssertion::Absent { field } => field.as_str(),
            FieldAssertion::Equals { field, .. } => field.as_str(),
            FieldAssertion::TypeIs { field, .. } => field.as_str(),
        }
    }

    /// Checks this assertion against a response object, returning a
    /// human-readable failure reason if it does not hold.
    pub fn check(&self, response: &JsonValue) -> (r: Result<(), String>)
        ensures
            match r {
                Ok(()) => check_outcome(*self, *response) is Ok,
                Err(m) => check_outcome(*self, *response) == Err::<(), Seq<char>>(m@),
            },
    {
        let found = response.get(self.field());
        let mut m = owned("expected field ");
        let fd = debug_quoted(self.field());
        m.append(fd.as_str());
        match self {
            FieldAssertion::Exists { .. } => match found {
                Some(_) => Ok(()),
                None => {
                    m.append(" to be present, but it was missing");
                    Err(m)
                },
            },
            FieldAssertion::Absent { .. } => match found {
                None => Ok(()),
                Some(_) => {
                    m.append(" to be absent, but it was present");
                    Err(m)
                },
            },
            FieldAssertion::Equals { value, .. } => match found {
                None => {
                    m.append(" to equal ");
                    m.append(value.text.as_str());
                    m.append(", but it was missing");
                    Err(m)
                },
                Some(actual) => {
                    if actual.text == value.text {
                        Ok(())
                    } else {
                        m.append(" to equal ");
                        m.append(value.text.as_str());
                        m.append(", but found ");
                        m.append(actual.text.as_str());
                        Err(m)
                    }
                },
            },
            FieldAssertion::TypeIs { expected, .. } => match found {
                None => {
                    m.append(" to be present, but it was missing");
                    Err(m)
                },
                Some(actual) => {
                    if expected.matches(actual) {
                        Ok(())
                    } else {
                        m.append(" to have type ");
                        m.append(expected.debug_name());
                        m.append(", but found ");
                        m.append(actual.text.as_str());
                        Err(m)
                    }
                },
            },
        }
    }
}

/// A fully parsed RPC compatibility fixture.
#[derive(Debug)]
pub struct RpcFixture {
    pub metadata: FixtureMetadata,
    pub method: RpcMethod,
    pub assertions: Vec<FieldAssertion>,
}

/// The failure messages of the assertions that do not hold, in order.
pub open spec fn failure_messages(assertions: Seq<FieldAssertion>, response: JsonValue) -> Seq<Seq<char>>
    decreases assertions.len(),
{
    if assertions.len() == 0 {
        Seq::empty()
    } else {
        failure_messages(assertions.drop_last(), response) + match check_outcome(
            assertions.last(),
            response,
        ) {
            Ok(()) => Seq::<Seq<char>>::empty(),
            Err(m) => seq![m],
        }
    }
}

/// The lines joined by line feeds.
pub open spec fn join_lines(lines: Seq<Seq<char>>) -> Seq<char>
    decreases lines.len(),
{
    if lines.len() == 0 {
        Seq::empty()
    } else if lines.len() == 1 {
        lines[0]
    } else {
        join_lines(lines.drop_last()) + "\n"@ + lines.last()
    }
}

/// The status, summary and details of checking a response: a pass when
/// every assertion holds, else a failure listing the failed assertions.
pub open spec fn evaluation(fixture: RpcFixture, response: JsonValue) -> (Status, Seq<char>, Option<Seq<char>>) {
    let failures = failure_messages(fixture.assertions@, response);
    let n = fixture.assertions@.len();
    if failures.len() == 0 {
        (
            Status::Pass,
            method_debug(fixture.method) + " response matched all "@ + decimal(n) + " assertion(s)"@,
            None,
        )
    } else {
        (
            Status::Fail,
            method_debug(fixture.method) + " response failed "@ + decimal(failures.len())
                + " of "@ + decimal(n) + " assertion(s)"@,
            Some(join_lines(failures)),
        )
    }
}

/// What each kind of assertion checks of a response: `field-exists` holds
/// exactly when the response has a member with that name, `field-absent`
/// exactly when it has none (and otherwise fails saying the field was
/// present), `field-equals` exactly when the member's JSON text is the
/// expected value's, and `field-type` exactly when the member has the
/// named JSON type.
pub proof fn lemma_each_assertion_checks_what_it_names(a: FieldAssertion, response: JsonValue)
    ensures
        a is Exists ==> (check_outcome(a, response) is Ok <==> has_member_named(response, assertion_field(a)@)),
        a is Absent ==> (check_outcome(a, response) is Ok <==> !has_member_named(response, assertion_field(a)@)),
        a is Absent && has_member_named(response, assertion_field(a)@) ==> check_outcome(a, response) == Err::<(), Seq<char>>(
            "expected field "@ + debug_text(assertion_field(a)@) + " to be absent, but it was present"@,
        ),
        a matches FieldAssertion::Equals { field, value } ==> (check_outcome(a, response) is Ok <==> (member(
            response,
            field@,
        ) matches Some(x) && x.text@ == value.text@)),
        a matches FieldAssertion::TypeIs { field, expected } ==> (check_outcome(a, response) is Ok <==> (member(
            response,
            field@,
        ) matches Some(x) && match expected {
            JsonType::String => x.shape is String,
            JsonType::Number => x.shape is Number,
            JsonType::Bool => x.shape is Bool,
            JsonType::Object => x.shape is Object,
            JsonType::Array => x.shape is Array,
            JsonType::Null => x.shape is Null,
        })),
{
    lemma_member_finds_the_first_named_member(response, assertion_field(a)@);
}

proof fn lemma_no_failures_exactly_when_all_hold(assertions: Seq<FieldAssertion>, response: JsonValue)
    ensures
        failure_messages(assertions, response).len() == 0 <==> forall|i: int|
            0 <= i < assertions.len() ==> #[trigger] check_outcome(assertions[i], response) is Ok,
    decreases assertions.len(),
{
    if assertions.len() > 0 {
        let init = assertions.drop_last();
        lemma_no_failures_exactly_when_all_hold(init, response);
        assert(assertions.last() == assertions[assertions.len() - 1]);
        if forall|i: int| 0 <= i < assertions.len() ==> #[trigger] check_outcome(assertions[i], response) is Ok {
            assert forall|i: int| 0 <= i < init.len() implies #[trigger] check_outcome(init[i], response) is Ok by {
                assert(init[i] == assertions[i]);
            }
        } else {
            let i = choose|i: int| 0 <= i < assertions.len() && !(#[trigger] check_outcome(assertions[i], response) is Ok);
            if i < init.len() {
                assert(init[i] == assertions[i]);
            }
        }
    }
}

/// A fixture passes exactly when every one of its assertions holds on the
/// response; otherwise it fails, with the failed assertions' messages, in
/// assertion order, joined by line feeds as its details.
pub proof fn lemma_pass_exactly_when_every_assertion_holds(fixture: RpcFixture, response: JsonValue)
    ensures
        (evaluation(fixture, response).0 == Status::Pass) <==> forall|i: int|
            0 <= i < fixture.assertions@.len() ==> #[trigger] check_outcome(fixture.assertions@[i], response) is Ok,
        evaluation(fixture, response).0 == Status::Pass || evaluation(fixture, response).0 == Status::Fail,
        evaluation(fixture, response).0 == Status::Fail ==> evaluation(fixture, response).2 == Some(
            join_lines(failure_messages(fixture.assertions@, response)),
        ),
{
    lemma_no_failures_exactly_when_all_hold(fixture.assertions@, response);
}

/// The fields named by a sequence of assertions agree in two responses.
pub open spec fn named_fields_agree(assertions: Seq<FieldAssertion>, a: JsonValue, b: JsonValue) -> bool {
    forall|i: int| 0 <= i < assertions.len() ==> member(a, assertion_field(#[trigger] assertions[i])@) == member(
        b,
        assertion_field(assertions[i])@,
    )
}

proof fn lemma_failures_depend_on_named_fields(assertions: Seq<FieldAssertion>, a: JsonValue, b: JsonValue)
    requires
        named_fields_agree(assertions, a, b),
    ensures
        failure_messages(assertions, a) == failure_messages(assertions, b),
    decreases assertions.len(),
{
    if assertions.len() > 0 {
        let init = assertions.drop_last();
        assert forall|i: int| 0 <= i < init.len() implies member(a, assertion_field(#[trigger] init[i])@) == member(
            b,
            assertion_field(init[i])@,
        ) by {
            assert(init[i] == assertions[i]);
        }
        lemma_failures_depend_on_named_fields(init, a, b);
        assert(member(a, assertion_field(assertions[assertions.len() - 1])@) == member(
            b,
            assertion_field(assertions[assertions.len() - 1])@,
        ));
    }
}

/// Only the fields a fixture names matter: two responses whose named
/// fields agree get the same status, summary and details.
pub proof fn lemma_only_named_fields_matter(fixture: RpcFixture, a: JsonValue, b: JsonValue)
    requires
        named_fields_agree(fixture.assertions@, a, b),
    ensures
        evaluation(fixture, a) == evaluation(fixture, b),
{
    lemma_failures_depend_on_named_fields(fixture.assertions@, a, b);
}

proof fn lemma_first_member_after_push(members: Seq<(String, JsonValue)>, extra: (String, JsonValue), key: Seq<char>)
    requires
        extra.0@ != key,
    ensures
        first_member(members.push(extra), key) == first_member(members, key),
    decreases members.len(),
{
    let pushed = members.push(extra);
    if members.len() > 0 {
        assert(pushed[0] == members[0]);
        assert(pushed.drop_first() =~= members.drop_first().push(extra));
        lemma_first_member_after_push(members.drop_first(), extra, key);
    } else {
        assert(pushed[0] == extra);
        assert(pushed.drop_first() =~= Seq::<(String, JsonValue)>::empty());
        assert(first_member(pushed.drop_first(), key) is None);
    }
}

/// A new field appearing in a response never changes its check, unless
/// the fixture names it: a response object with one more member, under a
/// key no assertion of the fixture names, gets the same status, summary
/// and details.
pub proof fn lemma_unrelated_new_field_is_ignored(
    fixture: RpcFixture,
    a: JsonValue,
    b: JsonValue,
    extra: (String, JsonValue),
)
    requires
        a.shape matches JsonShape::Object(ma) && b.shape matches JsonShape::Object(mb) && mb@ == ma@.push(extra),
        forall|i: int| 0 <= i < fixture.assertions@.len() ==> assertion_field(#[trigger] fixture.assertions@[i])@
            != extra.0@,
    ensures
        evaluation(fixture, a) == evaluation(fixture, b),
{
    let ma = a.shape->Object_0;
    let mb = b.shape->Object_0;
    assert forall|i: int| 0 <= i < fixture.assertions@.len() implies member(
        a,
        assertion_field(#[trigger] fixture.assertions@[i])@,
    ) == member(b, assertion_field(fixture.assertions@[i])@) by {
        lemma_first_member_after_push(ma@, extra, assertion_field(fixture.assertions@[i])@);
    }
    lemma_only_named_fields_matter(fixture, a, b);
}

fn join_with_line_feeds(lines: &Vec<String>) -> (s: String)
    ensures
        s@ == join_lines(lines@.map_values(|l: String| l@)),
{
    let ghost views = lines@.map_values(|l: String| l@);
    let mut s = String::new();
    let mut i: usize = 0;
    assert(views.take(0) =~= Seq::<Seq<char>>::empty());
    while i < lines.len()
        invariant
            views == lines@.map_values(|l: String| l@),
            i <= lines@.len(),
            s@ == join_lines(views.take(i as int)),
        decreases lines@.len() - i,
    {
        assert(views.take(i + 1).drop_last() =~= views.take(i as int));
        assert(views.take(i + 1).last() == lines@[i as int]@);
        if i > 0 {
            s.append("\n");
        } else {
            assert(s@ =~= Seq::<char>::empty());
        }
        s.append(lines[i].as_str());
        assert(s@ =~= join_lines(views.take(i + 1)));
        i = i + 1;
    }
    assert(views.take(i as int) =~= views);
    s
}

/// Checks a response against every assertion of the fixture.
pub fn evaluate(fixture: &RpcFixture, response: &JsonValue) -> (r: (Status, String, Option<String>))
    ensures
        r.0 == evaluation(*fixture, *response).0,
        r.1@ == evaluation(*fixture, *response).1,
        match r.2 {
            Some(d) => evaluation(*fixture, *response).2 == Some(d@),
            None => evaluation(*fixture, *response).2 is None,
        },
{
    let mut failures: Vec<String> = Vec::new();
    let mut i: usize = 0;
    assert(fixture.assertions@.take(0) =~= Seq::<FieldAssertion>::empty());
    while i < fixture.assertions.len()
        invariant
            i <= fixture.assertions@.len(),
            failures@.map_values(|l: String| l@) == failure_messages(fixture.assertions@.take(i as int), *response),
            failures@.len() <= i,
        decreases fixture.assertions@.len() - i,
    {
        assert(fixture.assertions@.take(i + 1).drop_last() =~= fixture.assertions@.take(i as int));
        assert(fixture.assertions@.take(i + 1).last() == fixture.assertions@[i as int]);
        let ghost before = failures@;
        match fixture.assertions[i].check(response) {
            Ok(()) => {},
            Err(reason) => {
                failures.push(reason);
            },
        }
        assert(failures@.map_values(|l: String| l@) =~= failure_messages(fixture.assertions@.take(i + 1), *response));
        i = i + 1;
    }
    assert(fixture.assertions@.take(i as int) =~= fixture.assertions@);
    let mut summary = owned(fixture.method.debug_name());
    if failures.len() == 0 {
        summary.append(" response matched all ");
        push_decimal(&mut summary, fixture.assertions.len() as u64);
        summary.append(" assertion(s)");
        (Status::Pass, summary, None)
    } else {
        summary.append(" response failed ");
        push_decimal(&mut summary, failures.len() as u64);
        summary.append(" of ");
        push_decimal(&mut summary, fixture.assertions.len() as u64);
        summary.append(" assertion(s)");
        let details = join_with_line_feeds(&failures);
        (Status::Fail, summary, Some(details))
    }
}

/// The runner used in production, over an RPC client.
pub struct DefaultRpcRunner<C> {
    client: C,
}

impl<C> DefaultRpcRunner<C> {
    pub closed spec fn spec_client(&self) -> C {
        self.client
    }

    pub fn new(client: C) -> (r: Self)
        ensures
            r.spec_client() == client,
    {
        DefaultRpcRunner { client }
    }

    pub fn client(&self) -> (c: &C)
        ensures
            *c == self.spec_client(),
    {
        &self.client
    }
}

/// The result of running an RPC fixture: when the call failed, an
/// execution error naming the method, with the error as details;
/// otherwise the evaluation of the response.
pub open spec fn rpc_result_matches(
    r: CompatibilityResult,
    fixture: RpcFixture,
    outcome: Result<JsonValue, RpcError>,
    duration_ms: u64,
) -> bool {
    &&& r.test_id == fixture.metadata.id
    &&& r.protocol == fixture.metadata.protocol
    &&& r.surface == Surface::Rpc
    &&& r.duration_ms == duration_ms
    &&& r.fixture_id == Some(fixture.metadata.id)
    &&& match outcome {
        Err(e) => {
            &&& r.status == Status::Error
            &&& r.summary@ == "failed to call "@ + method_debug(fixture.method)
            &&& r.details matches Some(d) && d@ == rpc_error_text(e)
        },
        Ok(response) => {
            let ev = evaluation(fixture, response);
            &&& r.status == ev.0
            &&& r.summary@ == ev.1
            &&& match r.details {
                Some(d) => ev.2 == Some(d@),
                None => ev.2 is None,
            }
        },
    }
}

/// The result of running `fixture`, given the outcome of its RPC call (the
/// response as JSON, or the call's error) and how long the call took.
pub fn rpc_result(fixture: &RpcFixture, outcome: &Result<JsonValue, RpcError>, duration_ms: u64) -> (r: CompatibilityResult)
    ensures
        rpc_result_matches(r, *fixture, *outcome, duration_ms),
{
    let (status, summary, details) = match outcome {
        Err(e) => {
            let mut summary = owned("failed to call ");
            summary.append(fixture.method.debug_name());
            (Status::Error, summary, Some(e.message()))
        },
        Ok(response) => evaluate(fixture, response),
    };
    CompatibilityResult {
        test_id: fixture.metadata.id.clone(),
        protocol: fixture.metadata.protocol,
        surface: Surface::Rpc,
        status,
        summary,
        details,
        duration_ms,
        fixture_id: Some(fixture.metadata.id.clone()),
    }
}

/// One `[[assert]]` entry of a fixture body, as far as it is read: each
/// key is present only when it holds a string (or, for `value`, any
/// value).
#[derive(Debug)]
pub struct AssertionEntry {
    pub is_table: bool,
    pub kind: Option<String>,
    pub field: Option<String>,
    pub value: Option<JsonValue>,
    pub expected_type: Option<String>,
}

/// The body of an RPC fixture, as far as it is read.
#[derive(Debug)]
pub struct RpcFixtureBody {
    pub is_table: bool,
    /// The `method` key, when it holds a string.
    pub method: Option<String>,
    /// The `[[assert]]` entries; none when the key is missing or not an
    /// array.
    pub asserts: Vec<AssertionEntry>,
}

/// The reason an assertion entry cannot be read, checked in this order:
/// not a table, no `kind`, no `field`, then by kind a missing `value` or
/// `expected_type`, an unsupported expected type, or an unsupported kind.
pub open spec fn entry_error(e: AssertionEntry) -> Option<Seq<char>> {
    if !e.is_table {
        Some("each [[assert]] entry must be a table"@)
    } else if e.kind is None {
        Some("assertion entry missing \"kind\""@)
    } else if e.field is None {
        Some("assertion entry missing \"field\""@)
    } else {
        let kind = e.kind->0@;
        if kind == "field-exists"@ || kind == "field-absent"@ {
            None
        } else if kind == "field-equals"@ {
            if e.value is None {
                Some("field-equals assertion missing \"value\""@)
            } else {
                None
            }
        } else if kind == "field-type"@ {
            if e.expected_type is None {
                Some("field-type assertion missing \"expected_type\""@)
            } else {
                match json_type_named(e.expected_type->0@) {
                    Ok(_) => None,
                    Err(m) => Some(m),
                }
            }
        } else {
            Some(
                "unsupported assertion kind "@ + debug_text(kind)
                    + ": expected one of \"field-exists\", \"field-absent\", \"field-equals\", \"field-type\""@,
            )
        }
    }
}

/// `a` is the assertion a readable entry `e` stands for.
pub open spec fn entry_assertion(e: AssertionEntry, a: FieldAssertion) -> bool {
    let kind = e.kind->0@;
    &&& assertion_field(a) == e.field->0
    &&& kind == "field-exists"@ ==> a is Exists
    &&& kind == "field-absent"@ ==> a is Absent
    &&& kind == "field-equals"@ ==> (a matches FieldAssertion::Equals { value, .. } && e.value == Some(value))
    &&& kind == "field-type"@ ==> (a matches FieldAssertion::TypeIs { expected, .. }
        && json_type_named(e.expected_type->0@) == Ok::<JsonType, Seq<char>>(expected))
}

/// Reads one `[[assert]]` entry.
pub fn parse_assertion(entry: AssertionEntry) -> (r: Result<FieldAssertion, String>)
    ensures
        match r {
            Ok(a) => entry_error(entry) is None && entry_assertion(entry, a),
            Err(m) => entry_error(entry) == Some(m@),
        },
{
    proof {
        reveal_strlit("field-exists");
        reveal_strlit("field-absent");
        reveal_strlit("field-equals");
        reveal_strlit("field-type");
        assert("field-exists"@[6] != "field-absent"@[6]);
        assert("field-exists"@[7] != "field-equals"@[7]);
        assert("field-exists"@.len() != "field-type"@.len());
        assert("field-absent"@[6] != "field-equals"@[6]);
        assert("field-absent"@.len() != "field-type"@.len());
        assert("field-equals"@.len() != "field-type"@.len());
    }
    let ghost e = entry;
    if !entry.is_table {
        return Err(owned("each [[assert]] entry must be a table"));
    }
    let AssertionEntry { is_table: _, kind, field, value, expected_type } = entry;
    let kind = match kind {
        Some(k) => k,
        None => {
            return Err(owned("assertion entry missing \"kind\""));
        },
    };
    let field = match field {
        Some(f) => f,
        None => {
            return Err(owned("assertion entry missing \"field\""));
        },
    };
    if str_eq(kind.as_str(), "field-exists") {
        Ok(FieldAssertion::Exists { field })
    } else if str_eq(kind.as_str(), "field-absent") {
        Ok(FieldAssertion::Absent { field })
    } else if str_eq(kind.as_str(), "field-equals") {
        match value {
            Some(value) => Ok(FieldAssertion::Equals { field, value }),
            None => Err(owned("field-equals assertion missing \"value\"")),
        }
    } else if str_eq(kind.as_str(), "field-type") {
        match expected_type {
            Some(t) => match JsonType::from_str(t.as_str()) {
                Ok(expected) => Ok(FieldAssertion::TypeIs { field, expected }),
                Err(m) => Err(m),
            },
            None => Err(owned("field-type assertion missing \"expected_type\"")),
        }
    } else {
        let mut m = owned("unsupported assertion kind ");
        let q = debug_quoted(kind.as_str());
        m.append(q.as_str());
        m.append(": expected one of \"field-exists\", \"field-absent\", \"field-equals\", \"field-type\"");
        Err(m)
    }
}

/// The first entry that cannot be read, in order, and why.
pub open spec fn first_entry_error(entries: Seq<AssertionEntry>) -> Option<Seq<char>>
    decreases entries.len(),
{
    if entries.len() == 0 {
        None
    } else if first_entry_error(entries.drop_last()) is Some {
        first_entry_error(entries.drop_last())
    } else {
        entry_error(entries.last())
    }
}

proof fn lemma_first_entry_error_prefix(entries: Seq<AssertionEntry>, k: int)
    requires
        0 <= k <= entries.len(),
        first_entry_error(entries.take(k)) is Some,
    ensures
        first_entry_error(entries) == first_entry_error(entries.take(k)),
    decreases entries.len() - k,
{
    if k < entries.len() {
        assert(entries.take(k + 1).drop_last() =~= entries.take(k));
        lemma_first_entry_error_prefix(entries, k + 1);
    } else {
        assert(entries.take(k) =~= entries);
    }
}

/// Why a fixture body cannot be read, checked in this order: not a
/// table, no string `method`, an unsupported method, then the first
/// unreadable assertion entry.
pub open spec fn body_error(b: RpcFixtureBody) -> Option<Seq<char>> {
    if !b.is_table {
        Some("fixture body must be a table"@)
    } else if b.method is None {
        Some("missing required string field \"method\""@)
    } else if method_named(b.method->0@) is Err {
        Some(method_named(b.method->0@)->Err_0)
    } else {
        first_entry_error(b.asserts@)
    }
}

impl RpcFixture {
    /// Reads an RPC fixture from its metadata and body.
    pub fn from_body(metadata: FixtureMetadata, source_path: std::path::PathBuf, body: RpcFixtureBody) -> (r: Result<RpcFixture, RpcFixtureError>)
        ensures
            match r {
                Ok(f) => {
                    &&& body_error(body) is None
                    &&& f.metadata == metadata
                    &&& method_named(body.method->0@) == Ok::<RpcMethod, Seq<char>>(f.method)
                    &&& f.assertions@.len() == body.asserts@.len()
                    &&& forall|i: int| 0 <= i < f.assertions@.len() ==> entry_assertion(body.asserts@[i], #[trigger] f.assertions@[i])
                },
                Err(RpcFixtureError::InvalidFixtureBody { source_path: p, reason }) => {
                    &&& p == source_path
                    &&& body_error(body) == Some(reason@)
                },
            },
    {
        let ghost b = body;
        if !body.is_table {
            return Err(RpcFixtureError::InvalidFixtureBody { source_path, reason: owned("fixture body must be a table") });
        }
        let RpcFixtureBody { is_table: _, method, asserts } = body;
        let method = match method {
            Some(m) => match RpcMethod::from_str(m.as_str()) {
                Ok(m) => m,
                Err(reason) => {
                    return Err(RpcFixtureError::InvalidFixtureBody { source_path, reason });
                },
            },
            None => {
                return Err(RpcFixtureError::InvalidFixtureBody {
                    source_path,
                    reason: owned("missing required string field \"method\""),
                });
            },
        };
        let mut assertions: Vec<FieldAssertion> = Vec::new();
        let mut entries = asserts;
        let ghost all = b.asserts@;
        let ghost n = all.len();
        assert(n == entries@.len());
        let total = entries.len();
        assert(n == total);
        let mut i: usize = 0;
        assert(all.take(0) =~= Seq::<AssertionEntry>::empty());
        assert(all.skip(0) =~= all);
        assert(body_error(b) == first_entry_error(all));
        while entries.len() > 0
            invariant
                b == body,
                body_error(b) == first_entry_error(all),
                n <= usize::MAX,
                all == b.asserts@,
                n == all.len(),
                i + entries@.len() == n,
                entries@ == all.skip(i as int),
                first_entry_error(all.take(i as int)) is None,
                assertions@.len() == i,
                forall|k: int| 0 <= k < i ==> entry_assertion(all[k], #[trigger] assertions@[k]),
            decreases entries@.len(),
        {
            let entry = entries.remove(0);
            proof {
                assert(entry == all[i as int]);
                assert(entries@ =~= all.skip(i + 1));
                assert(all.take(i + 1).drop_last() =~= all.take(i as int));
                assert(all.take(i + 1).last() == all[i as int]);
            }
            match parse_assertion(entry) {
                Ok(a) => {
                    assertions.push(a);
                },
                Err(reason) => {
                    proof {
                        lemma_first_entry_error_prefix(all, i + 1);
                    }
                    return Err(RpcFixtureError::InvalidFixtureBody { source_path, reason });
                },
            }
            i = i + 1;
        }
        assert(all.take(i as int) =~= all);
        Ok(RpcFixture { metadata, method, assertions })
    }
}

} // verus!
