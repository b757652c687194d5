//! Keys and file names of the local, file-backed result cache.
//!
//! A cache entry is one small JSON file per key under a cache directory,
//! keyed by everything that can invalidate reuse. Reading and writing the
//! files is the caller's part; this module decides the file names and
//! which results may be stored.

use std::collections::hash_map::DefaultHasher;
use std::hash::Hasher;

use vstd::prelude::*;
use vstd::std_specs::hash::DefaultHasherAdditionalSpecFns;
use vstd::string::StringSliceAdditionalSpecFns;

use crate::model::{CompatibilityResult, ProtocolVersion, Status};
use crate::text::{decimal, digit_char, hex_char, hex_digits};

verus! {

broadcast use vstd::string::group_string_axioms;

/// Everything that must match for a cached result to be safe to reuse.
#[derive(Debug, Clone, PartialEq, Eq, Hash)]
pub struct CacheKey {
    pub fixture_id: String,
    pub protocol: ProtocolVersion,
    pub project_fingerprint: String,
    pub rpc_endpoint: String,
    pub observed_protocol: Option<ProtocolVersion>,
}

/// Whether a character may stand in a file name unchanged.
pub open spec fn is_safe_char(c: char) -> bool {
    ('a' <= c && c <= 'z') || ('A' <= c && c <= 'Z') || ('0' <= c && c <= '9') || c == '-'
}

/// `s` with every character other than an ASCII letter, digit or `-`
/// replaced by `_`.
pub open spec fn sanitized(s: Seq<char>) -> Seq<char> {
    s.map_values(|c: char| if is_safe_char(c) { c } else { '_' })
}

/// The 64-bit hash of an endpoint string: `DefaultHasher` fed the
/// string's UTF-8 bytes followed by the `0xff` terminator, exactly as
/// `str`'s `Hash` impl feeds it.
pub open spec fn endpoint_hash(endpoint: Seq<char>) -> u64 {
    DefaultHasher::spec_finish(seq![vstd::utf8::encode_utf8(endpoint), seq![0xffu8]])
}

/// The file stem of a cache key: the sanitized fixture id, the protocol,
/// the sanitized project fingerprint, the endpoint hash in 16 lowercase
/// hex digits, and the observed protocol (or `unknown`), joined by `__`.
pub open spec fn file_stem(k: CacheKey) -> Seq<char> {
    sanitized(k.fixture_id@) + "__p"@ + decimal(k.protocol.0 as nat) + "__"@ + sanitized(
        k.project_fingerprint@,
    ) + "__"@ + hex_digits(endpoint_hash(k.rpc_endpoint@) as nat, 16) + "__"@ + match k.observed_protocol {
        Some(p) => decimal(p.0 as nat),
        None => "unknown"@,
    }
}

/// Whether a character may stand in a cache file name: an ASCII letter,
/// an ASCII digit, `-` or `_`.
pub open spec fn is_file_name_char(c: char) -> bool {
    is_safe_char(c) || c == '_'
}

/// Whether every character of `s` may stand in a cache file name.
pub open spec fn is_file_name_text(s: Seq<char>) -> bool {
    forall|i: int| 0 <= i < s.len() ==> is_file_name_char(#[trigger] s[i])
}

proof fn lemma_concat_file_name_text(a: Seq<char>, b: Seq<char>)
    requires
        is_file_name_text(a),
        is_file_name_text(b),
    ensures
        is_file_name_text(a + b),
{
    assert forall|i: int| 0 <= i < (a + b).len() implies is_file_name_char(#[trigger] (a + b)[i]) by {
        if i < a.len() {
            assert((a + b)[i] == a[i]);
        } else {
            assert((a + b)[i] == b[i - a.len()]);
        }
    }
}

proof fn lemma_decimal_is_file_name_text(n: nat)
    ensures
        is_file_name_text(decimal(n)),
    decreases n,
{
    if n >= 10 {
        lemma_decimal_is_file_name_text(n / 10);
        lemma_concat_file_name_text(decimal(n / 10), seq![digit_char((n % 10) as int)]);
        assert(decimal(n) =~= decimal(n / 10) + seq![digit_char((n % 10) as int)]);
    }
}

proof fn lemma_hex_digits_are_file_name_text(n: nat, width: nat)
    ensures
        is_file_name_text(hex_digits(n, width)),
    decreases width,
{
    if width > 0 {
        lemma_hex_digits_are_file_name_text(n / 16, (width - 1) as nat);
        let c = hex_char((n % 16) as int);
        lemma_concat_file_name_text(hex_digits(n / 16, (width - 1) as nat), seq![c]);
        assert(hex_digits(n, width) =~= hex_digits(n / 16, (width - 1) as nat) + seq![c]);
    }
}

/// Every character of a cache key's file stem is an ASCII letter, an ASCII
/// digit, `-` or `_`, whatever the key holds: the name is safe on any
/// filesystem.
pub proof fn lemma_file_stem_is_filesystem_safe(k: CacheKey)
    ensures
        is_file_name_text(file_stem(k)),
{
    let a = sanitized(k.fixture_id@);
    let b = sanitized(k.project_fingerprint@);
    assert(is_file_name_text(a));
    assert(is_file_name_text(b));
    assert(is_file_name_text("__p"@)) by {
        reveal_strlit("__p");
    }
    assert(is_file_name_text("__"@)) by {
        reveal_strlit("__");
    }
    assert(is_file_name_text("unknown"@)) by {
        reveal_strlit("unknown");
    }
    lemma_decimal_is_file_name_text(k.protocol.0 as nat);
    lemma_hex_digits_are_file_name_text(endpoint_hash(k.rpc_endpoint@) as nat, 16);
    let last = match k.observed_protocol {
        Some(p) => decimal(p.0 as nat),
        None => "unknown"@,
    };
    if let Some(p) = k.observed_protocol {
        lemma_decimal_is_file_name_text(p.0 as nat);
    }
    let d = decimal(k.protocol.0 as nat);
    let h = hex_digits(endpoint_hash(k.rpc_endpoint@) as nat, 16);
    lemma_concat_file_name_text(a, "__p"@);
    lemma_concat_file_name_text(a + "__p"@, d);
    lemma_concat_file_name_text(a + "__p"@ + d, "__"@);
    lemma_concat_file_name_text(a + "__p"@ + d + "__"@, b);
    lemma_concat_file_name_text(a + "__p"@ + d + "__"@ + b, "__"@);
    lemma_concat_file_name_text(a + "__p"@ + d + "__"@ + b + "__"@, h);
    lemma_concat_file_name_text(a + "__p"@ + d + "__"@ + b + "__"@ + h, "__"@);
    lemma_concat_file_name_text(a + "__p"@ + d + "__"@ + b + "__"@ + h + "__"@, last);
}

/// The value of a decimal digit character.
pub open spec fn digit_value(c: char) -> int {
    (c as int) - ('0' as int)
}

/// The number a string of decimal digits spells, most significant first.
pub open spec fn decimal_value(s: Seq<char>) -> int
    decreases s.len(),
{
    if s.len() == 0 {
        0
    } else {
        decimal_value(s.drop_last()) * 10 + digit_value(s.last())
    }
}

proof fn lemma_digit_value_of_digit_char(d: int)
    requires
        0 <= d < 10,
    ensures
        digit_value(digit_char(d)) == d,
{
    if d == 0 {} else if d == 1 {} else if d == 2 {} else if d == 3 {} else if d == 4 {}
    else if d == 5 {} else if d == 6 {} else if d == 7 {} else if d == 8 {} else {}
}

proof fn lemma_decimal_spells_its_number(n: nat)
    ensures
        decimal_value(decimal(n)) == n,
        decimal(n).len() >= 1,
        forall|i: int| 0 <= i < decimal(n).len() ==> '0' <= #[trigger] decimal(n)[i] <= '9',
    decreases n,
{
    if n < 10 {
        lemma_digit_value_of_digit_char(n as int);
        assert(decimal(n).drop_last() =~= Seq::<char>::empty());
        assert(decimal_value(decimal(n).drop_last()) == 0);
        assert(decimal(n).last() == digit_char(n as int));
    } else {
        lemma_digit_value_of_digit_char((n % 10) as int);
        lemma_decimal_spells_its_number(n / 10);
        let d = decimal(n / 10);
        assert(decimal(n).drop_last() =~= d);
        vstd::arithmetic::div_mod::lemma_fundamental_div_mod(n as int, 10);
        assert(decimal(n).last() == digit_char((n % 10) as int));
        assert(decimal_value(decimal(n)) == decimal_value(d) * 10 + (n % 10));
        assert(decimal_value(d) * 10 == 10 * (n / 10));
        assert forall|i: int| 0 <= i < decimal(n).len() implies '0' <= #[trigger] decimal(n)[i] <= '9' by {
            if i < d.len() {
                assert(decimal(n)[i] == d[i]);
            }
        }
    }
}

/// A key's file stem ends with `__` and the observed protocol's number
/// when a protocol was observed (and with `__unknown` when none was), so
/// two keys that differ only in the observed protocol never share a file:
/// a result cached while the network reported one protocol is not reused
/// once it reports another.
pub proof fn lemma_stems_differ_with_the_observed_protocol(k1: CacheKey, k2: CacheKey)
    requires
        k1.fixture_id == k2.fixture_id,
        k1.protocol == k2.protocol,
        k1.project_fingerprint == k2.project_fingerprint,
        k1.rpc_endpoint == k2.rpc_endpoint,
        k1.observed_protocol != k2.observed_protocol,
    ensures
        file_stem(k1) != file_stem(k2),
        k1.observed_protocol matches Some(p) ==> exists|pre: Seq<char>| file_stem(k1) == pre + "__"@ + decimal(p.0 as nat),
        k1.observed_protocol is None ==> exists|pre: Seq<char>| file_stem(k1) == pre + "__unknown"@,
{
    let c = sanitized(k1.fixture_id@) + "__p"@ + decimal(k1.protocol.0 as nat) + "__"@ + sanitized(
        k1.project_fingerprint@,
    ) + "__"@ + hex_digits(endpoint_hash(k1.rpc_endpoint@) as nat, 16);
    let tail = |k: CacheKey| match k.observed_protocol {
        Some(p) => decimal(p.0 as nat),
        None => "unknown"@,
    };
    assert(file_stem(k1) == c + "__"@ + tail(k1));
    assert(file_stem(k2) == c + "__"@ + tail(k2));
    match k1.observed_protocol {
        Some(p) => {
            assert(file_stem(k1) == c + "__"@ + decimal(p.0 as nat));
        },
        None => {
            assert(file_stem(k1) =~= c + "__unknown"@) by {
                reveal_strlit("__");
                reveal_strlit("unknown");
                reveal_strlit("__unknown");
            }
        },
    }
    if file_stem(k1) == file_stem(k2) {
        let pre = c + "__"@;
        assert((pre + tail(k1)).skip(pre.len() as int) =~= tail(k1));
        assert((pre + tail(k2)).skip(pre.len() as int) =~= tail(k2));
        assert(tail(k1) == tail(k2));
        reveal_strlit("unknown");
        match (k1.observed_protocol, k2.observed_protocol) {
            (Some(a), Some(b)) => {
                lemma_decimal_spells_its_number(a.0 as nat);
                lemma_decimal_spells_its_number(b.0 as nat);
            },
            (Some(a), None) => {
                lemma_decimal_spells_its_number(a.0 as nat);
                assert(tail(k1)[0] == tail(k2)[0]);
            },
            (None, Some(b)) => {
                lemma_decimal_spells_its_number(b.0 as nat);
                assert(tail(k1)[0] == tail(k2)[0]);
            },
            (None, None) => {},
        }
    }
}

/// Appends `value` with every unsafe character replaced by `_`.
fn push_sanitized(out: &mut String, value: &str)
    ensures
        final(out)@ == old(out)@ + sanitized(value@),
{
    let ghost start = out@;
    let chars = crate::text::chars_of(value);
    let mut i: usize = 0;
    while i < chars.len()
        invariant
            chars@ == value@,
            i <= chars@.len(),
            out@ == start + sanitized(chars@.take(i as int)),
        decreases chars@.len() - i,
    {
        let c = chars[i];
        if ('a' <= c && c <= 'z') || ('A' <= c && c <= 'Z') || ('0' <= c && c <= '9') || c == '-' {
            out.push(c);
        } else {
            out.push('_');
        }
        assert(sanitized(chars@.take(i + 1)) =~= sanitized(chars@.take(i as int)).push(
            if is_safe_char(c) { c } else { '_' },
        ));
        i = i + 1;
    }
    assert(chars@.take(i as int) =~= chars@);
}

/// `value` with every character other than an ASCII letter, digit or `-`
/// replaced by `_`.
pub fn sanitize(value: &str) -> (s: String)
    ensures
        s@ == sanitized(value@),
{
    let mut s = String::new();
    push_sanitized(&mut s, value);
    s
}

/// The hash of `endpoint` under `DefaultHasher`.
fn hash_endpoint(endpoint: &str) -> (h: u64)
    ensures
        h == endpoint_hash(endpoint@),
{
    let mut hasher = DefaultHasher::new();
    hasher.write(endpoint.as_bytes());
    let terminator: [u8; 1] = [0xffu8];
    let tail = terminator.as_slice();
    assert(tail@ =~= seq![0xffu8]);
    hasher.write(tail);
    assert(hasher@ =~= seq![endpoint.spec_bytes(), seq![0xffu8]]);
    hasher.finish()
}

impl CacheKey {
    /// A filesystem-safe, deterministic identifier for this key. The RPC
    /// endpoint may hold characters that are not safe in a file name, so
    /// it is hashed; every other field is embedded so the name stays
    /// inspectable.
    pub fn to_file_stem(&self) -> (s: String)
        ensures
            s@ == file_stem(*self),
    {
        let mut s = String::new();
        push_sanitized(&mut s, self.fixture_id.as_str());
        s.append("__p");
        crate::text::push_decimal(&mut s, self.protocol.0 as u64);
        s.append("__");
        push_sanitized(&mut s, self.project_fingerprint.as_str());
        s.append("__");
        let h = hash_endpoint(self.rpc_endpoint.as_str());
        crate::text::push_hex_digits(&mut s, h, 16);
        s.append("__");
        match self.observed_protocol {
            Some(p) => crate::text::push_decimal(&mut s, p.0 as u64),
            None => s.append("unknown"),
        }
        s
    }

    /// The name of the file that holds this key's entry: the stem and
    /// `.json`.
    pub fn entry_file_name(&self) -> (s: String)
        ensures
            s@ == file_stem(*self) + ".json"@,
    {
        let mut s = self.to_file_stem();
        s.append(".json");
        s
    }
}

/// Whether a result may be stored: execution errors are temporary and are
/// never cached as if they were a stable outcome.
pub fn is_cacheable(result: &CompatibilityResult) -> (b: bool)
    ensures
        b == (result.status != Status::Error),
{
    result.status != Status::Error
}

/// A local, file-backed cache of results, rooted at a directory.
pub struct CacheStore {
    root: std::path::PathBuf,
}

impl CacheStore {
    /// The directory the entries live in.
    pub closed spec fn root_dir(&self) -> std::path::PathBuf {
        self.root
    }

    pub fn new(root: std::path::PathBuf) -> (s: Self)
        ensures
            s.root_dir() == root,
    {
        CacheStore { root }
    }

    pub fn root(&self) -> (r: &std::path::PathBuf)
        ensures
            *r == self.root_dir(),
    {
        &self.root
    }
}

} // verus!
