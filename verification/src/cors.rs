//! CORS rules: how they are written to and read back from the S3 API, and the
//! `Content-MD5` value that OBS asks for when they are written.

use base64::Engine;
use md5::Digest;
use vstd::prelude::*;

use crate::error::ObsError;
use crate::text::{chars_of, concat2, decimal, has_text, seq_contains, u64_to_decimal};
use crate::types::{CorsRule, CorsRuleView};

verus! {

/// A CORS rule as the S3 API carries it.
#[derive(Debug)]
pub struct AwsCorsRule {
    pub id: Option<String>,
    pub allowed_origins: Vec<String>,
    pub allowed_methods: Vec<String>,
    pub allowed_headers: Option<Vec<String>>,
    pub expose_headers: Option<Vec<String>>,
    pub max_age_seconds: Option<i32>,
}

#[verifier::ext_equal]
pub struct AwsCorsRuleView {
    pub id: Option<Seq<char>>,
    pub allowed_origins: Seq<Seq<char>>,
    pub allowed_methods: Seq<Seq<char>>,
    pub allowed_headers: Option<Seq<Seq<char>>>,
    pub expose_headers: Option<Seq<Seq<char>>>,
    pub max_age_seconds: Option<i32>,
}

impl DeepView for AwsCorsRule {
    type V = AwsCorsRuleView;

    open spec fn deep_view(&self) -> AwsCorsRuleView {
        AwsCorsRuleView {
            id: self.id.deep_view(),
            allowed_origins: self.allowed_origins.deep_view(),
            allowed_methods: self.allowed_methods.deep_view(),
            allowed_headers: self.allowed_headers.deep_view(),
            expose_headers: self.expose_headers.deep_view(),
            max_age_seconds: self.max_age_seconds,
        }
    }
}

/// A header list, or nothing when it is absent or empty.
pub open spec fn nonempty_list(l: Option<Seq<Seq<char>>>) -> Option<Seq<Seq<char>>> {
    match l {
        Some(v) => if v.len() > 0 { Some(v) } else { None },
        None => None,
    }
}

/// The id given to the rule at position `index` when the S3 API reports none: `rule-1`, `rule-2`, ...
pub open spec fn default_rule_id(index: nat) -> Seq<char> {
    "rule-"@ + decimal(index + 1)
}

/// The rule that the rule at position `index` of a read CORS configuration stands for.
pub open spec fn decode_rule(r: AwsCorsRuleView, index: nat) -> CorsRuleView {
    CorsRuleView {
        id: match r.id {
            Some(i) => i,
            None => default_rule_id(index),
        },
        allowed_origins: r.allowed_origins,
        allowed_methods: r.allowed_methods,
        allowed_headers: nonempty_list(r.allowed_headers),
        expose_headers: nonempty_list(r.expose_headers),
        max_age_seconds: r.max_age_seconds,
    }
}

/// Every rule of a read CORS configuration.
pub open spec fn decode_rules(rs: Seq<AwsCorsRuleView>) -> Seq<CorsRuleView> {
    Seq::new(rs.len(), |i: int| decode_rule(rs[i], i as nat))
}

/// The rule as it is written to the S3 API.
pub open spec fn encode_rule(r: CorsRuleView) -> AwsCorsRuleView {
    AwsCorsRuleView {
        id: Some(r.id),
        allowed_origins: r.allowed_origins,
        allowed_methods: r.allowed_methods,
        allowed_headers: r.allowed_headers,
        expose_headers: r.expose_headers,
        max_age_seconds: r.max_age_seconds,
    }
}

/// Every rule of a list, as written to the S3 API.
pub open spec fn encode_rules(rs: Seq<CorsRuleView>) -> Seq<AwsCorsRuleView> {
    rs.map_values(|r: CorsRuleView| encode_rule(r))
}

/// What of a rule survives being written and read back: an empty header list reads back as none.
pub open spec fn normalize_rule(r: CorsRuleView) -> CorsRuleView {
    CorsRuleView {
        allowed_headers: nonempty_list(r.allowed_headers),
        expose_headers: nonempty_list(r.expose_headers),
        ..r
    }
}

/// Every rule of a list, as `normalize_rule` leaves it.
pub open spec fn normalize_rules(rs: Seq<CorsRuleView>) -> Seq<CorsRuleView> {
    rs.map_values(|r: CorsRuleView| normalize_rule(r))
}

/// Reading back a written list of CORS rules gives the list, each rule as
/// `normalize_rule` leaves it; in particular every id comes back as written.
pub proof fn lemma_rules_round_trip(rs: Seq<CorsRuleView>)
    ensures
        decode_rules(encode_rules(rs)) == normalize_rules(rs),
{
    assert(decode_rules(encode_rules(rs)) =~= normalize_rules(rs));
}

/// How a CORS rule is written to the S3 API, field by field: every field as it is, the
/// allowed headers as `AllowedHeader` and the exposed headers as `ExposeHeader`.
pub proof fn lemma_written_rule_fields(r: CorsRuleView)
    ensures
        encode_rule(r).id == Some(r.id),
        encode_rule(r).allowed_origins == r.allowed_origins,
        encode_rule(r).allowed_methods == r.allowed_methods,
        encode_rule(r).allowed_headers == r.allowed_headers,
        encode_rule(r).expose_headers == r.expose_headers,
        encode_rule(r).max_age_seconds == r.max_age_seconds,
{
}

/// How the rules of a read CORS configuration are taken, field by field: the rule at
/// position `i` keeps its origins, methods and max age; its allowed headers are the rule's
/// allowed headers and its exposed headers the rule's exposed headers, each none when the
/// list is absent or empty; its id is the rule's, else `rule-` and `i + 1`.
pub proof fn lemma_read_rule_fields(rs: Seq<AwsCorsRuleView>)
    ensures
        decode_rules(rs).len() == rs.len(),
        forall|i: int| 0 <= i < rs.len() ==> (#[trigger] decode_rules(rs)[i]).allowed_origins
            == rs[i].allowed_origins && decode_rules(rs)[i].allowed_methods == rs[i].allowed_methods
            && decode_rules(rs)[i].max_age_seconds == rs[i].max_age_seconds,
        forall|i: int| 0 <= i < rs.len() ==> (#[trigger] decode_rules(rs)[i]).allowed_headers == (
        if rs[i].allowed_headers matches Some(v) && v.len() > 0 {
            rs[i].allowed_headers
        } else {
            None
        }),
        forall|i: int| 0 <= i < rs.len() ==> (#[trigger] decode_rules(rs)[i]).expose_headers == (
        if rs[i].expose_headers matches Some(v) && v.len() > 0 {
            rs[i].expose_headers
        } else {
            None
        }),
        forall|i: int| 0 <= i < rs.len() ==> (#[trigger] decode_rules(rs)[i]).id == (
        match rs[i].id {
            Some(x) => x,
            None => "rule-"@ + decimal((i + 1) as nat),
        }),
{
}

/// A list of CORS rules is written rule by rule, in order.
pub proof fn lemma_written_rule_list(rs: Seq<CorsRuleView>)
    ensures
        encode_rules(rs).len() == rs.len(),
        forall|i: int| 0 <= i < rs.len() ==> #[trigger] encode_rules(rs)[i] == encode_rule(rs[i]),
{
}

/// The rule at position `index` of a read CORS configuration.
pub fn decode_cors_rule(rule: AwsCorsRule, index: usize) -> (r: CorsRule)
    requires
        index < usize::MAX,
    ensures
        r.deep_view() == decode_rule(rule.deep_view(), index as nat),
{
    let ghost rv = rule.deep_view();
    let id = match rule.id {
        Some(i) => i,
        None => {
            let n = u64_to_decimal(index as u64 + 1);
            concat2("rule-", n.as_str())
        },
    };
    let allowed_headers = match rule.allowed_headers {
        Some(h) => if h.len() > 0 { Some(h) } else { None },
        None => None,
    };
    let expose_headers = match rule.expose_headers {
        Some(h) => if h.len() > 0 { Some(h) } else { None },
        None => None,
    };
    let r = CorsRule {
        id,
        allowed_origins: rule.allowed_origins,
        allowed_methods: rule.allowed_methods,
        allowed_headers,
        expose_headers,
        max_age_seconds: rule.max_age_seconds,
    };
    assert(r.deep_view() =~~= decode_rule(rv, index as nat));
    r
}

/// Every rule of a read CORS configuration, numbered from one where the id is missing.
pub fn decode_cors_rules(rules: Vec<AwsCorsRule>) -> (r: Vec<CorsRule>)
    ensures
        r.deep_view() == decode_rules(rules.deep_view()),
{
    let ghost input = rules.deep_view();
    let total = rules.len();
    let mut rest = rules;
    let mut out: Vec<CorsRule> = Vec::new();
    let mut index: usize = 0;
    while rest.len() > 0
        invariant
            input.len() == total,
            index == out@.len(),
            index + rest@.len() == input.len(),
            rest.deep_view() =~= input.subrange(index as int, input.len() as int),
            out.deep_view() =~= decode_rules(input).subrange(0, index as int),
        decreases rest.len(),
    {
        let ghost before = rest.deep_view();
        let ghost old_out = out.deep_view();
        let rule = rest.remove(0);
        assert(rule.deep_view() == before[0]);
        assert(rest.deep_view() =~= before.subrange(1, before.len() as int));
        assert(before[0] == input[index as int]);
        let decoded = decode_cors_rule(rule, index);
        out.push(decoded);
        assert(out.deep_view() =~= old_out.push(decoded.deep_view()));
        index = index + 1;
        assert(rest.deep_view() =~= input.subrange(index as int, input.len() as int));
        assert(decode_rules(input).subrange(0, index as int) =~= decode_rules(input).subrange(
            0,
            index - 1,
        ).push(decode_rule(input[index - 1], (index - 1) as nat)));
    }
    assert(decode_rules(input).subrange(0, index as int) =~= decode_rules(input));
    out
}

/// The rule as it is written to the S3 API.
pub fn encode_cors_rule(rule: CorsRule) -> (r: AwsCorsRule)
    ensures
        r.deep_view() == encode_rule(rule.deep_view()),
{
    let ghost rv = rule.deep_view();
    let r = AwsCorsRule {
        id: Some(rule.id),
        allowed_origins: rule.allowed_origins,
        allowed_methods: rule.allowed_methods,
        allowed_headers: rule.allowed_headers,
        expose_headers: rule.expose_headers,
        max_age_seconds: rule.max_age_seconds,
    };
    assert(r.deep_view() =~~= encode_rule(rv));
    r
}

/// Every rule of a list, as written to the S3 API.
pub fn encode_cors_rules(rules: Vec<CorsRule>) -> (r: Vec<AwsCorsRule>)
    ensures
        r.deep_view() == encode_rules(rules.deep_view()),
{
    let ghost input = rules.deep_view();
    let mut rest = rules;
    let mut out: Vec<AwsCorsRule> = Vec::new();
    while rest.len() > 0
        invariant
            out.deep_view() + encode_rules(rest.deep_view()) =~= encode_rules(input),
        decreases rest.len(),
    {
        let ghost before = rest.deep_view();
        let rule = rest.remove(0);
        assert(before =~= seq![rule.deep_view()] + rest.deep_view());
        out.push(encode_cors_rule(rule));
        assert(encode_rules(before) =~= seq![encode_rule(rule.deep_view())] + encode_rules(
            rest.deep_view(),
        ));
    }
    assert(encode_rules(rest.deep_view()) =~= Seq::<AwsCorsRuleView>::empty());
    out
}

// ─── Content-MD5 ─────────────────────────────────────────────────────────────

/// The MD5 digest of `data`, as the `md-5` crate computes it.
pub uninterp spec fn md5_digest(data: Seq<u8>) -> Seq<u8>;

/// Calls `Md5::digest` of the `md-5` crate. The result is `md5_digest` of the input;
/// an MD5 digest is 16 bytes long.
#[verifier::external_body]
fn md5_of(data: &[u8]) -> (d: Vec<u8>)
    ensures
        d@ == md5_digest(data@),
        d@.len() == 16,
{
    md5::Md5::digest(data).to_vec()
}

/// The character of the standard Base64 alphabet (RFC 4648) for a 6-bit value.
pub open spec fn base64_char(v: int) -> char {
    if v < 26 {
        (65 + v) as char
    } else if v < 52 {
        (97 + (v - 26)) as char
    } else if v < 62 {
        (48 + (v - 52)) as char
    } else if v == 62 {
        '+'
    } else {
        '/'
    }
}

/// Standard Base64 (RFC 4648, with `=` padding) of a byte sequence.
pub open spec fn base64_encode(d: Seq<u8>) -> Seq<char>
    decreases d.len(),
{
    if d.len() == 0 {
        Seq::empty()
    } else if d.len() == 1 {
        seq![base64_char(d[0] as int / 4), base64_char((d[0] % 4) * 16), '=', '=']
    } else if d.len() == 2 {
        seq![
            base64_char(d[0] as int / 4),
            base64_char((d[0] % 4) * 16 + d[1] / 16),
            base64_char((d[1] % 16) * 4),
            '=',
        ]
    } else {
        seq![
            base64_char(d[0] as int / 4),
            base64_char((d[0] % 4) * 16 + d[1] / 16),
            base64_char((d[1] % 16) * 4 + d[2] / 64),
            base64_char(d[2] as int % 64),
        ] + base64_encode(d.subrange(3, d.len() as int))
    }
}

/// Base64 turns every started group of three bytes into four characters.
pub proof fn lemma_base64_length(d: Seq<u8>)
    ensures
        base64_encode(d).len() == 4 * ((d.len() + 2) / 3),
    decreases d.len(),
{
    if d.len() > 2 {
        lemma_base64_length(d.subrange(3, d.len() as int));
    }
}

/// Calls `encode` of the `base64` crate's `STANDARD` engine, which writes the standard
/// alphabet with padding.
#[verifier::external_body]
fn base64_standard(data: &[u8]) -> (s: String)
    ensures
        s@ == base64_encode(data@),
{
    base64::engine::general_purpose::STANDARD.encode(data)
}

/// The header text of a digest: its standard Base64.
pub fn digest_header_value(digest: &[u8]) -> (r: String)
    ensures
        r@ == base64_encode(digest@),
        r@.len() == 4 * ((digest@.len() + 2) / 3),
{
    proof {
        lemma_base64_length(digest@);
    }
    base64_standard(digest)
}

/// The `Content-MD5` header value for a request body: the Base64 of its MD5 digest,
/// always 24 characters.
pub fn content_md5(body: &[u8]) -> (r: String)
    ensures
        r@ == base64_encode(md5_digest(body@)),
        r@.len() == 24,
{
    let digest = md5_of(body);
    digest_header_value(digest.as_slice())
}

// ─── Outcomes of the CORS requests ───────────────────────────────────────────

/// Whether the error text of a failed read of the CORS configuration means that none exists.
pub open spec fn cors_absent(text: Seq<char>) -> bool {
    seq_contains(text, "NoSuchCORSConfiguration"@) || seq_contains(text, "404"@)
        || seq_contains(text, "NoSuchConfiguration"@) || seq_contains(
        text,
        "CORS configuration does not exist"@,
    )
}

/// Whether the error text of a failed removal of the CORS configuration means that none existed.
pub open spec fn cors_already_absent(text: Seq<char>) -> bool {
    seq_contains(text, "NoSuchCORSConfiguration"@) || seq_contains(text, "404"@)
        || seq_contains(text, "NoSuchConfiguration"@)
}

/// The rules a read of the CORS configuration yields: the rules read back, or none when
/// the error says that no configuration exists, or `Other`. `response` holds the rules
/// read, or the debug text of the failure.
pub fn get_bucket_cors_outcome(response: std::result::Result<Vec<AwsCorsRule>, String>) -> (r:
    std::result::Result<Vec<CorsRule>, ObsError>)
    ensures
        response matches Ok(rules) ==> r matches Ok(v) && v.deep_view() == decode_rules(
            rules.deep_view(),
        ),
        response matches Err(text) ==> if cors_absent(text@) {
            r matches Ok(v) && v@.len() == 0
        } else {
            r matches Err(ObsError::Other(m)) && m@ == "Failed to get CORS configuration: "@
                + text@
        },
{
    match response {
        Ok(rules) => Ok(decode_cors_rules(rules)),
        Err(text) => {
            let t = chars_of(text.as_str());
            if has_text(&t, "NoSuchCORSConfiguration") || has_text(&t, "404") || has_text(
                &t,
                "NoSuchConfiguration",
            ) || has_text(&t, "CORS configuration does not exist") {
                Ok(Vec::new())
            } else {
                Err(ObsError::Other(concat2("Failed to get CORS configuration: ", text.as_str())))
            }
        },
    }
}

/// The outcome of writing CORS rules; `result` holds the debug text of a failure.
pub fn put_bucket_cors_outcome(result: std::result::Result<(), String>) -> (r:
    std::result::Result<(), ObsError>)
    ensures
        result is Ok ==> r is Ok,
        result matches Err(text) ==> r matches Err(ObsError::Other(m)) && m@
            == "Failed to set CORS configuration: "@ + text@,
{
    match result {
        Ok(()) => Ok(()),
        Err(text) => Err(ObsError::Other(concat2("Failed to set CORS configuration: ", text.as_str()))),
    }
}

/// The outcome of removing the CORS configuration: removing one that is not there succeeds.
/// `result` holds the debug text of a failure.
pub fn delete_bucket_cors_outcome(result: std::result::Result<(), String>) -> (r:
    std::result::Result<(), ObsError>)
    ensures
        result is Ok ==> r is Ok,
        result matches Err(text) ==> if cors_already_absent(text@) {
            r is Ok
        } else {
            r matches Err(ObsError::Other(m)) && m@ == "Failed to delete CORS configuration: "@
                + text@
        },
{
    match result {
        Ok(()) => Ok(()),
        Err(text) => {
            let t = chars_of(text.as_str());
            if has_text(&t, "NoSuchCORSConfiguration") || has_text(&t, "404") || has_text(
                &t,
                "NoSuchConfiguration",
            ) {
                Ok(())
            } else {
                Err(
                    ObsError::Other(
                        concat2("Failed to delete CORS configuration: ", text.as_str()),
                    ),
                )
            }
        },
    }
}

} // verus!
