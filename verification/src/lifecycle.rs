//! Lifecycle rules: how they are written to and read back from the S3 API.
//!
//! The `Aws*` types hold, as plain values, the fields of the AWS SDK's lifecycle
//! types that rule handling reads or fills.

use vstd::prelude::*;

use crate::error::ObsError;
use crate::text::{chars_of, concat2, has_text, seq_contains};
use crate::types::{LifecycleRule, LifecycleRuleView, LifecycleTag, LifecycleTagView};

verus! {

/// The status of a rule as the S3 API reports it.
#[derive(Debug, Clone, Copy, PartialEq, Eq, Structural)]
pub enum AwsExpirationStatus {
    Enabled,
    Disabled,
    /// A status that this library does not know.
    Unrecognized,
}

/// The AND operator of a rule filter.
#[derive(Debug)]
pub struct AwsLifecycleAnd {
    pub prefix: Option<String>,
    pub tags: Vec<LifecycleTag>,
    pub object_size_greater_than: Option<i64>,
    pub object_size_less_than: Option<i64>,
}

/// A rule filter.
#[derive(Debug)]
pub struct AwsLifecycleFilter {
    pub prefix: Option<String>,
    pub tag: Option<LifecycleTag>,
    pub and: Option<AwsLifecycleAnd>,
    pub object_size_greater_than: Option<i64>,
    pub object_size_less_than: Option<i64>,
}

/// The expiration part of a rule.
#[derive(Debug, Clone, Copy, PartialEq, Eq, Structural)]
pub struct AwsLifecycleExpiration {
    pub days: Option<i32>,
}

/// The non-current version expiration part of a rule.
#[derive(Debug, Clone, Copy, PartialEq, Eq, Structural)]
pub struct AwsNoncurrentVersionExpiration {
    pub noncurrent_days: Option<i32>,
}

/// A transition of a rule's objects to another storage class.
#[derive(Debug)]
pub struct AwsTransition {
    pub days: Option<i32>,
    pub storage_class: Option<String>,
}

/// A lifecycle rule as the S3 API carries it.
#[derive(Debug)]
pub struct AwsLifecycleRule {
    pub id: Option<String>,
    pub status: AwsExpirationStatus,
    pub filter: Option<AwsLifecycleFilter>,
    pub expiration: Option<AwsLifecycleExpiration>,
    pub noncurrent_version_expiration: Option<AwsNoncurrentVersionExpiration>,
    pub transitions: Vec<AwsTransition>,
}

#[verifier::ext_equal]
pub struct AwsLifecycleAndView {
    pub prefix: Option<Seq<char>>,
    pub tags: Seq<LifecycleTagView>,
    pub object_size_greater_than: Option<i64>,
    pub object_size_less_than: Option<i64>,
}

#[verifier::ext_equal]
pub struct AwsLifecycleFilterView {
    pub prefix: Option<Seq<char>>,
    pub tag: Option<LifecycleTagView>,
    pub and: Option<AwsLifecycleAndView>,
    pub object_size_greater_than: Option<i64>,
    pub object_size_less_than: Option<i64>,
}

#[verifier::ext_equal]
pub struct AwsTransitionView {
    pub days: Option<i32>,
    pub storage_class: Option<Seq<char>>,
}

#[verifier::ext_equal]
pub struct AwsLifecycleRuleView {
    pub id: Option<Seq<char>>,
    pub status: AwsExpirationStatus,
    pub filter: Option<AwsLifecycleFilterView>,
    pub expiration: Option<AwsLifecycleExpiration>,
    pub noncurrent_version_expiration: Option<AwsNoncurrentVersionExpiration>,
    pub transitions: Seq<AwsTransitionView>,
}

impl DeepView for AwsTransition {
    type V = AwsTransitionView;

    open spec fn deep_view(&self) -> AwsTransitionView {
        AwsTransitionView { days: self.days, storage_class: self.storage_class.deep_view() }
    }
}

impl DeepView for AwsLifecycleAnd {
    type V = AwsLifecycleAndView;

    open spec fn deep_view(&self) -> AwsLifecycleAndView {
        AwsLifecycleAndView {
            prefix: self.prefix.deep_view(),
            tags: self.tags.deep_view(),
            object_size_greater_than: self.object_size_greater_than,
            object_size_less_than: self.object_size_less_than,
        }
    }
}

impl DeepView for AwsLifecycleFilter {
    type V = AwsLifecycleFilterView;

    open spec fn deep_view(&self) -> AwsLifecycleFilterView {
        AwsLifecycleFilterView {
            prefix: self.prefix.deep_view(),
            tag: self.tag.deep_view(),
            and: self.and.deep_view(),
            object_size_greater_than: self.object_size_greater_than,
            object_size_less_than: self.object_size_less_than,
        }
    }
}

impl DeepView for AwsLifecycleRule {
    type V = AwsLifecycleRuleView;

    open spec fn deep_view(&self) -> AwsLifecycleRuleView {
        AwsLifecycleRuleView {
            id: self.id.deep_view(),
            status: self.status,
            filter: self.filter.deep_view(),
            expiration: self.expiration,
            noncurrent_version_expiration: self.noncurrent_version_expiration,
            transitions: self.transitions.deep_view(),
        }
    }
}

// ─── Reading rules back ─────────────────────────────────────────────────────

/// `p` when it is a non-empty text, else nothing.
pub open spec fn keep_nonempty(p: Option<Seq<char>>) -> Option<Seq<char>> {
    match p {
        Some(s) => if s.len() > 0 { Some(s) } else { None },
        None => None,
    }
}

/// `a` if it is present, else `b`.
pub open spec fn first_present<T>(a: Option<T>, b: Option<T>) -> Option<T> {
    if a is Some { a } else { b }
}

/// The prefix a filter gives a rule: a non-empty prefix of the AND operator wins over
/// a non-empty prefix of the filter itself.
pub open spec fn filter_prefix(f: AwsLifecycleFilterView) -> Option<Seq<char>> {
    let from_and = match f.and {
        Some(a) => keep_nonempty(a.prefix),
        None => None,
    };
    first_present(from_and, keep_nonempty(f.prefix))
}

/// The tags a filter gives a rule: the AND operator's tags when there are any,
/// else the filter's single tag.
pub open spec fn filter_tags(f: AwsLifecycleFilterView) -> Option<Seq<LifecycleTagView>> {
    let single = match f.tag {
        Some(t) => Some(seq![t]),
        None => None,
    };
    match f.and {
        Some(a) => if a.tags.len() > 0 { Some(a.tags) } else { single },
        None => single,
    }
}

/// The lower size bound a filter gives a rule; the filter's own wins over the AND operator's.
pub open spec fn filter_size_greater_than(f: AwsLifecycleFilterView) -> Option<i64> {
    let from_and = match f.and {
        Some(a) => a.object_size_greater_than,
        None => None,
    };
    first_present(f.object_size_greater_than, from_and)
}

/// The upper size bound a filter gives a rule; the filter's own wins over the AND operator's.
pub open spec fn filter_size_less_than(f: AwsLifecycleFilterView) -> Option<i64> {
    let from_and = match f.and {
        Some(a) => a.object_size_less_than,
        None => None,
    };
    first_present(f.object_size_less_than, from_and)
}

/// The rule that a rule read from the S3 API stands for.
pub open spec fn decode_rule(r: AwsLifecycleRuleView) -> LifecycleRuleView {
    LifecycleRuleView {
        id: match r.id {
            Some(i) => i,
            None => Seq::empty(),
        },
        prefix: match r.filter {
            Some(f) => filter_prefix(f),
            None => None,
        },
        enabled: r.status == AwsExpirationStatus::Enabled,
        expiration_days: match r.expiration {
            Some(e) => e.days,
            None => None,
        },
        noncurrent_version_expiration_days: match r.noncurrent_version_expiration {
            Some(n) => n.noncurrent_days,
            None => None,
        },
        transition_days: if r.transitions.len() > 0 {
            r.transitions[0].days
        } else {
            None
        },
        transition_storage_class: if r.transitions.len() > 0 {
            r.transitions[0].storage_class
        } else {
            None
        },
        tags: match r.filter {
            Some(f) => filter_tags(f),
            None => None,
        },
        object_size_greater_than: match r.filter {
            Some(f) => filter_size_greater_than(f),
            None => None,
        },
        object_size_less_than: match r.filter {
            Some(f) => filter_size_less_than(f),
            None => None,
        },
    }
}

// ─── Writing rules ──────────────────────────────────────────────────────────

pub open spec fn has_prefix(r: LifecycleRuleView) -> bool {
    r.prefix matches Some(p) && p.len() > 0
}

pub open spec fn has_tags(r: LifecycleRuleView) -> bool {
    r.tags matches Some(t) && t.len() > 0
}

pub open spec fn has_size_filters(r: LifecycleRuleView) -> bool {
    r.object_size_greater_than is Some || r.object_size_less_than is Some
}

/// Whether a rule's filter is written as an AND operator.
pub open spec fn needs_and(r: LifecycleRuleView) -> bool {
    (if has_prefix(r) { 1int } else { 0int }) + (if has_tags(r) { 1int } else { 0int }) + (if has_size_filters(r) { 1int } else { 0int }) > 1
        || has_tags(r) || has_size_filters(r)
}

/// The filter a rule is written with.
pub open spec fn encode_filter(r: LifecycleRuleView) -> AwsLifecycleFilterView {
    if needs_and(r) {
        AwsLifecycleFilterView {
            prefix: None,
            tag: None,
            and: Some(
                AwsLifecycleAndView {
                    prefix: if has_prefix(r) { r.prefix } else { None },
                    tags: match r.tags {
                        Some(t) => t,
                        None => Seq::empty(),
                    },
                    object_size_greater_than: r.object_size_greater_than,
                    object_size_less_than: r.object_size_less_than,
                },
            ),
            object_size_greater_than: None,
            object_size_less_than: None,
        }
    } else if has_prefix(r) {
        AwsLifecycleFilterView {
            prefix: r.prefix,
            tag: None,
            and: None,
            object_size_greater_than: None,
            object_size_less_than: None,
        }
    } else {
        AwsLifecycleFilterView {
            prefix: Some(Seq::empty()),
            tag: None,
            and: None,
            object_size_greater_than: None,
            object_size_less_than: None,
        }
    }
}

/// The rule as it is written to the S3 API.
pub open spec fn encode_rule(r: LifecycleRuleView) -> AwsLifecycleRuleView {
    AwsLifecycleRuleView {
        id: Some(r.id),
        status: if r.enabled {
            AwsExpirationStatus::Enabled
        } else {
            AwsExpirationStatus::Disabled
        },
        filter: Some(encode_filter(r)),
        expiration: match r.expiration_days {
            Some(d) => Some(AwsLifecycleExpiration { days: Some(d) }),
            None => None,
        },
        noncurrent_version_expiration: match r.noncurrent_version_expiration_days {
            Some(d) => Some(AwsNoncurrentVersionExpiration { noncurrent_days: Some(d) }),
            None => None,
        },
        transitions: if r.transition_days is Some || r.transition_storage_class is Some {
            seq![
                AwsTransitionView {
                    days: r.transition_days,
                    storage_class: r.transition_storage_class,
                },
            ]
        } else {
            Seq::empty()
        },
    }
}

/// What of a rule survives being written and read back: an empty prefix or an empty
/// tag list reads back as none; everything else, the transition included, comes back.
pub open spec fn normalize_rule(r: LifecycleRuleView) -> LifecycleRuleView {
    LifecycleRuleView {
        prefix: if has_prefix(r) { r.prefix } else { None },
        tags: if has_tags(r) { r.tags } else { None },
        ..r
    }
}

/// Reading back a written rule gives the rule itself, but for what `normalize_rule` drops.
pub proof fn lemma_rule_round_trip(r: LifecycleRuleView)
    ensures
        decode_rule(encode_rule(r)) == normalize_rule(r),
{
}

/// Every rule of a list, as written to the S3 API.
pub open spec fn encode_rules(rs: Seq<LifecycleRuleView>) -> Seq<AwsLifecycleRuleView> {
    rs.map_values(|r: LifecycleRuleView| encode_rule(r))
}

/// Every rule of a list read from the S3 API.
pub open spec fn decode_rules(rs: Seq<AwsLifecycleRuleView>) -> Seq<LifecycleRuleView> {
    rs.map_values(|r: AwsLifecycleRuleView| decode_rule(r))
}

/// Every rule of a list, as `normalize_rule` leaves it.
pub open spec fn normalize_rules(rs: Seq<LifecycleRuleView>) -> Seq<LifecycleRuleView> {
    rs.map_values(|r: LifecycleRuleView| normalize_rule(r))
}

/// Reading back a written list of rules gives the list, each rule as `normalize_rule` leaves it.
pub proof fn lemma_rules_round_trip(rs: Seq<LifecycleRuleView>)
    ensures
        decode_rules(encode_rules(rs)) == normalize_rules(rs),
{
    assert forall|i: int| 0 <= i < rs.len() implies #[trigger] decode_rules(encode_rules(rs))[i]
        == normalize_rules(rs)[i] by {
        lemma_rule_round_trip(rs[i]);
    }
    assert(decode_rules(encode_rules(rs)) =~= normalize_rules(rs));
}

/// Whether a rule has a size bound or a non-empty tag list: its filter is then written as an
/// AND operator.
pub open spec fn filtered_by_and(r: LifecycleRuleView) -> bool {
    r.object_size_greater_than is Some || r.object_size_less_than is Some || (r.tags matches Some(
        t,
    ) && t.len() > 0)
}

/// How a rule is written to the S3 API, field by field: its id and status; an AND operator
/// holding its size bounds as they are (lower bound as `ObjectSizeGreaterThan`, upper bound
/// as `ObjectSizeLessThan`), its tags and its non-empty prefix, when it has a size bound or
/// tags; else a plain prefix filter (empty when it has no prefix); its expiration,
/// non-current version expiration and transition.
pub proof fn lemma_written_rule_fields(r: LifecycleRuleView)
    ensures
        encode_rule(r).id == Some(r.id),
        encode_rule(r).status == (if r.enabled {
            AwsExpirationStatus::Enabled
        } else {
            AwsExpirationStatus::Disabled
        }),
        encode_rule(r).filter is Some,
        filtered_by_and(r) ==> (encode_rule(r).filter->0.and matches Some(a)
            && a.object_size_greater_than == r.object_size_greater_than
            && a.object_size_less_than == r.object_size_less_than && a.tags == (match r.tags {
            Some(t) => t,
            None => Seq::empty(),
        }) && a.prefix == (if r.prefix matches Some(p) && p.len() > 0 {
            r.prefix
        } else {
            None
        }) && encode_rule(r).filter->0.prefix is None && encode_rule(r).filter->0.tag is None
            && encode_rule(r).filter->0.object_size_greater_than is None
            && encode_rule(r).filter->0.object_size_less_than is None),
        !filtered_by_and(r) ==> encode_rule(r).filter->0 == (AwsLifecycleFilterView {
            prefix: if r.prefix matches Some(p) && p.len() > 0 {
                r.prefix
            } else {
                Some(Seq::empty())
            },
            tag: None,
            and: None,
            object_size_greater_than: None,
            object_size_less_than: None,
        }),
        encode_rule(r).expiration == (match r.expiration_days {
            Some(d) => Some(AwsLifecycleExpiration { days: Some(d) }),
            None => None,
        }),
        encode_rule(r).noncurrent_version_expiration == (match r.noncurrent_version_expiration_days {
            Some(d) => Some(AwsNoncurrentVersionExpiration { noncurrent_days: Some(d) }),
            None => None,
        }),
        (r.transition_days is Some || r.transition_storage_class is Some) ==> encode_rule(
            r,
        ).transitions == seq![
            AwsTransitionView { days: r.transition_days, storage_class: r.transition_storage_class },
        ],
        !(r.transition_days is Some || r.transition_storage_class is Some) ==> encode_rule(
            r,
        ).transitions.len() == 0,
{
}

/// How a rule read from the S3 API is taken, field by field: its id (empty when none), its
/// status, expiration, non-current version expiration and first transition; its size
/// bounds from the filter itself, else from the AND operator, each bound as the same bound;
/// its prefix from the AND operator when non-empty, else from the filter when non-empty;
/// its tags from the AND operator when there are any, else the filter's single tag.
pub proof fn lemma_read_rule_fields(rule: AwsLifecycleRuleView)
    ensures
        decode_rule(rule).id == (match rule.id {
            Some(i) => i,
            None => Seq::empty(),
        }),
        decode_rule(rule).enabled == (rule.status == AwsExpirationStatus::Enabled),
        decode_rule(rule).expiration_days == (match rule.expiration {
            Some(e) => e.days,
            None => None,
        }),
        decode_rule(rule).noncurrent_version_expiration_days == (
        match rule.noncurrent_version_expiration {
            Some(n) => n.noncurrent_days,
            None => None,
        }),
        rule.transitions.len() > 0 ==> decode_rule(rule).transition_days == rule.transitions[0].days
            && decode_rule(rule).transition_storage_class == rule.transitions[0].storage_class,
        rule.transitions.len() == 0 ==> decode_rule(rule).transition_days is None
            && decode_rule(rule).transition_storage_class is None,
        rule.filter is None ==> decode_rule(rule).prefix is None && decode_rule(rule).tags is None
            && decode_rule(rule).object_size_greater_than is None
            && decode_rule(rule).object_size_less_than is None,
        rule.filter matches Some(f) ==> decode_rule(rule).object_size_greater_than == (
        if f.object_size_greater_than is Some {
            f.object_size_greater_than
        } else {
            match f.and {
                Some(a) => a.object_size_greater_than,
                None => None,
            }
        }),
        rule.filter matches Some(f) ==> decode_rule(rule).object_size_less_than == (
        if f.object_size_less_than is Some {
            f.object_size_less_than
        } else {
            match f.and {
                Some(a) => a.object_size_less_than,
                None => None,
            }
        }),
        rule.filter matches Some(f) ==> decode_rule(rule).prefix == (
        if f.and matches Some(a) && a.prefix matches Some(p) && p.len() > 0 {
            f.and->0.prefix
        } else if f.prefix matches Some(p) && p.len() > 0 {
            f.prefix
        } else {
            None
        }),
        rule.filter matches Some(f) ==> decode_rule(rule).tags == (
        if f.and matches Some(a) && a.tags.len() > 0 {
            Some(f.and->0.tags)
        } else if f.tag is Some {
            Some(seq![f.tag->0])
        } else {
            None
        }),
{
}

/// A list of rules is written and read rule by rule, in order.
pub proof fn lemma_rule_lists(written: Seq<LifecycleRuleView>, read: Seq<AwsLifecycleRuleView>)
    ensures
        encode_rules(written).len() == written.len(),
        forall|i: int| 0 <= i < written.len() ==> #[trigger] encode_rules(written)[i] == encode_rule(written[i]),
        decode_rules(read).len() == read.len(),
        forall|i: int| 0 <= i < read.len() ==> #[trigger] decode_rules(read)[i] == decode_rule(read[i]),
{
}

// ─── Executable conversions ─────────────────────────────────────────────────

/// The rule that a rule read from the S3 API stands for.
pub fn decode_lifecycle_rule(rule: AwsLifecycleRule) -> (r: LifecycleRule)
    ensures
        r.deep_view() == decode_rule(rule.deep_view()),
{
    let ghost rv = rule.deep_view();
    let mut prefix: Option<String> = None;
    let mut tags: Option<Vec<LifecycleTag>> = None;
    let mut object_size_greater_than: Option<i64> = None;
    let mut object_size_less_than: Option<i64> = None;

    if let Some(filter) = rule.filter {
        if let Some(p) = filter.prefix {
            if !p.as_str().is_empty() {
                prefix = Some(p);
            }
        }
        if let Some(tag) = filter.tag {
            tags = Some(vec![tag]);
        }
        if let Some(and_op) = filter.and {
            if let Some(p) = and_op.prefix {
                if !p.as_str().is_empty() {
                    prefix = Some(p);
                }
            }
            let and_tags = and_op.tags;
            if and_tags.len() > 0 {
                tags = Some(and_tags);
            }
            if let Some(size) = and_op.object_size_greater_than {
                object_size_greater_than = Some(size);
            }
            if let Some(size) = and_op.object_size_less_than {
                object_size_less_than = Some(size);
            }
        }
        if let Some(size) = filter.object_size_greater_than {
            object_size_greater_than = Some(size);
        }
        if let Some(size) = filter.object_size_less_than {
            object_size_less_than = Some(size);
        }
    }

    let id = match rule.id {
        Some(i) => i,
        None => String::new(),
    };
    let expiration_days = match rule.expiration {
        Some(e) => e.days,
        None => None,
    };
    let noncurrent_version_expiration_days = match rule.noncurrent_version_expiration {
        Some(n) => n.noncurrent_days,
        None => None,
    };
    let mut transitions = rule.transitions;
    let (transition_days, transition_storage_class) = if transitions.len() > 0 {
        let first = transitions.remove(0);
        (first.days, first.storage_class)
    } else {
        (None, None)
    };
    let r = LifecycleRule {
        id,
        prefix,
        enabled: rule.status == AwsExpirationStatus::Enabled,
        expiration_days,
        noncurrent_version_expiration_days,
        transition_days,
        transition_storage_class,
        tags,
        object_size_greater_than,
        object_size_less_than,
    };
    assert(r.deep_view().tags =~~= decode_rule(rv).tags);
    r
}

/// The rule as it is written to the S3 API.
pub fn encode_lifecycle_rule(rule: LifecycleRule) -> (r: AwsLifecycleRule)
    ensures
        r.deep_view() == encode_rule(rule.deep_view()),
{
    let ghost rv = rule.deep_view();
    let status = if rule.enabled {
        AwsExpirationStatus::Enabled
    } else {
        AwsExpirationStatus::Disabled
    };
    let has_tags = match &rule.tags {
        Some(t) => t.len() > 0,
        None => false,
    };
    let has_size_filters = rule.object_size_greater_than.is_some()
        || rule.object_size_less_than.is_some();
    let has_prefix = match &rule.prefix {
        Some(p) => !p.as_str().is_empty(),
        None => false,
    };
    let count: i32 = (if has_prefix { 1i32 } else { 0i32 }) + (if has_tags { 1i32 } else { 0i32 }) + (
    if has_size_filters { 1i32 } else { 0i32 });
    let needs_and = count > 1 || has_tags || has_size_filters;

    let filter = if needs_and {
        let and_prefix = if has_prefix { rule.prefix } else { None };
        let and_tags = match rule.tags {
            Some(t) => t,
            None => Vec::new(),
        };
        AwsLifecycleFilter {
            prefix: None,
            tag: None,
            and: Some(AwsLifecycleAnd {
                prefix: and_prefix,
                tags: and_tags,
                object_size_greater_than: rule.object_size_greater_than,
                object_size_less_than: rule.object_size_less_than,
            }),
            object_size_greater_than: None,
            object_size_less_than: None,
        }
    } else if has_prefix {
        AwsLifecycleFilter {
            prefix: rule.prefix,
            tag: None,
            and: None,
            object_size_greater_than: None,
            object_size_less_than: None,
        }
    } else {
        AwsLifecycleFilter {
            prefix: Some(String::new()),
            tag: None,
            and: None,
            object_size_greater_than: None,
            object_size_less_than: None,
        }
    };
    let expiration = match rule.expiration_days {
        Some(days) => Some(AwsLifecycleExpiration { days: Some(days) }),
        None => None,
    };
    let noncurrent = match rule.noncurrent_version_expiration_days {
        Some(days) => Some(AwsNoncurrentVersionExpiration { noncurrent_days: Some(days) }),
        None => None,
    };
    let transitions = if rule.transition_days.is_some() || rule.transition_storage_class.is_some() {
        vec![AwsTransition { days: rule.transition_days, storage_class: rule.transition_storage_class }]
    } else {
        Vec::new()
    };
    let r = AwsLifecycleRule {
        id: Some(rule.id),
        status,
        filter: Some(filter),
        expiration,
        noncurrent_version_expiration: noncurrent,
        transitions,
    };
    assert(r.deep_view().filter =~~= encode_rule(rv).filter);
    r
}

/// Every rule of a list, as written to the S3 API.
pub fn encode_lifecycle_rules(rules: Vec<LifecycleRule>) -> (r: Vec<AwsLifecycleRule>)
    ensures
        r.deep_view() == encode_rules(rules.deep_view()),
{
    let ghost input = rules.deep_view();
    let mut rest = rules;
    let mut out: Vec<AwsLifecycleRule> = Vec::new();
    while rest.len() > 0
        invariant
            out.deep_view() + encode_rules(rest.deep_view()) =~= encode_rules(input),
        decreases rest.len(),
    {
        let ghost before = rest.deep_view();
        let rule = rest.remove(0);
        assert(before =~= seq![rule.deep_view()] + rest.deep_view());
        out.push(encode_lifecycle_rule(rule));
        assert(encode_rules(before) =~= seq![encode_rule(rule.deep_view())] + encode_rules(rest.deep_view()));
    }
    assert(encode_rules(rest.deep_view()) =~= Seq::<AwsLifecycleRuleView>::empty());
    out
}

/// Every rule of a list read from the S3 API.
pub fn decode_lifecycle_rules(rules: Vec<AwsLifecycleRule>) -> (r: Vec<LifecycleRule>)
    ensures
        r.deep_view() == decode_rules(rules.deep_view()),
{
    let ghost input = rules.deep_view();
    let mut rest = rules;
    let mut out: Vec<LifecycleRule> = Vec::new();
    while rest.len() > 0
        invariant
            out.deep_view() + decode_rules(rest.deep_view()) =~= decode_rules(input),
        decreases rest.len(),
    {
        let ghost before = rest.deep_view();
        let rule = rest.remove(0);
        assert(before =~= seq![rule.deep_view()] + rest.deep_view());
        out.push(decode_lifecycle_rule(rule));
        assert(decode_rules(before) =~= seq![decode_rule(rule.deep_view())] + decode_rules(rest.deep_view()));
    }
    assert(decode_rules(rest.deep_view()) =~= Seq::<LifecycleRuleView>::empty());
    out
}

// ─── Outcomes of the lifecycle requests ─────────────────────────────────────

/// Whether the error text of a failed read of lifecycle rules means that none are configured.
pub open spec fn lifecycle_absent(text: Seq<char>) -> bool {
    seq_contains(text, "NoSuchLifecycleConfiguration"@) || seq_contains(text, "404"@)
        || seq_contains(text, "NoSuchConfiguration"@) || seq_contains(text, "does not exist"@)
        || seq_contains(text, "missing field"@)
}

/// Whether the error text of a failed removal of lifecycle rules means that none were configured.
pub open spec fn lifecycle_already_absent(text: Seq<char>) -> bool {
    seq_contains(text, "NoSuchLifecycleConfiguration"@) || seq_contains(text, "404"@)
        || seq_contains(text, "NoSuchConfiguration"@)
}

/// The rules a read of the lifecycle configuration yields: the rules read back, or
/// none when the error says that no configuration exists, or an `S3Error`.
/// `response` holds the rules read, or the debug text of the failure.
pub fn get_lifecycle_rules_outcome(response: std::result::Result<Vec<AwsLifecycleRule>, String>) -> (r:
    std::result::Result<Vec<LifecycleRule>, ObsError>)
    ensures
        response matches Ok(rules) ==> r matches Ok(v) && v.deep_view() == decode_rules(
            rules.deep_view(),
        ),
        response matches Err(text) ==> if lifecycle_absent(text@) {
            r matches Ok(v) && v@.len() == 0
        } else {
            r matches Err(ObsError::S3Error(m)) && m@ == "Failed to get lifecycle rules: "@ + text@
        },
{
    match response {
        Ok(rules) => Ok(decode_lifecycle_rules(rules)),
        Err(text) => {
            let t = chars_of(text.as_str());
            if has_text(&t, "NoSuchLifecycleConfiguration") || has_text(&t, "404") || has_text(
                &t,
                "NoSuchConfiguration",
            ) || has_text(&t, "does not exist") || has_text(&t, "missing field") {
                Ok(Vec::new())
            } else {
                Err(ObsError::S3Error(concat2("Failed to get lifecycle rules: ", text.as_str())))
            }
        },
    }
}

/// The outcome of writing lifecycle rules; `result` holds the debug text of a failure.
pub fn put_lifecycle_rules_outcome(result: std::result::Result<(), String>) -> (r:
    std::result::Result<(), ObsError>)
    ensures
        result is Ok ==> r is Ok,
        result matches Err(text) ==> r matches Err(ObsError::S3Error(m)) && m@
            == "Failed to set lifecycle rules: "@ + text@,
{
    match result {
        Ok(()) => Ok(()),
        Err(text) => Err(ObsError::S3Error(concat2("Failed to set lifecycle rules: ", text.as_str()))),
    }
}

/// The outcome of removing the lifecycle rules: removing rules that are not there succeeds.
/// `result` holds the text of a failure.
pub fn delete_lifecycle_rules_outcome(result: std::result::Result<(), String>) -> (r:
    std::result::Result<(), ObsError>)
    ensures
        result is Ok ==> r is Ok,
        result matches Err(text) ==> if lifecycle_already_absent(text@) {
            r is Ok
        } else {
            r matches Err(ObsError::S3Error(m)) && m@ == text@
        },
{
    match result {
        Ok(()) => Ok(()),
        Err(text) => {
            let t = chars_of(text.as_str());
            if has_text(&t, "NoSuchLifecycleConfiguration") || has_text(&t, "404") || has_text(
                &t,
                "NoSuchConfiguration",
            ) {
                Ok(())
            } else {
                Err(ObsError::S3Error(text))
            }
        },
    }
}

} // verus!
