//! Object Lock (WORM): the request bodies and URLs of the Object Lock and retention
//! operations, and what their replies mean.

use vstd::prelude::*;

use crate::error::{ObsError, ObsErrorView};
use crate::text::{
    chars_of, concat2, digit_value, find_from, find_text, i64_to_decimal, lacks,
    lemma_contains_middle, lemma_find_skip, lemma_lacks_concat, lemma_lacks_not_contains,
    lemma_signed_decimal_reads_back, parse_i64, parse_signed, seq_contains, signed_decimal,
    slice_chars, str_contains,
};
use crate::types::{DefaultWormRetention, ObjectLockConfiguration, WormRetention, WormRetentionMode};

verus! {

/// Whether an HTTP status is a success (2xx).
pub open spec fn is_success(status: u16) -> bool {
    200 <= status < 300
}

/// The error for a request that could not be sent; `text` is the client error's text.
pub fn request_failed(text: &str) -> (e: ObsError)
    ensures
        e@ == ObsErrorView::Other("Request failed: "@ + text@),
{
    ObsError::Other(concat2("Request failed: ", text))
}

/// The URL of a bucket's Object Lock configuration, given the bucket's base URL.
pub fn object_lock_url(bucket_url: &str) -> (u: String)
    ensures
        u@ == bucket_url@ + "/?object-lock"@,
{
    concat2(bucket_url, "/?object-lock")
}

/// The URL of an object's retention, given the bucket's base URL, for one version if given.
pub fn retention_url(bucket_url: &str, key: &str, version_id: Option<&str>) -> (u: String)
    ensures
        u@ == bucket_url@ + "/"@ + key@ + "?retention"@ + match version_id {
            Some(v) => "&versionId="@ + v@,
            None => Seq::empty(),
        },
{
    let mut u = String::from_str(bucket_url);
    u.append("/");
    u.append(key);
    u.append("?retention");
    if let Some(v) = version_id {
        u.append("&versionId=");
        u.append(v);
    }
    u
}

// ─── Object Lock configuration ───────────────────────────────────────────────

pub open spec fn xml_declaration() -> Seq<char> {
    "<?xml version=\"1.0\" encoding=\"UTF-8\"?>\n"@
}

pub open spec fn lock_open() -> Seq<char> {
    "<ObjectLockConfiguration xmlns=\"http://obs.myhuaweicloud.com/doc/2015-06-30/\">\n"@
}

pub open spec fn lock_enabled_line() -> Seq<char> {
    "    <ObjectLockEnabled>Enabled</ObjectLockEnabled>\n"@
}

pub open spec fn lock_close() -> Seq<char> {
    "</ObjectLockConfiguration>"@
}

/// The element whose presence in a reply means that Object Lock is enabled.
pub open spec fn lock_enabled_marker() -> Seq<char> {
    "<ObjectLockEnabled>Enabled</ObjectLockEnabled>"@
}

/// The period line of a default retention: days if set, else years if set, else nothing.
pub open spec fn retention_period_line(r: DefaultWormRetention) -> Seq<char> {
    match r.days {
        Some(d) => "            <Days>"@ + signed_decimal(d as int) + "</Days>\n"@,
        None => match r.years {
            Some(y) => "            <Years>"@ + signed_decimal(y as int) + "</Years>\n"@,
            None => Seq::empty(),
        },
    }
}

/// The rule element of a default retention; its mode is always `COMPLIANCE`.
pub open spec fn retention_rule(r: DefaultWormRetention) -> Seq<char> {
    "    <Rule>\n"@ + "        <DefaultRetention>\n"@ + "            <Mode>COMPLIANCE</Mode>\n"@
        + retention_period_line(r) + "        </DefaultRetention>\n"@ + "    </Rule>\n"@
}

/// The body that sets an Object Lock configuration. A default retention is written
/// only when Object Lock is enabled.
pub open spec fn object_lock_body(c: ObjectLockConfiguration) -> Seq<char> {
    xml_declaration() + lock_open() + (if c.enabled {
        lock_enabled_line() + match c.default_retention {
            Some(r) => retention_rule(r),
            None => Seq::empty(),
        }
    } else {
        Seq::empty()
    }) + lock_close()
}

/// The configuration a successful read reports, given the reply body: enabled exactly
/// when the body holds the enabled element; the default retention is not read.
pub open spec fn object_lock_from_reply(body: Seq<char>) -> ObjectLockConfiguration {
    ObjectLockConfiguration {
        enabled: seq_contains(body, lock_enabled_marker()),
        default_retention: None,
    }
}

/// A read reports Object Lock enabled exactly when the reply holds the element
/// `<ObjectLockEnabled>Enabled</ObjectLockEnabled>`, wherever and however it is laid out
/// around it; the default retention is not read.
pub proof fn lemma_enabled_read_from_element(body: Seq<char>)
    ensures
        object_lock_from_reply(body).enabled == seq_contains(
            body,
            "<ObjectLockEnabled>Enabled</ObjectLockEnabled>"@,
        ),
        object_lock_from_reply(body).default_retention is None,
{
}

/// Reading the Object Lock configuration back from a body that set it reports it
/// enabled exactly when it was set enabled.
pub proof fn lemma_object_lock_enabled_round_trip(c: ObjectLockConfiguration)
    ensures
        object_lock_from_reply(object_lock_body(c)).enabled == c.enabled,
{
    reveal_strlit("<?xml version=\"1.0\" encoding=\"UTF-8\"?>\n");
    reveal_strlit(
        "<ObjectLockConfiguration xmlns=\"http://obs.myhuaweicloud.com/doc/2015-06-30/\">\n",
    );
    reveal_strlit("    <ObjectLockEnabled>Enabled</ObjectLockEnabled>\n");
    reveal_strlit("</ObjectLockConfiguration>");
    reveal_strlit("<ObjectLockEnabled>Enabled</ObjectLockEnabled>");
    let body = object_lock_body(c);
    let marker = lock_enabled_marker();
    let pre = xml_declaration() + lock_open();
    if c.enabled {
        let tail = match c.default_retention {
            Some(r) => retention_rule(r),
            None => Seq::<char>::empty(),
        };
        let middle = lock_enabled_line() + tail;
        assert(body =~= pre + middle + lock_close());
        let i: int = pre.len() as int + 4;
        assert(body.subrange(i, i + marker.len()) =~= marker);
    } else {
        assert(body =~= pre + lock_close());
        assert forall|j: int| 0 <= j < body.len() implies body[j] != 'E' by {
            if j < xml_declaration().len() {
                assert(body[j] == xml_declaration()[j]);
            } else if j < pre.len() {
                assert(body[j] == lock_open()[j - xml_declaration().len()]);
            } else {
                assert(body[j] == lock_close()[j - pre.len()]);
            }
        }
        if seq_contains(body, marker) {
            let i = choose|i: int|
                0 <= i && i + marker.len() <= body.len() && #[trigger] body.subrange(
                    i,
                    i + marker.len(),
                ) == marker;
            assert(body.subrange(i, i + marker.len())[11] == marker[11]);
            assert(body[i + 11] == 'E');
        }
    }
}

/// Setting a configuration with Object Lock disabled sends the same body whatever default
/// retention it holds: the body that removing the configuration sends.
pub proof fn lemma_disabled_body_ignores_retention(c: ObjectLockConfiguration)
    requires
        !c.enabled,
    ensures
        object_lock_body(c) == object_lock_body(
            ObjectLockConfiguration { enabled: false, default_retention: None },
        ),
{
}

/// Setting an Object Lock configuration that is enabled with a default retention writes
/// the `COMPLIANCE` mode and the retention period: its days when days are set (and then no
/// years), else its years when years are set. A configuration that is disabled, or has no
/// default retention, writes no period.
pub proof fn lemma_object_lock_body_period(c: ObjectLockConfiguration)
    ensures
        c.enabled && c.default_retention is Some ==> seq_contains(
            object_lock_body(c),
            "<Mode>COMPLIANCE</Mode>"@,
        ),
        c.enabled && c.default_retention is Some && c.default_retention->0.days is Some ==> seq_contains(
            object_lock_body(c),
            "<Days>"@ + signed_decimal(c.default_retention->0.days->0 as int) + "</Days>"@,
        ),
        c.enabled && c.default_retention is Some && c.default_retention->0.days is Some ==> !seq_contains(
            object_lock_body(c),
            "<Years>"@,
        ),
        c.enabled && c.default_retention is Some && c.default_retention->0.days is None
            && c.default_retention->0.years is Some ==> seq_contains(
            object_lock_body(c),
            "<Years>"@ + signed_decimal(c.default_retention->0.years->0 as int) + "</Years>"@,
        ),
        !c.enabled || c.default_retention is None ==> !seq_contains(object_lock_body(c), "<Days>"@)
            && !seq_contains(object_lock_body(c), "<Years>"@),
{
    reveal_strlit("<?xml version=\"1.0\" encoding=\"UTF-8\"?>\n");
    reveal_strlit(
        "<ObjectLockConfiguration xmlns=\"http://obs.myhuaweicloud.com/doc/2015-06-30/\">\n",
    );
    reveal_strlit("    <ObjectLockEnabled>Enabled</ObjectLockEnabled>\n");
    reveal_strlit("</ObjectLockConfiguration>");
    reveal_strlit("    <Rule>\n");
    reveal_strlit("        <DefaultRetention>\n");
    reveal_strlit("            <Mode>COMPLIANCE</Mode>\n");
    reveal_strlit("            <Days>");
    reveal_strlit("</Days>\n");
    reveal_strlit("            <Years>");
    reveal_strlit("</Years>\n");
    reveal_strlit("        </DefaultRetention>\n");
    reveal_strlit("    </Rule>\n");
    reveal_strlit("<Mode>COMPLIANCE</Mode>");
    reveal_strlit("            ");
    reveal_strlit("\n");
    reveal_strlit("<Days>");
    reveal_strlit("</Days>");
    reveal_strlit("<Years>");
    reveal_strlit("</Years>");
    let body = object_lock_body(c);
    let head = xml_declaration() + lock_open();
    assert(lacks(xml_declaration(), 'Y') && lacks(xml_declaration(), 'D'));
    assert(lacks(lock_open(), 'Y') && lacks(lock_open(), 'D'));
    assert(lacks(lock_enabled_line(), 'Y') && lacks(lock_enabled_line(), 'D'));
    assert(lacks(lock_close(), 'Y') && lacks(lock_close(), 'D'));
    lemma_lacks_concat(xml_declaration(), lock_open(), 'Y');
    lemma_lacks_concat(xml_declaration(), lock_open(), 'D');
    assert("<Years>"@[1] == 'Y' && "<Days>"@[1] == 'D');
    if c.enabled && c.default_retention is Some {
        let r = c.default_retention->0;
        let pre = "    <Rule>\n"@ + "        <DefaultRetention>\n"@;
        let mode = "            <Mode>COMPLIANCE</Mode>\n"@;
        let post = "        </DefaultRetention>\n"@ + "    </Rule>\n"@;
        let period = retention_period_line(r);
        assert(retention_rule(r) =~= pre + mode + period + post);
        let front = head + lock_enabled_line() + pre;
        let back = period + post + lock_close();
        assert(body =~= front + mode + back);
        assert(mode =~= "            "@ + "<Mode>COMPLIANCE</Mode>"@ + "\n"@);
        assert(body =~= (front + "            "@) + "<Mode>COMPLIANCE</Mode>"@ + ("\n"@ + back));
        lemma_contains_middle(front + "            "@, "<Mode>COMPLIANCE</Mode>"@, "\n"@ + back);
        if r.days is Some {
            let d = r.days->0;
            let dec = signed_decimal(d as int);
            let item = "<Days>"@ + dec + "</Days>"@;
            assert(period =~= "            "@ + item + "\n"@);
            assert(body =~= (front + mode + "            "@) + item + ("\n"@ + post + lock_close()));
            lemma_contains_middle(front + mode + "            "@, item, "\n"@ + post + lock_close());
            lemma_signed_decimal_reads_back(d as int);
            assert(lacks(dec, 'Y')) by {
                assert forall|j: int| 0 <= j < dec.len() implies dec[j] != 'Y' by {
                    assert(dec[j] == '-' || digit_value(dec[j]) >= 0);
                }
            }
            assert(lacks(period, 'Y')) by {
                lemma_lacks_concat("            <Days>"@, dec, 'Y');
                lemma_lacks_concat("            <Days>"@ + dec, "</Days>\n"@, 'Y');
            }
            assert(lacks(pre, 'Y') && lacks(mode, 'Y') && lacks(post, 'Y'));
            lemma_lacks_concat(head, lock_enabled_line(), 'Y');
            lemma_lacks_concat(head + lock_enabled_line(), pre, 'Y');
            lemma_lacks_concat(front, mode, 'Y');
            lemma_lacks_concat(front + mode, period, 'Y');
            lemma_lacks_concat(front + mode + period, post, 'Y');
            lemma_lacks_concat(front + mode + period + post, lock_close(), 'Y');
            assert(body =~= front + mode + period + post + lock_close());
            lemma_lacks_not_contains(body, "<Years>"@, 1);
        } else if r.years is Some {
            let y = r.years->0;
            let item = "<Years>"@ + signed_decimal(y as int) + "</Years>"@;
            assert(period =~= "            "@ + item + "\n"@);
            assert(body =~= (front + mode + "            "@) + item + ("\n"@ + post + lock_close()));
            lemma_contains_middle(front + mode + "            "@, item, "\n"@ + post + lock_close());
        }
    } else {
        let middle = if c.enabled {
            lock_enabled_line()
        } else {
            Seq::<char>::empty()
        };
        assert(body =~= head + middle + lock_close());
        assert(lacks(middle, 'Y') && lacks(middle, 'D'));
        lemma_lacks_concat(head, middle, 'Y');
        lemma_lacks_concat(head, middle, 'D');
        lemma_lacks_concat(head + middle, lock_close(), 'Y');
        lemma_lacks_concat(head + middle, lock_close(), 'D');
        lemma_lacks_not_contains(body, "<Years>"@, 1);
        lemma_lacks_not_contains(body, "<Days>"@, 1);
    }
}

fn period_line(retention: &DefaultWormRetention) -> (s: String)
    ensures
        s@ == retention_period_line(*retention),
{
    match retention.days {
        Some(days) => {
            let n = i64_to_decimal(days as i64);
            let mut s = String::from_str("            <Days>");
            s.append(n.as_str());
            s.append("</Days>\n");
            s
        },
        None => match retention.years {
            Some(years) => {
                let n = i64_to_decimal(years as i64);
                let mut s = String::from_str("            <Years>");
                s.append(n.as_str());
                s.append("</Years>\n");
                s
            },
            None => String::new(),
        },
    }
}

/// The body that sets the Object Lock configuration `config`.
pub fn object_lock_xml(config: &ObjectLockConfiguration) -> (x: String)
    ensures
        x@ == object_lock_body(*config),
{
    let mut xml = String::from_str("<?xml version=\"1.0\" encoding=\"UTF-8\"?>\n");
    xml.append(
        "<ObjectLockConfiguration xmlns=\"http://obs.myhuaweicloud.com/doc/2015-06-30/\">\n",
    );
    let ghost head = xml@;
    if config.enabled {
        xml.append("    <ObjectLockEnabled>Enabled</ObjectLockEnabled>\n");
        if let Some(retention) = &config.default_retention {
            xml.append("    <Rule>\n");
            xml.append("        <DefaultRetention>\n");
            xml.append("            <Mode>COMPLIANCE</Mode>\n");
            let line = period_line(retention);
            xml.append(line.as_str());
            xml.append("        </DefaultRetention>\n");
            xml.append("    </Rule>\n");
        }
    }
    xml.append("</ObjectLockConfiguration>");
    assert(xml@ =~= object_lock_body(*config));
    xml
}

/// What a read of the Object Lock configuration does after the reply's status: a
/// success goes on to read the body; otherwise it is finished.
pub enum LockReadStep {
    /// The read is over, with this result.
    Finished(std::result::Result<ObjectLockConfiguration, ObsError>),
    /// The reply body is to be read.
    ReadBody,
}

/// What the status of a reply to reading the Object Lock configuration decides: 404 means
/// none is configured (disabled, no retention); another failure is an error naming the
/// status (`status_text` is its display text); a success has the body read.
pub fn object_lock_status_step(status: u16, status_text: &str) -> (s: LockReadStep)
    ensures
        is_success(status) ==> s is ReadBody,
        !is_success(status) && status == 404 ==> (s matches LockReadStep::Finished(Ok(c))
            && !c.enabled && c.default_retention is None),
        !is_success(status) && status != 404 ==> (s matches LockReadStep::Finished(Err(e)) && e@
            == ObsErrorView::Other("Failed to get object lock config: "@ + status_text@)),
{
    if !(200 <= status && status < 300) {
        if status == 404 {
            return LockReadStep::Finished(
                Ok(ObjectLockConfiguration { enabled: false, default_retention: None }),
            );
        }
        return LockReadStep::Finished(
            Err(ObsError::Other(concat2("Failed to get object lock config: ", status_text))),
        );
    }
    LockReadStep::ReadBody
}

/// The configuration a read reports, given the body that was read, or the text of the
/// failure to read it.
pub fn object_lock_from_body(body: std::result::Result<String, String>) -> (r: std::result::Result<
    ObjectLockConfiguration,
    ObsError,
>)
    ensures
        body matches Ok(xml) ==> r == Ok::<ObjectLockConfiguration, ObsError>(
            object_lock_from_reply(xml@),
        ),
        body matches Ok(xml) ==> (r matches Ok(c) && c.enabled == seq_contains(
            xml@,
            "<ObjectLockEnabled>Enabled</ObjectLockEnabled>"@,
        ) && c.default_retention is None),
        body matches Err(text) ==> (r matches Err(e) && e@ == ObsErrorView::Other(
            "Failed to read response: "@ + text@,
        )),
{
    match body {
        Ok(xml) => {
            let enabled = str_contains(xml.as_str(), "<ObjectLockEnabled>Enabled</ObjectLockEnabled>");
            Ok(ObjectLockConfiguration { enabled, default_retention: None })
        },
        Err(text) => Err(ObsError::Other(concat2("Failed to read response: ", text.as_str()))),
    }
}

/// The outcome of setting the Object Lock configuration, given the reply's status and its
/// display text.
pub fn put_object_lock_outcome(status: u16, status_text: &str) -> (r: std::result::Result<
    (),
    ObsError,
>)
    ensures
        is_success(status) ==> r is Ok,
        !is_success(status) ==> (r matches Err(e) && e@ == ObsErrorView::Other(
            "Failed to set object lock config: "@ + status_text@,
        )),
{
    if !(200 <= status && status < 300) {
        return Err(ObsError::Other(concat2("Failed to set object lock config: ", status_text)));
    }
    Ok(())
}

// ─── Object retention ─────────────────────────────────────────────────────────

/// The body that sets an object's retention; its mode is always `COMPLIANCE`.
pub open spec fn retention_body(r: WormRetention) -> Seq<char> {
    "<?xml version=\"1.0\" encoding=\"UTF-8\"?>\n<Retention>\n    <Mode>COMPLIANCE</Mode>\n    <RetainUntilDate>"@
        + signed_decimal(r.retain_until_date as int) + "</RetainUntilDate>\n</Retention>"@
}

/// The body that sets an object's retention names the `COMPLIANCE` mode, whatever the
/// retention's date.
pub proof fn lemma_retention_body_mode(w: WormRetention)
    ensures
        seq_contains(retention_body(w), "<Mode>COMPLIANCE</Mode>"@),
{
    let head = "<?xml version=\"1.0\" encoding=\"UTF-8\"?>\n<Retention>\n    <Mode>COMPLIANCE</Mode>\n    <RetainUntilDate>"@;
    let before = "<?xml version=\"1.0\" encoding=\"UTF-8\"?>\n<Retention>\n    "@;
    let after = "\n    <RetainUntilDate>"@;
    reveal_strlit("<?xml version=\"1.0\" encoding=\"UTF-8\"?>\n<Retention>\n    <Mode>COMPLIANCE</Mode>\n    <RetainUntilDate>");
    reveal_strlit("<?xml version=\"1.0\" encoding=\"UTF-8\"?>\n<Retention>\n    ");
    reveal_strlit("\n    <RetainUntilDate>");
    reveal_strlit("<Mode>COMPLIANCE</Mode>");
    let rest = signed_decimal(w.retain_until_date as int) + "</RetainUntilDate>\n</Retention>"@;
    assert(head =~= before + "<Mode>COMPLIANCE</Mode>"@ + after);
    assert(retention_body(w) =~= before + "<Mode>COMPLIANCE</Mode>"@ + (after + rest));
    lemma_contains_middle(before, "<Mode>COMPLIANCE</Mode>"@, after + rest);
}

/// The body that sets the retention `retention`.
pub fn retention_xml(retention: &WormRetention) -> (x: String)
    ensures
        x@ == retention_body(*retention),
{
    let date = i64_to_decimal(retention.retain_until_date);
    let mut xml = String::from_str(
        "<?xml version=\"1.0\" encoding=\"UTF-8\"?>\n<Retention>\n    <Mode>COMPLIANCE</Mode>\n    <RetainUntilDate>",
    );
    xml.append(date.as_str());
    xml.append("</RetainUntilDate>\n</Retention>");
    xml
}

/// The opening tag of the retention date in a reply.
pub open spec fn retain_until_tag() -> Seq<char> {
    "<RetainUntilDate>"@
}

/// The text of the retention date in a reply: what follows the first `<RetainUntilDate>`,
/// up to the next `<` or the end.
pub open spec fn retain_until_text(body: Seq<char>) -> Option<Seq<char>> {
    match find_from(body, retain_until_tag(), 0) {
        Some(p) => {
            let rest = body.subrange((p + retain_until_tag().len()) as int, body.len() as int);
            Some(
                match find_from(rest, "<"@, 0) {
                    Some(q) => rest.subrange(0, q as int),
                    None => rest,
                },
            )
        },
        None => None,
    }
}

/// The retention date a reply gives, when its date text is a decimal integer.
pub open spec fn retain_until_value(body: Seq<char>) -> Option<int> {
    match retain_until_text(body) {
        Some(t) => parse_signed(t),
        None => None,
    }
}

/// The check of a reply's status when reading an object's retention: a success goes on
/// to read the body; another status is an error naming it (`status_text` is its display text).
pub fn retention_status_check(status: u16, status_text: &str) -> (r: std::result::Result<
    (),
    ObsError,
>)
    ensures
        is_success(status) ==> r is Ok,
        !is_success(status) ==> (r matches Err(e) && e@ == ObsErrorView::Other(
            "Failed to get object retention: "@ + status_text@,
        )),
{
    if !(200 <= status && status < 300) {
        return Err(ObsError::Other(concat2("Failed to get object retention: ", status_text)));
    }
    Ok(())
}

/// The retention a read reports, given the reply body that was read, or the text of the
/// failure to read it: `COMPLIANCE` until the date the body gives. From a body without a
/// date that fits an `i64` it reports the date 0, as a reply that was not read.
pub fn retention_from_body(body: std::result::Result<String, String>) -> (r: std::result::Result<
    WormRetention,
    ObsError,
>)
    ensures
        body matches Err(text) ==> (r matches Err(e) && e@ == ObsErrorView::Other(
            "Failed to read response: "@ + text@,
        )),
        body matches Ok(xml) ==> match retain_until_value(xml@) {
            Some(v) => if i64::MIN <= v <= i64::MAX {
                r matches Ok(w) && w.mode == WormRetentionMode::Compliance && w.retain_until_date == v
            } else {
                r matches Ok(w) && w.mode == WormRetentionMode::Compliance && w.retain_until_date == 0
            },
            None => r matches Ok(w) && w.mode == WormRetentionMode::Compliance && w.retain_until_date == 0,
        },
{
    let xml = match body {
        Ok(x) => x,
        Err(text) => {
            return Err(ObsError::Other(concat2("Failed to read response: ", text.as_str())));
        },
    };
    let h = chars_of(xml.as_str());
    let tag = chars_of("<RetainUntilDate>");
    let value = match find_text(&h, &tag) {
        None => None,
        Some(p) => {
            proof {
                reveal_strlit("<RetainUntilDate>");
            }
            let total = h.len();
            let start = p + tag.len();
            let rest = slice_chars(&h, start, total);
            let lt = chars_of("<");
            let end = match find_text(&rest, &lt) {
                Some(q) => q,
                None => rest.len(),
            };
            let text = slice_chars(&rest, 0, end);
            proof {
                if end == rest.len() {
                    assert(text@ =~= rest@);
                }
            }
            parse_i64(&text)
        },
    };
    match value {
        Some(v) => Ok(WormRetention { mode: WormRetentionMode::Compliance, retain_until_date: v }),
        None => Ok(WormRetention { mode: WormRetentionMode::Compliance, retain_until_date: 0 }),
    }
}

/// The retention date read back from the body that sets a retention is the date that was set.
pub proof fn lemma_retention_round_trip(w: WormRetention)
    ensures
        retain_until_value(retention_body(w)) == Some(w.retain_until_date as int),
{
    let head = "<?xml version=\"1.0\" encoding=\"UTF-8\"?>\n<Retention>\n    <Mode>COMPLIANCE</Mode>\n    <RetainUntilDate>"@;
    let tail = "</RetainUntilDate>\n</Retention>"@;
    reveal_strlit("<?xml version=\"1.0\" encoding=\"UTF-8\"?>\n<Retention>\n    <Mode>COMPLIANCE</Mode>\n    <RetainUntilDate>");
    reveal_strlit("</RetainUntilDate>\n</Retention>");
    reveal_strlit("<RetainUntilDate>");
    reveal_strlit("<");
    let dec = signed_decimal(w.retain_until_date as int);
    let body = retention_body(w);
    let tag = retain_until_tag();
    assert(body =~= head + dec + tail);
    let p: nat = (head.len() - tag.len()) as nat;
    // The tag's `D` first occurs in the body at the tag that ends `head`.
    assert forall|j: int| 0 <= j < p + 12 implies head[j] != 'D' by {}
    assert forall|k: int| 0 <= k < p && k + tag.len() <= body.len() implies #[trigger] body.subrange(
        k,
        k + tag.len(),
    ) != tag by {
        assert(body.subrange(k, k + tag.len())[12] == body[k + 12]);
        assert(body[k + 12] == head[k + 12]);
    }
    lemma_find_skip(body, tag, 0, p);
    assert(body.subrange(p as int, (p + tag.len()) as int) =~= tag);
    assert(find_from(body, tag, 0) == Some(p));
    let rest = body.subrange((p + tag.len()) as int, body.len() as int);
    assert(rest =~= dec + tail);
    lemma_signed_decimal_reads_back(w.retain_until_date as int);
    assert forall|k: int| 0 <= k < dec.len() && k + 1 <= rest.len() implies #[trigger] rest.subrange(
        k,
        k + "<"@.len(),
    ) != "<"@ by {
        assert(rest.subrange(k, k + 1)[0] == dec[k]);
    }
    lemma_find_skip(rest, "<"@, 0, dec.len());
    assert(rest.subrange(dec.len() as int, (dec.len() + 1) as int) =~= "<"@);
    assert(find_from(rest, "<"@, 0) == Some(dec.len()));
    assert(rest.subrange(0, dec.len() as int) =~= dec);
}

/// The outcome of setting an object's retention, given the reply's status and body text.
pub fn put_object_retention_outcome(status: u16, body_text: &str) -> (r: std::result::Result<
    (),
    ObsError,
>)
    ensures
        is_success(status) ==> r is Ok,
        !is_success(status) ==> (r matches Err(e) && e@ == ObsErrorView::Other(
            "Failed to set object retention: "@ + body_text@,
        )),
{
    if !(200 <= status && status < 300) {
        return Err(ObsError::Other(concat2("Failed to set object retention: ", body_text)));
    }
    Ok(())
}

} // verus!
