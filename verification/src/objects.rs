//! What the bucket and object operations make of the replies of the S3 layers.
//!
//! The request itself is sent by the caller; each function here takes what came back,
//! as plain values, and gives the operation's result.

use std::time::SystemTime;
use vstd::prelude::*;

use crate::client::{aws_error_view, s3_error_view, failure_detail, ObsClient, S3ErrorReport, S3Failure};
use crate::error::{ObsError, ObsErrorView};
use crate::text::{concat2, lowercase, same_text};
use crate::types::{BucketInfo, ListOptions, ListResult, ObjectInfo, ObjectMetadata, UploadOptions};

verus! {

/// The error a rust-s3 failure becomes.
pub open spec fn s3_failure_view(report: S3ErrorReport) -> ObsErrorView {
    s3_error_view(report, lowercase(report.text@), lowercase(failure_detail(report.failure)))
}

/// The result of a rust-s3 call, with a failure converted by `ObsClient::convert_s3_error`.
pub fn s3_outcome<T>(result: std::result::Result<T, S3ErrorReport>) -> (r: std::result::Result<T, ObsError>)
    ensures
        result matches Ok(v) ==> r == Ok::<T, ObsError>(v),
        result matches Err(report) ==> (r matches Err(e) && e@ == s3_failure_view(report)),
{
    match result {
        Ok(v) => Ok(v),
        Err(report) => Err(ObsClient::convert_s3_error(&report)),
    }
}

/// A bucket as the bucket listing reports it.
#[derive(Debug)]
pub struct ListedBucket {
    pub name: Option<String>,
    pub creation_date: Option<SystemTime>,
}

/// The name a listed bucket is given: its reported name, or empty when none is reported.
pub open spec fn listed_name(b: ListedBucket) -> Seq<char> {
    match b.name {
        Some(n) => n@,
        None => Seq::empty(),
    }
}

/// Whether `info` is what the listing entry `b` gives: its name, its creation date, and no region.
pub open spec fn is_bucket_info_of(info: BucketInfo, b: ListedBucket) -> bool {
    &&& info.name@ == listed_name(b)
    &&& info.creation_date == b.creation_date
    &&& info.region is None
}

/// The buckets a bucket listing yields; `response` holds the entries, or the text of the failure.
pub fn list_buckets_outcome(response: std::result::Result<Vec<ListedBucket>, String>) -> (r:
    std::result::Result<Vec<BucketInfo>, ObsError>)
    ensures
        response matches Ok(bs) ==> (r matches Ok(v) && v@.len() == bs@.len() && forall|i: int|
            0 <= i < v@.len() ==> is_bucket_info_of(#[trigger] v@[i], bs@[i])),
        response matches Err(text) ==> (r matches Err(e) && e@ == ObsErrorView::AwsSdk(text@)),
{
    match response {
        Ok(buckets) => {
            let ghost input = buckets@;
            let total = buckets.len();
            let mut rest = buckets;
            let mut out: Vec<BucketInfo> = Vec::new();
            while rest.len() > 0
                invariant
                    out@.len() + rest@.len() == total,
                    input.len() == total,
                    rest@ == input.subrange(out@.len() as int, total as int),
                    forall|i: int| 0 <= i < out@.len() ==> is_bucket_info_of(#[trigger] out@[i], input[i]),
                decreases rest.len(),
            {
                let ghost k = out@.len();
                let b = rest.remove(0);
                assert(b == input[k as int]);
                let name = match b.name {
                    Some(n) => n,
                    None => String::new(),
                };
                out.push(BucketInfo { name, creation_date: b.creation_date, region: None });
                assert(rest@ =~= input.subrange(out@.len() as int, total as int));
            }
            Ok(out)
        },
        Err(text) => Err(ObsError::AwsSdk(text)),
    }
}

/// The outcome of creating a bucket; `result` holds the debug text of a failure.
pub fn create_bucket_outcome(result: std::result::Result<(), String>) -> (r: std::result::Result<
    (),
    ObsError,
>)
    ensures
        result is Ok ==> r is Ok,
        result matches Err(debug) ==> (r matches Err(e) && e@ == aws_error_view(
            debug@,
            lowercase(debug@),
        )),
{
    match result {
        Ok(()) => Ok(()),
        Err(debug) => Err(ObsClient::convert_aws_error(debug.as_str())),
    }
}

/// Whether an object exists, given the result of asking for its head: a 404 answer means
/// it does not, any other failure is an error.
pub fn object_exists_outcome(result: std::result::Result<(), S3ErrorReport>) -> (r:
    std::result::Result<bool, ObsError>)
    ensures
        result is Ok ==> r == Ok::<bool, ObsError>(true),
        result matches Err(report) ==> match report.failure {
            S3Failure::HttpFailWithBody { status, .. } => if status == 404 {
                r == Ok::<bool, ObsError>(false)
            } else {
                r matches Err(e) && e@ == s3_failure_view(report)
            },
            _ => r matches Err(e) && e@ == s3_failure_view(report),
        },
{
    match result {
        Ok(()) => Ok(true),
        Err(report) => {
            if let S3Failure::HttpFailWithBody { status, .. } = &report.failure {
                if *status == 404 {
                    return Ok(false);
                }
            }
            Err(ObsClient::convert_s3_error(&report))
        },
    }
}

/// The head of an object as rust-s3 reports it.
#[derive(Debug)]
pub struct HeadObjectReport {
    pub content_type: Option<String>,
    pub content_length: Option<i64>,
    pub e_tag: Option<String>,
}

/// The metadata of an object, given its head: the size is the reported length taken as
/// unsigned (0 when none is reported), and no time or user metadata is filled in.
pub fn object_metadata_outcome(result: std::result::Result<HeadObjectReport, S3ErrorReport>) -> (r:
    std::result::Result<ObjectMetadata, ObsError>)
    ensures
        result matches Ok(head) ==> (r matches Ok(m) && m.content_type == head.content_type
            && m.content_length == (match head.content_length {
            Some(l) => l as u64,
            None => 0u64,
        }) && m.etag == head.e_tag && m.last_modified is None && m.metadata@ == Map::<
            String,
            String,
        >::empty()),
        result matches Err(report) ==> (r matches Err(e) && e@ == s3_failure_view(report)),
{
    match result {
        Ok(head) => {
            let length: i64 = match head.content_length {
                Some(l) => l,
                None => 0,
            };
            Ok(ObjectMetadata {
                content_type: head.content_type,
                content_length: length as u64,
                etag: head.e_tag,
                last_modified: None,
                metadata: std::collections::HashMap::new(),
            })
        },
        Err(report) => Err(ObsClient::convert_s3_error(&report)),
    }
}

/// An object in one page of a listing, as rust-s3 reports it.
#[derive(Debug)]
pub struct ListedObject {
    pub key: String,
    pub size: u64,
    pub e_tag: Option<String>,
    pub storage_class: Option<String>,
}

/// One page of an object listing.
#[derive(Debug)]
pub struct ListPage {
    pub contents: Vec<ListedObject>,
    pub common_prefixes: Option<Vec<String>>,
    /// Whether the server has more keys after this page.
    pub is_truncated: bool,
    /// The token that asks the server for the page after this one.
    pub next_continuation_token: Option<String>,
}

/// Which pages a listing asks rust-s3 for.
#[derive(Debug)]
pub enum ListPages {
    /// Every page, from the start.
    AllPages,
    /// One page: after the continuation token if one is given, of at most `max_keys` keys
    /// if a bound is given.
    OnePage { continuation_token: Option<String>, max_keys: Option<usize> },
}

/// What a listing asks rust-s3 for: the key prefix, the delimiter, and the pages.
#[derive(Debug)]
pub struct ListRequest {
    pub prefix: String,
    pub delimiter: Option<String>,
    pub pages: ListPages,
}

/// The bound on the number of keys that `max_keys` sets: none, or the number itself. A
/// negative number sets no bound.
pub open spec fn key_limit(max_keys: Option<i32>) -> Option<nat> {
    match max_keys {
        Some(n) => if n < 0 { None } else { Some(n as nat) },
        None => None,
    }
}

/// The request a listing with these options makes: the options' prefix (empty when none)
/// and delimiter; every page when neither a bound nor a continuation token is given, else
/// the one page that they select.
pub fn list_request(options: &ListOptions) -> (r: ListRequest)
    ensures
        r.prefix@ == match options.prefix {
            Some(p) => p@,
            None => Seq::<char>::empty(),
        },
        r.delimiter.deep_view() == options.delimiter.deep_view(),
        key_limit(options.max_keys) is None && options.continuation_token is None ==> r.pages is AllPages,
        key_limit(options.max_keys) is Some || options.continuation_token is Some ==> (
        r.pages matches ListPages::OnePage { continuation_token, max_keys }
            && continuation_token.deep_view() == options.continuation_token.deep_view()
            && match key_limit(options.max_keys) {
            Some(n) => max_keys == Some(n as usize),
            None => max_keys is None,
        }),
{
    let prefix = match &options.prefix {
        Some(p) => p.clone(),
        None => String::new(),
    };
    let delimiter = match &options.delimiter {
        Some(d) => Some(d.clone()),
        None => None,
    };
    let max_keys = match options.max_keys {
        Some(n) => if n < 0 { None } else { Some(n as usize) },
        None => None,
    };
    let pages = if max_keys.is_none() && options.continuation_token.is_none() {
        ListPages::AllPages
    } else {
        let continuation_token = match &options.continuation_token {
            Some(t) => Some(t.clone()),
            None => None,
        };
        ListPages::OnePage { continuation_token, max_keys }
    };
    ListRequest { prefix, delimiter, pages }
}

/// The information a listed object gives; its modification time is not filled in.
pub open spec fn object_info_of(o: ListedObject) -> ObjectInfo {
    ObjectInfo {
        key: o.key,
        size: o.size,
        last_modified: None,
        etag: o.e_tag,
        storage_class: o.storage_class,
    }
}

/// The objects of a page.
pub open spec fn page_objects(p: ListPage) -> Seq<ObjectInfo> {
    p.contents@.map_values(|o: ListedObject| object_info_of(o))
}

/// The common prefixes of a page.
pub open spec fn page_prefixes(p: ListPage) -> Seq<String> {
    match p.common_prefixes {
        Some(v) => v@,
        None => Seq::empty(),
    }
}

/// The objects of all pages, page after page.
pub open spec fn listed_objects(pages: Seq<ListPage>) -> Seq<ObjectInfo>
    decreases pages.len(),
{
    if pages.len() == 0 {
        Seq::empty()
    } else {
        listed_objects(pages.drop_last()) + page_objects(pages.last())
    }
}

/// The common prefixes of all pages, page after page.
pub open spec fn listed_prefixes(pages: Seq<ListPage>) -> Seq<String>
    decreases pages.len(),
{
    if pages.len() == 0 {
        Seq::empty()
    } else {
        listed_prefixes(pages.drop_last()) + page_prefixes(pages.last())
    }
}

/// Each object of a listing page is reported with the page's own key, size, ETag and
/// storage class, in the page's order; its modification time is not filled in.
pub proof fn lemma_page_object_fields(p: ListPage)
    ensures
        page_objects(p).len() == p.contents@.len(),
        forall|j: int|
            0 <= j < p.contents@.len() ==> (#[trigger] page_objects(p)[j]).key == p.contents@[j].key
                && page_objects(p)[j].size == p.contents@[j].size && page_objects(p)[j].etag
                == p.contents@[j].e_tag && page_objects(p)[j].storage_class
                == p.contents@[j].storage_class && page_objects(p)[j].last_modified is None,
{
}

/// The objects of several pages are those of each page, page after page.
pub proof fn lemma_listed_objects_by_page(pages: Seq<ListPage>, p: ListPage)
    ensures
        listed_objects(Seq::<ListPage>::empty()).len() == 0,
        listed_objects(pages.push(p)) == listed_objects(pages) + page_objects(p),
        listed_prefixes(Seq::<ListPage>::empty()).len() == 0,
        listed_prefixes(pages.push(p)) == listed_prefixes(pages) + match p.common_prefixes {
            Some(v) => v@,
            None => Seq::<String>::empty(),
        },
{
    assert(pages.push(p).drop_last() =~= pages);
}

/// The objects a listing returns: all those listed, or the first `n` of them when a bound
/// `n` is set and more were listed.
pub open spec fn bounded(all: Seq<ObjectInfo>, limit: Option<nat>) -> Seq<ObjectInfo> {
    match limit {
        Some(n) => if all.len() > n { all.take(n as int) } else { all },
        None => all,
    }
}

/// Whether the bound cut off listed objects.
pub open spec fn cut_short(all: Seq<ObjectInfo>, limit: Option<nat>) -> bool {
    limit matches Some(n) && all.len() > n
}

/// Whether the server said that more keys follow the last page fetched.
pub open spec fn server_truncated(pages: Seq<ListPage>) -> bool {
    pages.len() > 0 && pages.last().is_truncated
}

/// The token that resumes the listing: the last page's, when the server said more follow.
pub open spec fn resume_token(pages: Seq<ListPage>) -> Option<String> {
    if server_truncated(pages) {
        pages.last().next_continuation_token
    } else {
        None
    }
}

/// The result of listing objects, given the pages rust-s3 fetched and the bound on keys: the
/// pages' objects in order, at most `max_keys` of them, and their common prefixes; it is
/// truncated when the server has more keys or the bound cut objects off. Its token is the
/// one the server gave for the next page; when the bound cut off objects that the server
/// sent (a server that ignores the bound), there is no token, as resuming with the server's
/// would skip them.
pub fn list_objects_outcome(
    result: std::result::Result<Vec<ListPage>, S3ErrorReport>,
    max_keys: Option<i32>,
) -> (r: std::result::Result<ListResult, ObsError>)
    ensures
        result matches Ok(pages) ==> (r matches Ok(l) && l.objects@ == bounded(
            listed_objects(pages@),
            key_limit(max_keys),
        ) && l.common_prefixes@ == listed_prefixes(pages@) && l.is_truncated == (
        server_truncated(pages@) || cut_short(listed_objects(pages@), key_limit(max_keys)))
            && l.next_continuation_token == (if cut_short(
            listed_objects(pages@),
            key_limit(max_keys),
        ) {
            None
        } else {
            resume_token(pages@)
        })),
        result is Ok && key_limit(max_keys) is Some ==> (r matches Ok(l) && l.objects@.len()
            <= key_limit(max_keys)->0),
        result matches Err(report) ==> (r matches Err(e) && e@ == s3_failure_view(report)),
{
    match result {
        Ok(pages) => {
            let ghost input = pages@;
            let mut rest = pages;
            let mut all_objects: Vec<ObjectInfo> = Vec::new();
            let mut all_prefixes: Vec<String> = Vec::new();
            let mut last_truncated = false;
            let mut last_token: Option<String> = None;
            let ghost mut done: int = 0;
            while rest.len() > 0
                invariant
                    0 <= done <= input.len(),
                    rest@ == input.subrange(done, input.len() as int),
                    all_objects@ == listed_objects(input.subrange(0, done)),
                    all_prefixes@ == listed_prefixes(input.subrange(0, done)),
                    last_truncated == server_truncated(input.subrange(0, done)),
                    last_token == resume_token(input.subrange(0, done)),
                decreases rest.len(),
            {
                let page = rest.remove(0);
                assert(page == input[done]);
                last_truncated = page.is_truncated;
                last_token = if page.is_truncated {
                    page.next_continuation_token
                } else {
                    None
                };
                let ghost objects_before = all_objects@;
                let ghost contents = page.contents@;
                let mut objs = page.contents;
                let ghost mut taken: int = 0;
                while objs.len() > 0
                    invariant
                        0 <= taken <= contents.len(),
                        objs@ == contents.subrange(taken, contents.len() as int),
                        all_objects@ == objects_before + contents.subrange(0, taken).map_values(
                            |o: ListedObject| object_info_of(o),
                        ),
                    decreases objs.len(),
                {
                    let obj = objs.remove(0);
                    assert(obj == contents[taken]);
                    all_objects.push(
                        ObjectInfo {
                            key: obj.key,
                            size: obj.size,
                            last_modified: None,
                            etag: obj.e_tag,
                            storage_class: obj.storage_class,
                        },
                    );
                    proof {
                        assert(contents.subrange(0, taken + 1).map_values(
                            |o: ListedObject| object_info_of(o),
                        ) =~= contents.subrange(0, taken).map_values(
                            |o: ListedObject| object_info_of(o),
                        ).push(object_info_of(contents[taken])));
                        taken = taken + 1;
                        assert(objs@ =~= contents.subrange(taken, contents.len() as int));
                    }
                }
                let ghost prefixes_before = all_prefixes@;
                if let Some(cps) = page.common_prefixes {
                    let ghost cp_seq = cps@;
                    let mut cps = cps;
                    let ghost mut moved: int = 0;
                    while cps.len() > 0
                        invariant
                            0 <= moved <= cp_seq.len(),
                            cps@ == cp_seq.subrange(moved, cp_seq.len() as int),
                            all_prefixes@ == prefixes_before + cp_seq.subrange(0, moved),
                        decreases cps.len(),
                    {
                        let cp = cps.remove(0);
                        all_prefixes.push(cp);
                        proof {
                            assert(cp_seq.subrange(0, moved + 1) =~= cp_seq.subrange(0, moved).push(
                                cp_seq[moved],
                            ));
                            moved = moved + 1;
                            assert(cps@ =~= cp_seq.subrange(moved, cp_seq.len() as int));
                        }
                    }
                    assert(cp_seq.subrange(0, moved) =~= cp_seq);
                }
                proof {
                    assert(contents.subrange(0, taken) =~= contents);
                    let next = input.subrange(0, done + 1);
                    assert(next.drop_last() =~= input.subrange(0, done));
                    assert(next.last() == page);
                    assert(all_prefixes@ =~= listed_prefixes(next));
                    done = done + 1;
                    assert(rest@ =~= input.subrange(done, input.len() as int));
                }
            }
            assert(input.subrange(0, done) =~= input);
            let mut cut = false;
            if let Some(n) = max_keys {
                if n >= 0 {
                    let limit: usize = n as usize;
                    if all_objects.len() > limit {
                        all_objects.truncate(limit);
                        cut = true;
                    }
                }
            }
            let token = if cut {
                None
            } else {
                last_token
            };
            Ok(ListResult {
                objects: all_objects,
                common_prefixes: all_prefixes,
                is_truncated: last_truncated || cut,
                next_continuation_token: token,
            })
        },
        Err(report) => Err(ObsClient::convert_s3_error(&report)),
    }
}

/// How an object is copied.
#[derive(Debug, Clone, Copy, PartialEq, Eq, Structural)]
pub enum CopyRoute {
    /// Within one bucket, by the server-side copy.
    WithinBucket,
    /// Across buckets, by downloading the object and uploading it again.
    AcrossBuckets,
}

/// How an object is copied from `source_bucket` to `dest_bucket`.
pub fn copy_route(source_bucket: &str, dest_bucket: &str) -> (r: CopyRoute)
    ensures
        (r == CopyRoute::WithinBucket) == (source_bucket@ == dest_bucket@),
{
    if same_text(source_bucket, dest_bucket) {
        CopyRoute::WithinBucket
    } else {
        CopyRoute::AcrossBuckets
    }
}

/// The content type an upload sends: the one in the options, else `application/octet-stream`.
pub fn upload_content_type(options: &Option<UploadOptions>) -> (ct: &str)
    ensures
        ct@ == match options {
            Some(o) => match o.content_type {
                Some(c) => c@,
                None => "application/octet-stream"@,
            },
            None => "application/octet-stream"@,
        },
{
    match options {
        Some(o) => match &o.content_type {
            Some(c) => c.as_str(),
            None => "application/octet-stream",
        },
        None => "application/octet-stream",
    }
}

/// The headers an upload sends besides its content type: one `x-amz-meta-` header for each
/// user metadata entry, in the order given, then the storage class header when a storage
/// class is given.
pub fn upload_headers(metadata: &Vec<(String, String)>, storage_class: &Option<String>) -> (r: Vec<
    (String, String),
>)
    ensures
        r@.len() == metadata@.len() + (if storage_class is Some { 1int } else { 0int }),
        forall|i: int|
            0 <= i < metadata@.len() ==> #[trigger] r@[i].0@ == "x-amz-meta-"@ + metadata@[i].0@
                && r@[i].1@ == metadata@[i].1@,
        storage_class matches Some(c) ==> r@[metadata@.len() as int].0@ == "x-amz-storage-class"@
            && r@[metadata@.len() as int].1@ == c@,
{
    let mut r: Vec<(String, String)> = Vec::new();
    let mut k: usize = 0;
    while k < metadata.len()
        invariant
            k <= metadata@.len(),
            r@.len() == k,
            forall|i: int|
                0 <= i < k ==> #[trigger] r@[i].0@ == "x-amz-meta-"@ + metadata@[i].0@ && r@[i].1@
                    == metadata@[i].1@,
        decreases metadata.len() - k,
    {
        let (key, value) = &metadata[k];
        let name = concat2("x-amz-meta-", key.as_str());
        r.push((name, value.clone()));
        k = k + 1;
    }
    if let Some(c) = storage_class {
        r.push((String::from_str("x-amz-storage-class"), c.clone()));
    }
    r
}

/// The content type a streamed upload sends: the given one, else `application/octet-stream`.
pub fn stream_content_type(content_type: Option<&str>) -> (ct: &str)
    ensures
        ct@ == match content_type {
            Some(c) => c@,
            None => "application/octet-stream"@,
        },
{
    match content_type {
        Some(c) => c,
        None => "application/octet-stream",
    }
}

/// The expiry that a presigned URL is signed with: the requested seconds, cut to 32 bits.
pub fn presign_expiry(expires_in_secs: u64) -> (s: u32)
    ensures
        s == expires_in_secs as u32,
{
    expires_in_secs as u32
}

/// The keys that were kept, in order, from pairs of a key and whether it was deleted.
pub open spec fn deleted_of(outcomes: Seq<(String, bool)>) -> Seq<String>
    decreases outcomes.len(),
{
    if outcomes.len() == 0 {
        Seq::empty()
    } else {
        let last = outcomes.last();
        deleted_of(outcomes.drop_last()) + if last.1 { seq![last.0] } else { Seq::empty() }
    }
}

/// The keys a batch deletion reports as deleted: those whose deletion succeeded, in order.
pub fn deleted_keys(outcomes: Vec<(String, bool)>) -> (r: Vec<String>)
    ensures
        r@ == deleted_of(outcomes@),
{
    let ghost input = outcomes@;
    let mut rest = outcomes;
    let mut out: Vec<String> = Vec::new();
    let ghost mut done: int = 0;
    while rest.len() > 0
        invariant
            0 <= done <= input.len(),
            rest@ == input.subrange(done, input.len() as int),
            out@ == deleted_of(input.subrange(0, done)),
        decreases rest.len(),
    {
        let (key, deleted) = rest.remove(0);
        proof {
            let next = input.subrange(0, done + 1);
            assert(next.drop_last() =~= input.subrange(0, done));
            assert(next.last() == (key, deleted));
        }
        if deleted {
            out.push(key);
        }
        proof {
            done = done + 1;
            assert(rest@ =~= input.subrange(done, input.len() as int));
        }
    }
    assert(input.subrange(0, done) =~= input);
    out
}

} // verus!
