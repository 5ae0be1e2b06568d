//! Error types for OBS operations, and the messages shown for them.

use vstd::prelude::*;
use vstd::string::to_string_from_display_ensures;

use vstd::utf8::is_ascii_chars;

use crate::text::{
    ascii_lower, chars_of, concat2, concat3, has_text, lowercase, seq_contains, to_lowercase,
};

verus! {

/// `std::io::Error`, held by `ObsError::Io`; opaque here.
#[verifier::external_type_specification]
#[verifier::external_body]
pub struct ExIoError(std::io::Error);

/// Errors that can occur during OBS operations.
#[derive(Debug)]
pub enum ObsError {
    /// Object not found in the bucket.
    NotFound(String),
    /// Bucket does not exist or is inaccessible.
    BucketNotFound(String),
    /// Access denied — check credentials and permissions.
    PermissionDenied(String),
    /// Invalid configuration (e.g. missing endpoint).
    InvalidConfig(String),
    /// Network-level error (DNS, connection refused, etc.).
    Network(String),
    /// Error from the AWS SDK layer.
    AwsSdk(String),
    /// Error from the rust-s3 layer.
    S3Error(String),
    /// Local I/O error.
    Io(std::io::Error),
    /// Bucket is not empty (cannot delete).
    BucketNotEmpty(String),
    /// Bucket already exists.
    BucketAlreadyExists(String),
    /// Invalid access key or secret key.
    InvalidCredentials,
    /// TCP connection failed.
    ConnectionFailed(String),
    /// Operation timed out.
    Timeout(String),
    /// Catch-all for unclassified errors.
    Other(String),
}

/// An error with its text as character sequences.
pub enum ObsErrorView {
    NotFound(Seq<char>),
    BucketNotFound(Seq<char>),
    PermissionDenied(Seq<char>),
    InvalidConfig(Seq<char>),
    Network(Seq<char>),
    AwsSdk(Seq<char>),
    S3Error(Seq<char>),
    Io(std::io::Error),
    BucketNotEmpty(Seq<char>),
    BucketAlreadyExists(Seq<char>),
    InvalidCredentials,
    ConnectionFailed(Seq<char>),
    Timeout(Seq<char>),
    Other(Seq<char>),
}

impl View for ObsError {
    type V = ObsErrorView;

    open spec fn view(&self) -> ObsErrorView {
        match self {
            ObsError::NotFound(s) => ObsErrorView::NotFound(s@),
            ObsError::BucketNotFound(s) => ObsErrorView::BucketNotFound(s@),
            ObsError::PermissionDenied(s) => ObsErrorView::PermissionDenied(s@),
            ObsError::InvalidConfig(s) => ObsErrorView::InvalidConfig(s@),
            ObsError::Network(s) => ObsErrorView::Network(s@),
            ObsError::AwsSdk(s) => ObsErrorView::AwsSdk(s@),
            ObsError::S3Error(s) => ObsErrorView::S3Error(s@),
            ObsError::Io(e) => ObsErrorView::Io(*e),
            ObsError::BucketNotEmpty(s) => ObsErrorView::BucketNotEmpty(s@),
            ObsError::BucketAlreadyExists(s) => ObsErrorView::BucketAlreadyExists(s@),
            ObsError::InvalidCredentials => ObsErrorView::InvalidCredentials,
            ObsError::ConnectionFailed(s) => ObsErrorView::ConnectionFailed(s@),
            ObsError::Timeout(s) => ObsErrorView::Timeout(s@),
            ObsError::Other(s) => ObsErrorView::Other(s@),
        }
    }
}

/// Result type alias for OBS operations.
pub type Result<T> = std::result::Result<T, ObsError>;

/// The classes of local I/O failure that messages tell apart.
#[derive(Debug, Clone, Copy, PartialEq, Eq, Structural)]
pub enum IoErrorClass {
    /// The file does not exist.
    NotFound,
    /// The file may not be accessed.
    PermissionDenied,
    /// Any other kind of I/O failure.
    Other,
}

/// The user-facing summary of an S3/AWS error text `msg`, whose lower-case form is `lower`.
pub open spec fn s3_summary(msg: Seq<char>, lower: Seq<char>) -> Seq<char> {
    if seq_contains(lower, "accessdenied"@) || seq_contains(lower, "access denied"@) {
        "Access denied. Check your credentials and permissions."@
    } else if seq_contains(lower, "invalidaccesskeyid"@) {
        "Invalid access key. Check your credentials."@
    } else if seq_contains(lower, "signaturemismatch"@) {
        "Authentication failed. Check your secret key."@
    } else if seq_contains(lower, "nosuchbucket"@) {
        "Bucket does not exist."@
    } else if seq_contains(lower, "bucketalreadyexists"@) {
        "Bucket already exists."@
    } else if seq_contains(lower, "bucketnotempty"@) {
        "Bucket is not empty. Delete all objects first."@
    } else if seq_contains(lower, "nosuchkey"@) {
        "Object does not exist."@
    } else if seq_contains(lower, "entitytoolarge"@) {
        "File is too large for upload."@
    } else if seq_contains(lower, "timeout"@) || seq_contains(lower, "timed out"@) {
        "Operation timed out. Check your connection."@
    } else if seq_contains(lower, "slowdown"@) || seq_contains(lower, "throttl"@) {
        "Too many requests. Please wait and try again."@
    } else if seq_contains(lower, "malformedpolicy"@) {
        "Invalid bucket policy format."@
    } else if seq_contains(lower, "nosuchcorsconfiguration"@) {
        "No CORS configuration found for this bucket."@
    } else {
        msg
    }
}

/// The user-facing summary of a network error whose lower-case text is `lower`.
pub open spec fn network_summary(lower: Seq<char>) -> Seq<char> {
    if seq_contains(lower, "timeout"@) || seq_contains(lower, "timed out"@) {
        "Connection timed out. Check your network connection."@
    } else if seq_contains(lower, "refused"@) {
        "Connection refused. The server may be unavailable."@
    } else if seq_contains(lower, "resolve"@) || seq_contains(lower, "dns"@) {
        "Could not reach the server. Check the endpoint URL."@
    } else {
        "Network error. Check your internet connection."@
    }
}

/// The user-facing message for a local I/O failure of class `class` whose text is `text`.
pub open spec fn io_summary(class: IoErrorClass, text: Seq<char>) -> Seq<char> {
    match class {
        IoErrorClass::NotFound => "File not found on local disk."@,
        IoErrorClass::PermissionDenied => "Permission denied for local file."@,
        IoErrorClass::Other => "File error: "@ + text,
    }
}

/// `needle` does not occur in `hay` when one of its characters does not.
proof fn lemma_absent_char(hay: Seq<char>, needle: Seq<char>, k: int)
    requires
        0 <= k < needle.len(),
        forall|j: int| 0 <= j < hay.len() ==> hay[j] != needle[k],
    ensures
        !seq_contains(hay, needle),
{
    if seq_contains(hay, needle) {
        let i = choose|i: int|
            0 <= i && i + needle.len() <= hay.len() && #[trigger] hay.subrange(i, i + needle.len())
                == needle;
        assert(hay.subrange(i, i + needle.len())[k] == hay[i + k]);
    }
}

/// `needle` does not occur in `hay` when two of its adjacent characters never stand
/// side by side in `hay`.
proof fn lemma_absent_pair(hay: Seq<char>, needle: Seq<char>, k: int)
    requires
        0 <= k && k + 1 < needle.len(),
        forall|j: int| 0 <= j && j + 1 < hay.len() ==> !(#[trigger] hay[j] == needle[k] && hay[j + 1] == needle[k + 1]),
    ensures
        !seq_contains(hay, needle),
{
    if seq_contains(hay, needle) {
        let i = choose|i: int|
            0 <= i && i + needle.len() <= hay.len() && #[trigger] hay.subrange(i, i + needle.len())
                == needle;
        assert(hay.subrange(i, i + needle.len())[k] == hay[i + k]);
        assert(hay.subrange(i, i + needle.len())[k + 1] == hay[i + k + 1]);
    }
}

/// `needle` occurs in `hay` at `i`.
proof fn lemma_contains_at(hay: Seq<char>, needle: Seq<char>, i: int)
    requires
        0 <= i && i + needle.len() <= hay.len(),
        forall|t: int| 0 <= t < needle.len() ==> hay[i + t] == needle[t],
    ensures
        seq_contains(hay, needle),
{
    assert(hay.subrange(i, i + needle.len()) =~= needle);
}

/// Whether `text` is ASCII text that the summary rules, applied to its ASCII lower case,
/// give back unchanged.
pub open spec fn settles(text: Seq<char>) -> bool {
    is_ascii_chars(text) && s3_summary(text, ascii_lower(text)) == text
}

/// The texts that the summary rules look for, character by character.
proof fn lemma_rule_texts()
    ensures
        "accessdenied"@ == seq!['a', 'c', 'c', 'e', 's', 's', 'd', 'e', 'n', 'i', 'e', 'd'],
        "access denied"@ == seq!['a', 'c', 'c', 'e', 's', 's', ' ', 'd', 'e', 'n', 'i', 'e', 'd'],
        "invalidaccesskeyid"@ == seq!['i', 'n', 'v', 'a', 'l', 'i', 'd', 'a', 'c', 'c', 'e', 's', 's', 'k', 'e', 'y', 'i', 'd'],
        "signaturemismatch"@ == seq!['s', 'i', 'g', 'n', 'a', 't', 'u', 'r', 'e', 'm', 'i', 's', 'm', 'a', 't', 'c', 'h'],
        "nosuchbucket"@ == seq!['n', 'o', 's', 'u', 'c', 'h', 'b', 'u', 'c', 'k', 'e', 't'],
        "bucketalreadyexists"@ == seq!['b', 'u', 'c', 'k', 'e', 't', 'a', 'l', 'r', 'e', 'a', 'd', 'y', 'e', 'x', 'i', 's', 't', 's'],
        "bucketnotempty"@ == seq!['b', 'u', 'c', 'k', 'e', 't', 'n', 'o', 't', 'e', 'm', 'p', 't', 'y'],
        "nosuchkey"@ == seq!['n', 'o', 's', 'u', 'c', 'h', 'k', 'e', 'y'],
        "entitytoolarge"@ == seq!['e', 'n', 't', 'i', 't', 'y', 't', 'o', 'o', 'l', 'a', 'r', 'g', 'e'],
        "timeout"@ == seq!['t', 'i', 'm', 'e', 'o', 'u', 't'],
        "timed out"@ == seq!['t', 'i', 'm', 'e', 'd', ' ', 'o', 'u', 't'],
        "slowdown"@ == seq!['s', 'l', 'o', 'w', 'd', 'o', 'w', 'n'],
        "throttl"@ == seq!['t', 'h', 'r', 'o', 't', 't', 'l'],
        "malformedpolicy"@ == seq!['m', 'a', 'l', 'f', 'o', 'r', 'm', 'e', 'd', 'p', 'o', 'l', 'i', 'c', 'y'],
        "nosuchcorsconfiguration"@ == seq!['n', 'o', 's', 'u', 'c', 'h', 'c', 'o', 'r', 's', 'c', 'o', 'n', 'f', 'i', 'g', 'u', 'r', 'a', 't', 'i', 'o', 'n'],
{
    reveal_strlit("accessdenied");
    reveal_strlit("access denied");
    reveal_strlit("invalidaccesskeyid");
    reveal_strlit("signaturemismatch");
    reveal_strlit("nosuchbucket");
    reveal_strlit("bucketalreadyexists");
    reveal_strlit("bucketnotempty");
    reveal_strlit("nosuchkey");
    reveal_strlit("entitytoolarge");
    reveal_strlit("timeout");
    reveal_strlit("timed out");
    reveal_strlit("slowdown");
    reveal_strlit("throttl");
    reveal_strlit("malformedpolicy");
    reveal_strlit("nosuchcorsconfiguration");
    assert("accessdenied"@ =~= seq!['a', 'c', 'c', 'e', 's', 's', 'd', 'e', 'n', 'i', 'e', 'd']);
    assert("access denied"@ =~= seq!['a', 'c', 'c', 'e', 's', 's', ' ', 'd', 'e', 'n', 'i', 'e', 'd']);
    assert("invalidaccesskeyid"@ =~= seq!['i', 'n', 'v', 'a', 'l', 'i', 'd', 'a', 'c', 'c', 'e', 's', 's', 'k', 'e', 'y', 'i', 'd']);
    assert("signaturemismatch"@ =~= seq!['s', 'i', 'g', 'n', 'a', 't', 'u', 'r', 'e', 'm', 'i', 's', 'm', 'a', 't', 'c', 'h']);
    assert("nosuchbucket"@ =~= seq!['n', 'o', 's', 'u', 'c', 'h', 'b', 'u', 'c', 'k', 'e', 't']);
    assert("bucketalreadyexists"@ =~= seq!['b', 'u', 'c', 'k', 'e', 't', 'a', 'l', 'r', 'e', 'a', 'd', 'y', 'e', 'x', 'i', 's', 't', 's']);
    assert("bucketnotempty"@ =~= seq!['b', 'u', 'c', 'k', 'e', 't', 'n', 'o', 't', 'e', 'm', 'p', 't', 'y']);
    assert("nosuchkey"@ =~= seq!['n', 'o', 's', 'u', 'c', 'h', 'k', 'e', 'y']);
    assert("entitytoolarge"@ =~= seq!['e', 'n', 't', 'i', 't', 'y', 't', 'o', 'o', 'l', 'a', 'r', 'g', 'e']);
    assert("timeout"@ =~= seq!['t', 'i', 'm', 'e', 'o', 'u', 't']);
    assert("timed out"@ =~= seq!['t', 'i', 'm', 'e', 'd', ' ', 'o', 'u', 't']);
    assert("slowdown"@ =~= seq!['s', 'l', 'o', 'w', 'd', 'o', 'w', 'n']);
    assert("throttl"@ =~= seq!['t', 'h', 'r', 'o', 't', 't', 'l']);
    assert("malformedpolicy"@ =~= seq!['m', 'a', 'l', 'f', 'o', 'r', 'm', 'e', 'd', 'p', 'o', 'l', 'i', 'c', 'y']);
    assert("nosuchcorsconfiguration"@ =~= seq!['n', 'o', 's', 'u', 'c', 'h', 'c', 'o', 'r', 's', 'c', 'o', 'n', 'f', 'i', 'g', 'u', 'r', 'a', 't', 'i', 'o', 'n']);
}

proof fn lemma_summary_of_access_denied()
    ensures
        settles("Access denied. Check your credentials and permissions."@),
{
    reveal_strlit("Access denied. Check your credentials and permissions.");
    reveal_strlit("access denied. check your credentials and permissions.");
    lemma_rule_texts();
    let text = "Access denied. Check your credentials and permissions."@;
    let lower = "access denied. check your credentials and permissions."@;
    assert(ascii_lower(text) =~= lower);
    lemma_absent_pair(lower, "accessdenied"@, 5);
    lemma_contains_at(lower, "access denied"@, 0);
}

proof fn lemma_summary_of_invalid_key()
    ensures
        settles("Invalid access key. Check your credentials."@),
{
    reveal_strlit("Invalid access key. Check your credentials.");
    reveal_strlit("invalid access key. check your credentials.");
    lemma_rule_texts();
    let text = "Invalid access key. Check your credentials."@;
    let lower = "invalid access key. check your credentials."@;
    assert(ascii_lower(text) =~= lower);
    lemma_absent_pair(lower, "accessdenied"@, 5);
    lemma_absent_pair(lower, "access denied"@, 6);
    lemma_absent_pair(lower, "invalidaccesskeyid"@, 6);
    lemma_absent_char(lower, "signaturemismatch"@, 2);
    lemma_absent_char(lower, "nosuchbucket"@, 6);
    lemma_absent_char(lower, "bucketalreadyexists"@, 0);
    lemma_absent_char(lower, "bucketnotempty"@, 0);
    lemma_absent_pair(lower, "nosuchkey"@, 0);
    lemma_absent_char(lower, "entitytoolarge"@, 12);
    lemma_absent_char(lower, "timeout"@, 2);
    lemma_absent_char(lower, "timed out"@, 2);
    lemma_absent_char(lower, "slowdown"@, 3);
    lemma_absent_pair(lower, "throttl"@, 0);
    lemma_absent_char(lower, "malformedpolicy"@, 0);
    lemma_absent_char(lower, "nosuchcorsconfiguration"@, 13);
}

proof fn lemma_summary_of_auth_failed()
    ensures
        settles("Authentication failed. Check your secret key."@),
{
    reveal_strlit("Authentication failed. Check your secret key.");
    reveal_strlit("authentication failed. check your secret key.");
    lemma_rule_texts();
    let text = "Authentication failed. Check your secret key."@;
    let lower = "authentication failed. check your secret key."@;
    assert(ascii_lower(text) =~= lower);
    lemma_absent_pair(lower, "accessdenied"@, 0);
    lemma_absent_pair(lower, "access denied"@, 0);
    lemma_absent_char(lower, "invalidaccesskeyid"@, 2);
    lemma_absent_char(lower, "signaturemismatch"@, 2);
    lemma_absent_char(lower, "nosuchbucket"@, 6);
    lemma_absent_char(lower, "bucketalreadyexists"@, 0);
    lemma_absent_char(lower, "bucketnotempty"@, 0);
    lemma_absent_pair(lower, "nosuchkey"@, 0);
    lemma_absent_char(lower, "entitytoolarge"@, 12);
    lemma_absent_char(lower, "timeout"@, 2);
    lemma_absent_char(lower, "timed out"@, 2);
    lemma_absent_char(lower, "slowdown"@, 3);
    lemma_absent_pair(lower, "throttl"@, 1);
    lemma_absent_char(lower, "malformedpolicy"@, 0);
    lemma_absent_char(lower, "nosuchcorsconfiguration"@, 15);
}

proof fn lemma_summary_of_no_bucket()
    ensures
        settles("Bucket does not exist."@),
{
    reveal_strlit("Bucket does not exist.");
    reveal_strlit("bucket does not exist.");
    lemma_rule_texts();
    let text = "Bucket does not exist."@;
    let lower = "bucket does not exist."@;
    assert(ascii_lower(text) =~= lower);
    lemma_absent_char(lower, "accessdenied"@, 0);
    lemma_absent_char(lower, "access denied"@, 0);
    lemma_absent_char(lower, "invalidaccesskeyid"@, 2);
    lemma_absent_char(lower, "signaturemismatch"@, 2);
    lemma_absent_char(lower, "nosuchbucket"@, 5);
    lemma_absent_char(lower, "bucketalreadyexists"@, 6);
    lemma_absent_char(lower, "bucketnotempty"@, 10);
    lemma_absent_char(lower, "nosuchkey"@, 5);
    lemma_absent_char(lower, "entitytoolarge"@, 5);
    lemma_absent_char(lower, "timeout"@, 2);
    lemma_absent_char(lower, "timed out"@, 2);
    lemma_absent_char(lower, "slowdown"@, 1);
    lemma_absent_char(lower, "throttl"@, 1);
    lemma_absent_char(lower, "malformedpolicy"@, 0);
    lemma_absent_char(lower, "nosuchcorsconfiguration"@, 5);
}

proof fn lemma_summary_of_bucket_exists()
    ensures
        settles("Bucket already exists."@),
{
    reveal_strlit("Bucket already exists.");
    reveal_strlit("bucket already exists.");
    lemma_rule_texts();
    let text = "Bucket already exists."@;
    let lower = "bucket already exists."@;
    assert(ascii_lower(text) =~= lower);
    lemma_absent_char(lower, "accessdenied"@, 8);
    lemma_absent_char(lower, "access denied"@, 9);
    lemma_absent_char(lower, "invalidaccesskeyid"@, 1);
    lemma_absent_char(lower, "signaturemismatch"@, 2);
    lemma_absent_char(lower, "nosuchbucket"@, 0);
    lemma_absent_pair(lower, "bucketalreadyexists"@, 5);
    lemma_absent_char(lower, "bucketnotempty"@, 6);
    lemma_absent_char(lower, "nosuchkey"@, 0);
    lemma_absent_char(lower, "entitytoolarge"@, 1);
    lemma_absent_char(lower, "timeout"@, 2);
    lemma_absent_char(lower, "timed out"@, 2);
    lemma_absent_char(lower, "slowdown"@, 2);
    lemma_absent_char(lower, "throttl"@, 1);
    lemma_absent_char(lower, "malformedpolicy"@, 0);
    lemma_absent_char(lower, "nosuchcorsconfiguration"@, 0);
}

proof fn lemma_summary_of_bucket_not_empty()
    ensures
        settles("Bucket is not empty. Delete all objects first."@),
{
    reveal_strlit("Bucket is not empty. Delete all objects first.");
    reveal_strlit("bucket is not empty. delete all objects first.");
    lemma_rule_texts();
    let text = "Bucket is not empty. Delete all objects first."@;
    let lower = "bucket is not empty. delete all objects first."@;
    assert(ascii_lower(text) =~= lower);
    lemma_absent_pair(lower, "accessdenied"@, 0);
    lemma_absent_pair(lower, "access denied"@, 0);
    lemma_absent_char(lower, "invalidaccesskeyid"@, 2);
    lemma_absent_char(lower, "signaturemismatch"@, 2);
    lemma_absent_char(lower, "nosuchbucket"@, 5);
    lemma_absent_char(lower, "bucketalreadyexists"@, 14);
    lemma_absent_pair(lower, "bucketnotempty"@, 5);
    lemma_absent_char(lower, "nosuchkey"@, 5);
    lemma_absent_char(lower, "entitytoolarge"@, 12);
    lemma_absent_pair(lower, "timeout"@, 0);
    lemma_absent_pair(lower, "timed out"@, 0);
    lemma_absent_char(lower, "slowdown"@, 3);
    lemma_absent_char(lower, "throttl"@, 1);
    lemma_absent_pair(lower, "malformedpolicy"@, 0);
    lemma_absent_char(lower, "nosuchcorsconfiguration"@, 5);
}

proof fn lemma_summary_of_no_object()
    ensures
        settles("Object does not exist."@),
{
    reveal_strlit("Object does not exist.");
    reveal_strlit("object does not exist.");
    lemma_rule_texts();
    let text = "Object does not exist."@;
    let lower = "object does not exist."@;
    assert(ascii_lower(text) =~= lower);
    lemma_absent_char(lower, "accessdenied"@, 0);
    lemma_absent_char(lower, "access denied"@, 0);
    lemma_absent_char(lower, "invalidaccesskeyid"@, 2);
    lemma_absent_char(lower, "signaturemismatch"@, 2);
    lemma_absent_char(lower, "nosuchbucket"@, 3);
    lemma_absent_char(lower, "bucketalreadyexists"@, 1);
    lemma_absent_char(lower, "bucketnotempty"@, 1);
    lemma_absent_char(lower, "nosuchkey"@, 3);
    lemma_absent_char(lower, "entitytoolarge"@, 5);
    lemma_absent_char(lower, "timeout"@, 2);
    lemma_absent_char(lower, "timed out"@, 2);
    lemma_absent_char(lower, "slowdown"@, 1);
    lemma_absent_char(lower, "throttl"@, 1);
    lemma_absent_char(lower, "malformedpolicy"@, 0);
    lemma_absent_char(lower, "nosuchcorsconfiguration"@, 3);
}

proof fn lemma_summary_of_too_large()
    ensures
        settles("File is too large for upload."@),
{
    reveal_strlit("File is too large for upload.");
    reveal_strlit("file is too large for upload.");
    lemma_rule_texts();
    let text = "File is too large for upload."@;
    let lower = "file is too large for upload."@;
    assert(ascii_lower(text) =~= lower);
    lemma_absent_char(lower, "accessdenied"@, 1);
    lemma_absent_char(lower, "access denied"@, 1);
    lemma_absent_char(lower, "invalidaccesskeyid"@, 1);
    lemma_absent_char(lower, "signaturemismatch"@, 3);
    lemma_absent_char(lower, "nosuchbucket"@, 0);
    lemma_absent_char(lower, "bucketalreadyexists"@, 0);
    lemma_absent_char(lower, "bucketnotempty"@, 0);
    lemma_absent_char(lower, "nosuchkey"@, 0);
    lemma_absent_char(lower, "entitytoolarge"@, 1);
    lemma_absent_char(lower, "timeout"@, 2);
    lemma_absent_char(lower, "timed out"@, 2);
    lemma_absent_char(lower, "slowdown"@, 3);
    lemma_absent_char(lower, "throttl"@, 1);
    lemma_absent_char(lower, "malformedpolicy"@, 0);
    lemma_absent_char(lower, "nosuchcorsconfiguration"@, 0);
}

proof fn lemma_summary_of_timed_out()
    ensures
        settles("Operation timed out. Check your connection."@),
{
    reveal_strlit("Operation timed out. Check your connection.");
    reveal_strlit("operation timed out. check your connection.");
    lemma_rule_texts();
    let text = "Operation timed out. Check your connection."@;
    let lower = "operation timed out. check your connection."@;
    assert(ascii_lower(text) =~= lower);
    lemma_absent_char(lower, "accessdenied"@, 4);
    lemma_absent_char(lower, "access denied"@, 4);
    lemma_absent_char(lower, "invalidaccesskeyid"@, 2);
    lemma_absent_char(lower, "signaturemismatch"@, 0);
    lemma_absent_char(lower, "nosuchbucket"@, 2);
    lemma_absent_char(lower, "bucketalreadyexists"@, 0);
    lemma_absent_char(lower, "bucketnotempty"@, 0);
    lemma_absent_char(lower, "nosuchkey"@, 2);
    lemma_absent_char(lower, "entitytoolarge"@, 9);
    lemma_absent_pair(lower, "timeout"@, 3);
    lemma_contains_at(lower, "timed out"@, 10);
}

proof fn lemma_summary_of_throttled()
    ensures
        settles("Too many requests. Please wait and try again."@),
{
    reveal_strlit("Too many requests. Please wait and try again.");
    reveal_strlit("too many requests. please wait and try again.");
    lemma_rule_texts();
    let text = "Too many requests. Please wait and try again."@;
    let lower = "too many requests. please wait and try again."@;
    assert(ascii_lower(text) =~= lower);
    lemma_absent_char(lower, "accessdenied"@, 1);
    lemma_absent_char(lower, "access denied"@, 1);
    lemma_absent_char(lower, "invalidaccesskeyid"@, 2);
    lemma_absent_char(lower, "signaturemismatch"@, 15);
    lemma_absent_char(lower, "nosuchbucket"@, 4);
    lemma_absent_char(lower, "bucketalreadyexists"@, 0);
    lemma_absent_char(lower, "bucketnotempty"@, 0);
    lemma_absent_char(lower, "nosuchkey"@, 4);
    lemma_absent_pair(lower, "entitytoolarge"@, 0);
    lemma_absent_pair(lower, "timeout"@, 0);
    lemma_absent_pair(lower, "timed out"@, 0);
    lemma_absent_pair(lower, "slowdown"@, 0);
    lemma_absent_char(lower, "throttl"@, 1);
    lemma_absent_char(lower, "malformedpolicy"@, 3);
    lemma_absent_char(lower, "nosuchcorsconfiguration"@, 4);
}

proof fn lemma_summary_of_bad_policy()
    ensures
        settles("Invalid bucket policy format."@),
{
    reveal_strlit("Invalid bucket policy format.");
    reveal_strlit("invalid bucket policy format.");
    lemma_rule_texts();
    let text = "Invalid bucket policy format."@;
    let lower = "invalid bucket policy format."@;
    assert(ascii_lower(text) =~= lower);
    lemma_absent_char(lower, "accessdenied"@, 4);
    lemma_absent_char(lower, "access denied"@, 4);
    lemma_absent_char(lower, "invalidaccesskeyid"@, 11);
    lemma_absent_char(lower, "signaturemismatch"@, 0);
    lemma_absent_char(lower, "nosuchbucket"@, 2);
    lemma_absent_char(lower, "bucketalreadyexists"@, 14);
    lemma_absent_pair(lower, "bucketnotempty"@, 5);
    lemma_absent_char(lower, "nosuchkey"@, 2);
    lemma_absent_char(lower, "entitytoolarge"@, 12);
    lemma_absent_pair(lower, "timeout"@, 0);
    lemma_absent_pair(lower, "timed out"@, 0);
    lemma_absent_char(lower, "slowdown"@, 0);
    lemma_absent_char(lower, "throttl"@, 1);
    lemma_absent_pair(lower, "malformedpolicy"@, 2);
    lemma_absent_char(lower, "nosuchcorsconfiguration"@, 2);
}

proof fn lemma_summary_of_no_cors()
    ensures
        settles("No CORS configuration found for this bucket."@),
{
    reveal_strlit("No CORS configuration found for this bucket.");
    reveal_strlit("no cors configuration found for this bucket.");
    lemma_rule_texts();
    let text = "No CORS configuration found for this bucket."@;
    let lower = "no cors configuration found for this bucket."@;
    assert(ascii_lower(text) =~= lower);
    lemma_absent_pair(lower, "accessdenied"@, 0);
    lemma_absent_pair(lower, "access denied"@, 0);
    lemma_absent_char(lower, "invalidaccesskeyid"@, 2);
    lemma_absent_char(lower, "signaturemismatch"@, 9);
    lemma_absent_pair(lower, "nosuchbucket"@, 1);
    lemma_absent_char(lower, "bucketalreadyexists"@, 7);
    lemma_absent_char(lower, "bucketnotempty"@, 10);
    lemma_absent_char(lower, "nosuchkey"@, 8);
    lemma_absent_char(lower, "entitytoolarge"@, 5);
    lemma_absent_char(lower, "timeout"@, 2);
    lemma_absent_char(lower, "timed out"@, 2);
    lemma_absent_char(lower, "slowdown"@, 1);
    lemma_absent_char(lower, "throttl"@, 6);
    lemma_absent_char(lower, "malformedpolicy"@, 0);
    lemma_absent_pair(lower, "nosuchcorsconfiguration"@, 1);
}

/// Summarizing a summary again changes nothing. A message that no rule matches is kept as
/// it is; each fixed summary is ASCII text, which `str::to_lowercase` turns into its ASCII
/// lower case (as `to_lowercase` states), and the rules give it back. The premise is that
/// statement for the summary's text, which a proof cannot obtain by calling `to_lowercase`.
pub proof fn lemma_summary_idempotent(msg: Seq<char>)
    requires
        is_ascii_chars(s3_summary(msg, lowercase(msg))) ==> lowercase(
            s3_summary(msg, lowercase(msg)),
        ) == ascii_lower(s3_summary(msg, lowercase(msg))),
    ensures
        s3_summary(s3_summary(msg, lowercase(msg)), lowercase(s3_summary(msg, lowercase(msg))))
            == s3_summary(msg, lowercase(msg)),
{
    lemma_summary_of_access_denied();
    lemma_summary_of_invalid_key();
    lemma_summary_of_auth_failed();
    lemma_summary_of_no_bucket();
    lemma_summary_of_bucket_exists();
    lemma_summary_of_bucket_not_empty();
    lemma_summary_of_no_object();
    lemma_summary_of_too_large();
    lemma_summary_of_timed_out();
    lemma_summary_of_throttled();
    lemma_summary_of_bad_policy();
    lemma_summary_of_no_cors();
}

/// The user-facing message of an error; for `Io` see `io_summary`.
pub open spec fn user_message_text(e: ObsError) -> Seq<char> {
    match e {
        ObsError::NotFound(resource) => if resource@.len() == 0 {
            "The requested file or folder does not exist."@
        } else {
            "'"@ + resource@ + "' does not exist."@
        },
        ObsError::BucketNotFound(bucket) => "Bucket '"@ + bucket@
            + "' does not exist or you don't have access to it."@,
        ObsError::PermissionDenied(_) => "Access denied. Check your credentials and permissions."@,
        ObsError::InvalidConfig(msg) => "Configuration error: "@ + msg@,
        ObsError::Network(msg) => network_summary(lowercase(msg@)),
        ObsError::AwsSdk(msg) => s3_summary(msg@, lowercase(msg@)),
        ObsError::S3Error(msg) => s3_summary(msg@, lowercase(msg@)),
        ObsError::Io(_) => Seq::empty(),
        ObsError::BucketNotEmpty(bucket) => "Bucket '"@ + bucket@
            + "' is not empty. Delete all objects first."@,
        ObsError::BucketAlreadyExists(bucket) => "Bucket '"@ + bucket@ + "' already exists."@,
        ObsError::InvalidCredentials => "Invalid credentials. Check your access key and secret key."@,
        ObsError::ConnectionFailed(msg) => if msg@.len() == 0 {
            "Failed to connect to the server."@
        } else {
            "Connection failed: "@ + msg@
        },
        ObsError::Timeout(_) => "Operation timed out. Try again or check your connection."@,
        ObsError::Other(msg) => if msg@.len() == 0 {
            "Unknown error occurred."@
        } else {
            s3_summary(msg@, lowercase(msg@))
        },
    }
}

/// The display text of an error; for `Io` it is `"IO error: "` and the I/O error's own text.
pub open spec fn display_text(e: ObsError) -> Seq<char> {
    match e {
        ObsError::NotFound(s) => "Object not found: "@ + s@,
        ObsError::BucketNotFound(s) => "Bucket not found: "@ + s@,
        ObsError::PermissionDenied(s) => "Permission denied: "@ + s@,
        ObsError::InvalidConfig(s) => "Invalid configuration: "@ + s@,
        ObsError::Network(s) => "Network error: "@ + s@,
        ObsError::AwsSdk(s) => "AWS SDK error: "@ + s@,
        ObsError::S3Error(s) => "S3 error: "@ + s@,
        ObsError::Io(_) => "IO error: "@,
        ObsError::BucketNotEmpty(s) => "Bucket not empty: "@ + s@,
        ObsError::BucketAlreadyExists(s) => "Bucket already exists: "@ + s@,
        ObsError::InvalidCredentials => "Invalid credentials"@,
        ObsError::ConnectionFailed(s) => "Connection failed: "@ + s@,
        ObsError::Timeout(s) => "Timeout: "@ + s@,
        ObsError::Other(s) => "Error: "@ + s@,
    }
}

/// `a + b + c` holds `b`.
proof fn lemma_middle_contained(a: Seq<char>, b: Seq<char>, c: Seq<char>)
    ensures
        seq_contains(a + b + c, b),
{
    assert((a + b + c).subrange(a.len() as int, a.len() + b.len() as int) =~= b);
}

/// The message of an error about a named object, bucket, setting or connection names it:
/// a missing object (when named), a missing, non-empty or already existing bucket, a
/// configuration problem, and a failed connection (when described).
pub proof fn lemma_message_names_subject(e: ObsError)
    ensures
        e matches ObsError::NotFound(r) ==> (r@.len() > 0 ==> seq_contains(
            user_message_text(e),
            r@,
        )),
        e matches ObsError::BucketNotFound(b) ==> seq_contains(user_message_text(e), b@),
        e matches ObsError::BucketNotEmpty(b) ==> seq_contains(user_message_text(e), b@),
        e matches ObsError::BucketAlreadyExists(b) ==> seq_contains(user_message_text(e), b@),
        e matches ObsError::InvalidConfig(m) ==> seq_contains(user_message_text(e), m@),
        e matches ObsError::ConnectionFailed(m) ==> (m@.len() > 0 ==> seq_contains(
            user_message_text(e),
            m@,
        )),
{
    match e {
        ObsError::NotFound(r) => {
            lemma_middle_contained("'"@, r@, "' does not exist."@);
        },
        ObsError::BucketNotFound(b) => {
            lemma_middle_contained(
                "Bucket '"@,
                b@,
                "' does not exist or you don't have access to it."@,
            );
        },
        ObsError::BucketNotEmpty(b) => {
            lemma_middle_contained("Bucket '"@, b@, "' is not empty. Delete all objects first."@);
        },
        ObsError::BucketAlreadyExists(b) => {
            lemma_middle_contained("Bucket '"@, b@, "' already exists."@);
        },
        ObsError::InvalidConfig(m) => {
            lemma_middle_contained("Configuration error: "@, m@, Seq::empty());
            assert("Configuration error: "@ + m@ + Seq::empty() =~= "Configuration error: "@ + m@);
        },
        ObsError::ConnectionFailed(m) => {
            lemma_middle_contained("Connection failed: "@, m@, Seq::empty());
            assert("Connection failed: "@ + m@ + Seq::empty() =~= "Connection failed: "@ + m@);
        },
        _ => {},
    }
}

/// The text an error carries, if it carries one.
pub open spec fn payload(e: ObsError) -> Option<Seq<char>> {
    match e {
        ObsError::NotFound(s) => Some(s@),
        ObsError::BucketNotFound(s) => Some(s@),
        ObsError::PermissionDenied(s) => Some(s@),
        ObsError::InvalidConfig(s) => Some(s@),
        ObsError::Network(s) => Some(s@),
        ObsError::AwsSdk(s) => Some(s@),
        ObsError::S3Error(s) => Some(s@),
        ObsError::Io(_) => None,
        ObsError::BucketNotEmpty(s) => Some(s@),
        ObsError::BucketAlreadyExists(s) => Some(s@),
        ObsError::InvalidCredentials => None,
        ObsError::ConnectionFailed(s) => Some(s@),
        ObsError::Timeout(s) => Some(s@),
        ObsError::Other(s) => Some(s@),
    }
}

/// Whether `text` ends with `suffix`.
pub open spec fn ends_with(text: Seq<char>, suffix: Seq<char>) -> bool {
    suffix.len() <= text.len() && text.subrange(text.len() - suffix.len(), text.len() as int)
        == suffix
}

/// The display text of an error that carries a text ends with that text.
pub proof fn lemma_display_ends_with_payload(e: ObsError)
    ensures
        payload(e) matches Some(s) ==> ends_with(display_text(e), s),
{
    if let Some(s) = payload(e) {
        let t = display_text(e);
        assert(t.subrange(t.len() - s.len(), t.len() as int) =~= s);
    }
}

/// The class of the kind that `std::io::Error::kind` reports for `err`: `NotFound`,
/// `PermissionDenied`, or `Other` for any other kind. The kind is stored in the error.
pub uninterp spec fn io_kind_class(err: std::io::Error) -> IoErrorClass;

/// Calls `std::io::Error::kind` and tells apart the two kinds that messages single out;
/// every other kind is `Other`.
#[verifier::external_body]
fn io_error_class(err: &std::io::Error) -> (c: IoErrorClass)
    ensures
        c == io_kind_class(*err),
{
    match err.kind() {
        std::io::ErrorKind::NotFound => IoErrorClass::NotFound,
        std::io::ErrorKind::PermissionDenied => IoErrorClass::PermissionDenied,
        _ => IoErrorClass::Other,
    }
}

/// The summary of an S3/AWS error text `msg` given its lower-case form `lower`.
pub fn s3_error_summary(msg: &str, lower: &str) -> (r: String)
    ensures
        r@ == s3_summary(msg@, lower@),
{
    let l = chars_of(lower);
    if has_text(&l, "accessdenied") || has_text(&l, "access denied") {
        return String::from_str("Access denied. Check your credentials and permissions.");
    }
    if has_text(&l, "invalidaccesskeyid") {
        return String::from_str("Invalid access key. Check your credentials.");
    }
    if has_text(&l, "signaturemismatch") {
        return String::from_str("Authentication failed. Check your secret key.");
    }
    if has_text(&l, "nosuchbucket") {
        return String::from_str("Bucket does not exist.");
    }
    if has_text(&l, "bucketalreadyexists") {
        return String::from_str("Bucket already exists.");
    }
    if has_text(&l, "bucketnotempty") {
        return String::from_str("Bucket is not empty. Delete all objects first.");
    }
    if has_text(&l, "nosuchkey") {
        return String::from_str("Object does not exist.");
    }
    if has_text(&l, "entitytoolarge") {
        return String::from_str("File is too large for upload.");
    }
    if has_text(&l, "timeout") || has_text(&l, "timed out") {
        return String::from_str("Operation timed out. Check your connection.");
    }
    if has_text(&l, "slowdown") || has_text(&l, "throttl") {
        return String::from_str("Too many requests. Please wait and try again.");
    }
    if has_text(&l, "malformedpolicy") {
        return String::from_str("Invalid bucket policy format.");
    }
    if has_text(&l, "nosuchcorsconfiguration") {
        return String::from_str("No CORS configuration found for this bucket.");
    }
    String::from_str(msg)
}

/// The summary of a network error given the lower-case form `lower` of its text.
pub fn network_error_summary(lower: &str) -> (r: String)
    ensures
        r@ == network_summary(lower@),
{
    let l = chars_of(lower);
    if has_text(&l, "timeout") || has_text(&l, "timed out") {
        String::from_str("Connection timed out. Check your network connection.")
    } else if has_text(&l, "refused") {
        String::from_str("Connection refused. The server may be unavailable.")
    } else if has_text(&l, "resolve") || has_text(&l, "dns") {
        String::from_str("Could not reach the server. Check the endpoint URL.")
    } else {
        String::from_str("Network error. Check your internet connection.")
    }
}

/// The message for a local I/O failure of class `class` whose text is `text`.
pub fn io_error_summary(class: IoErrorClass, text: &str) -> (r: String)
    ensures
        r@ == io_summary(class, text@),
{
    match class {
        IoErrorClass::NotFound => String::from_str("File not found on local disk."),
        IoErrorClass::PermissionDenied => String::from_str("Permission denied for local file."),
        IoErrorClass::Other => concat2("File error: ", text),
    }
}

impl ObsError {
    /// Returns a human-friendly error message suitable for end users.
    pub fn user_message(&self) -> (r: String)
        ensures
            !(self is Io) ==> r@ == user_message_text(*self),
            self matches ObsError::Io(err) ==> exists|text: String|
                to_string_from_display_ensures::<std::io::Error>(&err, text) && r@ == io_summary(
                    io_kind_class(*err),
                    text@,
                ),
    {
        match self {
            ObsError::NotFound(resource) => {
                if resource.as_str().is_empty() {
                    String::from_str("The requested file or folder does not exist.")
                } else {
                    concat3("'", resource.as_str(), "' does not exist.")
                }
            },
            ObsError::BucketNotFound(bucket) => {
                concat3(
                    "Bucket '",
                    bucket.as_str(),
                    "' does not exist or you don't have access to it.",
                )
            },
            ObsError::PermissionDenied(_) => {
                String::from_str("Access denied. Check your credentials and permissions.")
            },
            ObsError::InvalidConfig(msg) => concat2("Configuration error: ", msg.as_str()),
            ObsError::Network(msg) => {
                let lower = to_lowercase(msg.as_str());
                network_error_summary(lower.as_str())
            },
            ObsError::AwsSdk(msg) => Self::parse_s3_error(msg.as_str()),
            ObsError::S3Error(msg) => Self::parse_s3_error(msg.as_str()),
            ObsError::Io(err) => {
                let class = io_error_class(err);
                let text = err.to_string();
                let r = io_error_summary(class, text.as_str());
                assert(to_string_from_display_ensures::<std::io::Error>(err, text) && r@
                    == io_summary(class, text@));
                r
            },
            ObsError::BucketNotEmpty(bucket) => {
                concat3("Bucket '", bucket.as_str(), "' is not empty. Delete all objects first.")
            },
            ObsError::BucketAlreadyExists(bucket) => {
                concat3("Bucket '", bucket.as_str(), "' already exists.")
            },
            ObsError::InvalidCredentials => {
                String::from_str("Invalid credentials. Check your access key and secret key.")
            },
            ObsError::ConnectionFailed(msg) => {
                if msg.as_str().is_empty() {
                    String::from_str("Failed to connect to the server.")
                } else {
                    concat2("Connection failed: ", msg.as_str())
                }
            },
            ObsError::Timeout(_) => {
                String::from_str("Operation timed out. Try again or check your connection.")
            },
            ObsError::Other(msg) => {
                if msg.as_str().is_empty() {
                    String::from_str("Unknown error occurred.")
                } else {
                    Self::parse_s3_error(msg.as_str())
                }
            },
        }
    }

    /// Attempt to extract a useful message from an S3/AWS error string.
    fn parse_s3_error(msg: &str) -> (r: String)
        ensures
            r@ == s3_summary(msg@, lowercase(msg@)),
    {
        let lower = to_lowercase(msg);
        s3_error_summary(msg, lower.as_str())
    }

    /// The text the error displays as.
    pub fn display_message(&self) -> (r: String)
        ensures
            !(self is Io) ==> r@ == display_text(*self),
            self matches ObsError::Io(err) ==> exists|text: String|
                to_string_from_display_ensures::<std::io::Error>(&err, text) && r@ == display_text(
                    *self,
                ) + text@,
    {
        match self {
            ObsError::NotFound(s) => concat2("Object not found: ", s.as_str()),
            ObsError::BucketNotFound(s) => concat2("Bucket not found: ", s.as_str()),
            ObsError::PermissionDenied(s) => concat2("Permission denied: ", s.as_str()),
            ObsError::InvalidConfig(s) => concat2("Invalid configuration: ", s.as_str()),
            ObsError::Network(s) => concat2("Network error: ", s.as_str()),
            ObsError::AwsSdk(s) => concat2("AWS SDK error: ", s.as_str()),
            ObsError::S3Error(s) => concat2("S3 error: ", s.as_str()),
            ObsError::Io(err) => {
                let text = err.to_string();
                let r = concat2("IO error: ", text.as_str());
                assert(to_string_from_display_ensures::<std::io::Error>(err, text) && r@
                    == display_text(*self) + text@);
                r
            },
            ObsError::BucketNotEmpty(s) => concat2("Bucket not empty: ", s.as_str()),
            ObsError::BucketAlreadyExists(s) => concat2("Bucket already exists: ", s.as_str()),
            ObsError::InvalidCredentials => String::from_str("Invalid credentials"),
            ObsError::ConnectionFailed(s) => concat2("Connection failed: ", s.as_str()),
            ObsError::Timeout(s) => concat2("Timeout: ", s.as_str()),
            ObsError::Other(s) => concat2("Error: ", s.as_str()),
        }
    }
}

} // verus!
