//! What the bucket policy operations make of the replies of the S3 API.

use vstd::prelude::*;

use crate::error::{ObsError, ObsErrorView};
use crate::text::{chars_of, concat2, has_text, seq_contains};
use crate::types::BucketPolicy;

verus! {

/// Whether the error text of a failed read of the bucket policy means that none is set.
pub open spec fn policy_absent(text: Seq<char>) -> bool {
    seq_contains(text, "NoSuchBucketPolicy"@) || seq_contains(text, "404"@) || seq_contains(
        text,
        "NoSuchPolicy"@,
    ) || seq_contains(text, "The bucket policy does not exist"@) || seq_contains(text, "policy"@)
}

/// Whether the error text of a failed removal of the bucket policy means that none was set.
pub open spec fn policy_already_absent(text: Seq<char>) -> bool {
    seq_contains(text, "NoSuchBucketPolicy"@) || seq_contains(text, "404"@) || seq_contains(
        text,
        "NoSuchPolicy"@,
    ) || seq_contains(text, "The bucket policy does not exist"@)
}

/// The policy a read of the bucket policy yields: the policy text read (empty when the
/// reply holds none), an empty policy when the error says that none is set, or `Other`.
/// `response` holds the policy read, or the debug text of the failure.
pub fn get_bucket_policy_outcome(response: std::result::Result<Option<String>, String>) -> (r:
    std::result::Result<BucketPolicy, ObsError>)
    ensures
        response matches Ok(p) ==> (r matches Ok(policy) && policy.policy_json@ == match p {
            Some(t) => t@,
            None => Seq::empty(),
        }),
        response matches Err(text) ==> if policy_absent(text@) {
            r matches Ok(policy) && policy.policy_json@.len() == 0
        } else {
            r matches Err(e) && e@ == ObsErrorView::Other("Failed to get bucket policy: "@ + text@)
        },
{
    match response {
        Ok(p) => {
            let policy_json = match p {
                Some(t) => t,
                None => String::new(),
            };
            Ok(BucketPolicy { policy_json })
        },
        Err(text) => {
            let t = chars_of(text.as_str());
            if has_text(&t, "NoSuchBucketPolicy") || has_text(&t, "404") || has_text(
                &t,
                "NoSuchPolicy",
            ) || has_text(&t, "The bucket policy does not exist") || has_text(&t, "policy") {
                Ok(BucketPolicy { policy_json: String::new() })
            } else {
                Err(ObsError::Other(concat2("Failed to get bucket policy: ", text.as_str())))
            }
        },
    }
}

/// The outcome of setting the bucket policy; `result` holds the debug text of a failure.
pub fn put_bucket_policy_outcome(result: std::result::Result<(), String>) -> (r:
    std::result::Result<(), ObsError>)
    ensures
        result is Ok ==> r is Ok,
        result matches Err(text) ==> (r matches Err(e) && e@ == ObsErrorView::Other(
            "Failed to set bucket policy: "@ + text@,
        )),
{
    match result {
        Ok(()) => Ok(()),
        Err(text) => Err(ObsError::Other(concat2("Failed to set bucket policy: ", text.as_str()))),
    }
}

/// The outcome of removing the bucket policy: removing one that is not set succeeds.
/// `result` holds the debug text of a failure.
pub fn delete_bucket_policy_outcome(result: std::result::Result<(), String>) -> (r:
    std::result::Result<(), ObsError>)
    ensures
        result is Ok ==> r is Ok,
        result matches Err(text) ==> if policy_already_absent(text@) {
            r is Ok
        } else {
            r matches Err(e) && e@ == ObsErrorView::Other(
                "Failed to delete bucket policy: "@ + text@,
            )
        },
{
    match result {
        Ok(()) => Ok(()),
        Err(text) => {
            let t = chars_of(text.as_str());
            if has_text(&t, "NoSuchBucketPolicy") || has_text(&t, "404") || has_text(
                &t,
                "NoSuchPolicy",
            ) || has_text(&t, "The bucket policy does not exist") {
                Ok(())
            } else {
                Err(ObsError::Other(concat2("Failed to delete bucket policy: ", text.as_str())))
            }
        },
    }
}

} // verus!
