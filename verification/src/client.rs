//! The OBS client: its configuration, and how failures of the S3 and AWS layers
//! become [`ObsError`]s.

use s3::bucket::Bucket;
use s3::creds::error::CredentialsError;
use s3::creds::Credentials;
use s3::error::S3Error;
use s3::Region;
use vstd::prelude::*;
use vstd::string::to_string_from_display_ensures;

use crate::error::{ObsError, ObsErrorView};
use crate::worm::{object_lock_url, retention_url};
use crate::text::{chars_of, concat3, decimal, find_from, has_text, lowercase, seq_contains, to_lowercase, u64_to_decimal};

verus! {

/// `s3::bucket::Bucket`, a handle on one bucket; opaque here.
#[verifier::external_type_specification]
#[verifier::external_body]
pub struct ExBucket(Bucket);

/// `s3::creds::Credentials`; opaque here.
#[verifier::external_type_specification]
#[verifier::external_body]
pub struct ExCredentials(Credentials);

/// `s3::Region`; opaque here.
#[verifier::external_type_specification]
#[verifier::external_body]
pub struct ExRegion(Region);

/// `s3::error::S3Error`; opaque here.
#[verifier::external_type_specification]
#[verifier::external_body]
pub struct ExS3Error(S3Error);

/// `s3::creds::error::CredentialsError`; opaque here.
#[verifier::external_type_specification]
#[verifier::external_body]
pub struct ExCredentialsError(CredentialsError);

/// The text of an optional string.
pub open spec fn opt_text(o: Option<&str>) -> Option<Seq<char>> {
    match o {
        Some(s) => Some(s@),
        None => None,
    }
}

/// The static credentials `Credentials::new` builds from the keys it is given.
pub uninterp spec fn static_credentials(
    access_key: Seq<char>,
    secret_key: Option<Seq<char>>,
    security_token: Option<Seq<char>>,
    session_token: Option<Seq<char>>,
) -> Credentials;

/// `Credentials::new` returns, when an access key is given, the credentials holding the
/// given keys and tokens, at once (it looks elsewhere for credentials only when no access
/// key is given; the profile is then not read).
pub assume_specification[ Credentials::new ](
    access_key: Option<&str>,
    secret_key: Option<&str>,
    security_token: Option<&str>,
    session_token: Option<&str>,
    profile: Option<&str>,
) -> (r: std::result::Result<Credentials, CredentialsError>)
    ensures
        access_key is Some ==> r is Ok,
        access_key is Some ==> r->Ok_0 == static_credentials(access_key->0@, opt_text(secret_key), opt_text(security_token), opt_text(session_token)),
;

/// The bucket name a rust-s3 bucket handle holds.
pub uninterp spec fn handle_name(bucket: Bucket) -> Seq<char>;

/// The region a rust-s3 bucket handle holds.
pub uninterp spec fn handle_region(bucket: Bucket) -> Region;

/// The credentials a rust-s3 bucket handle signs its requests with.
pub uninterp spec fn handle_credentials(bucket: Bucket) -> Credentials;

/// Whether a rust-s3 bucket handle addresses its bucket path-style.
pub uninterp spec fn handle_path_style(bucket: Bucket) -> bool;

/// `Bucket::new` builds a bucket handle and its HTTP client; building the client can fail.
/// The handle holds the given name, region and credentials, with path-style addressing
/// off. What else it holds (the HTTP client) is not stated.
pub assume_specification[ Bucket::new ](name: &str, region: Region, credentials: Credentials) -> (r: std::result::Result<
    Box<Bucket>,
    S3Error,
>)
    ensures
        r is Ok ==> handle_name(*r->Ok_0) == name@,
        r is Ok ==> handle_region(*r->Ok_0) == region,
        r is Ok ==> handle_credentials(*r->Ok_0) == credentials,
        r is Ok ==> !handle_path_style(*r->Ok_0),
;

/// `Bucket::with_path_style` copies the handle with path-style addressing on; the name,
/// region and credentials are kept.
pub assume_specification[ Bucket::with_path_style ](bucket: &Bucket) -> (r: Box<Bucket>)
    ensures
        handle_name(*r) == handle_name(*bucket),
        handle_region(*r) == handle_region(*bucket),
        handle_credentials(*r) == handle_credentials(*bucket),
        handle_path_style(*r),
;

/// `Bucket::url` gives a path-style handle's URL: the region's scheme, `://`, the region's
/// host, `/`, and the bucket name; a custom region's scheme and host come from its endpoint
/// (see `endpoint_scheme` and `endpoint_host`).
pub assume_specification[ Bucket::url ](bucket: &Bucket) -> (r: String)
    ensures
        handle_path_style(*bucket) ==> forall|name: Seq<char>, endpoint: Seq<char>|
            #[trigger] custom_region_value(name, endpoint) == handle_region(*bucket) ==> r@
                == bucket_url_text(handle_name(*bucket), endpoint),
;

/// `Region::clone`, derived: the copy equals the original.
pub assume_specification[ <Region as Clone>::clone ](region: &Region) -> (r: Region)
    ensures
        r == *region,
;

/// `Credentials::clone`, derived: the copy equals the original.
pub assume_specification[ <Credentials as Clone>::clone ](credentials: &Credentials) -> (r:
    Credentials)
    ensures
        r == *credentials,
;

/// The region value `Region::Custom { region, endpoint }`.
pub uninterp spec fn custom_region_value(region: Seq<char>, endpoint: Seq<char>) -> Region;

/// Builds the region value `Region::Custom { region, endpoint }`.
#[verifier::external_body]
fn custom_region(region: String, endpoint: String) -> (r: Region)
    ensures
        r == custom_region_value(region@, endpoint@),
{
    Region::Custom { region, endpoint }
}

/// The scheme of a custom endpoint: the text before its first `://`, or `https` when it has none.
pub open spec fn endpoint_scheme(endpoint: Seq<char>) -> Seq<char> {
    match find_from(endpoint, "://"@, 0) {
        Some(p) => endpoint.subrange(0, p as int),
        None => "https"@,
    }
}

/// The host of a custom endpoint: the text after its first `://`, or the whole endpoint when
/// it has none.
pub open spec fn endpoint_host(endpoint: Seq<char>) -> Seq<char> {
    match find_from(endpoint, "://"@, 0) {
        Some(p) => endpoint.subrange((p + 3) as int, endpoint.len() as int),
        None => endpoint,
    }
}

/// The path-style base URL of the bucket `name` at a custom endpoint, as rust-s3's
/// `Bucket::url` writes it: scheme, `://`, host, `/`, bucket name.
pub open spec fn bucket_url_text(name: Seq<char>, endpoint: Seq<char>) -> Seq<char> {
    endpoint_scheme(endpoint) + "://"@ + endpoint_host(endpoint) + "/"@ + name
}

/// Whether `m` is the display text of some rust-s3 error.
pub open spec fn is_s3_error_text(m: Seq<char>) -> bool {
    exists|err: S3Error, text: String|
        to_string_from_display_ensures::<S3Error>(&err, text) && m == text@
}

/// Builder for constructing an [`ObsClient`].
pub struct ObsClientBuilder {
    access_key: Option<String>,
    secret_key: Option<String>,
    endpoint: Option<String>,
    region: Option<String>,
}

/// The settings a builder holds.
#[verifier::ext_equal]
pub struct ObsClientBuilderView {
    pub access_key: Option<Seq<char>>,
    pub secret_key: Option<Seq<char>>,
    pub endpoint: Option<Seq<char>>,
    pub region: Option<Seq<char>>,
}

impl View for ObsClientBuilder {
    type V = ObsClientBuilderView;

    closed spec fn view(&self) -> ObsClientBuilderView {
        ObsClientBuilderView {
            access_key: self.access_key.deep_view(),
            secret_key: self.secret_key.deep_view(),
            endpoint: self.endpoint.deep_view(),
            region: self.region.deep_view(),
        }
    }
}

/// Client for interacting with Huawei OBS (Object Storage Service).
pub struct ObsClient {
    #[allow(dead_code)]
    bucket: Box<Bucket>,
    credentials: Credentials,
    region: Region,
    access_key: String,
    secret_key: String,
    endpoint: String,
    region_name: String,
}

/// The configuration a client holds: its settings, and the rust-s3 region and credentials
/// it hands to every bucket handle it makes.
#[verifier::ext_equal]
pub struct ObsClientView {
    pub access_key: Seq<char>,
    pub secret_key: Seq<char>,
    pub endpoint: Seq<char>,
    pub region_name: Seq<char>,
    pub region: Region,
    pub credentials: Credentials,
}

impl View for ObsClient {
    type V = ObsClientView;

    closed spec fn view(&self) -> ObsClientView {
        ObsClientView {
            access_key: self.access_key@,
            secret_key: self.secret_key@,
            endpoint: self.endpoint@,
            region_name: self.region_name@,
            region: self.region,
            credentials: self.credentials,
        }
    }
}

/// The client configured with these settings: the custom region of its region name and
/// endpoint, and the static credentials of its keys.
pub open spec fn client_with(
    access_key: Seq<char>,
    secret_key: Seq<char>,
    endpoint: Seq<char>,
    region_name: Seq<char>,
) -> ObsClientView {
    ObsClientView {
        access_key,
        secret_key,
        endpoint,
        region_name,
        region: custom_region_value(region_name, endpoint),
        credentials: static_credentials(access_key, Some(secret_key), None, None),
    }
}

impl ObsClient {
    /// The region and credentials are those that the settings give.
    #[verifier::type_invariant]
    closed spec fn handles_match_settings(self) -> bool {
        self@ == client_with(self.access_key@, self.secret_key@, self.endpoint@, self.region_name@)
    }
}

/// The region used when none is set.
pub open spec fn default_region() -> Seq<char> {
    "us-east-1"@
}

/// The client a builder with these settings configures, once every required setting is there.
pub open spec fn configured_client(b: ObsClientBuilderView) -> ObsClientView {
    client_with(
        b.access_key.unwrap(),
        b.secret_key.unwrap(),
        b.endpoint.unwrap(),
        match b.region {
            Some(r) => r,
            None => default_region(),
        },
    )
}

/// A builder given an access key, a secret key and an endpoint configures a client that
/// holds exactly those, in the region given or else in `us-east-1`.
pub proof fn lemma_builder_configures(
    access_key: Seq<char>,
    secret_key: Seq<char>,
    endpoint: Seq<char>,
    region: Option<Seq<char>>,
)
    ensures
        configured_client(
            ObsClientBuilderView {
                access_key: Some(access_key),
                secret_key: Some(secret_key),
                endpoint: Some(endpoint),
                region,
            },
        ) == (ObsClientView {
            access_key,
            secret_key,
            endpoint,
            region_name: match region {
                Some(r) => r,
                None => "us-east-1"@,
            },
            region: custom_region_value(
                match region {
                    Some(r) => r,
                    None => "us-east-1"@,
                },
                endpoint,
            ),
            credentials: static_credentials(access_key, Some(secret_key), None, None),
        }),
{
}

impl ObsClientBuilder {
    /// Set the access key.
    pub fn access_key(self, ak: &str) -> (r: Self)
        ensures
            r@ == (ObsClientBuilderView { access_key: Some(ak@), ..self@ }),
    {
        let mut b = self;
        b.access_key = Some(String::from_str(ak));
        b
    }

    /// Set the secret key.
    pub fn secret_key(self, sk: &str) -> (r: Self)
        ensures
            r@ == (ObsClientBuilderView { secret_key: Some(sk@), ..self@ }),
    {
        let mut b = self;
        b.secret_key = Some(String::from_str(sk));
        b
    }

    /// Set the OBS endpoint URL (e.g. `https://obs.ap-southeast-1.myhuaweicloud.com`).
    pub fn endpoint(self, endpoint: &str) -> (r: Self)
        ensures
            r@ == (ObsClientBuilderView { endpoint: Some(endpoint@), ..self@ }),
    {
        let mut b = self;
        b.endpoint = Some(String::from_str(endpoint));
        b
    }

    /// Set the region identifier (e.g. `ap-southeast-1`).
    /// Defaults to `"us-east-1"` if not set.
    pub fn region(self, region: &str) -> (r: Self)
        ensures
            r@ == (ObsClientBuilderView { region: Some(region@), ..self@ }),
    {
        let mut b = self;
        b.region = Some(String::from_str(region));
        b
    }

    /// Build the [`ObsClient`].
    ///
    /// Fails with `InvalidConfig` naming the first of access key, secret key and endpoint
    /// that is missing; with everything there, it is `ObsClient::new` on the settings,
    /// the region defaulting to `us-east-1`.
    pub fn build(self) -> (r: std::result::Result<ObsClient, ObsError>)
        ensures
            self@.access_key is None ==> (r matches Err(e) && e@ == ObsErrorView::InvalidConfig(
                "access_key is required"@,
            )),
            self@.access_key is Some && self@.secret_key is None ==> (r matches Err(e) && e@
                == ObsErrorView::InvalidConfig("secret_key is required"@)),
            self@.access_key is Some && self@.secret_key is Some && self@.endpoint is None
                ==> (r matches Err(e) && e@ == ObsErrorView::InvalidConfig(
                "endpoint is required"@,
            )),
            self@.access_key is Some && self@.secret_key is Some && self@.endpoint is Some ==> (
            r matches Ok(c) ==> c@ == configured_client(self@)),
            self@.access_key is Some && self@.secret_key is Some && self@.endpoint is Some ==> (
            r matches Err(e) ==> (e matches ObsError::S3Error(m) && is_s3_error_text(m@))),
    {
        let access_key = match self.access_key {
            Some(k) => k,
            None => {
                return Err(ObsError::InvalidConfig(String::from_str("access_key is required")));
            },
        };
        let secret_key = match self.secret_key {
            Some(k) => k,
            None => {
                return Err(ObsError::InvalidConfig(String::from_str("secret_key is required")));
            },
        };
        let endpoint = match self.endpoint {
            Some(e) => e,
            None => {
                return Err(ObsError::InvalidConfig(String::from_str("endpoint is required")));
            },
        };
        let region = match self.region {
            Some(r) => r,
            None => String::from_str("us-east-1"),
        };
        ObsClient::new(access_key, secret_key, endpoint, region)
    }
}

impl ObsClient {
    /// Create a builder for configuring an [`ObsClient`].
    pub fn builder() -> (b: ObsClientBuilder)
        ensures
            b@ == (ObsClientBuilderView {
                access_key: None,
                secret_key: None,
                endpoint: None,
                region: None,
            }),
    {
        ObsClientBuilder { access_key: None, secret_key: None, endpoint: None, region: None }
    }

    /// Create a new OBS client directly.
    ///
    /// The client holds the settings, the custom region of `region` and `endpoint`, and the
    /// static credentials of the keys. The only failure is one of building the S3 bucket
    /// handle, reported as `S3Error` with rust-s3's error text.
    pub fn new(access_key: String, secret_key: String, endpoint: String, region: String) -> (r:
        std::result::Result<Self, ObsError>)
        ensures
            r matches Ok(c) ==> c@ == client_with(access_key@, secret_key@, endpoint@, region@),
            r matches Err(e) ==> (e matches ObsError::S3Error(m) && is_s3_error_text(m@)),
    {
        let credentials = match Credentials::new(
            Some(access_key.as_str()),
            Some(secret_key.as_str()),
            None,
            None,
            None,
        ) {
            Ok(c) => c,
            Err(e) => {
                return Err(ObsError::S3Error(e.to_string()));
            },
        };
        let s3_region = custom_region(region.clone(), endpoint.clone());
        let bucket = match Bucket::new("dummy", s3_region.clone(), credentials.clone()) {
            Ok(b) => b.with_path_style(),
            Err(e) => {
                let text = e.to_string();
                assert(to_string_from_display_ensures::<S3Error>(&e, text) && text@ == text@);
                return Err(ObsError::S3Error(text));
            },
        };
        Ok(ObsClient {
            bucket,
            credentials,
            region: s3_region,
            access_key,
            secret_key,
            endpoint,
            region_name: region,
        })
    }

    /// The settings of the AWS SDK client that the advanced operations use: the client's
    /// keys, its region and endpoint, and path-style addressing.
    pub fn aws_client_settings(&self) -> (s: AwsClientSettings)
        ensures
            s.access_key@ == self@.access_key,
            s.secret_key@ == self@.secret_key,
            s.region@ == self@.region_name,
            s.endpoint_url@ == self@.endpoint,
            s.force_path_style,
    {
        AwsClientSettings {
            access_key: self.access_key.clone(),
            secret_key: self.secret_key.clone(),
            region: self.region_name.clone(),
            endpoint_url: self.endpoint.clone(),
            force_path_style: true,
        }
    }

    /// A path-style handle on the bucket `name`, with this client's region and credentials.
    /// When rust-s3 cannot build the handle, the error is `S3Error` holding the display
    /// text of rust-s3's error.
    pub fn get_bucket(&self, name: &str) -> (r: std::result::Result<Box<Bucket>, ObsError>)
        ensures
            r matches Ok(b) ==> handle_name(*b) == name@ && handle_region(*b) == self@.region
                && handle_credentials(*b) == self@.credentials && handle_path_style(*b),
            r matches Err(e) ==> (e matches ObsError::S3Error(m) && is_s3_error_text(m@)),
    {
        match Bucket::new(name, self.region.clone(), self.credentials.clone()) {
            Ok(b) => Ok(b.with_path_style()),
            Err(e) => {
                let text = e.to_string();
                assert(to_string_from_display_ensures::<S3Error>(&e, text) && text@ == text@);
                Err(ObsError::S3Error(text))
            },
        }
    }
}

impl ObsClient {
    /// The URL of the Object Lock configuration of the bucket `bucket_name`: the bucket's
    /// path-style URL followed by `/?object-lock`. It fails, as `S3Error`, where
    /// rust-s3 cannot make a handle on the bucket.
    pub fn object_lock_request_url(&self, bucket_name: &str) -> (r: std::result::Result<
        String,
        ObsError,
    >)
        ensures
            r matches Ok(u) ==> u@ == bucket_url_text(bucket_name@, self@.endpoint)
                + "/?object-lock"@,
            r matches Err(e) ==> (e matches ObsError::S3Error(m) && is_s3_error_text(m@)),
    {
        let bucket = self.get_bucket(bucket_name)?;
        proof {
            use_type_invariant(self);
        }
        let base = bucket.url();
        Ok(object_lock_url(base.as_str()))
    }

    /// The URL of the retention of the object `key` in the bucket `bucket_name`, for one
    /// version if given: the bucket's path-style base URL, `/`, the key, `?retention`, and
    /// the version. It fails, as `S3Error`, where rust-s3 cannot make a handle on the bucket.
    pub fn retention_request_url(&self, bucket_name: &str, key: &str, version_id: Option<&str>) -> (r:
        std::result::Result<String, ObsError>)
        ensures
            r matches Ok(u) ==> u@ == bucket_url_text(bucket_name@, self@.endpoint) + "/"@ + key@
                + "?retention"@ + match version_id {
                Some(v) => "&versionId="@ + v@,
                None => Seq::empty(),
            },
            r matches Err(e) ==> (e matches ObsError::S3Error(m) && is_s3_error_text(m@)),
    {
        let bucket = self.get_bucket(bucket_name)?;
        proof {
            use_type_invariant(self);
        }
        let base = bucket.url();
        Ok(retention_url(base.as_str(), key, version_id))
    }
}

/// The settings of an AWS SDK S3 client.
pub struct AwsClientSettings {
    pub access_key: String,
    pub secret_key: String,
    pub region: String,
    pub endpoint_url: String,
    pub force_path_style: bool,
}

// ─── Error conversion ────────────────────────────────────────────────────────

/// What kind of `S3Error` a failure of the rust-s3 layer was, with the parts of it that
/// error conversion reads.
#[derive(Debug)]
pub enum S3Failure {
    /// `HttpFailWithBody(status, body)`.
    HttpFailWithBody { status: u16, body: String },
    /// `Credentials(_)`: the credentials could not be used.
    Creds,
    /// `Io(e)`, with the text of `e`.
    Io { detail: String },
    /// `Reqwest(e)`, with the text of `e`.
    Reqwest { detail: String },
    /// Any other kind.
    Other,
}

/// A failure of the rust-s3 layer: the error's own text, and its kind.
#[derive(Debug)]
pub struct S3ErrorReport {
    pub text: String,
    pub failure: S3Failure,
}

/// The part of a failure whose lower-case form conversion inspects besides the
/// error's text: the response body, or the text of the HTTP client's error.
pub open spec fn failure_detail(f: S3Failure) -> Seq<char> {
    match f {
        S3Failure::HttpFailWithBody { body, .. } => body@,
        S3Failure::Reqwest { detail } => detail@,
        _ => Seq::empty(),
    }
}

/// The error a failure of the rust-s3 layer becomes, given the lower-case forms of its
/// text and of its detail.
pub open spec fn s3_error_view(report: S3ErrorReport, text_lower: Seq<char>, detail_lower: Seq<
    char,
>) -> ObsErrorView {
    // Failures to parse a response mostly come from access being denied.
    if seq_contains(text_lower, "serde"@) || seq_contains(text_lower, "missing field"@)
        || seq_contains(text_lower, "deserialize"@) {
        ObsErrorView::PermissionDenied(Seq::empty())
    } else {
        match report.failure {
            S3Failure::HttpFailWithBody { status, body } => {
                if status == 404 {
                    if seq_contains(detail_lower, "nosuchbucket"@) {
                        ObsErrorView::BucketNotFound(Seq::empty())
                    } else {
                        ObsErrorView::NotFound(Seq::empty())
                    }
                } else if status == 403 {
                    ObsErrorView::PermissionDenied(Seq::empty())
                } else if status == 401 {
                    ObsErrorView::InvalidCredentials
                } else if status == 409 {
                    if seq_contains(detail_lower, "bucketnotempty"@) {
                        ObsErrorView::BucketNotEmpty(Seq::empty())
                    } else if seq_contains(detail_lower, "bucketalreadyexists"@) {
                        ObsErrorView::BucketAlreadyExists(Seq::empty())
                    } else {
                        ObsErrorView::S3Error(body@)
                    }
                } else if 500 <= status <= 599 {
                    ObsErrorView::S3Error("Server error ("@ + decimal(status as nat) + ")"@)
                } else {
                    ObsErrorView::S3Error(body@)
                }
            },
            S3Failure::Creds => ObsErrorView::InvalidCredentials,
            S3Failure::Io { detail } => ObsErrorView::Network(detail@),
            S3Failure::Reqwest { detail } => {
                if seq_contains(detail_lower, "timeout"@) {
                    ObsErrorView::Timeout(Seq::empty())
                } else if seq_contains(detail_lower, "connect"@) {
                    ObsErrorView::ConnectionFailed(Seq::empty())
                } else {
                    ObsErrorView::Network(detail@)
                }
            },
            S3Failure::Other => {
                if seq_contains(text_lower, "access"@) || seq_contains(text_lower, "denied"@) {
                    ObsErrorView::PermissionDenied(Seq::empty())
                } else if seq_contains(text_lower, "not found"@) || seq_contains(
                    text_lower,
                    "nosuch"@,
                ) {
                    ObsErrorView::NotFound(Seq::empty())
                } else {
                    ObsErrorView::Other(report.text@)
                }
            },
        }
    }
}

/// The error a failure of the AWS SDK becomes, given its debug text and that text in lower case.
pub open spec fn aws_error_view(debug: Seq<char>, lower: Seq<char>) -> ObsErrorView {
    if seq_contains(lower, "accessdenied"@) || seq_contains(lower, "access denied"@) {
        ObsErrorView::PermissionDenied(Seq::empty())
    } else if seq_contains(lower, "invalidaccesskeyid"@) || seq_contains(lower, "signaturemismatch"@) {
        ObsErrorView::InvalidCredentials
    } else if seq_contains(lower, "nosuchbucket"@) {
        ObsErrorView::BucketNotFound(Seq::empty())
    } else if seq_contains(lower, "bucketalreadyexists"@) || seq_contains(
        lower,
        "bucketalreadyownedby"@,
    ) {
        ObsErrorView::BucketAlreadyExists(Seq::empty())
    } else if seq_contains(lower, "bucketnotempty"@) || seq_contains(lower, "not empty"@) {
        ObsErrorView::BucketNotEmpty(Seq::empty())
    } else if seq_contains(lower, "nosuchkey"@) || seq_contains(lower, "notfound"@) || seq_contains(
        lower,
        "404"@,
    ) {
        ObsErrorView::NotFound(Seq::empty())
    } else if seq_contains(lower, "timeout"@) || seq_contains(lower, "timed out"@) {
        ObsErrorView::Timeout(Seq::empty())
    } else if seq_contains(lower, "connection"@) {
        ObsErrorView::ConnectionFailed(Seq::empty())
    } else {
        ObsErrorView::AwsSdk(debug)
    }
}

/// The error a failed deletion of the bucket `name` becomes, given the debug text of
/// the failure and that text in lower case.
pub open spec fn delete_bucket_error_view(name: Seq<char>, debug: Seq<char>, lower: Seq<char>) -> ObsErrorView {
    if seq_contains(lower, "not empty"@) || seq_contains(lower, "notempty"@) || seq_contains(
        lower,
        "bucketnotempty"@,
    ) {
        ObsErrorView::BucketNotEmpty(name)
    } else if seq_contains(lower, "not found"@) || seq_contains(lower, "nosuchbucket"@)
        || seq_contains(lower, "404"@) {
        ObsErrorView::BucketNotFound(name)
    } else {
        ObsErrorView::AwsSdk(debug)
    }
}

impl ObsClient {
    /// Convert a rust-s3 failure into an [`ObsError`], given the lower-case forms of the
    /// error's text and of its detail (see `failure_detail`).
    pub fn classify_s3_error(report: &S3ErrorReport, text_lower: &str, detail_lower: &str) -> (e:
        ObsError)
        ensures
            e@ == s3_error_view(*report, text_lower@, detail_lower@),
    {
        let tl = chars_of(text_lower);
        if has_text(&tl, "serde") || has_text(&tl, "missing field") || has_text(&tl, "deserialize") {
            return ObsError::PermissionDenied(String::new());
        }
        let dl = chars_of(detail_lower);
        match &report.failure {
            S3Failure::HttpFailWithBody { status, body } => {
                if *status == 404 {
                    if has_text(&dl, "nosuchbucket") {
                        ObsError::BucketNotFound(String::new())
                    } else {
                        ObsError::NotFound(String::new())
                    }
                } else if *status == 403 {
                    ObsError::PermissionDenied(String::new())
                } else if *status == 401 {
                    ObsError::InvalidCredentials
                } else if *status == 409 {
                    if has_text(&dl, "bucketnotempty") {
                        ObsError::BucketNotEmpty(String::new())
                    } else if has_text(&dl, "bucketalreadyexists") {
                        ObsError::BucketAlreadyExists(String::new())
                    } else {
                        ObsError::S3Error(body.clone())
                    }
                } else if 500 <= *status && *status <= 599 {
                    let code = u64_to_decimal(*status as u64);
                    ObsError::S3Error(concat3("Server error (", code.as_str(), ")"))
                } else {
                    ObsError::S3Error(body.clone())
                }
            },
            S3Failure::Creds => ObsError::InvalidCredentials,
            S3Failure::Io { detail } => ObsError::Network(detail.clone()),
            S3Failure::Reqwest { detail } => {
                if has_text(&dl, "timeout") {
                    ObsError::Timeout(String::new())
                } else if has_text(&dl, "connect") {
                    ObsError::ConnectionFailed(String::new())
                } else {
                    ObsError::Network(detail.clone())
                }
            },
            S3Failure::Other => {
                if has_text(&tl, "access") || has_text(&tl, "denied") {
                    ObsError::PermissionDenied(String::new())
                } else if has_text(&tl, "not found") || has_text(&tl, "nosuch") {
                    ObsError::NotFound(String::new())
                } else {
                    ObsError::Other(report.text.clone())
                }
            },
        }
    }

    /// Convert a rust-s3 failure into an [`ObsError`].
    pub fn convert_s3_error(report: &S3ErrorReport) -> (e: ObsError)
        ensures
            e@ == s3_error_view(
                *report,
                lowercase(report.text@),
                lowercase(failure_detail(report.failure)),
            ),
    {
        let text_lower = to_lowercase(report.text.as_str());
        let detail_lower = match &report.failure {
            S3Failure::HttpFailWithBody { body, .. } => to_lowercase(body.as_str()),
            S3Failure::Reqwest { detail } => to_lowercase(detail.as_str()),
            _ => to_lowercase(""),
        };
        proof {
            reveal_strlit("");
        }
        Self::classify_s3_error(report, text_lower.as_str(), detail_lower.as_str())
    }

    /// Convert the debug text of an AWS SDK failure into an [`ObsError`], given that text
    /// in lower case.
    pub fn classify_aws_error(debug: &str, lower: &str) -> (e: ObsError)
        ensures
            e@ == aws_error_view(debug@, lower@),
    {
        let l = chars_of(lower);
        if has_text(&l, "accessdenied") || has_text(&l, "access denied") {
            return ObsError::PermissionDenied(String::new());
        }
        if has_text(&l, "invalidaccesskeyid") || has_text(&l, "signaturemismatch") {
            return ObsError::InvalidCredentials;
        }
        if has_text(&l, "nosuchbucket") {
            return ObsError::BucketNotFound(String::new());
        }
        if has_text(&l, "bucketalreadyexists") || has_text(&l, "bucketalreadyownedby") {
            return ObsError::BucketAlreadyExists(String::new());
        }
        if has_text(&l, "bucketnotempty") || has_text(&l, "not empty") {
            return ObsError::BucketNotEmpty(String::new());
        }
        if has_text(&l, "nosuchkey") || has_text(&l, "notfound") || has_text(&l, "404") {
            return ObsError::NotFound(String::new());
        }
        if has_text(&l, "timeout") || has_text(&l, "timed out") {
            return ObsError::Timeout(String::new());
        }
        if has_text(&l, "connection") {
            return ObsError::ConnectionFailed(String::new());
        }
        ObsError::AwsSdk(String::from_str(debug))
    }

    /// Convert the debug text of an AWS SDK failure into an [`ObsError`].
    pub fn convert_aws_error(debug: &str) -> (e: ObsError)
        ensures
            e@ == aws_error_view(debug@, lowercase(debug@)),
    {
        let lower = to_lowercase(debug);
        Self::classify_aws_error(debug, lower.as_str())
    }

    /// The error a failed deletion of the bucket `name` becomes, given the debug text of
    /// the failure and that text in lower case.
    pub fn classify_delete_bucket_error(name: &str, debug: &str, lower: &str) -> (e: ObsError)
        ensures
            e@ == delete_bucket_error_view(name@, debug@, lower@),
    {
        let l = chars_of(lower);
        if has_text(&l, "not empty") || has_text(&l, "notempty") || has_text(&l, "bucketnotempty") {
            ObsError::BucketNotEmpty(String::from_str(name))
        } else if has_text(&l, "not found") || has_text(&l, "nosuchbucket") || has_text(&l, "404") {
            ObsError::BucketNotFound(String::from_str(name))
        } else {
            ObsError::AwsSdk(String::from_str(debug))
        }
    }

    /// The outcome of deleting the bucket `name`; `result` holds the debug text of a failure.
    pub fn delete_bucket_outcome(name: &str, result: std::result::Result<(), String>) -> (r:
        std::result::Result<(), ObsError>)
        ensures
            result is Ok ==> r is Ok,
            result matches Err(debug) ==> (r matches Err(e) && e@ == delete_bucket_error_view(
                name@,
                debug@,
                lowercase(debug@),
            )),
    {
        match result {
            Ok(()) => Ok(()),
            Err(debug) => {
                let lower = to_lowercase(debug.as_str());
                Err(Self::classify_delete_bucket_error(name, debug.as_str(), lower.as_str()))
            },
        }
    }
}

} // verus!
