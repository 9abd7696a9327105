//! Artifact storage gateway: the object-key scheme for ceremony artifacts,
//! time-limited capability (presigned) URLs over a remote object store, and
//! validation of a fetched contribution/signature pair.
//!
//! The transport calls that move bytes to and from the store are network
//! I/O and live outside this library; the gateway here owns the key scheme,
//! the presign policy, and every decision about what a fetched or uploaded
//! artifact means.

use rusoto_s3::util::PreSignedRequest;
use vstd::prelude::*;

verus! {

/// Errors of the storage gateway.
#[derive(Debug)]
pub enum S3Error {
    /// The store client could not be built; carries the underlying message.
    ClientConstructionFailed(String),
    /// No credential provider in the resolution chain succeeded; carries the
    /// underlying message.
    CredentialsUnavailable(String),
    /// Writing an object failed; carries the underlying message.
    UploadFailed(String),
    /// Reading an object failed; carries the underlying message.
    DownloadFailed(String),
    /// The contribution object is present but has an empty body.
    EmptyContribution,
    /// The contribution's signature object is present but has an empty body.
    EmptyContributionSignature,
    /// The byte stream broke while being read to completion; carries the
    /// underlying message.
    Transport(String),
}

/// Validity window of every capability URL the gateway issues, in seconds.
pub const URL_EXPIRES_SECS: u64 = 300;

/// `sub` occurs contiguously somewhere in `s`.
pub open spec fn has_substring(s: Seq<char>, sub: Seq<char>) -> bool {
    exists|i: int| 0 <= i && i + sub.len() <= s.len() && #[trigger] s.subrange(i, i + sub.len())
        == sub
}

/// A character the URL signer copies into the path unchanged: the RFC 3986
/// unreserved characters and the path separator.
pub open spec fn is_url_plain_char(c: char) -> bool {
    ||| (97 <= c as u32 && c as u32 <= 122)
    ||| (65 <= c as u32 && c as u32 <= 90)
    ||| (48 <= c as u32 && c as u32 <= 57)
    ||| c == '-' || c == '.' || c == '_' || c == '~' || c == '/'
}

/// Every character of `s` survives path encoding unchanged. All keys of the
/// ceremony's object-key scheme are of this shape.
pub open spec fn is_url_plain(s: Seq<char>) -> bool {
    forall|j: int| 0 <= j < s.len() ==> is_url_plain_char(s[j])
}

/// Whether every character of `s` survives path encoding unchanged.
pub fn url_plain(s: &str) -> (r: bool)
    ensures
        r == is_url_plain(s@),
{
    let len = s.unicode_len();
    let mut i: usize = 0;
    while i < len
        invariant
            len == s@.len(),
            0 <= i <= len,
            forall|j: int| 0 <= j < i ==> is_url_plain_char(s@[j]),
        decreases len - i,
    {
        let c = s.get_char(i);
        let u = c as u32;
        let plain = (97 <= u && u <= 122) || (65 <= u && u <= 90) || (48 <= u && u <= 57) || (c
            == '-' || c == '.' || c == '_' || c == '~' || c == '/');
        if !plain {
            return false;
        }
        i = i + 1;
    }
    true
}

/// The query-string marker by which a capability URL carries its validity
/// window: the expiry parameter followed by the window in decimal seconds.
pub open spec fn url_expiry_marker(expires_secs: u64) -> Seq<char> {
    "X-Amz-Expires="@ + dec_digits(expires_secs as nat)
}

/// The URL's path names exactly this bucket and key: the path segment
/// `/bucket/key` stands immediately before the query.
pub open spec fn url_names_object(url: Seq<char>, bucket: Seq<char>, key: Seq<char>) -> bool {
    has_substring(url, seq!['/'] + bucket + seq!['/'] + key + seq!['?'])
}

#[verifier::external_type_specification]
#[verifier::external_body]
pub struct ExRegion(rusoto_core::Region);

#[verifier::external_type_specification]
#[verifier::external_body]
pub struct ExAwsCredentials(rusoto_credential::AwsCredentials);

/// Relies on rusoto_core's `Region::Custom`: builds the region value for a
/// custom endpoint.
#[verifier::external_body]
fn region_custom(name: String, endpoint: String) -> rusoto_core::Region {
    rusoto_core::Region::Custom { name, endpoint }
}

/// Relies on rusoto_core's `Region::EuCentral1`: the default region used
/// when no custom endpoint is configured.
#[verifier::external_body]
fn region_default() -> rusoto_core::Region {
    rusoto_core::Region::EuCentral1
}

/// Relies on rusoto_credential's `AwsCredentials::new`: packs resolved
/// credential parts, with no expiry, into the value the signer consumes.
#[verifier::external_body]
fn credentials_from_parts(
    key: String,
    secret: String,
    token: Option<String>,
) -> rusoto_credential::AwsCredentials {
    rusoto_credential::AwsCredentials::new(key, secret, token, None)
}

/// Relies on rusoto_s3's `PreSignedRequest::get_presigned_url` for
/// `GetObjectRequest`: it signs a GET for exactly the given bucket and key
/// and returns a URL of the shape `scheme://host/path?query`. The query
/// always carries the expiry parameter with the window in decimal seconds,
/// and the path ends in `/bucket/key` unchanged whenever both survive path
/// encoding. The rest of the URL depends on the signing clock, so no more
/// is claimed of it.
#[verifier::external_body]
fn presign_get_url(
    region: &rusoto_core::Region,
    credentials: &rusoto_credential::AwsCredentials,
    bucket: &String,
    key: &String,
    expires_secs: u64,
) -> (r: String)
    ensures
        r@.len() > 0,
        has_substring(r@, url_expiry_marker(expires_secs)),
        is_url_plain(bucket@) && is_url_plain(key@) ==> url_names_object(r@, bucket@, key@),
{
    let get = rusoto_s3::GetObjectRequest {
        bucket: bucket.clone(),
        key: key.clone(),
        ..Default::default()
    };
    let options = rusoto_s3::util::PreSignedRequestOption {
        expires_in: std::time::Duration::from_secs(expires_secs),
    };
    get.get_presigned_url(region, credentials, &options)
}

/// Relies on rusoto_s3's `PreSignedRequest::get_presigned_url` for
/// `PutObjectRequest`: it signs a PUT for exactly the given bucket and key
/// and returns a URL of the shape `scheme://host/path?query`. The query
/// always carries the expiry parameter with the window in decimal seconds,
/// and the path ends in `/bucket/key` unchanged whenever both survive path
/// encoding. The rest of the URL depends on the signing clock, so no more
/// is claimed of it.
#[verifier::external_body]
fn presign_put_url(
    region: &rusoto_core::Region,
    credentials: &rusoto_credential::AwsCredentials,
    bucket: &String,
    key: &String,
    expires_secs: u64,
) -> (r: String)
    ensures
        r@.len() > 0,
        has_substring(r@, url_expiry_marker(expires_secs)),
        is_url_plain(bucket@) && is_url_plain(key@) ==> url_names_object(r@, bucket@, key@),
{
    let put = rusoto_s3::PutObjectRequest {
        bucket: bucket.clone(),
        key: key.clone(),
        ..Default::default()
    };
    let options = rusoto_s3::util::PreSignedRequestOption {
        expires_in: std::time::Duration::from_secs(expires_secs),
    };
    put.get_presigned_url(region, credentials, &options)
}

/// The storage gateway: everything presigning needs, bound once at startup.
/// The transport client lives with the caller that performs the network
/// calls.
pub struct S3Ctx {
    bucket: String,
    endpoint: Option<String>,
    region: rusoto_core::Region,
    credentials: rusoto_credential::AwsCredentials,
    expires_secs: u64,
}

impl S3Ctx {
    /// The bucket every key is resolved against.
    pub closed spec fn bucket_view(&self) -> Seq<char> {
        self.bucket@
    }

    /// The custom endpoint the gateway's region was built from, when one was
    /// configured; the default region stands otherwise.
    pub closed spec fn endpoint_view(&self) -> Option<Seq<char>> {
        match self.endpoint {
            Some(e) => Some(e@),
            None => None,
        }
    }

    /// The presign policy never exceeds the fixed validity window.
    pub closed spec fn wf(&self) -> bool {
        self.expires_secs == URL_EXPIRES_SECS
    }

    /// Binds the gateway to a bucket, a region (a custom endpoint when one
    /// is configured, the default region otherwise), resolved credential
    /// parts, and the fixed presign validity window. A missing bucket name
    /// falls back to the default bucket.
    pub fn from_config(
        bucket: Option<String>,
        custom_endpoint: Option<String>,
        access_key: String,
        secret_key: String,
        session_token: Option<String>,
    ) -> (r: S3Ctx)
        ensures
            r.wf(),
            r.bucket_view() == (match bucket {
                Some(b) => b@,
                None => "bucket"@,
            }),
            r.endpoint_view() == (match custom_endpoint {
                Some(e) => Some(e@),
                None => None::<Seq<char>>,
            }),
    {
        let bucket_name = match bucket {
            Some(b) => b,
            None => String::from_str("bucket"),
        };
        let (region, endpoint) = match custom_endpoint {
            Some(e) => (region_custom(String::from_str("custom"), e.clone()), Some(e)),
            None => (region_default(), None),
        };
        S3Ctx {
            bucket: bucket_name,
            endpoint,
            region,
            credentials: credentials_from_parts(access_key, secret_key, session_token),
            expires_secs: URL_EXPIRES_SECS,
        }
    }

    /// The bucket this gateway was bound to; transport requests against the
    /// store name the same bucket the capability URLs are signed for.
    pub fn bucket(&self) -> (r: &String)
        ensures
            r@ == self.bucket_view(),
    {
        &self.bucket
    }

    /// The URL of a challenge artifact, decided from whether the object is
    /// present in the store (the caller performs the existence check and
    /// passes its outcome): an absent challenge is "not yet published", not
    /// an error; a present one gets a fresh GET capability.
    pub fn get_challenge_url(&self, key: &String, present: bool) -> (r: Option<String>)
        requires
            self.wf(),
        ensures
            r is Some <==> present,
            r matches Some(u) ==> u@.len() > 0 && has_substring(
                u@,
                url_expiry_marker(URL_EXPIRES_SECS),
            ),
            r matches Some(u) ==> (is_url_plain(self.bucket_view()) && is_url_plain(key@)
                ==> url_names_object(u@, self.bucket_view(), key@)),
    {
        if present {
            Some(presign_get_url(&self.region, &self.credentials, &self.bucket, key, self.expires_secs))
        } else {
            None
        }
    }

    /// The GET capability handed out for a challenge the caller has just
    /// written: the caller calls this only after the upload transport call
    /// has completed, so the URL points at the uploaded bytes.
    pub fn challenge_url_after_upload(&self, key: &String) -> (r: String)
        requires
            self.wf(),
        ensures
            r@.len() > 0,
            has_substring(r@, url_expiry_marker(URL_EXPIRES_SECS)),
            is_url_plain(self.bucket_view()) && is_url_plain(key@) ==> url_names_object(
                r@,
                self.bucket_view(),
                key@,
            ),
    {
        presign_get_url(&self.region, &self.credentials, &self.bucket, key, self.expires_secs)
    }

    /// Fresh PUT capabilities for a contribution and its detached
    /// signature. Recomputed on every call: the validity window is too
    /// short, relative to a ceremony round, for a cached URL to be safe.
    pub fn get_contribution_urls(&self, contrib_key: &String, contrib_sig_key: &String) -> (r: (
        String,
        String,
    ))
        requires
            self.wf(),
        ensures
            r.0@.len() > 0,
            r.1@.len() > 0,
            has_substring(r.0@, url_expiry_marker(URL_EXPIRES_SECS)),
            has_substring(r.1@, url_expiry_marker(URL_EXPIRES_SECS)),
            is_url_plain(self.bucket_view()) && is_url_plain(contrib_key@) ==> url_names_object(
                r.0@,
                self.bucket_view(),
                contrib_key@,
            ),
            is_url_plain(self.bucket_view()) && is_url_plain(contrib_sig_key@)
                ==> url_names_object(r.1@, self.bucket_view(), contrib_sig_key@),
    {
        let contrib_url = presign_put_url(
            &self.region,
            &self.credentials,
            &self.bucket,
            contrib_key,
            self.expires_secs,
        );
        let contrib_sig_url = presign_put_url(
            &self.region,
            &self.credentials,
            &self.bucket,
            contrib_sig_key,
            self.expires_secs,
        );
        (contrib_url, contrib_sig_url)
    }
}

/// The decimal digit for a value below ten.
pub open spec fn digit_char(d: nat) -> char
    recommends
        d < 10,
{
    if d == 0 {
        '0'
    } else if d == 1 {
        '1'
    } else if d == 2 {
        '2'
    } else if d == 3 {
        '3'
    } else if d == 4 {
        '4'
    } else if d == 5 {
        '5'
    } else if d == 6 {
        '6'
    } else if d == 7 {
        '7'
    } else if d == 8 {
        '8'
    } else {
        '9'
    }
}

/// The decimal digits of `n`, most significant first, no leading zeros
/// (a single zero for zero itself).
pub open spec fn dec_digits(n: nat) -> Seq<char>
    decreases n,
{
    if n < 10 {
        seq![digit_char(n)]
    } else {
        dec_digits(n / 10) + seq![digit_char(n % 10)]
    }
}

fn digit_str(d: u64) -> (r: &'static str)
    requires
        d < 10,
    ensures
        r@ == seq![digit_char(d as nat)],
{
    proof {
        reveal_strlit("0");
        reveal_strlit("1");
        reveal_strlit("2");
        reveal_strlit("3");
        reveal_strlit("4");
        reveal_strlit("5");
        reveal_strlit("6");
        reveal_strlit("7");
        reveal_strlit("8");
        reveal_strlit("9");
    }
    let r = if d == 0 {
        "0"
    } else if d == 1 {
        "1"
    } else if d == 2 {
        "2"
    } else if d == 3 {
        "3"
    } else if d == 4 {
        "4"
    } else if d == 5 {
        "5"
    } else if d == 6 {
        "6"
    } else if d == 7 {
        "7"
    } else if d == 8 {
        "8"
    } else {
        "9"
    };
    proof {
        assert(r@ =~= seq![digit_char(d as nat)]);
    }
    r
}

/// Renders `n` in decimal.
pub fn u64_to_dec_string(n: u64) -> (s: String)
    ensures
        s@ == dec_digits(n as nat),
    decreases n,
{
    if n < 10 {
        digit_str(n).to_owned()
    } else {
        let front = u64_to_dec_string(n / 10);
        let s = front.concat(digit_str(n % 10));
        proof {
            assert(s@ =~= dec_digits(n as nat));
        }
        s
    }
}

/// The store key of a round's single unverified contribution object.
pub open spec fn contribution_key_spec(round_height: u64) -> Seq<char> {
    "round_"@ + dec_digits(round_height as nat) + "/chunk_0/contribution_1.unverified"@
}

/// The store key of that contribution's detached signature object.
pub open spec fn contribution_sig_key_spec(round_height: u64) -> Seq<char> {
    contribution_key_spec(round_height) + ".signature"@
}

/// Builds the store key of a round's contribution object.
pub fn contribution_key(round_height: u64) -> (r: String)
    ensures
        r@ == contribution_key_spec(round_height),
{
    let mut s = String::from_str("round_");
    let num = u64_to_dec_string(round_height);
    s.append(num.as_str());
    s.append("/chunk_0/contribution_1.unverified");
    proof {
        assert(s@ =~= contribution_key_spec(round_height));
    }
    s
}

/// Builds the store key of a round's contribution-signature object.
pub fn contribution_sig_key(round_height: u64) -> (r: String)
    ensures
        r@ == contribution_sig_key_spec(round_height),
{
    let mut s = contribution_key(round_height);
    s.append(".signature");
    proof {
        assert(s@ =~= contribution_sig_key_spec(round_height));
    }
    s
}

proof fn lemma_plain_concat(a: Seq<char>, b: Seq<char>)
    requires
        is_url_plain(a),
        is_url_plain(b),
    ensures
        is_url_plain(a + b),
{
    assert forall|j: int| 0 <= j < (a + b).len() implies is_url_plain_char((a + b)[j]) by {
        if j < a.len() {
            assert((a + b)[j] == a[j]);
        } else {
            assert((a + b)[j] == b[j - a.len()]);
        }
    }
}

proof fn lemma_dec_digits_plain(n: nat)
    ensures
        is_url_plain(dec_digits(n)),
    decreases n,
{
    if n < 10 {
        assert(is_url_plain_char(digit_char(n)));
        assert(dec_digits(n) =~= seq![digit_char(n)]);
    } else {
        lemma_dec_digits_plain(n / 10);
        assert(is_url_plain(seq![digit_char(n % 10)]));
        lemma_plain_concat(dec_digits(n / 10), seq![digit_char(n % 10)]);
    }
}

/// Law: every key of the ceremony's object-key scheme survives path
/// encoding unchanged, so the capability URLs issued for these keys name
/// exactly their bucket and key.
pub proof fn lemma_contribution_keys_plain(round_height: u64)
    ensures
        is_url_plain(contribution_key_spec(round_height)),
        is_url_plain(contribution_sig_key_spec(round_height)),
{
    reveal_strlit("round_");
    reveal_strlit("/chunk_0/contribution_1.unverified");
    reveal_strlit(".signature");
    assert("round_"@ =~= seq!['r', 'o', 'u', 'n', 'd', '_']);
    assert("/chunk_0/contribution_1.unverified"@ =~= seq![
        '/',
        'c',
        'h',
        'u',
        'n',
        'k',
        '_',
        '0',
        '/',
        'c',
        'o',
        'n',
        't',
        'r',
        'i',
        'b',
        'u',
        't',
        'i',
        'o',
        'n',
        '_',
        '1',
        '.',
        'u',
        'n',
        'v',
        'e',
        'r',
        'i',
        'f',
        'i',
        'e',
        'd',
    ]);
    assert(".signature"@ =~= seq!['.', 's', 'i', 'g', 'n', 'a', 't', 'u', 'r', 'e']);
    lemma_dec_digits_plain(round_height as nat);
    lemma_plain_concat("round_"@, dec_digits(round_height as nat));
    lemma_plain_concat(
        "round_"@ + dec_digits(round_height as nat),
        "/chunk_0/contribution_1.unverified"@,
    );
    lemma_plain_concat(contribution_key_spec(round_height), ".signature"@);
}

/// Decides a fetched contribution/signature pair. Succeeds exactly when
/// both bodies are non-empty, and then returns both unchanged: no partial
/// pair and no zero-length body is ever surfaced as success. An empty
/// contribution fails first, then an empty signature.
pub fn validate_contribution(contribution: Vec<u8>, signature: Vec<u8>) -> (r: Result<
    (Vec<u8>, Vec<u8>),
    S3Error,
>)
    ensures
        r is Ok <==> (contribution@.len() > 0 && signature@.len() > 0),
        r matches Ok(p) ==> p.0@ == contribution@ && p.1@ == signature@,
        r matches Err(e) ==> (e is EmptyContribution <==> contribution@.len() == 0),
        r matches Err(e) ==> (e is EmptyContributionSignature <==> (contribution@.len() > 0
            && signature@.len() == 0)),
{
    if contribution.len() == 0 {
        Err(S3Error::EmptyContribution)
    } else if signature.len() == 0 {
        Err(S3Error::EmptyContributionSignature)
    } else {
        Ok((contribution, signature))
    }
}

/// What one fetch of an object from the store came to: its full body, the
/// object's absence, or a failed transport.
pub enum FetchOutcome {
    /// The object was streamed to completion; its body, possibly empty.
    Fetched(Vec<u8>),
    /// The object does not exist in the store.
    Missing,
    /// The fetch failed in transport; carries the underlying message.
    Failed(String),
}

/// The object was fetched and its body holds at least one byte.
pub open spec fn outcome_nonempty(o: FetchOutcome) -> bool {
    match o {
        FetchOutcome::Fetched(b) => b@.len() > 0,
        _ => false,
    }
}

/// The object was fetched and its body is empty.
pub open spec fn outcome_empty(o: FetchOutcome) -> bool {
    match o {
        FetchOutcome::Fetched(b) => b@.len() == 0,
        _ => false,
    }
}

/// Decides the paired contribution/signature fetch from the two per-object
/// outcomes, fail-fast: the contribution's outcome is judged first (a
/// transport failure or a missing object is `DownloadFailed`, an empty body
/// `EmptyContribution`), then the signature's, where a missing object and
/// an empty body both fail as `EmptyContributionSignature`. Only two
/// non-empty bodies succeed, and then both come back unchanged: no partial
/// pair is ever surfaced as success.
pub fn resolve_contribution_pair(contribution: FetchOutcome, signature: FetchOutcome) -> (r: Result<
    (Vec<u8>, Vec<u8>),
    S3Error,
>)
    ensures
        r is Ok <==> (outcome_nonempty(contribution) && outcome_nonempty(signature)),
        r matches Ok(p) ==> (contribution matches FetchOutcome::Fetched(c) && p.0@ == c@) && (
        signature matches FetchOutcome::Fetched(s) && p.1@ == s@),
        r matches Err(e) ==> (e is DownloadFailed <==> (!(contribution is Fetched) || (
        outcome_nonempty(contribution) && signature is Failed))),
        r matches Err(e) ==> (e is EmptyContribution <==> outcome_empty(contribution)),
        r matches Err(e) ==> (e is EmptyContributionSignature <==> (outcome_nonempty(contribution)
            && (signature is Missing || outcome_empty(signature)))),
{
    let c = match contribution {
        FetchOutcome::Failed(m) => {
            return Err(S3Error::DownloadFailed(m));
        },
        FetchOutcome::Missing => {
            return Err(S3Error::DownloadFailed(String::from_str("contribution object missing")));
        },
        FetchOutcome::Fetched(c) => c,
    };
    if c.len() == 0 {
        return Err(S3Error::EmptyContribution);
    }
    let s = match signature {
        FetchOutcome::Failed(m) => {
            return Err(S3Error::DownloadFailed(m));
        },
        FetchOutcome::Missing => {
            return Err(S3Error::EmptyContributionSignature);
        },
        FetchOutcome::Fetched(s) => s,
    };
    validate_contribution(c, s)
}

} // verus!
