//! Objects kept in an S3 (or R2) bucket.
use crate::storage::StorageError;
use ::s3::bucket::Bucket;
use ::s3::creds::error::CredentialsError;
use ::s3::creds::Credentials;
use ::s3::error::S3Error;
use ::s3::region::Region;
use vstd::prelude::*;

verus! {

#[verifier::external_type_specification]
#[verifier::external_body]
pub struct ExBucket(Bucket);

#[verifier::external_type_specification]
#[verifier::external_body]
pub struct ExRegion(Region);

#[verifier::external_type_specification]
#[verifier::external_body]
pub struct ExCredentials(Credentials);

#[verifier::external_type_specification]
#[verifier::external_body]
pub struct ExCredentialsError(CredentialsError);

#[verifier::external_type_specification]
#[verifier::external_body]
pub struct ExS3Error(S3Error);

/// Where a bucket lives.
pub enum S3Region {
    /// Cloudflare R2, under the given account.
    R2 { account_id: String },
    /// Any other S3 service, by region name and endpoint.
    Custom { region: String, endpoint: String },
}

/// The text of an optional string.
pub open spec fn text_of(o: Option<String>) -> Option<Seq<char>> {
    match o {
        Some(t) => Some(t@),
        None => None,
    }
}

/// The four secrets a client signs with: access key, secret key, security
/// token and session token, each where it is set.
pub type KeyTexts = (Option<Seq<char>>, Option<Seq<char>>, Option<Seq<char>>, Option<Seq<char>>);

/// Client credentials, with copies of the keys and tokens they hold.
pub struct Keys {
    credentials: Credentials,
    access: Option<String>,
    secret: Option<String>,
    security: Option<String>,
    session: Option<String>,
}

impl Keys {
    /// The keys and tokens the credentials hold.
    pub closed spec fn keys(&self) -> KeyTexts {
        (text_of(self.access), text_of(self.secret), text_of(self.security), text_of(self.session))
    }
}

/// Calls `Credentials::new(Some(access), Some(secret), None, None, None)`
/// and copies the keys and tokens of the result beside it.  With an access
/// key given, the crate's source stores the two keys as they are, no
/// security or session token, and never fails, which the contract states.
#[verifier::external_body]
fn make_credentials(access: &str, secret: &str) -> (res: Result<Keys, CredentialsError>)
    ensures
        res is Ok,
        res matches Ok(k) ==> k.keys() == (Some(access@), Some(secret@), None::<Seq<char>>, None::<
            Seq<char>,
        >),
{
    match Credentials::new(Some(access), Some(secret), None, None, None) {
        Ok(c) => Ok(Keys {
            access: c.access_key.clone(),
            secret: c.secret_key.clone(),
            security: c.security_token.clone(),
            session: c.session_token.clone(),
            credentials: c,
        }),
        Err(e) => Err(e),
    }
}

/// Builds the `s3::region::Region` value with the same variant and fields.
#[verifier::external_body]
fn to_region(r: &S3Region) -> Region {
    match r {
        S3Region::R2 { account_id } => Region::R2 { account_id: account_id.clone() },
        S3Region::Custom { region, endpoint } => Region::Custom { region: region.clone(), endpoint: endpoint.clone() },
    }
}

/// A bucket client, with copies of the name, region and keys it was made
/// with.
pub struct Client {
    bucket: Bucket,
    name: String,
    region: S3Region,
    access: Option<String>,
    secret: Option<String>,
    security: Option<String>,
    session: Option<String>,
}

impl Client {
    /// The bucket client.
    pub closed spec fn bucket(&self) -> Bucket {
        self.bucket
    }

    /// The bucket's name.
    pub closed spec fn name(&self) -> Seq<char> {
        self.name@
    }

    /// Where the bucket lives.
    pub closed spec fn region(&self) -> (bool, Seq<char>, Seq<char>) {
        self.region.shape()
    }

    /// The keys and tokens the client signs with.
    pub closed spec fn keys(&self) -> KeyTexts {
        (text_of(self.access), text_of(self.secret), text_of(self.security), text_of(self.session))
    }
}

/// Calls `Bucket::new(name, region, credentials)` with the region built from
/// `region` and the credentials of `keys`, and keeps copies of the name,
/// region and keys beside the bucket.  The crate's source stores exactly
/// these arguments in the bucket and never fails, which the contract states.
#[verifier::external_body]
fn new_bucket(name: &str, region: S3Region, keys: Keys) -> (res: Result<Client, S3Error>)
    ensures
        res is Ok,
        res matches Ok(c) ==> c.name() == name@ && c.region() == region.shape() && c.keys()
            == keys.keys(),
{
    let Keys { credentials, access, secret, security, session } = keys;
    match Bucket::new(name, to_region(&region), credentials) {
        Ok(bucket) => Ok(Client { bucket, name: name.to_string(), region, access, secret, security, session }),
        Err(e) => Err(e),
    }
}

/// The region a configuration names: region `"r2"` means Cloudflare R2 with
/// `url` as the account; any other region is a custom endpoint at `url`.
pub open spec fn region_of(region: Seq<char>, url: Seq<char>) -> (bool, Seq<char>, Seq<char>) {
    if region == "r2"@ {
        (true, url, url)
    } else {
        (false, region, url)
    }
}

impl S3Region {
    /// The region as (is R2, region name or account, endpoint or account).
    pub open spec fn shape(&self) -> (bool, Seq<char>, Seq<char>) {
        match self {
            S3Region::R2 { account_id } => (true, account_id@, account_id@),
            S3Region::Custom { region, endpoint } => (false, region@, endpoint@),
        }
    }

    /// The region that the configuration (`region`, `url`) names.
    pub fn from_config(region: String, url: String) -> (res: S3Region)
        ensures
            res.shape() == region_of(region@, url@),
    {
        let r2 = String::from_str("r2");
        if region == r2 {
            S3Region::R2 { account_id: url }
        } else {
            S3Region::Custom { region, endpoint: url }
        }
    }
}

/// A bucket of an S3 service.
pub struct S3 {
    client: Client,
}

impl S3 {
    /// The client of the bucket that `new` made.
    pub closed spec fn client(&self) -> Bucket {
        self.client.bucket()
    }

    /// The bucket's name, as the client holds it.
    pub closed spec fn name(&self) -> Seq<char> {
        self.client.name()
    }

    /// Where the bucket lives, as the client holds it.
    pub closed spec fn region(&self) -> (bool, Seq<char>, Seq<char>) {
        self.client.region()
    }

    /// The keys and tokens the client signs with.
    pub closed spec fn keys(&self) -> KeyTexts {
        self.client.keys()
    }

    /// Connects to the bucket `bucket` in the region that `region` and `url`
    /// name (`"r2"`: Cloudflare R2 with `url` as the account; any other: a
    /// custom region with `url` as the endpoint), with the given access and
    /// secret keys and no security or session token.
    pub fn new(bucket: String, region: String, url: String, access: String, secret: String) -> (res:
        Result<S3, StorageError>)
        ensures
            res matches Ok(s) && s.name() == bucket@ && s.region() == region_of(region@, url@)
                && s.keys() == (Some(access@), Some(secret@), None::<Seq<char>>, None::<Seq<char>>),
    {
        let place = S3Region::from_config(region, url);
        let keys = match make_credentials(access.as_str(), secret.as_str()) {
            Ok(k) => k,
            Err(_) => {
                return Err(
                    StorageError::S3Error(String::from_str("Error while creating credentials")),
                );
            },
        };
        let client = match new_bucket(bucket.as_str(), place, keys) {
            Ok(c) => c,
            Err(_) => {
                return Err(
                    StorageError::S3Error(String::from_str("Error while creating Bucket instance")),
                );
            },
        };
        Ok(S3 { client })
    }

    /// The bucket, for reading and writing objects.
    pub fn bucket(&self) -> (res: &Bucket)
        ensures
            *res == self.client(),
    {
        &self.client.bucket
    }
}

} // verus!
