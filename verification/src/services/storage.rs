//! Object storage: where in the bucket an object lies, and how the service
//! is set up from its environment.

use crate::services::text::{
    absent,
    chars_of,
    find_first,
    first_occurrence,
    run_from,
    trim_end,
    trim_start,
    trimmed_len,
};
use vstd::prelude::*;
use vstd::string::{StrSliceExecFns, StringExecFns};

verus! {

/// Why a URL names no object of the bucket.
#[derive(Clone, Copy, Debug, PartialEq, Eq, Structural)]
pub enum KeyError {
    /// The name of the bucket does not stand in the URL.
    BucketMissing,
    /// Nothing but slashes follows the name of the bucket.
    EmptyKey,
}

impl KeyError {
    /// The message of the error for the URL `url`.
    pub open spec fn message_text(self, url: Seq<char>) -> Seq<char> {
        match self {
            KeyError::BucketMissing => "url does not contain bucket name: "@ + url,
            KeyError::EmptyKey => "could not parse key from url: "@ + url,
        }
    }

    /// The message of the error for the URL `url`.
    pub fn message(&self, url: &str) -> (message: String)
        ensures
            message@ == self.message_text(url@),
    {
        let mut message = match self {
            KeyError::BucketMissing => String::from_str("url does not contain bucket name: "),
            KeyError::EmptyKey => String::from_str("could not parse key from url: "),
        };
        message.append(url);
        message
    }
}

/// The storage service as it is set up: the bucket, the endpoint under
/// which it is reached, the region, and the keys of the account.
#[derive(Debug, PartialEq, Eq)]
pub struct StorageService {
    pub bucket: String,
    pub endpoint: String,
    pub region: String,
    pub access_key: String,
    pub secret_key: String,
}

/// The view of a [`StorageService`].
pub struct StorageServiceView {
    pub bucket: Seq<char>,
    pub endpoint: Seq<char>,
    pub region: Seq<char>,
    pub access_key: Seq<char>,
    pub secret_key: Seq<char>,
}

impl View for StorageService {
    type V = StorageServiceView;

    open spec fn view(&self) -> StorageServiceView {
        StorageServiceView {
            bucket: self.bucket@,
            endpoint: self.endpoint@,
            region: self.region@,
            access_key: self.access_key@,
            secret_key: self.secret_key@,
        }
    }
}

/// The URL of the object `key` in `bucket` under `endpoint`: the endpoint
/// without slashes at its end, the bucket and the key, with a slash between.
pub open spec fn url_of(endpoint: Seq<char>, bucket: Seq<char>, key: Seq<char>) -> Seq<char> {
    trim_end(endpoint, '/') + seq!['/'] + bucket + seq!['/'] + key
}

/// What follows the name of the bucket at position `at` of `url`, without
/// the slashes at its start.
pub open spec fn key_after(url: Seq<char>, bucket: Seq<char>, at: int) -> Seq<char> {
    trim_start(url.skip(at + bucket.len()), '/')
}

impl StorageService {
    /// The URL under which the object `key` is reached once it is stored.
    pub fn object_url(&self, key: &str) -> (url: String)
        ensures
            url@ == url_of(self.endpoint@, self.bucket@, key@),
    {
        let endpoint = chars_of(self.endpoint.as_str());
        let kept = trimmed_len(&endpoint, '/');
        let mut url = String::from_str(self.endpoint.as_str().substring_char(0, kept));
        proof {
            reveal_strlit("/");
            assert("/"@ =~= seq!['/']);
        }
        url.append("/");
        url.append(self.bucket.as_str());
        url.append("/");
        url.append(key);
        url
    }

    /// The key of the object that `url` names: what follows the first
    /// occurrence of the name of the bucket, without the slashes at its
    /// start. It fails where the name does not occur and where no key
    /// follows it.
    pub fn key_from_url(&self, url: &str) -> (key: Result<String, KeyError>)
        ensures
            match key {
                Ok(key) => exists|at: int|
                    first_occurrence(url@, self.bucket@, at) && key@ == #[trigger] key_after(
                        url@,
                        self.bucket@,
                        at,
                    ) && key@.len() > 0,
                Err(KeyError::BucketMissing) => absent(url@, self.bucket@),
                Err(KeyError::EmptyKey) => exists|at: int|
                    first_occurrence(url@, self.bucket@, at) && (#[trigger] key_after(
                        url@,
                        self.bucket@,
                        at,
                    )).len() == 0,
            },
    {
        let hay = chars_of(url);
        let needle = chars_of(self.bucket.as_str());
        match find_first(&hay, &needle) {
            None => Err(KeyError::BucketMissing),
            Some(at) => {
                let end = hay.len();
                assert(at + needle@.len() <= end);
                let start = run_from(&hay, at + needle.len(), '/');
                assert(hay@.skip(start as int) == key_after(url@, self.bucket@, at as int));
                if start == end {
                    Err(KeyError::EmptyKey)
                } else {
                    let key = String::from_str(url.substring_char(start, end));
                    assert(key@ =~= hay@.skip(start as int));
                    Ok(key)
                }
            },
        }
    }
}

/// The first occurrence of a text in another is one position: a key that
/// `key_from_url` may return is the only one.
pub proof fn lemma_first_occurrence_is_unique(hay: Seq<char>, needle: Seq<char>, a: int, b: int)
    requires
        first_occurrence(hay, needle, a),
        first_occurrence(hay, needle, b),
    ensures
        a == b,
{
}

/// What the environment holds for the storage service; `None` where a
/// variable is not set.
#[derive(Debug, PartialEq, Eq)]
pub struct StorageEnv {
    pub s3_bucket: Option<String>,
    pub s3_endpoint: Option<String>,
    pub aws_region: Option<String>,
    pub s3_access_key: Option<String>,
    pub aws_access_key_id: Option<String>,
    pub s3_secret_key: Option<String>,
    pub aws_secret_access_key: Option<String>,
}

/// The view of a [`StorageEnv`].
pub struct StorageEnvView {
    pub s3_bucket: Option<Seq<char>>,
    pub s3_endpoint: Option<Seq<char>>,
    pub aws_region: Option<Seq<char>>,
    pub s3_access_key: Option<Seq<char>>,
    pub aws_access_key_id: Option<Seq<char>>,
    pub s3_secret_key: Option<Seq<char>>,
    pub aws_secret_access_key: Option<Seq<char>>,
}

impl View for StorageEnv {
    type V = StorageEnvView;

    open spec fn view(&self) -> StorageEnvView {
        StorageEnvView {
            s3_bucket: self.s3_bucket.deep_view(),
            s3_endpoint: self.s3_endpoint.deep_view(),
            aws_region: self.aws_region.deep_view(),
            s3_access_key: self.s3_access_key.deep_view(),
            aws_access_key_id: self.aws_access_key_id.deep_view(),
            s3_secret_key: self.s3_secret_key.deep_view(),
            aws_secret_access_key: self.aws_secret_access_key.deep_view(),
        }
    }
}

/// What the environment lacks.
#[derive(Clone, Copy, Debug, PartialEq, Eq, Structural)]
pub enum SettingsError {
    BucketMissing,
    AccessKeyMissing,
    SecretKeyMissing,
}

impl SettingsError {
    /// The message of the error.
    pub open spec fn message_text(self) -> Seq<char> {
        match self {
            SettingsError::BucketMissing => "S3_BUCKET missing"@,
            SettingsError::AccessKeyMissing => "S3_ACCESS_KEY missing"@,
            SettingsError::SecretKeyMissing => "S3_SECRET_KEY missing"@,
        }
    }

    /// The message of the error.
    pub fn message(&self) -> (message: &'static str)
        ensures
            message@ == self.message_text(),
    {
        match self {
            SettingsError::BucketMissing => "S3_BUCKET missing",
            SettingsError::AccessKeyMissing => "S3_ACCESS_KEY missing",
            SettingsError::SecretKeyMissing => "S3_SECRET_KEY missing",
        }
    }
}

/// The first of two values that is there.
pub open spec fn first_of(first: Option<Seq<char>>, second: Option<Seq<char>>) -> Option<Seq<char>> {
    match first {
        Some(value) => Some(value),
        None => second,
    }
}

/// The value that is there, else `fallback`.
pub open spec fn or_default(value: Option<Seq<char>>, fallback: Seq<char>) -> Seq<char> {
    match value {
        Some(value) => value,
        None => fallback,
    }
}

/// The service that an environment sets up: the bucket must be set; the
/// endpoint and the region have defaults; each key is taken from the
/// variable of the service, else from the variable of the provider, and
/// must be in one of them. The first of these that is missing is the error.
pub open spec fn settings_of(env: StorageEnvView) -> Result<StorageServiceView, SettingsError> {
    if env.s3_bucket is None {
        Err(SettingsError::BucketMissing)
    } else if first_of(env.s3_access_key, env.aws_access_key_id) is None {
        Err(SettingsError::AccessKeyMissing)
    } else if first_of(env.s3_secret_key, env.aws_secret_access_key) is None {
        Err(SettingsError::SecretKeyMissing)
    } else {
        Ok(
            StorageServiceView {
                bucket: env.s3_bucket->0,
                endpoint: or_default(env.s3_endpoint, "http://localhost:9000"@),
                region: or_default(env.aws_region, "us-east-1"@),
                access_key: first_of(env.s3_access_key, env.aws_access_key_id)->0,
                secret_key: first_of(env.s3_secret_key, env.aws_secret_access_key)->0,
            },
        )
    }
}

/// The result of `from_env`, as a view.
pub open spec fn settings_view(settings: Result<StorageService, SettingsError>) -> Result<
    StorageServiceView,
    SettingsError,
> {
    match settings {
        Ok(settings) => Ok(settings@),
        Err(error) => Err(error),
    }
}

impl StorageService {
    /// The service that the environment `env` sets up.
    pub fn from_env(env: StorageEnv) -> (settings: Result<StorageService, SettingsError>)
        ensures
            settings_view(settings) == settings_of(env@),
    {
        let bucket = match env.s3_bucket {
            Some(bucket) => bucket,
            None => {
                return Err(SettingsError::BucketMissing);
            },
        };
        let endpoint = match env.s3_endpoint {
            Some(endpoint) => endpoint,
            None => String::from_str("http://localhost:9000"),
        };
        let region = match env.aws_region {
            Some(region) => region,
            None => String::from_str("us-east-1"),
        };
        let access_key = match env.s3_access_key {
            Some(key) => key,
            None => match env.aws_access_key_id {
                Some(key) => key,
                None => {
                    return Err(SettingsError::AccessKeyMissing);
                },
            },
        };
        let secret_key = match env.s3_secret_key {
            Some(key) => key,
            None => match env.aws_secret_access_key {
                Some(key) => key,
                None => {
                    return Err(SettingsError::SecretKeyMissing);
                },
            },
        };
        Ok(StorageService { bucket, endpoint, region, access_key, secret_key })
    }
}

} // verus!
