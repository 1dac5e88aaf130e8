//! What is fixed when the process starts: where objects are stored, and
//! whether one image is uploaded or a directory is watched.

use vstd::prelude::*;
use vstd::string::StringExecFns;

verus! {

/// Quiet time, in milliseconds, after which a change in the watched
/// directory counts as finished.
pub const DEBOUNCE_MILLIS: u64 = 500;

/// Where objects are stored and where they are served from. The values are
/// given once, when the process starts, and cannot be changed afterwards.
#[derive(Clone, Debug, PartialEq, Eq)]
pub struct StorageConfig {
    bucket: String,
    region: String,
    endpoint: String,
    access_key: String,
    secret_key: String,
    base_url: String,
}

/// A `StorageConfig` with its texts as sequences of characters.
pub struct StorageConfigView {
    pub bucket: Seq<char>,
    pub region: Seq<char>,
    pub endpoint: Seq<char>,
    pub access_key: Seq<char>,
    pub secret_key: Seq<char>,
    pub base_url: Seq<char>,
}

impl View for StorageConfig {
    type V = StorageConfigView;

    closed spec fn view(&self) -> StorageConfigView {
        StorageConfigView {
            bucket: self.bucket@,
            region: self.region@,
            endpoint: self.endpoint@,
            access_key: self.access_key@,
            secret_key: self.secret_key@,
            base_url: self.base_url@,
        }
    }
}

impl StorageConfig {
    /// The configuration made of the given values.
    pub fn new(
        bucket: String,
        region: String,
        endpoint: String,
        access_key: String,
        secret_key: String,
        base_url: String,
    ) -> (config: StorageConfig)
        ensures
            config@ == (StorageConfigView {
                bucket: bucket@,
                region: region@,
                endpoint: endpoint@,
                access_key: access_key@,
                secret_key: secret_key@,
                base_url: base_url@,
            }),
    {
        StorageConfig { bucket, region, endpoint, access_key, secret_key, base_url }
    }

    /// The name of the bucket.
    pub fn bucket(&self) -> (text: &str)
        ensures
            text@ == self@.bucket,
    {
        self.bucket.as_str()
    }

    /// The region of the storage service.
    pub fn region(&self) -> (text: &str)
        ensures
            text@ == self@.region,
    {
        self.region.as_str()
    }

    /// The address of the storage service.
    pub fn endpoint(&self) -> (text: &str)
        ensures
            text@ == self@.endpoint,
    {
        self.endpoint.as_str()
    }

    /// The access key of the credentials.
    pub fn access_key(&self) -> (text: &str)
        ensures
            text@ == self@.access_key,
    {
        self.access_key.as_str()
    }

    /// The secret key of the credentials.
    pub fn secret_key(&self) -> (text: &str)
        ensures
            text@ == self@.secret_key,
    {
        self.secret_key.as_str()
    }

    /// The address under which stored objects are served.
    pub fn base_url(&self) -> (text: &str)
        ensures
            text@ == self@.base_url,
    {
        self.base_url.as_str()
    }
}

/// What happened to a file in the watched directory.
#[derive(Clone, Copy, Debug, PartialEq, Eq, Structural)]
pub enum WatchKind {
    Created,
    Written,
}

/// How the process runs.
#[derive(Clone, Debug, PartialEq, Eq)]
pub enum Mode {
    /// Upload what standard input holds, as a file of the given extension.
    OneShot { extension: String },
    /// Upload each file of `directory` that `trigger` happens to.
    Watch { directory: String, trigger: WatchKind, delete_after_upload: bool },
}

/// A `Mode` with its texts as sequences of characters.
pub enum ModeView {
    OneShot { extension: Seq<char> },
    Watch { directory: Seq<char>, trigger: WatchKind, delete_after_upload: bool },
}

impl View for Mode {
    type V = ModeView;

    open spec fn view(&self) -> ModeView {
        match self {
            Mode::OneShot { extension } => ModeView::OneShot { extension: extension@ },
            Mode::Watch { directory, trigger, delete_after_upload } => ModeView::Watch {
                directory: directory@,
                trigger: *trigger,
                delete_after_upload: *delete_after_upload,
            },
        }
    }
}

/// The mode that the command line asks for: a directory to watch selects
/// watching, for files that have been written; without one, a single image
/// is read from standard input and taken to be a PNG, and the request to
/// delete files means nothing.
pub open spec fn mode_of_flags(watch: Option<Seq<char>>, delete_after_upload: bool) -> ModeView {
    match watch {
        Some(directory) => ModeView::Watch {
            directory,
            trigger: WatchKind::Written,
            delete_after_upload,
        },
        None => ModeView::OneShot { extension: "png"@ },
    }
}

impl Mode {
    /// The mode that the command line asks for.
    pub fn from_flags(watch: Option<String>, delete_after_upload: bool) -> (mode: Mode)
        ensures
            mode@ == mode_of_flags(watch.deep_view(), delete_after_upload),
    {
        match watch {
            Some(directory) => Mode::Watch {
                directory,
                trigger: WatchKind::Written,
                delete_after_upload,
            },
            None => Mode::OneShot { extension: String::from_str("png") },
        }
    }

    /// Whether a directory is watched.
    pub fn is_watch(&self) -> (watching: bool)
        ensures
            watching == (self@ is Watch),
    {
        match self {
            Mode::Watch { .. } => true,
            Mode::OneShot { .. } => false,
        }
    }
}

} // verus!
