//! Startup decisions: which writer runs, which warnings are due, and the
//! validation of object-storage settings and credentials.
//!
//! Every missing setting is a fatal initialization error, reported as the
//! precise field that is absent; the unverified shell turns such an error
//! into a non-zero exit before the sync loop starts.

use vstd::prelude::*;

use crate::plan::copy_bytes;
use crate::podping::Timestamp;
use crate::status::HeadBucketError;

verus! {

/// The configured persistent writer kind.
#[derive(Debug, Clone, Copy, PartialEq, Eq, Structural)]
pub enum WriterType {
    Disk,
    ObjectStorage,
}

/// How object-storage URLs address the bucket.
#[derive(Debug, Clone, Copy, PartialEq, Eq, Structural)]
pub enum UrlStyle {
    Path,
    VirtualHost,
}

/// The scanner's configured resume hints and mode.
pub struct ScannerSettings {
    pub start_block: Option<u64>,
    pub start_datetime: Option<Timestamp>,
    pub batch_mode: bool,
}

/// The writer's configuration as loaded, before validation.
pub struct WriterSettings {
    pub enabled: bool,
    pub type_: Option<WriterType>,
    pub disable_persistence_warnings: bool,
    pub disk_path: Option<Vec<u8>>,
    pub object_storage_base_url: Option<Vec<u8>>,
    pub object_storage_bucket_name: Option<Vec<u8>>,
    pub object_storage_region: Option<Vec<u8>>,
    pub object_storage_url_style: Option<UrlStyle>,
}

/// A fatal initialization failure. The process exits non-zero on any of
/// these before the sync loop starts.
#[derive(Debug, Clone, Copy, PartialEq, Eq, Structural)]
pub enum InitError {
    WriterTypeNotSet,
    MissingBaseUrl,
    MissingAccessKey,
    MissingSecretKey,
    MissingBucketName,
    MissingRegion,
    MissingUrlStyle,
    MissingDiskPath,
    BucketProbe(HeadBucketError),
}

/// Which writer the run uses.
#[derive(Debug, Clone, Copy, PartialEq, Eq, Structural)]
pub enum WriterChoice {
    Console,
    Disk,
    ObjectStorage,
}

/// Selects the writer: persistence off means console; on, the configured
/// kind — which must then be set.
pub fn choose_writer(enabled: bool, type_: Option<WriterType>) -> (r: Result<
    WriterChoice,
    InitError,
>)
    ensures
        !enabled ==> r == Result::<WriterChoice, InitError>::Ok(WriterChoice::Console),
        enabled && type_ == Some(WriterType::Disk) ==> r == Result::<WriterChoice, InitError>::Ok(
            WriterChoice::Disk,
        ),
        enabled && type_ == Some(WriterType::ObjectStorage) ==> r == Result::<
            WriterChoice,
            InitError,
        >::Ok(WriterChoice::ObjectStorage),
        enabled && type_ is None ==> r == Result::<WriterChoice, InitError>::Err(
            InitError::WriterTypeNotSet,
        ),
{
    if !enabled {
        Ok(WriterChoice::Console)
    } else {
        match type_ {
            Some(WriterType::Disk) => Ok(WriterChoice::Disk),
            Some(WriterType::ObjectStorage) => Ok(WriterChoice::ObjectStorage),
            None => Err(InitError::WriterTypeNotSet),
        }
    }
}

/// The startup warnings when persistence is off: one that the persistent
/// writer is disabled, and one more when a start hint is set — without
/// persistence the scan restarts at the hint every time.
pub fn persistence_warnings(
    enabled: bool,
    disable_persistence_warnings: bool,
    start_block: Option<u64>,
    start_datetime: Option<Timestamp>,
) -> (r: (bool, bool))
    ensures
        r.0 == (!enabled && !disable_persistence_warnings),
        r.1 == (!enabled && !disable_persistence_warnings && (start_block is Some
            || start_datetime is Some)),
{
    let warn_disabled = !enabled && !disable_persistence_warnings;
    let warn_hints = warn_disabled && (start_block.is_some() || start_datetime.is_some());
    (warn_disabled, warn_hints)
}

/// Validated object-storage configuration: everything the shell needs to
/// build the bucket handle and sign requests.
pub struct ObjectStorageConfig {
    pub base_url: Vec<u8>,
    pub access_key: Vec<u8>,
    pub secret_key: Vec<u8>,
    pub bucket_name: Vec<u8>,
    pub region: Vec<u8>,
    pub url_style: UrlStyle,
}

/// Validates the object-storage settings and the credentials read from the
/// environment, reporting the first missing piece in the order the writer
/// checks them: base URL, access key, secret key, bucket name, region, URL
/// style.
pub fn validate_object_storage(
    ws: &WriterSettings,
    access_key: Option<Vec<u8>>,
    secret_key: Option<Vec<u8>>,
) -> (r: Result<ObjectStorageConfig, InitError>)
    ensures
        ws.object_storage_base_url is None ==> r == Result::<
            ObjectStorageConfig,
            InitError,
        >::Err(InitError::MissingBaseUrl),
        ws.object_storage_base_url is Some && access_key is None ==> r == Result::<
            ObjectStorageConfig,
            InitError,
        >::Err(InitError::MissingAccessKey),
        ws.object_storage_base_url is Some && access_key is Some && secret_key is None ==> r
            == Result::<ObjectStorageConfig, InitError>::Err(InitError::MissingSecretKey),
        ws.object_storage_base_url is Some && access_key is Some && secret_key is Some
            && ws.object_storage_bucket_name is None ==> r == Result::<
            ObjectStorageConfig,
            InitError,
        >::Err(InitError::MissingBucketName),
        ws.object_storage_base_url is Some && access_key is Some && secret_key is Some
            && ws.object_storage_bucket_name is Some && ws.object_storage_region is None ==> r
            == Result::<ObjectStorageConfig, InitError>::Err(InitError::MissingRegion),
        ws.object_storage_base_url is Some && access_key is Some && secret_key is Some
            && ws.object_storage_bucket_name is Some && ws.object_storage_region is Some
            && ws.object_storage_url_style is None ==> r == Result::<
            ObjectStorageConfig,
            InitError,
        >::Err(InitError::MissingUrlStyle),
        r is Ok ==> {
            &&& ws.object_storage_base_url is Some
            &&& access_key is Some
            &&& secret_key is Some
            &&& ws.object_storage_bucket_name is Some
            &&& ws.object_storage_region is Some
            &&& ws.object_storage_url_style is Some
            &&& r->Ok_0.base_url@ == ws.object_storage_base_url->0@
            &&& r->Ok_0.access_key@ == access_key->0@
            &&& r->Ok_0.secret_key@ == secret_key->0@
            &&& r->Ok_0.bucket_name@ == ws.object_storage_bucket_name->0@
            &&& r->Ok_0.region@ == ws.object_storage_region->0@
            &&& r->Ok_0.url_style == ws.object_storage_url_style->0
        },
        (ws.object_storage_base_url is Some && access_key is Some && secret_key is Some
            && ws.object_storage_bucket_name is Some && ws.object_storage_region is Some
            && ws.object_storage_url_style is Some) ==> r is Ok,
{
    let base_url = match &ws.object_storage_base_url {
        Some(u) => copy_bytes(u),
        None => {
            return Err(InitError::MissingBaseUrl);
        },
    };
    let access_key = match access_key {
        Some(k) => k,
        None => {
            return Err(InitError::MissingAccessKey);
        },
    };
    let secret_key = match secret_key {
        Some(k) => k,
        None => {
            return Err(InitError::MissingSecretKey);
        },
    };
    let bucket_name = match &ws.object_storage_bucket_name {
        Some(b) => copy_bytes(b),
        None => {
            return Err(InitError::MissingBucketName);
        },
    };
    let region = match &ws.object_storage_region {
        Some(x) => copy_bytes(x),
        None => {
            return Err(InitError::MissingRegion);
        },
    };
    let url_style = match ws.object_storage_url_style {
        Some(s) => s,
        None => {
            return Err(InitError::MissingUrlStyle);
        },
    };
    Ok(ObjectStorageConfig { base_url, access_key, secret_key, bucket_name, region, url_style })
}

/// Validates the disk writer's root directory setting.
pub fn validate_disk(ws: &WriterSettings) -> (r: Result<Vec<u8>, InitError>)
    ensures
        ws.disk_path is None ==> r == Result::<Vec<u8>, InitError>::Err(InitError::MissingDiskPath),
        ws.disk_path is Some ==> r is Ok && r->Ok_0@ == ws.disk_path->0@,
{
    match &ws.disk_path {
        Some(p) => Ok(copy_bytes(p)),
        None => Err(InitError::MissingDiskPath),
    }
}

/// Folds the startup bucket probe into initialization: any probe failure —
/// including a forbidden bucket — is fatal.
pub fn init_probe(head: Result<(), HeadBucketError>) -> (r: Result<(), InitError>)
    ensures
        head is Ok <==> r is Ok,
        head is Err ==> r == Result::<(), InitError>::Err(InitError::BucketProbe(head->Err_0)),
{
    match head {
        Ok(()) => Ok(()),
        Err(e) => Err(InitError::BucketProbe(e)),
    }
}

} // verus!
