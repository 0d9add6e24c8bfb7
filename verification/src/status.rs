//! Classification of S3 response status codes.
//!
//! The object-storage writer issues HEAD (bucket probe), GET (watermark
//! read) and PUT (podping / watermark write) requests. Each response is
//! reduced to a plain status code, or to no code at all when the transport
//! failed, and classified here.

use vstd::prelude::*;

verus! {

/// Outcome of probing the bucket with a HEAD request at writer startup.
/// Any error here is fatal to initialization.
#[derive(Debug, Clone, Copy, PartialEq, Eq, Structural)]
pub enum HeadBucketError {
    NotFound,
    AccessDenied,
    BadRequest,
    UnknownError,
}

/// Outcome of fetching an object (the watermark) from the bucket.
#[derive(Debug, Clone, Copy, PartialEq, Eq, Structural)]
pub enum GetObjectError {
    NotFound,
    AccessDenied,
    BadRequest,
    UnknownError,
}

/// Outcome of writing an object (a podping or the watermark) to the bucket.
#[derive(Debug, Clone, Copy, PartialEq, Eq, Structural)]
pub enum PutObjectError {
    NotFound,
    AccessDenied,
    BadRequest,
    UnknownError,
}

/// Classifies a bucket HEAD response. `status` is `None` when the request
/// never produced a response (transport failure).
pub fn classify_head_bucket(status: Option<u16>) -> (r: Result<(), HeadBucketError>)
    ensures
        r is Ok <==> status == Some(200u16),
        status == Some(404u16) ==> r == Result::<(), HeadBucketError>::Err(HeadBucketError::NotFound),
        status == Some(403u16) ==> r == Result::<(), HeadBucketError>::Err(HeadBucketError::AccessDenied),
        status == Some(400u16) ==> r == Result::<(), HeadBucketError>::Err(HeadBucketError::BadRequest),
        (status is None || (status != Some(200u16) && status != Some(404u16)
            && status != Some(403u16) && status != Some(400u16)))
            ==> r == Result::<(), HeadBucketError>::Err(HeadBucketError::UnknownError),
{
    match status {
        Some(200u16) => Ok(()),
        Some(404u16) => Err(HeadBucketError::NotFound),
        Some(403u16) => Err(HeadBucketError::AccessDenied),
        Some(400u16) => Err(HeadBucketError::BadRequest),
        _ => Err(HeadBucketError::UnknownError),
    }
}

/// Classifies an object GET response. `status` is `None` when the request
/// never produced a response (transport failure).
pub fn classify_get_object(status: Option<u16>) -> (r: Result<(), GetObjectError>)
    ensures
        r is Ok <==> status == Some(200u16),
        status == Some(404u16) ==> r == Result::<(), GetObjectError>::Err(GetObjectError::NotFound),
        status == Some(403u16) ==> r == Result::<(), GetObjectError>::Err(GetObjectError::AccessDenied),
        status == Some(400u16) ==> r == Result::<(), GetObjectError>::Err(GetObjectError::BadRequest),
        (status is None || (status != Some(200u16) && status != Some(404u16)
            && status != Some(403u16) && status != Some(400u16)))
            ==> r == Result::<(), GetObjectError>::Err(GetObjectError::UnknownError),
{
    match status {
        Some(200u16) => Ok(()),
        Some(404u16) => Err(GetObjectError::NotFound),
        Some(403u16) => Err(GetObjectError::AccessDenied),
        Some(400u16) => Err(GetObjectError::BadRequest),
        _ => Err(GetObjectError::UnknownError),
    }
}

/// Classifies an object PUT response. `status` is `None` when the request
/// never produced a response (transport failure).
pub fn classify_put_object(status: Option<u16>) -> (r: Result<(), PutObjectError>)
    ensures
        r is Ok <==> status == Some(200u16),
        status == Some(404u16) ==> r == Result::<(), PutObjectError>::Err(PutObjectError::NotFound),
        status == Some(403u16) ==> r == Result::<(), PutObjectError>::Err(PutObjectError::AccessDenied),
        status == Some(400u16) ==> r == Result::<(), PutObjectError>::Err(PutObjectError::BadRequest),
        (status is None || (status != Some(200u16) && status != Some(404u16)
            && status != Some(403u16) && status != Some(400u16)))
            ==> r == Result::<(), PutObjectError>::Err(PutObjectError::UnknownError),
{
    match status {
        Some(200u16) => Ok(()),
        Some(404u16) => Err(PutObjectError::NotFound),
        Some(403u16) => Err(PutObjectError::AccessDenied),
        Some(400u16) => Err(PutObjectError::BadRequest),
        _ => Err(PutObjectError::UnknownError),
    }
}

} // verus!
