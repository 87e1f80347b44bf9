//! The upload operation.
//!
//! Uploading validates that the local file exists, derives the storage key
//! from the path's string form (verbatim, separators included), infers the
//! content type from the extension, and only then streams the file's bytes
//! to the remote store as a single put request. The validation and the
//! request assembly are verified here; the surrounding application tests
//! the path against the filesystem, reads the bytes, and performs the
//! network call described by the assembled request.

use vstd::prelude::*;
use vstd::string::*;
use crate::content_type::{content_type_for, content_type_spec};
use crate::errors::StorageError;
use crate::store::{store_put, FakeStore};

verus! {

/// Everything a put request needs besides the body: the bucket, the
/// storage key, and the content type to send.
pub struct UploadRequest {
    pub bucket: String,
    pub key: String,
    pub content_type: String,
}

/// Assembles the put request for a local file, or refuses it before any
/// network work: a path that does not exist on the local filesystem is
/// rejected with a not-found error naming the path. The storage key is
/// the path's string form, unsanitized; the content type is inferred from
/// the extension.
pub fn plan_upload(bucket: &str, path: &str, path_exists: bool) -> (r: Result<
    UploadRequest,
    StorageError,
>)
    ensures
        path_exists ==> (r matches Ok(u) && u.bucket@ == bucket@ && u.key@ == path@
            && u.content_type@ == content_type_spec(path@)),
        !path_exists ==> (r matches Err(e) && e matches StorageError::NotFoundError(p) && p@
            == path@),
{
    if !path_exists {
        return Err(StorageError::NotFoundError(String::from_str(path)));
    }
    let content_type = content_type_for(path);
    Ok(UploadRequest {
        bucket: String::from_str(bucket),
        key: String::from_str(path),
        content_type,
    })
}

/// The whole upload operation against the model store: validates the
/// path, then puts the file's bytes under the path-as-key with the
/// inferred content type. A missing path fails with a not-found error and
/// leaves the store untouched — in particular, its call count does not
/// move: no service call is attempted.
pub fn upload_file(store: &mut FakeStore, bucket: &str, path: &str, path_exists: bool, content: Vec<
    u8,
>) -> (r: Result<(), StorageError>)
    requires
        old(store).wf(),
        old(store).calls < u64::MAX,
    ensures
        !path_exists ==> (r matches Err(e) && e matches StorageError::NotFoundError(p) && p@
            == path@) && *final(store) == *old(store),
        path_exists ==> r is Ok && final(store).contents() == store_put(
            old(store).contents(),
            path@,
            content_type_spec(path@),
            content@,
        ) && final(store).calls == old(store).calls + 1,
        final(store).wf(),
{
    let request = match plan_upload(bucket, path, path_exists) {
        Ok(u) => u,
        Err(e) => {
            return Err(e);
        },
    };
    store.put(request.key, request.content_type, content);
    Ok(())
}

} // verus!
