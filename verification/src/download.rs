//! The download operation.
//!
//! Downloading validates that the destination is a directory, joins the
//! destination with the storage key — every segment of the key becomes a
//! local path component — derives the parent directory whose missing
//! levels must be created, and only then fetches the object and streams
//! its body into the local file. The validation and the path computations
//! are verified here; the surrounding application tests the destination
//! against the filesystem, creates the directories, performs the network
//! call, and writes the chunks.

use vstd::prelude::*;
use vstd::string::*;
use crate::content_type::content_type_spec;
use crate::errors::StorageError;
use crate::paths::{join_path, join_spec, lemma_join_has_parent, parent_of, parent_spec};
use crate::store::{lemma_store_put_lookup_same, store_lookup, store_put, FakeStore, ObjectView};

verus! {

/// The local side of a download: the file to write and the directory
/// (with all its missing levels) to create first.
pub struct DownloadPlan {
    pub file_path: String,
    pub parent_dir: String,
}

/// Computes where a downloaded object lands, or refuses the download
/// before any network or filesystem work: a destination that is not an
/// existing directory is rejected with an invalid-argument error naming
/// it. The file path is the destination joined with the key; the parent
/// directory is everything before the last separator. A joined path
/// without any separator has no parent to create the file under, and
/// fails as a local filesystem error; a non-empty destination never runs
/// into that.
pub fn plan_download(key: &str, dir: &str, dir_is_dir: bool) -> (r: Result<
    DownloadPlan,
    StorageError,
>)
    ensures
        !dir_is_dir ==> (r matches Err(e) && e matches StorageError::InvalidArgument(d) && d@
            == dir@),
        dir_is_dir ==> match parent_spec(join_spec(dir@, key@)) {
            Some(par) => r matches Ok(p) && p.file_path@ == join_spec(dir@, key@)
                && p.parent_dir@ == par,
            None => r matches Err(e) && e matches StorageError::IOError(d) && d@ == join_spec(
                dir@,
                key@,
            ),
        },
        dir_is_dir && dir@.len() > 0 ==> r is Ok,
{
    if !dir_is_dir {
        return Err(StorageError::InvalidArgument(String::from_str(dir)));
    }
    let file_path = join_path(dir, key);
    proof {
        if dir@.len() > 0 {
            lemma_join_has_parent(dir@, key@);
        }
    }
    match parent_of(file_path.as_str()) {
        Some(parent_dir) => Ok(DownloadPlan { file_path, parent_dir }),
        None => Err(StorageError::IOError(file_path)),
    }
}

/// A downloaded object on the local side: where it was written and the
/// bytes that were written.
pub struct Downloaded {
    pub file_path: String,
    pub data: Vec<u8>,
}

/// The whole download operation against the model store: validates the
/// destination, computes the paths, then fetches the object and hands
/// back its bytes together with the file path they belong at. A
/// destination that is not a directory fails with an invalid-argument
/// error, and a joined path without a parent fails as a local filesystem
/// error, both leaving the store untouched — the call count does not
/// move: no service call is attempted. A key the store does not hold
/// surfaces as a remote error naming the key.
pub fn download_file(store: &mut FakeStore, key: &str, dir: &str, dir_is_dir: bool) -> (r: Result<
    Downloaded,
    StorageError,
>)
    requires
        old(store).calls < u64::MAX,
    ensures
        final(store).contents() == old(store).contents(),
        !dir_is_dir ==> (r matches Err(e) && e matches StorageError::InvalidArgument(d) && d@
            == dir@) && *final(store) == *old(store),
        dir_is_dir ==> match parent_spec(join_spec(dir@, key@)) {
            None => (r matches Err(e) && e matches StorageError::IOError(d) && d@ == join_spec(
                dir@,
                key@,
            )) && *final(store) == *old(store),
            Some(par) => final(store).calls == old(store).calls + 1 && match store_lookup(
                old(store).contents(),
                key@,
            ) {
                Some(p) => r matches Ok(d) && d.file_path@ == join_spec(dir@, key@) && d.data@
                    == p.1,
                None => r matches Err(e) && e matches StorageError::RemoteError(k) && k@ == key@,
            },
        },
{
    let plan = match plan_download(key, dir, dir_is_dir) {
        Ok(p) => p,
        Err(e) => {
            return Err(e);
        },
    };
    let owned_key = String::from_str(key);
    match store.get(&owned_key) {
        Some(data) => Ok(Downloaded { file_path: plan.file_path, data }),
        None => Err(StorageError::RemoteError(owned_key)),
    }
}

/// The round trip: uploading a file stores its bytes under the
/// path-as-key with the inferred content type, and a download of that key
/// from the resulting store finds exactly those bytes and that content
/// type again — whatever the store held before. Together with the
/// contracts of the two operations and of the chunk writer, the local
/// file a download then writes is byte-identical to the uploaded source.
pub proof fn lemma_upload_download_round_trip(
    s: Seq<ObjectView>,
    path: Seq<char>,
    body: Seq<u8>,
)
    ensures
        store_lookup(store_put(s, path, content_type_spec(path), body), path) == Some(
            (content_type_spec(path), body),
        ),
{
    lemma_store_put_lookup_same(s, path, content_type_spec(path), body);
}

} // verus!
