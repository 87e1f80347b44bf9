use s3_client::chunks::{write_all_chunks, ChunkWriter};
use s3_client::config::build_credentials;
use s3_client::content_type::content_type_for;
use s3_client::download::{download_file, plan_download};
use s3_client::errors::StorageError;
use s3_client::listing::{extract_keys, ObjectMeta};
use s3_client::paths::{join_path, parent_of};
use s3_client::store::FakeStore;
use s3_client::upload::{plan_upload, upload_file};

#[test]
fn credentials_from_both_variables() {
    let r = build_credentials(Some("AKID".to_string()), Some("SECRET-REDACTED".to_string()));
    let c = r.unwrap();
    assert_eq!(c.access_key_id, "AKID");
    assert_eq!(c.secret_access_key, "SECRET-REDACTED");
}

#[test]
fn credentials_missing_access_key() {
    let r = build_credentials(None, Some("SECRET-REDACTED".to_string()));
    match r {
        Err(StorageError::ConfigError(v)) => assert_eq!(v, "AWS_ACCESS_KEY_ID"),
        _ => panic!("expected a configuration error naming the access key variable"),
    }
}

#[test]
fn credentials_missing_secret_key() {
    let r = build_credentials(Some("AKID".to_string()), None);
    match r {
        Err(StorageError::ConfigError(v)) => assert_eq!(v, "AWS_SECRET_ACCESS_KEY"),
        _ => panic!("expected a configuration error naming the secret key variable"),
    }
}

#[test]
fn listing_empty_page_gives_empty_sequence() {
    let keys = extract_keys(Vec::new());
    assert!(keys.is_empty());
}

#[test]
fn listing_keeps_service_order_and_count() {
    let objects = vec![
        ObjectMeta { key: Some("b.txt".to_string()) },
        ObjectMeta { key: Some("a.txt".to_string()) },
        ObjectMeta { key: Some("c/d.txt".to_string()) },
    ];
    let keys = extract_keys(objects);
    assert_eq!(keys, vec!["b.txt", "a.txt", "c/d.txt"]);
}

#[test]
fn listing_skips_objects_without_key() {
    let objects = vec![
        ObjectMeta { key: None },
        ObjectMeta { key: Some("kept".to_string()) },
        ObjectMeta { key: None },
    ];
    let keys = extract_keys(objects);
    assert_eq!(keys, vec!["kept"]);
}

#[test]
fn content_type_of_txt_is_text_plain() {
    assert_eq!(content_type_for("notes.txt"), "text/plain");
}

#[test]
fn content_type_of_unknown_extension_is_octet_stream() {
    assert_eq!(content_type_for("blob.zzzunknown"), "application/octet-stream");
}

#[test]
fn content_type_without_extension_is_octet_stream() {
    assert_eq!(content_type_for("Makefile"), "application/octet-stream");
}

#[test]
fn join_inserts_separator() {
    assert_eq!(join_path("dst", "a.txt"), "dst/a.txt");
}

#[test]
fn join_keeps_trailing_separator() {
    assert_eq!(join_path("./downloads/", "level1/file.txt"), "./downloads/level1/file.txt");
}

#[test]
fn join_with_empty_directory_leaves_key() {
    assert_eq!(join_path("", "a.txt"), "a.txt");
}

#[test]
fn join_with_absolute_key_replaces_directory() {
    assert_eq!(join_path("dst", "/tmp/a.txt"), "/tmp/a.txt");
}

#[test]
fn parent_of_nested_path() {
    assert_eq!(parent_of("dst/level1/sub/file.txt"), Some("dst/level1/sub".to_string()));
}

#[test]
fn parent_of_separatorless_path_is_none() {
    assert_eq!(parent_of("file.txt"), None);
}

#[test]
fn upload_plan_carries_path_as_key_and_inferred_type() {
    let r = plan_upload("demo-bucket", "src/notes.txt", true);
    let u = r.unwrap();
    assert_eq!(u.bucket, "demo-bucket");
    assert_eq!(u.key, "src/notes.txt");
    assert_eq!(u.content_type, "text/plain");
}

#[test]
fn upload_plan_rejects_missing_path() {
    let r = plan_upload("demo-bucket", "no/such/file.txt", false);
    match r {
        Err(StorageError::NotFoundError(p)) => assert_eq!(p, "no/such/file.txt"),
        _ => panic!("expected a not-found error naming the path"),
    }
}

#[test]
fn download_plan_rejects_non_directory() {
    let r = plan_download("k.txt", "not-a-dir", false);
    match r {
        Err(StorageError::InvalidArgument(d)) => assert_eq!(d, "not-a-dir"),
        _ => panic!("expected an invalid-argument error naming the destination"),
    }
}

#[test]
fn download_plan_without_parent_segment_is_a_local_error() {
    let r = plan_download("file.txt", "", true);
    match r {
        Err(StorageError::IOError(p)) => assert_eq!(p, "file.txt"),
        _ => panic!("expected a local error naming the parentless path"),
    }
}

#[test]
fn download_plan_joins_nested_key_under_destination() {
    let r = plan_download("level1/sub/file.txt", "dst", true);
    let p = r.unwrap();
    assert_eq!(p.file_path, "dst/level1/sub/file.txt");
    assert_eq!(p.parent_dir, "dst/level1/sub");
}

#[test]
fn listing_an_empty_bucket_succeeds() {
    let mut store = FakeStore::new();
    let keys = store.list_keys();
    assert!(keys.is_empty());
    assert_eq!(store.calls, 1);
}

#[test]
fn listing_returns_every_key_in_insertion_order() {
    let mut store = FakeStore::new();
    store.put("b.txt".to_string(), "text/plain".to_string(), vec![1]);
    store.put("a.txt".to_string(), "text/plain".to_string(), vec![2]);
    store.put("c/d.bin".to_string(), "application/octet-stream".to_string(), vec![3]);
    let keys = store.list_keys();
    assert_eq!(keys, vec!["b.txt", "a.txt", "c/d.bin"]);
}

#[test]
fn putting_an_existing_key_replaces_without_duplicating() {
    let mut store = FakeStore::new();
    store.put("k".to_string(), "text/plain".to_string(), vec![1, 2]);
    store.put("k".to_string(), "text/plain".to_string(), vec![3]);
    let keys = store.list_keys();
    assert_eq!(keys, vec!["k"]);
    let body = store.get(&"k".to_string());
    assert_eq!(body, Some(vec![3]));
}

#[test]
fn upload_of_missing_path_makes_no_service_call() {
    let mut store = FakeStore::new();
    let r = upload_file(&mut store, "demo-bucket", "gone.txt", false, vec![1, 2, 3]);
    match r {
        Err(StorageError::NotFoundError(p)) => assert_eq!(p, "gone.txt"),
        _ => panic!("expected a not-found error naming the path"),
    }
    assert_eq!(store.calls, 0);
}

#[test]
fn download_to_non_directory_makes_no_service_call() {
    let mut store = FakeStore::new();
    store.put("k".to_string(), "text/plain".to_string(), vec![9]);
    let calls_before = store.calls;
    let r = download_file(&mut store, "k", "not-a-dir", false);
    match r {
        Err(StorageError::InvalidArgument(d)) => assert_eq!(d, "not-a-dir"),
        _ => panic!("expected an invalid-argument error naming the destination"),
    }
    assert_eq!(store.calls, calls_before);
}

#[test]
fn download_of_absent_key_is_a_remote_error() {
    let mut store = FakeStore::new();
    let r = download_file(&mut store, "missing-key", "dst", true);
    match r {
        Err(StorageError::RemoteError(k)) => assert_eq!(k, "missing-key"),
        _ => panic!("expected a remote error naming the key"),
    }
}

#[test]
fn upload_then_download_round_trip_is_byte_identical() {
    let mut store = FakeStore::new();
    let source: Vec<u8> = vec![0, 155, 7, 42, 255, 0, 13];
    let r = upload_file(&mut store, "demo-bucket", "src/main.bin", true, source.clone());
    assert!(r.is_ok());
    let d = download_file(&mut store, "src/main.bin", "./downloads/", true).unwrap();
    assert_eq!(d.data, source);
    assert_eq!(d.file_path, "./downloads/src/main.bin");
}

#[test]
fn chunk_writer_reassembles_chunks_in_order() {
    let mut w = ChunkWriter::new();
    w.write_chunk(&vec![1, 2]);
    w.write_chunk(&vec![]);
    w.write_chunk(&vec![3]);
    assert_eq!(w.into_bytes(), vec![1, 2, 3]);
}

#[test]
fn writing_all_chunks_of_a_split_body_restores_it() {
    let body: Vec<u8> = vec![10, 20, 30, 40, 50];
    let chunks = vec![vec![10, 20], vec![30], vec![], vec![40, 50]];
    let mut w = ChunkWriter::new();
    write_all_chunks(&mut w, &chunks);
    assert_eq!(w.into_bytes(), body);
}

#[test]
fn error_detail_is_exposed() {
    let e = StorageError::RemoteError("the service said no".to_string());
    assert_eq!(e.detail(), "the service said no");
}
