//! The archive codec and install pipeline checks, on real bytes.

use toolup::codec::{entrypoint_map, get_hash_for_contents, hash_files};
use toolup::model::package::GeneratedDefinedPackage;
use toolup::package::{decode_archive, install_destination, tmp_extract_dir, validate_file_hash,
    validate_manifest_files, PackageError};
use std::io::Read;
use std::io::Write;
use toolup::codec::build_archive;
use toolup::string_map::StringMap;

const HELLO_SHA256: &str = "2cf24dba5fb0a30e26e83b2ac5b9e29e1b161e5c1fa7425e73043362938b9824";

#[test]
fn hash_of_known_bytes() {
    let digest = get_hash_for_contents(b"hello");
    assert_eq!(digest, HELLO_SHA256);
    // The digest is not the input handed back.
    assert_ne!(digest.as_bytes(), b"hello");
}

#[test]
fn file_hash_accepts_matching_digest() {
    assert!(validate_file_hash("f", b"hello", HELLO_SHA256).is_ok());
}

#[test]
fn file_hash_rejects_mismatch_with_both_digests() {
    // Flip one byte of the content.
    let err = validate_file_hash("f", b"hfllo", HELLO_SHA256).unwrap_err();
    assert!(err.message().starts_with("Package was corrupted! Found f"));
    match err {
        PackageError::CorruptedArchive {
            filename,
            expected,
            computed,
        } => {
            assert_eq!(filename, "f");
            assert_eq!(expected, HELLO_SHA256);
            assert_eq!(computed, get_hash_for_contents(b"hfllo"));
            assert_ne!(computed, expected);
        }
        other => panic!("unexpected error: {:?}", other),
    }
}

fn manifest_for(files: &Vec<(String, Vec<u8>)>) -> GeneratedDefinedPackage {
    GeneratedDefinedPackage {
        name: "clu".to_string(),
        entrypoints: StringMap::new(),
        version: "1.0.0".to_string(),
        achived_at: 0,
        file_hashes: hash_files(files),
    }
}

#[test]
fn manifest_validation_accepts_untouched_files() {
    let files: Vec<(String, Vec<u8>)> =
        vec![("clu".to_string(), b"hello".to_vec()), ("doc".to_string(), b"world".to_vec())];
    let manifest = manifest_for(&files);
    assert!(validate_manifest_files(&files, &manifest).is_ok());
}

#[test]
fn manifest_validation_rejects_flipped_byte() {
    let files: Vec<(String, Vec<u8>)> =
        vec![("clu".to_string(), b"hello".to_vec()), ("doc".to_string(), b"world".to_vec())];
    let manifest = manifest_for(&files);

    // Flip one byte of the first entrypoint's content.
    let mut corrupted = files.clone();
    corrupted[0].1[0] ^= 1;

    let err = validate_manifest_files(&corrupted, &manifest).unwrap_err();
    match err {
        PackageError::CorruptedArchive {
            filename,
            expected,
            computed,
        } => {
            assert_eq!(filename, "clu");
            assert_eq!(expected, get_hash_for_contents(b"hello"));
            assert_eq!(computed, get_hash_for_contents(&corrupted[0].1));
            assert_ne!(computed, expected);
        }
        other => panic!("unexpected error: {:?}", other),
    }
}

#[test]
fn gzip_round_trip_decodes() {
    let mut encoder =
        flate2::write::GzEncoder::new(Vec::new(), flate2::Compression::default());
    encoder.write_all(b"hello world").unwrap();
    let gz = encoder.finish().unwrap();
    assert_ne!(gz.as_slice(), b"hello world" as &[u8]);

    let decoded = decode_archive(&gz, "a.tar.gz").unwrap();
    assert_eq!(decoded, b"hello world");
}

#[test]
fn garbage_archive_is_rejected() {
    let err = decode_archive(b"not a gzip stream", "bad.tar.gz").unwrap_err();
    match err {
        PackageError::UnableToExtractPackage { path, .. } => assert_eq!(path, "bad.tar.gz"),
        other => panic!("unexpected error: {:?}", other),
    }
}

#[test]
fn entrypoint_map_keys_by_basename() {
    let eps = vec!["bin-1".to_string(), "sub/bin-3".to_string()];
    let m = entrypoint_map(&eps);
    assert_eq!(m.len(), 2);
    assert_eq!(m.get("bin-1"), Some(&"bin-1".to_string()));
    assert_eq!(m.get("bin-3"), Some(&"sub/bin-3".to_string()));
}

#[test]
fn destination_replaces_spaces() {
    let dest = install_destination("/root/tools", "my tool", "1.0.0");
    assert_eq!(dest, "/root/tools/my_tool/1.0.0");
}

#[test]
fn scratch_dir_carries_timestamp() {
    assert_eq!(tmp_extract_dir("/root/tools", 1700000000), "/root/tools/tmp.1700000000");
}

#[test]
fn built_archives_decode_and_list_their_entries() {
    let files: Vec<(String, Vec<u8>)> = vec![("clu".to_string(), b"hello".to_vec())];
    let manifest_bytes = b"{}".to_vec();
    let archive = build_archive(&files, &manifest_bytes, 1700000000).unwrap();

    // The produced bytes really are a gzip stream of a tar archive with
    // the files first and the manifest entry last.
    let tar_bytes = decode_archive(&archive, "a.tar.gz").unwrap();
    let mut seen: Vec<(String, Vec<u8>, u32, u64)> = Vec::new();
    let mut reader = tar::Archive::new(tar_bytes.as_slice());
    for entry in reader.entries().unwrap() {
        let mut entry = entry.unwrap();
        let name = entry.path().unwrap().display().to_string();
        let mode = entry.header().mode().unwrap();
        let mtime = entry.header().mtime().unwrap();
        let mut contents = Vec::new();
        entry.read_to_end(&mut contents).unwrap();
        seen.push((name, contents, mode, mtime));
    }
    assert_eq!(seen.len(), 2);
    assert_eq!(seen[0].0, "clu");
    assert_eq!(seen[0].1, b"hello");
    assert_eq!(seen[0].2, 0o644);
    assert_eq!(seen[0].3, 1700000000);
    assert_eq!(seen[1].0, "archive.json");
    assert_eq!(seen[1].1, b"{}");
    assert_eq!(seen[1].2, 0o644);
    assert_eq!(seen[1].3, 1700000000);
}
