//! The install pipeline's decisions: decoding and size-capping the
//! archive, verifying every recorded digest, computing the final
//! location, and the state mutation that publishes the package.

use crate::codec::{gunzip, gunzip_of, gzip_decodes, get_hash_for_contents, sha256_hex_of,
    MAX_UNCOMPRESSED_BYTES};
use crate::model::package::{GeneratedDefinedPackage, InstalledPackageContainer};
use crate::state::{add_spec, container_package, make_current_spec, wf_state, StateContainer,
    StateError};
use crate::strutil::{dec_str_view, str_eq, underscored, underscored_view};
use vstd::prelude::*;
use vstd::string::StringExecFns;

verus! {

/// What can go wrong while a package is brought in.
#[derive(Debug)]
pub enum PackageError {
    UnableToExtractPackage { path: String, error: String },
    UnableToReadPackage { path: String, error: String },
    CorruptedArchive { filename: String, expected: String, computed: String },
    State(StateError),
}

/// The one-line report of an install-pipeline failure.
pub open spec fn package_error_text(e: PackageError) -> Seq<char> {
    match e {
        PackageError::UnableToExtractPackage { path, error } => {
            "Unable to extract `"@ + path@ + "`. OS Error: "@ + error@
        },
        PackageError::UnableToReadPackage { path, error } => {
            "Unable to open and read `"@ + path@ + "`. OS Error: "@ + error@
        },
        PackageError::CorruptedArchive { filename, expected, computed } => {
            "Package was corrupted! Found "@ + filename@
                + " which was expected to have a checksum "@ + expected@ + " but instead was "@
                + computed@ + "."@
        },
        PackageError::State(s) => crate::state::state_error_text(s),
    }
}

impl PackageError {
    /// Renders the failure for a user.
    pub fn message(&self) -> (r: String)
        ensures
            r@ == package_error_text(*self),
    {
        match self {
            PackageError::UnableToExtractPackage { path, error } => {
                let s = String::from_str("Unable to extract `");
                let s = s.concat(path.as_str());
                let s = s.concat("`. OS Error: ");
                s.concat(error.as_str())
            },
            PackageError::UnableToReadPackage { path, error } => {
                let s = String::from_str("Unable to open and read `");
                let s = s.concat(path.as_str());
                let s = s.concat("`. OS Error: ");
                s.concat(error.as_str())
            },
            PackageError::CorruptedArchive { filename, expected, computed } => {
                let s = String::from_str("Package was corrupted! Found ");
                let s = s.concat(filename.as_str());
                let s = s.concat(" which was expected to have a checksum ");
                let s = s.concat(expected.as_str());
                let s = s.concat(" but instead was ");
                let s = s.concat(computed.as_str());
                s.concat(".")
            },
            PackageError::State(e) => e.message(),
        }
    }
}

/// Enforces the uncompressed size cap on a decoded archive: the bytes
/// pass through exactly when they fit.
pub fn check_archive_size(bytes: Vec<u8>, path: &str) -> (r: Result<Vec<u8>, PackageError>)
    ensures
        match r {
            Result::Ok(out) => bytes@.len() <= MAX_UNCOMPRESSED_BYTES && out@ == bytes@,
            Result::Err(e) => {
                &&& bytes@.len() > MAX_UNCOMPRESSED_BYTES
                &&& (e matches PackageError::UnableToExtractPackage { path: p, error } && p@
                    == path@)
            },
        },
{
    if bytes.len() <= MAX_UNCOMPRESSED_BYTES {
        Result::Ok(bytes)
    } else {
        Result::Err(
            PackageError::UnableToExtractPackage {
                path: String::from_str(path),
                error: String::from_str("uncompressed archive exceeds the size cap"),
            },
        )
    }
}

/// Decompresses an archive into memory and enforces the size cap: it
/// succeeds exactly when the bytes decode as gzip and the decoded form
/// fits the cap, and then yields that decoded form.
pub fn decode_archive(bytes: &[u8], path: &str) -> (r: Result<Vec<u8>, PackageError>)
    ensures
        match r {
            Result::Ok(out) => gzip_decodes(bytes@) && out@ == gunzip_of(bytes@) && out@.len()
                <= MAX_UNCOMPRESSED_BYTES,
            Result::Err(e) => {
                &&& !(gzip_decodes(bytes@) && gunzip_of(bytes@).len() <= MAX_UNCOMPRESSED_BYTES)
                &&& (e matches PackageError::UnableToExtractPackage { path: p, error } && p@
                    == path@)
            },
        },
{
    match gunzip(bytes) {
        Result::Ok(out) => check_archive_size(out, path),
        Result::Err(error) => Result::Err(
            PackageError::UnableToExtractPackage { path: String::from_str(path), error },
        ),
    }
}

/// Checks one file's bytes against its recorded digest; passes exactly
/// when they agree, and otherwise reports the file with both digests.
pub fn validate_file_hash(filename: &str, contents: &[u8], expected: &str) -> (r: Result<
    (),
    PackageError,
>)
    ensures
        match r {
            Result::Ok(()) => sha256_hex_of(contents@) == expected@,
            Result::Err(e) => {
                &&& sha256_hex_of(contents@) != expected@
                &&& (e matches PackageError::CorruptedArchive { filename: f, expected: ex, computed
                    } && f@ == filename@ && ex@ == expected@ && computed@ == sha256_hex_of(
                    contents@,
                ))
            },
        },
{
    let computed = get_hash_for_contents(contents);
    if str_eq(computed.as_str(), expected) {
        Result::Ok(())
    } else {
        Result::Err(
            PackageError::CorruptedArchive {
                filename: String::from_str(filename),
                expected: String::from_str(expected),
                computed,
            },
        )
    }
}

/// Whether every file's bytes carry the digest the manifest records
/// for it.
pub open spec fn hashes_match(
    files: Seq<(Seq<char>, Seq<u8>)>,
    file_hashes: Map<Seq<char>, Seq<char>>,
) -> bool {
    forall|j: int|
        0 <= j < files.len() ==> sha256_hex_of(#[trigger] files[j].1) == file_hashes[files[j].0]
}

/// Verifies every file of an extracted archive against the manifest's
/// hash table.  The files come in the table's own order, one per
/// recorded name; validation passes exactly when every digest matches,
/// and otherwise reports the first file that does not.
pub fn validate_manifest_files(
    files: &Vec<(String, Vec<u8>)>,
    manifest: &GeneratedDefinedPackage,
) -> (r: Result<(), PackageError>)
    requires
        files@.len() == manifest.file_hashes.key_seq().len(),
        forall|j: int|
            0 <= j < files@.len() ==> (#[trigger] files@[j].0)@
                == manifest.file_hashes.key_seq()[j],
    ensures
        match r {
            Result::Ok(()) => hashes_match(
                files@.map_values(|f: (String, Vec<u8>)| (f.0@, f.1@)),
                manifest@.file_hashes,
            ),
            Result::Err(e) => {
                &&& !hashes_match(
                    files@.map_values(|f: (String, Vec<u8>)| (f.0@, f.1@)),
                    manifest@.file_hashes,
                )
                &&& exists|j: int|
                    0 <= j < files@.len() && sha256_hex_of(#[trigger] files@[j].1@)
                        != manifest@.file_hashes[files@[j].0@] && (e matches
                    PackageError::CorruptedArchive { filename, expected, computed } && filename@
                        == files@[j].0@ && expected@ == manifest@.file_hashes[files@[j].0@]
                        && computed@ == sha256_hex_of(files@[j].1@)) && (forall|j2: int|
                        0 <= j2 < j ==> sha256_hex_of(#[trigger] files@[j2].1@)
                            == manifest@.file_hashes[files@[j2].0@])
            },
        },
{
    let n = files.len();
    let mut i: usize = 0;
    let _ = manifest.file_hashes.len();
    while i < n
        invariant
            n == files@.len(),
            i <= n,
            manifest.file_hashes.entry_facts(),
            n == manifest.file_hashes.key_seq().len(),
            forall|j: int|
                0 <= j < files@.len() ==> (#[trigger] files@[j].0)@
                    == manifest.file_hashes.key_seq()[j],
            forall|j: int|
                0 <= j < i ==> sha256_hex_of(#[trigger] files@[j].1@)
                    == manifest@.file_hashes[files@[j].0@],
        decreases n - i,
    {
        let expected = manifest.file_hashes.value_at(i);
        proof {
            assert(manifest@.file_hashes[files@[i as int].0@]
                == manifest.file_hashes.kvs()[i as int].1);
        }
        match validate_file_hash(
            files[i].0.as_str(),
            files[i].1.as_slice(),
            expected.as_str(),
        ) {
            Result::Ok(()) => {},
            Result::Err(e) => {
                proof {
                    let fs = files@.map_values(|f: (String, Vec<u8>)| (f.0@, f.1@));
                    assert(fs[i as int] == (files@[i as int].0@, files@[i as int].1@));
                    assert(sha256_hex_of(fs[i as int].1) != manifest@.file_hashes[fs[i as int].0]);
                    assert(!hashes_match(fs, manifest@.file_hashes)) by {
                        if hashes_match(fs, manifest@.file_hashes) {
                            assert(sha256_hex_of(fs[i as int].1) == manifest@.file_hashes[fs[
                                i as int
                            ].0]);
                        }
                    }
                }
                return Result::Err(e);
            },
        }
        i = i + 1;
    }
    proof {
        let fs = files@.map_values(|f: (String, Vec<u8>)| (f.0@, f.1@));
        assert forall|j: int|
            0 <= j < fs.len() implies sha256_hex_of(#[trigger] fs[j].1)
            == manifest@.file_hashes[fs[j].0] by {
            assert(fs[j] == (files@[j].0@, files@[j].1@));
        }
    }
    Result::Ok(())
}

/// The final location of an installed package: the tool root, then the
/// package name with spaces turned to underscores, then the version.
pub fn install_destination(tool_root: &str, name: &str, version: &str) -> (r: String)
    ensures
        r@ == tool_root@ + "/"@ + underscored_view(name@) + "/"@ + version@,
{
    let friendly = underscored(name);
    let s = String::from_str(tool_root);
    let s = s.concat("/");
    let s = s.concat(friendly.as_str());
    let s = s.concat("/");
    s.concat(version)
}

/// The scratch directory a fresh extraction lands in, unique by its
/// timestamp suffix.
pub fn tmp_extract_dir(tool_root: &str, ts: u64) -> (r: String)
    ensures
        r@ == tool_root@ + "/tmp."@ + dec_str_view(ts as nat),
{
    let s = String::from_str(tool_root);
    let s = s.concat("/tmp.");
    s.concat(crate::strutil::u64_to_string(ts).as_str())
}

/// The state mutation that publishes a verified, moved-into-place
/// package: it is recorded and then made current, in one step.  Making
/// a just-recorded package current cannot fail.
pub fn apply_install(container: &mut StateContainer, install: &InstalledPackageContainer) -> (r:
    Result<(), StateError>)
    requires
        wf_state(old(container).current_state@),
    ensures
        final(container).updated_at == old(container).updated_at,
        wf_state(final(container).current_state@),
        r is Ok,
        final(container).current_state@ == make_current_spec(
            add_spec(old(container).current_state@, install@),
            install@,
        ),
{
    container.current_state.add_installed_package(install);
    proof {
        assert(add_spec(old(container).current_state@, install@).installed_packages.contains_key(
            container_package(install@).id,
        ));
    }
    match container.current_state.make_package_current(install) {
        Result::Ok(()) => Result::Ok(()),
        Result::Err(e) => Result::Err(e),
    }
}

} // verus!
