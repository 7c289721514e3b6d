//! Archive codec: content hashing, gzip decoding, and the manifest
//! tables an archive writer records.

use crate::string_map::StringMap;
use crate::strutil::{basename, basename_view};
use sha2::Digest;
use sha2::Sha256;
use vstd::prelude::*;

verus! {

/// A produced archive may hold at most this many bytes uncompressed.
pub const MAX_UNCOMPRESSED_BYTES: usize = 134217728;

/// The lowercase-hex SHA-256 digest of a byte sequence.  What the
/// digest is on given bytes only the hash implementation knows.
pub uninterp spec fn sha256_hex_of(bytes: Seq<u8>) -> Seq<char>;

/// A lowercase hexadecimal digit.
pub open spec fn is_lower_hex_digit(c: char) -> bool {
    ('0' <= c && c <= '9') || ('a' <= c && c <= 'f')
}

/// Relies on sha2's Sha256 and its lowercase-hex rendering: the digest
/// is a function of the input bytes alone, and its stored form is
/// 64 lowercase hexadecimal characters, with no prefix.
#[verifier::external_body]
pub fn get_hash_for_contents(input: &[u8]) -> (r: String)
    ensures
        r@ == sha256_hex_of(input@),
        r@.len() == 64,
        forall|i: int| 0 <= i < r@.len() ==> is_lower_hex_digit(#[trigger] r@[i]),
{
    let mut hasher = Sha256::new();
    hasher.update(input);
    format!("{:x}", hasher.finalize())
}

/// The decompressed form of a gzip stream that decodes cleanly.
pub uninterp spec fn gunzip_of(bytes: Seq<u8>) -> Seq<u8>;

/// Whether a byte sequence is a gzip stream that decodes cleanly.
pub uninterp spec fn gzip_decodes(bytes: Seq<u8>) -> bool;

/// Relies on flate2's GzDecoder: whether decoding succeeds, and what
/// it yields, are both functions of the input bytes alone; a stream
/// that does not decode yields the error text instead.
#[verifier::external_body]
pub fn gunzip(bytes: &[u8]) -> (r: Result<Vec<u8>, String>)
    ensures
        r is Ok <==> gzip_decodes(bytes@),
        r matches Result::Ok(out) ==> out@ == gunzip_of(bytes@),
{
    let mut decoder = flate2::read::GzDecoder::new(bytes);
    let mut out: Vec<u8> = Vec::new();
    match std::io::Read::read_to_end(&mut decoder, &mut out) {
        Result::Ok(_) => Result::Ok(out),
        Result::Err(e) => Result::Err(e.to_string()),
    }
}

/// The entrypoint table a list of relative paths denotes: each path
/// keyed under its basename, later paths winning a basename clash.
pub open spec fn entrypoint_map_view(entrypoints: Seq<Seq<char>>) -> Map<Seq<char>, Seq<char>>
    decreases entrypoints.len(),
{
    if entrypoints.len() == 0 {
        Map::<Seq<char>, Seq<char>>::empty()
    } else {
        entrypoint_map_view(entrypoints.drop_last()).insert(
            basename_view(entrypoints.last()),
            entrypoints.last(),
        )
    }
}

/// Builds the manifest's entrypoint table: every relative path keyed
/// under its basename, which is the binary's dispatch name.
pub fn entrypoint_map(entrypoints: &Vec<String>) -> (r: StringMap<String>)
    ensures
        r@ == entrypoint_map_view(entrypoints@.map_values(|s: String| s@)),
{
    let ghost eps = entrypoints@.map_values(|s: String| s@);
    let n = entrypoints.len();
    let mut out: StringMap<String> = StringMap::new();
    let mut i: usize = 0;
    proof {
        assert(eps.subrange(0, 0) =~= Seq::<Seq<char>>::empty());
    }
    while i < n
        invariant
            n == entrypoints@.len(),
            i <= n,
            eps == entrypoints@.map_values(|s: String| s@),
            out@ == entrypoint_map_view(eps.subrange(0, i as int)),
        decreases n - i,
    {
        let name = basename(entrypoints[i].as_str());
        let path = entrypoints[i].clone();
        out.insert(name, path);
        proof {
            assert(eps.subrange(0, i as int + 1).drop_last() =~= eps.subrange(0, i as int));
            assert(eps.subrange(0, i as int + 1).last() == eps[i as int]);
        }
        i = i + 1;
    }
    proof {
        assert(eps.subrange(0, n as int) =~= eps);
    }
    out
}

/// The hash table a list of named file contents denotes: each name
/// keyed to the digest of its bytes.
pub open spec fn file_hashes_view(files: Seq<(Seq<char>, Seq<u8>)>) -> Map<Seq<char>, Seq<char>>
    decreases files.len(),
{
    if files.len() == 0 {
        Map::<Seq<char>, Seq<char>>::empty()
    } else {
        file_hashes_view(files.drop_last()).insert(
            files.last().0,
            sha256_hex_of(files.last().1),
        )
    }
}

/// Builds the manifest's hash table: the digest of every packaged
/// file's bytes under the file's archive-relative name.
pub fn hash_files(files: &Vec<(String, Vec<u8>)>) -> (r: StringMap<String>)
    ensures
        r@ == file_hashes_view(files@.map_values(|f: (String, Vec<u8>)| (f.0@, f.1@))),
{
    let ghost fs = files@.map_values(|f: (String, Vec<u8>)| (f.0@, f.1@));
    let n = files.len();
    let mut out: StringMap<String> = StringMap::new();
    let mut i: usize = 0;
    proof {
        assert(fs.subrange(0, 0) =~= Seq::<(Seq<char>, Seq<u8>)>::empty());
    }
    while i < n
        invariant
            n == files@.len(),
            i <= n,
            fs == files@.map_values(|f: (String, Vec<u8>)| (f.0@, f.1@)),
            out@ == file_hashes_view(fs.subrange(0, i as int)),
        decreases n - i,
    {
        let name = files[i].0.clone();
        let digest = get_hash_for_contents(files[i].1.as_slice());
        out.insert(name, digest);
        proof {
            assert(fs.subrange(0, i as int + 1).drop_last() =~= fs.subrange(0, i as int));
            assert(fs.subrange(0, i as int + 1).last() == fs[i as int]);
        }
        i = i + 1;
    }
    proof {
        assert(fs.subrange(0, n as int) =~= fs);
    }
    out
}

/// The gzip encoding of a byte sequence at the default compression
/// level.
pub uninterp spec fn gzip_of(bytes: Seq<u8>) -> Seq<u8>;

/// Relies on flate2's GzEncoder at the default level, which writes a
/// fixed header: the encoding is a function of the input bytes alone.
#[verifier::external_body]
pub fn gzip_compress(bytes: &[u8]) -> (r: Result<Vec<u8>, String>)
    ensures
        r matches Result::Ok(out) ==> out@ == gzip_of(bytes@),
{
    let mut encoder = flate2::write::GzEncoder::new(Vec::new(), flate2::Compression::default());
    match std::io::Write::write_all(&mut encoder, bytes) {
        Result::Ok(()) => match encoder.finish() {
            Result::Ok(out) => Result::Ok(out),
            Result::Err(e) => Result::Err(e.to_string()),
        },
        Result::Err(e) => Result::Err(e.to_string()),
    }
}

/// An in-memory tar writer, wrapping the tar crate's builder; the
/// verifier sees it only through the entry sequence named below.
#[verifier::external_body]
pub struct TarBuilder {
    inner: tar::Builder<Vec<u8>>,
}

/// One written tar entry: its name, its bytes, and the mode, uid, gid
/// and modification time of its header.
pub uninterp spec fn tar_entries(b: TarBuilder) -> Seq<
    (Seq<char>, Seq<u8>, int, int, int, int),
>;

/// The byte stream a finished tar archive of the given entries is.
pub uninterp spec fn tar_bytes_of(entries: Seq<(Seq<char>, Seq<u8>, int, int, int, int)>) -> Seq<
    u8,
>;

/// Relies on tar::Builder::new on an in-memory buffer: a fresh builder
/// holds no entries.
#[verifier::external_body]
fn tar_builder_new() -> (b: TarBuilder)
    ensures
        tar_entries(b) == Seq::<(Seq<char>, Seq<u8>, int, int, int, int)>::empty(),
{
    TarBuilder { inner: tar::Builder::new(Vec::new()) }
}

/// Relies on tar::Builder::append_data with a fresh GNU header carrying
/// exactly the given size, mode, uid, gid and mtime: on success the
/// entry stands after those already written.
#[verifier::external_body]
fn tar_append(
    b: &mut TarBuilder,
    name: &str,
    data: &[u8],
    mode: u32,
    uid: u64,
    gid: u64,
    mtime: u64,
) -> (r: Result<(), String>)
    ensures
        r is Ok ==> tar_entries(*final(b)) == tar_entries(*old(b)).push(
            (name@, data@, mode as int, uid as int, gid as int, mtime as int),
        ),
{
    let mut header = tar::Header::new_gnu();
    header.set_size(data.len() as u64);
    header.set_mode(mode);
    header.set_uid(uid);
    header.set_gid(gid);
    header.set_mtime(mtime);
    header.set_cksum();
    match b.inner.append_data(&mut header, name, data) {
        Result::Ok(()) => Result::Ok(()),
        Result::Err(e) => Result::Err(e.to_string()),
    }
}

/// Relies on tar::Builder::into_inner: finishing yields a byte stream
/// that is a function of the entries written.
#[verifier::external_body]
fn tar_finish(b: TarBuilder) -> (r: Result<Vec<u8>, String>)
    ensures
        r matches Result::Ok(out) ==> out@ == tar_bytes_of(tar_entries(b)),
{
    match b.inner.into_inner() {
        Result::Ok(out) => Result::Ok(out),
        Result::Err(e) => Result::Err(e.to_string()),
    }
}

/// The entries of a produced archive: every packaged file in order and
/// the manifest entry last, each with mode 0644, uid and gid 1000, and
/// the archival time as its modification time.
pub open spec fn archive_entries_view(
    files: Seq<(Seq<char>, Seq<u8>)>,
    manifest: Seq<u8>,
    mtime: int,
) -> Seq<(Seq<char>, Seq<u8>, int, int, int, int)> {
    files.map_values(
        |f: (Seq<char>, Seq<u8>)| (f.0, f.1, 0o644 as int, 1000 as int, 1000 as int, mtime),
    ).push(("archive.json"@, manifest, 0o644 as int, 1000 as int, 1000 as int, mtime))
}

/// Assembles a produced archive: the packaged files and then the
/// manifest entry last, under the layout's header values, gzipped.
/// A success is exactly the gzip encoding of that tar stream.
pub fn build_archive(files: &Vec<(String, Vec<u8>)>, manifest: &Vec<u8>, mtime: u64) -> (r: Result<
    Vec<u8>,
    String,
>)
    ensures
        r matches Result::Ok(out) ==> out@ == gzip_of(
            tar_bytes_of(
                archive_entries_view(
                    files@.map_values(|f: (String, Vec<u8>)| (f.0@, f.1@)),
                    manifest@,
                    mtime as int,
                ),
            ),
        ),
{
    let ghost fs_entries = files@.map_values(
        |f: (String, Vec<u8>)| (f.0@, f.1@, 0o644 as int, 1000 as int, 1000 as int, mtime as int),
    );
    let mut builder = tar_builder_new();
    let n = files.len();
    let mut i: usize = 0;
    proof {
        assert(tar_entries(builder) =~= fs_entries.subrange(0, 0));
    }
    while i < n
        invariant
            n == files@.len(),
            fs_entries == files@.map_values(
                |f: (String, Vec<u8>)| (
                    f.0@,
                    f.1@,
                    0o644 as int,
                    1000 as int,
                    1000 as int,
                    mtime as int,
                ),
            ),
            i <= n,
            tar_entries(builder) == fs_entries.subrange(0, i as int),
        decreases n - i,
    {
        match tar_append(
            &mut builder,
            files[i].0.as_str(),
            files[i].1.as_slice(),
            0o644,
            1000,
            1000,
            mtime,
        ) {
            Result::Ok(()) => {},
            Result::Err(e) => {
                return Result::Err(e);
            },
        }
        proof {
            assert(fs_entries.subrange(0, i as int + 1) =~= fs_entries.subrange(0, i as int).push(
                fs_entries[i as int],
            ));
        }
        i = i + 1;
    }
    proof {
        assert(fs_entries.subrange(0, n as int) =~= fs_entries);
    }
    match tar_append(
        &mut builder,
        "archive.json",
        manifest.as_slice(),
        0o644,
        1000,
        1000,
        mtime,
    ) {
        Result::Ok(()) => {},
        Result::Err(e) => {
            return Result::Err(e);
        },
    }
    proof {
        assert(tar_entries(builder) =~= archive_entries_view(
            files@.map_values(|f: (String, Vec<u8>)| (f.0@, f.1@)),
            manifest@,
            mtime as int,
        ));
    }
    let tar_bytes = match tar_finish(builder) {
        Result::Ok(out) => out,
        Result::Err(e) => {
            return Result::Err(e);
        },
    };
    gzip_compress(tar_bytes.as_slice())
}

} // verus!

