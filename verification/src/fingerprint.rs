//! Content fingerprints for cache invalidation.
//!
//! A load outcome — raw bytes or a typed failure — is folded into a
//! canonical byte form and hashed to 128 bits. The byte form is defined
//! here exactly; only the digest itself comes from an outside hasher,
//! under a name, since the same bytes always give the same digest.

use vstd::prelude::*;
use vstd::utf8::encode_utf8;
use crate::buffer::append_bytes;
use crate::extended_info::ExtendedFileError;
use crate::extended_info::ExtendedPackageError;
use crate::extended_info::ExtendedPackageSpec;
use crate::extended_info::ExtendedPackageVersion;
use crate::extended_info::FileErrorView;
use crate::extended_info::PackageErrorView;
use crate::extended_info::PackageSpecView;

verus! {

/// The 128-bit digest of a byte sequence; a function of the bytes
/// alone.
pub uninterp spec fn fingerprint_of(data: Seq<u8>) -> u128;

/// Relies on siphasher's `SipHasher13` with the zero key: `write` then
/// `finish128` digests exactly the bytes written, deterministically.
#[verifier::external_body]
fn sip_hash128(data: &Vec<u8>) -> (r: u128)
    ensures
        r == fingerprint_of(data@),
{
    let mut state = siphasher::sip128::SipHasher13::new();
    core::hash::Hasher::write(&mut state, data.as_slice());
    siphasher::sip128::Hasher128::finish128(&state).as_u128()
}

/// A `u32` as four little-endian bytes.
pub open spec fn u32_bytes(x: u32) -> Seq<u8> {
    seq![
        (x % 256) as u8,
        ((x / 256) % 256) as u8,
        ((x / 65536) % 256) as u8,
        ((x / 16777216) % 256) as u8,
    ]
}

/// An optional text as a tag byte plus its UTF-8 bytes.
pub open spec fn opt_text_bytes(m: Option<Seq<char>>) -> Seq<u8> {
    match m {
        None => seq![0u8],
        Some(s) => seq![1u8] + encode_utf8(s),
    }
}

/// A package version as twelve bytes.
pub open spec fn version_bytes(v: ExtendedPackageVersion) -> Seq<u8> {
    u32_bytes(v.major) + u32_bytes(v.minor) + u32_bytes(v.patch)
}

/// A package identifier as namespace, name and version bytes.
pub open spec fn package_spec_bytes(p: PackageSpecView) -> Seq<u8> {
    encode_utf8(p.namespace) + encode_utf8(p.name) + version_bytes(p.version)
}

/// A package error as a tag byte plus its payload bytes.
pub open spec fn package_error_bytes(e: PackageErrorView) -> Seq<u8> {
    match e {
        PackageErrorView::NotFound { package } => seq![0u8] + package_spec_bytes(package),
        PackageErrorView::VersionNotFound { package, version } => seq![1u8] + package_spec_bytes(
            package,
        ) + version_bytes(version),
        PackageErrorView::NetworkFailed { message } => seq![2u8] + opt_text_bytes(message),
        PackageErrorView::MalformedArchive { message } => seq![3u8] + opt_text_bytes(message),
        PackageErrorView::Other { message } => seq![4u8] + opt_text_bytes(message),
    }
}

/// A file error as a tag byte plus its payload bytes.
pub open spec fn file_error_bytes(e: FileErrorView) -> Seq<u8> {
    match e {
        FileErrorView::NotFound { path } => seq![0u8] + encode_utf8(path),
        FileErrorView::AccessDenied => seq![1u8],
        FileErrorView::IsDirectory => seq![2u8],
        FileErrorView::NotSource => seq![3u8],
        FileErrorView::InvalidUtf8 => seq![4u8],
        FileErrorView::Package { error } => seq![5u8] + package_error_bytes(error),
        FileErrorView::Other { message } => seq![6u8] + opt_text_bytes(message),
    }
}

/// A load outcome as a tag byte plus its payload bytes.
pub open spec fn outcome_bytes(o: Result<Seq<u8>, FileErrorView>) -> Seq<u8> {
    match o {
        Ok(b) => seq![0u8] + b,
        Err(e) => seq![1u8] + file_error_bytes(e),
    }
}

/// Appends a string's UTF-8 bytes.
fn append_text(out: &mut Vec<u8>, s: &String)
    ensures
        final(out)@ == old(out)@ + encode_utf8(s@),
{
    let bytes = s.as_str().as_bytes_vec();
    append_bytes(out, &bytes);
}

/// Appends an optional text with its tag byte.
fn append_opt_text(out: &mut Vec<u8>, m: &Option<String>)
    ensures
        final(out)@ == old(out)@ + opt_text_bytes(crate::extended_info::opt_text_view(*m)),
{
    match m {
        None => {
            out.push(0);
            proof {
                assert(final(out)@ =~= old(out)@ + seq![0u8]);
            }
        },
        Some(s) => {
            out.push(1);
            append_text(out, s);
            proof {
                assert(final(out)@ =~= old(out)@ + (seq![1u8] + encode_utf8(s@)));
            }
        },
    }
}

/// Appends a `u32` as four little-endian bytes.
fn append_u32(out: &mut Vec<u8>, x: u32)
    ensures
        final(out)@ == old(out)@ + u32_bytes(x),
{
    out.push((x % 256) as u8);
    out.push(((x / 256) % 256) as u8);
    out.push(((x / 65536) % 256) as u8);
    out.push(((x / 16777216) % 256) as u8);
    proof {
        assert(final(out)@ =~= old(out)@ + u32_bytes(x));
    }
}

/// Appends a package version.
fn append_version(out: &mut Vec<u8>, v: &ExtendedPackageVersion)
    ensures
        final(out)@ == old(out)@ + version_bytes(*v),
{
    append_u32(out, v.major);
    append_u32(out, v.minor);
    append_u32(out, v.patch);
    proof {
        assert(final(out)@ =~= old(out)@ + version_bytes(*v));
    }
}

/// Appends a package identifier.
fn append_package_spec(out: &mut Vec<u8>, p: &ExtendedPackageSpec)
    ensures
        final(out)@ == old(out)@ + package_spec_bytes(p@),
{
    append_text(out, &p.namespace);
    append_text(out, &p.name);
    append_version(out, &p.version);
    proof {
        assert(final(out)@ =~= old(out)@ + package_spec_bytes(p@));
    }
}

/// Appends a package error.
fn append_package_error(out: &mut Vec<u8>, e: &ExtendedPackageError)
    ensures
        final(out)@ == old(out)@ + package_error_bytes(e@),
{
    match e {
        ExtendedPackageError::NotFound { package } => {
            out.push(0);
            append_package_spec(out, package);
        },
        ExtendedPackageError::VersionNotFound { package, version } => {
            out.push(1);
            append_package_spec(out, package);
            append_version(out, version);
        },
        ExtendedPackageError::NetworkFailed { message } => {
            out.push(2);
            append_opt_text(out, message);
        },
        ExtendedPackageError::MalformedArchive { message } => {
            out.push(3);
            append_opt_text(out, message);
        },
        ExtendedPackageError::Other { message } => {
            out.push(4);
            append_opt_text(out, message);
        },
    }
    proof {
        assert(final(out)@ =~= old(out)@ + package_error_bytes(e@));
    }
}

/// Appends a file error.
fn append_file_error(out: &mut Vec<u8>, e: &ExtendedFileError)
    ensures
        final(out)@ == old(out)@ + file_error_bytes(e@),
{
    match e {
        ExtendedFileError::NotFound { path } => {
            out.push(0);
            append_text(out, path);
        },
        ExtendedFileError::AccessDenied => {
            out.push(1);
        },
        ExtendedFileError::IsDirectory => {
            out.push(2);
        },
        ExtendedFileError::NotSource => {
            out.push(3);
        },
        ExtendedFileError::InvalidUtf8 => {
            out.push(4);
        },
        ExtendedFileError::Package { error } => {
            out.push(5);
            append_package_error(out, error);
        },
        ExtendedFileError::Other { message } => {
            out.push(6);
            append_opt_text(out, message);
        },
    }
    proof {
        assert(final(out)@ =~= old(out)@ + file_error_bytes(e@));
    }
}

/// The fingerprint of a load outcome: the digest of its canonical byte
/// form.
pub fn outcome_fingerprint(outcome: &Result<Vec<u8>, ExtendedFileError>) -> (r: u128)
    ensures
        r == fingerprint_of(outcome_bytes(crate::cache::loaded_view(*outcome))),
{
    let mut buf: Vec<u8> = Vec::new();
    match outcome {
        Ok(bytes) => {
            buf.push(0);
            append_bytes(&mut buf, bytes);
        },
        Err(e) => {
            buf.push(1);
            append_file_error(&mut buf, e);
        },
    }
    proof {
        assert(buf@ =~= outcome_bytes(crate::cache::loaded_view(*outcome)));
    }
    sip_hash128(&buf)
}

} // verus!
