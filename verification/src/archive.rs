//! Safety checks on downloaded sound-pack archives: their size while they
//! stream in, and each tar entry's type and path before it is unpacked.

use vstd::prelude::*;

use crate::paths::{path_components, spec_path_components, PathComponent, PathComponentView};

verus! {

/// The largest sound archive the app downloads: 10 MiB.
pub const MAX_SOUND_ARCHIVE_BYTES: usize = 10485760;

/// Why an archive is refused.
#[derive(Debug, Clone, Copy, PartialEq, Eq, Structural)]
pub enum ArchiveError {
    UnsafePath,
    EmptyPath,
    UnsupportedEntryType,
    TooLarge,
    LargerThanLimit,
}

/// The message of each error, as shown to the user.
pub open spec fn archive_error_message(e: ArchiveError) -> Seq<char> {
    match e {
        ArchiveError::UnsafePath => "sound archive contains an unsafe path"@,
        ArchiveError::EmptyPath => "sound archive contains an empty entry path"@,
        ArchiveError::UnsupportedEntryType => "sound archive contains unsupported entry types"@,
        ArchiveError::TooLarge => "sound archive is too large"@,
        ArchiveError::LargerThanLimit => "sound archive is larger than 10 MiB"@,
    }
}

impl ArchiveError {
    /// The message shown to the user.
    pub fn message(&self) -> (r: &'static str)
        ensures
            r@ == archive_error_message(*self),
    {
        match self {
            ArchiveError::UnsafePath => "sound archive contains an unsafe path",
            ArchiveError::EmptyPath => "sound archive contains an empty entry path",
            ArchiveError::UnsupportedEntryType => "sound archive contains unsupported entry types",
            ArchiveError::TooLarge => "sound archive is too large",
            ArchiveError::LargerThanLimit => "sound archive is larger than 10 MiB",
        }
    }
}

/// A component that could leave the unpack directory: `..`, the root, or a
/// drive prefix.
pub open spec fn is_unsafe_component(c: PathComponentView) -> bool {
    c is ParentDir || c is RootDir || c is Prefix
}

/// The tar entry path rule over its components: no component may leave the
/// directory, and at least one must name something.
pub open spec fn entry_path_check(cs: Seq<PathComponentView>) -> Result<(), ArchiveError> {
    if exists|i: int| 0 <= i < cs.len() && is_unsafe_component(#[trigger] cs[i]) {
        Err(ArchiveError::UnsafePath)
    } else if exists|i: int| 0 <= i < cs.len() && (#[trigger] cs[i]) is Normal {
        Ok(())
    } else {
        Err(ArchiveError::EmptyPath)
    }
}

/// Whether a tar entry path stays inside the directory it is unpacked in.
pub fn validate_tar_entry_path(path: &str) -> (r: Result<(), ArchiveError>)
    ensures
        r == entry_path_check(spec_path_components(path@)),
{
    let components = path_components(path);
    let ghost cs = spec_path_components(path@);
    let mut has_normal_component = false;
    let mut i: usize = 0;
    while i < components.len()
        invariant
            cs == components@.map_values(|c: PathComponent| c@),
            cs == spec_path_components(path@),
            i <= components@.len(),
            forall|j: int| 0 <= j < i ==> !is_unsafe_component(#[trigger] cs[j]),
            has_normal_component == exists|j: int| 0 <= j < i && (#[trigger] cs[j]) is Normal,
        decreases components@.len() - i,
    {
        assert(cs[i as int] == components@[i as int]@);
        match &components[i] {
            PathComponent::Normal(_) => {
                has_normal_component = true;
                assert(cs[i as int] is Normal);
            },
            PathComponent::CurDir => {},
            _ => {
                assert(cs.len() == components@.len());
                assert(is_unsafe_component(cs[i as int]));
                return Err(ArchiveError::UnsafePath);
            },
        }
        i += 1;
    }
    assert(!exists|j: int| 0 <= j < cs.len() && is_unsafe_component(#[trigger] cs[j]));
    if has_normal_component {
        Ok(())
    } else {
        Err(ArchiveError::EmptyPath)
    }
}

/// Whether `tar::EntryType::new(type_byte).is_file()`: the byte is NUL or `0`.
#[verifier::external_body]
fn tar_entry_is_file(type_byte: u8) -> (r: bool)
    ensures
        r == (type_byte == 0 || type_byte == 48),
{
    tar::EntryType::new(type_byte).is_file()
}

/// Whether `tar::EntryType::new(type_byte).is_dir()`: the byte is `5`.
#[verifier::external_body]
fn tar_entry_is_dir(type_byte: u8) -> (r: bool)
    ensures
        r == (type_byte == 53),
{
    tar::EntryType::new(type_byte).is_dir()
}

/// Only regular files and directories may be unpacked; links, devices and
/// the like are refused.
pub fn validate_tar_entry_type(type_byte: u8) -> (r: Result<(), ArchiveError>)
    ensures
        r is Ok <==> (type_byte == 0 || type_byte == 48 || type_byte == 53),
        r is Err ==> r == Err::<(), ArchiveError>(ArchiveError::UnsupportedEntryType),
{
    if tar_entry_is_file(type_byte) || tar_entry_is_dir(type_byte) {
        Ok(())
    } else {
        Err(ArchiveError::UnsupportedEntryType)
    }
}

/// An announced `Content-Length` must not exceed the limit; an unannounced
/// one is checked as the body arrives.
pub fn check_content_length(content_length: Option<u64>) -> (r: Result<(), ArchiveError>)
    ensures
        match content_length {
            Some(n) => if n <= MAX_SOUND_ARCHIVE_BYTES {
                r is Ok
            } else {
                r == Err::<(), ArchiveError>(ArchiveError::LargerThanLimit)
            },
            None => r is Ok,
        },
{
    match content_length {
        Some(n) => if n <= MAX_SOUND_ARCHIVE_BYTES as u64 {
            Ok(())
        } else {
            Err(ArchiveError::LargerThanLimit)
        },
        None => Ok(()),
    }
}

/// The archive length after a chunk arrives, refused once it would pass the
/// limit.
pub fn next_archive_len(received: usize, chunk_len: usize) -> (r: Result<usize, ArchiveError>)
    ensures
        received + chunk_len > usize::MAX ==> r == Err::<usize, ArchiveError>(ArchiveError::TooLarge),
        received + chunk_len <= usize::MAX && received + chunk_len > MAX_SOUND_ARCHIVE_BYTES
            ==> r == Err::<usize, ArchiveError>(ArchiveError::LargerThanLimit),
        received + chunk_len <= MAX_SOUND_ARCHIVE_BYTES ==> r == Ok::<usize, ArchiveError>(
            (received + chunk_len) as usize,
        ),
{
    match received.checked_add(chunk_len) {
        None => Err(ArchiveError::TooLarge),
        Some(next) => if next <= MAX_SOUND_ARCHIVE_BYTES {
            Ok(next)
        } else {
            Err(ArchiveError::LargerThanLimit)
        },
    }
}

} // verus!
