use keyecho::archive::{
    check_content_length, next_archive_len, validate_tar_entry_path, validate_tar_entry_type, ArchiveError,
    MAX_SOUND_ARCHIVE_BYTES,
};
use keyecho::url::{
    keyecho_gated_pack_id, sound_name_from_url, validate_external_url, validate_sound_download_url, UrlError,
    UrlParts,
};

fn url(raw: &str) -> UrlParts {
    UrlParts::parse(raw).expect("valid url")
}

#[test]
fn sound_download_url_allows_official_raw_archives() {
    let url = url("https://raw.githubusercontent.com/ZacharyL2/KeyEcho/main/src-tauri/resources/cherrymx-blue-abs.tar");

    validate_sound_download_url(&url, true).expect("official URL");
    assert_eq!(sound_name_from_url(&url, true), "cherrymx-blue-abs");
}

#[test]
fn sound_download_url_allows_keyecho_pack_archives() {
    for raw_url in ["https://keyecho.app/packs/nk-cream.tar", "https://www.keyecho.app/packs/eg-oreo.tar"] {
        let url = url(raw_url);
        validate_sound_download_url(&url, true).expect("official KeyEcho pack URL");
    }
}

#[test]
fn keyecho_gated_download_url_is_allowed_and_named_by_pack() {
    let url = url("https://keyecho.app/packs/download?key=KE1.abc.def&pack=waveapp-lunalogs-taptune");

    validate_sound_download_url(&url, true).expect("gated download URL");
    assert_eq!(sound_name_from_url(&url, true), "waveapp-lunalogs-taptune");
}

#[test]
fn keyecho_gated_download_url_rejects_bad_requests() {
    for raw_url in [
        "https://keyecho.app/packs/download?key=k",
        "https://keyecho.app/packs/download?key=k&pack=../escape",
        "https://keyecho.app/packs/other?key=k&pack=nk-cream",
    ] {
        let url = url(raw_url);
        assert!(validate_sound_download_url(&url, true).is_err(), "{raw_url}");
    }
}

#[test]
fn sound_download_url_rejects_untrusted_sources() {
    for raw_url in [
        "http://raw.githubusercontent.com/ZacharyL2/KeyEcho/main/src-tauri/resources/a.tar",
        "https://example.com/ZacharyL2/KeyEcho/main/src-tauri/resources/a.tar",
        "https://raw.githubusercontent.com/other/KeyEcho/main/src-tauri/resources/a.tar",
        "https://raw.githubusercontent.com/ZacharyL2/KeyEcho/main/src-tauri/resources/a.zip",
        "https://keyecho.app/downloads/a.tar",
        "https://keyecho.app/packs/a.zip",
    ] {
        let url = url(raw_url);
        assert!(validate_sound_download_url(&url, true).is_err());
    }
}

#[test]
fn dev_builds_allow_a_localhost_store_but_release_builds_do_not() {
    for raw_url in [
        "http://localhost:3999/packs",
        "http://localhost:3999/packs/download?key=k&pack=thockify-deep",
        "http://127.0.0.1:3999/packs",
    ] {
        let url = url(raw_url);
        validate_external_url(&url, true).expect("dev localhost allowed");
        validate_sound_download_url(&url, true).expect("dev localhost download allowed");
        assert!(validate_external_url(&url, false).is_err());
        assert!(validate_sound_download_url(&url, false).is_err());
    }
    let evil = url("http://evil.example/packs");
    assert!(validate_external_url(&evil, true).is_err());
}

#[test]
fn external_url_allows_keyecho_and_official_github_links() {
    for raw_url in [
        "https://keyecho.app/?source=keyecho_app#queue",
        "https://keyecho.app/?source=keyecho_app&intent=founding_bundle&version=1.0.0",
        "https://www.keyecho.app/?source=keyecho_app&intent=sound_pack_vote",
        "https://github.com/ZacharyL2/KeyEcho/blob/main/docs/custom-sounds.md",
    ] {
        let url = url(raw_url);
        validate_external_url(&url, true).expect("allowed external URL");
    }
}

#[test]
fn external_url_rejects_untrusted_links() {
    for raw_url in [
        "http://keyecho.app/",
        "https://upweb.dev/keyecho",
        "https://keyecho.app.evil.example/",
        "https://example.com/subscribe",
        "https://github.com/other/KeyEcho",
    ] {
        let url = url(raw_url);
        assert!(validate_external_url(&url, true).is_err());
    }
}

#[test]
fn download_errors_name_the_failed_rule() {
    assert_eq!(
        validate_sound_download_url(&url("http://keyecho.app/packs/a.tar"), false),
        Err(UrlError::DownloadNotHttps)
    );
    assert_eq!(
        validate_sound_download_url(&url("https://example.com/packs/a.tar"), false),
        Err(UrlError::DownloadUntrustedSource)
    );
    assert_eq!(
        validate_sound_download_url(&url("https://RAW.githubusercontent.com/zacharyl2/keyecho/x.tar"), false),
        Ok(())
    );
    assert_eq!(
        validate_sound_download_url(&url("https://raw.githubusercontent.com/ZacharyL2"), false),
        Err(UrlError::DownloadNotOfficialRepository)
    );
    assert_eq!(
        validate_sound_download_url(&url("https://cdn.keyecho.app/packs/"), false),
        Err(UrlError::DownloadNotTarArchive)
    );
    assert_eq!(
        validate_sound_download_url(&url("https://cdn.keyecho.app/other/a.tar"), false),
        Err(UrlError::DownloadNotOfficialPackPath)
    );
    assert_eq!(UrlError::DownloadNotTarArchive.message(), "sound downloads must be .tar archives");
}

#[test]
fn external_errors_name_the_failed_rule() {
    assert_eq!(validate_external_url(&url("ftp://keyecho.app/"), false), Err(UrlError::ExternalNotHttps));
    assert_eq!(
        validate_external_url(&url("https://github.com/other/KeyEcho"), false),
        Err(UrlError::ExternalNotOfficialRepository)
    );
    assert_eq!(validate_external_url(&url("https://example.com/"), false), Err(UrlError::ExternalHostNotAllowed));
    assert_eq!(validate_external_url(&url("https://WWW.KeyEcho.app/x"), false), Ok(()));
}

#[test]
fn pack_names_fall_back_to_unknown() {
    assert_eq!(sound_name_from_url(&url("https://keyecho.app/packs/.tar"), false), "Unknown");
    assert_eq!(sound_name_from_url(&url("https://keyecho.app/packs/"), false), "Unknown");
    assert_eq!(sound_name_from_url(&url("https://keyecho.app/packs/a.zip"), false), "Unknown");
    assert_eq!(
        keyecho_gated_pack_id(&url("https://keyecho.app/packs/download?pack=a_b-C9&pack=zzz"), false),
        Some("a_b-C9".to_string())
    );
    assert_eq!(keyecho_gated_pack_id(&url("https://keyecho.app/packs/download?pack="), false), None);
}

#[test]
fn parsing_rejects_relative_urls() {
    assert!(UrlParts::parse("packs/a.tar").is_none());
    let parsed = url("https://Example.COM/a%20b/c?x=1&y=two+words");
    assert_eq!(parsed.scheme, "https");
    assert_eq!(parsed.host.as_deref(), Some("example.com"));
    assert_eq!(parsed.path, "/a%20b/c");
    assert_eq!(
        parsed.query_pairs,
        vec![("x".to_string(), "1".to_string()), ("y".to_string(), "two words".to_string())]
    );
}

/// Runs every entry of a tar archive through the checks made before it is
/// unpacked: its type, then its path.
fn check_entries(content: &[u8]) -> Result<usize, ArchiveError> {
    let mut archive = tar::Archive::new(std::io::Cursor::new(content));
    let mut checked = 0;
    for entry in archive.entries().expect("readable archive") {
        let entry = entry.expect("readable entry");
        validate_tar_entry_type(entry.header().entry_type().as_byte())?;
        let path = entry.path().expect("entry path");
        validate_tar_entry_path(path.to_str().expect("UTF-8 path"))?;
        checked += 1;
    }
    Ok(checked)
}

fn archive_with_file(path: &str, content: &[u8]) -> Vec<u8> {
    let mut bytes = Vec::new();
    {
        let mut builder = tar::Builder::new(&mut bytes);
        let mut header = tar::Header::new_gnu();
        header.set_size(content.len() as u64);
        header.set_mode(0o644);
        header.set_cksum();
        builder.append_data(&mut header, path, std::io::Cursor::new(content)).expect("append file");
        builder.finish().expect("finish archive");
    }
    bytes
}

fn write_tar_octal(field: &mut [u8], value: u64) {
    let text = format!("{value:0width$o}\0", width = field.len() - 1);
    field.copy_from_slice(text.as_bytes());
}

fn archive_with_raw_file(path: &str, content: &[u8]) -> Vec<u8> {
    let mut header = [0u8; 512];
    header[..path.len()].copy_from_slice(path.as_bytes());
    write_tar_octal(&mut header[100..108], 0o644);
    write_tar_octal(&mut header[108..116], 0);
    write_tar_octal(&mut header[116..124], 0);
    write_tar_octal(&mut header[124..136], content.len() as u64);
    write_tar_octal(&mut header[136..148], 0);
    header[148..156].fill(b' ');
    header[156] = b'0';
    header[257..263].copy_from_slice(b"ustar\0");
    header[263..265].copy_from_slice(b"00");

    let checksum: u32 = header.iter().map(|byte| u32::from(*byte)).sum();
    let checksum = format!("{checksum:06o}\0 ");
    header[148..156].copy_from_slice(checksum.as_bytes());

    let mut archive = Vec::from(header);
    archive.extend_from_slice(content);
    let padding = (512 - (content.len() % 512)) % 512;
    archive.resize(archive.len() + padding, 0);
    archive.resize(archive.len() + 1024, 0);
    archive
}

#[test]
fn safe_unpack_extracts_regular_files() {
    let archive = archive_with_file("pack/config.json", br#"{"keys":[]}"#);

    assert_eq!(check_entries(&archive), Ok(1));
    assert_eq!(validate_tar_entry_type(0), Ok(()));
    assert_eq!(validate_tar_entry_type(b'5'), Ok(()));
    assert_eq!(validate_tar_entry_path("./pack/"), Ok(()));
}

#[test]
fn safe_unpack_rejects_parent_paths() {
    let archive = archive_with_raw_file("../escape.txt", b"bad");

    assert_eq!(check_entries(&archive), Err(ArchiveError::UnsafePath));
    assert_eq!(validate_tar_entry_path("pack/../../escape.txt"), Err(ArchiveError::UnsafePath));
    assert_eq!(validate_tar_entry_path("/etc/passwd"), Err(ArchiveError::UnsafePath));
    assert_eq!(validate_tar_entry_path("."), Err(ArchiveError::EmptyPath));
    assert_eq!(validate_tar_entry_path(""), Err(ArchiveError::EmptyPath));
}

#[test]
fn safe_unpack_rejects_links() {
    let mut bytes = Vec::new();
    {
        let mut builder = tar::Builder::new(&mut bytes);
        let mut header = tar::Header::new_gnu();
        header.set_entry_type(tar::EntryType::Symlink);
        header.set_size(0);
        header.set_mode(0o777);
        header.set_link_name("../escape.txt").expect("link name");
        header.set_cksum();
        builder.append_data(&mut header, "pack/link", std::io::Cursor::new(Vec::<u8>::new())).expect("append symlink");
        builder.finish().expect("finish archive");
    }

    assert_eq!(check_entries(&bytes), Err(ArchiveError::UnsupportedEntryType));
    assert_eq!(validate_tar_entry_type(b'1'), Err(ArchiveError::UnsupportedEntryType));
    assert_eq!(validate_tar_entry_type(b'3'), Err(ArchiveError::UnsupportedEntryType));
}

#[test]
fn archive_size_is_capped_at_ten_mebibytes() {
    assert_eq!(check_content_length(None), Ok(()));
    assert_eq!(check_content_length(Some(MAX_SOUND_ARCHIVE_BYTES as u64)), Ok(()));
    assert_eq!(check_content_length(Some(MAX_SOUND_ARCHIVE_BYTES as u64 + 1)), Err(ArchiveError::LargerThanLimit));
    assert_eq!(next_archive_len(10, 20), Ok(30));
    assert_eq!(next_archive_len(MAX_SOUND_ARCHIVE_BYTES, 1), Err(ArchiveError::LargerThanLimit));
    assert_eq!(next_archive_len(usize::MAX, 1), Err(ArchiveError::TooLarge));
    assert_eq!(ArchiveError::LargerThanLimit.message(), "sound archive is larger than 10 MiB");
}

#[test]
fn pack_names_are_single_directory_names() {
    for raw_url in [
        "https://keyecho.app/packs/a%2Fb.tar",
        "https://keyecho.app/packs/nested/dir/deep.tar",
        "https://keyecho.app/packs/",
        "https://keyecho.app/packs/download?key=k&pack=a/b",
    ] {
        let name = sound_name_from_url(&url(raw_url), false);
        assert!(!name.is_empty(), "{raw_url}");
        assert!(!name.contains('/'), "{raw_url}");
    }
    assert_eq!(sound_name_from_url(&url("https://keyecho.app/packs/nested/dir/deep.tar"), false), "deep");
    assert_eq!(sound_name_from_url(&url("https://keyecho.app/packs/"), false), "Unknown");
}
