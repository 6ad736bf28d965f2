//! Which URLs the app may download sound packs from or open in the browser,
//! and the name a downloaded pack gets.

use vstd::prelude::*;

use crate::text::{
    chars_end_with, chars_of, ends_with_spec, eq_ignore_ascii_case_spec, lemma_split_parts_lack_separator, split_chars,
    split_on, str_eq, str_eq_ignore_ascii_case, string_from_chars,
};

verus! {

/// The parts of a parsed absolute URL that the policies read.
#[derive(Debug)]
pub struct UrlParts {
    /// Lower-case scheme, without `:`.
    pub scheme: String,
    /// The host as written in the serialization, if the URL has one.
    pub host: Option<String>,
    /// The percent-encoded path; starts with `/` unless the URL cannot be a base.
    pub path: String,
    /// The decoded `key=value` pairs of the query, in order.
    pub query_pairs: Vec<(String, String)>,
}

/// The model of `UrlParts`.
pub ghost struct UrlView {
    pub scheme: Seq<char>,
    pub host: Option<Seq<char>>,
    pub path: Seq<char>,
    pub query: Seq<(Seq<char>, Seq<char>)>,
}

pub open spec fn pair_view(p: (String, String)) -> (Seq<char>, Seq<char>) {
    (p.0@, p.1@)
}

pub open spec fn host_view(h: Option<String>) -> Option<Seq<char>> {
    match h {
        Some(s) => Some(s@),
        None => None,
    }
}

impl View for UrlParts {
    type V = UrlView;

    open spec fn view(&self) -> UrlView {
        UrlView {
            scheme: self.scheme@,
            host: host_view(self.host),
            path: self.path@,
            query: self.query_pairs@.map_values(|p: (String, String)| pair_view(p)),
        }
    }
}

/// What `url::Url::parse` (through `reqwest::Url`) makes of `input`, seen
/// through its scheme, host string, path and query pairs; `None` when the
/// input is not an absolute URL.
pub uninterp spec fn spec_parse_url(input: Seq<char>) -> Option<UrlView>;

/// Parses `input` with `reqwest::Url::parse` (the `url` crate's parser) and
/// reads off `scheme()`, `host_str()`, `path()` and `query_pairs()`. The
/// contract claims only that the outcome is the named parse of the input.
#[verifier::external_body]
fn parse_with_url_crate(input: &str) -> (r: Option<UrlParts>)
    ensures
        match r {
            Some(u) => spec_parse_url(input@) == Some(u@),
            None => spec_parse_url(input@) is None,
        },
{
    let url = reqwest::Url::parse(input).ok()?;
    Some(UrlParts {
        scheme: url.scheme().to_string(),
        host: url.host_str().map(|h| h.to_string()),
        path: url.path().to_string(),
        query_pairs: url.query_pairs().map(|(k, v)| (k.into_owned(), v.into_owned())).collect(),
    })
}

impl UrlParts {
    /// Parses an absolute URL; `None` when `input` is not one.
    pub fn parse(input: &str) -> (r: Option<UrlParts>)
        ensures
            match r {
                Some(u) => spec_parse_url(input@) == Some(u@),
                None => spec_parse_url(input@) is None,
            },
    {
        parse_with_url_crate(input)
    }
}

/// Why a URL is refused.
#[derive(Debug, Clone, Copy, PartialEq, Eq, Structural)]
pub enum UrlError {
    DownloadNotHttps,
    DownloadUntrustedSource,
    DownloadMissingPath,
    DownloadNotOfficialRepository,
    DownloadNotOfficialPackPath,
    DownloadNotTarArchive,
    ExternalNotHttps,
    ExternalMissingPath,
    ExternalNotOfficialRepository,
    ExternalHostNotAllowed,
}

/// The message of each error, as shown to the user.
pub open spec fn url_error_message(e: UrlError) -> Seq<char> {
    match e {
        UrlError::DownloadNotHttps => "sound downloads must use HTTPS URLs"@,
        UrlError::DownloadUntrustedSource => "sound downloads must come from an official KeyEcho source"@,
        UrlError::DownloadMissingPath => "sound download URL is missing a path"@,
        UrlError::DownloadNotOfficialRepository => "sound downloads must come from the official repository"@,
        UrlError::DownloadNotOfficialPackPath => "sound downloads must come from the official pack path"@,
        UrlError::DownloadNotTarArchive => "sound downloads must be .tar archives"@,
        UrlError::ExternalNotHttps => "external links must use HTTPS"@,
        UrlError::ExternalMissingPath => "GitHub URL is missing a path"@,
        UrlError::ExternalNotOfficialRepository => "GitHub links must point to the official repository"@,
        UrlError::ExternalHostNotAllowed => "external link host is not allowed"@,
    }
}

impl UrlError {
    /// The message shown to the user.
    pub fn message(&self) -> (r: &'static str)
        ensures
            r@ == url_error_message(*self),
    {
        match self {
            UrlError::DownloadNotHttps => "sound downloads must use HTTPS URLs",
            UrlError::DownloadUntrustedSource => "sound downloads must come from an official KeyEcho source",
            UrlError::DownloadMissingPath => "sound download URL is missing a path",
            UrlError::DownloadNotOfficialRepository => "sound downloads must come from the official repository",
            UrlError::DownloadNotOfficialPackPath => "sound downloads must come from the official pack path",
            UrlError::DownloadNotTarArchive => "sound downloads must be .tar archives",
            UrlError::ExternalNotHttps => "external links must use HTTPS",
            UrlError::ExternalMissingPath => "GitHub URL is missing a path",
            UrlError::ExternalNotOfficialRepository => "GitHub links must point to the official repository",
            UrlError::ExternalHostNotAllowed => "external link host is not allowed",
        }
    }
}

pub const SOUND_DOWNLOAD_HOST: &'static str = "raw.githubusercontent.com";
pub const SOUND_DOWNLOAD_OWNER: &'static str = "ZacharyL2";
pub const SOUND_DOWNLOAD_REPO: &'static str = "KeyEcho";
pub const SOUND_DOWNLOAD_PACKS_PATH: &'static str = "packs";
pub const KEYECHO_APP_HOST: &'static str = "keyecho.app";
pub const KEYECHO_APP_WWW_HOST: &'static str = "www.keyecho.app";
pub const KEYECHO_CDN_HOST: &'static str = "cdn.keyecho.app";
pub const GITHUB_HOST: &'static str = "github.com";

/// The path segments of a URL path (`url::Url::path_segments`): the parts
/// between slashes after the leading `/`, or `None` when the path does not
/// start with `/`.
pub open spec fn path_segments_spec(path: Seq<char>) -> Option<Seq<Seq<char>>> {
    if path.len() > 0 && path[0] == '/' {
        Some(split_on(path.skip(1), '/'))
    } else {
        None
    }
}

/// The path segments of `path`.
pub fn path_segments(path: &str) -> (r: Option<Vec<Vec<char>>>)
    ensures
        match r {
            Some(v) => path_segments_spec(path@) == Some(v@.map_values(|s: Vec<char>| s@)),
            None => path_segments_spec(path@) is None,
        },
{
    let chars = chars_of(path);
    if chars.len() > 0 && chars[0] == '/' {
        let rest = chars_slice_from(chars.as_slice(), 1);
        Some(split_chars(rest.as_slice(), '/'))
    } else {
        None
    }
}

/// The characters of `s` from `start` on.
pub fn chars_slice_from(s: &[char], start: usize) -> (r: Vec<char>)
    requires
        start <= s@.len(),
    ensures
        r@ == s@.skip(start as int),
{
    let mut out: Vec<char> = Vec::new();
    let mut i = start;
    while i < s.len()
        invariant
            start <= i <= s@.len(),
            out@ == s@.subrange(start as int, i as int),
        decreases s@.len() - i,
    {
        out.push(s[i]);
        i += 1;
    }
    assert(out@ =~= s@.skip(start as int));
    out
}

/// A dev-build local URL: `http` or `https` to `localhost` or `127.0.0.1`.
pub open spec fn is_local_dev_url_spec(u: UrlView) -> bool {
    &&& (u.scheme == "http"@ || u.scheme == "https"@)
    &&& (u.host == Some("localhost"@) || u.host == Some("127.0.0.1"@))
}

/// Whether `u` points at the local development store.
pub fn is_local_dev_url(u: &UrlParts) -> (r: bool)
    ensures
        r == is_local_dev_url_spec(u@),
{
    let scheme_ok = str_eq(u.scheme.as_str(), "http") || str_eq(u.scheme.as_str(), "https");
    let host_ok = match &u.host {
        Some(h) => str_eq(h.as_str(), "localhost") || str_eq(h.as_str(), "127.0.0.1"),
        None => false,
    };
    scheme_ok && host_ok
}

/// A repository path `/<owner>/<repo>/...` of the official repository,
/// owner and repository compared up to ASCII case.
pub open spec fn official_repository_spec(segments: Seq<Seq<char>>) -> bool {
    &&& segments.len() > 0
    &&& eq_ignore_ascii_case_spec(segments[0], SOUND_DOWNLOAD_OWNER@)
    &&& segments.len() > 1
    &&& eq_ignore_ascii_case_spec(segments[1], SOUND_DOWNLOAD_REPO@)
}

fn official_repository(segments: &Vec<Vec<char>>) -> (r: bool)
    ensures
        r == official_repository_spec(segments@.map_values(|s: Vec<char>| s@)),
{
    if segments.len() < 2 {
        return false;
    }
    let owner = string_from_chars(segments[0].as_slice());
    let repo = string_from_chars(segments[1].as_slice());
    str_eq_ignore_ascii_case(owner.as_str(), SOUND_DOWNLOAD_OWNER)
        && str_eq_ignore_ascii_case(repo.as_str(), SOUND_DOWNLOAD_REPO)
}

/// The GitHub raw-content check: the path must start with the official
/// owner and repository.
pub open spec fn validate_github_sound_download_url_spec(u: UrlView) -> Result<(), UrlError> {
    match path_segments_spec(u.path) {
        None => Err(UrlError::DownloadMissingPath),
        Some(segments) => if official_repository_spec(segments) {
            Ok(())
        } else {
            Err(UrlError::DownloadNotOfficialRepository)
        },
    }
}

pub fn validate_github_sound_download_url(u: &UrlParts) -> (r: Result<(), UrlError>)
    ensures
        r == validate_github_sound_download_url_spec(u@),
{
    match path_segments(u.path.as_str()) {
        None => Err(UrlError::DownloadMissingPath),
        Some(segments) => if official_repository(&segments) {
            Ok(())
        } else {
            Err(UrlError::DownloadNotOfficialRepository)
        },
    }
}

/// The KeyEcho site check: the first path segment must be exactly `packs`.
pub open spec fn validate_keyecho_sound_download_url_spec(u: UrlView) -> Result<(), UrlError> {
    match path_segments_spec(u.path) {
        None => Err(UrlError::DownloadMissingPath),
        Some(segments) => if segments.len() > 0 && segments[0] == SOUND_DOWNLOAD_PACKS_PATH@ {
            Ok(())
        } else {
            Err(UrlError::DownloadNotOfficialPackPath)
        },
    }
}

pub fn validate_keyecho_sound_download_url(u: &UrlParts) -> (r: Result<(), UrlError>)
    ensures
        r == validate_keyecho_sound_download_url_spec(u@),
{
    match path_segments(u.path.as_str()) {
        None => Err(UrlError::DownloadMissingPath),
        Some(segments) => {
            if segments.len() > 0 {
                let first = string_from_chars(segments[0].as_slice());
                if str_eq(first.as_str(), SOUND_DOWNLOAD_PACKS_PATH) {
                    return Ok(());
                }
            }
            Err(UrlError::DownloadNotOfficialPackPath)
        },
    }
}

/// The value of the first query pair named `key`.
pub open spec fn first_query_value(pairs: Seq<(Seq<char>, Seq<char>)>, key: Seq<char>) -> Option<Seq<char>>
    decreases pairs.len(),
{
    if pairs.len() == 0 {
        None
    } else if pairs[0].0 == key {
        Some(pairs[0].1)
    } else {
        first_query_value(pairs.skip(1), key)
    }
}

/// A character allowed in a pack id: ASCII letter or digit, `-` or `_`.
pub open spec fn is_pack_id_char(c: char) -> bool {
    ('0' <= c <= '9') || ('a' <= c <= 'z') || ('A' <= c <= 'Z') || c == '-' || c == '_'
}

/// A pack id that cannot name anything outside the sounds directory.
pub open spec fn is_safe_pack_id(s: Seq<char>) -> bool {
    s.len() > 0 && forall|i: int| 0 <= i < s.len() ==> is_pack_id_char(#[trigger] s[i])
}

/// The pack a gated download URL (`/packs/download?...&pack=<id>` on the
/// KeyEcho site, or the local store in dev builds) asks for, when its id is
/// safe.
pub open spec fn keyecho_gated_pack_id_spec(u: UrlView, allow_local_dev: bool) -> Option<Seq<char>> {
    match u.host {
        None => None,
        Some(host) => if !(eq_ignore_ascii_case_spec(host, KEYECHO_APP_HOST@)
            || eq_ignore_ascii_case_spec(host, KEYECHO_APP_WWW_HOST@)
            || (allow_local_dev && is_local_dev_url_spec(u))) {
            None
        } else if u.path != "/packs/download"@ {
            None
        } else {
            match first_query_value(u.query, "pack"@) {
                None => None,
                Some(pack) => if is_safe_pack_id(pack) {
                    Some(pack)
                } else {
                    None
                },
            }
        },
    }
}

fn first_query_value_of(pairs: &Vec<(String, String)>, key: &str) -> (r: Option<String>)
    ensures
        match r {
            Some(v) => first_query_value(pairs@.map_values(|p: (String, String)| pair_view(p)), key@) == Some(v@),
            None => first_query_value(pairs@.map_values(|p: (String, String)| pair_view(p)), key@) is None,
        },
{
    let ghost all = pairs@.map_values(|p: (String, String)| pair_view(p));
    let mut i: usize = 0;
    assert(all.skip(0) =~= all);
    while i < pairs.len()
        invariant
            all == pairs@.map_values(|p: (String, String)| pair_view(p)),
            i <= pairs@.len(),
            first_query_value(all.skip(i as int), key@) == first_query_value(all, key@),
        decreases pairs@.len() - i,
    {
        let ghost rest = all.skip(i as int);
        assert(rest[0] == pair_view(pairs@[i as int]));
        assert(rest.skip(1) =~= all.skip(i + 1));
        if str_eq(pairs[i].0.as_str(), key) {
            return Some(pairs[i].1.clone());
        }
        i += 1;
    }
    assert(all.skip(i as int).len() == 0);
    None
}

fn is_safe_pack_id_str(s: &str) -> (r: bool)
    ensures
        r == is_safe_pack_id(s@),
{
    let chars = chars_of(s);
    if chars.len() == 0 {
        return false;
    }
    let mut i: usize = 0;
    while i < chars.len()
        invariant
            chars@ == s@,
            i <= chars@.len(),
            forall|j: int| 0 <= j < i ==> is_pack_id_char(#[trigger] chars@[j]),
        decreases chars@.len() - i,
    {
        let c = chars[i];
        if !(('0' <= c && c <= '9') || ('a' <= c && c <= 'z') || ('A' <= c && c <= 'Z') || c == '-' || c == '_') {
            return false;
        }
        i += 1;
    }
    true
}

/// The pack id of a gated download URL, if it is one.
pub fn keyecho_gated_pack_id(u: &UrlParts, allow_local_dev: bool) -> (r: Option<String>)
    ensures
        match r {
            Some(v) => keyecho_gated_pack_id_spec(u@, allow_local_dev) == Some(v@),
            None => keyecho_gated_pack_id_spec(u@, allow_local_dev) is None,
        },
{
    let host = match &u.host {
        Some(h) => h,
        None => return None,
    };
    if !(str_eq_ignore_ascii_case(host.as_str(), KEYECHO_APP_HOST)
        || str_eq_ignore_ascii_case(host.as_str(), KEYECHO_APP_WWW_HOST)
        || (allow_local_dev && is_local_dev_url(u))) {
        return None;
    }
    if !str_eq(u.path.as_str(), "/packs/download") {
        return None;
    }
    let pack = match first_query_value_of(&u.query_pairs, "pack") {
        Some(p) => p,
        None => return None,
    };
    if is_safe_pack_id_str(pack.as_str()) {
        Some(pack)
    } else {
        None
    }
}

/// The last path segment, when it is not empty.
pub open spec fn sound_archive_filename_spec(u: UrlView) -> Option<Seq<char>> {
    match path_segments_spec(u.path) {
        None => None,
        Some(segments) => if segments.len() > 0 && segments.last().len() > 0 {
            Some(segments.last())
        } else {
            None
        },
    }
}

/// The file name the URL ends with, if any.
pub fn sound_archive_filename(u: &UrlParts) -> (r: Option<String>)
    ensures
        match r {
            Some(v) => sound_archive_filename_spec(u@) == Some(v@),
            None => sound_archive_filename_spec(u@) is None,
        },
{
    match path_segments(u.path.as_str()) {
        None => None,
        Some(segments) => {
            let n = segments.len();
            if n > 0 && segments[n - 1].len() > 0 {
                Some(string_from_chars(segments[n - 1].as_slice()))
            } else {
                None
            }
        },
    }
}

/// The name a downloaded pack is stored under: the gated pack id, else the
/// archive name without `.tar`, else `Unknown`.
pub open spec fn sound_name_from_url_spec(u: UrlView, allow_local_dev: bool) -> Seq<char> {
    match keyecho_gated_pack_id_spec(u, allow_local_dev) {
        Some(pack) => pack,
        None => match sound_archive_filename_spec(u) {
            Some(f) => if ends_with_spec(f, ".tar"@) && f.len() > 4 {
                f.take(f.len() - 4)
            } else {
                "Unknown"@
            },
            None => "Unknown"@,
        },
    }
}

/// The name a pack downloaded from `u` gets.
pub fn sound_name_from_url(u: &UrlParts, allow_local_dev: bool) -> (r: String)
    ensures
        r@ == sound_name_from_url_spec(u@, allow_local_dev),
{
    if let Some(pack) = keyecho_gated_pack_id(u, allow_local_dev) {
        return pack;
    }
    match sound_archive_filename(u) {
        Some(f) => {
            let chars = chars_of(f.as_str());
            let suffix = chars_of(".tar");
            proof { reveal_strlit(".tar"); }
            if chars_end_with(chars.as_slice(), suffix.as_slice()) && chars.len() > 4 {
                let stem = chars_prefix(chars.as_slice(), chars.len() - 4);
                string_from_chars(stem.as_slice())
            } else {
                String::from_str("Unknown")
            }
        },
        None => String::from_str("Unknown"),
    }
}

/// The first `n` characters of `s`.
pub fn chars_prefix(s: &[char], n: usize) -> (r: Vec<char>)
    requires
        n <= s@.len(),
    ensures
        r@ == s@.take(n as int),
{
    let mut out: Vec<char> = Vec::new();
    let mut i: usize = 0;
    while i < n
        invariant
            n <= s@.len(),
            i <= n,
            out@ == s@.take(i as int),
        decreases n - i,
    {
        out.push(s[i]);
        assert(out@ =~= s@.take(i + 1));
        i += 1;
    }
    out
}

/// The download policy: local dev URLs in dev builds; otherwise HTTPS from
/// the official GitHub repository or the KeyEcho site's pack path, naming a
/// gated pack or a `.tar` archive.
pub open spec fn validate_sound_download_url_spec(u: UrlView, allow_local_dev: bool) -> Result<(), UrlError> {
    if allow_local_dev && is_local_dev_url_spec(u) {
        Ok(())
    } else if u.scheme != "https"@ {
        Err(UrlError::DownloadNotHttps)
    } else {
        let source = match u.host {
            Some(host) => if eq_ignore_ascii_case_spec(host, SOUND_DOWNLOAD_HOST@) {
                validate_github_sound_download_url_spec(u)
            } else if eq_ignore_ascii_case_spec(host, KEYECHO_APP_HOST@)
                || eq_ignore_ascii_case_spec(host, KEYECHO_APP_WWW_HOST@)
                || eq_ignore_ascii_case_spec(host, KEYECHO_CDN_HOST@) {
                validate_keyecho_sound_download_url_spec(u)
            } else {
                Err(UrlError::DownloadUntrustedSource)
            },
            None => Err(UrlError::DownloadUntrustedSource),
        };
        match source {
            Err(e) => Err(e),
            Ok(()) => if keyecho_gated_pack_id_spec(u, allow_local_dev) is Some || (match sound_archive_filename_spec(u) {
                Some(f) => ends_with_spec(f, ".tar"@),
                None => false,
            }) {
                Ok(())
            } else {
                Err(UrlError::DownloadNotTarArchive)
            },
        }
    }
}

/// The URL's path starts with the official repository.
pub open spec fn on_official_repository(u: UrlView) -> bool {
    match path_segments_spec(u.path) {
        Some(segments) => official_repository_spec(segments),
        None => false,
    }
}

/// The URL's path starts with the official pack path.
pub open spec fn on_official_pack_path(u: UrlView) -> bool {
    match path_segments_spec(u.path) {
        Some(segments) => segments.len() > 0 && segments[0] == SOUND_DOWNLOAD_PACKS_PATH@,
        None => false,
    }
}

/// The official download sources: GitHub raw content of the official
/// repository, or the pack path of one of the KeyEcho hosts.
pub open spec fn official_download_source(u: UrlView) -> bool {
    match u.host {
        Some(host) => (eq_ignore_ascii_case_spec(host, SOUND_DOWNLOAD_HOST@) && on_official_repository(u))
            || ((eq_ignore_ascii_case_spec(host, KEYECHO_APP_HOST@)
                || eq_ignore_ascii_case_spec(host, KEYECHO_APP_WWW_HOST@)
                || eq_ignore_ascii_case_spec(host, KEYECHO_CDN_HOST@)) && on_official_pack_path(u)),
        None => false,
    }
}

/// The URL names a gated pack or a `.tar` archive.
pub open spec fn names_pack_archive(u: UrlView, allow_local_dev: bool) -> bool {
    keyecho_gated_pack_id_spec(u, allow_local_dev) is Some || match sound_archive_filename_spec(u) {
        Some(f) => ends_with_spec(f, ".tar"@),
        None => false,
    }
}

/// Outside dev builds, every accepted download is HTTPS from an official
/// source and names a gated pack or a `.tar` archive.
pub proof fn lemma_accepted_download_is_official(u: UrlView)
    requires
        validate_sound_download_url_spec(u, false) is Ok,
    ensures
        u.scheme == "https"@,
        official_download_source(u),
        names_pack_archive(u, false),
{
}

/// The official link targets: the KeyEcho site, or the official GitHub
/// repository.
pub open spec fn official_link_target(u: UrlView) -> bool {
    match u.host {
        Some(host) => eq_ignore_ascii_case_spec(host, KEYECHO_APP_HOST@)
            || eq_ignore_ascii_case_spec(host, KEYECHO_APP_WWW_HOST@)
            || (host == GITHUB_HOST@ && on_official_repository(u)),
        None => false,
    }
}

/// Outside dev builds, every link the app opens is HTTPS to an official
/// target.
pub proof fn lemma_opened_link_is_official(u: UrlView)
    requires
        validate_external_url_spec(u, false) is Ok,
    ensures
        u.scheme == "https"@,
        official_link_target(u),
{
}

/// A gated pack id only holds letters, digits, `-` and `_`, so the pack's
/// name cannot point outside the sounds directory.
pub proof fn lemma_gated_pack_id_is_safe(u: UrlView, allow_local_dev: bool)
    requires
        keyecho_gated_pack_id_spec(u, allow_local_dev) is Some,
    ensures
        is_safe_pack_id(keyecho_gated_pack_id_spec(u, allow_local_dev)->0),
{
}

/// The name a downloaded pack gets is one non-empty directory name: it never
/// holds a `/`, so the pack lands directly in the sounds directory.
pub proof fn lemma_pack_name_is_one_component(u: UrlView, allow_local_dev: bool)
    ensures
        sound_name_from_url_spec(u, allow_local_dev).len() > 0,
        forall|i: int| 0 <= i < sound_name_from_url_spec(u, allow_local_dev).len()
            ==> #[trigger] sound_name_from_url_spec(u, allow_local_dev)[i] != '/',
{
    reveal_strlit("Unknown");
    let name = sound_name_from_url_spec(u, allow_local_dev);
    match keyecho_gated_pack_id_spec(u, allow_local_dev) {
        Some(pack) => {
            assert forall|i: int| 0 <= i < name.len() implies #[trigger] name[i] != '/' by {
                assert(is_pack_id_char(pack[i]));
            }
        },
        None => match sound_archive_filename_spec(u) {
            Some(f) => {
                let segments = split_on(u.path.skip(1), '/');
                lemma_split_parts_lack_separator(u.path.skip(1), '/');
                assert(f == segments[segments.len() - 1]);
                if ends_with_spec(f, ".tar"@) && f.len() > 4 {
                    assert forall|i: int| 0 <= i < name.len() implies #[trigger] name[i] != '/' by {
                        assert(name[i] == f[i]);
                    }
                }
            },
            None => {},
        },
    }
}

/// The first query pair named `key` is the one at `i`.
pub proof fn lemma_first_query_value_at(pairs: Seq<(Seq<char>, Seq<char>)>, key: Seq<char>, i: int)
    requires
        0 <= i < pairs.len(),
        pairs[i].0 == key,
        forall|j: int| 0 <= j < i ==> (#[trigger] pairs[j]).0 != key,
    ensures
        first_query_value(pairs, key) == Some(pairs[i].1),
    decreases i,
{
    if i > 0 {
        let rest = pairs.skip(1);
        assert forall|j: int| 0 <= j < i - 1 implies (#[trigger] rest[j]).0 != key by {
            assert(rest[j] == pairs[j + 1]);
        }
        assert(rest[i - 1] == pairs[i]);
        assert(pairs[0].0 != key);
        lemma_first_query_value_at(rest, key, i - 1);
    }
}

/// A gated download is recognised on both KeyEcho hosts, `keyecho.app` and
/// `www.keyecho.app`, in any ASCII case: when the path is `/packs/download`
/// and the first `pack` query pair holds letters, digits, `-` and `_` only,
/// that value is the pack's id and the downloaded pack's name, and over
/// HTTPS the download is accepted.
pub proof fn lemma_gated_download_on_keyecho_hosts(u: UrlView, allow_local_dev: bool, i: int)
    requires
        u.host is Some,
        eq_ignore_ascii_case_spec(u.host->0, "keyecho.app"@) || eq_ignore_ascii_case_spec(u.host->0, "www.keyecho.app"@),
        u.path == "/packs/download"@,
        0 <= i < u.query.len(),
        u.query[i].0 == "pack"@,
        forall|j: int| 0 <= j < i ==> (#[trigger] u.query[j]).0 != "pack"@,
        u.query[i].1.len() > 0,
        forall|k: int| 0 <= k < u.query[i].1.len() ==> {
            let c = #[trigger] u.query[i].1[k];
            ('0' <= c <= '9') || ('a' <= c <= 'z') || ('A' <= c <= 'Z') || c == '-' || c == '_'
        },
    ensures
        keyecho_gated_pack_id_spec(u, allow_local_dev) == Some(u.query[i].1),
        sound_name_from_url_spec(u, allow_local_dev) == u.query[i].1,
        u.scheme == "https"@ ==> validate_sound_download_url_spec(u, allow_local_dev) is Ok,
{
    reveal_strlit("/packs/download");
    reveal_strlit("packs");
    reveal_strlit("keyecho.app");
    reveal_strlit("www.keyecho.app");
    reveal_strlit("raw.githubusercontent.com");
    lemma_first_query_value_at(u.query, "pack"@, i);
    let pack = u.query[i].1;
    assert(is_safe_pack_id(pack));
    let rest = u.path.skip(1);
    assert(rest =~= "packs/download"@.skip(0)) by {
        reveal_strlit("packs/download");
        assert(rest =~= "packs/download"@);
    }
    reveal_strlit("packs/download");
    assert(rest[5] == '/');
    assert forall|k: int| 0 <= k < 5 implies rest[k] != '/' by {}
    crate::text::lemma_find_char(rest, '/', 5);
    assert(rest.take(5) =~= "packs"@);
    let host = u.host->0;
    assert(!eq_ignore_ascii_case_spec(host, "raw.githubusercontent.com"@));
}

/// Whether the app may download a sound pack from `u`, and why not.
pub fn validate_sound_download_url(u: &UrlParts, allow_local_dev: bool) -> (r: Result<(), UrlError>)
    ensures
        r == validate_sound_download_url_spec(u@, allow_local_dev),
{
    if allow_local_dev && is_local_dev_url(u) {
        return Ok(());
    }
    if !str_eq(u.scheme.as_str(), "https") {
        return Err(UrlError::DownloadNotHttps);
    }
    let source = match &u.host {
        Some(host) => if str_eq_ignore_ascii_case(host.as_str(), SOUND_DOWNLOAD_HOST) {
            validate_github_sound_download_url(u)
        } else if str_eq_ignore_ascii_case(host.as_str(), KEYECHO_APP_HOST)
            || str_eq_ignore_ascii_case(host.as_str(), KEYECHO_APP_WWW_HOST)
            || str_eq_ignore_ascii_case(host.as_str(), KEYECHO_CDN_HOST) {
            validate_keyecho_sound_download_url(u)
        } else {
            Err(UrlError::DownloadUntrustedSource)
        },
        None => Err(UrlError::DownloadUntrustedSource),
    };
    if let Err(e) = source {
        return Err(e);
    }
    if keyecho_gated_pack_id(u, allow_local_dev).is_some() {
        return Ok(());
    }
    let is_tar = match sound_archive_filename(u) {
        Some(f) => {
            let chars = chars_of(f.as_str());
            let suffix = chars_of(".tar");
            chars_end_with(chars.as_slice(), suffix.as_slice())
        },
        None => false,
    };
    if is_tar {
        Ok(())
    } else {
        Err(UrlError::DownloadNotTarArchive)
    }
}

/// The link policy: local dev URLs in dev builds; otherwise HTTPS to the
/// KeyEcho site or to the official GitHub repository.
pub open spec fn validate_external_url_spec(u: UrlView, allow_local_dev: bool) -> Result<(), UrlError> {
    if allow_local_dev && is_local_dev_url_spec(u) {
        Ok(())
    } else if u.scheme != "https"@ {
        Err(UrlError::ExternalNotHttps)
    } else {
        match u.host {
            Some(host) => if eq_ignore_ascii_case_spec(host, KEYECHO_APP_HOST@)
                || eq_ignore_ascii_case_spec(host, KEYECHO_APP_WWW_HOST@) {
                Ok(())
            } else if host == GITHUB_HOST@ {
                match path_segments_spec(u.path) {
                    None => Err(UrlError::ExternalMissingPath),
                    Some(segments) => if official_repository_spec(segments) {
                        Ok(())
                    } else {
                        Err(UrlError::ExternalNotOfficialRepository)
                    },
                }
            } else {
                Err(UrlError::ExternalHostNotAllowed)
            },
            None => Err(UrlError::ExternalHostNotAllowed),
        }
    }
}

/// Whether the app may open `u` in the system browser, and why not.
pub fn validate_external_url(u: &UrlParts, allow_local_dev: bool) -> (r: Result<(), UrlError>)
    ensures
        r == validate_external_url_spec(u@, allow_local_dev),
{
    if allow_local_dev && is_local_dev_url(u) {
        return Ok(());
    }
    if !str_eq(u.scheme.as_str(), "https") {
        return Err(UrlError::ExternalNotHttps);
    }
    match &u.host {
        Some(host) => if str_eq_ignore_ascii_case(host.as_str(), KEYECHO_APP_HOST)
            || str_eq_ignore_ascii_case(host.as_str(), KEYECHO_APP_WWW_HOST) {
            Ok(())
        } else if str_eq(host.as_str(), GITHUB_HOST) {
            match path_segments(u.path.as_str()) {
                None => Err(UrlError::ExternalMissingPath),
                Some(segments) => if official_repository(&segments) {
                    Ok(())
                } else {
                    Err(UrlError::ExternalNotOfficialRepository)
                },
            }
        } else {
            Err(UrlError::ExternalHostNotAllowed)
        },
        None => Err(UrlError::ExternalHostNotAllowed),
    }
}

} // verus!
