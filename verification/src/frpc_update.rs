//! Self-update of the frpc engine: GitHub release, SHA-256 check, extraction of
//! frpc from the `.tar.gz`, a pending binary, and the swap at the next launch.
//!
//! The application keeps `current` and `pending` in `frpc_update.json`; this
//! module holds the decisions and the text work, the application the network
//! and the files.

use sha2::Digest;
use std::io::Read;
use vstd::prelude::*;
use crate::text::{
    chars_of, content_end, line_end, push_str, range_eq, scan_line, str_eq, string_from_range, trim_leading_v,
    trim_v,
};

verus! {

/// The frpc version bundled with the application.
pub const BUNDLED_FRPC_VERSION: &'static str = "0.69.1";

/// Host of the frp release downloads.
pub const FRP_DOWNLOAD_HOST: &'static str = "https://github.com/fatedier/frp/releases/download";

/// A downloaded update that waits for the next launch.
#[derive(Clone, Debug)]
pub struct PendingUpdate {
    pub version: String,
    pub path: String,
}

/// The update state file: the installed version and the pending update.
#[derive(Clone, Debug)]
pub struct UpdateState {
    pub current: String,
    pub pending: Option<PendingUpdate>,
}

/// What the update check reports to the front end.
#[derive(Clone, Debug)]
pub struct UpdateInfo {
    pub current_version: String,
    pub latest_version: String,
    pub release_notes: String,
    pub asset_name: String,
    pub asset_size: u64,
}

/// One asset of a GitHub release.
#[derive(Clone, Debug)]
pub struct GithubAsset {
    pub name: String,
    pub size: u64,
}

/// The pending update's version and path, as text.
pub open spec fn pending_view(p: Option<PendingUpdate>) -> Option<(Seq<char>, Seq<char>)> {
    match p {
        Some(u) => Some((u.version@, u.path@)),
        None => None,
    }
}

impl UpdateState {
    /// The state when no state file exists: the bundled version, nothing pending.
    pub fn initial() -> (r: UpdateState)
        ensures
            r.current@ == BUNDLED_FRPC_VERSION@,
            r.pending is None,
    {
        UpdateState { current: String::from_str(BUNDLED_FRPC_VERSION), pending: None }
    }

    /// The state as read from the file, with an empty `current` replaced by the
    /// bundled version.
    pub fn normalized(self) -> (r: UpdateState)
        ensures
            r.current@ == (if self.current@.len() == 0 { BUNDLED_FRPC_VERSION@ } else { self.current@ }),
            r.pending == self.pending,
    {
        if self.current.as_str().is_empty() {
            UpdateState { current: String::from_str(BUNDLED_FRPC_VERSION), pending: self.pending }
        } else {
            self
        }
    }

    /// Records a downloaded update as pending.
    pub fn set_pending(&mut self, version: String, path: String)
        ensures
            pending_rel(*old(self), *final(self), version@, path@),
    {
        self.pending = Some(PendingUpdate { version, path });
    }

    /// Forgets the pending update (its binary is gone).
    pub fn clear_pending(&mut self)
        ensures
            final(self).current == old(self).current,
            final(self).pending is None,
    {
        self.pending = None;
    }

    /// Installs the pending update in the state: its version becomes the
    /// current one and nothing is pending. Returns the installed version, or
    /// `None` (and no change) when nothing was pending.
    pub fn commit_pending(&mut self) -> (r: Option<String>)
        ensures
            commit_rel(*old(self), *final(self), opt_text(r)),
    {
        match self.pending.take() {
            Some(p) => {
                self.current = p.version.clone();
                Some(p.version)
            },
            None => None,
        }
    }
}

/// What `set_pending(version, path)` does to the state.
pub open spec fn pending_rel(old: UpdateState, new: UpdateState, version: Seq<char>, path: Seq<char>) -> bool {
    &&& new.current == old.current
    &&& pending_view(new.pending) == Some((version, path))
}

/// What `commit_pending` does to the state; `r` is the installed version.
pub open spec fn commit_rel(old: UpdateState, new: UpdateState, r: Option<Seq<char>>) -> bool {
    match pending_view(old.pending) {
        Some((v, _)) => r == Some(v) && new.current@ == v && new.pending is None,
        None => r is None && new.current == old.current && new.pending is None,
    }
}

/// Law: a recorded download is what the next launch installs: after
/// `set_pending(v, p)`, committing makes `v` the current version, reports it,
/// and leaves nothing pending.
pub proof fn law_pending_then_commit(
    s0: UpdateState,
    s1: UpdateState,
    s2: UpdateState,
    v: Seq<char>,
    p: Seq<char>,
    r: Option<Seq<char>>,
)
    requires
        pending_rel(s0, s1, v, p),
        commit_rel(s1, s2, r),
    ensures
        s2.current@ == v,
        s2.pending is None,
        r == Some(v),
{
}

/// The frp release naming of an operating system and architecture
/// (`std::env::consts` values).
pub open spec fn release_os(os: Seq<char>) -> Option<Seq<char>> {
    if os == "macos"@ {
        Some("darwin"@)
    } else if os == "windows"@ {
        Some("windows"@)
    } else if os == "linux"@ {
        Some("linux"@)
    } else {
        None
    }
}

/// The frp release naming of an architecture.
pub open spec fn release_arch(arch: Seq<char>) -> Option<Seq<char>> {
    if arch == "aarch64"@ {
        Some("arm64"@)
    } else if arch == "x86_64"@ {
        Some("amd64"@)
    } else {
        None
    }
}

/// The message for a platform that frp publishes no release asset for: the
/// operating system is named when it is unknown, otherwise the architecture.
pub open spec fn platform_rejection(os: Seq<char>, arch: Seq<char>) -> Seq<char> {
    if release_os(os) is None {
        "不支持的操作系统: "@ + os
    } else {
        "不支持的架构: "@ + arch
    }
}

/// The `(os, arch)` part of frp's release asset names (e.g. `darwin`, `arm64`),
/// or the message for an unsupported platform.
pub fn platform_asset_suffix(os: &str, arch: &str) -> (r: Result<(&'static str, &'static str), String>)
    ensures
        match r {
            Ok((o, a)) => release_os(os@) == Some(o@) && release_arch(arch@) == Some(a@),
            Err(e) => (release_os(os@) is None || release_arch(arch@) is None) && e@ == platform_rejection(
                os@,
                arch@,
            ),
        },
{
    let o = if str_eq(os, "macos") {
        "darwin"
    } else if str_eq(os, "windows") {
        "windows"
    } else if str_eq(os, "linux") {
        "linux"
    } else {
        let mut e = String::from_str("不支持的操作系统: ");
        push_str(&mut e, os);
        return Err(e);
    };
    let a = if str_eq(arch, "aarch64") {
        "arm64"
    } else if str_eq(arch, "x86_64") {
        "amd64"
    } else {
        let mut e = String::from_str("不支持的架构: ");
        push_str(&mut e, arch);
        return Err(e);
    };
    Ok((o, a))
}

/// The target triple under which the bundled frpc is packaged.
pub open spec fn sidecar_triple(os: Seq<char>, arch: Seq<char>) -> Option<Seq<char>> {
    if os == "macos"@ && arch == "aarch64"@ {
        Some("aarch64-apple-darwin"@)
    } else if os == "macos"@ && arch == "x86_64"@ {
        Some("x86_64-apple-darwin"@)
    } else if os == "windows"@ && arch == "x86_64"@ {
        Some("x86_64-pc-windows-msvc"@)
    } else if os == "windows"@ && arch == "aarch64"@ {
        Some("aarch64-pc-windows-msvc"@)
    } else if os == "linux"@ && arch == "x86_64"@ {
        Some("x86_64-unknown-linux-gnu"@)
    } else if os == "linux"@ && arch == "aarch64"@ {
        Some("aarch64-unknown-linux-gnu"@)
    } else {
        None
    }
}

/// The file name of the packaged frpc (e.g. `frpc-aarch64-apple-darwin`,
/// with `.exe` on Windows), or the message for an unsupported platform.
pub fn sidecar_target_name(os: &str, arch: &str) -> (r: Result<String, String>)
    ensures
        match sidecar_triple(os@, arch@) {
            Some(t) => r matches Ok(n) && n@ == "frpc-"@ + t + (if os@ == "windows"@ {
                ".exe"@
            } else {
                ""@
            }),
            None => r matches Err(e) && e@ == "不支持的平台 "@ + os@ + "/"@ + arch@,
        },
{
    let mac = str_eq(os, "macos");
    let win = str_eq(os, "windows");
    let lin = str_eq(os, "linux");
    let arm = str_eq(arch, "aarch64");
    let x64 = str_eq(arch, "x86_64");
    let target = if mac && arm {
        "aarch64-apple-darwin"
    } else if mac && x64 {
        "x86_64-apple-darwin"
    } else if win && x64 {
        "x86_64-pc-windows-msvc"
    } else if win && arm {
        "aarch64-pc-windows-msvc"
    } else if lin && x64 {
        "x86_64-unknown-linux-gnu"
    } else if lin && arm {
        "aarch64-unknown-linux-gnu"
    } else {
        let mut e = String::from_str("不支持的平台 ");
        push_str(&mut e, os);
        push_str(&mut e, "/");
        push_str(&mut e, arch);
        return Err(e);
    };
    let mut name = String::from_str("frpc-");
    push_str(&mut name, target);
    push_str(&mut name, if win { ".exe" } else { "" });
    Ok(name)
}

/// The release asset name for version text `v` (leading `v`s removed).
pub open spec fn asset_name_for(v: Seq<char>, os: Seq<char>, arch: Seq<char>) -> Seq<char> {
    "frp_"@ + v + "_"@ + os + "_"@ + arch + ".tar.gz"@
}

/// `(asset_name, asset_url, checksums_url)` of frp release `version` for this
/// platform; a leading `v` of the version is dropped.
pub fn asset_urls(version: &str, os: &str, arch: &str) -> (r: Result<(String, String, String), String>)
    ensures
        match (release_os(os@), release_arch(arch@)) {
            (Some(o), Some(a)) => r matches Ok((name, url, sums)) && {
                let v = trim_leading_v(version@);
                &&& name@ == asset_name_for(v, o, a)
                &&& url@ == FRP_DOWNLOAD_HOST@ + "/v"@ + v + "/"@ + name@
                &&& sums@ == FRP_DOWNLOAD_HOST@ + "/v"@ + v + "/frp_"@ + v + "_checksums.txt"@
            },
            _ => r matches Err(e) && e@ == platform_rejection(os@, arch@),
        },
{
    let (o, a) = match platform_asset_suffix(os, arch) {
        Ok(p) => p,
        Err(e) => return Err(e),
    };
    let v = trim_v(version);
    let mut name = String::from_str("frp_");
    push_str(&mut name, v.as_str());
    push_str(&mut name, "_");
    push_str(&mut name, o);
    push_str(&mut name, "_");
    push_str(&mut name, a);
    push_str(&mut name, ".tar.gz");
    let mut url = String::from_str(FRP_DOWNLOAD_HOST);
    push_str(&mut url, "/v");
    push_str(&mut url, v.as_str());
    push_str(&mut url, "/");
    push_str(&mut url, name.as_str());
    let mut sums = String::from_str(FRP_DOWNLOAD_HOST);
    push_str(&mut sums, "/v");
    push_str(&mut sums, v.as_str());
    push_str(&mut sums, "/frp_");
    push_str(&mut sums, v.as_str());
    push_str(&mut sums, "_checksums.txt");
    Ok((name, url, sums))
}

/// The file name of a pending frpc binary of version `v`.
pub fn pending_file_name(v: &str, os: &str) -> (r: String)
    ensures
        r@ == "frpc_pending_"@ + v@ + (if os@ == "windows"@ { ".exe"@ } else { ""@ }),
{
    let mut s = String::from_str("frpc_pending_");
    push_str(&mut s, v);
    push_str(&mut s, if str_eq(os, "windows") { ".exe" } else { "" });
    s
}

} // verus!

verus! {

/// Whether the character has the Unicode `White_Space` property: the
/// characters U+0009 to U+000D, U+0020, U+0085, U+00A0, U+1680, U+2000 to
/// U+200A, U+2028, U+2029, U+202F, U+205F and U+3000.
pub open spec fn white_space(c: char) -> bool {
    let n = c as int;
    ||| 0x09 <= n <= 0x0d
    ||| n == 0x20
    ||| n == 0x85
    ||| n == 0xa0
    ||| n == 0x1680
    ||| 0x2000 <= n <= 0x200a
    ||| n == 0x2028
    ||| n == 0x2029
    ||| n == 0x202f
    ||| n == 0x205f
    ||| n == 0x3000
}

/// `char::is_whitespace`, which std documents as the Unicode `White_Space`
/// property. Claimed: the answer is `white_space(c)`.
#[verifier::external_body]
fn is_whitespace(c: char) -> (r: bool)
    ensures
        r == white_space(c),
{
    c.is_whitespace()
}

/// What `str::to_lowercase` returns for a text (Unicode lower-casing).
pub uninterp spec fn lowercase(s: Seq<char>) -> Seq<char>;

/// `str::to_lowercase`. Claimed: the result is `lowercase(s)`, a function of
/// `s` alone; the Unicode case mapping itself is not stated here.
#[verifier::external_body]
fn to_lowercase(s: &str) -> (r: String)
    ensures
        r@ == lowercase(s@),
{
    s.to_lowercase()
}

/// First index at or after `i`, before `end`, of a non-whitespace character
/// (`end` when there is none).
pub open spec fn skip_space(s: Seq<char>, i: int, end: int) -> int
    decreases end - i,
{
    if i >= end || !white_space(s[i]) {
        i
    } else {
        skip_space(s, i + 1, end)
    }
}

/// First index at or after `i`, before `end`, of a whitespace character
/// (`end` when there is none).
pub open spec fn skip_word(s: Seq<char>, i: int, end: int) -> int
    decreases end - i,
{
    if i >= end || white_space(s[i]) {
        i
    } else {
        skip_word(s, i + 1, end)
    }
}

/// The hash given by the line `s[start..end]` for `asset`: when its first two
/// whitespace-separated fields exist and the second is `asset`, the first,
/// lower-cased.
pub open spec fn line_checksum(s: Seq<char>, start: int, end: int, asset: Seq<char>) -> Option<Seq<char>> {
    let h0 = skip_space(s, start, end);
    let h1 = skip_word(s, h0, end);
    let n0 = skip_space(s, h1, end);
    let n1 = skip_word(s, n0, end);
    if h0 < end && n0 < end && s.subrange(n0, n1) == asset {
        Some(lowercase(s.subrange(h0, h1)))
    } else {
        None
    }
}

/// The scans stay within their bounds.
pub proof fn lemma_scan_bounds(s: Seq<char>, i: int, end: int)
    requires
        0 <= i,
        end <= s.len(),
    ensures
        i <= end ==> i <= skip_space(s, i, end) <= end,
        i <= end ==> i <= skip_word(s, i, end) <= end,
        i <= s.len() ==> i <= line_end(s, i) <= s.len(),
    decreases s.len() - i,
{
    if i < s.len() {
        lemma_scan_bounds(s, i + 1, end);
    }
}

/// The checksum for `asset` in the lines of `s` from index `i` on: the first
/// line that names it decides.
pub open spec fn checksum_from(s: Seq<char>, i: int, asset: Seq<char>) -> Option<Seq<char>>
    decreases s.len() + 1 - i,
{
    if i < 0 || i >= s.len() {
        None
    } else {
        proof {
            lemma_scan_bounds(s, i, s.len() as int);
        }
        let e = line_end(s, i);
        match line_checksum(s, i, content_end(s, i, e), asset) {
            Some(h) => Some(h),
            None => checksum_from(s, e + 1, asset),
        }
    }
}

fn scan_space(s: &Vec<char>, i: usize, end: usize) -> (r: usize)
    requires
        i <= end <= s@.len(),
    ensures
        r == skip_space(s@, i as int, end as int),
{
    let mut j = i;
    while j < end && is_whitespace(s[j])
        invariant
            i <= j <= end <= s@.len(),
            skip_space(s@, i as int, end as int) == skip_space(s@, j as int, end as int),
        decreases end - j,
    {
        j = j + 1;
    }
    j
}

fn scan_word(s: &Vec<char>, i: usize, end: usize) -> (r: usize)
    requires
        i <= end <= s@.len(),
    ensures
        r == skip_word(s@, i as int, end as int),
{
    let mut j = i;
    while j < end && !is_whitespace(s[j])
        invariant
            i <= j <= end <= s@.len(),
            skip_word(s@, i as int, end as int) == skip_word(s@, j as int, end as int),
        decreases end - j,
    {
        j = j + 1;
    }
    j
}

/// Finds the SHA-256 hash of `asset_name` in a `checksums.txt` text: the first
/// line whose first two whitespace-separated fields are a hash and that name
/// gives the hash, lower-cased.
pub fn parse_checksums(content: &str, asset_name: &str) -> (r: Option<String>)
    ensures
        match checksum_from(content@, 0, asset_name@) {
            Some(h) => r matches Some(x) && x@ == h,
            None => r is None,
        },
{
    let s = chars_of(content);
    let asset = chars_of(asset_name);
    let mut i: usize = 0;
    while i < s.len()
        invariant
            s@ == content@,
            asset@ == asset_name@,
            0 <= i <= s@.len(),
            checksum_from(s@, 0, asset@) == checksum_from(s@, i as int, asset@),
        decreases s@.len() - i,
    {
        let e = scan_line(&s, i);
        proof {
            lemma_scan_bounds(s@, i as int, s@.len() as int);
        }
        let c = if e < s.len() && e > i && s[e - 1] == '\r' { e - 1 } else { e };
        proof {
            lemma_scan_bounds(s@, i as int, c as int);
        }
        let h0 = scan_space(&s, i, c);
        proof {
            lemma_scan_bounds(s@, h0 as int, c as int);
        }
        let h1 = scan_word(&s, h0, c);
        proof {
            lemma_scan_bounds(s@, h1 as int, c as int);
        }
        let n0 = scan_space(&s, h1, c);
        proof {
            lemma_scan_bounds(s@, n0 as int, c as int);
        }
        let n1 = scan_word(&s, n0, c);
        if h0 < c && n0 < c && range_eq(&s, n0, n1, &asset) {
            let hash = string_from_range(&s, h0, h1);
            return Some(to_lowercase(hash.as_str()));
        }
        assert(c == content_end(s@, i as int, e as int));
        assert(line_checksum(s@, i as int, c as int, asset@) is None);
        assert(checksum_from(s@, i as int, asset@) == checksum_from(s@, e + 1, asset@));
        if e >= s.len() {
            assert(checksum_from(s@, e + 1, asset@) is None);
            return None;
        }
        i = e + 1;
    }
    None
}

/// What SHA-256 gives for some bytes.
pub uninterp spec fn sha256_digest(data: Seq<u8>) -> Seq<u8>;

/// SHA-256 of `data` with `sha2::Sha256` (`new`, `update`, `finalize`).
/// Claimed: the digest is `sha256_digest(data)`, a function of the bytes alone,
/// and has 32 bytes (the output size of SHA-256); the hash function itself is
/// not stated here.
#[verifier::external_body]
fn sha256(data: &[u8]) -> (r: Vec<u8>)
    ensures
        r@ == sha256_digest(data@),
        r@.len() == 32,
{
    let mut hasher = sha2::Sha256::new();
    hasher.update(data);
    hasher.finalize().to_vec()
}

/// The lowercase hex digit of a value below 16.
pub open spec fn hex_digit(n: u8) -> char {
    if n < 10 {
        ((n as u32) + ('0' as u32)) as char
    } else {
        ((n as u32) - 10 + ('a' as u32)) as char
    }
}

/// The lowercase hex text of some bytes, two digits per byte, high nibble first.
pub open spec fn lower_hex(data: Seq<u8>) -> Seq<char>
    decreases data.len(),
{
    if data.len() == 0 {
        seq![]
    } else {
        lower_hex(data.drop_last()) + seq![hex_digit(data.last() / 16), hex_digit(data.last() % 16)]
    }
}

/// `hex::encode`. Claimed, as its source shows: each byte becomes two
/// lowercase hex digits from `"0123456789abcdef"`, high nibble first.
#[verifier::external_body]
fn hex_encode(data: &[u8]) -> (r: String)
    ensures
        r@ == lower_hex(data@),
{
    hex::encode(data)
}

/// The lowercase hex SHA-256 of `data`.
pub fn sha256_hex(data: &[u8]) -> (r: String)
    ensures
        r@ == lower_hex(sha256_digest(data@)),
{
    let digest = sha256(data);
    hex_encode(digest.as_slice())
}

} // verus!

verus! {

/// One member of a tar archive: its file name (when it has one that is valid
/// UTF-8) and its bytes.
#[derive(Clone, Debug)]
pub struct TarMember {
    pub name: Option<String>,
    pub data: Vec<u8>,
}

/// The name and bytes of a member.
pub open spec fn member_view(m: TarMember) -> (Option<Seq<char>>, Seq<u8>) {
    (
        match m.name {
            Some(n) => Some(n@),
            None => None,
        },
        m.data@,
    )
}

/// An optional text, by its view.
pub open spec fn opt_text(t: Option<String>) -> Option<Seq<char>> {
    match t {
        Some(s) => Some(s@),
        None => None,
    }
}

/// What reading a `.tar.gz` gives: its members in archive order, up to the
/// first one that could not be read, and the error text that ended the
/// reading early (if one did).
pub uninterp spec fn gz_tar_listing(archive: Seq<u8>) -> (Seq<(Option<Seq<char>>, Seq<u8>)>, Option<Seq<char>>);

/// Reads a `.tar.gz` with `flate2::read::GzDecoder` and `tar::Archive`
/// (`entries`, `Entry::path`, `Read::read_to_end`). Claimed: the members and
/// the error are `gz_tar_listing(archive)`, a function of the bytes alone.
/// Every member's bytes are read, not only those of the member that is looked
/// for.
#[verifier::external_body]
fn read_gz_tar(archive: &[u8]) -> (r: (Vec<TarMember>, Option<String>))
    ensures
        (r.0@.map_values(|m: TarMember| member_view(m)), opt_text(r.1)) == gz_tar_listing(archive@),
{
    let mut members = Vec::new();
    let mut tar = tar::Archive::new(flate2::read::GzDecoder::new(archive));
    let entries = match tar.entries() { Ok(it) => it, Err(e) => return (members, Some(e.to_string())) };
    for item in entries {
        match item.and_then(|mut en| {
            let name = en.path()?.file_name().and_then(|n| n.to_str()).map(|n| n.to_string());
            let mut data = Vec::new();
            en.read_to_end(&mut data).map(|_| TarMember { name, data })
        }) {
            Ok(m) => members.push(m),
            Err(e) => return (members, Some(e.to_string())),
        }
    }
    (members, None)
}

/// Whether a member name is that of the frpc binary.
pub open spec fn is_frpc_file(name: Option<Seq<char>>) -> bool {
    name == Some("frpc"@) || name == Some("frpc.exe"@)
}

/// The message when the archive holds no frpc.
pub open spec fn no_frpc_message() -> Seq<char> {
    "压缩包中未找到 frpc"@
}

/// The bytes of the first member named `frpc` or `frpc.exe`; failing that, the
/// reading error, else the message that no frpc was found.
pub open spec fn pick_frpc(members: Seq<(Option<Seq<char>>, Seq<u8>)>, failure: Option<Seq<char>>) -> Result<Seq<u8>, Seq<char>>
    decreases members.len(),
{
    if members.len() == 0 {
        match failure {
            Some(e) => Err(e),
            None => Err(no_frpc_message()),
        }
    } else if is_frpc_file(members[0].0) {
        Ok(members[0].1)
    } else {
        pick_frpc(members.drop_first(), failure)
    }
}

/// The view of a byte result.
pub open spec fn bytes_result(r: Result<Vec<u8>, String>) -> Result<Seq<u8>, Seq<char>> {
    match r {
        Ok(b) => Ok(b@),
        Err(e) => Err(e@),
    }
}

fn is_frpc_member(name: &Option<String>) -> (r: bool)
    ensures
        r == is_frpc_file(opt_text(*name)),
{
    match name {
        Some(n) => str_eq(n.as_str(), "frpc") || str_eq(n.as_str(), "frpc.exe"),
        None => false,
    }
}

fn find_frpc(members: &Vec<TarMember>) -> (r: Option<usize>)
    ensures
        match r {
            Some(k) => k < members@.len() && is_frpc_file(member_view(members@[k as int]).0)
                && forall|j: int| 0 <= j < k ==> !is_frpc_file(#[trigger] member_view(members@[j]).0),
            None => forall|j: int| 0 <= j < members@.len() ==> !is_frpc_file(#[trigger] member_view(members@[j]).0),
        },
{
    let mut i: usize = 0;
    while i < members.len()
        invariant
            0 <= i <= members@.len(),
            forall|j: int| 0 <= j < i ==> !is_frpc_file(#[trigger] member_view(members@[j]).0),
        decreases members@.len() - i,
    {
        if is_frpc_member(&members[i].name) {
            return Some(i);
        }
        i = i + 1;
    }
    None
}

proof fn lemma_pick_frpc(all: Seq<(Option<Seq<char>>, Seq<u8>)>, failure: Option<Seq<char>>, k: int)
    requires
        0 <= k <= all.len(),
        forall|j: int| 0 <= j < k ==> !is_frpc_file(#[trigger] all[j].0),
    ensures
        pick_frpc(all, failure) == pick_frpc(all.skip(k), failure),
    decreases k,
{
    if k > 0 {
        lemma_pick_frpc(all.drop_first(), failure, k - 1);
        assert(all.drop_first().skip(k - 1) == all.skip(k));
        assert(!is_frpc_file(all[0].0));
    } else {
        assert(all.skip(0) == all);
    }
}

/// Picks the frpc binary out of an archive listing: the first member named
/// `frpc` or `frpc.exe`; otherwise the error that ended the listing, or a
/// not-found message.
pub fn select_frpc(members: Vec<TarMember>, failure: Option<String>) -> (r: Result<Vec<u8>, String>)
    ensures
        bytes_result(r) == pick_frpc(members@.map_values(|m: TarMember| member_view(m)), opt_text(failure)),
{
    let ghost all = members@.map_values(|m: TarMember| member_view(m));
    let found = find_frpc(&members);
    match found {
        Some(k) => {
            proof {
                assert forall|j: int| 0 <= j < k implies !is_frpc_file(#[trigger] all[j].0) by {
                    assert(all[j] == member_view(members@[j]));
                }
                lemma_pick_frpc(all, opt_text(failure), k as int);
                assert(all.skip(k as int)[0] == member_view(members@[k as int]));
            }
            let mut members = members;
            let m = members.swap_remove(k);
            Ok(m.data)
        },
        None => {
            proof {
                assert forall|j: int| 0 <= j < all.len() implies !is_frpc_file(#[trigger] all[j].0) by {
                    assert(all[j] == member_view(members@[j]));
                }
                lemma_pick_frpc(all, opt_text(failure), all.len() as int);
            }
            match failure {
                Some(e) => Err(e),
                None => Err(String::from_str("压缩包中未找到 frpc")),
            }
        },
    }
}

/// Extracts the frpc binary from a `.tar.gz` download.
pub fn extract_frpc_from_tar(tar_gz_bytes: &[u8]) -> (r: Result<Vec<u8>, String>)
    ensures
        bytes_result(r) == pick_frpc(gz_tar_listing(tar_gz_bytes@).0, gz_tar_listing(tar_gz_bytes@).1),
{
    let (members, failure) = read_gz_tar(tar_gz_bytes);
    select_frpc(members, failure)
}

/// The message when `checksums.txt` does not list the asset.
pub open spec fn no_checksum_message() -> Seq<char> {
    "checksums.txt 中未找到对应资产"@
}

/// The message for a SHA-256 mismatch.
pub open spec fn digest_mismatch_message(expected: Seq<char>, actual: Seq<char>) -> Seq<char> {
    "SHA256 校验失败: 期望 "@ + expected + ", 实际 "@ + actual
}

/// What checking a download and extracting frpc from it gives: no listed
/// hash, a mismatching SHA-256, or else the extraction.
pub open spec fn download_outcome(checksums: Seq<char>, asset: Seq<char>, archive: Seq<u8>) -> Result<Seq<u8>, Seq<char>> {
    match checksum_from(checksums, 0, asset) {
        None => Err(no_checksum_message()),
        Some(expected) => if lower_hex(sha256_digest(archive)) != expected {
            Err(digest_mismatch_message(expected, lower_hex(sha256_digest(archive))))
        } else {
            pick_frpc(gz_tar_listing(archive).0, gz_tar_listing(archive).1)
        },
    }
}

/// Checks a downloaded archive against `checksums.txt` and extracts frpc from it.
///
/// The archive's lowercase hex SHA-256 must equal the hash listed for
/// `asset_name`; only then is frpc extracted.
pub fn verify_download(checksums: &str, asset_name: &str, archive: &[u8]) -> (r: Result<Vec<u8>, String>)
    ensures
        bytes_result(r) == download_outcome(checksums@, asset_name@, archive@),
{
    let expected = match parse_checksums(checksums, asset_name) {
        Some(h) => h,
        None => return Err(String::from_str("checksums.txt 中未找到对应资产")),
    };
    let actual = sha256_hex(archive);
    if !str_eq(actual.as_str(), expected.as_str()) {
        let mut e = String::from_str("SHA256 校验失败: 期望 ");
        push_str(&mut e, expected.as_str());
        push_str(&mut e, ", 实际 ");
        push_str(&mut e, actual.as_str());
        return Err(e);
    }
    extract_frpc_from_tar(archive)
}

/// Law: only an archive whose SHA-256 matches the published checksum yields a
/// binary.
pub proof fn law_extracted_only_when_digest_matches(checksums: Seq<char>, asset: Seq<char>, archive: Seq<u8>)
    requires
        download_outcome(checksums, asset, archive) is Ok,
    ensures
        checksum_from(checksums, 0, asset) == Some(lower_hex(sha256_digest(archive))),
{
}

} // verus!

verus! {

/// Whether `semver::Version::parse` accepts a text.
pub uninterp spec fn semver_accepts(text: Seq<char>) -> bool;

/// The error text of `semver::Version::parse` on a text it refuses.
pub uninterp spec fn semver_rejection(text: Seq<char>) -> Seq<char>;

/// `semver::Version::parse`, keeping only whether it succeeded and the error
/// text. Claimed: success is `semver_accepts(text)` and the error text is
/// `semver_rejection(text)`, both functions of the text alone; the SemVer
/// grammar itself is not stated here.
#[verifier::external_body]
fn check_semver(text: &str) -> (r: Result<(), String>)
    ensures
        r is Ok <==> semver_accepts(text@),
        r matches Err(e) ==> e@ == semver_rejection(text@),
{
    semver::Version::parse(text).map(|_| ()).map_err(|e| e.to_string())
}

/// Whether version `a` is not newer than version `b` (`a <= b` in SemVer
/// precedence, as `semver::Version` orders, build metadata included).
pub uninterp spec fn semver_not_newer(a: Seq<char>, b: Seq<char>) -> bool;

/// `<=` on the `semver::Version`s parsed from two accepted texts. Claimed: the
/// answer is `semver_not_newer(a, b)`, a function of the texts alone, and a
/// version is not newer than itself (the order is total, hence reflexive).
#[verifier::external_body]
fn not_newer(a: &str, b: &str) -> (r: bool)
    requires
        semver_accepts(a@),
        semver_accepts(b@),
    ensures
        r == semver_not_newer(a@, b@),
        a@ == b@ ==> r,
{
    match (semver::Version::parse(a), semver::Version::parse(b)) {
        (Ok(x), Ok(y)) => x <= y,
        _ => false,
    }
}

/// Index of the first asset named `name`.
pub open spec fn first_asset(assets: Seq<GithubAsset>, name: Seq<char>) -> Option<int> {
    if exists|k: int| 0 <= k < assets.len() && #[trigger] assets[k].name@ == name {
        Some(choose|k: int| 0 <= k < assets.len() && #[trigger] assets[k].name@ == name
            && forall|j: int| 0 <= j < k ==> #[trigger] assets[j].name@ != name)
    } else {
        None
    }
}

/// The message when the release lacks the asset for this platform.
pub open spec fn missing_asset_message(name: Seq<char>) -> Seq<char> {
    "GitHub 未找到资产 "@ + name
}

fn find_asset(assets: &Vec<GithubAsset>, name: &str) -> (r: Option<usize>)
    ensures
        match r {
            Some(k) => k < assets@.len() && assets@[k as int].name@ == name@
                && forall|j: int| 0 <= j < k ==> #[trigger] assets@[j].name@ != name@,
            None => forall|j: int| 0 <= j < assets@.len() ==> #[trigger] assets@[j].name@ != name@,
        },
{
    let mut i: usize = 0;
    while i < assets.len()
        invariant
            0 <= i <= assets@.len(),
            forall|j: int| 0 <= j < i ==> #[trigger] assets@[j].name@ != name@,
        decreases assets@.len() - i,
    {
        if str_eq(assets[i].name.as_str(), name) {
            return Some(i);
        }
        i = i + 1;
    }
    None
}

proof fn lemma_first_asset(assets: Seq<GithubAsset>, name: Seq<char>, k: int)
    requires
        0 <= k < assets.len(),
        assets[k].name@ == name,
        forall|j: int| 0 <= j < k ==> #[trigger] assets[j].name@ != name,
    ensures
        first_asset(assets, name) == Some(k),
{
    let c = choose|c: int| 0 <= c < assets.len() && #[trigger] assets[c].name@ == name
        && forall|j: int| 0 <= j < c ==> #[trigger] assets[j].name@ != name;
    assert(0 <= c < assets.len() && assets[c].name@ == name && forall|j: int| 0 <= j < c ==> #[trigger] assets[j].name@ != name);
    if c < k {
        assert(assets[c].name@ != name);
    }
    if c > k {
        assert(assets[k].name@ != name);
    }
}

proof fn lemma_trim_idempotent(s: Seq<char>)
    ensures
        trim_leading_v(trim_leading_v(s)) == trim_leading_v(s),
    decreases s.len(),
{
    if s.len() > 0 && s[0] == 'v' {
        lemma_trim_idempotent(s.drop_first());
    }
}

/// Decides what the update check reports, given the installed version
/// `current` and the latest GitHub release (`tag_name`, `body`, `assets`).
///
/// Leading `v`s are dropped from both versions, which must parse as SemVer.
/// When the release is not newer there is no update; otherwise the release must
/// carry the asset of this platform, whose name and size are reported.
pub fn assess_release(
    current: &str,
    tag_name: &str,
    body: String,
    assets: &Vec<GithubAsset>,
    os: &str,
    arch: &str,
) -> (r: Result<Option<UpdateInfo>, String>)
    ensures
        ({
            let l = trim_leading_v(tag_name@);
            let c = trim_leading_v(current@);
            if !semver_accepts(l) {
                r matches Err(e) && e@ == semver_rejection(l)
            } else if !semver_accepts(c) {
                r matches Err(e) && e@ == semver_rejection(c)
            } else if semver_not_newer(l, c) {
                r matches Ok(None)
            } else {
                match (release_os(os@), release_arch(arch@)) {
                    (Some(o), Some(a)) => {
                        let name = asset_name_for(l, o, a);
                        match first_asset(assets@, name) {
                            Some(k) => r matches Ok(Some(info)) && {
                                &&& info.current_version@ == c
                                &&& info.latest_version@ == l
                                &&& info.release_notes == body
                                &&& info.asset_name@ == name
                                &&& info.asset_size == assets@[k].size
                            },
                            None => r matches Err(e) && e@ == missing_asset_message(name),
                        }
                    },
                    _ => r matches Err(e) && e@ == platform_rejection(os@, arch@),
                }
            }
        }),
        // The installed version is never offered as an update.
        trim_leading_v(tag_name@) == trim_leading_v(current@) && semver_accepts(trim_leading_v(current@))
            ==> r matches Ok(None),
{
    let latest = trim_v(tag_name);
    let cur = trim_v(current);
    match check_semver(latest.as_str()) {
        Ok(()) => {},
        Err(e) => return Err(e),
    }
    match check_semver(cur.as_str()) {
        Ok(()) => {},
        Err(e) => return Err(e),
    }
    if not_newer(latest.as_str(), cur.as_str()) {
        return Ok(None);
    }
    proof {
        lemma_trim_idempotent(tag_name@);
    }
    let (name, _, _) = match asset_urls(latest.as_str(), os, arch) {
        Ok(t) => t,
        Err(e) => return Err(e),
    };
    match find_asset(assets, name.as_str()) {
        Some(k) => {
            proof {
                lemma_first_asset(assets@, name@, k as int);
            }
            let info = UpdateInfo {
                current_version: cur,
                latest_version: latest,
                release_notes: body,
                asset_name: assets[k].name.clone(),
                asset_size: assets[k].size,
            };
            Ok(Some(info))
        },
        None => {
            let mut e = String::from_str("GitHub 未找到资产 ");
            push_str(&mut e, name.as_str());
            Err(e)
        },
    }
}

} // verus!
