use moonbox::frpc_update::{
    asset_urls, assess_release, extract_frpc_from_tar, parse_checksums, pending_file_name, platform_asset_suffix,
    select_frpc, sha256_hex, sidecar_target_name, verify_download, GithubAsset, TarMember, UpdateState,
    BUNDLED_FRPC_VERSION,
};

const ABC_SHA: &str = "ba7816bf8f01cfea414140de5dae2223b00361a396177a9cb410ff61f20015ad";

fn tar_gz(files: &[(&str, &[u8])]) -> Vec<u8> {
    let enc = flate2::write::GzEncoder::new(Vec::new(), flate2::Compression::default());
    let mut builder = tar::Builder::new(enc);
    for (path, data) in files {
        let mut header = tar::Header::new_gnu();
        header.set_size(data.len() as u64);
        header.set_mode(0o755);
        header.set_cksum();
        builder.append_data(&mut header, path, *data).unwrap();
    }
    builder.into_inner().unwrap().finish().unwrap()
}

#[test]
fn platform_names() {
    assert_eq!(platform_asset_suffix("macos", "aarch64").unwrap(), ("darwin", "arm64"));
    assert_eq!(platform_asset_suffix("windows", "x86_64").unwrap(), ("windows", "amd64"));
    assert_eq!(platform_asset_suffix("linux", "x86_64").unwrap(), ("linux", "amd64"));
    assert_eq!(platform_asset_suffix("freebsd", "x86_64").unwrap_err(), "不支持的操作系统: freebsd");
    assert_eq!(platform_asset_suffix("linux", "riscv64").unwrap_err(), "不支持的架构: riscv64");
}

#[test]
fn sidecar_names() {
    assert_eq!(sidecar_target_name("macos", "aarch64").unwrap(), "frpc-aarch64-apple-darwin");
    assert_eq!(sidecar_target_name("macos", "x86_64").unwrap(), "frpc-x86_64-apple-darwin");
    assert_eq!(sidecar_target_name("windows", "x86_64").unwrap(), "frpc-x86_64-pc-windows-msvc.exe");
    assert_eq!(sidecar_target_name("windows", "aarch64").unwrap(), "frpc-aarch64-pc-windows-msvc.exe");
    assert_eq!(sidecar_target_name("linux", "x86_64").unwrap(), "frpc-x86_64-unknown-linux-gnu");
    assert_eq!(sidecar_target_name("linux", "aarch64").unwrap(), "frpc-aarch64-unknown-linux-gnu");
    assert_eq!(sidecar_target_name("linux", "arm").unwrap_err(), "不支持的平台 linux/arm");
}

#[test]
fn asset_url_texts() {
    let (name, url, sums) = asset_urls("v0.70.0", "macos", "aarch64").unwrap();
    assert_eq!(name, "frp_0.70.0_darwin_arm64.tar.gz");
    assert_eq!(url, "https://github.com/fatedier/frp/releases/download/v0.70.0/frp_0.70.0_darwin_arm64.tar.gz");
    assert_eq!(sums, "https://github.com/fatedier/frp/releases/download/v0.70.0/frp_0.70.0_checksums.txt");
    let (name2, _, _) = asset_urls("0.70.0", "windows", "x86_64").unwrap();
    assert_eq!(name2, "frp_0.70.0_windows_amd64.tar.gz");
    assert!(asset_urls("1.0.0", "plan9", "x86_64").is_err());
}

#[test]
fn pending_names() {
    assert_eq!(pending_file_name("0.70.0", "windows"), "frpc_pending_0.70.0.exe");
    assert_eq!(pending_file_name("0.70.0", "macos"), "frpc_pending_0.70.0");
}

#[test]
fn checksum_lookup() {
    let text = "AAAA frp_1_darwin_arm64.tar.gz\r\nbbbb  frp_1_linux_amd64.tar.gz\n\n  CcDd\tfrp_1_windows_amd64.tar.gz extra\nlonely\n";
    assert_eq!(parse_checksums(text, "frp_1_darwin_arm64.tar.gz").as_deref(), Some("aaaa"));
    assert_eq!(parse_checksums(text, "frp_1_linux_amd64.tar.gz").as_deref(), Some("bbbb"));
    assert_eq!(parse_checksums(text, "frp_1_windows_amd64.tar.gz").as_deref(), Some("ccdd"));
    assert_eq!(parse_checksums(text, "lonely"), None);
    assert_eq!(parse_checksums(text, "frp_1_freebsd.tar.gz"), None);
    assert_eq!(parse_checksums("", "x"), None);
    assert_eq!(parse_checksums("h1 x\nh2 x", "x").as_deref(), Some("h1"));
    assert_eq!(parse_checksums("h1 y\nh2 x", "x").as_deref(), Some("h2"));
}

#[test]
fn sha256_hex_vectors() {
    assert_eq!(sha256_hex(b"abc"), ABC_SHA);
    assert_eq!(sha256_hex(b""), "e3b0c44298fc1c149afbf4c8996fb92427ae41e4649b934ca495991b7852b855");
}

#[test]
fn extracts_frpc() {
    let archive = tar_gz(&[("frp_1/LICENSE", b"mit"), ("frp_1/frpc", b"BINARY"), ("frp_1/frps", b"SERVER")]);
    assert_eq!(extract_frpc_from_tar(&archive).unwrap(), b"BINARY".to_vec());
    let win = tar_gz(&[("frp_1/frpc.exe", b"EXE")]);
    assert_eq!(extract_frpc_from_tar(&win).unwrap(), b"EXE".to_vec());
    let none = tar_gz(&[("frp_1/frps", b"SERVER")]);
    assert_eq!(extract_frpc_from_tar(&none).unwrap_err(), "压缩包中未找到 frpc");
    assert!(extract_frpc_from_tar(b"not a gzip stream").is_err());
}

#[test]
fn selects_first_frpc_member() {
    let m = |n: Option<&str>, d: &[u8]| TarMember { name: n.map(|s| s.to_string()), data: d.to_vec() };
    let members = vec![m(None, b"x"), m(Some("FRPC"), b"y"), m(Some("frpc.exe"), b"z"), m(Some("frpc"), b"w")];
    assert_eq!(select_frpc(members, Some("late error".to_string())).unwrap(), b"z".to_vec());
    assert_eq!(select_frpc(vec![m(Some("a"), b"")], Some("io".to_string())).unwrap_err(), "io");
    assert_eq!(select_frpc(vec![], None).unwrap_err(), "压缩包中未找到 frpc");
}

#[test]
fn verifies_download() {
    let archive = tar_gz(&[("frp_2/frpc", b"NEW")]);
    let digest = sha256_hex(&archive);
    let sums = format!("{} frp_2_linux_amd64.tar.gz\n", digest.to_uppercase());
    assert_eq!(verify_download(&sums, "frp_2_linux_amd64.tar.gz", &archive).unwrap(), b"NEW".to_vec());
    assert_eq!(verify_download(&sums, "other.tar.gz", &archive).unwrap_err(), "checksums.txt 中未找到对应资产");
    let wrong = format!("{} frp_2_linux_amd64.tar.gz\n", ABC_SHA);
    assert_eq!(
        verify_download(&wrong, "frp_2_linux_amd64.tar.gz", &archive).unwrap_err(),
        format!("SHA256 校验失败: 期望 {}, 实际 {}", ABC_SHA, digest)
    );
}

fn assets() -> Vec<GithubAsset> {
    vec![
        GithubAsset { name: "frp_0.70.0_linux_amd64.tar.gz".to_string(), size: 111 },
        GithubAsset { name: "frp_0.70.0_darwin_arm64.tar.gz".to_string(), size: 222 },
        GithubAsset { name: "frp_0.70.0_darwin_arm64.tar.gz".to_string(), size: 333 },
    ]
}

#[test]
fn release_assessment() {
    let info = assess_release("0.69.1", "v0.70.0", "notes".to_string(), &assets(), "macos", "aarch64")
        .unwrap()
        .unwrap();
    assert_eq!(info.current_version, "0.69.1");
    assert_eq!(info.latest_version, "0.70.0");
    assert_eq!(info.release_notes, "notes");
    assert_eq!(info.asset_name, "frp_0.70.0_darwin_arm64.tar.gz");
    assert_eq!(info.asset_size, 222);
    assert!(assess_release("v0.70.0", "v0.70.0", String::new(), &assets(), "macos", "aarch64").unwrap().is_none());
    assert!(assess_release("0.71.0", "v0.70.0", String::new(), &assets(), "macos", "aarch64").unwrap().is_none());
    assert_eq!(
        assess_release("0.69.1", "v0.70.0", String::new(), &assets(), "windows", "x86_64").unwrap_err(),
        "GitHub 未找到资产 frp_0.70.0_windows_amd64.tar.gz"
    );
    assert_eq!(
        assess_release("0.69.1", "latest", String::new(), &assets(), "macos", "aarch64").unwrap_err(),
        semver::Version::parse("latest").unwrap_err().to_string()
    );
    assert!(assess_release("x", "v0.70.0", String::new(), &assets(), "macos", "aarch64").is_err());
    assert_eq!(
        assess_release("0.69.1", "v0.70.0", String::new(), &assets(), "solaris", "x86_64").unwrap_err(),
        "不支持的操作系统: solaris"
    );
    assert_eq!(
        assess_release("0.69.1", "v0.70.0", String::new(), &assets(), "linux", "riscv64").unwrap_err(),
        "不支持的架构: riscv64"
    );
}

#[test]
fn asset_urls_unsupported_platform() {
    assert_eq!(asset_urls("v0.61.0", "freebsd", "x86_64").unwrap_err(), "不支持的操作系统: freebsd");
    assert_eq!(asset_urls("v0.61.0", "freebsd", "mips").unwrap_err(), "不支持的操作系统: freebsd");
    assert_eq!(asset_urls("v0.61.0", "windows", "mips").unwrap_err(), "不支持的架构: mips");
}

#[test]
fn parse_checksums_unicode_whitespace() {
    let text = "ABCD\u{3000}frp_1_linux_amd64.tar.gz\n\u{a0}eeff\u{2003}frp_1_darwin_arm64.tar.gz\r\n";
    assert_eq!(parse_checksums(text, "frp_1_linux_amd64.tar.gz").as_deref(), Some("abcd"));
    assert_eq!(parse_checksums(text, "frp_1_darwin_arm64.tar.gz").as_deref(), Some("eeff"));
    assert_eq!(parse_checksums("x\u{200b}frp", "frp"), None);
}

#[test]
fn update_state_transitions() {
    let s = UpdateState::initial();
    assert_eq!(s.current, BUNDLED_FRPC_VERSION);
    assert!(s.pending.is_none());
    let n = UpdateState { current: String::new(), pending: None }.normalized();
    assert_eq!(n.current, "0.69.1");
    let k = UpdateState { current: "0.68.0".to_string(), pending: None }.normalized();
    assert_eq!(k.current, "0.68.0");
    let mut st = UpdateState::initial();
    assert!(st.commit_pending().is_none());
    assert_eq!(st.current, "0.69.1");
    st.set_pending("0.70.0".to_string(), "/tmp/frpc_pending_0.70.0".to_string());
    assert_eq!(st.pending.as_ref().unwrap().path, "/tmp/frpc_pending_0.70.0");
    assert_eq!(st.commit_pending().as_deref(), Some("0.70.0"));
    assert_eq!(st.current, "0.70.0");
    assert!(st.pending.is_none());
    st.set_pending("0.71.0".to_string(), "p".to_string());
    st.clear_pending();
    assert!(st.pending.is_none());
    assert_eq!(st.current, "0.70.0");
}
