use moonbox::process::{is_frpc_image, is_orphan_frpc, output_lines};

#[test]
fn frpc_image_names() {
    for yes in ["frpc", "frpc.exe", "FRPC.EXE", "Frpc", "/usr/local/bin/frpc", "C:\\apps\\frpc.exe", "a/b\\frpc"] {
        assert!(is_frpc_image(yes), "{yes}");
    }
    for no in ["frps", "frpc2", "", "frpc/", "myfrpc", "frpc.exe.bak", "/frpc/x"] {
        assert!(!is_frpc_image(no), "{no}");
    }
}

#[test]
fn orphan_matching() {
    let cfg = "/home/u/.config/app/frpc.toml";
    let cmd = vec!["frpc".to_string(), "-c".to_string(), cfg.to_string()];
    assert!(is_orphan_frpc("frpc", &cmd, cfg));
    assert!(!is_orphan_frpc("frps", &cmd, cfg));
    assert!(!is_orphan_frpc("frpc", &cmd, "/other/frpc.toml"));
    assert!(!is_orphan_frpc("frpc", &vec![], cfg));
}

#[test]
fn output_lines_cases() {
    assert_eq!(output_lines("a\r\nb\n\nc"), vec!["a", "b", "c"]);
    assert_eq!(output_lines("one line"), vec!["one line"]);
    assert_eq!(output_lines("ends\n"), vec!["ends"]);
    assert_eq!(output_lines("\n\r\n\n"), Vec::<String>::new());
    assert_eq!(output_lines(""), Vec::<String>::new());
    assert_eq!(output_lines("bare\rcr\n"), vec!["bare\rcr"]);
    assert_eq!(output_lines("\r"), vec!["\r"]);
    assert_eq!(output_lines("日志 一\n日志 二"), vec!["日志 一", "日志 二"]);
}

#[test]
fn output_lines_match_std_lines() {
    for text in ["a\r\nb\n\nc\n", "x\n\ny\r", "\r\n", "  \n\t\n", "z"] {
        let expected: Vec<String> = text.lines().filter(|l| !l.is_empty()).map(|l| l.to_string()).collect();
        assert_eq!(output_lines(text), expected);
    }
}
