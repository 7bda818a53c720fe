use xmlsec_build::args::{args_from_output, decode_output, try_args_from_output};

#[test]
fn splits_cflag_output() {
    let out = b"-I/usr/include/xmlsec1 -DXMLSEC_NO_SIZE_T\n".to_vec();
    let args = args_from_output(out);
    assert_eq!(args, vec!["-I/usr/include/xmlsec1", "-DXMLSEC_NO_SIZE_T"]);
}

#[test]
fn splits_on_runs_of_mixed_whitespace() {
    let out = b"  -lxmlsec1\t\t-lssl \n -lcrypto  ".to_vec();
    let args = args_from_output(out);
    assert_eq!(args, vec!["-lxmlsec1", "-lssl", "-lcrypto"]);
}

#[test]
fn empty_output_gives_no_args() {
    assert_eq!(args_from_output(Vec::new()), Vec::<String>::new());
    assert_eq!(args_from_output(b" \n\t ".to_vec()), Vec::<String>::new());
}

#[test]
fn single_token_without_whitespace() {
    assert_eq!(args_from_output(b"-DFOO=1".to_vec()), vec!["-DFOO=1"]);
}

#[test]
fn try_rejects_invalid_utf8() {
    let out = vec![0xff, 0xfe, b' ', b'x'];
    assert_eq!(try_args_from_output(out), None);
}

#[test]
fn try_accepts_valid_utf8() {
    let out = b"-L/opt/lib -lxml2".to_vec();
    assert_eq!(
        try_args_from_output(out),
        Some(vec!["-L/opt/lib".to_string(), "-lxml2".to_string()])
    );
}

#[test]
fn splitting_matches_std_split_whitespace() {
    let samples = [
        "",
        "   ",
        "-a -b  -c",
        "\u{00A0}sep\u{2003}arated\u{3000}",
        "x\u{0085}y\u{2028}z\u{2029}w",
        "one",
        " leading",
        "trailing ",
    ];
    for s in samples {
        let expected: Vec<String> = s.split_whitespace().map(|t| t.to_owned()).collect();
        let got = args_from_output(s.as_bytes().to_vec());
        assert_eq!(got, expected, "splitting {:?}", s);
    }
}

#[test]
fn decode_output_decodes_utf8() {
    assert_eq!(
        decode_output(b"/opt/homebrew/opt/libxml2\n".to_vec()),
        Some("/opt/homebrew/opt/libxml2\n".to_string())
    );
    assert_eq!(decode_output(vec![0xc3, 0x28]), None);
}

#[test]
fn multibyte_tokens_survive_decoding() {
    let out = "caf\u{00e9} na\u{00ef}ve".as_bytes().to_vec();
    assert_eq!(
        try_args_from_output(out),
        Some(vec!["caf\u{00e9}".to_string(), "na\u{00ef}ve".to_string()])
    );
}
