use xmlsec_build::config::{
    crypto_cfg, homebrew_lib_dir, homebrew_libxml2_path, is_dynamic_loading, link_arg_directive,
    link_lib_directive, link_libraries, link_search_directive, rustc_cfg_directive, str_eq,
    uses_homebrew_libxml2, warning_directive,
};

#[test]
fn str_eq_compares_by_characters() {
    assert!(str_eq("", ""));
    assert!(str_eq("abc", "abc"));
    assert!(!str_eq("abc", "abd"));
    assert!(!str_eq("abc", "ab"));
    assert!(str_eq("caf\u{00e9}", "caf\u{00e9}"));
    assert!(!str_eq("caf\u{00e9}", "cafe"));
}

#[test]
fn detects_dynamic_loading_flag() {
    let cflags = vec![
        "-I/usr/include/xmlsec1".to_string(),
        "-DXMLSEC_CRYPTO_DYNAMIC_LOADING=1".to_string(),
        "-DXMLSEC_NO_SIZE_T".to_string(),
    ];
    assert!(is_dynamic_loading(&cflags));
}

#[test]
fn static_build_has_no_dynamic_flag() {
    let cflags = vec![
        "-I/usr/include/xmlsec1".to_string(),
        "-DXMLSEC_CRYPTO=openssl".to_string(),
    ];
    assert!(!is_dynamic_loading(&cflags));
    assert!(!is_dynamic_loading(&Vec::new()));
}

#[test]
fn flag_must_match_exactly() {
    let cflags = vec!["-DXMLSEC_CRYPTO_DYNAMIC_LOADING=0".to_string()];
    assert!(!is_dynamic_loading(&cflags));
}

#[test]
fn homebrew_only_on_apple_silicon() {
    assert!(uses_homebrew_libxml2("aarch64-apple-darwin"));
    assert!(!uses_homebrew_libxml2("x86_64-apple-darwin"));
    assert!(!uses_homebrew_libxml2("x86_64-unknown-linux-gnu"));
    assert!(!uses_homebrew_libxml2(""));
}

#[test]
fn dynamic_build_links_three_libraries() {
    assert_eq!(link_libraries(true), vec!["xmlsec1", "ssl", "crypto"]);
}

#[test]
fn static_build_links_openssl_backend_too() {
    assert_eq!(
        link_libraries(false),
        vec!["xmlsec1-openssl", "xmlsec1", "ssl", "crypto"]
    );
}

#[test]
fn directives_carry_their_argument() {
    assert_eq!(
        link_search_directive("/opt/homebrew/opt/libxml2/lib"),
        "cargo:rustc-link-search=native=/opt/homebrew/opt/libxml2/lib"
    );
    assert_eq!(link_lib_directive("libxml2"), "cargo:rustc-link-lib=libxml2");
    assert_eq!(
        link_arg_directive("/opt/homebrew/opt/libxml2/lib/libxml2.2.dylib"),
        "cargo:rustc-link-arg=/opt/homebrew/opt/libxml2/lib/libxml2.2.dylib"
    );
    assert_eq!(
        warning_directive("xmlsec1 version: 1.2.37"),
        "cargo:warning=xmlsec1 version: 1.2.37"
    );
    assert_eq!(
        rustc_cfg_directive("xmlsec_dynamic"),
        "cargo:rustc-cfg=xmlsec_dynamic"
    );
}

#[test]
fn crypto_cfg_names_the_convention() {
    assert_eq!(crypto_cfg(true), "xmlsec_dynamic");
    assert_eq!(crypto_cfg(false), "xmlsec_static");
}

#[test]
fn homebrew_paths_follow_the_prefix() {
    assert_eq!(
        homebrew_lib_dir("/opt/homebrew/opt/libxml2"),
        "/opt/homebrew/opt/libxml2/lib"
    );
    assert_eq!(
        homebrew_libxml2_path("/opt/homebrew/opt/libxml2"),
        "/opt/homebrew/opt/libxml2/lib/libxml2.2.dylib"
    );
}
