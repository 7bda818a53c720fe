//! The decisions of the build configuration: which calling convention the
//! local xmlsec1 was compiled with, whether the Homebrew libxml2 must be
//! linked explicitly, which native libraries to link, and the cargo
//! directives that carry those decisions.

use vstd::prelude::*;

verus! {

/// Character-for-character string equality.
pub fn str_eq(a: &str, b: &str) -> (r: bool)
    ensures
        r == (a@ == b@),
{
    let alen = a.unicode_len();
    let blen = b.unicode_len();
    if alen != blen {
        return false;
    }
    let mut i: usize = 0;
    while i < alen
        invariant
            alen == a@.len(),
            alen == b@.len(),
            i <= alen,
            forall|k: int| 0 <= k < i ==> a@[k] == b@[k],
        decreases alen - i,
    {
        let ca = a.get_char(i);
        let cb = b.get_char(i);
        if ca != cb {
            return false;
        }
        i = i + 1;
    }
    proof {
        assert(a@ =~= b@);
    }
    true
}

/// The preprocessor flag that an xmlsec1 built for dynamic loading of its
/// crypto backend reports among its compile flags.
pub open spec fn dynamic_loading_flag() -> Seq<char> {
    "-DXMLSEC_CRYPTO_DYNAMIC_LOADING=1"@
}

/// Whether the compile flags that `xmlsec1-config --cflags` reported contain
/// the dynamic-crypto-loading flag: then the crypto backend is loaded at run
/// time and no OpenSSL-specific xmlsec library is linked.
pub fn is_dynamic_loading(cflags: &Vec<String>) -> (r: bool)
    ensures
        r == exists|i: int| 0 <= i < cflags@.len() && cflags@[i]@ == dynamic_loading_flag(),
{
    let mut k: usize = 0;
    while k < cflags.len()
        invariant
            k <= cflags@.len(),
            forall|i: int| 0 <= i < k ==> cflags@[i]@ != dynamic_loading_flag(),
        decreases cflags@.len() - k,
    {
        if str_eq(cflags[k].as_str(), "-DXMLSEC_CRYPTO_DYNAMIC_LOADING=1") {
            assert(cflags@[k as int]@ == dynamic_loading_flag());
            return true;
        }
        k = k + 1;
    }
    false
}

/// The build target on which libxml2 comes from Homebrew rather than from
/// the system: Apple Silicon development machines.
pub open spec fn homebrew_libxml2_target() -> Seq<char> {
    "aarch64-apple-darwin"@
}

/// Whether `target` is the build target whose libxml2 must be taken from
/// Homebrew and linked by explicit path.
pub fn uses_homebrew_libxml2(target: &str) -> (r: bool)
    ensures
        r == (target@ == homebrew_libxml2_target()),
{
    str_eq(target, "aarch64-apple-darwin")
}

/// The native libraries to link against, in order. An xmlsec1 built for
/// dynamic crypto loading resolves its backend at run time, so only with a
/// static backend is the OpenSSL-specific xmlsec library linked as well.
pub open spec fn link_libs(dynamic: bool) -> Seq<Seq<char>> {
    if dynamic {
        seq!["xmlsec1"@, "ssl"@, "crypto"@]
    } else {
        seq!["xmlsec1-openssl"@, "xmlsec1"@, "ssl"@, "crypto"@]
    }
}

/// The names of the native libraries to link, in the order in which their
/// `cargo:rustc-link-lib` directives are emitted.
pub fn link_libraries(dynamic: bool) -> (r: Vec<String>)
    ensures
        r.deep_view() == link_libs(dynamic),
{
    let mut v: Vec<String> = Vec::new();
    if !dynamic {
        v.push(String::from_str("xmlsec1-openssl"));
    }
    v.push(String::from_str("xmlsec1"));
    v.push(String::from_str("ssl"));
    v.push(String::from_str("crypto"));
    proof {
        assert(v.deep_view() =~= link_libs(dynamic));
    }
    v
}

/// The directive that makes the linker search `dir` for native libraries.
pub fn link_search_directive(dir: &str) -> (r: String)
    ensures
        r@ == "cargo:rustc-link-search=native="@ + dir@,
{
    let mut s = String::from_str("cargo:rustc-link-search=native=");
    s.append(dir);
    s
}

/// The directive that links the native library `name`.
pub fn link_lib_directive(name: &str) -> (r: String)
    ensures
        r@ == "cargo:rustc-link-lib="@ + name@,
{
    let mut s = String::from_str("cargo:rustc-link-lib=");
    s.append(name);
    s
}

/// The directive that passes `arg` to the linker as it stands.
pub fn link_arg_directive(arg: &str) -> (r: String)
    ensures
        r@ == "cargo:rustc-link-arg="@ + arg@,
{
    let mut s = String::from_str("cargo:rustc-link-arg=");
    s.append(arg);
    s
}

/// The directive that shows `msg` in the build output.
pub fn warning_directive(msg: &str) -> (r: String)
    ensures
        r@ == "cargo:warning="@ + msg@,
{
    let mut s = String::from_str("cargo:warning=");
    s.append(msg);
    s
}

/// The directive that sets the configuration flag `name` for the compiler.
pub fn rustc_cfg_directive(name: &str) -> (r: String)
    ensures
        r@ == "cargo:rustc-cfg="@ + name@,
{
    let mut s = String::from_str("cargo:rustc-cfg=");
    s.append(name);
    s
}

/// The configuration flag that records which crypto calling convention the
/// local xmlsec1 was compiled with.
pub fn crypto_cfg(dynamic: bool) -> (r: &'static str)
    ensures
        dynamic ==> r@ == "xmlsec_dynamic"@,
        !dynamic ==> r@ == "xmlsec_static"@,
{
    if dynamic {
        "xmlsec_dynamic"
    } else {
        "xmlsec_static"
    }
}

/// The library directory under a Homebrew prefix.
pub fn homebrew_lib_dir(prefix: &str) -> (r: String)
    ensures
        r@ == prefix@ + "/lib"@,
{
    let mut s = String::from_str(prefix);
    s.append("/lib");
    s
}

/// The path of the Homebrew libxml2 shared library under `prefix`, linked
/// by exact path so that the system libxml2 is never picked up instead.
pub fn homebrew_libxml2_path(prefix: &str) -> (r: String)
    ensures
        r@ == prefix@ + "/lib/libxml2.2.dylib"@,
{
    let mut s = String::from_str(prefix);
    s.append("/lib/libxml2.2.dylib");
    s
}

} // verus!
