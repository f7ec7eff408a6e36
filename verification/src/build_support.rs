//! Build-script support for binaries that link against the zvec shared
//! library: which library files to stage, which runtime search paths (rpath)
//! to record, and the messages the build script prints.
use vstd::prelude::*;

verus! {

/// Returns whether two strings hold the same text.
fn same_text(a: &str, b: &str) -> (r: bool)
    ensures
        r == (a@ == b@),
{
    let n = a.unicode_len();
    if n != b.unicode_len() {
        return false;
    }
    let mut i: usize = 0;
    while i < n
        invariant
            n == a@.len(),
            n == b@.len(),
            i <= n,
            forall|j: int| 0 <= j < i ==> a@[j] == b@[j],
        decreases n - i,
    {
        if a.get_char(i) != b.get_char(i) {
            return false;
        }
        i = i + 1;
    }
    assert(a@ =~= b@);
    true
}

/// Whether a target operating system is one of Apple's.
pub open spec fn is_apple(os: Seq<char>) -> bool {
    os == "macos"@ || os == "ios"@
}

/// The file name of the runtime shared library on a target operating system.
pub open spec fn runtime_lib_file_name(os: Seq<char>) -> Seq<char> {
    if is_apple(os) {
        "libzvec_c_api.dylib"@
    } else if os == "windows"@ {
        "zvec_c_api.dll"@
    } else {
        "libzvec_c_api.so"@
    }
}

/// File names of the runtime shared library for the given target, in the order
/// they should be searched. Import libraries (`.lib`, `.dll.a`) are excluded:
/// only files needed at *runtime* are listed.
pub fn runtime_lib_file_names(os: &str) -> (r: &'static [&'static str])
    ensures
        r@.len() == 1,
        r@[0]@ == runtime_lib_file_name(os@),
{
    if same_text(os, "macos") || same_text(os, "ios") {
        &["libzvec_c_api.dylib"]
    } else if same_text(os, "windows") {
        &["zvec_c_api.dll"]
    } else {
        &["libzvec_c_api.so"]
    }
}

/// The runtime search paths to record in a binary for a target operating
/// system: on Apple targets the executable's and the loader's own directories
/// and their sibling `../lib`; on Windows none (the loader searches the
/// executable's directory); elsewhere `$ORIGIN` and `$ORIGIN/../lib`. In
/// non-release builds for targets other than Windows, the resolved library
/// directory follows, when one is known.
pub open spec fn rpath_flags_spec(os: Seq<char>, is_release: bool, lib_dir: Option<Seq<char>>) -> Seq<
    Seq<char>,
> {
    let base = if is_apple(os) {
        seq![
            "@executable_path"@,
            "@executable_path/../lib"@,
            "@loader_path"@,
            "@loader_path/../lib"@,
        ]
    } else if os == "windows"@ {
        Seq::empty()
    } else {
        seq!["$ORIGIN"@, "$ORIGIN/../lib"@]
    };
    match lib_dir {
        Some(d) if !is_release && os != "windows"@ => base.push(d),
        _ => base,
    }
}

/// Returns the runtime search paths to record in a binary, in order.
pub fn rpath_flags(os: &str, is_release: bool, lib_dir: Option<&str>) -> (r: Vec<String>)
    ensures
        r@.map_values(|s: String| s@) == rpath_flags_spec(
            os@,
            is_release,
            match lib_dir {
                Some(d) => Some(d@),
                None => None,
            },
        ),
{
    let mut flags: Vec<String> = Vec::new();
    let windows = same_text(os, "windows");
    if same_text(os, "macos") || same_text(os, "ios") {
        flags.push(String::from_str("@executable_path"));
        flags.push(String::from_str("@executable_path/../lib"));
        flags.push(String::from_str("@loader_path"));
        flags.push(String::from_str("@loader_path/../lib"));
    } else if !windows {
        flags.push(String::from_str("$ORIGIN"));
        flags.push(String::from_str("$ORIGIN/../lib"));
    }
    if !is_release && !windows {
        match lib_dir {
            Some(d) => flags.push(String::from_str(d)),
            None => {},
        }
    }
    let ghost ld = match lib_dir {
        Some(d) => Some(d@),
        None => None,
    };
    assert(flags@.map_values(|s: String| s@) =~= rpath_flags_spec(os@, is_release, ld));
    flags
}

/// The build-script line that records a runtime search path for the binaries.
pub open spec fn rpath_directive_spec(flag: Seq<char>) -> Seq<char> {
    "cargo:rustc-link-arg-bins=-Wl,-rpath,"@ + flag
}

/// Returns the build-script line that records a runtime search path for the
/// binaries of the crate.
pub fn rpath_directive(flag: &str) -> (r: String)
    ensures
        r@ == rpath_directive_spec(flag@),
{
    String::from_str("cargo:rustc-link-arg-bins=-Wl,-rpath,").concat(flag)
}

/// The build-script warning printed when no shared library could be staged
/// next to the executable.
pub open spec fn missing_library_warning_spec(os: Seq<char>) -> Seq<char> {
    "cargo:warning=zvec-rust-build: shared library not located; `./"@ + runtime_lib_file_name(os)
        + "` may require DYLD_LIBRARY_PATH/LD_LIBRARY_PATH"@
}

/// Returns the build-script warning printed when no shared library could be
/// staged next to the executable.
pub fn missing_library_warning(os: &str) -> (r: String)
    ensures
        r@ == missing_library_warning_spec(os@),
{
    let names = runtime_lib_file_names(os);
    let first = names[0];
    String::from_str("cargo:warning=zvec-rust-build: shared library not located; `./").concat(
        first,
    ).concat("` may require DYLD_LIBRARY_PATH/LD_LIBRARY_PATH")
}

/// The build-script warning printed when staging the shared library failed.
pub open spec fn staging_failure_warning_spec(error: Seq<char>) -> Seq<char> {
    "cargo:warning=zvec-rust-build: failed to stage shared library: "@ + error
}

/// Returns the build-script warning printed when staging the shared library
/// failed with the given error text.
pub fn staging_failure_warning(error: &str) -> (r: String)
    ensures
        r@ == staging_failure_warning_spec(error@),
{
    String::from_str("cargo:warning=zvec-rust-build: failed to stage shared library: ").concat(error)
}

/// Every target records its runtime search paths relative to the binary
/// before any absolute one, never records an absolute library directory in a
/// release build or on Windows, and on Windows records none at all.
pub proof fn lemma_rpath_flags_shape(os: Seq<char>, is_release: bool, lib_dir: Option<Seq<char>>)
    ensures
        os == "windows"@ ==> rpath_flags_spec(os, is_release, lib_dir).len() == 0,
        is_release ==> rpath_flags_spec(os, is_release, lib_dir) == rpath_flags_spec(
            os,
            is_release,
            None,
        ),
        rpath_flags_spec(os, is_release, lib_dir).len() == rpath_flags_spec(os, true, None).len()
            + (if !is_release && os != "windows"@ && lib_dir is Some {
            1int
        } else {
            0int
        }),
{
    reveal_strlit("windows");
    reveal_strlit("macos");
    reveal_strlit("ios");
    assert("windows"@.len() == 7);
    assert("macos"@.len() == 5);
    assert("ios"@.len() == 3);
    assert(!is_apple("windows"@));
}


/// In a non-release build for a target other than Windows, a resolved
/// library directory is recorded as given, after every path that a release
/// build records, and nothing else is added; without one, the paths are
/// those of a release build. The paths of a release build are all relative
/// to the binary: each starts with `@` (the executable's or loader's
/// directory, on Apple targets) or `$` (`$ORIGIN`, elsewhere).
pub proof fn lemma_rpath_debug_lib_dir(os: Seq<char>, d: Seq<char>)
    requires
        os != "windows"@,
    ensures
        rpath_flags_spec(os, false, Some(d)).last() == d,
        rpath_flags_spec(os, false, Some(d)).drop_last() == rpath_flags_spec(os, true, None),
        rpath_flags_spec(os, false, None) == rpath_flags_spec(os, true, None),
        forall|i: int|
            0 <= i < rpath_flags_spec(os, true, None).len() ==> {
                let flag = #[trigger] rpath_flags_spec(os, true, None)[i];
                flag.len() > 0 && (flag[0] == '@' || flag[0] == '$')
            },
{
    reveal_strlit("@executable_path");
    reveal_strlit("@executable_path/../lib");
    reveal_strlit("@loader_path");
    reveal_strlit("@loader_path/../lib");
    reveal_strlit("$ORIGIN");
    reveal_strlit("$ORIGIN/../lib");
    assert(rpath_flags_spec(os, false, Some(d)).drop_last() =~= rpath_flags_spec(os, true, None));
}

} // verus!
