use vstd::prelude::*;

verus! {

// The four names below stand for `std::path` functions, which split a path into
// components by the conventions of the target the library is built for.

/// What `std::path::Path::parent` returns for the path spelled by `path`, as text.
pub uninterp spec fn path_parent(path: Seq<char>) -> Option<Seq<char>>;

/// What `std::path::Path::file_name` returns for the path spelled by `path`, as text.
pub uninterp spec fn path_file_name(path: Seq<char>) -> Option<Seq<char>>;

/// What `std::path::Path::file_stem` returns for the path spelled by `path`, as text.
pub uninterp spec fn path_file_stem(path: Seq<char>) -> Option<Seq<char>>;

/// What `std::path::Path::extension` returns for the path spelled by `path`, as text.
pub uninterp spec fn path_extension(path: Seq<char>) -> Option<Seq<char>>;

/// The text of an optional string slice.
pub open spec fn opt_text(s: Option<&str>) -> Option<Seq<char>> {
    match s {
        Some(s) => Some(s@),
        None => None,
    }
}

/// The three directories above an executable, innermost first, as far as they exist.
pub open spec fn bundle_dirs(exe: Seq<char>) -> (Option<Seq<char>>, Option<Seq<char>>, Option<Seq<char>>) {
    let macos = path_parent(exe);
    let contents = match macos {
        Some(p) => path_parent(p),
        None => None,
    };
    let app = match contents {
        Some(p) => path_parent(p),
        None => None,
    };
    (macos, contents, app)
}

/// `exe` sits at `<name>.app/Contents/MacOS/<exe>`, and, where `stem` is given,
/// `<name>` is `stem`.
pub open spec fn inside_named_app_bundle(exe: Seq<char>, stem: Option<Seq<char>>) -> bool {
    let (macos, contents, app) = bundle_dirs(exe);
    &&& macos is Some
    &&& contents is Some
    &&& app is Some
    &&& path_file_name(macos->0) == Some("MacOS"@)
    &&& path_file_name(contents->0) == Some("Contents"@)
    &&& path_extension(app->0) == Some("app"@)
    &&& path_file_stem(app->0) is Some
    &&& match stem {
        Some(want) => path_file_stem(app->0) == Some(want),
        None => true,
    }
}

/// Calls `std::path::Path::parent` on `path`; the result is the parent's text.
/// Path components are split by the rules of the target the library is built for.
#[verifier::external_body]
fn parent_of(path: &str) -> (parent: Option<&str>)
    ensures
        opt_text(parent) == path_parent(path@),
{
    std::path::Path::new(path).parent().and_then(std::path::Path::to_str)
}

/// Calls `std::path::Path::file_name` on `path`; the result is the final component's text.
#[verifier::external_body]
fn file_name_of(path: &str) -> (name: Option<&str>)
    ensures
        opt_text(name) == path_file_name(path@),
{
    std::path::Path::new(path).file_name().and_then(|name| name.to_str())
}

/// Calls `std::path::Path::file_stem` on `path`; the result is the stem's text.
#[verifier::external_body]
fn file_stem_of(path: &str) -> (stem: Option<&str>)
    ensures
        opt_text(stem) == path_file_stem(path@),
{
    std::path::Path::new(path).file_stem().and_then(|stem| stem.to_str())
}

/// Calls `std::path::Path::extension` on `path`; the result is the extension's text.
#[verifier::external_body]
fn extension_of(path: &str) -> (ext: Option<&str>)
    ensures
        opt_text(ext) == path_extension(path@),
{
    std::path::Path::new(path).extension().and_then(|ext| ext.to_str())
}

/// Compares two strings character by character.
pub(crate) fn text_eq(a: &str, b: &str) -> (eq: bool)
    ensures
        eq == (a@ == b@),
{
    let n = a.unicode_len();
    if n != b.unicode_len() {
        return false;
    }
    let mut i: usize = 0;
    while i < n
        invariant
            n == a@.len(),
            n == b@.len(),
            i <= n,
            forall|j: int| 0 <= j < i ==> a@[j] == b@[j],
        decreases n - i,
    {
        if a.get_char(i) != b.get_char(i) {
            return false;
        }
        i = i + 1;
    }
    assert(a@ =~= b@);
    true
}

/// Compares an optional component with the expected text.
fn component_is(component: Option<&str>, want: &str) -> (eq: bool)
    ensures
        eq == (opt_text(component) == Some(want@)),
{
    match component {
        Some(c) => text_eq(c, want),
        None => false,
    }
}

/// Whether `exe` is the executable of any macOS app bundle:
/// `<name>.app/Contents/MacOS/<exe>`.
pub fn running_inside_app_bundle(exe: &str) -> (inside: bool)
    ensures
        inside == inside_named_app_bundle(exe@, None),
{
    running_inside_named_app_bundle(exe, None)
}

/// Whether `exe` is the executable of a macOS app bundle, and, where `stem` is
/// given, whether the bundle is named `<stem>.app`.
pub fn running_inside_named_app_bundle(exe: &str, stem: Option<&str>) -> (inside: bool)
    ensures
        inside == inside_named_app_bundle(exe@, opt_text(stem)),
{
    let macos = match parent_of(exe) {
        Some(p) => p,
        None => return false,
    };
    let contents = match parent_of(macos) {
        Some(p) => p,
        None => return false,
    };
    let app = match parent_of(contents) {
        Some(p) => p,
        None => return false,
    };
    let app_stem = file_stem_of(app);
    proof {
        reveal_strlit("MacOS");
        reveal_strlit("Contents");
        reveal_strlit("app");
    }
    component_is(file_name_of(macos), "MacOS")
        && component_is(file_name_of(contents), "Contents")
        && component_is(extension_of(app), "app")
        && app_stem.is_some()
        && match stem {
            Some(want) => component_is(app_stem, want),
            None => true,
        }
}

/// A bundle of a given name is a bundle: naming the stem only narrows the test.
pub proof fn lemma_named_bundle_is_bundle(exe: Seq<char>, stem: Seq<char>)
    ensures
        inside_named_app_bundle(exe, Some(stem)) ==> inside_named_app_bundle(exe, None),
{
}

/// An executable runs from a bundle exactly when its directory is named
/// `MacOS`, that directory's parent is named `Contents`, and the parent above
/// has the extension `app` and a stem, which, where a name is asked for, is that name.
pub proof fn lemma_bundle_layout(exe: Seq<char>, stem: Option<Seq<char>>)
    ensures
        inside_named_app_bundle(exe, stem) <==> exists|macos: Seq<char>, contents: Seq<char>, app: Seq<char>|
            {
                &&& path_parent(exe) == Some(macos)
                &&& path_parent(macos) == Some(contents)
                &&& path_parent(contents) == Some(app)
                &&& #[trigger] path_file_name(macos) == Some("MacOS"@)
                &&& #[trigger] path_file_name(contents) == Some("Contents"@)
                &&& #[trigger] path_extension(app) == Some("app"@)
                &&& match stem {
                    Some(want) => path_file_stem(app) == Some(want),
                    None => path_file_stem(app) is Some,
                }
            },
{
    if inside_named_app_bundle(exe, stem) {
        let (m, c, a) = bundle_dirs(exe);
        assert(path_file_name(m->0) == Some("MacOS"@));
        assert(path_file_name(c->0) == Some("Contents"@));
        assert(path_extension(a->0) == Some("app"@));
    }
}

} // verus!
