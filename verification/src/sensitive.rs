//! Sensitive-directory warnings.
//!
//! Warnings, not blocks: the user may proceed with "Add Anyway", but the
//! default recommendation is not to index credential-bearing folders.
//! Paths are given as text in a [`PathStyle`]: Unix paths split into
//! components at `/`, Windows paths at `\` and `/`; each style has its
//! own system directories.
use vstd::prelude::*;
use crate::text;
use crate::text::{chars_eq, chars_of, has_prefix, lit, split_vec};

verus! {

/// Directory names (final or intermediate components) that very likely
/// contain credentials or secrets.
pub open spec fn is_credential_name(p: Seq<char>) -> bool {
    ||| p == ".ssh"@
    ||| p == ".gnupg"@
    ||| p == ".aws"@
    ||| p == ".azure"@
    ||| p == ".kube"@
    ||| p == ".docker"@
    ||| p == ".password-store"@
    ||| p == ".mozilla"@
    ||| p == ".thunderbird"@
}

/// The path lies under a system directory.
pub open spec fn under_system_prefix(s: Seq<char>) -> bool {
    ||| text::starts_with(s, "/etc"@)
    ||| text::starts_with(s, "/usr"@)
    ||| text::starts_with(s, "/bin"@)
    ||| text::starts_with(s, "/sbin"@)
    ||| text::starts_with(s, "/boot"@)
    ||| text::starts_with(s, "/proc"@)
    ||| text::starts_with(s, "/sys"@)
}

/// The warning one component raises on its own.
pub open spec fn component_warning(p: Seq<char>) -> Option<Seq<char>> {
    if is_credential_name(p) {
        Some("credential_directory"@)
    } else if p == ".config"@ {
        Some("hidden_configuration_directory"@)
    } else {
        None
    }
}

/// The warning of the first component, from the left, that raises one.
pub open spec fn first_component_warning(ps: Seq<Seq<char>>) -> Option<Seq<char>>
    decreases ps.len(),
{
    if ps.len() == 0 {
        None
    } else if component_warning(ps[0]) is Some {
        component_warning(ps[0])
    } else {
        first_component_warning(ps.drop_first())
    }
}

/// The warning reason for a path, `None` when no warning is needed.
pub open spec fn warning_for(path: Seq<char>) -> Option<Seq<char>> {
    if under_system_prefix(path) {
        Some("system_directory"@)
    } else {
        first_component_warning(text::split_on(path, '/'))
    }
}

/// How a platform writes paths.
#[derive(Debug, Clone, Copy, PartialEq, Eq)]
pub enum PathStyle {
    /// `/`-separated paths with Unix system directories.
    Unix,
    /// `\`- or `/`-separated paths with Windows system directories.
    Windows,
}

/// The path lies under a Windows system directory.
pub open spec fn under_windows_system_prefix(s: Seq<char>) -> bool {
    ||| text::starts_with(s, "C:\\Windows"@)
    ||| text::starts_with(s, "C:\\Program Files"@)
    ||| text::starts_with(s, "C:\\Program Files (x86)"@)
}

/// `s` with every `\` turned into `/`.
pub open spec fn slashes(s: Seq<char>) -> Seq<char> {
    s.map_values(|c: char| if c == '\\' { '/' } else { c })
}

/// The warning reason for a path written in `style`.
pub open spec fn warning_in(path: Seq<char>, style: PathStyle) -> Option<Seq<char>> {
    match style {
        PathStyle::Unix => warning_for(path),
        PathStyle::Windows => if under_windows_system_prefix(path) {
            Some("system_directory"@)
        } else {
            first_component_warning(text::split_on(slashes(path), '/'))
        },
    }
}

/// The view of an optional static string.
pub open spec fn opt_view(o: Option<&str>) -> Option<Seq<char>> {
    match o {
        Some(s) => Some(s@),
        None => None,
    }
}

fn is_system_path(p: &Vec<char>) -> (r: bool)
    ensures
        r == under_system_prefix(p@),
{
    has_prefix(p, &lit("/etc")) || has_prefix(p, &lit("/usr")) || has_prefix(p, &lit("/bin"))
        || has_prefix(p, &lit("/sbin")) || has_prefix(p, &lit("/boot")) || has_prefix(
        p,
        &lit("/proc"),
    ) || has_prefix(p, &lit("/sys"))
}

fn is_windows_system_path(p: &Vec<char>) -> (r: bool)
    ensures
        r == under_windows_system_prefix(p@),
{
    has_prefix(p, &lit("C:\\Windows")) || has_prefix(p, &lit("C:\\Program Files")) || has_prefix(
        p,
        &lit("C:\\Program Files (x86)"),
    )
}

fn slashes_vec(p: &Vec<char>) -> (r: Vec<char>)
    ensures
        r@ == slashes(p@),
{
    let mut r: Vec<char> = Vec::new();
    let mut i: usize = 0;
    while i < p.len()
        invariant
            i <= p.len(),
            r@ =~= slashes(p@).take(i as int),
        decreases p.len() - i,
    {
        let c = p[i];
        if c == '\\' {
            r.push('/');
        } else {
            r.push(c);
        }
        i += 1;
    }
    assert(slashes(p@).take(p.len() as int) =~= slashes(p@));
    r
}

fn is_credential_component(p: &Vec<char>) -> (r: bool)
    ensures
        r == is_credential_name(p@),
{
    chars_eq(p, &lit(".ssh")) || chars_eq(p, &lit(".gnupg")) || chars_eq(p, &lit(".aws"))
        || chars_eq(p, &lit(".azure")) || chars_eq(p, &lit(".kube")) || chars_eq(
        p,
        &lit(".docker"),
    ) || chars_eq(p, &lit(".password-store")) || chars_eq(p, &lit(".mozilla")) || chars_eq(
        p,
        &lit(".thunderbird"),
    )
}

/// The warning of the first `/`-separated component of `p` that raises
/// one.
fn component_scan(p: &Vec<char>) -> (r: Option<&'static str>)
    ensures
        opt_view(r) == first_component_warning(text::split_on(p@, '/')),
{
    let pieces = split_vec(p, '/');
    let ghost ps = text::split_on(p@, '/');
    let mut i: usize = 0;
    assert(ps.skip(0) =~= ps);
    while i < pieces.len()
        invariant
            ps == text::split_on(p@, '/'),
            text::views(pieces@) == ps,
            i <= pieces.len(),
            first_component_warning(ps) == first_component_warning(ps.skip(i as int)),
        decreases pieces.len() - i,
    {
        let name = &pieces[i];
        assert(ps.skip(i as int)[0] == name@);
        assert(ps.skip(i as int).drop_first() =~= ps.skip(i + 1));
        if is_credential_component(name) {
            return Some("credential_directory");
        }
        if chars_eq(name, &lit(".config")) {
            return Some("hidden_configuration_directory");
        }
        i += 1;
    }
    assert(ps.skip(pieces.len() as int).len() == 0);
    None
}

/// Returns a warning reason when the Unix path `path` looks like a
/// sensitive location: `"system_directory"` under a system prefix, else
/// the reason of the first component that names a credential store
/// (`"credential_directory"`) or is `.config`
/// (`"hidden_configuration_directory"`). `None` means no warning.
pub fn sensitive_warning(path: &str) -> (r: Option<&'static str>)
    ensures
        opt_view(r) == warning_for(path@),
{
    let p = chars_of(path);
    if is_system_path(&p) {
        return Some("system_directory");
    }
    component_scan(&p)
}

/// [`sensitive_warning`] for a path written in `style`: on Windows the
/// system directories are `C:\Windows` and `C:\Program Files` (with its
/// `(x86)` sibling), and components are separated by `\` or `/`.
pub fn sensitive_warning_in(path: &str, style: PathStyle) -> (r: Option<&'static str>)
    ensures
        opt_view(r) == warning_in(path@, style),
{
    match style {
        PathStyle::Unix => sensitive_warning(path),
        PathStyle::Windows => {
            let p = chars_of(path);
            if is_windows_system_path(&p) {
                return Some("system_directory");
            }
            let u = slashes_vec(&p);
            component_scan(&u)
        },
    }
}

/// Every credential-store directory (`.ssh`, `.gnupg`, `.aws`, `.azure`,
/// `.kube`, `.docker`, `.password-store`, `.mozilla`, `.thunderbird`)
/// raises `credential_directory` when it is a component of a path that
/// lies under no system directory and has no earlier component that
/// raises a warning.
pub proof fn law_credential_directories_warn(path: Seq<char>, k: int)
    requires
        !under_system_prefix(path),
        0 <= k < text::split_on(path, '/').len(),
        forall|j: int| 0 <= j < k ==> component_warning(#[trigger] text::split_on(path, '/')[j]) is None,
        ({
            let c = text::split_on(path, '/')[k];
            ||| c == ".ssh"@
            ||| c == ".gnupg"@
            ||| c == ".aws"@
            ||| c == ".azure"@
            ||| c == ".kube"@
            ||| c == ".docker"@
            ||| c == ".password-store"@
            ||| c == ".mozilla"@
            ||| c == ".thunderbird"@
        }),
    ensures
        warning_for(path) == Some("credential_directory"@),
{
    let ps = text::split_on(path, '/');
    lemma_first_warning_at(ps, k);
}

proof fn lemma_first_warning_at(ps: Seq<Seq<char>>, k: int)
    requires
        0 <= k < ps.len(),
        forall|j: int| 0 <= j < k ==> component_warning(#[trigger] ps[j]) is None,
        is_credential_name(ps[k]),
    ensures
        first_component_warning(ps) == Some("credential_directory"@),
    decreases k,
{
    if k > 0 {
        let rest = ps.drop_first();
        assert forall|j: int| 0 <= j < k - 1 implies component_warning(#[trigger] rest[j]) is None by {
            assert(rest[j] == ps[j + 1]);
        }
        assert(component_warning(ps[0]) is None);
        lemma_first_warning_at(rest, k - 1);
    }
}

} // verus!
