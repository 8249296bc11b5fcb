//! Where the running executable is installed, and what that implies.
//!
//! A location is classified twice, by two tables that overlap without being
//! equal. `install_class` says whether the binary sits where an installer
//! would have put it, which decides whether removal needs the user's
//! confirmation. `requires_elevation` says whether removing it takes
//! administrator rights. A binary under `~/.cargo/bin` is a standard install
//! that needs no elevation; one under `/usr/bin` needs elevation without being
//! a standard install. `lemma_system_directories_require_elevation` states
//! the part the two tables share.
//!
//! Every entry of both tables is a directory, and a path matches it by its
//! leading components, never by its text: `/usr/local/bin2/rps` is not under
//! `/usr/local/bin`, and `/tmp/x.cargo/binx/rps` is under no cargo bin
//! directory. The cargo bin directory is `.cargo/bin` below a home directory
//! that is not known here, so any directory of that name counts.
//!
//! Paths are read the Unix way, on every host: a slash separates
//! components, an absolute path begins with one.

use vstd::prelude::*;
use crate::text::{chars_of, lemma_span_before_is, matches_at, span_before};

verus! {

/// A path part counts as a component unless it is empty or a lone dot.
pub open spec fn is_name(part: Seq<char>) -> bool {
    part.len() > 0 && part != seq!['.']
}

/// The named components of a path: the parts between slashes, without the
/// empty ones that repeated or trailing slashes leave and without `.` parts.
pub open spec fn components(path: Seq<char>) -> Seq<Seq<char>>
    decreases path.len(),
{
    if path.len() == 0 {
        Seq::empty()
    } else {
        let n = span_before(path, '/');
        let head = path.take(n as int);
        let rest = if n >= path.len() {
            Seq::empty()
        } else {
            path.skip(n as int + 1)
        };
        if is_name(head) {
            seq![head] + components(rest)
        } else {
            components(rest)
        }
    }
}

/// The path starts at the file system's root.
pub open spec fn is_absolute(path: Seq<char>) -> bool {
    path.len() > 0 && path[0] == '/'
}

/// `path` is the directory `/dir[0]/dir[1]/...` or lies below it. Whole
/// components are compared: `/usr/local/binary` is not under `/usr/local/bin`.
pub open spec fn lies_under(path: Seq<char>, dir: Seq<Seq<char>>) -> bool {
    is_absolute(path) && dir.is_prefix_of(components(path))
}

/// The components of `/usr/local/bin`.
pub open spec fn usr_local_bin() -> Seq<Seq<char>> {
    seq!["usr"@, "local"@, "bin"@]
}

/// The components of `/opt/homebrew/bin`.
pub open spec fn opt_homebrew_bin() -> Seq<Seq<char>> {
    seq!["opt"@, "homebrew"@, "bin"@]
}

/// The components of `/usr/bin`.
pub open spec fn usr_bin() -> Seq<Seq<char>> {
    seq!["usr"@, "bin"@]
}

/// The components of `/opt`.
pub open spec fn opt() -> Seq<Seq<char>> {
    seq!["opt"@]
}

/// `dir` is a cargo bin directory: its last two components are `.cargo`
/// and `bin`.
pub open spec fn is_cargo_bin(dir: Seq<Seq<char>>) -> bool {
    dir.len() >= 2 && dir[dir.len() - 2] == ".cargo"@ && dir[dir.len() - 1] == "bin"@
}

/// `path` is a cargo bin directory or lies below one: it is absolute, and
/// somewhere among its components `.cargo` is directly followed by `bin`.
pub open spec fn in_cargo_bin(path: Seq<char>) -> bool {
    is_absolute(path) && exists|k: int|
        0 <= k && k + 1 < components(path).len() && #[trigger] components(path)[k] == ".cargo"@
            && components(path)[k + 1] == "bin"@
}

/// The binary sits in one of the places an installer puts it: under
/// `/usr/local/bin`, under `/opt/homebrew/bin` or under a cargo bin
/// directory.
pub open spec fn in_standard_location(path: Seq<char>) -> bool {
    ||| lies_under(path, usr_local_bin())
    ||| lies_under(path, opt_homebrew_bin())
    ||| in_cargo_bin(path)
}

/// Removing the binary takes administrator rights: it lies under
/// `/usr/local/bin`, `/usr/bin` or `/opt`.
pub open spec fn requires_elevation(path: Seq<char>) -> bool {
    ||| lies_under(path, usr_local_bin())
    ||| lies_under(path, usr_bin())
    ||| lies_under(path, opt())
}

/// How the binary came to be where it is.
#[derive(Clone, Copy, Debug, PartialEq, Eq, Structural)]
pub enum InstallClass {
    /// In a standard install location.
    SystemInstall,
    /// Anywhere else.
    UserInstall,
}

/// The class of the binary at `path`.
pub open spec fn install_class(path: Seq<char>) -> InstallClass {
    if in_standard_location(path) {
        InstallClass::SystemInstall
    } else {
        InstallClass::UserInstall
    }
}

/// Classification is a function of the path: the same path always has the
/// same class.
pub proof fn lemma_same_path_same_class(first: Seq<char>, second: Seq<char>)
    requires
        first == second,
    ensures
        install_class(first) == install_class(second),
        requires_elevation(first) == requires_elevation(second),
{
}

/// The user installs are exactly the paths outside the standard
/// locations, and every path is one or the other.
pub proof fn lemma_user_install_is_complement(path: Seq<char>)
    ensures
        install_class(path) == InstallClass::UserInstall <==> !in_standard_location(path),
        install_class(path) == InstallClass::SystemInstall <==> in_standard_location(path),
{
}

/// A name that can stand between two slashes: a component without a slash
/// of its own.
pub open spec fn is_plain_name(part: Seq<char>) -> bool {
    is_name(part) && forall|i: int| 0 <= i < part.len() ==> part[i] != '/'
}

/// The absolute path that names `parts` one below the other:
/// `/parts[0]/parts[1]/...`.
pub open spec fn path_of(parts: Seq<Seq<char>>) -> Seq<char>
    decreases parts.len(),
{
    if parts.len() == 0 {
        Seq::empty()
    } else {
        seq!['/'] + parts[0] + path_of(parts.drop_first())
    }
}

/// A name followed by the path of further names has the name and then
/// those names as its components.
proof fn lemma_components_after_name(name: Seq<char>, parts: Seq<Seq<char>>)
    requires
        is_plain_name(name),
        forall|i: int| 0 <= i < parts.len() ==> is_plain_name(#[trigger] parts[i]),
    ensures
        components(name + path_of(parts)) == seq![name] + parts,
    decreases parts.len(),
{
    let s = name + path_of(parts);
    let n = name.len();
    lemma_span_before_is(s, '/', n);
    assert(s.take(n as int) =~= name);
    if parts.len() == 0 {
        assert(components(Seq::<char>::empty()) =~= Seq::<Seq<char>>::empty());
        assert(seq![name] + components(Seq::<char>::empty()) =~= seq![name] + parts);
    } else {
        let rest = parts.drop_first();
        assert(s.skip(n as int + 1) =~= parts[0] + path_of(rest));
        assert forall|i: int| 0 <= i < rest.len() implies is_plain_name(#[trigger] rest[i]) by {
            assert(rest[i] == parts[i + 1]);
        }
        lemma_components_after_name(parts[0], rest);
        assert(seq![name] + (seq![parts[0]] + rest) =~= seq![name] + parts);
    }
}

/// Splitting undoes joining: the path `/parts[0]/parts[1]/...` is absolute
/// and has exactly `parts` as its components.
pub proof fn lemma_components_of_path(parts: Seq<Seq<char>>)
    requires
        forall|i: int| 0 <= i < parts.len() ==> is_plain_name(#[trigger] parts[i]),
    ensures
        components(path_of(parts)) == parts,
        parts.len() > 0 ==> is_absolute(path_of(parts)),
{
    if parts.len() == 0 {
        assert(components(path_of(parts)) =~= parts);
    } else {
        let s = path_of(parts);
        let rest = parts.drop_first();
        assert(s[0] == '/');
        assert(s.take(0) =~= Seq::<char>::empty());
        assert(s.skip(1) =~= parts[0] + path_of(rest));
        assert forall|i: int| 0 <= i < rest.len() implies is_plain_name(#[trigger] rest[i]) by {
            assert(rest[i] == parts[i + 1]);
        }
        lemma_components_after_name(parts[0], rest);
        assert(seq![parts[0]] + rest =~= parts);
    }
}

/// To be in a cargo bin directory is to have one as a path prefix.
pub proof fn lemma_in_cargo_bin_is_a_prefix_test(path: Seq<char>)
    ensures
        in_cargo_bin(path) <==> exists|dir: Seq<Seq<char>>|
            is_cargo_bin(dir) && #[trigger] lies_under(path, dir),
{
    let c = components(path);
    if in_cargo_bin(path) {
        let k = choose|k: int|
            0 <= k && k + 1 < c.len() && #[trigger] c[k] == ".cargo"@ && c[k + 1] == "bin"@;
        let dir = c.take(k + 2);
        assert(dir =~= c.subrange(0, dir.len() as int));
        assert(is_cargo_bin(dir));
        assert(lies_under(path, dir));
    }
    if exists|dir: Seq<Seq<char>>| is_cargo_bin(dir) && #[trigger] lies_under(path, dir) {
        let dir = choose|dir: Seq<Seq<char>>| is_cargo_bin(dir) && #[trigger] lies_under(path, dir);
        let k = dir.len() - 2;
        assert(dir == c.subrange(0, dir.len() as int));
        assert(c[k] == dir[k]);
        assert(c[k + 1] == dir[k + 1]);
    }
}

/// Below a directory means below each of its ancestors.
pub proof fn lemma_lies_under_ancestor(path: Seq<char>, dir: Seq<Seq<char>>, depth: int)
    requires
        lies_under(path, dir),
        0 <= depth <= dir.len(),
    ensures
        lies_under(path, dir.take(depth)),
{
    let c = components(path);
    assert(dir.take(depth) =~= c.subrange(0, depth));
}

/// What the two tables share: a binary under `/usr/local/bin` or
/// `/opt/homebrew/bin` is a standard install, and removing it takes
/// elevation.
pub proof fn lemma_system_directories_require_elevation(path: Seq<char>)
    requires
        lies_under(path, usr_local_bin()) || lies_under(path, opt_homebrew_bin()),
    ensures
        install_class(path) == InstallClass::SystemInstall,
        requires_elevation(path),
{
    if lies_under(path, opt_homebrew_bin()) {
        lemma_lies_under_ancestor(path, opt_homebrew_bin(), 1);
        assert(opt_homebrew_bin().take(1) =~= opt());
    }
}

/// The views of a list of character vectors.
pub open spec fn views(parts: Seq<Vec<char>>) -> Seq<Seq<char>> {
    parts.map_values(|part: Vec<char>| part@)
}

/// A sequence that begins with `head` has `d` as a prefix exactly when `d`
/// begins with `head` too and the rest of `d` is a prefix of the rest.
proof fn lemma_prefix_of_cons(d: Seq<Seq<char>>, head: Seq<char>, tail: Seq<Seq<char>>)
    requires
        d.len() > 0,
    ensures
        d.is_prefix_of(seq![head] + tail) <==> d[0] == head && d.drop_first().is_prefix_of(tail),
{
    let whole = seq![head] + tail;
    if d.is_prefix_of(whole) {
        assert(d[0] == whole[0]);
        assert(d.drop_first() =~= tail.subrange(0, d.len() - 1)) by {
            assert forall|i: int| 0 <= i < d.len() - 1 implies d.drop_first()[i] == tail[i] by {
                assert(d[i + 1] == whole[i + 1]);
            }
        }
    }
    if d[0] == head && d.drop_first().is_prefix_of(tail) {
        assert(d =~= whole.subrange(0, d.len() as int)) by {
            assert forall|i: int| 0 <= i < d.len() implies d[i] == whole[i] by {
                if i > 0 {
                    assert(d.drop_first()[i - 1] == tail[i - 1]);
                }
            }
        }
    }
}

/// Decides `lies_under` for a directory given by its components.
pub fn path_lies_under(path: &Vec<char>, dir: &Vec<Vec<char>>) -> (r: bool)
    ensures
        r == lies_under(path@, views(dir@)),
{
    let n = path.len();
    if n == 0 || path[0] != '/' {
        return false;
    }
    let ghost want = views(dir@);
    let mut pos: usize = 0;
    let mut k: usize = 0;
    assert(path@.skip(0) =~= path@);
    assert(want.skip(0) =~= want);
    while k < dir.len()
        invariant
            pos <= n == path.len(),
            k <= dir.len(),
            want == views(dir@),
            want.is_prefix_of(components(path@)) <==> want.skip(k as int).is_prefix_of(
                components(path@.skip(pos as int)),
            ),
        decreases n - pos,
    {
        let ghost rest = path@.skip(pos as int);
        let ghost needed = want.skip(k as int);
        if pos >= n {
            assert(components(rest) =~= Seq::<Seq<char>>::empty());
            return false;
        }
        let mut end: usize = pos;
        while end < n && path[end] != '/'
            invariant
                pos <= end <= n == path.len(),
                forall|i: int| pos <= i < end ==> path@[i] != '/',
            decreases n - end,
        {
            end = end + 1;
        }
        let next: usize = if end < n {
            end + 1
        } else {
            n
        };
        proof {
            lemma_span_before_is(rest, '/', (end - pos) as nat);
            assert(rest.take(end - pos) =~= path@.subrange(pos as int, end as int));
            if end < n {
                assert(rest.skip(end - pos + 1) =~= path@.skip(next as int));
            } else {
                assert(path@.skip(next as int) =~= Seq::<char>::empty());
            }
            lemma_prefix_of_cons(
                needed,
                path@.subrange(pos as int, end as int),
                components(path@.skip(next as int)),
            );
            assert(needed[0] == dir@[k as int]@);
            assert(needed.drop_first() =~= want.skip(k as int + 1));
        }
        let named = end > pos && !(end - pos == 1 && path[pos] == '.');
        assert(named == is_name(path@.subrange(pos as int, end as int))) by {
            let part = path@.subrange(pos as int, end as int);
            if end - pos == 1 {
                assert(part[0] == path@[pos as int]);
                if path@[pos as int] == '.' {
                    assert(part =~= seq!['.']);
                }
            }
        }
        if named {
            let word = &dir[k];
            if end - pos != word.len() || !matches_at(path, word, pos) {
                return false;
            }
            k = k + 1;
        }
        pos = next;
    }
    assert(want.skip(k as int) =~= Seq::<Seq<char>>::empty());
    true
}

/// The views of a list of names.
spec fn spellings(parts: Seq<&'static str>) -> Seq<Seq<char>> {
    Seq::new(parts.len(), |i: int| parts[i]@)
}

/// The character vectors of a list of names.
fn named(parts: Vec<&'static str>) -> (dir: Vec<Vec<char>>)
    ensures
        views(dir@) == spellings(parts@),
{
    let mut dir: Vec<Vec<char>> = Vec::new();
    let mut i: usize = 0;
    while i < parts.len()
        invariant
            i <= parts.len(),
            dir.len() == i,
            forall|j: int| 0 <= j < i ==> dir@[j]@ == parts@[j]@,
        decreases parts.len() - i,
    {
        dir.push(chars_of(parts[i]));
        i = i + 1;
    }
    assert(views(dir@) =~= spellings(parts@));
    dir
}

/// The absolute path of the running executable, as text. It is read once
/// and never changes afterwards.
#[derive(Debug, PartialEq, Eq)]
pub struct BinaryLocation {
    path: String,
}

impl View for BinaryLocation {
    type V = Seq<char>;

    closed spec fn view(&self) -> Seq<char> {
        self.path@
    }
}

impl Clone for BinaryLocation {
    fn clone(&self) -> (copy: BinaryLocation)
        ensures
            copy@ == self@,
    {
        BinaryLocation { path: self.path.clone() }
    }
}

impl BinaryLocation {
    /// The location at `path`.
    pub fn new(path: String) -> (location: BinaryLocation)
        ensures
            location@ == path@,
    {
        BinaryLocation { path }
    }

    /// The path as text.
    pub fn as_str(&self) -> (path: &str)
        ensures
            path@ == self@,
    {
        self.path.as_str()
    }
}

/// The named components of `path`, in order.
pub fn path_components(path: &Vec<char>) -> (parts: Vec<Vec<char>>)
    ensures
        views(parts@) == components(path@),
{
    let n = path.len();
    let mut parts: Vec<Vec<char>> = Vec::new();
    let mut pos: usize = 0;
    assert(path@.skip(0) =~= path@);
    assert(views(parts@) + components(path@) =~= components(path@));
    while pos < n
        invariant
            pos <= n == path.len(),
            components(path@) == views(parts@) + components(path@.skip(pos as int)),
        decreases n - pos,
    {
        let ghost rest = path@.skip(pos as int);
        let ghost found = views(parts@);
        let mut part: Vec<char> = Vec::new();
        let mut end: usize = pos;
        assert(part@ =~= path@.subrange(pos as int, end as int));
        while end < n && path[end] != '/'
            invariant
                pos <= end <= n == path.len(),
                forall|i: int| pos <= i < end ==> path@[i] != '/',
                part@ == path@.subrange(pos as int, end as int),
            decreases n - end,
        {
            part.push(path[end]);
            end = end + 1;
            assert(part@ =~= path@.subrange(pos as int, end as int));
        }
        let next: usize = if end < n {
            end + 1
        } else {
            n
        };
        proof {
            lemma_span_before_is(rest, '/', (end - pos) as nat);
            assert(rest.take(end - pos) =~= part@);
            if end < n {
                assert(rest.skip(end - pos + 1) =~= path@.skip(next as int));
            } else {
                assert(path@.skip(next as int) =~= Seq::<char>::empty());
            }
        }
        let named = end > pos && !(end - pos == 1 && path[pos] == '.');
        assert(named == is_name(part@)) by {
            if end - pos == 1 {
                assert(part@[0] == path@[pos as int]);
                if path@[pos as int] == '.' {
                    assert(part@ =~= seq!['.']);
                }
            }
        }
        if named {
            let ghost head = part@;
            parts.push(part);
            assert(views(parts@) =~= found.push(head));
            assert(views(parts@) + components(path@.skip(next as int)) =~= found + (seq![head]
                + components(path@.skip(next as int))));
        }
        pos = next;
    }
    assert(components(path@.skip(pos as int)) =~= Seq::<Seq<char>>::empty());
    assert(views(parts@) + Seq::<Seq<char>>::empty() =~= views(parts@));
    parts
}

/// Whether `part` spells `word`.
fn spells(part: &Vec<char>, word: &Vec<char>) -> (same: bool)
    ensures
        same == (part@ == word@),
{
    let same = part.len() == word.len() && matches_at(part, word, 0);
    assert(part.len() == word.len() ==> part@.subrange(0, part.len() as int) =~= part@);
    same
}

/// Decides `in_cargo_bin`.
pub fn path_in_cargo_bin(path: &Vec<char>) -> (r: bool)
    ensures
        r == in_cargo_bin(path@),
{
    if path.len() == 0 || path[0] != '/' {
        return false;
    }
    let parts = path_components(path);
    let cargo = chars_of(".cargo");
    let bin = chars_of("bin");
    if parts.len() < 2 {
        return false;
    }
    let last = parts.len() - 1;
    let mut k: usize = 0;
    while k < last
        invariant
            k <= last == parts.len() - 1,
            is_absolute(path@),
            views(parts@) == components(path@),
            cargo@ == ".cargo"@,
            bin@ == "bin"@,
            forall|j: int|
                0 <= j < k ==> !(#[trigger] components(path@)[j] == ".cargo"@ && components(
                    path@,
                )[j + 1] == "bin"@),
        decreases last - k,
    {
        assert(views(parts@)[k as int] == parts@[k as int]@);
        assert(views(parts@)[k + 1] == parts@[k + 1]@);
        if spells(&parts[k], &cargo) && spells(&parts[k + 1], &bin) {
            assert(components(path@)[k as int] == ".cargo"@ && components(path@)[k + 1]
                == "bin"@);
            return true;
        }
        k = k + 1;
    }
    false
}

/// Classifies a location. The result is a function of the path alone:
/// `SystemInstall` inside the standard locations, `UserInstall` everywhere
/// else.
pub fn classify(location: &BinaryLocation) -> (class: InstallClass)
    ensures
        class == install_class(location@),
{
    let path = chars_of(location.as_str());
    let local = vec!["usr", "local", "bin"];
    let homebrew = vec!["opt", "homebrew", "bin"];
    assert(spellings(local@) =~= usr_local_bin());
    assert(spellings(homebrew@) =~= opt_homebrew_bin());
    let standard = path_lies_under(&path, &named(local)) || path_lies_under(
        &path,
        &named(homebrew),
    ) || path_in_cargo_bin(&path);
    if standard {
        InstallClass::SystemInstall
    } else {
        InstallClass::UserInstall
    }
}

/// Whether removing the binary at `location` takes administrator rights.
pub fn needs_elevation(location: &BinaryLocation) -> (needed: bool)
    ensures
        needed == requires_elevation(location@),
{
    let path = chars_of(location.as_str());
    let local = vec!["usr", "local", "bin"];
    let system = vec!["usr", "bin"];
    let optional = vec!["opt"];
    assert(spellings(local@) =~= usr_local_bin());
    assert(spellings(system@) =~= usr_bin());
    assert(spellings(optional@) =~= opt());
    path_lies_under(&path, &named(local)) || path_lies_under(&path, &named(system))
        || path_lies_under(&path, &named(optional))
}

} // verus!
