//! The install record that a package installer may have left in the
//! operating system's package registry.
//!
//! The registry is asked three things: which packages it knows, which files
//! one package installed, and to forget one package. This module reads the
//! answers to the first two; asking is the caller's business.

use vstd::prelude::*;
use vstd::string::*;
use crate::text::{
    chars_of, contains, has_substring, joined, lemma_span_before_is, lines, texts, without_cr,
};

verus! {

/// The identifier under which the tool is registered.
pub open spec fn package_id() -> Seq<char> {
    "com.package-runner-cli.rps"@
}

/// The identifier under which the tool is registered.
pub fn package_identifier() -> (id: &'static str)
    ensures
        id@ == package_id(),
{
    "com.package-runner-cli.rps"
}

/// The registry's list of packages mentions the tool.
pub open spec fn record_listed(listing: Seq<char>) -> bool {
    has_substring(listing, package_id())
}

/// Whether the registry's list of packages mentions the tool.
pub fn has_record(listing: &str) -> (found: bool)
    ensures
        found == record_listed(listing@),
{
    contains(listing, package_identifier())
}

/// A registered file's path: the registry lists files relative to the
/// root.
pub open spec fn rooted(line: Seq<char>) -> Seq<char> {
    "/"@ + line
}

/// The paths that a record's file list names, one per line, in order.
pub open spec fn registered_paths(files: Seq<char>) -> Seq<Seq<char>> {
    Seq::new(lines(files).len(), |i: int| rooted(lines(files)[i]))
}

/// The paths that a record's file list names.
pub fn registered_files(files: &str) -> (paths: Vec<String>)
    ensures
        texts(paths@) == registered_paths(files@),
{
    let cs = chars_of(files);
    let n = cs.len();
    let mut paths: Vec<String> = Vec::new();
    let mut pos: usize = 0;
    let ghost mut done: Seq<Seq<char>> = Seq::empty();
    assert(cs@.skip(0) =~= cs@);
    while pos < n
        invariant
            pos <= n == cs.len(),
            cs@ == files@,
            lines(files@) == done + lines(cs@.skip(pos as int)),
            paths.len() == done.len(),
            forall|j: int| 0 <= j < done.len() ==> paths@[j]@ == rooted(done[j]),
        decreases n - pos,
    {
        let ghost rest = cs@.skip(pos as int);
        let mut end: usize = pos;
        while end < n && cs[end] != '\n'
            invariant
                pos <= end <= n == cs.len(),
                forall|i: int| pos <= i < end ==> cs@[i] != '\n',
            decreases n - end,
        {
            end = end + 1;
        }
        proof {
            lemma_span_before_is(rest, '\n', (end - pos) as nat);
        }
        if end >= n {
            let line = files.substring_char(pos, n);
            assert(line@ =~= rest);
            let path = joined("/", line);
            assert(path@ =~= rooted(rest));
            paths.push(path);
            proof {
                assert(cs@.skip(n as int) =~= Seq::<char>::empty());
                assert(lines(rest) =~= seq![rest] + lines(cs@.skip(n as int)));
                done = done.push(rest);
            }
            pos = n;
        } else {
            let stop: usize = if end > pos && cs[end - 1] == '\r' {
                end - 1
            } else {
                end
            };
            let line = files.substring_char(pos, stop);
            let ghost full = rest.take(end - pos);
            assert(full =~= cs@.subrange(pos as int, end as int));
            assert(line@ =~= without_cr(full)) by {
                if end > pos {
                    assert(full.last() == cs@[end - 1]);
                }
                if end > pos && cs@[end - 1] == '\r' {
                    assert(full.drop_last() =~= cs@.subrange(pos as int, stop as int));
                }
            }
            let path = joined("/", line);
            assert(path@ =~= rooted(without_cr(full)));
            paths.push(path);
            proof {
                assert(rest.skip(end - pos + 1) =~= cs@.skip(end + 1));
                done = done.push(without_cr(full));
            }
            pos = end + 1;
        }
    }
    proof {
        assert(lines(cs@.skip(pos as int)) =~= Seq::<Seq<char>>::empty());
        assert(done =~= lines(files@));
        assert(texts(paths@) =~= registered_paths(files@));
    }
    paths
}

} // verus!
