//! Output paths that could escape the directory they are meant for.

use vstd::prelude::*;
use crate::error::{Error, ErrorView};

verus! {

/// One component of a path, by its kind.
#[derive(Debug, Clone, Copy, PartialEq, Eq, Structural)]
pub enum PathPart {
    /// A Windows path prefix, such as a drive.
    Prefix,
    /// The root directory.
    RootDir,
    /// The current directory, `.`.
    CurDir,
    /// The parent directory, `..`.
    ParentDir,
    /// A name.
    Normal,
}

/// Whether a `..` stands at `i`, between separators or the ends of the path.
pub open spec fn parent_dir_at(path: Seq<char>, i: int) -> bool {
    &&& 0 <= i
    &&& i + 2 <= path.len()
    &&& path[i] == '.'
    &&& path[i + 1] == '.'
    &&& i == 0 || path[i - 1] == '/'
    &&& i + 2 == path.len() || path[i + 2] == '/'
}

/// Whether one of the names between the `/` of a path is `..`.
pub open spec fn has_parent_dir(path: Seq<char>) -> bool {
    exists|i: int| parent_dir_at(path, i)
}

/// Whether a character separates names, on Unix-like systems or on Windows.
pub open spec fn is_separator(c: char) -> bool {
    c == '/' || c == '\\'
}

/// Whether a path starts with two separators: where Windows sees a prefix that
/// takes up whole names, such as a server and a share.
pub open spec fn starts_with_two_separators(path: Seq<char>) -> bool {
    path.len() >= 2 && is_separator(path[0]) && is_separator(path[1])
}

/// Whether two names, one after the other, stand between `/` before `i`.
pub open spec fn behind_two_names(path: Seq<char>, i: int) -> bool {
    exists|first: int, between: int, second: int|
        #![trigger path[first], path[between], path[second]]
        0 <= first < between < second < i && path[first] != '/' && path[between] == '/'
            && path[second] != '/'
}

/// Whether a path starts with `//` and has a `..` behind its first two names, which are
/// all that Windows can take into a prefix (a server and a share, or `.` and a device),
/// but for what may follow a `?`.
pub open spec fn has_parent_dir_behind_prefix(path: Seq<char>) -> bool {
    &&& path.len() > 2
    &&& path[0] == '/'
    &&& path[1] == '/'
    &&& path[2] != '?'
    &&& exists|i: int| #[trigger] parent_dir_at(path, i) && behind_two_names(path, i)
}

/// Whether a path starts with a character and a colon: where Windows sees a drive.
pub open spec fn starts_with_drive(path: Seq<char>) -> bool {
    path.len() >= 2 && !is_separator(path[0]) && path[1] == ':'
}

/// Whether a `..` stands at `i` that Unix-like systems or Windows may read as the
/// parent directory: between separators of either, the ends of the path, or a drive.
pub open spec fn possible_parent_dir_at(path: Seq<char>, i: int) -> bool {
    &&& 0 <= i
    &&& i + 2 <= path.len()
    &&& path[i] == '.'
    &&& path[i + 1] == '.'
    &&& i == 0 || is_separator(path[i - 1]) || (i == 2 && starts_with_drive(path))
    &&& i + 2 == path.len() || is_separator(path[i + 2])
}

/// Whether Unix-like systems or Windows may read the parent directory in a path.
pub open spec fn may_have_parent_dir(path: Seq<char>) -> bool {
    exists|i: int| possible_parent_dir_at(path, i)
}

/// Whether Unix-like systems and Windows read a path alike: it holds no backslash,
/// and does not begin with what Windows reads as a prefix (`//` or a drive letter
/// with its colon).
pub open spec fn is_portable(path: Seq<char>) -> bool {
    &&& !path.contains('\\')
    &&& !(path.len() >= 2 && path[0] == '/' && path[1] == '/')
    &&& !(path.len() >= 2 && path[1] == ':')
}

/// The pieces of a path between its `/`.
pub open spec fn segments(path: Seq<char>) -> Seq<Seq<char>>
    decreases path.len(),
{
    if path.len() == 0 {
        seq![Seq::empty()]
    } else {
        let before = segments(path.drop_last());
        if path.last() == '/' {
            before.push(Seq::empty())
        } else {
            before.drop_last().push(before.last().push(path.last()))
        }
    }
}

/// The component that a piece stands for; an empty piece and `.` stand for none.
pub open spec fn segment_part(segment: Seq<char>) -> Option<PathPart> {
    if segment.len() == 0 || segment == seq!['.'] {
        None
    } else if segment == seq!['.', '.'] {
        Some(PathPart::ParentDir)
    } else {
        Some(PathPart::Normal)
    }
}

/// The root of a path that starts with `/`, or a `.` that a path starts with.
pub open spec fn leading_part(path: Seq<char>) -> Seq<PathPart> {
    if path.len() > 0 && path[0] == '/' {
        seq![PathPart::RootDir]
    } else if segments(path)[0] == seq!['.'] {
        seq![PathPart::CurDir]
    } else {
        Seq::empty()
    }
}

/// The components of a path whose only separator is `/`: repeated and trailing
/// separators and any `.` but a leading one are dropped.
pub open spec fn slash_parts(path: Seq<char>) -> Seq<PathPart> {
    leading_part(path) + segments(path).filter_map(|s: Seq<char>| segment_part(s))
}

/// The message for a path that could escape its directory.
pub open spec fn traversal_message() -> Seq<char> {
    "Path traversal not allowed (contains '..')"@
}

/// Whether `parts` are, by their kinds, components that
/// [`std::path::Path::components`] may give for a path on the platform that the
/// crate is built for.
pub closed spec fn std_reads_parts(path: Seq<char>, parts: Seq<PathPart>) -> bool {
    exists|s: &str, c: std::path::Components|
        s@ == path && #[trigger] call_ensures(components, (s,), c) && parts_left(c) == parts
}

/// What [`validate_path`] answers for a path: an error exactly when the standard
/// library reads the parent directory in it. That is so wherever a name between `/`
/// is `..`, but that in a path that starts with two separators it may have to stand
/// behind two other names, and only where one may be read.
pub open spec fn path_verdict(path: Seq<char>, r: Result<(), Error>) -> bool {
    &&& r matches Err(e) ==> e@ == ErrorView::InvalidPath(traversal_message())
    &&& exists|parts: Seq<PathPart>| #[trigger]
        std_reads_parts(path, parts) && (r is Err <==> parts.contains(PathPart::ParentDir))
    &&& has_parent_dir(path) && !starts_with_two_separators(path) ==> r is Err
    &&& has_parent_dir_behind_prefix(path) ==> r is Err
    &&& r is Err ==> may_have_parent_dir(path)
}

/// Whether [`validate_path`] may answer `r` for a path.
pub open spec fn validates_as(path: Seq<char>, r: Result<(), Error>) -> bool {
    exists|s: &str| s@ == path && #[trigger] call_ensures(validate_path, (s,), r)
}

/// [`std::path::Components`], the components of a path that are still to come.
#[verifier::external_type_specification]
#[verifier::external_body]
pub struct ExComponents<'a>(std::path::Components<'a>);

/// The components that are still to come, each by its kind.
pub uninterp spec fn parts_left(components: std::path::Components) -> Seq<PathPart>;

/// [`std::path::Path::components`], on the platform that the crate is built for.
/// Claimed of it, on Unix-like systems and on Windows: a portable path is split at
/// `/` as [`slash_parts`] says; a `..` between `/` is the parent directory unless the
/// path starts with two separators, and then too if these are `//`, no `?` follows, and
/// two names stand before it; and the parent directory is nothing but a `..` between
/// separators, the ends of the path, or a drive. Whether the first two names after two
/// separators belong to a prefix, what a `?` there means, whether a backslash separates
/// names and whether a drive stands apart differs between the two and is left open.
#[verifier::external_body]
fn components(path: &str) -> (components: std::path::Components<'_>)
    ensures
        is_portable(path@) ==> parts_left(components) == slash_parts(path@),
        has_parent_dir(path@) && !starts_with_two_separators(path@) ==> parts_left(
            components,
        ).contains(PathPart::ParentDir),
        has_parent_dir_behind_prefix(path@) ==> parts_left(components).contains(
            PathPart::ParentDir,
        ),
        parts_left(components).contains(PathPart::ParentDir) ==> may_have_parent_dir(path@),
{
    std::path::Path::new(path).components()
}

/// The `next` of [`std::path::Components`]. Claimed of it: it takes the first of the
/// components that are still to come, and gives `None` when there are no more.
#[verifier::external_body]
fn next_part(components: &mut std::path::Components<'_>) -> (part: Option<PathPart>)
    ensures
        match part {
            Some(first) => parts_left(*old(components)) == seq![first] + parts_left(
                *final(components),
            ),
            None => parts_left(*old(components)).len() == 0 && parts_left(*final(components)).len()
                == 0,
        },
{
    match components.next() {
        None => None,
        Some(std::path::Component::Prefix(_)) => Some(PathPart::Prefix),
        Some(std::path::Component::RootDir) => Some(PathPart::RootDir),
        Some(std::path::Component::CurDir) => Some(PathPart::CurDir),
        Some(std::path::Component::ParentDir) => Some(PathPart::ParentDir),
        Some(std::path::Component::Normal(_)) => Some(PathPart::Normal),
    }
}

/// The components of a path, each by its kind.
fn path_parts(path: &str) -> (parts: Vec<PathPart>)
    ensures
        std_reads_parts(path@, parts@),
{
    let mut left: std::path::Components<'_> = components(path);
    let ghost all = parts_left(left);
    assert(call_ensures(components, (path,), left));
    let mut parts: Vec<PathPart> = Vec::new();
    loop
        invariant
            all == parts@ + parts_left(left),
            std_reads_parts(path@, all),
        decreases parts_left(left).len(),
    {
        match next_part(&mut left) {
            Some(part) => parts.push(part),
            None => {
                assert(parts@ =~= all);
                return parts;
            },
        }
        assert(all =~= parts@ + parts_left(left));
    }
}

/// What is known of the components that the standard library gives for a path.
pub proof fn lemma_std_reads_parts(path: Seq<char>, parts: Seq<PathPart>)
    requires
        std_reads_parts(path, parts),
    ensures
        is_portable(path) ==> parts == slash_parts(path),
        has_parent_dir(path) && !starts_with_two_separators(path) ==> parts.contains(
            PathPart::ParentDir,
        ),
        has_parent_dir_behind_prefix(path) ==> parts.contains(PathPart::ParentDir),
        parts.contains(PathPart::ParentDir) ==> may_have_parent_dir(path),
{
}

/// How the last piece of a path lies in it, and where the earlier pieces are `..`.
proof fn lemma_segments(path: Seq<char>)
    ensures
        segments(path).len() > 0,
        segments(path).last().len() <= path.len(),
        segments(path).last() == path.skip(path.len() - segments(path).last().len()),
        !segments(path).last().contains('/'),
        segments(path).last().len() == path.len() || path[path.len() - segments(path).last().len()
            - 1] == '/',
        segments(path).drop_last().contains(seq!['.', '.']) <==> exists|i: int|
            parent_dir_at(path, i) && i + 2 < path.len(),
    decreases path.len(),
{
    let dots = seq!['.', '.'];
    if path.len() == 0 {
        assert(segments(path).last() =~= path.skip(0));
        assert(segments(path).drop_last() =~= Seq::empty());
    } else {
        let shorter = path.drop_last();
        lemma_segments(shorter);
        let before = segments(shorter);
        let last = before.last();
        let c = path.last();
        let n = shorter.len() as int;
        assert forall|i: int| i + 2 < n implies (parent_dir_at(path, i) <==> parent_dir_at(
            shorter,
            i,
        )) by {}
        if c == '/' {
            assert(segments(path).drop_last() =~= before);
            assert(segments(path).last() =~= path.skip(path.len() as int));
            assert(before.contains(dots) <==> before.drop_last().contains(dots) || last == dots) by {
                if before.contains(dots) && last != dots {
                    let k = choose|k: int| 0 <= k < before.len() && before[k] == dots;
                    assert(before.drop_last()[k] == dots);
                }
                if before.drop_last().contains(dots) {
                    let k = choose|k: int|
                        0 <= k < before.drop_last().len() && before.drop_last()[k] == dots;
                    assert(before[k] == dots);
                }
                if last == dots {
                    assert(before[before.len() - 1] == dots);
                }
            }
            assert(last == dots <==> parent_dir_at(path, n - 2)) by {
                lemma_last_segment_is_dots(shorter, last);
                assert(parent_dir_at(path, n - 2) <==> parent_dir_at(shorter, n - 2));
            }
            if before.contains(dots) {
                if last == dots {
                    assert(parent_dir_at(path, n - 2) && n - 2 + 2 < path.len());
                } else {
                    let i = choose|i: int| parent_dir_at(shorter, i) && i + 2 < n;
                    assert(parent_dir_at(path, i) && i + 2 < path.len());
                }
            }
            if exists|i: int| parent_dir_at(path, i) && i + 2 < path.len() {
                let i = choose|i: int| parent_dir_at(path, i) && i + 2 < path.len();
                if i + 2 < n {
                    assert(parent_dir_at(shorter, i));
                }
            }
        } else {
            assert(segments(path).drop_last() =~= before.drop_last());
            assert(segments(path).last() =~= path.skip(path.len() - last.len() - 1));
            assert(!segments(path).last().contains('/')) by {
                assert forall|k: int| 0 <= k < last.push(c).len() implies last.push(c)[k] != '/' by {
                    if k < last.len() {
                        assert(last.contains(last[k]));
                    }
                }
            }
            if exists|i: int| parent_dir_at(path, i) && i + 2 < path.len() {
                let i = choose|i: int| parent_dir_at(path, i) && i + 2 < path.len();
                assert(i + 2 < n);
                assert(parent_dir_at(shorter, i));
            }
            if exists|i: int| parent_dir_at(shorter, i) && i + 2 < n {
                let i = choose|i: int| parent_dir_at(shorter, i) && i + 2 < n;
                assert(parent_dir_at(path, i) && i + 2 < path.len());
            }
        }
    }
}

/// The last piece of a path is `..` exactly when the path ends in one.
proof fn lemma_last_segment_is_dots(path: Seq<char>, last: Seq<char>)
    requires
        last.len() <= path.len(),
        last == path.skip(path.len() - last.len()),
        !last.contains('/'),
        last.len() == path.len() || path[path.len() - last.len() - 1] == '/',
    ensures
        last == seq!['.', '.'] <==> parent_dir_at(path, path.len() - 2),
{
    let n = path.len() as int;
    if last == seq!['.', '.'] {
        assert(path[n - 2] == last[0]);
        assert(path[n - 1] == last[1]);
    }
    if parent_dir_at(path, n - 2) {
        if last.len() > 2 {
            assert(last[last.len() - 3] == path[n - 3]);
            assert(last.contains('/'));
        }
        if last.len() == 1 {
            assert(path[n - 2] == '/');
        }
        if last.len() == 0 {
            assert(path[n - 1] == '/');
        }
        assert(last =~= seq!['.', '.']);
    }
}

/// One of the names between the `/` of a path is `..` exactly when the pieces that the
/// `/` split it into hold a `..`.
pub proof fn law_parent_dir_is_a_segment(path: Seq<char>)
    ensures
        has_parent_dir(path) <==> segments(path).contains(seq!['.', '.']),
{
    let dots = seq!['.', '.'];
    let pieces = segments(path);
    lemma_segments(path);
    lemma_last_segment_is_dots(path, pieces.last());
    if pieces.contains(dots) {
        let k = choose|k: int| 0 <= k < pieces.len() && pieces[k] == dots;
        if k < pieces.len() - 1 {
            assert(pieces.drop_last()[k] == dots);
        }
    }
    if has_parent_dir(path) {
        let i = choose|i: int| parent_dir_at(path, i);
        if i + 2 < path.len() {
            let k = choose|k: int|
                0 <= k < pieces.drop_last().len() && pieces.drop_last()[k] == dots;
            assert(pieces[k] == dots);
        } else {
            assert(pieces[pieces.len() - 1] == dots);
        }
    }
}

/// The parent directory is among the components of a path exactly when one of
/// its names is `..`.
pub proof fn lemma_parent_part(path: Seq<char>)
    ensures
        slash_parts(path).contains(PathPart::ParentDir) <==> has_parent_dir(path),
{
    let dots = seq!['.', '.'];
    let pieces = segments(path);
    let part = |s: Seq<char>| segment_part(s);
    let parts = pieces.filter_map(part);
    law_parent_dir_is_a_segment(path);
    assert(pieces.contains(dots) <==> parts.contains(PathPart::ParentDir)) by {
        if pieces.contains(dots) {
            let k = choose|k: int| 0 <= k < pieces.len() && pieces[k] == dots;
            assert(dots.len() != seq!['.'].len());
            lemma_filter_map_keeps(pieces, part, k, PathPart::ParentDir);
        }
        if parts.contains(PathPart::ParentDir) {
            pieces.lemma_filter_map_contains(part, PathPart::ParentDir);
            let s = choose|s: Seq<char>|
                #[trigger] pieces.contains(s) && part(s) == Some(PathPart::ParentDir);
            assert(s == dots);
        }
    }
    let lead = leading_part(path);
    assert(slash_parts(path) == lead + parts);
    if parts.contains(PathPart::ParentDir) {
        let k = choose|k: int| 0 <= k < parts.len() && parts[k] == PathPart::ParentDir;
        assert((lead + parts)[lead.len() + k] == PathPart::ParentDir);
    }
    if (lead + parts).contains(PathPart::ParentDir) {
        let k = choose|k: int|
            0 <= k < (lead + parts).len() && (lead + parts)[k] == PathPart::ParentDir;
        assert(k >= lead.len());
        assert(parts[k - lead.len()] == PathPart::ParentDir);
    }
}

/// Whether the standard library reads every path by its `/` alone, as it does on
/// Unix-like systems.
pub open spec fn reads_only_slashes() -> bool {
    forall|path: Seq<char>, parts: Seq<PathPart>| #[trigger]
        std_reads_parts(path, parts) ==> parts == slash_parts(path)
}

/// On a Unix-like system, a path is refused exactly when one of the names between its
/// `/` is `..`.
pub proof fn law_verdict_where_slash_separates(path: Seq<char>, r: Result<(), Error>)
    requires
        reads_only_slashes(),
        path_verdict(path, r),
    ensures
        r is Err <==> segments(path).contains(seq!['.', '.']),
        r is Err <==> has_parent_dir(path),
{
    law_parent_dir_is_a_segment(path);
    lemma_parent_part(path);
}

/// Whether Unix-like systems and Windows agree on whether a path has the parent
/// directory in it.
pub open spec fn is_settled(path: Seq<char>) -> bool {
    &&& !starts_with_two_separators(path)
    &&& may_have_parent_dir(path) ==> has_parent_dir(path)
}

/// A settled path is refused exactly when one of the names between its `/` is `..`. A
/// portable path is settled.
pub proof fn law_verdict_on_settled_path(path: Seq<char>, r: Result<(), Error>)
    requires
        path_verdict(path, r),
    ensures
        is_settled(path) ==> (r is Err <==> has_parent_dir(path)),
        is_portable(path) ==> is_settled(path),
{
    if is_portable(path) {
        if path.len() >= 2 && is_separator(path[0]) {
            assert(path.contains(path[0]));
            assert(path.contains(path[1]));
        }
        if may_have_parent_dir(path) {
            let i = choose|i: int| possible_parent_dir_at(path, i);
            if i > 0 {
                assert(path.contains(path[i - 1]));
            }
            if i + 2 < path.len() {
                assert(path.contains(path[i + 2]));
            }
            assert(parent_dir_at(path, i));
        }
    }
}

/// Two paths joined by a `/`.
pub open spec fn joined(a: Seq<char>, b: Seq<char>) -> Seq<char> {
    a.push('/') + b
}

/// A path joined of two has a name `..` exactly when one of its parts has.
pub proof fn law_join_has_the_parent_dirs_of_its_parts(a: Seq<char>, b: Seq<char>)
    ensures
        has_parent_dir(joined(a, b)) <==> has_parent_dir(a) || has_parent_dir(b),
        may_have_parent_dir(joined(a, b)) ==> may_have_parent_dir(a) || may_have_parent_dir(b),
{
    let whole = joined(a, b);
    let n = a.len() as int + 1;
    assert(whole[n - 1] == '/');
    if has_parent_dir(a) {
        let i = choose|i: int| parent_dir_at(a, i);
        assert(parent_dir_at(whole, i));
    }
    if has_parent_dir(b) {
        let i = choose|i: int| parent_dir_at(b, i);
        assert(parent_dir_at(whole, n + i));
    }
    if has_parent_dir(whole) {
        let i = choose|i: int| parent_dir_at(whole, i);
        if i < n {
            assert(parent_dir_at(a, i));
        } else {
            assert(parent_dir_at(b, i - n));
        }
    }
    if may_have_parent_dir(whole) {
        let i = choose|i: int| possible_parent_dir_at(whole, i);
        if i < n {
            assert(possible_parent_dir_at(a, i));
        } else {
            assert(possible_parent_dir_at(b, i - n));
        }
    }
}

/// A path joined of two is accepted exactly when both parts are: of any parts on a
/// Unix-like system, and of settled ones, joined to a path that does not start with
/// two separators, on Windows too.
pub proof fn law_join_is_accepted_if_its_parts_are(
    a: Seq<char>,
    b: Seq<char>,
    r_a: Result<(), Error>,
    r_b: Result<(), Error>,
    r: Result<(), Error>,
)
    requires
        path_verdict(a, r_a),
        path_verdict(b, r_b),
        path_verdict(joined(a, b), r),
        reads_only_slashes() || is_settled(a) && is_settled(b) && !starts_with_two_separators(
            joined(a, b),
        ),
    ensures
        r is Ok <==> r_a is Ok && r_b is Ok,
{
    law_join_has_the_parent_dirs_of_its_parts(a, b);
    if reads_only_slashes() {
        law_verdict_where_slash_separates(a, r_a);
        law_verdict_where_slash_separates(b, r_b);
        law_verdict_where_slash_separates(joined(a, b), r);
    }
}

/// What a partial function gives on an element of a sequence is among what it
/// gives on the sequence.
proof fn lemma_filter_map_keeps<A, B>(s: Seq<A>, f: spec_fn(A) -> Option<B>, k: int, b: B)
    requires
        0 <= k < s.len(),
        f(s[k]) == Some(b),
    ensures
        s.filter_map(f).contains(b),
    decreases s.len(),
{
    let rest = s.drop_last();
    let kept = rest.filter_map(f);
    if k == s.len() - 1 {
        assert(s.filter_map(f) == kept + seq![b]);
        assert((kept + seq![b])[kept.len() as int] == b);
    } else {
        lemma_filter_map_keeps(rest, f, k, b);
        let j = choose|j: int| 0 <= j < kept.len() && kept[j] == b;
        assert(s.filter_map(f)[j] == b);
    }
}

/// Refuses a path that has the parent directory among its components.
pub fn reject_parent_dir(parts: &Vec<PathPart>) -> (r: Result<(), Error>)
    ensures
        r is Err <==> parts@.contains(PathPart::ParentDir),
        r matches Err(e) ==> e@ == ErrorView::InvalidPath(traversal_message()),
{
    let mut i: usize = 0;
    while i < parts.len()
        invariant
            i <= parts.len(),
            forall|k: int| 0 <= k < i ==> parts@[k] != PathPart::ParentDir,
        decreases parts.len() - i,
    {
        if parts[i] == PathPart::ParentDir {
            assert(parts@[i as int] == PathPart::ParentDir);
            return Err(
                Error::InvalidPath("Path traversal not allowed (contains '..')".to_owned()),
            );
        }
        i = i + 1;
    }
    Ok(())
}

/// Validates that a path has no `..` component that could escape the intended
/// directory. Call this before writing to a path that a user gave.
pub fn validate_path(path: &str) -> (r: Result<(), Error>)
    ensures
        path_verdict(path@, r),
{
    let parts: Vec<PathPart> = path_parts(path);
    proof {
        lemma_std_reads_parts(path@, parts@);
    }
    reject_parent_dir(&parts)
}

} // verus!
