//! Which local files may be handed out.
//!
//! A file is asked for by name. The caller resolves the name against the
//! directory that is served, following links and `..`, and hands over the
//! location that came out, as its components from the root down. The file
//! may be served where that location lies under the directory and the file
//! is of a kind that is meant to be served.

use vstd::prelude::*;
use vstd::string::StrSliceExecFns;

use crate::text::same_text;

verus! {

/// The index of the last `.` in `name`, or -1 where it holds none.
pub open spec fn last_dot(name: Seq<char>) -> int
    decreases name.len(),
{
    if name.len() == 0 {
        -1
    } else if name.last() == '.' {
        name.len() - 1
    } else {
        last_dot(name.drop_last())
    }
}

/// [`last_dot`] finds a `.`, and no `.` stands behind the one it finds.
pub proof fn lemma_last_dot(name: Seq<char>)
    ensures
        -1 <= last_dot(name) < name.len(),
        last_dot(name) >= 0 ==> name[last_dot(name)] == '.',
        forall|j: int| last_dot(name) < j < name.len() ==> name[j] != '.',
    decreases name.len(),
{
    if name.len() > 0 && name.last() != '.' {
        let front = name.drop_last();
        lemma_last_dot(front);
        assert forall|j: int| last_dot(name) < j < name.len() implies name[j] != '.' by {
            if j < front.len() {
                assert(name[j] == front[j]);
            }
        }
    }
}

/// The extension of the file name `name`: what stands behind its last `.`.
/// A name without a `.`, a name whose only `.` is its first character, and
/// the name `..` have none.
pub open spec fn extension_of(name: Seq<char>) -> Option<Seq<char>> {
    if last_dot(name) <= 0 || name == seq!['.', '.'] {
        None
    } else {
        Some(name.subrange(last_dot(name) + 1, name.len() as int))
    }
}

/// Whether files with the extension `lowered`, given in lower case, are
/// served: the audio formats `mp3`, `m4a`, `flac` and `wav`.
pub open spec fn allowed_extension(lowered: Seq<char>) -> bool {
    ||| lowered == seq!['m', 'p', '3']
    ||| lowered == seq!['m', '4', 'a']
    ||| lowered == seq!['f', 'l', 'a', 'c']
    ||| lowered == seq!['w', 'a', 'v']
}

/// The text `s` in lower case, as `str::to_lowercase` gives it.
pub uninterp spec fn lowercase_of(s: Seq<char>) -> Seq<char>;

/// Turns `s` into lower case by `str::to_lowercase` of the standard library,
/// which follows the Unicode tables; the result is only given a name.
#[verifier::external_body]
fn lowercase(s: &str) -> (r: String)
    ensures
        r@ == lowercase_of(s@),
{
    s.to_lowercase()
}

/// The views of the components of a path.
pub open spec fn component_views(path: Seq<String>) -> Seq<Seq<char>> {
    path.map_values(|c: String| c@)
}

/// Whether the file at `resolved` may be served from the directory `base`.
pub open spec fn may_be_served(base: Seq<Seq<char>>, resolved: Seq<Seq<char>>) -> bool {
    &&& base.is_prefix_of(resolved)
    &&& resolved.len() > 0
    &&& extension_of(resolved.last()) is Some
    &&& allowed_extension(lowercase_of(extension_of(resolved.last())->Some_0))
}

/// The extension of the file name `name` ([`extension_of`]).
pub fn file_extension(name: &str) -> (r: Option<String>)
    ensures
        r is Some == extension_of(name@) is Some,
        r is Some ==> r->Some_0@ == extension_of(name@)->Some_0,
{
    let n = name.unicode_len();
    let mut last: Option<usize> = None;
    let mut i: usize = 0;
    while i < n
        invariant
            i <= n,
            n == name@.len(),
            last is None ==> last_dot(name@.take(i as int)) == -1,
            last is Some ==> last->Some_0 < i && last_dot(name@.take(i as int)) == last->Some_0,
        decreases n - i,
    {
        assert(name@.take(i + 1).drop_last() =~= name@.take(i as int));
        if name.get_char(i) == '.' {
            last = Some(i);
        }
        i = i + 1;
    }
    assert(name@.take(n as int) =~= name@);
    match last {
        None => None,
        Some(k) => {
            if k == 0 {
                None
            } else if n == 2 && k == 1 && name.get_char(0) == '.' {
                proof {
                    lemma_last_dot(name@);
                    assert(name@ =~= seq!['.', '.']);
                }
                None
            } else {
                Some(name.substring_char(k + 1, n).to_owned())
            }
        },
    }
}

/// Whether files with the extension `lowered`, given in lower case, are
/// served ([`allowed_extension`]).
pub fn is_allowed_extension(lowered: &str) -> (r: bool)
    ensures
        r == allowed_extension(lowered@),
{
    proof {
        reveal_strlit("mp3");
        reveal_strlit("m4a");
        reveal_strlit("flac");
        reveal_strlit("wav");
        assert("mp3"@ =~= seq!['m', 'p', '3']);
        assert("m4a"@ =~= seq!['m', '4', 'a']);
        assert("flac"@ =~= seq!['f', 'l', 'a', 'c']);
        assert("wav"@ =~= seq!['w', 'a', 'v']);
    }
    same_text(lowered, "mp3") || same_text(lowered, "m4a") || same_text(lowered, "flac")
        || same_text(lowered, "wav")
}

/// Whether the path `resolved` lies under the directory `base`: its first
/// components are those of `base`, one by one.
pub fn lies_under(base: &Vec<String>, resolved: &Vec<String>) -> (r: bool)
    ensures
        r == component_views(base@).is_prefix_of(component_views(resolved@)),
{
    if base.len() > resolved.len() {
        return false;
    }
    let mut i: usize = 0;
    while i < base.len()
        invariant
            i <= base.len(),
            base.len() <= resolved.len(),
            forall|j: int| 0 <= j < i ==> base@[j]@ == resolved@[j]@,
        decreases base.len() - i,
    {
        if !same_text(base[i].as_str(), resolved[i].as_str()) {
            assert(component_views(resolved@).subrange(0, base.len() as int)[i as int]
                != component_views(base@)[i as int]);
            return false;
        }
        i = i + 1;
    }
    true
}

/// Decides whether a local file may be served.
///
/// `base_dir` is the directory that is served and `resolved` the location
/// that the requested name resolved to, both as their components from the
/// root down; `resolved` is `None` where the name did not resolve. The
/// location is handed back where it lies under `base_dir` and the extension
/// of its last component, in lower case, is one of the audio formats that
/// are served. In every other case the answer is `None`.
pub fn sanitize_path(base_dir: &Vec<String>, resolved: Option<Vec<String>>) -> (r: Option<
    Vec<String>,
>)
    ensures
        resolved is Some && may_be_served(
            component_views(base_dir@),
            component_views(resolved->Some_0@),
        ) ==> r == resolved,
        !(resolved is Some && may_be_served(
            component_views(base_dir@),
            component_views(resolved->Some_0@),
        )) ==> r is None,
{
    match resolved {
        None => None,
        Some(path) => {
            if !lies_under(base_dir, &path) || path.len() == 0 {
                return None;
            }
            match file_extension(path[path.len() - 1].as_str()) {
                None => None,
                Some(extension) => {
                    let lowered = lowercase(extension.as_str());
                    if is_allowed_extension(lowered.as_str()) {
                        Some(path)
                    } else {
                        None
                    }
                },
            }
        },
    }
}

} // verus!
