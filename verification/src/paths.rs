//! Host filesystem paths: which of them exist, their parent directory and
//! their extension.

use vstd::prelude::*;

verus! {

/// Whether something exists at `path`: `std::path::Path::exists`. What it
/// returns depends on the filesystem at the moment of the call, so nothing
/// is promised of it.
#[verifier::external_body]
pub(crate) fn path_exists(path: &str) -> bool {
    std::path::Path::new(path).exists()
}

/// The parent directory of a path as `std::path::Path::parent` computes it
/// (from the path's text alone).
pub uninterp spec fn parent_of_path(path: Seq<char>) -> Option<Seq<char>>;

/// `std::path::Path::parent`, with the parent taken back as text. The
/// contract claims only that the result is the named function of the input.
#[verifier::external_body]
pub fn path_parent(path: &str) -> (r: Option<String>)
    ensures
        match r {
            Some(p) => parent_of_path(path@) == Some(p@),
            None => parent_of_path(path@) is None,
        },
{
    match std::path::Path::new(path).parent() {
        Some(p) => Some(p.to_string_lossy().into_owned()),
        None => None,
    }
}

/// The path that `std::path::Path::with_extension` makes of `path` with
/// `extension` (from the two texts alone).
pub uninterp spec fn path_with_extension(path: Seq<char>, extension: Seq<char>) -> Seq<char>;

/// `std::path::Path::with_extension`, taken back as text (the result of a
/// UTF-8 path and a UTF-8 extension is UTF-8, so nothing is lost). The
/// contract claims only that the result is the named function of the two
/// inputs. std panics when the extension holds a path separator, which
/// `requires` excludes.
#[verifier::external_body]
pub fn path_with_extension_of(path: &str, extension: &str) -> (r: String)
    requires
        forall|i: int| 0 <= i < extension@.len() ==> extension@[i] != '/',
    ensures
        r@ == path_with_extension(path@, extension@),
{
    std::path::Path::new(path).with_extension(extension).to_string_lossy().into_owned()
}

/// The set of path texts held by `v`.
pub open spec fn path_set(v: Seq<String>) -> Set<Seq<char>> {
    Set::new(|p: Seq<char>| exists|i: int| 0 <= i < v.len() && (#[trigger] v[i])@ == p)
}

/// Whether `v` holds the path `p`.
pub fn holds_path(v: &Vec<String>, p: &String) -> (r: bool)
    ensures
        r == path_set(v@).contains(p@),
{
    let mut i: usize = 0;
    while i < v.len()
        invariant
            i <= v@.len(),
            forall|j: int| 0 <= j < i ==> (#[trigger] v@[j])@ != p@,
        decreases v.len() - i,
    {
        if v[i] == *p {
            assert(v@[i as int]@ == p@);
            return true;
        }
        i = i + 1;
    }
    false
}

/// The entries of `paths` whose flag in `found` is set, in their order.
pub open spec fn kept_paths(paths: Seq<String>, found: Seq<bool>) -> Seq<String>
    decreases paths.len(),
{
    if paths.len() == 0 {
        Seq::empty()
    } else {
        let rest = kept_paths(paths.drop_last(), found.drop_last());
        if found.last() {
            rest.push(paths.last())
        } else {
            rest
        }
    }
}

/// Every entry kept from `paths` is one of `paths`.
pub proof fn lemma_kept_paths_subset(paths: Seq<String>, found: Seq<bool>)
    requires
        found.len() == paths.len(),
    ensures
        path_set(kept_paths(paths, found)).subset_of(path_set(paths)),
    decreases paths.len(),
{
    if paths.len() > 0 {
        lemma_kept_paths_subset(paths.drop_last(), found.drop_last());
        let rest = kept_paths(paths.drop_last(), found.drop_last());
        let r = kept_paths(paths, found);
        assert forall|p: Seq<char>| path_set(r).contains(p) implies path_set(paths).contains(
            p,
        ) by {
            let k = choose|k: int| 0 <= k < r.len() && (#[trigger] r[k])@ == p;
            if k < rest.len() {
                assert(r[k] == rest[k]);
                assert(path_set(rest).contains(p));
                let j = choose|j: int|
                    0 <= j < paths.drop_last().len() && (#[trigger] paths.drop_last()[j])@ == p;
                assert(paths[j]@ == p);
            } else {
                assert(paths[paths.len() - 1]@ == p);
            }
        }
    }
}

/// Those of `paths` that exist on the host now: the entries, in order, for
/// which `Path::exists` answered yes when probed once each.
pub fn existing_paths(paths: &Vec<String>) -> (r: Vec<String>)
    ensures
        exists|found: Seq<bool>|
            found.len() == paths@.len() && r@ == #[trigger] kept_paths(paths@, found),
        path_set(r@).subset_of(path_set(paths@)),
{
    let mut r: Vec<String> = Vec::new();
    let ghost mut found: Seq<bool> = Seq::empty();
    let mut i: usize = 0;
    while i < paths.len()
        invariant
            i <= paths@.len(),
            found.len() == i,
            r@ == kept_paths(paths@.subrange(0, i as int), found),
        decreases paths.len() - i,
    {
        let ghost prefix = paths@.subrange(0, i + 1);
        assert(prefix.drop_last() =~= paths@.subrange(0, i as int));
        assert(prefix.last() == paths@[i as int]);
        let exists = path_exists(paths[i].as_str());
        let ghost before = found;
        proof {
            found = found.push(exists);
        }
        assert(found.drop_last() =~= before);
        assert(found.last() == exists);
        if exists {
            let p = paths[i].clone();
            r.push(p);
        }
        assert(kept_paths(prefix, found) == r@);
        i = i + 1;
    }
    assert(paths@.subrange(0, paths@.len() as int) =~= paths@);
    proof {
        lemma_kept_paths_subset(paths@, found);
    }
    r
}

} // verus!
