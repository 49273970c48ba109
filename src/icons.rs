//! Icon files: which files under the icon directories belong to an
//! identifier, and the cache of what a search found.

use vstd::prelude::*;
use crate::cache::{
    lemma_lookup_found, lemma_memo_idempotent, memo_keys_unique, memo_lookup,
    memo_recorded, MemoCache,
};
use crate::text::{owned, same_text};

verus! {

/// Directories whose trees hold icon files, searched in this order.
pub const ICON_ROOTS: [&'static str; 2] = ["/usr/share/icons", "/usr/share/pixmaps"];


/// Index of the last `c` among the first `n` characters of `s`.
pub open spec fn last_index_of(s: Seq<char>, c: char, n: int) -> Option<int>
    decreases n,
{
    if n <= 0 {
        None
    } else if s[n - 1] == c {
        Some(n - 1)
    } else {
        last_index_of(s, c, n - 1)
    }
}

/// The stem of a file name: the name without its final `.extension`; a
/// name without a dot, or whose only dot leads, is its own stem.
pub open spec fn stem_of(name: Seq<char>) -> Seq<char> {
    if name == seq!['.', '.'] {
        name
    } else {
        match last_index_of(name, '.', name.len() as int) {
            Some(p) => if p > 0 {
                name.subrange(0, p)
            } else {
                name
            },
            None => name,
        }
    }
}

/// The last component of a path.
pub open spec fn file_name_of(path: Seq<char>) -> Seq<char> {
    match last_index_of(path, '/', path.len() as int) {
        Some(p) => path.subrange(p + 1, path.len() as int),
        None => path,
    }
}

pub open spec fn has_no_slash(s: Seq<char>) -> bool {
    forall|i: int| 0 <= i < s.len() ==> s[i] != '/'
}

/// Whether a file called `name` is an icon for `identifier`: its stem is
/// the identifier, compared case-sensitively.
pub open spec fn is_icon_for(name: Seq<char>, identifier: Seq<char>) -> bool {
    has_no_slash(name) && stem_of(name) == identifier
}

/// The paths of the files of `files` (directory, file name) that are icons
/// for `identifier`, in the order given.
pub open spec fn matching_paths(files: Seq<(String, String)>, identifier: Seq<char>) -> Seq<Seq<char>>
    decreases files.len(),
{
    if files.len() == 0 {
        Seq::empty()
    } else {
        let rest = matching_paths(files.drop_last(), identifier);
        let f = files.last();
        if is_icon_for(f.1@, identifier) {
            rest.push(f.0@ + seq!['/'] + f.1@)
        } else {
            rest
        }
    }
}

pub open spec fn texts(v: Seq<String>) -> Seq<Seq<char>> {
    v.map_values(|s: String| s@)
}

proof fn lemma_last_index_none(s: Seq<char>, c: char, n: int)
    requires
        forall|i: int| 0 <= i < n ==> s[i] != c,
    ensures
        last_index_of(s, c, n) is None,
    decreases n,
{
    if n > 0 {
        lemma_last_index_none(s, c, n - 1);
    }
}

proof fn lemma_last_index_at(s: Seq<char>, c: char, k: int, n: int)
    requires
        0 <= k < n <= s.len(),
        s[k] == c,
        forall|i: int| k < i < n ==> s[i] != c,
    ensures
        last_index_of(s, c, n) == Some(k),
    decreases n,
{
    if n - 1 > k {
        lemma_last_index_at(s, c, k, n - 1);
    }
}

/// The file name of `dir/name` is `name` when `name` has no slash.
proof fn lemma_file_name_of_join(dir: Seq<char>, name: Seq<char>)
    requires
        has_no_slash(name),
    ensures
        file_name_of(dir + seq!['/'] + name) == name,
{
    let p = dir + seq!['/'] + name;
    let k = dir.len() as int;
    assert(p[k] == '/');
    assert forall|i: int| k < i < p.len() implies p[i] != '/' by {
        assert(p[i] == name[i - k - 1]);
    }
    lemma_last_index_at(p, '/', k, p.len() as int);
    assert(p.subrange(k + 1, p.len() as int) =~= name);
}

/// Every path an icon search returns has the queried identifier as its
/// file stem, exactly.
pub proof fn lemma_icon_paths_have_stem(files: Seq<(String, String)>, identifier: Seq<char>, i: int)
    requires
        0 <= i < matching_paths(files, identifier).len(),
    ensures
        stem_of(file_name_of(matching_paths(files, identifier)[i])) == identifier,
    decreases files.len(),
{
    let rest = matching_paths(files.drop_last(), identifier);
    let f = files.last();
    if i < rest.len() {
        lemma_icon_paths_have_stem(files.drop_last(), identifier, i);
        if is_icon_for(f.1@, identifier) {
            assert(matching_paths(files, identifier)[i] == rest[i]);
        }
    } else {
        lemma_file_name_of_join(f.0@, f.1@);
    }
}

/// The stem of a file name, as `stem_of` states it.
pub fn file_stem(name: &str) -> (r: String)
    ensures
        r@ == stem_of(name@),
{
    let n = name.unicode_len();
    if n == 2 && name.get_char(0) == '.' && name.get_char(1) == '.' {
        assert(name@ =~= seq!['.', '.']);
        return owned(name);
    }
    assert(name@ != seq!['.', '.']) by {
        if name@ == seq!['.', '.'] {
            assert(name@.len() == 2 && name@[0] == '.' && name@[1] == '.');
        }
    }
    let mut i: usize = n;
    while i > 0
        invariant
            n == name@.len(),
            name@ != seq!['.', '.'],
            i <= n,
            forall|j: int| i <= j < n ==> name@[j] != '.',
        decreases i,
    {
        if name.get_char(i - 1) == '.' {
            proof {
                lemma_last_index_at(name@, '.', i - 1, n as int);
            }
            if i - 1 > 0 {
                return owned(name.substring_char(0, i - 1));
            } else {
                return owned(name);
            }
        }
        i = i - 1;
    }
    proof {
        lemma_last_index_none(name@, '.', n as int);
    }
    owned(name)
}

fn no_slash(s: &str) -> (r: bool)
    ensures
        r == has_no_slash(s@),
{
    let n = s.unicode_len();
    let mut i: usize = 0;
    while i < n
        invariant
            n == s@.len(),
            i <= n,
            forall|j: int| 0 <= j < i ==> s@[j] != '/',
        decreases n - i,
    {
        if s.get_char(i) == '/' {
            return false;
        }
        i = i + 1;
    }
    true
}

/// Whether a file called `name` is an icon for `identifier`.
pub fn is_icon_file(name: &str, identifier: &str) -> (r: bool)
    ensures
        r == is_icon_for(name@, identifier@),
{
    if !no_slash(name) {
        return false;
    }
    let stem = file_stem(name);
    same_text(stem.as_str(), identifier)
}

/// The paths (`directory/name`) of the files found under the icon roots
/// that are icons for `identifier`, in the order they were found.
pub fn icon_matches(identifier: &str, files: &Vec<(String, String)>) -> (r: Vec<String>)
    ensures
        texts(r@) == matching_paths(files@, identifier@),
{
    let mut out: Vec<String> = Vec::new();
    let mut i: usize = 0;
    while i < files.len()
        invariant
            i <= files@.len(),
            texts(out@) == matching_paths(files@.subrange(0, i as int), identifier@),
        decreases files@.len() - i,
    {
        let ghost pre = files@.subrange(0, i as int);
        assert(files@.subrange(0, i + 1).drop_last() =~= pre);
        assert(files@.subrange(0, i + 1).last() == files@[i as int]);
        if is_icon_file(files[i].1.as_str(), identifier) {
            let mut p = owned(files[i].0.as_str());
            p.append("/");
            p.append(files[i].1.as_str());
            proof {
                reveal_strlit("/");
            }
            let ghost before = out@;
            out.push(p);
            assert(p@ =~= files@[i as int].0@ + seq!['/'] + files@[i as int].1@);
            assert(texts(out@) =~= texts(before).push(p@));
        }
        i = i + 1;
    }
    assert(files@.subrange(0, files@.len() as int) =~= files@);
    out
}

pub fn copy_strings(v: &Vec<String>) -> (r: Vec<String>)
    ensures
        texts(r@) == texts(v@),
{
    let mut out: Vec<String> = Vec::new();
    let mut i: usize = 0;
    while i < v.len()
        invariant
            i <= v@.len(),
            texts(out@) == texts(v@.subrange(0, i as int)),
        decreases v@.len() - i,
    {
        let ghost before = out@;
        out.push(owned(v[i].as_str()));
        assert(texts(out@) =~= texts(before).push(v@[i as int]@));
        assert(v@.subrange(0, i + 1) =~= v@.subrange(0, i as int).push(v@[i as int]));
        assert(texts(out@) =~= texts(v@.subrange(0, i + 1)));
        i = i + 1;
    }
    assert(v@.subrange(0, v@.len() as int) =~= v@);
    out
}

/// Every path of `paths` has `key` as its file stem.
pub open spec fn paths_have_stem(paths: Seq<String>, key: Seq<char>) -> bool {
    forall|j: int| 0 <= j < paths.len() ==> stem_of(file_name_of((#[trigger] paths[j])@)) == key
}

/// A well-formed icon cache stores each identifier once, and every path
/// stored under an identifier has that identifier as its file stem.
pub open spec fn icon_cache_wf(entries: Seq<(String, Vec<String>)>) -> bool {
    &&& memo_keys_unique(entries)
    &&& forall|i: int| 0 <= i < entries.len() ==> paths_have_stem((#[trigger] entries[i]).1@, entries[i].0@)
}

proof fn lemma_matches_have_stem(files: Seq<(String, String)>, identifier: Seq<char>, v: Seq<String>)
    requires
        texts(v) == matching_paths(files, identifier),
    ensures
        paths_have_stem(v, identifier),
{
    assert forall|j: int| 0 <= j < v.len() implies stem_of(file_name_of((#[trigger] v[j])@)) == identifier by {
        assert(texts(v)[j] == v[j]@);
        lemma_icon_paths_have_stem(files, identifier, j);
    }
}

/// Icon search results by identifier. Each identifier is stored once, and
/// every path stored under it has it as its file stem.
pub struct IconCache {
    memo: MemoCache<Vec<String>>,
}

impl IconCache {
    #[verifier::type_invariant]
    spec fn inv(&self) -> bool {
        icon_cache_wf(self.memo.entries@)
    }

    /// The stored entries, identifier and paths, in the order recorded.
    pub closed spec fn entries(&self) -> Seq<(String, Vec<String>)> {
        self.memo.entries@
    }

    pub fn new() -> (r: Self)
        ensures
            r.entries().len() == 0,
    {
        IconCache { memo: MemoCache::new() }
    }

    /// How many identifiers are stored.
    pub fn len(&self) -> (r: usize)
        ensures
            r == self.entries().len(),
    {
        self.memo.entries.len()
    }
}

/// The icon paths cached for `app_class_name`; `None` when the icon roots
/// have not been searched for it yet. Each path has the identifier as its
/// file stem.
pub fn icon_fetcher(cache: &IconCache, app_class_name: &str) -> (r: Option<Vec<String>>)
    ensures
        match memo_lookup(cache.entries(), app_class_name@) {
            Some(v) => r matches Some(x) && texts(x@) == texts(v@),
            None => r is None,
        },
        r matches Some(x) ==> paths_have_stem(x@, app_class_name@),
{
    proof {
        use_type_invariant(cache);
    }
    match cache.memo.lookup(app_class_name) {
        Some(v) => {
            let x = copy_strings(v);
            proof {
                let entries = cache.memo.entries@;
                lemma_lookup_found(entries, app_class_name@);
                let i = choose|i: int|
                    0 <= i < entries.len() && (#[trigger] entries[i]).0@ == app_class_name@ && memo_lookup(
                        entries,
                        app_class_name@,
                    ) == Some(entries[i].1);
                assert(paths_have_stem(entries[i].1@, entries[i].0@));
                assert(*v == entries[i].1);
                assert(texts(x@).len() == x@.len() && texts(v@).len() == v@.len());
                assert forall|j: int| 0 <= j < x@.len() implies stem_of(file_name_of((#[trigger] x@[j])@))
                    == app_class_name@ by {
                    assert(texts(x@)[j] == x@[j]@);
                    assert(texts(v@)[j] == v@[j]@);
                }
            }
            Some(x)
        },
        None => None,
    }
}

/// Ends a search of the icon roots for `app_class_name`: keeps the icon
/// files among `files` (directory, file name, in the order found), records
/// them in the cache and returns them.
pub fn finish_icon_search(cache: &mut IconCache, app_class_name: &str, files: &Vec<(String, String)>) -> (r:
    Vec<String>)
    ensures
        texts(r@) == matching_paths(files@, app_class_name@),
        paths_have_stem(r@, app_class_name@),
        exists|key: String, v: Vec<String>|
            key@ == app_class_name@ && texts(v@) == texts(r@) && final(cache).entries() == memo_recorded(
                old(cache).entries(),
                key,
                v,
            ),
{
    proof {
        use_type_invariant(&*cache);
    }
    let found = icon_matches(app_class_name, files);
    let kept = copy_strings(&found);
    let key = owned(app_class_name);
    let mut memo: MemoCache<Vec<String>> = MemoCache::new();
    std::mem::swap(&mut memo, &mut cache.memo);
    let ghost before = memo.entries@;
    proof {
        lemma_matches_have_stem(files@, app_class_name@, found@);
        lemma_matches_have_stem(files@, app_class_name@, kept@);
    }
    let ghost k = key;
    let ghost kv = kept;
    memo.record(key, kept);
    proof {
        if memo_lookup(before, k@) is None {
            let after = memo.entries@;
            assert(after == before.push((k, kv)));
            assert forall|i: int| 0 <= i < after.len() implies paths_have_stem(
                (#[trigger] after[i]).1@,
                after[i].0@,
            ) by {
                if i < before.len() {
                    assert(after[i] == before[i]);
                }
            }
        }
    }
    cache.memo = memo;
    assert(before == old(cache).entries());
    assert(k@ == app_class_name@ && texts(kv@) == texts(found@) && cache.entries() == memo_recorded(
        old(cache).entries(),
        k,
        kv,
    ));
    found
}

/// Resolving an identifier twice gives the same paths, and only the first
/// resolution searches the icon roots: once a search is recorded, a lookup
/// of the same identifier finds exactly the paths that search returned.
pub proof fn lemma_icon_search_memoized(
    entries: Seq<(String, Vec<String>)>,
    key: String,
    kept: Vec<String>,
    files: Seq<(String, String)>,
)
    requires
        memo_lookup(entries, key@) is None,
        texts(kept@) == matching_paths(files, key@),
    ensures
        memo_lookup(memo_recorded(entries, key, kept), key@) matches Some(v) && texts(v@)
            == matching_paths(files, key@),
{
    lemma_memo_idempotent(entries, key, kept, key@);
}

} // verus!
