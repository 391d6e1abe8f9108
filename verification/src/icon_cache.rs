//! The cache of application icons, keyed by the executable's path, so that
//! each executable's icon is extracted once.
//!
//! The entries are kept as a vector of (path, icon) pairs in which no path
//! occurs twice, and the cache is described as a map from path to icon.
//! vstd's specification of `HashMap` proves nothing useful for string keys,
//! which is why the map is not a `HashMap`.

use vstd::prelude::*;

verus! {

/// The icon stored for `path` among `entries`, the latest entry winning.
pub open spec fn find_icon(entries: Seq<(String, String)>, path: Seq<char>) -> Option<Seq<char>>
    decreases entries.len(),
{
    if entries.len() == 0 {
        None
    } else if entries.last().0@ == path {
        Some(entries.last().1@)
    } else {
        find_icon(entries.drop_last(), path)
    }
}

/// No path occurs in two entries.
pub open spec fn distinct_paths(entries: Seq<(String, String)>) -> bool {
    forall|i: int, j: int|
        0 <= i < j < entries.len() ==> #[trigger] entries[i].0@ != #[trigger] entries[j].0@
}

/// Base64 PNG icons by executable path.
pub struct IconCache {
    entries: Vec<(String, String)>,
}

impl View for IconCache {
    type V = Map<Seq<char>, Seq<char>>;

    /// The cache as a map from path to icon text.
    closed spec fn view(&self) -> Map<Seq<char>, Seq<char>> {
        Map::new(
            |path: Seq<char>| find_icon(self.entries@, path) is Some,
            |path: Seq<char>| find_icon(self.entries@, path)->0,
        )
    }
}

/// With distinct paths, the entry holding `path` gives its icon.
proof fn lemma_find_at(entries: Seq<(String, String)>, i: int)
    requires
        distinct_paths(entries),
        0 <= i < entries.len(),
    ensures
        find_icon(entries, entries[i].0@) == Some(entries[i].1@),
    decreases entries.len(),
{
    if i < entries.len() - 1 {
        let rest = entries.drop_last();
        assert(entries.last().0@ != entries[i].0@);
        assert(rest[i] == entries[i]);
        assert(distinct_paths(rest));
        lemma_find_at(rest, i);
    }
}

/// A path that no entry holds has no icon.
proof fn lemma_find_absent(entries: Seq<(String, String)>, path: Seq<char>)
    requires
        forall|i: int| 0 <= i < entries.len() ==> #[trigger] entries[i].0@ != path,
    ensures
        find_icon(entries, path) is None,
    decreases entries.len(),
{
    if entries.len() > 0 {
        let rest = entries.drop_last();
        assert(forall|i: int| 0 <= i < rest.len() ==> rest[i] == entries[i]);
        lemma_find_absent(rest, path);
    }
}

/// The icon of `path` with distinct paths: the entry that holds it, or none.
proof fn lemma_find_exact(entries: Seq<(String, String)>, path: Seq<char>)
    requires
        distinct_paths(entries),
    ensures
        find_icon(entries, path) is Some <==> exists|i: int|
            0 <= i < entries.len() && #[trigger] entries[i].0@ == path,
        forall|i: int|
            0 <= i < entries.len() && #[trigger] entries[i].0@ == path ==> find_icon(entries, path)
                == Some(entries[i].1@),
{
    if exists|i: int| 0 <= i < entries.len() && #[trigger] entries[i].0@ == path {
        let i: int = choose|i: int| 0 <= i < entries.len() && #[trigger] entries[i].0@ == path;
        lemma_find_at(entries, i);
    } else {
        lemma_find_absent(entries, path);
    }
    assert forall|i: int|
        0 <= i < entries.len() && #[trigger] entries[i].0@ == path implies find_icon(entries, path)
            == Some(entries[i].1@) by {
        lemma_find_at(entries, i);
    }
}

impl IconCache {
    #[verifier::type_invariant]
    spec fn paths_distinct(self) -> bool {
        distinct_paths(self.entries@)
    }

    /// An empty cache.
    pub fn new() -> (cache: Self)
        ensures
            cache@ == Map::<Seq<char>, Seq<char>>::empty(),
    {
        let cache = IconCache { entries: Vec::new() };
        assert(cache@ =~= Map::<Seq<char>, Seq<char>>::empty());
        cache
    }

    /// The cached icon of `path`, if there is one.
    pub fn lookup(&self, path: &str) -> (icon: Option<String>)
        ensures
            match icon {
                Some(text) => self@.contains_key(path@) && text@ == self@[path@],
                None => !self@.contains_key(path@),
            },
    {
        proof {
            use_type_invariant(self);
            lemma_find_exact(self.entries@, path@);
        }
        let key = path.to_owned();
        let n: usize = self.entries.len();
        let mut i: usize = 0;
        while i < n
            invariant
                n == self.entries@.len(),
                i <= n,
                key@ == path@,
                forall|j: int| 0 <= j < i ==> #[trigger] self.entries@[j].0@ != path@,
            decreases n - i,
        {
            if self.entries[i].0 == key {
                proof {
                    use_type_invariant(self);
                    lemma_find_at(self.entries@, i as int);
                }
                assert(self.entries@[i as int].0@ == path@);
                assert(find_icon(self.entries@, path@) == Some(self.entries@[i as int].1@));
                assert(self@.contains_key(path@));
                return Some(self.entries[i].1.clone());
            }
            i = i + 1;
        }
        None
    }

    /// Stores `icon` as the icon of `path`, replacing any earlier one.
    pub fn insert(&mut self, path: &str, icon: String)
        ensures
            final(self)@ == old(self)@.insert(path@, icon@),
    {
        proof {
            use_type_invariant(&*self);
        }
        let key = path.to_owned();
        let ghost before = self.entries@;
        let n: usize = self.entries.len();
        let mut i: usize = 0;
        while i < n
            invariant
                n == self.entries@.len(),
                self.entries@ == before,
                old(self).entries@ == before,
                distinct_paths(before),
                i <= n,
                key@ == path@,
                forall|j: int| 0 <= j < i ==> #[trigger] before[j].0@ != path@,
            decreases n - i,
        {
            if self.entries[i].0 == key {
                let ghost after = before.update(i as int, (key, icon));
                proof {
                    assert(distinct_paths(after));
                    lemma_find_exact(before, path@);
                    lemma_find_at(after, i as int);
                    assert forall|p: Seq<char>| p != path@ implies find_icon(after, p)
                        == find_icon(before, p) by {
                        lemma_find_exact(before, p);
                        lemma_find_exact(after, p);
                        if exists|j: int| 0 <= j < before.len() && #[trigger] before[j].0@ == p {
                            let j: int = choose|j: int| 0 <= j < before.len() && #[trigger] before[j].0@ == p;
                            assert(after[j] == before[j]);
                        }
                        if exists|j: int| 0 <= j < after.len() && #[trigger] after[j].0@ == p {
                            let j: int = choose|j: int| 0 <= j < after.len() && #[trigger] after[j].0@ == p;
                            assert(after[j] == before[j]);
                        }
                    }
                    assert forall|p: Seq<char>| #![auto] find_icon(after, p) == (if p == path@ {
                        Some(icon@)
                    } else {
                        find_icon(before, p)
                    }) by {}
                }
                let mut entries: Vec<(String, String)> = Vec::new();
                std::mem::swap(&mut entries, &mut self.entries);
                entries.set(i, (key, icon));
                self.entries = entries;
                assert(self@ =~= old(self)@.insert(path@, icon@));
                return;
            }
            i = i + 1;
        }
        let ghost after = before.push((key, icon));
        proof {
            assert(distinct_paths(after));
            assert forall|p: Seq<char>| #![auto] find_icon(after, p) == (if p == path@ {
                Some(icon@)
            } else {
                find_icon(before, p)
            }) by {
                assert(after.drop_last() =~= before);
            }
        }
        let mut entries: Vec<(String, String)> = Vec::new();
        std::mem::swap(&mut entries, &mut self.entries);
        entries.push((key, icon));
        self.entries = entries;
        assert(self@ =~= old(self)@.insert(path@, icon@));
    }

    /// The listing step after `lookup` found no icon for `path` and the icon
    /// was extracted: a successful extraction is cached and returned, a failed
    /// one is not cached and gives no icon. An icon already cached for `path`
    /// is kept and returned instead, so a cached icon is never replaced and
    /// no cached entry changes.
    pub fn record(&mut self, path: &str, extracted: Result<String, String>) -> (icon: Option<
        String,
    >)
        ensures
            old(self)@.contains_key(path@) ==> {
                &&& icon matches Some(text) && text@ == old(self)@[path@]
                &&& final(self)@ == old(self)@
            },
            !old(self)@.contains_key(path@) ==> match extracted {
                Ok(text) => {
                    &&& icon == Some(text)
                    &&& final(self)@ == old(self)@.insert(path@, text@)
                },
                Err(_) => {
                    &&& icon is None
                    &&& final(self)@ == old(self)@
                },
            },
            forall|p: Seq<char>|
                #[trigger] old(self)@.contains_key(p) ==> final(self)@.contains_key(p)
                    && final(self)@[p] == old(self)@[p],
    {
        match self.lookup(path) {
            Some(cached) => Some(cached),
            None => match extracted {
                Ok(text) => {
                    let stored = text.clone();
                    self.insert(path, stored);
                    Some(text)
                },
                Err(_) => None,
            },
        }
    }
}

/// Read after write: once a cache has recorded `icon` for `path`, looking up
/// `path` finds `icon`, and looking up any other path finds what it found
/// before.
pub proof fn lemma_lookup_after_record(
    before: IconCache,
    after: IconCache,
    path: Seq<char>,
    icon: Seq<char>,
    other: Seq<char>,
)
    requires
        after@ == before@.insert(path, icon),
    ensures
        after@.contains_key(path),
        after@[path] == icon,
        other != path ==> (after@.contains_key(other) == before@.contains_key(other)),
        other != path && before@.contains_key(other) ==> after@[other] == before@[other],
{
}

} // verus!
