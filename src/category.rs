use vstd::prelude::*;
use vstd::string::*;

verus! {

/// The name given to a category that could not be looked up.
pub open spec fn fallback_name_spec() -> Seq<char> {
    "Pas de catégorie"@
}

/// The name given to a category that could not be looked up.
pub fn fallback_name() -> (r: String)
    ensures
        r@ == fallback_name_spec(),
{
    String::from_str("Pas de catégorie")
}

/// What the category lookup service answered for one id.
pub enum CategoryLookup {
    /// The category exists under this display name.
    Found(String),
    /// The service knows no category of that id.
    Missing,
    /// The lookup failed: transport or decoding error.
    Failed,
}

/// The name that a lookup answer gives: the display name when found, the
/// fallback name otherwise.
pub open spec fn lookup_name(l: CategoryLookup) -> Seq<char> {
    match l {
        CategoryLookup::Found(n) => n@,
        _ => fallback_name_spec(),
    }
}

/// The cache after resolving `id` with the answer `l`, and the name returned:
/// a cached name is kept and returned, the answer unused; otherwise the
/// answer's name is cached and returned.
pub open spec fn resolve_spec(cache: Map<Seq<char>, Seq<char>>, id: Seq<char>, l: CategoryLookup) -> (
    Map<Seq<char>, Seq<char>>,
    Seq<char>,
) {
    if cache.contains_key(id) {
        (cache, cache[id])
    } else {
        (cache.insert(id, lookup_name(l)), lookup_name(l))
    }
}

/// The names of the categories resolved so far, by id. It only grows.
pub struct CategoryCache {
    entries: Vec<(String, String)>,
    names: Ghost<Map<Seq<char>, Seq<char>>>,
}

impl View for CategoryCache {
    type V = Map<Seq<char>, Seq<char>>;

    closed spec fn view(&self) -> Map<Seq<char>, Seq<char>> {
        self.names@
    }
}

impl CategoryCache {
    /// The entries stand for the names: each id of an entry is named by its
    /// entry, and each named id has an entry.
    pub closed spec fn wf(&self) -> bool {
        &&& forall|i: int|
            0 <= i < self.entries@.len() ==> #[trigger] self.names@.contains_key(self.entries@[i].0@)
                && self.names@[self.entries@[i].0@] == self.entries@[i].1@
        &&& forall|k: Seq<char>|
            #[trigger] self.names@.contains_key(k) ==> exists|i: int|
                0 <= i < self.entries@.len() && #[trigger] self.entries@[i].0@ == k
    }

    /// An empty cache.
    pub fn new() -> (r: CategoryCache)
        ensures
            r.wf(),
            r@ == Map::<Seq<char>, Seq<char>>::empty(),
    {
        CategoryCache { entries: Vec::new(), names: Ghost(Map::empty()) }
    }

    /// The cached name of `game_id`, if it was resolved before.
    pub fn get(&self, game_id: &String) -> (r: Option<String>)
        requires
            self.wf(),
        ensures
            r is Some <==> self@.contains_key(game_id@),
            r is Some ==> r->Some_0@ == self@[game_id@],
    {
        let mut i: usize = 0;
        while i < self.entries.len()
            invariant
                self.wf(),
                i <= self.entries@.len(),
                forall|j: int| 0 <= j < i ==> #[trigger] self.entries@[j].0@ != game_id@,
            decreases self.entries.len() - i,
        {
            if self.entries[i].0 == *game_id {
                assert(self.names@.contains_key(self.entries@[i as int].0@));
                return Some(self.entries[i].1.clone());
            }
            i = i + 1;
        }
        None
    }

    /// Resolves `game_id` with the lookup answer `lookup`: returns the cached
    /// name if there is one; otherwise caches and returns the answer's name,
    /// the fallback name when the category is unknown or the lookup failed.
    pub fn resolve_with(&mut self, game_id: &String, lookup: CategoryLookup) -> (name: String)
        requires
            old(self).wf(),
        ensures
            final(self).wf(),
            final(self)@ == resolve_spec(old(self)@, game_id@, lookup).0,
            name@ == resolve_spec(old(self)@, game_id@, lookup).1,
    {
        match self.get(game_id) {
            Some(name) => name,
            None => {
                let name = match lookup {
                    CategoryLookup::Found(n) => n,
                    _ => fallback_name(),
                };
                let ghost old_names = self.names@;
                let ghost old_entries = self.entries@;
                self.entries.push((game_id.clone(), name.clone()));
                self.names = Ghost(old_names.insert(game_id@, name@));
                assert forall|i: int| 0 <= i < self.entries@.len() implies #[trigger] self.names@.contains_key(self.entries@[i].0@)
                    && self.names@[self.entries@[i].0@] == self.entries@[i].1@ by {
                    if i < old_entries.len() {
                        assert(self.entries@[i] == old_entries[i]);
                        assert(old_names.contains_key(old_entries[i].0@));
                        assert(old_entries[i].0@ != game_id@);
                    }
                }
                assert forall|k: Seq<char>| #[trigger] self.names@.contains_key(k) implies exists|i: int|
                    0 <= i < self.entries@.len() && #[trigger] self.entries@[i].0@ == k by {
                    if k == game_id@ {
                        assert(self.entries@[self.entries@.len() - 1].0@ == k);
                    } else {
                        assert(old_names.contains_key(k));
                        let i = choose|i: int| 0 <= i < old_entries.len() && #[trigger] old_entries[i].0@ == k;
                        assert(self.entries@[i] == old_entries[i]);
                        assert(self.entries@[i].0@ == k);
                    }
                }
                name
            },
        }
    }
}

/// Resolving an id a second time returns the name of the first time and
/// leaves the cache as it was, whatever the second answer; after a failed or
/// empty first lookup that name is the fallback name; and once resolved, the
/// id is cached, so no further lookup is needed for it.
pub proof fn lemma_resolve_memoized(
    cache: Map<Seq<char>, Seq<char>>,
    id: Seq<char>,
    first: CategoryLookup,
    second: CategoryLookup,
)
    ensures
        ({
            let (c1, n1) = resolve_spec(cache, id, first);
            let (c2, n2) = resolve_spec(c1, id, second);
            &&& c1.contains_key(id)
            &&& c1[id] == n1
            &&& c2 == c1
            &&& n2 == n1
            &&& (!cache.contains_key(id) && !(first is Found)) ==> n1 == fallback_name_spec()
        }),
{
}

/// Resolving never drops or renames a cached category.
pub proof fn lemma_resolve_grows(cache: Map<Seq<char>, Seq<char>>, id: Seq<char>, l: CategoryLookup)
    ensures
        forall|k: Seq<char>|
            #[trigger] cache.contains_key(k) ==> resolve_spec(cache, id, l).0.contains_key(k)
                && resolve_spec(cache, id, l).0[k] == cache[k],
{
}

} // verus!
