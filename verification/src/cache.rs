//! Artwork cache: a mapping from library-item identifier to resolved artwork
//! URL, with its JSON form.
//!
//! The cache is a list of entries whose keys are pairwise different; its view
//! is the finite map that the entries spell out.

use std::collections::HashMap;
use std::path::Path;
use vstd::prelude::*;
use vstd::string::*;

verus! {

/// Name of the cache file, which lives beside the configuration file. The
/// same name in the working directory is the legacy location.
pub const CACHE_FILE_NAME: &'static str = "urls.json";

/// What an entry list looks like once every string is taken by its view.
pub open spec fn pairs(v: Seq<(String, String)>) -> Seq<(Seq<char>, Seq<char>)> {
    Seq::new(v.len(), |i: int| (v[i].0@, v[i].1@))
}

/// No key occurs twice.
pub open spec fn keys_distinct(es: Seq<(Seq<char>, Seq<char>)>) -> bool {
    forall|i: int, j: int| 0 <= i < j < es.len() ==> es[i].0 != es[j].0
}

/// The map that an entry list spells out; of two entries with one key the
/// later one counts.
pub open spec fn map_of(es: Seq<(Seq<char>, Seq<char>)>) -> Map<Seq<char>, Seq<char>>
    decreases es.len(),
{
    if es.len() == 0 {
        Map::empty()
    } else {
        map_of(es.drop_last()).insert(es.last().0, es.last().1)
    }
}

/// A key is in the map exactly when some entry carries it.
pub proof fn lemma_map_of_keys(es: Seq<(Seq<char>, Seq<char>)>, k: Seq<char>)
    ensures
        map_of(es).contains_key(k) <==> exists|i: int| 0 <= i < es.len() && (#[trigger] es[i]).0 == k,
    decreases es.len(),
{
    if es.len() > 0 {
        let front = es.drop_last();
        lemma_map_of_keys(front, k);
        if map_of(es).contains_key(k) {
            if es.last().0 == k {
                assert(es[es.len() - 1].0 == k);
            } else {
                let i = choose|i: int| 0 <= i < front.len() && (#[trigger] front[i]).0 == k;
                assert(es[i].0 == k);
            }
        }
        if exists|i: int| 0 <= i < es.len() && (#[trigger] es[i]).0 == k {
            let i = choose|i: int| 0 <= i < es.len() && (#[trigger] es[i]).0 == k;
            if i < es.len() - 1 {
                assert(front[i].0 == k);
            }
        }
    }
}

/// With distinct keys, the map sends each entry's key to that entry's value.
pub proof fn lemma_map_of_value(es: Seq<(Seq<char>, Seq<char>)>, i: int)
    requires
        keys_distinct(es),
        0 <= i < es.len(),
    ensures
        map_of(es).contains_key(es[i].0),
        map_of(es)[es[i].0] == es[i].1,
    decreases es.len(),
{
    let front = es.drop_last();
    if i < es.len() - 1 {
        assert(keys_distinct(front)) by {
            assert forall|a: int, b: int| 0 <= a < b < front.len() implies front[a].0 != front[b].0 by {
                assert(es[a].0 != es[b].0);
            }
        }
        lemma_map_of_value(front, i);
        assert(es[i].0 != es[es.len() - 1].0);
    }
}

/// Appending an entry inserts it into the map.
pub proof fn lemma_map_of_push(es: Seq<(Seq<char>, Seq<char>)>, e: (Seq<char>, Seq<char>))
    ensures
        map_of(es.push(e)) == map_of(es).insert(e.0, e.1),
{
    assert(es.push(e).drop_last() =~= es);
}

/// With distinct keys, replacing the value of entry `i` inserts the new
/// value under that entry's key, and the keys stay distinct.
pub proof fn lemma_map_of_update(es: Seq<(Seq<char>, Seq<char>)>, i: int, v: Seq<char>)
    requires
        keys_distinct(es),
        0 <= i < es.len(),
    ensures
        map_of(es.update(i, (es[i].0, v))) == map_of(es).insert(es[i].0, v),
        keys_distinct(es.update(i, (es[i].0, v))),
    decreases es.len(),
{
    let k = es[i].0;
    let after = es.update(i, (k, v));
    let front = es.drop_last();
    assert(keys_distinct(after)) by {
        assert forall|a: int, b: int| 0 <= a < b < after.len() implies after[a].0 != after[b].0 by {
            assert(es[a].0 != es[b].0);
        }
    }
    if i == es.len() - 1 {
        assert(after.drop_last() =~= front);
        assert(map_of(after) =~= map_of(es).insert(k, v));
    } else {
        assert(keys_distinct(front)) by {
            assert forall|a: int, b: int| 0 <= a < b < front.len() implies front[a].0 != front[b].0 by {
                assert(es[a].0 != es[b].0);
            }
        }
        lemma_map_of_update(front, i, v);
        assert(after.drop_last() =~= front.update(i, (k, v)));
        assert(es[i].0 != es[es.len() - 1].0);
        assert(map_of(after) =~= map_of(es).insert(k, v));
    }
}

/// The map of identifier to URL that a text holds when it is read as a JSON
/// object of strings; `None` when it cannot be read as one.
pub uninterp spec fn json_string_map(text: Seq<char>) -> Option<Map<Seq<char>, Seq<char>>>;

/// The parent of a path, as `std::path::Path::parent` gives it on the
/// platform the library is built for.
pub uninterp spec fn path_parent(path: Seq<char>) -> Option<Seq<char>>;

/// A directory joined with a file name, as `std::path::Path::join` gives it
/// on the platform the library is built for.
pub uninterp spec fn path_join(dir: Seq<char>, name: Seq<char>) -> Seq<char>;

/// `serde_json::Error`, carried through as it is; nothing is known of what
/// it holds.
#[verifier::external_type_specification]
#[verifier::external_body]
pub struct ExJsonError(serde_json::Error);

/// Trusted: calls `serde_json::from_str` for a map from string to string and
/// hands its entries out as a list. An object has each key once, so the keys
/// of the list are distinct; the map they spell out is the one that
/// `json_string_map` names. The order of the list is left open.
#[verifier::external_body]
fn parse_string_map(text: &str) -> (r: Result<Vec<(String, String)>, serde_json::Error>)
    ensures
        match r {
            Ok(v) => keys_distinct(pairs(v@)) && json_string_map(text@) == Some(map_of(pairs(v@))),
            Err(_) => json_string_map(text@) is None,
        },
{
    let m: HashMap<String, String> = serde_json::from_str(text)?;
    Ok(m.into_iter().collect())
}

/// Trusted: calls `serde_json::to_string_pretty` on the entries as a map.
/// That call fails only when a value refuses to be written or a map has keys
/// that are not strings; a map from string to string, written into memory,
/// gives it no such ground, so it succeeds. What it writes is a JSON object
/// of strings, so reading that text back with `serde_json::from_str` yields
/// the map again.
#[verifier::external_body]
fn string_map_to_json(entries: &Vec<(String, String)>) -> (r: Result<String, serde_json::Error>)
    ensures
        r is Ok,
        r matches Ok(text) ==> json_string_map(text@) == Some(map_of(pairs(entries@))),
{
    let m: HashMap<&String, &String> = entries.iter().map(|e| (&e.0, &e.1)).collect();
    serde_json::to_string_pretty(&m)
}

/// Trusted: calls `std::path::Path::parent`.
#[verifier::external_body]
fn parent_of(path: &str) -> (r: Option<String>)
    ensures
        crate::session::opt_text(r) == path_parent(path@),
{
    Path::new(path).parent().map(|p| p.to_string_lossy().into_owned())
}

/// Trusted: calls `std::path::Path::join`.
#[verifier::external_body]
fn join_path(dir: &str, name: &str) -> (r: String)
    ensures
        r@ == path_join(dir@, name@),
{
    Path::new(dir).join(name).to_string_lossy().into_owned()
}

/// Why a cache could not be put into words.
#[derive(Clone, Debug, PartialEq, Eq)]
pub enum CacheError {
    /// The entries could not be written as JSON.
    Serialize,
}

/// What reading a cache file gave.
#[derive(Clone, Debug, PartialEq, Eq)]
pub enum FileRead {
    /// There is no such file.
    Missing,
    /// The file is there but could not be read.
    Unreadable,
    /// The file's contents.
    Text(String),
}

pub enum FileReadView {
    Missing,
    Unreadable,
    Text(Seq<char>),
}

impl View for FileRead {
    type V = FileReadView;

    open spec fn view(&self) -> FileReadView {
        match self {
            FileRead::Missing => FileReadView::Missing,
            FileRead::Unreadable => FileReadView::Unreadable,
            FileRead::Text(t) => FileReadView::Text(t@),
        }
    }
}

/// The artwork cache.
#[derive(Debug)]
pub struct ArtworkCache {
    entries: Vec<(String, String)>,
}

impl View for ArtworkCache {
    type V = Map<Seq<char>, Seq<char>>;

    closed spec fn view(&self) -> Map<Seq<char>, Seq<char>> {
        map_of(pairs(self.entries@))
    }
}

/// The cache that a text holds: its map when it reads as a JSON object of
/// strings, the empty cache otherwise.
pub open spec fn cache_of_text(text: Seq<char>) -> Map<Seq<char>, Seq<char>> {
    match json_string_map(text) {
        Some(m) => m,
        None => Map::empty(),
    }
}

/// The cache that one read yields: empty unless the file was read.
pub open spec fn loaded_from(read: FileReadView) -> Map<Seq<char>, Seq<char>> {
    match read {
        FileReadView::Text(t) => cache_of_text(t),
        _ => Map::empty(),
    }
}

/// The cache at startup: from the primary file when it exists, else from the
/// legacy file when that exists, else empty.
pub open spec fn loaded_with_fallback(primary: FileReadView, fallback: FileReadView) -> Map<
    Seq<char>,
    Seq<char>,
> {
    if !(primary is Missing) {
        loaded_from(primary)
    } else {
        loaded_from(fallback)
    }
}

/// The directory to keep the cache in, given the parent of the configuration
/// file's path: that parent, or the working directory when there is none.
pub open spec fn cache_dir_of(parent: Option<Seq<char>>) -> Seq<char> {
    match parent {
        Some(dir) => dir,
        None => "."@,
    }
}

impl ArtworkCache {
    #[verifier::type_invariant]
    spec fn well_formed(&self) -> bool {
        keys_distinct(pairs(self.entries@))
    }

    /// The empty cache.
    pub fn new() -> (c: ArtworkCache)
        ensures
            c@ == Map::<Seq<char>, Seq<char>>::empty(),
    {
        ArtworkCache { entries: Vec::new() }
    }

    /// Number of entries.
    pub fn len(&self) -> (n: usize)
        ensures
            n == self@.len(),
            self@.dom().finite(),
    {
        proof {
            use_type_invariant(self);
            lemma_map_of_len(pairs(self.entries@));
        }
        self.entries.len()
    }

    fn position(&self, id: &String) -> (r: Option<usize>)
        ensures
            match r {
                Some(i) => i < self.entries@.len() && self.entries@[i as int].0@ == id@,
                None => forall|j: int| 0 <= j < self.entries@.len() ==> self.entries@[j].0@ != id@,
            },
    {
        let mut i: usize = 0;
        while i < self.entries.len()
            invariant
                i <= self.entries@.len(),
                forall|j: int| 0 <= j < i ==> self.entries@[j].0@ != id@,
            decreases self.entries@.len() - i,
        {
            if self.entries[i].0 == *id {
                return Some(i);
            }
            i += 1;
        }
        None
    }

    /// The URL cached for `id`, if there is one.
    pub fn get(&self, id: &str) -> (r: Option<String>)
        ensures
            match r {
                Some(url) => self@.contains_key(id@) && self@[id@] == url@,
                None => !self@.contains_key(id@),
            },
    {
        let key = String::from_str(id);
        let found = self.position(&key);
        proof {
            use_type_invariant(self);
            lemma_map_of_keys(pairs(self.entries@), id@);
        }
        match found {
            Some(i) => {
                proof {
                    lemma_map_of_value(pairs(self.entries@), i as int);
                }
                Some(self.entries[i].1.clone())
            },
            None => None,
        }
    }

    /// Caches `url` for `id`, in place of what was cached for it before.
    pub fn insert(&mut self, id: &str, url: &str)
        ensures
            final(self)@ == old(self)@.insert(id@, url@),
    {
        let key = String::from_str(id);
        let value = String::from_str(url);
        let found = self.position(&key);
        proof {
            use_type_invariant(&*self);
            lemma_map_of_keys(pairs(self.entries@), id@);
        }
        let ghost before = pairs(self.entries@);
        let mut entries: Vec<(String, String)> = Vec::new();
        std::mem::swap(&mut self.entries, &mut entries);
        match found {
            Some(i) => {
                proof {
                    lemma_map_of_update(before, i as int, url@);
                }
                entries.set(i, (key, value));
                assert(pairs(entries@) =~= before.update(i as int, (id@, url@)));
            },
            None => {
                proof {
                    lemma_map_of_push(before, (id@, url@));
                }
                entries.push((key, value));
                assert(pairs(entries@) =~= before.push((id@, url@)));
            },
        }
        self.entries = entries;
    }

    /// Reads a cache from its JSON form; a text that is not a JSON object of
    /// strings gives the empty cache.
    pub fn from_json(text: &str) -> (c: ArtworkCache)
        ensures
            c@ == cache_of_text(text@),
    {
        match parse_string_map(text) {
            Ok(entries) => ArtworkCache { entries },
            Err(_) => ArtworkCache::new(),
        }
    }

    /// The cache in its JSON form: a text from which `from_json` reads the
    /// same cache again. Every cache has one.
    pub fn to_json(&self) -> (r: Result<String, CacheError>)
        ensures
            r is Ok,
            r matches Ok(text) ==> json_string_map(text@) == Some(self@),
    {
        let written = string_map_to_json(&self.entries);
        stored_text(written)
    }
}

/// The number of keys of the map is at most the number of entries, and is
/// that number when the keys are distinct.
pub proof fn lemma_map_of_len(es: Seq<(Seq<char>, Seq<char>)>)
    ensures
        map_of(es).dom().finite(),
        map_of(es).len() <= es.len(),
        keys_distinct(es) ==> map_of(es).len() == es.len(),
    decreases es.len(),
{
    if es.len() > 0 {
        let front = es.drop_last();
        lemma_map_of_len(front);
        lemma_map_of_keys(front, es.last().0);
        if keys_distinct(es) {
            assert(keys_distinct(front)) by {
                assert forall|a: int, b: int| 0 <= a < b < front.len() implies front[a].0
                    != front[b].0 by {
                    assert(es[a].0 != es[b].0);
                }
            }
            if map_of(front).contains_key(es.last().0) {
                let i = choose|i: int| 0 <= i < front.len() && (#[trigger] front[i]).0 == es.last().0;
                assert(es[i].0 != es[es.len() - 1].0);
            }
        }
    }
}

/// Where the cache file lives: beside the configuration file.
pub fn cache_file_path(config_file: &str) -> (r: String)
    ensures
        r@ == path_join(cache_dir_of(path_parent(config_file@)), CACHE_FILE_NAME@),
{
    match parent_of(config_file) {
        Some(dir) => join_path(dir.as_str(), CACHE_FILE_NAME),
        None => join_path(".", CACHE_FILE_NAME),
    }
}

/// The cache that one read of a cache file yields.
pub fn load_imgur_cache(read: &FileRead) -> (c: ArtworkCache)
    ensures
        c@ == loaded_from(read@),
{
    match read {
        FileRead::Text(text) => ArtworkCache::from_json(text.as_str()),
        _ => ArtworkCache::new(),
    }
}

/// The cache at startup, given what reading the primary and the legacy file
/// gave.
pub fn load_imgur_cache_with_fallback(primary: &FileRead, fallback: &FileRead) -> (c: ArtworkCache)
    ensures
        c@ == loaded_with_fallback(primary@, fallback@),
{
    match primary {
        FileRead::Missing => load_imgur_cache(fallback),
        _ => load_imgur_cache(primary),
    }
}

/// The JSON text to store for a cache: one JSON object of strings that
/// holds the whole mapping and nothing else, so that loading it yields the
/// cache again. Every cache has one.
pub fn save_imgur_cache(cache: &ArtworkCache) -> (r: Result<String, CacheError>)
    ensures
        r is Ok,
        r matches Ok(text) ==> json_string_map(text@) == Some(cache@),
        r matches Ok(text) ==> cache_of_text(text@) == cache@,
{
    cache.to_json()
}

/// A stored cache reads back as itself: whatever text was written for a
/// cache, loading that text, as the primary file or as the legacy file
/// beside a missing primary one, yields the same mapping.
pub proof fn lemma_cache_round_trip(cache: Map<Seq<char>, Seq<char>>, text: Seq<char>)
    requires
        json_string_map(text) == Some(cache),
    ensures
        cache_of_text(text) == cache,
        forall|other: FileReadView| loaded_with_fallback(FileReadView::Text(text), other) == cache,
        loaded_with_fallback(FileReadView::Missing, FileReadView::Text(text)) == cache,
{
}

/// What storing a cache comes to, given what the JSON writer answered: the
/// text it wrote, unchanged, or `CacheError::Serialize` when it failed.
pub fn stored_text(written: Result<String, serde_json::Error>) -> (r: Result<String, CacheError>)
    ensures
        match written {
            Ok(text) => r == Ok::<String, CacheError>(text),
            Err(_) => r == Err::<String, CacheError>(CacheError::Serialize),
        },
{
    match written {
        Ok(text) => Ok(text),
        Err(_) => Err(CacheError::Serialize),
    }
}

} // verus!
