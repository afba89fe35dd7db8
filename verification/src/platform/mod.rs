//! Platform layer: the error type shared by the storage, file-dialog and
//! capture back ends, and the naming rules of the two storage back ends
//! (files of a category directory; prefixed keys of browser local storage).

use vstd::prelude::*;
use vstd::string::*;
use crate::text::{chars_of, is_prefix, owned, sort_names, sort_strings, sorted_names, starts_with, views};

pub mod category;

verus! {

/// Platform-specific error.
#[derive(Debug)]
pub enum PlatformError {
    StorageNotAvailable,
    SerializationError(String),
    IoError(String),
    OperationCancelled,
    NotSupported(String),
}

pub open spec fn spec_error_message(e: &PlatformError) -> Seq<char> {
    match e {
        PlatformError::StorageNotAvailable => "Storage not available"@,
        PlatformError::SerializationError(m) => "Serialization error: "@ + m@,
        PlatformError::IoError(m) => "I/O error: "@ + m@,
        PlatformError::OperationCancelled => "Operation cancelled"@,
        PlatformError::NotSupported(m) => "Not supported: "@ + m@,
    }
}

fn prefixed(prefix: &str, m: &String) -> (r: String)
    ensures
        r@ == prefix@ + m@,
{
    let mut r = owned(prefix);
    r.append(m.as_str());
    r
}

impl PlatformError {
    /// The human-readable message of the error.
    pub fn message(&self) -> (r: String)
        ensures
            r@ == spec_error_message(self),
    {
        match self {
            PlatformError::StorageNotAvailable => owned("Storage not available"),
            PlatformError::SerializationError(m) => prefixed("Serialization error: ", m),
            PlatformError::IoError(m) => prefixed("I/O error: ", m),
            PlatformError::OperationCancelled => owned("Operation cancelled"),
            PlatformError::NotSupported(m) => prefixed("Not supported: ", m),
        }
    }
}

/// Name of the file that holds `key` in a category directory.
pub open spec fn spec_file_name(key: Seq<char>) -> Seq<char> {
    key + ".yaml"@
}

/// The file name under which a key is stored: `<key>.yaml`.
pub fn storage_file_name(key: &str) -> (r: String)
    ensures
        r@ == spec_file_name(key@),
{
    let mut r = owned(key);
    r.append(".yaml");
    r
}

/// Local-storage prefix of a category: `par-fractal:<category>:`.
pub open spec fn spec_key_prefix(category: Seq<char>) -> Seq<char> {
    "par-fractal:"@ + category + ":"@
}

/// The local-storage key of `key` in `category`.
pub fn make_key(category: &str, key: &str) -> (r: String)
    ensures
        r@ == spec_key_prefix(category@) + key@,
{
    let mut r = owned("par-fractal:");
    r.append(category);
    r.append(":");
    r.append(key);
    r
}

/// The key that a local-storage key stores in `category`, if it belongs
/// to that category.
pub open spec fn spec_parse_key(storage_key: Seq<char>, category: Seq<char>) -> Option<Seq<char>> {
    let p = spec_key_prefix(category);
    if is_prefix(p, storage_key) {
        Some(storage_key.subrange(p.len() as int, storage_key.len() as int))
    } else {
        None
    }
}

/// The key stored under a local-storage key of `category`, or `None`.
pub fn parse_key(storage_key: &str, category: &str) -> (r: Option<String>)
    ensures
        r matches Some(k) ==> spec_parse_key(storage_key@, category@) == Some(k@),
        r is None ==> spec_parse_key(storage_key@, category@) is None,
{
    let mut prefix = owned("par-fractal:");
    prefix.append(category);
    prefix.append(":");
    let s = chars_of(storage_key);
    let p = chars_of(prefix.as_str());
    if starts_with(&s, &p) {
        let n = storage_key.unicode_len();
        let rest = owned(storage_key.substring_char(p.len(), n));
        Some(rest)
    } else {
        None
    }
}

/// Reading a key back from its local-storage key gives the key.
pub proof fn lemma_parse_make_key(category: Seq<char>, key: Seq<char>)
    ensures
        spec_parse_key(spec_key_prefix(category) + key, category) == Some(key),
{
    let p = spec_key_prefix(category);
    let s = p + key;
    assert(s.subrange(0, p.len() as int) =~= p);
    assert(s.subrange(p.len() as int, s.len() as int) =~= key);
}

/// The keys of one category among local-storage keys, in order.
pub open spec fn category_keys(storage_keys: Seq<Seq<char>>, category: Seq<char>) -> Seq<Seq<char>>
    decreases storage_keys.len(),
{
    if storage_keys.len() == 0 {
        Seq::empty()
    } else {
        let rest = category_keys(storage_keys.drop_last(), category);
        match spec_parse_key(storage_keys.last(), category) {
            Some(k) => rest.push(k),
            None => rest,
        }
    }
}

/// The sorted keys of `category` among all local-storage keys.
pub fn list_web_keys(storage_keys: &Vec<String>, category: &str) -> (r: Vec<String>)
    ensures
        views(r@) == sort_names(category_keys(views(storage_keys@), category@)),
        sorted_names(views(r@)),
{
    let mut out: Vec<String> = Vec::new();
    let ghost src = views(storage_keys@);
    let mut i: usize = 0;
    assert(src.subrange(0, 0) =~= Seq::<Seq<char>>::empty());
    assert(views(out@) =~= Seq::<Seq<char>>::empty());
    while i < storage_keys.len()
        invariant
            i <= storage_keys@.len(),
            src == views(storage_keys@),
            views(out@) == category_keys(src.subrange(0, i as int), category@),
        decreases storage_keys@.len() - i,
    {
        let ghost pre = src.subrange(0, i as int);
        let ghost post = src.subrange(0, i + 1);
        assert(post.drop_last() =~= pre);
        assert(post.last() == storage_keys@[i as int]@);
        if let Some(k) = parse_key(storage_keys[i].as_str(), category) {
            let ghost before = out@;
            out.push(k);
            assert(views(out@) =~= views(before).push(k@));
        }
        i = i + 1;
    }
    assert(src.subrange(0, storage_keys@.len() as int) =~= src);
    sort_strings(out)
}

/// The storage names: a key's file is `<key>.yaml`, and a key of a
/// category is stored in local storage under `par-fractal:<category>:<key>`.
pub proof fn lemma_storage_names(category: Seq<char>, key: Seq<char>)
    ensures
        spec_file_name(key) == key + seq!['.', 'y', 'a', 'm', 'l'],
        spec_key_prefix(category) + key == seq!['p', 'a', 'r', '-', 'f', 'r', 'a', 'c', 't', 'a', 'l', ':'] + category + seq![':'] + key,
{
    reveal_strlit(".yaml");
    reveal_strlit("par-fractal:");
    reveal_strlit(":");
    assert(".yaml"@ =~= seq!['.', 'y', 'a', 'm', 'l']);
    assert("par-fractal:"@ =~= seq!['p', 'a', 'r', '-', 'f', 'r', 'a', 'c', 't', 'a', 'l', ':']);
    assert(":"@ =~= seq![':']);
}

/// The messages of the platform errors: fixed texts for unavailable
/// storage and a cancelled operation, and the detail after a fixed prefix
/// for the others.
pub proof fn lemma_error_messages(m: String)
    ensures
        spec_error_message(&PlatformError::StorageNotAvailable) == seq!['S', 't', 'o', 'r', 'a', 'g', 'e', ' ', 'n', 'o', 't', ' ', 'a', 'v', 'a', 'i', 'l', 'a', 'b', 'l', 'e'],
        spec_error_message(&PlatformError::OperationCancelled) == seq!['O', 'p', 'e', 'r', 'a', 't', 'i', 'o', 'n', ' ', 'c', 'a', 'n', 'c', 'e', 'l', 'l', 'e', 'd'],
        spec_error_message(&PlatformError::SerializationError(m)) == seq!['S', 'e', 'r', 'i', 'a', 'l', 'i', 'z', 'a', 't', 'i', 'o', 'n', ' ', 'e', 'r', 'r', 'o', 'r', ':', ' '] + m@,
        spec_error_message(&PlatformError::IoError(m)) == seq!['I', '/', 'O', ' ', 'e', 'r', 'r', 'o', 'r', ':', ' '] + m@,
        spec_error_message(&PlatformError::NotSupported(m)) == seq!['N', 'o', 't', ' ', 's', 'u', 'p', 'p', 'o', 'r', 't', 'e', 'd', ':', ' '] + m@,
{
    reveal_strlit("Storage not available");
    reveal_strlit("Operation cancelled");
    reveal_strlit("Serialization error: ");
    reveal_strlit("I/O error: ");
    reveal_strlit("Not supported: ");
    assert("Storage not available"@ =~= seq!['S', 't', 'o', 'r', 'a', 'g', 'e', ' ', 'n', 'o', 't', ' ', 'a', 'v', 'a', 'i', 'l', 'a', 'b', 'l', 'e']);
    assert("Operation cancelled"@ =~= seq!['O', 'p', 'e', 'r', 'a', 't', 'i', 'o', 'n', ' ', 'c', 'a', 'n', 'c', 'e', 'l', 'l', 'e', 'd']);
    assert("Serialization error: "@ =~= seq!['S', 'e', 'r', 'i', 'a', 'l', 'i', 'z', 'a', 't', 'i', 'o', 'n', ' ', 'e', 'r', 'r', 'o', 'r', ':', ' ']);
    assert("I/O error: "@ =~= seq!['I', '/', 'O', ' ', 'e', 'r', 'r', 'o', 'r', ':', ' ']);
    assert("Not supported: "@ =~= seq!['N', 'o', 't', ' ', 's', 'u', 'p', 'p', 'o', 'r', 't', 'e', 'd', ':', ' ']);
}

} // verus!
