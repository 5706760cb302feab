//! The files the web server hands out: each asset is kept gzip-compressed
//! under its lower-case name, with the MIME type its extension suggests.

use std::io::Write;

use vstd::hash_map::StringHashMap;
use vstd::prelude::*;

verus! {

/// A file to serve: its MIME type and its compressed bytes.
pub struct File {
    pub mime_type: String,
    pub data: Vec<u8>,
}

/// A file as a value.
pub struct FileView {
    pub mime_type: Seq<char>,
    pub data: Seq<u8>,
}

impl View for File {
    type V = FileView;

    open spec fn view(&self) -> FileView {
        FileView { mime_type: self.mime_type@, data: self.data@ }
    }
}

impl File {
    pub fn new(mime_type: String, data: Vec<u8>) -> (r: Self)
        ensures
            r.mime_type@ == mime_type@,
            r.data@ == data@,
    {
        Self { mime_type, data }
    }
}

/// A byte-by-byte copy of `f`.
fn copy_file(f: &File) -> (r: File)
    ensures
        r@ == f@,
{
    let mut data: Vec<u8> = Vec::new();
    let mut i: usize = 0;
    while i < f.data.len()
        invariant
            i <= f.data@.len(),
            data@ == f.data@.take(i as int),
        decreases f.data@.len() - i,
    {
        data.push(f.data[i]);
        i = i + 1;
        assert(data@ =~= f.data@.take(i as int));
    }
    assert(f.data@.take(i as int) =~= f.data@);
    File { mime_type: f.mime_type.clone(), data }
}

/// The gzip stream that `flate2` makes of `raw` at the default level, with
/// no file name, comment or time stamp.
pub uninterp spec fn gzip_of(raw: Seq<u8>) -> Seq<u8>;

/// The MIME type that `new_mime_guess` guesses first from the extension of
/// `file_name`, if it knows one.
pub uninterp spec fn mime_guess_of(file_name: Seq<char>) -> Option<Seq<char>>;

/// `s` with the letters `A` to `Z` made lower-case and every other
/// character kept.
pub open spec fn ascii_lowercase(s: Seq<char>) -> Seq<char> {
    s.map_values(|c: char| if 'A' <= c && c <= 'Z' { ((c as u32) + 32) as char } else { c })
}

/// Compresses `raw` with `flate2::write::GzEncoder` at the default level,
/// writing into a `Vec`. The result is named by `gzip_of`; `flate2` writes
/// the gzip magic bytes 0x1f 0x8b first, which is all that is said of its
/// content. Writing into a `Vec` does not fail.
#[verifier::external_body]
fn gzip(raw: &[u8]) -> (r: Vec<u8>)
    ensures
        r@ == gzip_of(raw@),
        r@.len() >= 2 && r@[0] == 0x1fu8 && r@[1] == 0x8bu8,
{
    let mut encoder = flate2::write::GzEncoder::new(Vec::new(), flate2::Compression::default());
    encoder.write_all(raw).unwrap();
    encoder.finish().unwrap()
}

/// The first MIME type that `new_mime_guess::from_path` guesses for
/// `file_name`, as a string; named by `mime_guess_of`.
#[verifier::external_body]
fn guess_mime_type(file_name: &str) -> (r: Option<String>)
    ensures
        r matches Some(m) ==> mime_guess_of(file_name@) == Some(m@),
        r is None ==> mime_guess_of(file_name@) is None,
{
    match new_mime_guess::from_path(file_name).first() {
        Some(m) => Some(m.to_string()),
        None => None,
    }
}

/// `str::to_ascii_lowercase`: a copy of `s` with `A` to `Z` mapped to `a` to
/// `z`, as its documentation says.
#[verifier::external_body]
fn to_ascii_lowercase(s: &str) -> (r: String)
    ensures
        r@ == ascii_lowercase(s@),
{
    s.to_ascii_lowercase()
}

/// Lower-casing keeps the length, turns each letter `A` to `Z` into the
/// lower-case letter at the same place in the alphabet, and keeps every
/// other character.
pub proof fn lemma_ascii_lowercase(s: Seq<char>)
    ensures
        ascii_lowercase(s).len() == s.len(),
        forall|i: int|
            0 <= i < s.len() && 'A' <= s[i] <= 'Z' ==> 'a' <= #[trigger] ascii_lowercase(s)[i] <= 'z' && (
            ascii_lowercase(s)[i] as int) - ('a' as int) == (s[i] as int) - ('A' as int),
        forall|i: int| 0 <= i < s.len() && !('A' <= s[i] <= 'Z') ==> #[trigger] ascii_lowercase(s)[i] == s[i],
{
}

/// The store that the assets make, taken in order: an asset with no known
/// MIME type is left out, and of two assets with the same lower-case name
/// the later one is kept.
pub open spec fn store_of(assets: Seq<(Seq<char>, Seq<u8>)>) -> Map<Seq<char>, FileView>
    decreases assets.len(),
{
    if assets.len() == 0 {
        Map::empty()
    } else {
        let before = store_of(assets.drop_last());
        let (name, raw) = assets.last();
        match mime_guess_of(name) {
            Some(m) => before.insert(ascii_lowercase(name), FileView { mime_type: m, data: gzip_of(raw) }),
            None => before,
        }
    }
}

/// An asset whose MIME type is known is served under its lower-case name,
/// with that type and its compressed bytes, unless a later asset with a
/// known MIME type has the same lower-case name.
pub proof fn lemma_asset_is_served(assets: Seq<(Seq<char>, Seq<u8>)>, k: int)
    requires
        0 <= k < assets.len(),
        mime_guess_of(assets[k].0) is Some,
        forall|j: int|
            k < j < assets.len() && (#[trigger] mime_guess_of(assets[j].0)) is Some ==> ascii_lowercase(assets[j].0)
                != ascii_lowercase(assets[k].0),
    ensures
        store_of(assets).contains_key(ascii_lowercase(assets[k].0)),
        store_of(assets)[ascii_lowercase(assets[k].0)] == (FileView {
            mime_type: mime_guess_of(assets[k].0)->0,
            data: gzip_of(assets[k].1),
        }),
    decreases assets.len(),
{
    if k < assets.len() - 1 {
        let rest = assets.drop_last();
        assert forall|j: int|
            k < j < rest.len() && (#[trigger] mime_guess_of(rest[j].0)) is Some implies ascii_lowercase(rest[j].0)
                != ascii_lowercase(rest[k].0) by {
            assert(rest[j] == assets[j]);
            assert(mime_guess_of(assets[j].0) is Some);
        }
        lemma_asset_is_served(rest, k);
        let last = assets.last();
        if mime_guess_of(last.0) is Some {
            assert(mime_guess_of(assets[assets.len() - 1].0) is Some);
        }
    }
}

/// Nothing but assets is served: each name in the store is the lower-case
/// name of an asset whose MIME type is known.
pub proof fn lemma_only_assets_are_served(assets: Seq<(Seq<char>, Seq<u8>)>, name: Seq<char>)
    requires
        store_of(assets).contains_key(name),
    ensures
        exists|k: int|
            0 <= k < assets.len() && mime_guess_of(assets[k].0) is Some && #[trigger] ascii_lowercase(assets[k].0)
                == name,
    decreases assets.len(),
{
    let rest = assets.drop_last();
    let last = assets.last();
    if mime_guess_of(last.0) is Some && ascii_lowercase(last.0) == name {
        assert(ascii_lowercase(assets[assets.len() - 1].0) == name);
    } else {
        lemma_only_assets_are_served(rest, name);
        let k = choose|k: int|
            0 <= k < rest.len() && mime_guess_of(rest[k].0) is Some && #[trigger] ascii_lowercase(rest[k].0) == name;
        assert(rest[k] == assets[k]);
        assert(ascii_lowercase(assets[k].0) == name);
    }
}

/// The assets by lower-case name.
pub struct FileStore {
    pub files: StringHashMap<File>,
}

impl FileStore {
    /// The files, by name.
    pub open spec fn file_map(&self) -> Map<Seq<char>, FileView> {
        self.files@.map_values(|f: File| f@)
    }

    /// The entry that an asset makes: its lower-case name and the file with
    /// its guessed MIME type and compressed bytes; `None` when no MIME type
    /// is known for its name.
    pub fn entry_for(file_name: &str, raw: &[u8]) -> (r: Option<(String, File)>)
        ensures
            r is Some <==> mime_guess_of(file_name@) is Some,
            r matches Some((name, file)) ==> name@ == ascii_lowercase(file_name@) && file@ == (FileView {
                mime_type: mime_guess_of(file_name@)->0,
                data: gzip_of(raw@),
            }),
    {
        let filename = to_ascii_lowercase(file_name);
        match guess_mime_type(file_name) {
            Some(mime_type) => Some((filename, File::new(mime_type, gzip(raw)))),
            None => None,
        }
    }

    /// The store made of the assets in the directory, given as pairs of
    /// file name and content, in the order the directory lists them.
    pub fn from_assets(assets: &Vec<(String, Vec<u8>)>) -> (r: Self)
        ensures
            r.file_map() == store_of(assets@.map_values(|a: (String, Vec<u8>)| (a.0@, a.1@))),
    {
        let ghost view = assets@.map_values(|a: (String, Vec<u8>)| (a.0@, a.1@));
        let mut files: StringHashMap<File> = StringHashMap::new();
        let mut i: usize = 0;
        while i < assets.len()
            invariant
                i <= assets@.len(),
                view == assets@.map_values(|a: (String, Vec<u8>)| (a.0@, a.1@)),
                files@.map_values(|f: File| f@) == store_of(view.take(i as int)),
            decreases assets@.len() - i,
        {
            let (name, raw) = &assets[i];
            assert(view.take(i + 1).drop_last() =~= view.take(i as int));
            match Self::entry_for(name.as_str(), raw.as_slice()) {
                Some((key, file)) => {
                    files.insert(key, file);
                    assert(files@.map_values(|f: File| f@) =~= store_of(view.take(i + 1)));
                },
                None => {},
            }
            i = i + 1;
        }
        assert(view.take(i as int) =~= view);
        FileStore { files }
    }

    /// A copy of the file stored under `path`, if there is one.
    pub fn handle(&self, path: &str) -> (r: Option<File>)
        ensures
            r is Some <==> self.file_map().contains_key(path@),
            r matches Some(f) ==> f@ == self.file_map()[path@],
    {
        match self.files.get(path) {
            Some(f) => Some(copy_file(f)),
            None => None,
        }
    }
}

} // verus!
