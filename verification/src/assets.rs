//! The bundled application and the resolver that answers request paths from it.

use crate::text::{same_text, strip_leading, trim_leading};
use vstd::prelude::*;
use vstd::string::*;

verus! {

/// `include_dir::Dir`, a directory tree held in memory. Nothing inside it is
/// visible to the proofs; what they know of it is [`bundle_files`].
#[verifier::external_type_specification]
#[verifier::external_body]
pub struct ExDir<'a>(include_dir::Dir<'a>);

/// What `include_dir::Dir::get_file` finds in `dir`: each path that it
/// resolves to a file, with the path that the file is stored under and the
/// file's bytes. A path that it does not resolve is no key.
pub uninterp spec fn bundle_files(dir: include_dir::Dir<'_>) -> Map<Seq<char>, (Seq<char>, Seq<u8>)>;

/// What `mime_guess::from_path(path).first_or_octet_stream()` answers for
/// `path`: the first media type that the crate's table lists for the path's
/// extension, `application/octet-stream` where it lists none.
pub uninterp spec fn guessed_media_type(path: Seq<char>) -> Seq<char>;

/// Calls `include_dir::Dir::get_file` and hands out the stored path
/// (`File::path`) and the bytes (`File::contents`) of the file found. A
/// stored path is made from a `&str`, so its text is handed out unchanged.
/// Trusted: the result is the entry of [`bundle_files`] under `key`, and
/// `None` exactly where there is none.
#[verifier::external_body]
fn find_file<'a>(dir: &include_dir::Dir<'a>, key: &str) -> (found: Option<(String, &'a [u8])>)
    ensures
        found is Some <==> bundle_files(*dir).contains_key(key@),
        found matches Some((stored, bytes)) ==> bundle_files(*dir)[key@] == (stored@, bytes@),
{
    match dir.get_file(key) {
        Some(file) => Some((file.path().to_string_lossy().into_owned(), file.contents())),
        None => None,
    }
}

/// Calls `mime_guess::from_path` and `MimeGuess::first_or_octet_stream`, and
/// takes the text of the media type returned (`Mime::as_ref`).
/// Trusted: that text is [`guessed_media_type`] of the path, so equal paths
/// get equal types; and the call returns for every path, since each entry of
/// the crate's table is a well-formed media type.
#[verifier::external_body]
fn guess_media_type(path: &str) -> (media_type: String)
    ensures
        media_type@ == guessed_media_type(path@),
{
    mime_guess::from_path(path).first_or_octet_stream().as_ref().to_owned()
}

/// The entries of a directory that are stored under the very path that finds
/// them: a flat mapping from path to bytes.
pub open spec fn exact_entries(files: Map<Seq<char>, (Seq<char>, Seq<u8>)>) -> Map<
    Seq<char>,
    Seq<u8>,
> {
    Map::new(
        |key: Seq<char>| files.contains_key(key) && files[key].0 == key,
        |key: Seq<char>| files[key].1,
    )
}

/// The document that answers a request for the root.
pub open spec fn default_document() -> Seq<char> {
    "index.html"@
}

/// The bundle key that a request path asks for: the path without its leading
/// slashes, or the default document where nothing is left.
pub open spec fn requested_key(path: Seq<char>) -> Seq<char> {
    let rest = trim_leading(path, '/');
    if rest.len() == 0 {
        default_document()
    } else {
        rest
    }
}

/// What a request path resolves to in a bundle with the given entries: the
/// bytes stored under the requested key with the media type guessed for that
/// key, or nothing where the key is absent.
pub open spec fn resolution(entries: Map<Seq<char>, Seq<u8>>, path: Seq<char>) -> Option<
    (Seq<u8>, Seq<char>),
> {
    let key = requested_key(path);
    if entries.contains_key(key) {
        Some((entries[key], guessed_media_type(key)))
    } else {
        None
    }
}

/// Computes the bundle key that a request path asks for.
pub fn asset_key(path: &str) -> (key: String)
    ensures
        key@ == requested_key(path@),
{
    let rest = strip_leading(path, '/');
    if rest.is_empty() {
        String::from_str("index.html")
    } else {
        String::from_str(rest)
    }
}

/// Keeps what a directory found for `key` only where it is stored under
/// `key` itself, character for character.
pub fn exact_entry<'a>(key: &str, found: Option<(String, &'a [u8])>) -> (bytes: Option<&'a [u8]>)
    ensures
        bytes == match found {
            Some((stored, held)) => if stored@ == key@ {
                Some(held)
            } else {
                None
            },
            None => None,
        },
{
    match found {
        Some((stored, held)) => {
            if same_text(stored.as_str(), key) {
                Some(held)
            } else {
                None
            }
        },
        None => None,
    }
}

/// The outcome of resolving a request path.
#[derive(Debug)]
pub enum Resolved<'a> {
    /// The bundle holds the asset: its bytes as stored, and its media type.
    Found { payload: &'a [u8], content_type: String },
    /// The bundle holds nothing under the requested key.
    NotFound,
}

impl<'a> View for Resolved<'a> {
    type V = Option<(Seq<u8>, Seq<char>)>;

    open spec fn view(&self) -> Option<(Seq<u8>, Seq<char>)> {
        match self {
            Resolved::Found { payload, content_type } => Some((payload@, content_type@)),
            Resolved::NotFound => None,
        }
    }
}

/// The bundled application: an immutable mapping from relative path to bytes,
/// answered from a directory tree held in memory.
pub struct AssetBundle<'a> {
    dir: include_dir::Dir<'a>,
}

impl<'a> View for AssetBundle<'a> {
    type V = Map<Seq<char>, Seq<u8>>;

    closed spec fn view(&self) -> Map<Seq<char>, Seq<u8>> {
        exact_entries(bundle_files(self.dir))
    }
}

impl<'a> AssetBundle<'a> {
    /// Takes a directory tree as the bundle. Its entries are the files that
    /// the tree finds under their own stored path.
    pub fn new(dir: include_dir::Dir<'a>) -> (bundle: Self)
        ensures
            bundle@ == exact_entries(bundle_files(dir)),
    {
        AssetBundle { dir }
    }

    /// Looks one key up. The match is exact and case-sensitive: a file that
    /// the tree finds for `key` but stores under another spelling of the path
    /// is no entry.
    pub fn get(&self, key: &str) -> (bytes: Option<&'a [u8]>)
        ensures
            bytes is Some <==> self@.contains_key(key@),
            bytes matches Some(found) ==> found@ == self@[key@],
    {
        exact_entry(key, find_file(&self.dir, key))
    }

    /// Resolves a request path: strips its leading slashes, takes the default
    /// document for an empty rest, and answers from the bundle.
    pub fn resolve(&self, path: &str) -> (resolved: Resolved<'a>)
        ensures
            resolved@ == resolution(self@, path@),
    {
        let key = asset_key(path);
        match self.get(key.as_str()) {
            Some(payload) => Resolved::Found { payload, content_type: guess_media_type(key.as_str()) },
            None => Resolved::NotFound,
        }
    }
}

/// Whether the segment `..` stands in `path` at position `at`, between
/// slashes or the ends of the path.
pub open spec fn parent_segment_at(path: Seq<char>, at: int) -> bool {
    &&& 0 <= at
    &&& at + 2 <= path.len()
    &&& path[at] == '.'
    &&& path[at + 1] == '.'
    &&& (at == 0 || path[at - 1] == '/')
    &&& (at + 2 == path.len() || path[at + 2] == '/')
}

/// Whether one of the segments of `path` is the parent directory, `..`.
pub open spec fn has_parent_segment(path: Seq<char>) -> bool {
    exists|at: int| parent_segment_at(path, at)
}

/// Whether no key of the mapping has a parent-directory segment, as is the
/// case for every mapping made from the files of a directory tree.
pub open spec fn free_of_parent_segments(entries: Map<Seq<char>, Seq<u8>>) -> bool {
    forall|key: Seq<char>| entries.contains_key(key) ==> !has_parent_segment(key)
}

/// Trimming leading slashes keeps a parent-directory segment.
proof fn lemma_trim_keeps_parent_segment(path: Seq<char>)
    requires
        has_parent_segment(path),
    ensures
        has_parent_segment(trim_leading(path, '/')),
    decreases path.len(),
{
    let at = choose|at: int| parent_segment_at(path, at);
    if path[0] == '/' {
        let rest = path.drop_first();
        assert(parent_segment_at(rest, at - 1));
        lemma_trim_keeps_parent_segment(rest);
    }
}

/// The key that a request path asks for is never empty and starts with no
/// slash, and asking for it as a path asks for the same key again.
pub proof fn law_requested_key_is_canonical(path: Seq<char>)
    ensures
        requested_key(path).len() > 0,
        requested_key(path)[0] != '/',
        requested_key(requested_key(path)) == requested_key(path),
    decreases path.len(),
{
    reveal_strlit("index.html");
    if path.len() > 0 && path[0] == '/' {
        law_requested_key_is_canonical(path.drop_first());
    }
}

/// Whatever a path resolves to is held by the bundle: some key of the
/// mapping stores exactly those bytes. This holds of every path and of every
/// bundle, so no path reaches outside the mapping.
pub proof fn law_resolution_stays_in_the_bundle(entries: Map<Seq<char>, Seq<u8>>, path: Seq<char>)
    ensures
        resolution(entries, path) matches Some((bytes, _)) ==> exists|key: Seq<char>|
            #[trigger] entries.contains_key(key) && entries[key] == bytes,
{
    if resolution(entries, path) is Some {
        assert(entries.contains_key(requested_key(path)));
    }
}

/// A path that is a key of the bundle, is not empty and starts with no slash
/// resolves to the bytes stored under it, with the media type guessed for it;
/// such a path that is no key resolves to nothing.
pub proof fn law_resolve_answers_from_the_bundle(entries: Map<Seq<char>, Seq<u8>>, path: Seq<char>)
    requires
        path.len() > 0,
        path[0] != '/',
    ensures
        entries.contains_key(path) ==> resolution(entries, path) == Some(
            (entries[path], guessed_media_type(path)),
        ),
        !entries.contains_key(path) ==> resolution(entries, path) is None,
{
}

/// The empty path and the root path resolve as the default document does,
/// whatever the bundle holds.
pub proof fn law_root_is_the_default_document(entries: Map<Seq<char>, Seq<u8>>)
    ensures
        resolution(entries, ""@) == resolution(entries, "index.html"@),
        resolution(entries, "/"@) == resolution(entries, "index.html"@),
{
    reveal_strlit("");
    reveal_strlit("/");
    reveal_strlit("index.html");
    reveal_with_fuel(trim_leading, 2);
    assert("/"@.drop_first() =~= ""@);
}

/// A path with a parent-directory segment resolves to nothing in a bundle
/// whose keys have none: such a path cannot reach outside the mapping.
pub proof fn law_traversal_resolves_to_nothing(entries: Map<Seq<char>, Seq<u8>>, path: Seq<char>)
    requires
        free_of_parent_segments(entries),
        has_parent_segment(path),
    ensures
        resolution(entries, path) is None,
{
    lemma_trim_keeps_parent_segment(path);
}

} // verus!
