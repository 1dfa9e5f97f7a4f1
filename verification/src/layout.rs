//! Where each document lives below the base directory, and how the
//! directories below it come into being.

use crate::error::StoreError;
use crate::sanitize::{sanitize_filename, sanitized};
use crate::text::{chars_of, joined, string_of};
use vstd::prelude::*;

verus! {

/// A path below the base directory: the names to descend through, outermost
/// first. Whoever touches the file system joins them onto the base.
#[derive(Clone, Debug, PartialEq, Eq)]
pub struct RelPath {
    pub parts: Vec<String>,
}

impl View for RelPath {
    type V = Seq<Seq<char>>;

    open spec fn view(&self) -> Seq<Seq<char>> {
        self.parts.deep_view()
    }
}

/// The directory of the templates.
pub open spec fn templates_path() -> Seq<Seq<char>> {
    seq!["Templates"@]
}

/// The directory of the cache, the favourites, the locations and the word lists.
pub open spec fn data_path() -> Seq<Seq<char>> {
    seq!["data"@]
}

/// The directory of the signature profiles.
pub open spec fn signatures_path() -> Seq<Seq<char>> {
    seq!["Signatures"@]
}

/// The directory of the images that signature profiles refer to.
pub open spec fn images_path() -> Seq<Seq<char>> {
    seq!["Signatures"@, "images"@]
}

/// The directories of the layout, in the order in which they are made.
pub open spec fn layout() -> Seq<Seq<Seq<char>>> {
    seq![templates_path(), data_path(), signatures_path(), images_path()]
}

/// The path `dir` with its last name extended by `suffix`; for a path without
/// names, the path of the one name `suffix`.
pub open spec fn sibling_path(doc: Seq<Seq<char>>, suffix: Seq<char>) -> Seq<Seq<char>> {
    if doc.len() == 0 {
        seq![suffix]
    } else {
        doc.drop_last().push(doc.last() + suffix)
    }
}

/// Where the last `.` of `name` stands, if it has one.
pub open spec fn last_dot(name: Seq<char>) -> Option<int>
    decreases name.len(),
{
    if name.len() == 0 {
        None
    } else if name.last() == '.' {
        Some(name.len() - 1)
    } else {
        last_dot(name.drop_last())
    }
}

/// The stem of a listed file name whose extension is `extension`: what stands
/// before the last `.`, where that `.` is not the first character and what
/// follows it is exactly `extension`.
pub open spec fn stem_of(name: Seq<char>, extension: Seq<char>) -> Option<Seq<char>> {
    match last_dot(name) {
        Some(dot) => if dot > 0 && name.subrange(dot + 1, name.len() as int) == extension {
            Some(name.subrange(0, dot))
        } else {
            None
        },
        None => None,
    }
}

/// The stems of the names in `names` that have the extension `extension`, in
/// the order of `names`.
pub open spec fn stems_of(names: Seq<Seq<char>>, extension: Seq<char>) -> Seq<Seq<char>>
    decreases names.len(),
{
    if names.len() == 0 {
        seq![]
    } else {
        let before = stems_of(names.drop_last(), extension);
        match stem_of(names.last(), extension) {
            Some(stem) => before.push(stem),
            None => before,
        }
    }
}

impl RelPath {
    /// The path of `leaf` inside the directory `self`.
    pub fn child(self, leaf: String) -> (path: RelPath)
        ensures
            path@ == self@.push(leaf@),
    {
        let mut parts = self.parts;
        let ghost before = parts.deep_view();
        parts.push(leaf);
        assert(parts.deep_view() =~= before.push(leaf@));
        RelPath { parts }
    }

    /// The file beside `self` whose name is that of `self` followed by
    /// `suffix`.
    pub fn sibling(&self, suffix: &str) -> (path: RelPath)
        ensures
            path@ == sibling_path(self@, suffix@),
    {
        let n = self.parts.len();
        let mut parts: Vec<String> = Vec::new();
        if n == 0 {
            parts.push(suffix.to_string());
            assert(parts.deep_view() =~= seq![suffix@]);
            return RelPath { parts };
        }
        let mut i: usize = 0;
        while i < n - 1
            invariant
                n == self.parts.len(),
                n > 0,
                i <= n - 1,
                parts.deep_view() == self@.take(i as int),
            decreases n - i,
        {
            let ghost before = parts.deep_view();
            parts.push(self.parts[i].clone());
            assert(parts.deep_view() =~= before.push(self@[i as int]));
            assert(self@.take(i + 1) =~= self@.take(i as int).push(self@[i as int]));
            i += 1;
        }
        let ghost before = parts.deep_view();
        let leaf = joined(self.parts[n - 1].as_str(), suffix);
        parts.push(leaf);
        assert(parts.deep_view() =~= before.push(leaf@));
        assert(self@.take(n - 1) =~= self@.drop_last());
        RelPath { parts }
    }
}

/// The directory of the templates, `Templates`.
pub fn templates_dir() -> (path: RelPath)
    ensures
        path@ == templates_path(),
{
    let mut parts: Vec<String> = Vec::new();
    parts.push("Templates".to_string());
    assert(parts.deep_view() =~= templates_path());
    RelPath { parts }
}

/// The directory of the shared data files, `data`.
pub fn data_dir() -> (path: RelPath)
    ensures
        path@ == data_path(),
{
    let mut parts: Vec<String> = Vec::new();
    parts.push("data".to_string());
    assert(parts.deep_view() =~= data_path());
    RelPath { parts }
}

/// The directory of the signature profiles, `Signatures`.
pub fn signatures_dir() -> (path: RelPath)
    ensures
        path@ == signatures_path(),
{
    let mut parts: Vec<String> = Vec::new();
    parts.push("Signatures".to_string());
    assert(parts.deep_view() =~= signatures_path());
    RelPath { parts }
}

/// The directory of the signature images, `images` inside `Signatures`.
pub fn images_dir() -> (path: RelPath)
    ensures
        path@ == images_path(),
{
    let path = signatures_dir().child("images".to_string());
    assert(path@ =~= images_path());
    path
}

/// What is to be done next to bring the layout into being.
#[derive(Clone, Debug, PartialEq, Eq)]
pub enum LayoutStep {
    /// Make this directory, with the directories above it; one that exists
    /// already counts as made.
    Create(RelPath),
    /// Every directory of the layout is there.
    Ready,
    /// A directory could not be made.
    Failed(StoreError),
}

/// The first failure among the first `upto` of `outcomes`, if there is one.
pub open spec fn first_failure(outcomes: Seq<Result<(), String>>, upto: int) -> Option<String>
    decreases upto,
{
    if upto <= 0 {
        None
    } else {
        match first_failure(outcomes, upto - 1) {
            Some(text) => Some(text),
            None => match outcomes[upto - 1] {
                Err(text) => Some(text),
                Ok(_) => None,
            },
        }
    }
}

/// How many of `outcomes` count: no more than the layout has directories.
pub open spec fn counted(outcomes: Seq<Result<(), String>>) -> int {
    if outcomes.len() < layout().len() {
        outcomes.len() as int
    } else {
        layout().len() as int
    }
}

/// The directory that `ensure_base_dirs` asks for when `made` directories
/// are there.
fn layout_dir(made: usize) -> (path: RelPath)
    requires
        made < layout().len(),
    ensures
        path@ == layout()[made as int],
{
    if made == 0 {
        templates_dir()
    } else if made == 1 {
        data_dir()
    } else if made == 2 {
        signatures_dir()
    } else {
        images_dir()
    }
}

/// Brings the directories of the layout into being, one step at a time.
/// `outcomes` holds how the directories asked for so far came out, in the
/// order in which they were asked for; the answer is the next thing to do.
/// The directories are asked for in the order of `layout`, the first failure
/// ends the work with its text, and after the last directory the layout is
/// ready. Safe to go through any number of times.
pub fn ensure_base_dirs(outcomes: &Vec<Result<(), String>>) -> (step: LayoutStep)
    ensures
        match first_failure(outcomes@, counted(outcomes@)) {
            Some(text) => step == LayoutStep::Failed(StoreError::Io(text)),
            None => if outcomes.len() < layout().len() {
                step matches LayoutStep::Create(path) && path@ == layout()[outcomes.len() as int]
            } else {
                step == LayoutStep::Ready
            },
        },
{
    let n = outcomes.len();
    let mut i: usize = 0;
    while i < n && i < 4
        invariant
            n == outcomes.len(),
            i <= counted(outcomes@),
            first_failure(outcomes@, i as int) is None,
        decreases n - i,
    {
        match &outcomes[i] {
            Err(text) => {
                proof {
                    lemma_first_failure_stays(outcomes@, i + 1, counted(outcomes@));
                }
                return LayoutStep::Failed(StoreError::Io(text.clone()));
            },
            Ok(_) => {},
        }
        i += 1;
    }
    if n < 4 {
        LayoutStep::Create(layout_dir(n))
    } else {
        LayoutStep::Ready
    }
}

/// A failure among the first `from` outcomes is the first failure among any
/// greater number of them.
proof fn lemma_first_failure_stays(outcomes: Seq<Result<(), String>>, from: int, upto: int)
    requires
        from <= upto,
        first_failure(outcomes, from) is Some,
    ensures
        first_failure(outcomes, upto) == first_failure(outcomes, from),
    decreases upto - from,
{
    if from < upto {
        lemma_first_failure_stays(outcomes, from, upto - 1);
    }
}

/// The file of the settings cache, `cache.json` in the data directory.
pub fn cache_file() -> (path: RelPath)
    ensures
        path@ == data_path().push("cache.json"@),
{
    data_dir().child("cache.json".to_string())
}

/// The file of the location table, `locations.json` in the data directory.
pub fn locations_file() -> (path: RelPath)
    ensures
        path@ == data_path().push("locations.json"@),
{
    data_dir().child("locations.json".to_string())
}

/// The file of the favourites, `favourites.json` in the data directory.
pub fn favourites_file() -> (path: RelPath)
    ensures
        path@ == data_path().push("favourites.json"@),
{
    data_dir().child("favourites.json".to_string())
}

/// The file of the salutations, `salutations.json` in the data directory.
pub fn salutations_file() -> (path: RelPath)
    ensures
        path@ == data_path().push("salutations.json"@),
{
    data_dir().child("salutations.json".to_string())
}

/// The file of the valedictions, `valedictions.json` in the data directory.
pub fn valedictions_file() -> (path: RelPath)
    ensures
        path@ == data_path().push("valedictions.json"@),
{
    data_dir().child("valedictions.json".to_string())
}

/// The file of the signature profile `name`: its name with `.json`, in the
/// directory of the signatures. The name is the key as it stands.
pub fn signature_file(name: &str) -> (path: RelPath)
    ensures
        path@ == signatures_path().push(name@ + ".json"@),
{
    signatures_dir().child(joined(name, ".json"))
}

/// The file of the image `filename`, in the directory of the images.
pub fn image_file(filename: &str) -> (path: RelPath)
    ensures
        path@ == images_path().push(filename@),
{
    images_dir().child(filename.to_string())
}

/// The file of the template `name`: its sanitized name with `.txt`, in the
/// directory of the templates.
pub fn template_file(name: &str) -> (path: RelPath)
    ensures
        path@ == templates_path().push(sanitized(name@) + ".txt"@),
{
    let leaf = sanitize_filename(name);
    templates_dir().child(joined(leaf.as_str(), ".txt"))
}

/// The marker whose existence means that `document` is locked: the file
/// beside it with `.lock` after its name.
pub fn lock_marker(document: &RelPath) -> (path: RelPath)
    ensures
        path@ == sibling_path(document@, ".lock"@),
{
    document.sibling(".lock")
}

/// The file that a new version of `document` is written to before it takes
/// the document's place: the file beside it with `.tmp` after its name.
pub fn temp_sibling(document: &RelPath) -> (path: RelPath)
    ensures
        path@ == sibling_path(document@, ".tmp"@),
{
    document.sibling(".tmp")
}

/// The name of the document that a listed file holds, if the file has the
/// extension `extension`: the file name without `.` and the extension.
pub fn document_name(file_name: &str, extension: &str) -> (name: Option<String>)
    ensures
        name.deep_view() == stem_of(file_name@, extension@),
{
    let chars = chars_of(file_name);
    let wanted = chars_of(extension);
    let n = chars.len();
    let mut dot: usize = n;
    assert(chars@.take(n as int) =~= chars@);
    while dot > 0 && chars[dot - 1] != '.'
        invariant
            dot <= n,
            n == chars.len(),
            last_dot(chars@) == last_dot(chars@.take(dot as int)),
        decreases dot,
    {
        assert(chars@.take(dot as int).drop_last() =~= chars@.take(dot - 1));
        dot -= 1;
    }
    proof {
        if dot == 0 {
            assert(chars@.take(0).len() == 0);
            assert(last_dot(chars@) is None);
        } else {
            assert(chars@.take(dot as int).last() == '.');
            assert(last_dot(chars@) == Some(dot - 1));
        }
    }
    if dot <= 1 {
        return None;
    }
    // the last `.` stands at `dot - 1`, and something stands before it
    let tail = n - dot;
    if tail != wanted.len() {
        assert(chars@.subrange(dot as int, n as int).len() != wanted@.len());
        return None;
    }
    let mut i: usize = 0;
    while i < tail
        invariant
            dot + tail == n,
            dot > 1,
            n == chars.len(),
            tail == wanted.len(),
            i <= tail,
            chars@ == file_name@,
            wanted@ == extension@,
            last_dot(chars@) == Some(dot - 1),
            chars@.subrange(dot as int, dot + i) == wanted@.take(i as int),
        decreases tail - i,
    {
        if chars[dot + i] != wanted[i] {
            assert(chars@.subrange(dot as int, n as int)[i as int] == chars@[dot + i]);
            assert(chars@.subrange(dot as int, n as int) != wanted@);
            return None;
        }
        assert(chars@.subrange(dot as int, dot + i + 1) =~= chars@.subrange(
            dot as int,
            dot + i,
        ).push(chars@[dot + i]));
        assert(wanted@.take(i + 1) =~= wanted@.take(i as int).push(wanted@[i as int]));
        i += 1;
    }
    assert(wanted@.take(tail as int) =~= wanted@);
    Some(string_of(&chars, 0, dot - 1))
}

/// The names of the documents among the listed files `file_names` that have
/// the extension `extension`, in the order of the listing.
pub fn document_names(file_names: &Vec<String>, extension: &str) -> (names: Vec<String>)
    ensures
        names.deep_view() == stems_of(file_names.deep_view(), extension@),
{
    let mut names: Vec<String> = Vec::new();
    let mut i: usize = 0;
    assert(file_names.deep_view().take(0) =~= seq![]);
    assert(names.deep_view() =~= seq![]);
    while i < file_names.len()
        invariant
            i <= file_names.len(),
            names.deep_view() == stems_of(file_names.deep_view().take(i as int), extension@),
        decreases file_names.len() - i,
    {
        let ghost before = names.deep_view();
        let ghost listed = file_names.deep_view();
        assert(listed.take(i + 1).drop_last() =~= listed.take(i as int));
        assert(listed.take(i + 1).last() == file_names@[i as int]@);
        match document_name(file_names[i].as_str(), extension) {
            Some(name) => {
                names.push(name);
                assert(names.deep_view() =~= before.push(name@));
            },
            None => {},
        }
        i += 1;
    }
    assert(file_names.deep_view().take(file_names.len() as int) =~= file_names.deep_view());
    names
}

} // verus!
