//! Text templates: one file for each name, listed with their content and
//! the time they were last changed.

use crate::layout::{document_name, stem_of, template_file, templates_path, RelPath};
use crate::sanitize::sanitized;
use vstd::prelude::*;

verus! {

/// A template as it is shown: its name, its text, and when its file was
/// last changed, in words.
#[derive(Clone, Debug, PartialEq, Eq)]
pub struct TemplateFile {
    pub name: String,
    pub content: String,
    pub last_modified: String,
}

/// A file of the directory of the templates as it was read: its file name,
/// its text, and when it was last changed, in words.
#[derive(Clone, Debug, PartialEq, Eq)]
pub struct TemplateEntry {
    pub file_name: String,
    pub content: String,
    pub last_modified: String,
}

/// What a template holds, as plain text.
pub struct TemplateView {
    pub name: Seq<char>,
    pub content: Seq<char>,
    pub last_modified: Seq<char>,
}

impl View for TemplateFile {
    type V = TemplateView;

    open spec fn view(&self) -> TemplateView {
        TemplateView {
            name: self.name@,
            content: self.content@,
            last_modified: self.last_modified@,
        }
    }
}

/// The template that a file of the directory is, if it is one: a file with
/// the extension `txt`, under the name that stands before the extension.
pub open spec fn template_of(entry: TemplateEntry) -> Option<TemplateView> {
    match stem_of(entry.file_name@, "txt"@) {
        Some(name) => Some(
            TemplateView { name, content: entry.content@, last_modified: entry.last_modified@ },
        ),
        None => None,
    }
}

/// The templates among `entries`, in the order of `entries`.
pub open spec fn templates_of(entries: Seq<TemplateEntry>) -> Seq<TemplateView>
    decreases entries.len(),
{
    if entries.len() == 0 {
        seq![]
    } else {
        let before = templates_of(entries.drop_last());
        match template_of(entries.last()) {
            Some(template) => before.push(template),
            None => before,
        }
    }
}

/// What each of `templates` holds, in order.
pub open spec fn views_of(templates: Seq<TemplateFile>) -> Seq<TemplateView> {
    templates.map_values(|t: TemplateFile| t@)
}

/// Whether the file named `file_name` is a template: whether it has the
/// extension `txt`. Only such files need to be read.
pub fn is_template(file_name: &str) -> (b: bool)
    ensures
        b == stem_of(file_name@, "txt"@) is Some,
{
    document_name(file_name, "txt").is_some()
}

/// The templates among the files of the directory of the templates: each
/// file with the extension `txt`, under the name that stands before the
/// extension, with its text and the time of its last change as they were
/// read, in the order of the listing. Other files are passed over.
pub fn load_templates(entries: &Vec<TemplateEntry>) -> (templates: Vec<TemplateFile>)
    ensures
        views_of(templates@) == templates_of(entries@),
{
    let mut templates: Vec<TemplateFile> = Vec::new();
    let mut i: usize = 0;
    assert(entries@.take(0) =~= seq![]);
    assert(views_of(templates@) =~= seq![]);
    while i < entries.len()
        invariant
            i <= entries.len(),
            views_of(templates@) == templates_of(entries@.take(i as int)),
        decreases entries.len() - i,
    {
        let ghost before = views_of(templates@);
        assert(entries@.take(i + 1).drop_last() =~= entries@.take(i as int));
        let entry = &entries[i];
        match document_name(entry.file_name.as_str(), "txt") {
            Some(name) => {
                let template = TemplateFile {
                    name,
                    content: entry.content.clone(),
                    last_modified: entry.last_modified.clone(),
                };
                templates.push(template);
                assert(views_of(templates@) =~= before.push(template@));
            },
            None => {},
        }
        i += 1;
    }
    assert(entries@.take(entries.len() as int) =~= entries@);
    templates
}

/// Where the template `name` is saved: the file of its sanitized name. The
/// text of the template is stored as it is.
pub fn save_template(name: &str) -> (path: RelPath)
    ensures
        path@ == templates_path().push(sanitized(name@) + ".txt"@),
{
    template_file(name)
}

} // verus!
