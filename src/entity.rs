use vstd::prelude::*;

verus! {

/// The owner of a gist, as the host reports it.
#[derive(Debug, PartialEq)]
pub struct User {
    pub login: Option<String>,
}

/// One file of a gist.
///
/// Where `truncated` is `Some(true)`, `content` holds a prefix of the file
/// only, and the whole of it is found at `raw_url`.
#[derive(Debug, PartialEq)]
pub struct File {
    pub raw_url: Option<String>,
    pub filename: Option<String>,
    pub language: Option<String>,
    pub content: Option<String>,
    pub size: usize,
    pub truncated: Option<bool>,
}

/// A gist: its metadata and its files, keyed by file name.
#[derive(Debug, PartialEq)]
pub struct Gist {
    pub url: Option<String>,
    pub html_url: Option<String>,
    pub id: Option<String>,
    pub description: Option<String>,
    pub public: bool,
    pub created_at: Option<String>,
    pub owner: Option<User>,
    pub files: Vec<(String, File)>,
}

/// An optional string, seen as its characters.
pub open spec fn opt_view(o: Option<String>) -> Option<Seq<char>> {
    match o {
        Some(s) => Some(s@),
        None => None,
    }
}

/// A file as its strings' characters.
pub ghost struct FileView {
    pub raw_url: Option<Seq<char>>,
    pub filename: Option<Seq<char>>,
    pub language: Option<Seq<char>>,
    pub content: Option<Seq<char>>,
    pub size: usize,
    pub truncated: Option<bool>,
}

impl View for File {
    type V = FileView;

    open spec fn view(&self) -> FileView {
        FileView {
            raw_url: opt_view(self.raw_url),
            filename: opt_view(self.filename),
            language: opt_view(self.language),
            content: opt_view(self.content),
            size: self.size,
            truncated: self.truncated,
        }
    }
}

/// The login of an owner.
pub open spec fn owner_view(o: Option<User>) -> Option<Option<Seq<char>>> {
    match o {
        Some(u) => Some(opt_view(u.login)),
        None => None,
    }
}

/// A named file, seen through its view.
pub open spec fn entry_view(e: (String, File)) -> (Seq<char>, FileView) {
    (e.0@, e.1@)
}

/// A gist as its strings' characters; an owner is seen as its login, and
/// the files as name and file, in their order.
pub ghost struct GistView {
    pub url: Option<Seq<char>>,
    pub html_url: Option<Seq<char>>,
    pub id: Option<Seq<char>>,
    pub description: Option<Seq<char>>,
    pub public: bool,
    pub created_at: Option<Seq<char>>,
    pub owner: Option<Option<Seq<char>>>,
    pub files: Seq<(Seq<char>, FileView)>,
}

impl View for Gist {
    type V = GistView;

    open spec fn view(&self) -> GistView {
        GistView {
            url: opt_view(self.url),
            html_url: opt_view(self.html_url),
            id: opt_view(self.id),
            description: opt_view(self.description),
            public: self.public,
            created_at: opt_view(self.created_at),
            owner: owner_view(self.owner),
            files: self.files@.map_values(|e: (String, File)| entry_view(e)),
        }
    }
}

/// No two files share a name.
pub open spec fn names_distinct(files: Seq<(Seq<char>, FileView)>) -> bool {
    forall|i: int, j: int|
        0 <= i < j < files.len() ==> #[trigger] files[i].0 != #[trigger] files[j].0
}

impl Gist {
    /// File names are unique keys.
    pub open spec fn wf(&self) -> bool {
        names_distinct(self@.files)
    }
}

/// The gists of a listing, seen through their views.
pub open spec fn gists_view(gs: Seq<Gist>) -> Seq<GistView> {
    gs.map_values(|g: Gist| g@)
}

} // verus!
