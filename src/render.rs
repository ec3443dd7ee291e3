use vstd::prelude::*;

use crate::entity::{File, Gist, GistView};
use crate::text::{decimal, decimal_of, push_char};

verus! {

/// How many characters of a description a listing shows: a third of the
/// terminal's width where it is known, else 40.
pub open spec fn description_limit(width: Option<usize>) -> nat {
    match width {
        Some(w) => (w / 3) as nat,
        None => 40,
    }
}

/// `s` with each newline turned into a space.
pub open spec fn flatten_newlines(s: Seq<char>) -> Seq<char> {
    s.map_values(|c: char| if c == '\n' { ' ' } else { c })
}

/// A description as a listing shows it: on one line, and where it is longer
/// than the limit, cut to the limit with `...` after it.
pub open spec fn shown_description(d: Seq<char>, width: Option<usize>) -> Seq<char> {
    let flat = flatten_newlines(d);
    let limit = description_limit(width);
    if flat.len() > limit {
        flat.subrange(0, limit as int) + "..."@
    } else {
        flat
    }
}

/// A gist can be listed: it has a creation time and an id. Listing relies
/// on both.
pub open spec fn listable(g: GistView) -> bool {
    &&& g.created_at is Some
    &&& g.id is Some
}

/// The listing line of a gist: creation time, owner's login (empty where
/// there is no owner or no login), id and description, separated by spaces.
pub open spec fn listing_line(g: GistView, width: Option<usize>) -> Seq<char> {
    g.created_at->Some_0 + " "@ + match g.owner {
        Some(Some(login)) => login,
        _ => Seq::empty(),
    } + " "@ + g.id->Some_0 + " "@ + match g.description {
        Some(d) => shown_description(d, width),
        None => Seq::empty(),
    }
}

/// A file as the get command prints it: a header of name, language and
/// size, a newline, the body, and the delimiter.
pub open spec fn file_block(
    name: Seq<char>,
    language: Seq<char>,
    size: usize,
    body: Seq<char>,
    delimiter: Seq<char>,
) -> Seq<char> {
    name + " "@ + language + " "@ + decimal_of(size as nat) + "\n"@ + body + delimiter
}

/// The body printed for a file: nothing in no-content mode or where the
/// content is absent, else the content.
pub open spec fn shown_body(content: Option<Seq<char>>, no_content: bool) -> Seq<char> {
    if no_content {
        Seq::empty()
    } else {
        match content {
            Some(c) => c,
            None => Seq::empty(),
        }
    }
}

/// `s` with each newline turned into a space.
pub fn flatten(s: &str) -> (r: String)
    ensures
        r@ == flatten_newlines(s@),
{
    let n = s.unicode_len();
    let mut out = String::new();
    let mut i: usize = 0;
    while i < n
        invariant
            n == s@.len(),
            i <= n,
            out@ == flatten_newlines(s@.subrange(0, i as int)),
        decreases n - i,
    {
        let c = s.get_char(i);
        let shown = if c == '\n' {
            ' '
        } else {
            c
        };
        push_char(&mut out, shown);
        assert(flatten_newlines(s@.subrange(0, i + 1)) =~= flatten_newlines(
            s@.subrange(0, i as int),
        ).push(shown));
        i = i + 1;
    }
    assert(s@.subrange(0, n as int) =~= s@);
    out
}

/// A description as a listing shows it, for a terminal of `width` columns
/// where that is known.
pub fn render_description(d: &str, width: Option<usize>) -> (r: String)
    ensures
        r@ == shown_description(d@, width),
{
    let limit: usize = match width {
        Some(w) => w / 3,
        None => 40,
    };
    let flat = flatten(d);
    if flat.as_str().unicode_len() > limit {
        flat.as_str().substring_char(0, limit).to_string().concat("...")
    } else {
        flat
    }
}

/// The listing line of a gist, for a terminal of `width` columns where that
/// is known.
pub fn render_listing_line(g: &Gist, width: Option<usize>) -> (r: String)
    requires
        listable(g@),
    ensures
        r@ == listing_line(g@, width),
{
    proof {
        reveal_strlit("");
    }
    let created = match &g.created_at {
        Some(c) => c.as_str(),
        None => "",
    };
    let owner = match &g.owner {
        Some(u) => match &u.login {
            Some(l) => l.as_str(),
            None => "",
        },
        None => "",
    };
    let id = match &g.id {
        Some(i) => i.as_str(),
        None => "",
    };
    let description = match &g.description {
        Some(d) => render_description(d.as_str(), width),
        None => String::new(),
    };
    String::from_str(created).concat(" ").concat(owner).concat(" ").concat(id).concat(" ").concat(
        description.as_str(),
    )
}

/// A file as the get command prints it.
pub fn render_file(name: &str, file: &File, no_content: bool, delimiter: &str) -> (r: String)
    requires
        file.language is Some,
    ensures
        r@ == file_block(
            name@,
            file@.language->Some_0,
            file.size,
            shown_body(file@.content, no_content),
            delimiter@,
        ),
{
    let language = match &file.language {
        Some(l) => l.as_str(),
        None => "",
    };
    let body = if no_content {
        ""
    } else {
        match &file.content {
            Some(c) => c.as_str(),
            None => "",
        }
    };
    proof {
        reveal_strlit("");
    }
    let size = decimal(file.size as u64);
    String::from_str(name).concat(" ").concat(language).concat(" ").concat(size.as_str()).concat(
        "\n",
    ).concat(body).concat(delimiter)
}

/// Where a file of a gist is written in a destination directory.
pub fn destination_path(directory: &str, filename: &str) -> (r: String)
    ensures
        r@ == directory@ + "/"@ + filename@,
{
    String::from_str(directory).concat("/").concat(filename)
}

/// What the get command does with one file.
#[derive(Debug, PartialEq)]
pub enum FileOutput {
    /// Print this text.
    Print(String),
    /// Write this content to this path.
    Write { path: String, content: String },
    /// The file has no content to write to this path.
    Missing { path: String },
}

/// What the get command does with one file: print it where no destination
/// directory is given; else write its raw content, with no header, to the
/// file of its name in the directory.
pub fn file_output(
    name: &str,
    file: &File,
    no_content: bool,
    delimiter: &str,
    destination: Option<&str>,
) -> (r: FileOutput)
    requires
        destination is None ==> file.language is Some,
    ensures
        match destination {
            None => (r matches FileOutput::Print(s) && s@ == file_block(
                name@,
                file@.language->Some_0,
                file.size,
                shown_body(file@.content, no_content),
                delimiter@,
            )),
            Some(d) => match file@.content {
                Some(c) => (r matches FileOutput::Write { path, content } && path@ == d@ + "/"@
                    + name@ && content@ == c),
                None => (r matches FileOutput::Missing { path } && path@ == d@ + "/"@ + name@),
            },
        },
{
    match destination {
        None => FileOutput::Print(render_file(name, file, no_content, delimiter)),
        Some(d) => {
            let path = destination_path(d, name);
            match &file.content {
                Some(c) => FileOutput::Write { path, content: c.clone() },
                None => FileOutput::Missing { path },
            }
        },
    }
}

} // verus!
