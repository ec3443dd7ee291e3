use vstd::prelude::*;

use crate::entity::{
    entry_view, gists_view, names_distinct, opt_view, owner_view, File, FileView, Gist, GistView,
    User,
};
use crate::json::{field, get_field, owned, Json};

verus! {

/// An optional string member: absent or null is none, a string is itself,
/// anything else does not decode.
pub open spec fn opt_string_of(v: Option<Json>) -> Option<Option<Seq<char>>> {
    match v {
        None => Some(None),
        Some(Json::Null) => Some(None),
        Some(Json::Str(s)) => Some(Some(s@)),
        Some(_) => None,
    }
}

/// An optional flag member: absent or null is none, a boolean is itself.
pub open spec fn opt_bool_of(v: Option<Json>) -> Option<Option<bool>> {
    match v {
        None => Some(None),
        Some(Json::Null) => Some(None),
        Some(Json::Bool(b)) => Some(Some(b)),
        Some(_) => None,
    }
}

/// A required flag member.
pub open spec fn bool_of(v: Option<Json>) -> Option<bool> {
    match v {
        Some(Json::Bool(b)) => Some(b),
        _ => None,
    }
}

/// A required size member: an unsigned integer that fits in a `usize`.
pub open spec fn size_of(v: Option<Json>) -> Option<usize> {
    match v {
        Some(Json::Uint(n)) => if n <= usize::MAX {
            Some(n as usize)
        } else {
            None
        },
        _ => None,
    }
}

/// A user object, decoded to its login.
pub open spec fn user_of(j: Json) -> Option<Option<Seq<char>>> {
    match j {
        Json::Object(_) => opt_string_of(field(j, "login"@)),
        _ => None,
    }
}

/// An optional owner member: absent or null is none, else a user.
pub open spec fn owner_of(v: Option<Json>) -> Option<Option<Option<Seq<char>>>> {
    match v {
        None => Some(None),
        Some(Json::Null) => Some(None),
        Some(u) => match user_of(u) {
            Some(login) => Some(Some(login)),
            None => None,
        },
    }
}

/// What a file object decodes to.
pub open spec fn file_of(j: Json) -> Option<FileView> {
    match j {
        Json::Object(_) => {
            let raw_url = opt_string_of(field(j, "raw_url"@));
            let filename = opt_string_of(field(j, "filename"@));
            let language = opt_string_of(field(j, "language"@));
            let content = opt_string_of(field(j, "content"@));
            let size = size_of(field(j, "size"@));
            let truncated = opt_bool_of(field(j, "truncated"@));
            if raw_url is Some && filename is Some && language is Some && content is Some
                && size is Some && truncated is Some {
                Some(
                    FileView {
                        raw_url: raw_url->Some_0,
                        filename: filename->Some_0,
                        language: language->Some_0,
                        content: content->Some_0,
                        size: size->Some_0,
                        truncated: truncated->Some_0,
                    },
                )
            } else {
                None
            }
        },
        _ => None,
    }
}

/// What the members of a files object decode to, in their order.
pub open spec fn files_of(fields: Seq<(String, Json)>) -> Option<Seq<(Seq<char>, FileView)>>
    decreases fields.len(),
{
    if fields.len() == 0 {
        Some(Seq::empty())
    } else {
        match (files_of(fields.drop_last()), file_of(fields.last().1)) {
            (Some(fs), Some(f)) => Some(fs.push((fields.last().0@, f))),
            _ => None,
        }
    }
}

/// What a gist object decodes to: every member of the right type, and the
/// files an object whose names are distinct.
pub open spec fn gist_of(j: Json) -> Option<GistView> {
    match j {
        Json::Object(_) => match field(j, "files"@) {
            Some(Json::Object(fs)) => {
                let url = opt_string_of(field(j, "url"@));
                let html_url = opt_string_of(field(j, "html_url"@));
                let id = opt_string_of(field(j, "id"@));
                let description = opt_string_of(field(j, "description"@));
                let public = bool_of(field(j, "public"@));
                let created_at = opt_string_of(field(j, "created_at"@));
                let owner = owner_of(field(j, "owner"@));
                let files = files_of(fs@);
                if url is Some && html_url is Some && id is Some && description is Some
                    && public is Some && created_at is Some && owner is Some && files is Some
                    && names_distinct(files->Some_0) {
                    Some(
                        GistView {
                            url: url->Some_0,
                            html_url: html_url->Some_0,
                            id: id->Some_0,
                            description: description->Some_0,
                            public: public->Some_0,
                            created_at: created_at->Some_0,
                            owner: owner->Some_0,
                            files: files->Some_0,
                        },
                    )
                } else {
                    None
                }
            },
            _ => None,
        },
        _ => None,
    }
}

/// What the items of a listing decode to, in their order.
pub open spec fn gists_of(items: Seq<Json>) -> Option<Seq<GistView>>
    decreases items.len(),
{
    if items.len() == 0 {
        Some(Seq::empty())
    } else {
        match (gists_of(items.drop_last()), gist_of(items.last())) {
            (Some(gs), Some(g)) => Some(gs.push(g)),
            _ => None,
        }
    }
}

/// What a listing body decodes to.
pub open spec fn listing_of(j: Json) -> Option<Seq<GistView>> {
    match j {
        Json::Array(items) => gists_of(items@),
        _ => None,
    }
}

proof fn lemma_files_of_fails_on(fields: Seq<(String, Json)>, k: int)
    requires
        0 <= k <= fields.len(),
        files_of(fields.subrange(0, k)) is None,
    ensures
        files_of(fields) is None,
    decreases fields.len() - k,
{
    if k < fields.len() {
        let longer = fields.subrange(0, k + 1);
        assert(longer.drop_last() =~= fields.subrange(0, k));
        lemma_files_of_fails_on(fields, k + 1);
    } else {
        assert(fields.subrange(0, k) =~= fields);
    }
}

proof fn lemma_gists_of_fails_on(items: Seq<Json>, k: int)
    requires
        0 <= k <= items.len(),
        gists_of(items.subrange(0, k)) is None,
    ensures
        gists_of(items) is None,
    decreases items.len() - k,
{
    if k < items.len() {
        let longer = items.subrange(0, k + 1);
        assert(longer.drop_last() =~= items.subrange(0, k));
        lemma_gists_of_fails_on(items, k + 1);
    } else {
        assert(items.subrange(0, k) =~= items);
    }
}

proof fn lemma_files_of_members(fields: Seq<(String, Json)>)
    requires
        files_of(fields) is Some,
    ensures
        files_of(fields)->Some_0.len() == fields.len(),
        forall|i: int|
            0 <= i < fields.len() ==> #[trigger] files_of(fields)->Some_0[i].0 == fields[i].0@
                && file_of(fields[i].1) == Some(files_of(fields)->Some_0[i].1),
    decreases fields.len(),
{
    if fields.len() > 0 {
        let rest = fields.drop_last();
        lemma_files_of_members(rest);
        let fs = files_of(fields)->Some_0;
        assert forall|i: int| 0 <= i < fields.len() implies #[trigger] fs[i].0 == fields[i].0@
            && file_of(fields[i].1) == Some(fs[i].1) by {
            if i < fields.len() - 1 {
                assert(rest[i] == fields[i]);
            }
        }
    }
}

/// A decoded gist has exactly the files that its body lists: as many, under
/// the same names and in the same order, each with the size and truncation
/// flag that its object gives.
pub proof fn lemma_decoded_files(j: Json)
    requires
        gist_of(j) is Some,
    ensures
        field(j, "files"@) matches Some(Json::Object(_)),
        gist_of(j)->Some_0.files.len() == field(j, "files"@)->Some_0->Object_0@.len(),
        forall|i: int|
            0 <= i < gist_of(j)->Some_0.files.len() ==> {
                let member = field(j, "files"@)->Some_0->Object_0@[i];
                let f = #[trigger] gist_of(j)->Some_0.files[i];
                &&& f.0 == member.0@
                &&& Some(f.1.size) == size_of(field(member.1, "size"@))
                &&& Some(f.1.truncated) == opt_bool_of(field(member.1, "truncated"@))
            },
{
    let fs = field(j, "files"@)->Some_0->Object_0@;
    lemma_files_of_members(fs);
}

/// Two optional strings, seen as their characters.
pub open spec fn opt_opt_view(r: Option<Option<String>>) -> Option<Option<Seq<char>>> {
    match r {
        Some(o) => Some(opt_view(o)),
        None => None,
    }
}

fn opt_string(v: Option<&Json>) -> (r: Option<Option<String>>)
    ensures
        opt_opt_view(r) == opt_string_of(owned(v)),
{
    match v {
        None => Some(None),
        Some(Json::Null) => Some(None),
        Some(Json::Str(s)) => Some(Some(s.clone())),
        Some(_) => None,
    }
}

fn opt_bool(v: Option<&Json>) -> (r: Option<Option<bool>>)
    ensures
        r == opt_bool_of(owned(v)),
{
    match v {
        None => Some(None),
        Some(Json::Null) => Some(None),
        Some(Json::Bool(b)) => Some(Some(*b)),
        Some(_) => None,
    }
}

fn size(v: Option<&Json>) -> (r: Option<usize>)
    ensures
        r == size_of(owned(v)),
{
    match v {
        Some(Json::Uint(n)) => if *n <= usize::MAX as u64 {
            Some(*n as usize)
        } else {
            None
        },
        _ => None,
    }
}

fn decode_owner(v: Option<&Json>) -> (r: Option<Option<User>>)
    ensures
        owner_of(owned(v)) == match r {
            Some(o) => Some(owner_view(o)),
            None => None,
        },
{
    match v {
        None => Some(None),
        Some(Json::Null) => Some(None),
        Some(u) => match u {
            Json::Object(_) => match opt_string(get_field(u, "login")) {
                Some(login) => Some(Some(User { login })),
                None => None,
            },
            _ => None,
        },
    }
}

/// Decodes one file object; `None` where a member is missing or of the wrong type.
pub fn decode_file(j: &Json) -> (r: Option<File>)
    ensures
        file_of(*j) == match r {
            Some(f) => Some(f@),
            None => None,
        },
{
    match j {
        Json::Object(_) => {},
        _ => return None,
    }
    let raw_url = match opt_string(get_field(j, "raw_url")) {
        Some(x) => x,
        None => return None,
    };
    let filename = match opt_string(get_field(j, "filename")) {
        Some(x) => x,
        None => return None,
    };
    let language = match opt_string(get_field(j, "language")) {
        Some(x) => x,
        None => return None,
    };
    let content = match opt_string(get_field(j, "content")) {
        Some(x) => x,
        None => return None,
    };
    let size = match size(get_field(j, "size")) {
        Some(x) => x,
        None => return None,
    };
    let truncated = match opt_bool(get_field(j, "truncated")) {
        Some(x) => x,
        None => return None,
    };
    Some(File { raw_url, filename, language, content, size, truncated })
}

/// Whether the names of `files` are distinct.
pub fn distinct_names(files: &Vec<(String, File)>) -> (r: bool)
    ensures
        r == names_distinct(files@.map_values(|e: (String, File)| entry_view(e))),
{
    let ghost v = files@.map_values(|e: (String, File)| entry_view(e));
    let mut j: usize = 0;
    while j < files.len()
        invariant
            j <= files@.len(),
            v == files@.map_values(|e: (String, File)| entry_view(e)),
            forall|a: int, b: int| 0 <= a < b < j ==> #[trigger] v[a].0 != #[trigger] v[b].0,
        decreases files@.len() - j,
    {
        let mut i: usize = 0;
        while i < j
            invariant
                i <= j < files@.len(),
                v == files@.map_values(|e: (String, File)| entry_view(e)),
                forall|a: int, b: int| 0 <= a < b < j ==> #[trigger] v[a].0 != #[trigger] v[b].0,
                forall|a: int| 0 <= a < i ==> #[trigger] v[a].0 != v[j as int].0,
            decreases j - i,
        {
            if files[i].0 == files[j].0 {
                assert(v[i as int].0 == v[j as int].0);
                return false;
            }
            i = i + 1;
        }
        j = j + 1;
    }
    true
}

fn decode_files(fields: &Vec<(String, Json)>) -> (r: Option<Vec<(String, File)>>)
    ensures
        files_of(fields@) == match r {
            Some(fs) => Some(fs@.map_values(|e: (String, File)| entry_view(e))),
            None => None,
        },
{
    let mut out: Vec<(String, File)> = Vec::new();
    let mut i: usize = 0;
    assert(fields@.subrange(0, 0) =~= Seq::<(String, Json)>::empty());
    assert(out@.map_values(|e: (String, File)| entry_view(e)) =~= Seq::<(Seq<char>, FileView)>::empty());
    while i < fields.len()
        invariant
            i <= fields@.len(),
            files_of(fields@.subrange(0, i as int)) == Some(
                out@.map_values(|e: (String, File)| entry_view(e)),
            ),
        decreases fields@.len() - i,
    {
        let ghost prefix = fields@.subrange(0, i as int + 1);
        assert(prefix.drop_last() =~= fields@.subrange(0, i as int));
        assert(prefix.last() == fields@[i as int]);
        match decode_file(&fields[i].1) {
            Some(f) => {
                let ghost before = out@;
                out.push((fields[i].0.clone(), f));
                assert(out@.map_values(|e: (String, File)| entry_view(e)) =~= before.map_values(
                    |e: (String, File)| entry_view(e),
                ).push((fields@[i as int].0@, f@)));
            },
            None => {
                proof {
                    lemma_files_of_fails_on(fields@, i + 1);
                }
                return None;
            },
        }
        i = i + 1;
    }
    assert(fields@.subrange(0, fields@.len() as int) =~= fields@);
    Some(out)
}

/// Decodes one gist object; `None` where a member is missing or of the
/// wrong type, or where two files share a name.
pub fn decode_gist(j: &Json) -> (r: Option<Gist>)
    ensures
        gist_of(*j) == match r {
            Some(g) => Some(g@),
            None => None,
        },
        r matches Some(g) ==> g.wf(),
{
    match j {
        Json::Object(_) => {},
        _ => return None,
    }
    let fs = match get_field(j, "files") {
        Some(Json::Object(fs)) => fs,
        _ => return None,
    };
    let url = match opt_string(get_field(j, "url")) {
        Some(x) => x,
        None => return None,
    };
    let html_url = match opt_string(get_field(j, "html_url")) {
        Some(x) => x,
        None => return None,
    };
    let id = match opt_string(get_field(j, "id")) {
        Some(x) => x,
        None => return None,
    };
    let description = match opt_string(get_field(j, "description")) {
        Some(x) => x,
        None => return None,
    };
    let public = match get_field(j, "public") {
        Some(Json::Bool(b)) => *b,
        _ => return None,
    };
    let created_at = match opt_string(get_field(j, "created_at")) {
        Some(x) => x,
        None => return None,
    };
    let owner = match decode_owner(get_field(j, "owner")) {
        Some(x) => x,
        None => return None,
    };
    let files = match decode_files(fs) {
        Some(x) => x,
        None => return None,
    };
    if !distinct_names(&files) {
        return None;
    }
    Some(Gist { url, html_url, id, description, public, created_at, owner, files })
}

/// Decodes a listing: an array of gist objects, in their order.
pub fn decode_gists(j: &Json) -> (r: Option<Vec<Gist>>)
    ensures
        listing_of(*j) == match r {
            Some(gs) => Some(gists_view(gs@)),
            None => None,
        },
        r matches Some(gs) ==> forall|i: int| 0 <= i < gs@.len() ==> (#[trigger] gs@[i]).wf(),
{
    let items = match j {
        Json::Array(items) => items,
        _ => return None,
    };
    let mut out: Vec<Gist> = Vec::new();
    let mut i: usize = 0;
    assert(items@.subrange(0, 0) =~= Seq::<Json>::empty());
    assert(gists_view(out@) =~= Seq::<GistView>::empty());
    while i < items.len()
        invariant
            i <= items@.len(),
            listing_of(*j) == gists_of(items@),
            gists_of(items@.subrange(0, i as int)) == Some(gists_view(out@)),
            forall|k: int| 0 <= k < out@.len() ==> (#[trigger] out@[k]).wf(),
        decreases items@.len() - i,
    {
        let ghost prefix = items@.subrange(0, i as int + 1);
        assert(prefix.drop_last() =~= items@.subrange(0, i as int));
        assert(prefix.last() == items@[i as int]);
        match decode_gist(&items[i]) {
            Some(g) => {
                let ghost before = out@;
                out.push(g);
                assert(gists_view(out@) =~= gists_view(before).push(g@));
            },
            None => {
                proof {
                    lemma_gists_of_fails_on(items@, i + 1);
                }
                return None;
            },
        }
        i = i + 1;
    }
    assert(items@.subrange(0, items@.len() as int) =~= items@);
    Some(out)
}

} // verus!
