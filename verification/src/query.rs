//! The provider requests that the gateway makes: one address for each of the
//! folder listing, the search by name, the metadata of one entry and the
//! content of one entry.

use vstd::prelude::*;
use vstd::string::*;

verus! {

/// Trusted: `String::push` of the standard library, for which `vstd` has no
/// specification. It appends the character to the end of the string and
/// changes nothing before it.
pub assume_specification[ String::push ](text: &mut String, c: char)
    ensures
        final(text)@ == old(text)@.push(c),
;

/// One character of a name inside a quoted query literal: a single quote gets
/// a backslash in front, every other character stands as it is.
pub open spec fn escaped_char(c: char) -> Seq<char> {
    if c == '\'' {
        seq!['\\', '\'']
    } else {
        seq![c]
    }
}

/// A name as it is written between the quotes of a query literal.
pub open spec fn escaped_quotes(name: Seq<char>) -> Seq<char>
    decreases name.len(),
{
    if name.len() == 0 {
        seq![]
    } else {
        escaped_quotes(name.drop_last()) + escaped_char(name.last())
    }
}

/// Escapes the single quotes of `name` for use inside a query literal.
pub fn escape_quotes(name: &str) -> (escaped: String)
    ensures
        escaped@ == escaped_quotes(name@),
{
    let mut escaped = String::new();
    let ghost mut done: Seq<char> = Seq::empty();
    for c in it: name.chars()
        invariant
            it.seq() == name@,
            done == name@.take(it.index()),
            escaped@ == escaped_quotes(done),
    {
        if c == '\'' {
            escaped.push('\\');
        }
        escaped.push(c);
        proof {
            done = done.push(c);
            assert(done =~= name@.take(it.index() + 1));
            assert(done.drop_last() =~= name@.take(it.index()));
        }
    }
    proof {
        assert(done =~= name@);
    }
    escaped
}

/// Where the provider keeps its file entries.
pub const FILES_ENDPOINT: &'static str = "https://www.googleapis.com/drive/v3/files";

/// The flags that every request carries, so that entries of shared drives
/// count too.
pub const SHARED_DRIVE_FLAGS: &'static str = "supportsAllDrives=true&includeItemsFromAllDrives=true";

/// The address that lists the entries of a folder.
pub open spec fn list_url(api_key: Seq<char>, folder_id: Seq<char>) -> Seq<char> {
    FILES_ENDPOINT@ + "?q='"@ + folder_id + "'+in+parents&"@ + SHARED_DRIVE_FLAGS@ + "&key="@
        + api_key
}

/// Builds the address that lists the entries of a folder.
pub fn list_request(api_key: &str, folder_id: &str) -> (url: String)
    ensures
        url@ == list_url(api_key@, folder_id@),
{
    let mut url = String::from_str(FILES_ENDPOINT);
    url.append("?q='");
    url.append(folder_id);
    url.append("'+in+parents&");
    url.append(SHARED_DRIVE_FLAGS);
    url.append("&key=");
    url.append(api_key);
    url
}

/// The fields that a search asks the provider to return.
pub const SEARCH_FIELDS: &'static str = "fields=files(id,name,mimeType,shortcutDetails)";

/// The address that searches a folder for the entries with a given name. The
/// name stands in a quoted literal, its single quotes escaped.
pub open spec fn search_url(api_key: Seq<char>, folder_id: Seq<char>, name: Seq<char>) -> Seq<
    char,
> {
    FILES_ENDPOINT@ + "?q=name='"@ + escaped_quotes(name) + "'+and+'"@ + folder_id
        + "'+in+parents&"@ + SHARED_DRIVE_FLAGS@ + "&"@ + SEARCH_FIELDS@ + "&key="@ + api_key
}

/// Builds the address that searches a folder for the entries named `name`.
pub fn search_request(api_key: &str, folder_id: &str, name: &str) -> (url: String)
    ensures
        url@ == search_url(api_key@, folder_id@, name@),
{
    let escaped = escape_quotes(name);
    let mut url = String::from_str(FILES_ENDPOINT);
    url.append("?q=name='");
    url.append(escaped.as_str());
    url.append("'+and+'");
    url.append(folder_id);
    url.append("'+in+parents&");
    url.append(SHARED_DRIVE_FLAGS);
    url.append("&");
    url.append(SEARCH_FIELDS);
    url.append("&key=");
    url.append(api_key);
    url
}

/// The address of the metadata of the entry with a given identifier.
pub open spec fn metadata_url(api_key: Seq<char>, id: Seq<char>) -> Seq<char> {
    FILES_ENDPOINT@ + "/"@ + id + "?"@ + SHARED_DRIVE_FLAGS@ + "&key="@ + api_key
}

/// Builds the address of the metadata of the entry `id`.
pub fn metadata_request(api_key: &str, id: &str) -> (url: String)
    ensures
        url@ == metadata_url(api_key@, id@),
{
    let mut url = String::from_str(FILES_ENDPOINT);
    url.append("/");
    url.append(id);
    url.append("?");
    url.append(SHARED_DRIVE_FLAGS);
    url.append("&key=");
    url.append(api_key);
    url
}

/// The address of the content of the entry with a given identifier.
pub open spec fn content_url(api_key: Seq<char>, id: Seq<char>) -> Seq<char> {
    FILES_ENDPOINT@ + "/"@ + id + "?alt=media&"@ + SHARED_DRIVE_FLAGS@ + "&key="@ + api_key
}

/// Builds the address of the content of the entry `id`.
pub fn content_request(api_key: &str, id: &str) -> (url: String)
    ensures
        url@ == content_url(api_key@, id@),
{
    let mut url = String::from_str(FILES_ENDPOINT);
    url.append("/");
    url.append(id);
    url.append("?alt=media&");
    url.append(SHARED_DRIVE_FLAGS);
    url.append("&key=");
    url.append(api_key);
    url
}

/// In an escaped name every single quote has a backslash directly in front,
/// so none of them can end the literal that the name stands in.
pub proof fn lemma_escaped_quotes_guarded(name: Seq<char>, i: int)
    requires
        0 <= i < escaped_quotes(name).len(),
        escaped_quotes(name)[i] == '\'',
    ensures
        i > 0,
        escaped_quotes(name)[i - 1] == '\\',
    decreases name.len(),
{
    if name.len() > 0 {
        let front = escaped_quotes(name.drop_last());
        if i < front.len() {
            lemma_escaped_quotes_guarded(name.drop_last(), i);
        }
    }
}

/// Escaping adds one character for each single quote and keeps the rest: a
/// name without single quotes is written unchanged.
pub proof fn lemma_escaped_quotes_plain(name: Seq<char>)
    requires
        !name.contains('\''),
    ensures
        escaped_quotes(name) == name,
    decreases name.len(),
{
    if name.len() > 0 {
        let front = name.drop_last();
        assert(name[name.len() - 1] == name.last());
        assert forall|c: char| front.contains(c) implies name.contains(c) by {
            let k = choose|k: int| 0 <= k < front.len() && front[k] == c;
            assert(name[k] == c);
        }
        lemma_escaped_quotes_plain(front);
        assert(front + seq![name.last()] =~= name);
    }
}

} // verus!
