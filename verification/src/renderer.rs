//! The listing of one directory level as an HTML page.
//!
//! The renderer sees a directory as a sequence of entries, each a name and
//! what the file system said of it. Names are untrusted: a link target is
//! percent-encoded and a link text is entity-escaped, so that no name can
//! leave the attribute or the element it is written into.

use vstd::prelude::*;
use vstd::string::*;

use crate::gate::decide;
use crate::markup::{
    attribute_safe, href_encoded, html_escaped, lemma_escaped_is_text_safe,
    lemma_href_is_attribute_safe, link_target, link_text, text_safe,
};
use crate::naming::{is_protected, is_protected_name};
use crate::sessions::Sessions;
use crate::text::{
    all_chars, from_chars, lemma_all_chars_concat, lemma_without_keeps, remove_all, to_chars,
    without,
};

verus! {

/// What the file system reports of a directory entry.
#[derive(Clone, Copy, Debug, PartialEq, Eq, Structural)]
pub enum EntryKind {
    Directory,
    File,
    Symlink,
    /// Neither a directory, a regular file nor a symbolic link.
    Other,
    /// The metadata of the entry could not be read.
    Unreadable,
}

/// One entry of the directory that is listed.
#[derive(Clone, Debug, PartialEq, Eq)]
pub struct DirectoryEntry {
    /// The name as text. Where the file system's name is not valid Unicode,
    /// this is the name with each offending part replaced.
    pub name: String,
    /// Whether `name` had to be repaired in that way.
    pub lossy: bool,
    pub kind: EntryKind,
}

/// The model of a directory entry.
pub struct EntryModel {
    pub name: Seq<char>,
    pub lossy: bool,
    pub kind: EntryKind,
}

impl View for DirectoryEntry {
    type V = EntryModel;

    open spec fn view(&self) -> EntryModel {
        EntryModel { name: self.name@, lossy: self.lossy, kind: self.kind }
    }
}

/// The models of a sequence of entries, in the same order.
pub open spec fn models(entries: Seq<DirectoryEntry>) -> Seq<EntryModel> {
    entries.map_values(|entry: DirectoryEntry| entry@)
}

/// A name that begins with a dot is hidden.
pub open spec fn is_hidden(name: Seq<char>) -> bool {
    name.len() > 0 && name[0] == '.'
}

/// An entry is listed when it is known to be a directory, a regular file or
/// a symbolic link and its name is not hidden. Only a name that is valid
/// Unicode is held to the dot convention; a repaired name is never hidden.
pub open spec fn is_listed(entry: EntryModel) -> bool {
    (entry.lossy || !is_hidden(entry.name)) && (entry.kind == EntryKind::Directory || entry.kind
        == EntryKind::File || entry.kind == EntryKind::Symlink)
}

/// A listed entry is shown as locked when it is not a directory and its name
/// follows the protected-naming convention.
pub open spec fn shows_lock(entry: EntryModel) -> bool {
    is_listed(entry) && entry.kind != EntryKind::Directory && is_protected(entry.name)
}

/// `name` appended to the path `base`: a separator is put between the two
/// unless `base` is empty or ends with one, and a name that starts at the
/// root stands alone.
pub open spec fn joined(base: Seq<char>, name: Seq<char>) -> Seq<char> {
    if name.len() > 0 && name[0] == '/' {
        name
    } else if base.len() == 0 || base.last() == '/' {
        base + name
    } else {
        base + seq!['/'] + name
    }
}

/// The link target of an entry.
pub open spec fn entry_href(entry: EntryModel, base: Seq<char>) -> Seq<char> {
    href_encoded(joined(base, entry.name))
}

/// The text shown for a protected document: a lock, then the escaped name
/// without the marker `secure.` and without the extension `.html`.
pub open spec fn locked_label(name: Seq<char>) -> Seq<char> {
    "\u{1F512} "@ + without(without(html_escaped(name), "secure."@), ".html"@)
}

/// The link text of an entry.
pub open spec fn entry_label(entry: EntryModel) -> Seq<char> {
    if entry.kind == EntryKind::Directory {
        html_escaped(entry.name) + "/"@
    } else if is_protected(entry.name) {
        locked_label(entry.name)
    } else {
        html_escaped(entry.name)
    }
}

/// A list item that links to `href` and shows `label`.
pub open spec fn item_markup(href: Seq<char>, label: Seq<char>) -> Seq<char> {
    "<li><a href=\""@ + href + "\">"@ + label + "</a></li>"@
}

/// The markup of one entry: a list item if it is listed, nothing otherwise.
pub open spec fn entry_markup(entry: EntryModel, base: Seq<char>) -> Seq<char> {
    if is_listed(entry) {
        item_markup(entry_href(entry, base), entry_label(entry))
    } else {
        Seq::empty()
    }
}

/// The markup of the entries one after the other.
pub open spec fn listing_items(entries: Seq<EntryModel>, base: Seq<char>) -> Seq<char>
    decreases entries.len(),
{
    if entries.len() == 0 {
        Seq::empty()
    } else {
        listing_items(entries.drop_last(), base) + entry_markup(entries.last(), base)
    }
}

/// What precedes the list items in a page.
pub open spec fn page_head() -> Seq<char> {
    "<html><head>\n                <meta name=\"viewport\" content=\"width=device-width, initial-scale=1.0\">\n                <title>Posts</title>\n                <link rel=\"stylesheet\" href=\"/static/styles.css\">\n            </head><body><h1>Posts</h1><ul>"@
}

/// What follows the list items in a page.
pub open spec fn page_tail() -> Seq<char> {
    "</ul></body>\n</html>"@
}

/// The whole page for a directory.
pub open spec fn listing_page(entries: Seq<EntryModel>, base: Seq<char>) -> Seq<char> {
    page_head() + listing_items(entries, base) + page_tail()
}

/// Appends `name` to the path `base`.
pub fn join_path(base: &str, name: &str) -> (path: String)
    ensures
        path@ == joined(base@, name@),
{
    let base_chars = to_chars(base);
    let name_chars = to_chars(name);
    if name_chars.len() > 0 && name_chars[0] == '/' {
        let path = name.to_owned();
        return path;
    }
    let mut path = base.to_owned();
    if base_chars.len() > 0 && base_chars[base_chars.len() - 1] != '/' {
        path.push('/');
    }
    path.append(name);
    path
}

/// Whether `entry` appears in the listing.
pub fn listed(entry: &DirectoryEntry) -> (shown: bool)
    ensures
        shown == is_listed(entry@),
{
    let name = to_chars(entry.name.as_str());
    if !entry.lossy && name.len() > 0 && name[0] == '.' {
        return false;
    }
    match entry.kind {
        EntryKind::Directory | EntryKind::File | EntryKind::Symlink => true,
        EntryKind::Other | EntryKind::Unreadable => false,
    }
}

/// The link text of `entry`.
pub fn label(entry: &DirectoryEntry) -> (text: String)
    ensures
        text@ == entry_label(entry@),
{
    let escaped = link_text(entry.name.as_str());
    match entry.kind {
        EntryKind::Directory => {
            let mut text = escaped;
            text.append("/");
            text
        },
        _ => {
            if is_protected_name(entry.name.as_str()) {
                let chars = to_chars(escaped.as_str());
                let unmarked = remove_all(&chars, &to_chars("secure."));
                let bare = remove_all(&unmarked, &to_chars(".html"));
                let mut text = String::from_str("\u{1F512} ");
                text.append(from_chars(&bare).as_str());
                text
            } else {
                escaped
            }
        },
    }
}

/// The markup of `entry` in a listing whose links start at `base`.
pub fn render_entry(entry: &DirectoryEntry, base: &str) -> (item: String)
    ensures
        item@ == entry_markup(entry@, base@),
{
    if !listed(entry) {
        return String::new();
    }
    let path = join_path(base, entry.name.as_str());
    let href = link_target(path.as_str());
    let text = label(entry);
    let mut item = String::from_str("<li><a href=\"");
    item.append(href.as_str());
    item.append("\">");
    item.append(text.as_str());
    item.append("</a></li>");
    item
}

/// Renders the page that lists `entries`, with links that start at `path`.
/// The result depends on nothing but the two arguments.
pub fn custom_renderer(entries: &Vec<DirectoryEntry>, path: &str) -> (html: String)
    ensures
        html@ == listing_page(models(entries@), path@),
{
    let mut body = String::new();
    let mut i: usize = 0;
    while i < entries.len()
        invariant
            i <= entries.len(),
            body@ == listing_items(models(entries@).take(i as int), path@),
        decreases entries.len() - i,
    {
        let item = render_entry(&entries[i], path);
        assert(models(entries@).take(i + 1).drop_last() == models(entries@).take(i as int));
        body.append(item.as_str());
        i = i + 1;
    }
    assert(models(entries@).take(entries.len() as int) == models(entries@));
    let mut html = String::from_str(
        "<html><head>\n                <meta name=\"viewport\" content=\"width=device-width, initial-scale=1.0\">\n                <title>Posts</title>\n                <link rel=\"stylesheet\" href=\"/static/styles.css\">\n            </head><body><h1>Posts</h1><ul>",
    );
    html.append(body.as_str());
    html.append("</ul></body>\n</html>");
    html
}

/// The model of a reply to a request for the listing.
pub enum ListingOutcome {
    Page { html: Seq<char> },
    Failure { message: Seq<char> },
}

/// The reply to a request for the listing.
#[derive(Clone, Debug, PartialEq, Eq)]
pub enum ListingReply {
    /// The page, to be sent as HTML.
    Page { html: String },
    /// The directory could not be read; to be sent as a server error.
    Failure { message: String },
}

impl View for ListingReply {
    type V = ListingOutcome;

    open spec fn view(&self) -> ListingOutcome {
        match self {
            ListingReply::Page { html } => ListingOutcome::Page { html: html@ },
            ListingReply::Failure { message } => ListingOutcome::Failure { message: message@ },
        }
    }
}

/// Where the links of the listing start.
pub open spec fn notes_mount() -> Seq<char> {
    "/notes"@
}

/// The reply for a directory that was read, or for the cause of not reading
/// it.
pub open spec fn listing_outcome(read: Result<Seq<EntryModel>, Seq<char>>) -> ListingOutcome {
    match read {
        Ok(entries) => ListingOutcome::Page { html: listing_page(entries, notes_mount()) },
        Err(cause) => ListingOutcome::Failure {
            message: "Error with rendering directory: "@ + cause,
        },
    }
}

/// Answers a request for the listing, given the entries of the directory or
/// the cause for which they could not be read.
pub fn notes(read: Result<Vec<DirectoryEntry>, String>) -> (reply: ListingReply)
    ensures
        reply@ == listing_outcome(
            match read {
                Ok(entries) => Ok(models(entries@)),
                Err(cause) => Err(cause@),
            },
        ),
{
    match read {
        Ok(entries) => ListingReply::Page { html: custom_renderer(&entries, "/notes") },
        Err(cause) => {
            let mut message = String::from_str("Error with rendering directory: ");
            message.append(cause.as_str());
            ListingReply::Failure { message }
        },
    }
}

/// A name shows up in the markup of its entry in two places only, the link
/// target and the link text. The target holds no `"`, `<` or `>` and the
/// text holds no `<` or `>`, whatever the name and the base path are.
pub proof fn lemma_names_stay_contained(entry: EntryModel, base: Seq<char>)
    ensures
        is_listed(entry) ==> entry_markup(entry, base) == item_markup(
            entry_href(entry, base),
            entry_label(entry),
        ),
        all_chars(entry_href(entry, base), |c: char| attribute_safe(c)),
        all_chars(entry_label(entry), |c: char| text_safe(c)),
{
    let safe = |c: char| text_safe(c);
    lemma_href_is_attribute_safe(joined(base, entry.name));
    lemma_escaped_is_text_safe(entry.name);
    if entry.kind == EntryKind::Directory {
        reveal_strlit("/");
        lemma_all_chars_concat(html_escaped(entry.name), "/"@, safe);
    } else if is_protected(entry.name) {
        reveal_strlit("\u{1F512} ");
        let unmarked = without(html_escaped(entry.name), "secure."@);
        lemma_without_keeps(html_escaped(entry.name), "secure."@, safe);
        lemma_without_keeps(unmarked, ".html"@, safe);
        lemma_all_chars_concat("\u{1F512} "@, without(unmarked, ".html"@), safe);
    }
}

/// The listing shows a lock on exactly those files that the access gate does not
/// serve without a token.
pub proof fn lemma_lock_matches_gate(entry: EntryModel, sessions: Sessions, query: Seq<char>)
    requires
        is_listed(entry),
        entry.kind != EntryKind::Directory,
    ensures
        shows_lock(entry) <==> !(decide(sessions, Some(entry.name), query) is PublicServe),
        shows_lock(entry) ==> entry_label(entry) == locked_label(entry.name),
        !shows_lock(entry) ==> entry_label(entry) == html_escaped(entry.name),
{
}

/// Entries that are not listed leave no trace in the page.
pub proof fn lemma_unlisted_is_silent(entries: Seq<EntryModel>, entry: EntryModel, base: Seq<char>)
    requires
        !is_listed(entry),
    ensures
        listing_items(entries.push(entry), base) == listing_items(entries, base),
{
    assert(entries.push(entry).drop_last() == entries);
    assert(listing_items(entries, base) + Seq::<char>::empty() == listing_items(entries, base));
}

} // verus!
