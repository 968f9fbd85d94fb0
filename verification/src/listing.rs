//! HTML directory listings: one list item per entry that the suffix filter
//! does not hide, each a hyperlink built from the request tail and the entry
//! name, with a trailing slash on directory links.

use vstd::prelude::*;
use vstd::seq_lib::*;
use vstd::string::StringExecFns;
use crate::filter::is_excluded;
use crate::filter::lower_of;
use crate::filter::name_hidden;
use crate::response::Response;
use crate::strutil::collapse_double_slashes;
use crate::strutil::collapse_slashes;
use crate::strutil::suffix_of;

verus! {

/// One entry of a directory: its filename and whether it is itself a
/// directory.
pub struct Entry {
    pub name: String,
    pub is_dir: bool,
}

/// An entry is hidden from listings when its lowercased name ends with one
/// of the fixed suffixes.
pub open spec fn entry_hidden(e: Entry) -> bool {
    name_hidden(lower_of(e.name@))
}

/// The hyperlink target for an entry: a leading slash, the request tail with
/// doubled slashes collapsed, the entry name, and a trailing slash only for
/// directories.
pub open spec fn href_text(tail: Seq<char>, name: Seq<char>, is_dir: bool) -> Seq<char> {
    "/"@ + collapse_slashes(tail) + name + (if is_dir {
        "/"@
    } else {
        Seq::<char>::empty()
    })
}

/// The list item emitted for one shown entry.
pub open spec fn item_html(tail: Seq<char>, name: Seq<char>, is_dir: bool) -> Seq<char> {
    "<li><a href=\""@ + href_text(tail, name, is_dir) + "\">"@ + name + "</a></li>"@
}

/// What one entry contributes to the listing: its list item, or nothing when
/// it is hidden.
pub open spec fn entry_item(tail: Seq<char>, e: Entry) -> Seq<char> {
    if entry_hidden(e) {
        Seq::<char>::empty()
    } else {
        item_html(tail, e.name@, e.is_dir)
    }
}

/// The concatenated list items for `entries`, in order.
pub open spec fn items_html(tail: Seq<char>, entries: Seq<Entry>) -> Seq<char>
    decreases entries.len(),
{
    if entries.len() == 0 {
        Seq::<char>::empty()
    } else {
        entry_item(tail, entries[0]) + items_html(tail, entries.drop_first())
    }
}

/// The whole listing page: fixed header, the items, fixed footer.
pub open spec fn listing_page(tail: Seq<char>, entries: Seq<Entry>) -> Seq<char> {
    "<html><body><h1>File List</h1><ul>"@ + items_html(tail, entries)
        + "</ul></body></html>"@
}

/// The entries that a listing shows, in order: those that are not hidden.
pub open spec fn shown(entries: Seq<Entry>) -> Seq<Entry> {
    entries.filter(|e: Entry| !entry_hidden(e))
}

/// Appending an entry appends exactly its contribution: its one list item
/// when it is shown, nothing when it is hidden.
pub proof fn lemma_items_html_push(tail: Seq<char>, entries: Seq<Entry>, e: Entry)
    ensures
        items_html(tail, entries.push(e)) == items_html(tail, entries) + entry_item(tail, e),
    decreases entries.len(),
{
    reveal_with_fuel(items_html, 2);
    if entries.len() == 0 {
        assert(entries.push(e)[0] == e);
        assert(entries.push(e).drop_first() =~= Seq::<Entry>::empty());
        assert(entry_item(tail, e) + Seq::<char>::empty() =~= entry_item(tail, e));
        assert(Seq::<char>::empty() + entry_item(tail, e) =~= entry_item(tail, e));
    } else {
        assert(entries.push(e)[0] == entries[0]);
        assert(entries.push(e).drop_first() =~= entries.drop_first().push(e));
        lemma_items_html_push(tail, entries.drop_first(), e);
        assert(entry_item(tail, entries[0]) + (items_html(tail, entries.drop_first())
            + entry_item(tail, e)) =~= (entry_item(tail, entries[0]) + items_html(
            tail,
            entries.drop_first(),
        )) + entry_item(tail, e));
    }
}

/// A listing's items are exactly one list item per shown entry, in order:
/// nothing more, nothing less, nothing reordered.
pub proof fn lemma_one_item_per_shown_entry(tail: Seq<char>, entries: Seq<Entry>)
    ensures
        items_html(tail, entries) == shown(entries).map_values(
            |e: Entry| item_html(tail, e.name@, e.is_dir),
        ).flatten(),
    decreases entries.len(),
{
    broadcast use Seq::<_>::lemma_filter_push;
    broadcast use Seq::<_>::lemma_flatten_push;

    let item_of = |e: Entry| item_html(tail, e.name@, e.is_dir);
    if entries.len() == 0 {
        reveal(Seq::filter);
        assert(shown(entries).map_values(item_of) =~= Seq::<Seq<char>>::empty());
        assert(Seq::<Seq<char>>::empty().flatten() =~= Seq::<char>::empty());
    } else {
        let init = entries.drop_last();
        let e = entries.last();
        assert(entries =~= init.push(e));
        lemma_one_item_per_shown_entry(tail, init);
        lemma_items_html_push(tail, init, e);
        if entry_hidden(e) {
            assert(shown(init.push(e)) == shown(init));
            assert(items_html(tail, entries) =~= items_html(tail, init));
        } else {
            assert(shown(init.push(e)) == shown(init).push(e));
            assert(shown(init).push(e).map_values(item_of) =~= shown(init).map_values(
                item_of,
            ).push(item_of(e)));
        }
    }
}

/// Directory links are the matching plain link with `/` appended, and so end
/// in `/`.
pub proof fn lemma_dir_link_trailing_slash(tail: Seq<char>, name: Seq<char>)
    ensures
        href_text(tail, name, true) == href_text(tail, name, false) + "/"@,
        suffix_of("/"@, href_text(tail, name, true)),
{
    assert(href_text(tail, name, true) =~= href_text(tail, name, false) + "/"@);
    reveal_strlit("/");
    let h = href_text(tail, name, true);
    assert(h.subrange(h.len() - 1, h.len() as int) =~= "/"@);
}

/// Renders the listing page for a directory reached through `tail` whose
/// entries are `entries`, as the original enumeration order gave them.
pub fn render_listing(tail: &str, entries: &Vec<Entry>) -> (r: Response)
    ensures
        r.status == 200,
        r.content_type is Some && r.content_type->0@ == "text/html; charset=utf-8"@,
        r.body@ == listing_page(tail@, entries@),
{
    let collapsed: String = collapse_double_slashes(tail);
    let mut body: String = String::from_str("<html><body><h1>File List</h1><ul>");
    let mut i: usize = 0;
    proof {
        assert(entries@.take(0) =~= Seq::<Entry>::empty());
        assert(body@ + items_html(tail@, entries@.take(0)) =~= body@);
    }
    while i < entries.len()
        invariant
            i <= entries@.len(),
            collapsed@ == collapse_slashes(tail@),
            body@ == "<html><body><h1>File List</h1><ul>"@ + items_html(
                tail@,
                entries@.take(i as int),
            ),
        decreases entries@.len() - i,
    {
        let ghost prev = body@;
        let e = &entries[i];
        if !is_excluded(e.name.as_str()) {
            body.append("<li><a href=\"");
            body.append("/");
            body.append(collapsed.as_str());
            body.append(e.name.as_str());
            if e.is_dir {
                body.append("/");
            }
            body.append("\">");
            body.append(e.name.as_str());
            body.append("</a></li>");
            proof {
                assert(body@ =~= prev + entry_item(tail@, entries@[i as int]));
            }
        } else {
            proof {
                assert(body@ =~= prev + entry_item(tail@, entries@[i as int]));
            }
        }
        proof {
            assert(entries@.take(i + 1) =~= entries@.take(i as int).push(entries@[i as int]));
            lemma_items_html_push(tail@, entries@.take(i as int), entries@[i as int]);
            assert(body@ =~= "<html><body><h1>File List</h1><ul>"@ + items_html(
                tail@,
                entries@.take(i + 1),
            ));
        }
        i += 1;
    }
    proof {
        assert(entries@.take(entries@.len() as int) =~= entries@);
    }
    body.append("</ul></body></html>");
    Response {
        status: 200,
        content_type: Some(String::from_str("text/html; charset=utf-8")),
        body,
    }
}

} // verus!
