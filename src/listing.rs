use vstd::prelude::*;

verus! {

/// The start of a directory listing page, up to the directory's name.
pub const LISTING_HEAD: &'static str = "<!DOCTYPE html>\n<html lang=\"en\">\n    <head>\n        <meta charset=\"UTF-8\">\n        <meta name=\"viewport\" content=\"width=device-width, initial-scale=1.0\">\n        <title>Directory Listing</title>\n    </head>\n    <body>\n        <h1>Files in ";

/// What follows the directory's name, up to the first entry.
pub const LISTING_TITLE_END: &'static str = "</h1>\n        <ul>\n";

/// The end of a directory listing page, after the last entry.
pub const LISTING_FOOT: &'static str = "        </ul>\n    </body>\n</html>";

/// The list item of one entry: a link to its path, labelled with its name.
pub open spec fn listing_item(href: Seq<char>, name: Seq<char>) -> Seq<char> {
    "\t\t<li><a href=\""@ + href + "\">"@ + name + "</a></li>\n"@
}

/// The list items of the entries, in order.
pub open spec fn listing_items(entries: Seq<(String, String)>) -> Seq<char>
    decreases entries.len(),
{
    if entries.len() == 0 {
        Seq::empty()
    } else {
        listing_items(entries.drop_last()) + listing_item(entries.last().0@, entries.last().1@)
    }
}

/// The page that lists a directory: its name as the title, then one link
/// per entry, each a pair of the entry's path and its name.
pub open spec fn listing_page(dir: Seq<char>, entries: Seq<(String, String)>) -> Seq<char> {
    LISTING_HEAD@ + dir + LISTING_TITLE_END@ + listing_items(entries) + LISTING_FOOT@
}

/// Renders the HTML page that lists a directory's entries.
pub fn directory_listing(dir: &str, entries: &Vec<(String, String)>) -> (r: String)
    ensures
        r@ == listing_page(dir@, entries@),
{
    let mut page = String::from_str(LISTING_HEAD);
    page.append(dir);
    page.append(LISTING_TITLE_END);
    let ghost head = page@;
    let mut i: usize = 0;
    while i < entries.len()
        invariant
            0 <= i <= entries@.len(),
            head == LISTING_HEAD@ + dir@ + LISTING_TITLE_END@,
            page@ == head + listing_items(entries@.subrange(0, i as int)),
        decreases entries@.len() - i,
    {
        let ghost before = page@;
        let entry = &entries[i];
        page.append("\t\t<li><a href=\"");
        page.append(entry.0.as_str());
        page.append("\">");
        page.append(entry.1.as_str());
        page.append("</a></li>\n");
        proof {
            let s = entries@.subrange(0, i as int + 1);
            assert(s.drop_last() =~= entries@.subrange(0, i as int));
            assert(s.last() == entries@[i as int]);
            assert(page@ =~= head + listing_items(s));
        }
        i = i + 1;
    }
    page.append(LISTING_FOOT);
    assert(entries@.subrange(0, entries@.len() as int) =~= entries@);
    page
}

} // verus!
