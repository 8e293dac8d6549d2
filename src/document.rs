use vstd::prelude::*;
use vstd::string::StringExecFns;

verus! {

#[verifier::external_type_specification]
#[verifier::external_body]
pub struct ExMarkdownMessage(markdown::message::Message);

/// The HTML that GitHub-flavoured Markdown conversion gives for a text.
pub uninterp spec fn gfm_html_of(source: Seq<char>) -> Seq<char>;

/// Relies on markdown::to_html_with_options with markdown::Options::gfm(): it
/// returns the HTML for the source text, and fails only on MDX syntax, which
/// these options leave off.
#[verifier::external_body]
fn gfm_to_html(source: &str) -> (r: Result<String, markdown::message::Message>)
    ensures
        r is Ok,
        r is Ok ==> r->Ok_0@ == gfm_html_of(source@),
{
    markdown::to_html_with_options(source, &markdown::Options::gfm())
}

/// Converts a Markdown document to the HTML that goes into the page shell.
pub fn document_html(source: &str) -> (r: String)
    ensures
        r@ == gfm_html_of(source@),
{
    gfm_to_html(source).unwrap()
}

/// The directory listing as one text: each entry followed by a newline.
pub open spec fn listing_of(entries: Seq<Seq<char>>) -> Seq<char>
    decreases entries.len(),
{
    if entries.len() == 0 {
        Seq::empty()
    } else {
        listing_of(entries.drop_last()) + entries.last() + "\n"@
    }
}

/// Joins directory entries into the listing served at the root, one entry per
/// line, in the given order.
pub fn directory_listing(entries: &Vec<String>) -> (r: String)
    ensures
        r@ == listing_of(entries@.map_values(|e: String| e@)),
{
    let mut listing = String::new();
    let mut i: usize = 0;
    while i < entries.len()
        invariant
            0 <= i <= entries.len(),
            listing@ == listing_of(entries@.subrange(0, i as int).map_values(|e: String| e@)),
        decreases entries.len() - i,
    {
        proof {
            reveal_strlit("\n");
            let views = entries@.subrange(0, i as int + 1).map_values(|e: String| e@);
            assert(views.drop_last() =~= entries@.subrange(0, i as int).map_values(
                |e: String| e@,
            ));
        }
        listing.append(entries[i].as_str());
        listing.append("\n");
        i = i + 1;
    }
    proof {
        assert(entries@.subrange(0, i as int) =~= entries@);
    }
    listing
}

} // verus!
