//! Extraction of post records from the HTML of the listing page.

use crate::meta::{meta_of, parse_meta};
use crate::post::{clone_text, ForumPost, ForumPostMeta, PostView};
use vstd::prelude::*;

verus! {

/// Selects the post items of the listing.
pub const ITEM_SELECTOR: &'static str = "#articlesGrid > .articleItem";

/// Selects, inside an item, the link whose target and text are the post's.
pub const LINK_SELECTOR: &'static str = ".subHeading > a";

/// Selects, inside an item, the block with the "by AUTHOR : DATE" line.
pub const META_SELECTOR: &'static str = ".primaryContent > .metaData > .dateData";

/// The attribute of the link that holds the post's address.
pub const LINK_ATTRIBUTE: &'static str = "href";

/// For one item: the value of an attribute of its first matching
/// descendant (if that has the attribute) and that descendant's text.
pub type Found = Option<(Option<String>, String)>;

/// The mathematical value of a [`Found`].
pub type FoundView = Option<(Option<Seq<char>>, Seq<char>)>;

pub open spec fn found_view(f: Found) -> FoundView {
    match f {
        Some((a, t)) => Some((crate::post::opt_text(a), t@)),
        None => None,
    }
}

pub open spec fn found_views(v: Seq<Found>) -> Seq<FoundView> {
    v.map_values(|f: Found| found_view(f))
}

/// How many elements of the document parsed from `html` match a selector.
pub uninterp spec fn selected_count(html: Seq<char>, selector: Seq<char>) -> nat;

/// What scraper finds, item by item, for a field selector and an attribute.
pub uninterp spec fn first_descendants(
    html: Seq<char>,
    item_selector: Seq<char>,
    field_selector: Seq<char>,
    attribute: Seq<char>,
) -> Option<Seq<FoundView>>;

/// Relies on `scraper::Html::parse_document`, `Selector::parse`,
/// `Html::select`, `ElementRef::select`, `ElementRef::attr` and
/// `ElementRef::text`: for each element that matches `item_selector`, in
/// document order, its first descendant that matches `field_selector`, as
/// the value of `attribute` on it and its concatenated text. `None` where a
/// selector does not parse.
#[verifier::external_body]
fn select_in_items(html: &str, item_selector: &str, field_selector: &str, attribute: &str) -> (r:
    Option<Vec<Found>>)
    ensures
        r matches Some(v) ==> first_descendants(html@, item_selector@, field_selector@, attribute@)
            == Some(found_views(v@)),
        r matches Some(v) ==> v.len() == selected_count(html@, item_selector@),
        r is None ==> first_descendants(html@, item_selector@, field_selector@, attribute@) is None,
{
    let doc = scraper::Html::parse_document(html);
    let items = scraper::Selector::parse(item_selector).ok()?;
    let field = scraper::Selector::parse(field_selector).ok()?;
    Some(doc.select(&items).map(|item| item.select(&field).next().map(|e| (e.attr(attribute).map(str::to_owned), e.text().collect()))).collect())
}

/// The record built from what was found in one item: address and title
/// from its link, author and date from its metadata line. A missing part
/// leaves its fields absent and touches no other field.
pub open spec fn post_of(link: FoundView, meta: FoundView) -> PostView {
    let (poster, date) = match meta {
        Some((_, text)) => match meta_of(text) {
            Some((author, t)) => (Some(author), Some(t)),
            None => (None, None),
        },
        None => (None, None),
    };
    PostView {
        url: match link {
            Some((href, _)) => href,
            None => None,
        },
        title: match link {
            Some((_, text)) => Some(text),
            None => None,
        },
        poster,
        date,
    }
}

/// An item without a metadata block still gives its record: author and date
/// are absent, and url and title are those of its link.
pub proof fn lemma_missing_meta_block(link: FoundView)
    ensures
        post_of(link, None).poster is None,
        post_of(link, None).date is None,
        link matches Some((href, text)) ==> post_of(link, None).url == href && post_of(link, None).title
            == Some(text),
{
}

/// Builds the record of one item from its link and its metadata block.
pub fn post_from_found(link: &Found, meta: &Found) -> (r: ForumPost)
    ensures
        r@ == post_of(found_view(*link), found_view(*meta)),
{
    let (url, title) = match link {
        Some((href, text)) => (clone_text(href), Some(text.clone())),
        None => (None, None),
    };
    let (poster, date) = match meta {
        Some((_, text)) => match parse_meta(text.as_str()) {
            Some((author, t)) => (Some(author), Some(t)),
            None => (None, None),
        },
        None => (None, None),
    };
    ForumPost { url, title, meta: ForumPostMeta { poster, date } }
}

/// Builds one record per item, in item order, from the links and the
/// metadata blocks found in the items.
pub fn posts_from_found(links: &Vec<Found>, metas: &Vec<Found>) -> (r: Vec<ForumPost>)
    requires
        links.len() == metas.len(),
    ensures
        r.len() == links.len(),
        forall|i: int|
            0 <= i < r.len() ==> #[trigger] r@[i]@ == post_of(
                found_view(links@[i]),
                found_view(metas@[i]),
            ),
{
    let mut posts: Vec<ForumPost> = Vec::new();
    let mut i: usize = 0;
    while i < links.len()
        invariant
            links.len() == metas.len(),
            i <= links.len(),
            posts.len() == i,
            forall|j: int|
                0 <= j < i ==> #[trigger] posts@[j]@ == post_of(
                    found_view(links@[j]),
                    found_view(metas@[j]),
                ),
        decreases links.len() - i,
    {
        let post = post_from_found(&links[i], &metas[i]);
        posts.push(post);
        i = i + 1;
    }
    posts
}

/// The records that the listing page `html` holds, in document order; none
/// where a selector cannot be used.
pub open spec fn posts_in(html: Seq<char>, r: Seq<ForumPost>) -> bool {
    match (
        first_descendants(html, ITEM_SELECTOR@, LINK_SELECTOR@, LINK_ATTRIBUTE@),
        first_descendants(html, ITEM_SELECTOR@, META_SELECTOR@, LINK_ATTRIBUTE@),
    ) {
        (Some(links), Some(metas)) => {
            &&& r.len() == links.len()
            &&& forall|i: int| 0 <= i < r.len() ==> #[trigger] r[i]@ == post_of(links[i], metas[i])
        },
        _ => r.len() == 0,
    }
}

/// Extracts one record per post item of the listing page, in document
/// order. An item without a link or a metadata block still gives a record,
/// with those fields absent.
pub fn parse_posts(html: &str) -> (r: Vec<ForumPost>)
    ensures
        posts_in(html@, r@),
{
    let links = select_in_items(html, ITEM_SELECTOR, LINK_SELECTOR, LINK_ATTRIBUTE);
    let metas = select_in_items(html, ITEM_SELECTOR, META_SELECTOR, LINK_ATTRIBUTE);
    match (links, metas) {
        (Some(links), Some(metas)) => {
            posts_from_found(&links, &metas)
        },
        _ => Vec::new(),
    }
}

} // verus!
