//! The extractor side of the adapter: given the raw page markup, collect the
//! link targets of the anchors that sit inside a Bing result card
//! (an element of class `b_algo`, then a descendant `h2`, then a descendant
//! `a`), in document order.
//!
//! Parsing the markup and running the structural query is the work of the
//! `select` crate, behind one trusted wrapper; everything after it — keeping
//! the anchors that carry a link target, and the found / none-found decision —
//! is verified.

use vstd::prelude::*;

use select::predicate::Predicate;

verus! {

/// The link-target attribute of each anchor matching the result-card
/// selector in `page`, in document order; `None` stands for a matched anchor
/// without that attribute. Parsing is deterministic, so this is a function
/// of the page text alone.
pub uninterp spec fn result_anchor_hrefs(page: Seq<char>) -> Seq<Option<Seq<char>>>;

/// The views of a sequence of optional link targets.
pub open spec fn href_views(hrefs: Seq<Option<String>>) -> Seq<Option<Seq<char>>> {
    hrefs.map_values(
        |h: Option<String>|
            match h {
                Some(s) => Some(s@),
                None => None,
            },
    )
}

/// Relies on the `select` crate: `Document::from` parses any input text into
/// a document tree without failing; `find` walks the tree in document order,
/// keeping the nodes matched by the `Class("b_algo")`-`h2`-`a` descendant
/// predicate; `Node::attr` returns the value of the named attribute, or
/// `None` where the element lacks it.
#[verifier::external_body]
fn select_result_hrefs(page: &str) -> (hrefs: Vec<Option<String>>)
    ensures
        href_views(hrefs@) == result_anchor_hrefs(page@),
{
    let document = select::document::Document::from(page);
    let result_anchors = select::predicate::Class("b_algo")
        .descendant(select::predicate::Name("h2"))
        .descendant(select::predicate::Name("a"));
    document
        .find(result_anchors)
        .map(|node| node.attr("href").map(String::from))
        .collect()
}

/// The link targets that are present, kept in order; anchors without one
/// contribute nothing.
pub open spec fn present_hrefs(anchors: Seq<Option<Seq<char>>>) -> Seq<Seq<char>> {
    anchors.filter_map(|h: Option<Seq<char>>| h)
}

/// What extraction yields on a page: the present link targets in document
/// order, or `None` where there are none.
pub open spec fn spec_extract_links(page: Seq<char>) -> Option<Seq<Seq<char>>> {
    let hrefs = present_hrefs(result_anchor_hrefs(page));
    if hrefs.len() == 0 {
        None
    } else {
        Some(hrefs)
    }
}

/// Extracts the result links from a search result page.
///
/// Returns the link targets of the anchors matching the result-card
/// selector, in document order, skipping anchors without one; returns
/// `None` when no link target was found at all. Malformed markup is not an
/// error: it merely yields fewer matches.
pub fn extract_links(page: &String) -> (links: Option<Vec<String>>)
    ensures
        match links {
            Some(found) => {
                &&& spec_extract_links(page@) == Some(found@.map_values(|s: String| s@))
                &&& found@.len() > 0
            },
            None => spec_extract_links(page@) is None,
        },
{
    let anchors = select_result_hrefs(page.as_str());
    let ghost model: Seq<Option<Seq<char>>> = result_anchor_hrefs(page@);
    let mut links: Vec<String> = Vec::new();
    let n = anchors.len();
    for i in 0..n
        invariant
            n == anchors@.len(),
            href_views(anchors@) == model,
            links@.map_values(|s: String| s@) == model.take(i as int).filter_map(
                |h: Option<Seq<char>>| h,
            ),
    {
        proof {
            model.lemma_filter_map_take_succ(|h: Option<Seq<char>>| h, i as int);
        }
        if let Some(link) = &anchors[i] {
            let link = link.clone();
            links.push(link);
            proof {
                assert(model[i as int] == Some(link@));
                assert(links@.map_values(|s: String| s@) =~= model.take(i + 1).filter_map(
                    |h: Option<Seq<char>>| h,
                ));
            }
        } else {
            proof {
                assert(model[i as int] is None);
                assert(links@.map_values(|s: String| s@) =~= model.take(i + 1).filter_map(
                    |h: Option<Seq<char>>| h,
                ));
            }
        }
    }
    proof {
        assert(model.take(n as int) =~= model);
    }
    if links.len() == 0 {
        None
    } else {
        Some(links)
    }
}

/// Law: on a page whose matched anchors all carry a link target, extraction
/// keeps every one of them — one link per anchor, in document order.
pub proof fn lemma_all_anchors_kept(anchors: Seq<Option<Seq<char>>>)
    requires
        forall|i: int| 0 <= i < anchors.len() ==> anchors[i] is Some,
    ensures
        present_hrefs(anchors).len() == anchors.len(),
        forall|i: int| 0 <= i < anchors.len() ==> present_hrefs(anchors)[i] == anchors[i]->0,
    decreases anchors.len(),
{
    if anchors.len() > 0 {
        let rest = anchors.drop_last();
        lemma_all_anchors_kept(rest);
        assert(present_hrefs(anchors) =~= present_hrefs(rest) + seq![anchors.last()->0]);
        assert(forall|i: int|
            0 <= i < anchors.len() ==> present_hrefs(anchors)[i] == anchors[i]->0) by {
            assert(forall|i: int| 0 <= i < rest.len() ==> rest[i] == anchors[i]);
        }
    }
}

/// Law: a matched anchor without a link target contributes nothing:
/// removing it from the matched anchors leaves the extracted links
/// unchanged, and it is no error.
pub proof fn lemma_missing_target_skipped(anchors: Seq<Option<Seq<char>>>, i: int)
    requires
        0 <= i < anchors.len(),
        anchors[i] is None,
    ensures
        present_hrefs(anchors.remove(i)) == present_hrefs(anchors),
    decreases anchors.len(),
{
    let shorter = anchors.remove(i);
    if i == anchors.len() - 1 {
        assert(shorter =~= anchors.drop_last());
    } else {
        let rest = anchors.drop_last();
        lemma_missing_target_skipped(rest, i);
        assert(shorter.drop_last() =~= rest.remove(i));
        assert(shorter.last() == anchors.last());
        match anchors.last() {
            Some(h) => {
                assert(present_hrefs(anchors) == present_hrefs(rest) + seq![h]);
                assert(present_hrefs(shorter) == present_hrefs(rest.remove(i)) + seq![h]);
            },
            None => {
                assert(present_hrefs(anchors) == present_hrefs(rest));
                assert(present_hrefs(shorter) == present_hrefs(rest.remove(i)));
            },
        }
    }
}

/// Law: extraction is a pure function of the page text — equal text yields
/// an equal outcome, with no hidden state.
pub proof fn lemma_extraction_pure(page_a: Seq<char>, page_b: Seq<char>)
    requires
        page_a == page_b,
    ensures
        spec_extract_links(page_a) == spec_extract_links(page_b),
{
}

/// Law: a page in which the selector matches no anchor at all yields the
/// none-found signal.
pub proof fn lemma_no_anchors_no_links(page: Seq<char>)
    requires
        result_anchor_hrefs(page).len() == 0,
    ensures
        spec_extract_links(page) is None,
{
}

} // verus!
