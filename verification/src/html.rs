//! Trusted access to the HTML selector engine. Each function parses the
//! document text and runs one selector query; what it finds is a function of
//! the document and the selectors alone, so the results carry names that the
//! callers' contracts build on.

use vstd::prelude::*;

verus! {

/// The inner text of the first element of the document matching the
/// selector, as the selector engine reports it.
pub uninterp spec fn first_text_of(html: Seq<char>, selector: Seq<char>) -> Option<Seq<char>>;

/// The inner texts of every element of the document matching the selector,
/// in document order.
pub uninterp spec fn texts_of(html: Seq<char>, selector: Seq<char>) -> Seq<Seq<char>>;

/// The value of the given attribute on the first element matching `inner`
/// inside the first element matching `outer`.
pub uninterp spec fn nested_attr_of(
    html: Seq<char>,
    outer: Seq<char>,
    inner: Seq<char>,
    attr: Seq<char>,
) -> Option<Seq<char>>;

/// Relies on `tl::parse`, `VDom::query_selector`, `NodeHandle::get`,
/// `Node::as_tag` and `HTMLTag::inner_text`: the first match's text depends
/// on the document and the selector alone.
#[verifier::external_body]
pub(crate) fn first_inner_text(html: &str, selector: &str) -> (r: Option<String>)
    ensures
        crate::json::opt_text(r) == first_text_of(html@, selector@),
{
    tl::parse(html, tl::ParserOptions::default()).ok().and_then(|dom| {
        let text = dom.query_selector(selector).and_then(|mut it| it.next()).and_then(
            |h| h.get(dom.parser()),
        ).and_then(|node| node.as_tag()).map(|tag| tag.inner_text(dom.parser()).into_owned());
        text
    })
}

/// Relies on `tl::parse`, `VDom::query_selector`, `NodeHandle::get`,
/// `Node::as_tag` and `HTMLTag::inner_text`: the matched texts depend on the
/// document and the selector alone.
#[verifier::external_body]
pub(crate) fn all_inner_texts(html: &str, selector: &str) -> (r: Vec<String>)
    ensures
        r.deep_view() == texts_of(html@, selector@),
{
    let mut out = Vec::new();
    if let Ok(dom) = tl::parse(html, tl::ParserOptions::default()) {
        if let Some(found) = dom.query_selector(selector) {
            for handle in found {
                if let Some(tag) = handle.get(dom.parser()).and_then(|node| node.as_tag()) {
                    out.push(tag.inner_text(dom.parser()).into_owned());
                }
            }
        }
    }
    out
}

/// Relies on `tl::parse`, `VDom::query_selector`, `HTMLTag::query_selector`,
/// `Attributes::get` and `Bytes::try_as_utf8_str`: the attribute found
/// depends on the document, the selectors and the attribute name alone.
#[verifier::external_body]
pub(crate) fn nested_tag_attr(html: &str, outer: &str, inner: &str, attr: &str) -> (r: Option<
    String,
>)
    ensures
        crate::json::opt_text(r) == nested_attr_of(html@, outer@, inner@, attr@),
{
    tl::parse(html, tl::ParserOptions::default()).ok().and_then(|dom| {
        let value = dom.query_selector(outer).and_then(|mut it| it.next()).and_then(
            |h| h.get(dom.parser()),
        ).and_then(|node| node.as_tag()).and_then(|tag| tag.query_selector(dom.parser(), inner))
            .and_then(|mut it| it.next()).and_then(|h| h.get(dom.parser())).and_then(
            |node| node.as_tag(),
        ).and_then(|tag| tag.attributes().get(attr).flatten()).and_then(|b| b.try_as_utf8_str())
            .map(|v| v.to_string());
        value
    })
}

} // verus!
