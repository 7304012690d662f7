//! Reading the blocks of a page. The markup is parsed and searched by the
//! `scraper` crate. What it finds is not known here, only that it depends on
//! nothing but what it is given: each of its results has a name, and
//! `page_blocks` says over these names what the blocks of a page are.

use crate::extract::{block_views, texts, Block, BlockView};
use vstd::prelude::*;
use vstd::utf8::encode_utf8;

verus! {

/// CSS selector for the queue blocks.
pub const BLOCK_SELECTOR: &'static str = ".fr-view";

/// CSS selector for the data values inside a block.
pub const VALUE_SELECTOR: &'static str = ".flex>span";

/// The number of bytes that a page may have at most: 2^29.
///
/// The parser keeps text in buffers whose size it counts in 32 bits. It
/// copies the page into one of them, and it puts the text of a node, the
/// value of an attribute and the like together in others, which it grows to
/// the next power of two: none of these can pass 2^31 bytes. What it puts
/// into one buffer comes from distinct parts of the page, and a part gives
/// no more than three times its bytes, where a NUL becomes the replacement
/// character. So a page of 2^29 bytes keeps every buffer under its limit.
pub const MAX_PAGE_BYTES: usize = 536_870_912;

/// `scraper::Html`, a parsed document. Nothing is known of its content.
#[verifier::external_type_specification]
#[verifier::external_body]
pub struct ExHtml(scraper::Html);

/// `scraper::Selector`, a parsed group of CSS selectors. Nothing is known of
/// its content.
#[verifier::external_type_specification]
#[verifier::external_body]
pub struct ExSelector(scraper::Selector);

/// `scraper::ElementRef`, an element of a parsed document. Nothing is known of
/// its content.
#[verifier::external_type_specification]
#[verifier::external_body]
pub struct ExElementRef<'a>(scraper::ElementRef<'a>);

/// `scraper::error::SelectorErrorKind`, the reason why a text is no group of
/// CSS selectors. Nothing is known of its content.
#[verifier::external_type_specification]
#[verifier::external_body]
pub struct ExSelectorErrorKind(scraper::error::SelectorErrorKind);

/// The document that `scraper::Html::parse_document` makes of a text.
pub uninterp spec fn parsed_document(document: Seq<char>) -> scraper::Html;

/// What `scraper::Selector::parse` makes of a text: the selectors, or the
/// reason why the text is none.
pub uninterp spec fn parsed_selector(selector: Seq<char>) -> Result<
    scraper::Selector,
    scraper::error::SelectorErrorKind,
>;

/// The words that `to_string` writes for a `scraper::error::SelectorErrorKind`.
pub uninterp spec fn selector_error_words(error: scraper::error::SelectorErrorKind) -> Seq<char>;

/// The elements that `scraper::Html::select` gives for a document and a
/// selector, in the order in which its iterator gives them.
pub uninterp spec fn selected_in_document(
    document: scraper::Html,
    selector: scraper::Selector,
) -> Seq<scraper::ElementRef<'static>>;

/// The elements that `scraper::ElementRef::select` gives for an element and a
/// selector, in the order in which its iterator gives them.
pub uninterp spec fn selected_in_element(
    element: scraper::ElementRef<'_>,
    selector: scraper::Selector,
) -> Seq<scraper::ElementRef<'static>>;

/// The markup that `scraper::ElementRef::inner_html` writes for an element.
pub uninterp spec fn inner_markup(element: scraper::ElementRef<'_>) -> Seq<char>;

/// Calls `scraper::Html::parse_document`, which takes every text for an HTML
/// document, but stops the program where one of its buffers would pass its
/// limit: on a text of more than `u32::MAX` bytes, and on a text that makes it
/// put more than 2^31 bytes into one node. Texts of more than `MAX_PAGE_BYTES`
/// bytes are left out, which leaves out all of these. The claim: the document
/// depends on the text alone. Nothing is claimed of what it holds.
#[verifier::external_body]
fn parse_document(document: &str) -> (html: scraper::Html)
    requires
        encode_utf8(document@).len() <= MAX_PAGE_BYTES,
    ensures
        html == parsed_document(document@),
{
    scraper::Html::parse_document(document)
}

/// Calls `scraper::Selector::parse`. The claim: the outcome depends on the
/// text alone. Nothing is claimed of which texts are selectors, nor of what a
/// selector matches.
#[verifier::external_body]
fn parse_selector(selector: &str) -> (parsed: Result<
    scraper::Selector,
    scraper::error::SelectorErrorKind,
>)
    ensures
        parsed == parsed_selector(selector@),
{
    scraper::Selector::parse(selector)
}

/// Calls `to_string` on a `scraper::error::SelectorErrorKind`, which writes
/// the error in words. The claim: the words depend on the error alone.
#[verifier::external_body]
fn selector_error_text(error: &scraper::error::SelectorErrorKind) -> (text: String)
    ensures
        text@ == selector_error_words(*error),
{
    error.to_string()
}

/// Calls `scraper::Html::select` and collects what the iterator gives: the
/// elements of the document that match the selector. The claim: they depend
/// on the document and the selector alone. Nothing is claimed of which
/// elements they are.
#[verifier::external_body]
fn select_in_document<'a>(
    document: &'a scraper::Html,
    selector: &scraper::Selector,
) -> (found: Vec<scraper::ElementRef<'a>>)
    ensures
        found@ == selected_in_document(*document, *selector),
{
    document.select(selector).collect()
}

/// Calls `scraper::ElementRef::select` and collects what the iterator gives:
/// the elements below `element` that match the selector. The claim: they
/// depend on the element and the selector alone. Nothing is claimed of which
/// elements they are.
#[verifier::external_body]
fn select_in_element<'a>(
    element: &scraper::ElementRef<'a>,
    selector: &scraper::Selector,
) -> (found: Vec<scraper::ElementRef<'a>>)
    ensures
        found@ == selected_in_element(*element, *selector),
{
    element.select(selector).collect()
}

/// Calls `scraper::ElementRef::inner_html`, which writes the content of an
/// element as markup. The claim: the markup depends on the element alone.
#[verifier::external_body]
fn inner_html(element: &scraper::ElementRef<'_>) -> (text: String)
    ensures
        text@ == inner_markup(*element),
{
    element.inner_html()
}

/// The content of each of `elements`, in their order.
pub open spec fn markups(elements: Seq<scraper::ElementRef<'static>>) -> Seq<Seq<char>> {
    elements.map_values(|element: scraper::ElementRef<'static>| inner_markup(element))
}

/// The block that an element of the page is: its content, and the content of
/// each element below it that the selector for values gives.
pub open spec fn block_of(
    element: scraper::ElementRef<'static>,
    value_selector: scraper::Selector,
) -> BlockView {
    BlockView {
        content: inner_markup(element),
        values: markups(selected_in_element(element, value_selector)),
    }
}

/// The blocks that these elements are, in their order.
pub open spec fn blocks_of(
    elements: Seq<scraper::ElementRef<'static>>,
    value_selector: scraper::Selector,
) -> Seq<BlockView> {
    elements.map_values(|element: scraper::ElementRef<'static>| block_of(element, value_selector))
}

/// The blocks of a page: every element of the document that `BLOCK_SELECTOR`
/// gives, in the order in which it gives them, each with its content and with
/// the content of each element below it that `VALUE_SELECTOR` gives.
///
/// Where one of the two selectors is none, there are no blocks but the words of
/// the error, those of `BLOCK_SELECTOR` first. They do not depend on the page.
pub open spec fn page_blocks(document: Seq<char>) -> Result<Seq<BlockView>, Seq<char>> {
    match parsed_selector(BLOCK_SELECTOR@) {
        Err(e) => Err(selector_error_words(e)),
        Ok(block_selector) => match parsed_selector(VALUE_SELECTOR@) {
            Err(e) => Err(selector_error_words(e)),
            Ok(value_selector) => Ok(
                blocks_of(
                    selected_in_document(parsed_document(document), block_selector),
                    value_selector,
                ),
            ),
        },
    }
}

/// The content of each of `elements`, in their order.
fn contents(elements: &Vec<scraper::ElementRef<'_>>) -> (found: Vec<String>)
    ensures
        texts(found@) == markups(elements@),
{
    let mut found: Vec<String> = Vec::new();
    let mut i: usize = 0;
    assert(texts(found@) =~= markups(elements@.take(0)));
    while i < elements.len()
        invariant
            i <= elements@.len(),
            found@.len() == i,
            texts(found@) == markups(elements@.take(i as int)),
        decreases elements@.len() - i,
    {
        let ghost before = found@;
        let ghost prefix = elements@.take(i as int);
        let ghost next = elements@.take(i + 1);
        found.push(inner_html(&elements[i]));
        proof {
            assert(texts(found@).len() == markups(next).len());
            assert forall|k: int| 0 <= k < found@.len() implies texts(found@)[k] == markups(
                next,
            )[k] by {
                if k < i {
                    assert(texts(found@)[k] == texts(before)[k]);
                    assert(markups(next)[k] == markups(prefix)[k]);
                }
            }
            assert(texts(found@) =~= markups(next));
        }
        i += 1;
    }
    assert(elements@.take(elements@.len() as int) == elements@);
    found
}

/// Reads the blocks of a page: see `page_blocks`.
pub(crate) fn read_blocks(document: &str) -> (blocks: Result<Vec<Block>, String>)
    requires
        encode_utf8(document@).len() <= MAX_PAGE_BYTES,
    ensures
        match blocks {
            Ok(found) => page_blocks(document@) == Ok::<Seq<BlockView>, Seq<char>>(
                block_views(found@),
            ),
            Err(reason) => page_blocks(document@) == Err::<Seq<BlockView>, Seq<char>>(reason@),
        },
{
    let block_selector = match parse_selector(BLOCK_SELECTOR) {
        Ok(selector) => selector,
        Err(e) => {
            return Err(selector_error_text(&e));
        },
    };
    let value_selector = match parse_selector(VALUE_SELECTOR) {
        Ok(selector) => selector,
        Err(e) => {
            return Err(selector_error_text(&e));
        },
    };
    let html = parse_document(document);
    let elements = select_in_document(&html, &block_selector);
    let mut blocks: Vec<Block> = Vec::new();
    let mut i: usize = 0;
    assert(block_views(blocks@) =~= blocks_of(elements@.take(0), value_selector));
    while i < elements.len()
        invariant
            i <= elements@.len(),
            blocks@.len() == i,
            block_views(blocks@) == blocks_of(elements@.take(i as int), value_selector),
        decreases elements@.len() - i,
    {
        let ghost before = blocks@;
        let ghost prefix = elements@.take(i as int);
        let ghost next = elements@.take(i + 1);
        let content = inner_html(&elements[i]);
        let values = contents(&select_in_element(&elements[i], &value_selector));
        blocks.push(Block { content, values });
        proof {
            assert(block_views(blocks@).len() == blocks_of(next, value_selector).len());
            assert forall|k: int| 0 <= k < blocks@.len() implies block_views(blocks@)[k]
                == blocks_of(next, value_selector)[k] by {
                if k < i {
                    assert(block_views(blocks@)[k] == block_views(before)[k]);
                    assert(blocks_of(next, value_selector)[k] == blocks_of(
                        prefix,
                        value_selector,
                    )[k]);
                }
            }
            assert(block_views(blocks@) =~= blocks_of(next, value_selector));
        }
        i += 1;
    }
    assert(elements@.take(elements@.len() as int) == elements@);
    Ok(blocks)
}

} // verus!
