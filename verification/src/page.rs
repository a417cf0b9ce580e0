//! Pages: parsing HTML, selecting elements with CSS selectors, and the two
//! readings that the check-in needs from a page: the link that claims the daily
//! reward, and the text of a selected element.
//!
//! Parsing and selection are done by the `scraper` crate. Its results are
//! named here (`parsed_document`, `parsed_selector`, `selected`, `attribute`,
//! `text_nodes`), and everything that is decided from them is verified.

use crate::text::join_pieces;
use crate::text::contains;
use crate::text::holds;
use crate::text::free_of;
use crate::text::lemma_run_ends_at_delimiter;
use crate::text::lemma_run_without_delimiter;
use crate::text::lemma_trim_end_is_prefix;
use crate::text::lemma_trim_start_is_suffix;
use crate::text::opt_string_view;
use crate::text::opt_view;
use crate::text::split_nth;
use crate::text::token;
use crate::text::trim;
use crate::text::trim_start;
use crate::text::trimmed;
use crate::text::views;
use crate::text::white_space;
use scraper::ElementRef;
use scraper::Html;
use scraper::Selector;
use vstd::prelude::*;
use vstd::string::StringExecFns;
use vstd::string::StringSliceAdditionalSpecFns;
use vstd::utf8::encode_utf8;

verus! {

/// `scraper::Html`, a parsed document. Nothing of its inside is known here.
#[verifier::external_type_specification]
#[verifier::external_body]
pub struct ExHtml(scraper::Html);

/// `scraper::Selector`, a parsed group of CSS selectors. Nothing of its inside
/// is known here.
#[verifier::external_type_specification]
#[verifier::external_body]
pub struct ExSelector(scraper::Selector);

/// `scraper::ElementRef`, an element of a parsed document. Nothing of its
/// inside is known here.
#[verifier::external_type_specification]
#[verifier::external_body]
pub struct ExElementRef<'a>(scraper::ElementRef<'a>);

/// The document that `text` parses to.
pub uninterp spec fn parsed_document(text: Seq<char>) -> Html;

/// The selector that `text` parses to; `None` where `text` is no selector.
pub uninterp spec fn parsed_selector(text: Seq<char>) -> Option<Selector>;

/// The elements of `doc` that `selector` matches, in the order in which a
/// selection yields them.
pub uninterp spec fn selected(doc: &Html, selector: Selector) -> Seq<ElementRef>;

/// The value of the attribute `name` of `element`; `None` where it has none.
pub uninterp spec fn attribute(element: ElementRef, name: Seq<char>) -> Option<Seq<char>>;

/// The texts of the text nodes below `element`, in document order.
pub uninterp spec fn text_nodes(element: ElementRef) -> Seq<Seq<char>>;

/// `scraper::Html::parse_document`, for a text of `MAX_PAGE_BYTES` octets at
/// most. The document that it returns depends on the text alone: it is the one
/// named `parsed_document`.
///
/// The bound keeps the parser's buffers within their limits. It holds each
/// text that it makes (the page, a text node, the value of an attribute, a
/// comment) in a buffer that counts its octets in a `u32` and grows to the
/// next power of two, and it panics where a count does not fit in a `u32` or
/// an allocation does not fit in an `isize`. A text that it makes is at most
/// three times as long as the page (a NUL becomes U+FFFD), so for a page
/// within the bound no capacity exceeds 2^30.
#[verifier::external_body]
fn parse_document(text: &str) -> (doc: Html)
    requires
        text.spec_bytes().len() <= MAX_PAGE_BYTES,
    ensures
        doc == parsed_document(text@),
{
    Html::parse_document(text)
}

/// `scraper::Selector::parse`, with `None` for its error. Whether a text is a
/// selector, and which, depends on the text alone: the result is the one named
/// `parsed_selector`.
#[verifier::external_body]
fn parse_selector(text: &str) -> (selector: Option<Selector>)
    ensures
        selector == parsed_selector(text@),
{
    Selector::parse(text).ok()
}

/// `scraper::Html::select`, its iterator walked to the end. The elements that
/// it yields, and their order, depend on the document and the selector alone:
/// they are the ones named `selected`.
#[verifier::external_body]
fn select_all<'a>(doc: &'a Html, selector: &Selector) -> (found: Vec<ElementRef<'a>>)
    ensures
        found@ == selected(doc, *selector),
{
    doc.select(selector).collect()
}

/// `scraper::ElementRef::attr`. The value that it returns depends on the
/// element and the name alone: it is the one named `attribute`.
#[verifier::external_body]
fn element_attr<'a>(element: &ElementRef<'a>, name: &str) -> (value: Option<&'a str>)
    ensures
        opt_view(value) == attribute(*element, name@),
{
    element.attr(name)
}

/// `scraper::ElementRef::text`, its iterator walked to the end. The texts that
/// it yields, and their order, depend on the element alone: they are the ones
/// named `text_nodes`.
#[verifier::external_body]
fn element_text<'a>(element: &ElementRef<'a>) -> (pieces: Vec<&'a str>)
    ensures
        views(pieces@) == text_nodes(*element),
{
    element.text().collect()
}

/// The longest page that is parsed, in octets of its UTF-8 encoding: 2^28, that
/// is 256 MiB.
pub const MAX_PAGE_BYTES: usize = 0x1000_0000;

/// Whether a page with the text `text` is short enough to be parsed.
pub open spec fn page_fits(text: Seq<char>) -> bool {
    encode_utf8(text).len() <= MAX_PAGE_BYTES
}

/// A selector that is part of the program did not parse.
#[derive(Clone, Copy, Debug, PartialEq, Eq, Structural)]
pub enum SelectorError {
    Invalid,
}

/// The selector of the controls among which the claim button stands.
pub const CLAIM_SELECTOR: &'static str = "input.super.normal.button";

/// The word that the label of the claim button holds.
pub const CLAIM_WORD: &'static str = "领取";

/// What is read of a control: its label and its click handler, where it has
/// them.
#[derive(Clone, Copy, Debug, PartialEq, Eq)]
pub struct Button<'a> {
    pub value: Option<&'a str>,
    pub onclick: Option<&'a str>,
}

/// The mathematical value of a `Button`.
pub struct Control {
    pub value: Option<Seq<char>>,
    pub onclick: Option<Seq<char>>,
}

impl<'a> View for Button<'a> {
    type V = Control;

    open spec fn view(&self) -> Control {
        Control { value: opt_view(self.value), onclick: opt_view(self.onclick) }
    }
}

/// The values of `buttons`, in order.
pub open spec fn controls(buttons: Seq<Button>) -> Seq<Control> {
    Seq::new(buttons.len(), |i: int| buttons[i]@)
}

/// The label of a control; a control without one has the empty label.
pub open spec fn label(control: Control) -> Seq<char> {
    match control.value {
        Some(value) => value,
        None => Seq::empty(),
    }
}

/// Whether the label of `control` holds the claim word.
pub open spec fn offers_claim(control: Control) -> bool {
    contains(label(control), CLAIM_WORD@)
}

/// The first of `controls` that offers the claim.
pub open spec fn first_offer(controls: Seq<Control>) -> Option<Control>
    decreases controls.len(),
{
    if controls.len() == 0 {
        None
    } else if offers_claim(controls.first()) {
        Some(controls.first())
    } else {
        first_offer(controls.drop_first())
    }
}

/// The link in a click handler: what stands between its first single quote and
/// the next one, or the end where there is no next one.
pub open spec fn quoted_link(handler: Seq<char>) -> Option<Seq<char>> {
    token(handler, '\'', 1)
}

/// The claim link among `controls`: the link in the click handler of the first
/// control that offers the claim. There is none where no control offers it,
/// where that control has no handler, or where the handler holds no quote.
pub open spec fn claim_link(controls: Seq<Control>) -> Option<Seq<char>> {
    match first_offer(controls) {
        Some(control) => match control.onclick {
            Some(handler) => quoted_link(handler),
            None => None,
        },
        None => None,
    }
}

/// The text of an element with the text nodes `pieces`: the nodes joined and
/// trimmed. An element without any text has none.
pub open spec fn joined_text(pieces: Seq<Seq<char>>) -> Option<Seq<char>> {
    if pieces.flatten().len() == 0 {
        None
    } else {
        Some(trimmed(pieces.flatten()))
    }
}

/// The controls that `selector` matches in `doc`.
pub open spec fn controls_in(doc: &Html, selector: Selector) -> Seq<Control> {
    let found = selected(doc, selector);
    Seq::new(
        found.len(),
        |i: int|
            Control {
                value: attribute(found[i], "value"@),
                onclick: attribute(found[i], "onclick"@),
            },
    )
}

/// The claim link of `doc`. `Err` where the claim selector does not parse.
pub open spec fn claim_link_in(doc: &Html) -> Result<Option<Seq<char>>, SelectorError> {
    match parsed_selector(CLAIM_SELECTOR@) {
        Some(selector) => Ok(claim_link(controls_in(doc, selector))),
        None => Err(SelectorError::Invalid),
    }
}

/// The text of the first element of `doc` that `selector` matches. There is
/// none where `selector` does not parse, where it matches nothing, or where the
/// element holds no text.
pub open spec fn field_text(doc: &Html, selector: Seq<char>) -> Option<Seq<char>> {
    match parsed_selector(selector) {
        Some(parsed) => {
            let found = selected(doc, parsed);
            if found.len() == 0 {
                None
            } else {
                joined_text(text_nodes(found.first()))
            }
        },
        None => None,
    }
}

/// The mathematical value of the outcome of a search for the claim link.
pub open spec fn link_view(
    link: Result<Option<String>, SelectorError>,
) -> Result<Option<Seq<char>>, SelectorError> {
    match link {
        Ok(link) => Ok(opt_string_view(link)),
        Err(e) => Err(e),
    }
}

/// The link in a click handler.
pub fn find_quoted_link(handler: &str) -> (link: Option<String>)
    ensures
        opt_string_view(link) == quoted_link(handler@),
{
    match split_nth(handler, '\'', 1) {
        Some(part) => Some(String::from_str(part)),
        None => None,
    }
}

/// The claim link among `buttons`.
pub fn find_claim_link(buttons: &Vec<Button>) -> (link: Option<String>)
    ensures
        opt_string_view(link) == claim_link(controls(buttons@)),
{
    let mut i: usize = 0;
    assert(controls(buttons@).skip(0) =~= controls(buttons@));
    while i < buttons.len()
        invariant
            i <= buttons.len(),
            first_offer(controls(buttons@)) == first_offer(controls(buttons@).skip(i as int)),
        decreases buttons.len() - i,
    {
        let ghost rest = controls(buttons@).skip(i as int);
        assert(rest.first() == buttons@[i as int]@);
        assert(rest.drop_first() =~= controls(buttons@).skip(i as int + 1));
        let button = &buttons[i];
        let label = match button.value {
            Some(value) => value,
            None => "",
        };
        proof {
            reveal_strlit("");
            assert(label@ =~= self::label(button@));
        }
        if holds(label, CLAIM_WORD) {
            return match button.onclick {
                Some(handler) => find_quoted_link(handler),
                None => None,
            };
        }
        i += 1;
    }
    None
}

/// The text of an element with the text nodes `pieces`.
pub fn join_text(pieces: &Vec<&str>) -> (text: Option<String>)
    ensures
        opt_string_view(text) == joined_text(views(pieces@)),
{
    let whole = join_pieces(pieces);
    if whole.as_str().is_empty() {
        None
    } else {
        Some(String::from_str(trim(whole.as_str())))
    }
}

/// A parsed page.
pub struct Document {
    html: Html,
}

impl Document {
    /// The parsed tree.
    pub closed spec fn tree(&self) -> Html {
        self.html
    }

    /// Parses `text` as an HTML document. Every text of `MAX_PAGE_BYTES` octets
    /// at most parses; a longer one is refused with `None`.
    pub fn parse(text: &str) -> (doc: Option<Document>)
        ensures
            match doc {
                Some(doc) => page_fits(text@) && doc.tree() == parsed_document(text@),
                None => !page_fits(text@),
            },
    {
        if text.as_bytes().len() <= MAX_PAGE_BYTES {
            Some(Document { html: parse_document(text) })
        } else {
            None
        }
    }

    /// What is read of the controls that `selector` matches.
    fn buttons<'a>(&'a self, selector: &Selector) -> (buttons: Vec<Button<'a>>)
        ensures
            controls(buttons@) == controls_in(&self.tree(), *selector),
    {
        let found = select_all(&self.html, selector);
        let mut buttons: Vec<Button<'a>> = Vec::new();
        let mut i: usize = 0;
        while i < found.len()
            invariant
                i <= found.len(),
                found@ == selected(&self.html, *selector),
                buttons@.len() == i,
                forall|j: int|
                    0 <= j < i ==> (#[trigger] buttons@[j])@ == controls_in(
                        &self.html,
                        *selector,
                    )[j],
            decreases found.len() - i,
        {
            let value = element_attr(&found[i], "value");
            let onclick = element_attr(&found[i], "onclick");
            buttons.push(Button { value, onclick });
            i += 1;
        }
        assert(controls(buttons@) =~= controls_in(&self.html, *selector));
        buttons
    }

    /// The link that claims the daily reward, where the page offers one.
    pub fn claim_link(&self) -> (link: Result<Option<String>, SelectorError>)
        ensures
            link_view(link) == claim_link_in(&self.tree()),
    {
        match parse_selector(CLAIM_SELECTOR) {
            Some(selector) => {
                let buttons = self.buttons(&selector);
                Ok(find_claim_link(&buttons))
            },
            None => Err(SelectorError::Invalid),
        }
    }

    /// The trimmed text of the first element that `selector` matches.
    pub fn parse_selector_text(&self, selector: &str) -> (text: Option<String>)
        ensures
            opt_string_view(text) == field_text(&self.tree(), selector@),
    {
        match parse_selector(selector) {
            Some(parsed) => {
                let found = select_all(&self.html, &parsed);
                if found.len() == 0 {
                    None
                } else {
                    let pieces = element_text(&found[0]);
                    join_text(&pieces)
                }
            },
            None => None,
        }
    }
}

/// In a handler that calls with one quoted argument, the link is the argument:
/// where neither what stands before the first quote nor the argument holds a
/// quote, the argument is what is found, whatever follows the closing quote.
pub proof fn lemma_link_is_quoted_argument(before: Seq<char>, link: Seq<char>, after: Seq<char>)
    requires
        free_of(before, '\''),
        free_of(link, '\''),
    ensures
        quoted_link(before + seq!['\''] + link + seq!['\''] + after) == Some(link),
{
    let quote = seq!['\''];
    let handler = before + quote + link + quote + after;
    let tail = link + quote + after;
    assert(handler =~= before + quote + tail);
    lemma_run_ends_at_delimiter(before, '\'', tail);
    assert(handler.skip(before.len() as int + 1) =~= tail);
    lemma_run_ends_at_delimiter(link, '\'', after);
    assert(tail.take(link.len() as int) =~= link);
    reveal_with_fuel(token, 2);
}

/// A handler without a quote holds no link.
pub proof fn lemma_no_quote_no_link(handler: Seq<char>)
    requires
        free_of(handler, '\''),
    ensures
        quoted_link(handler) is None,
{
    lemma_run_without_delimiter(handler, '\'');
}

/// A page on which the claim selector matches nothing has no claim link.
pub proof fn lemma_no_control_no_link(doc: &Html)
    requires
        parsed_selector(CLAIM_SELECTOR@) is Some,
        selected(doc, parsed_selector(CLAIM_SELECTOR@)->0).len() == 0,
    ensures
        claim_link_in(doc) == Ok::<Option<Seq<char>>, SelectorError>(None),
{
}

/// Controls of which none offers the claim hold no claim link.
pub proof fn lemma_no_offer_no_link(controls: Seq<Control>)
    requires
        forall|i: int| 0 <= i < controls.len() ==> !offers_claim(#[trigger] controls[i]),
    ensures
        claim_link(controls) is None,
    decreases controls.len(),
{
    if controls.len() > 0 {
        let rest = controls.drop_first();
        assert(!offers_claim(controls[0]));
        assert forall|i: int| 0 <= i < rest.len() implies !offers_claim(#[trigger] rest[i]) by {
            assert(rest[i] == controls[i + 1]);
        }
        lemma_no_offer_no_link(rest);
    }
}

/// A selector that does not parse, or that matches nothing, gives no text: it
/// gives `None`, and nothing else.
pub proof fn lemma_no_match_no_text(doc: &Html, selector: Seq<char>)
    requires
        parsed_selector(selector) is None || selected(doc, parsed_selector(selector)->0).len()
            == 0,
    ensures
        field_text(doc, selector) is None,
{
}

/// The text of an element neither begins nor ends with white space.
pub proof fn lemma_text_is_trimmed(pieces: Seq<Seq<char>>)
    ensures
        joined_text(pieces) matches Some(text) ==> text.len() > 0 ==> !white_space(text.first())
            && !white_space(text.last()),
{
    let whole = pieces.flatten();
    let kept = trim_start(whole);
    lemma_trim_start_is_suffix(whole);
    lemma_trim_end_is_prefix(kept);
    if trimmed(whole).len() > 0 {
        assert(trimmed(whole).first() == kept.first());
    }
}

} // verus!
