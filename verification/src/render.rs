//! Assembly of an invoice into a genpdf document layout.
//!
//! The strings that end up on the page are computed and specified in
//! `model`; this module feeds them into genpdf's element tree. The genpdf
//! values are opaque here, so what each one holds is given a name (a spec
//! function without a body), every call into genpdf stands behind a small
//! trusted item whose contract speaks over those names, and the assembly
//! functions are proved to put exactly the invoice's content, in order, into
//! the document.

use crate::model::{Instance, Invoice, oneliner_spec};
use vstd::prelude::*;
use vstd::string::StringExecFns;

verus! {

// ---------------------------------------------------------------------------
// Declarations of the genpdf types that appear in signatures below.
// ---------------------------------------------------------------------------

/// genpdf's style annotation for a string.
#[verifier::external_type_specification]
#[verifier::external_body]
pub struct ExStyle(genpdf::style::Style);

/// genpdf's string with an attached style.
#[verifier::external_type_specification]
#[verifier::external_body]
pub struct ExStyledString(genpdf::style::StyledString);

/// genpdf's text effect (bold or italic).
#[verifier::external_type_specification]
#[verifier::external_body]
pub struct ExEffect(genpdf::style::Effect);

/// genpdf's single-line text element.
#[verifier::external_type_specification]
#[verifier::external_body]
pub struct ExText(genpdf::elements::Text);

/// genpdf's wrapping paragraph element.
#[verifier::external_type_specification]
#[verifier::external_body]
pub struct ExParagraph(genpdf::elements::Paragraph);

/// genpdf's vertical sequence of elements.
#[verifier::external_type_specification]
#[verifier::external_body]
pub struct ExLinearLayout(genpdf::elements::LinearLayout);

/// genpdf's column/row layout.
#[verifier::external_type_specification]
#[verifier::external_body]
pub struct ExTableLayout(genpdf::elements::TableLayout);

/// genpdf's margins of an area.
#[verifier::external_type_specification]
#[verifier::external_body]
pub struct ExMargins(genpdf::Margins);

/// genpdf's page decorator that sets margins on every page.
#[verifier::external_type_specification]
#[verifier::external_body]
pub struct ExSimplePageDecorator(genpdf::SimplePageDecorator);

/// genpdf's document under construction.
#[verifier::external_type_specification]
#[verifier::external_body]
pub struct ExDocument(genpdf::Document);

// ---------------------------------------------------------------------------
// Names for what the opaque genpdf values hold. Each is applied by the
// contracts of the trusted items below; Verus learns of them only what those
// contracts state, which is what genpdf's source shows.
// ---------------------------------------------------------------------------

// The font size a style sets, if any.
pub uninterp spec fn style_font_size(s: genpdf::style::Style) -> Option<u8>;

// Whether everything in a style besides the font size is unset: no font
// family, line spacing or colour, and neither bold nor italic.
pub uninterp spec fn style_default_otherwise(s: genpdf::style::Style) -> bool;

// The characters a styled string holds.
pub uninterp spec fn styled_string_content(s: genpdf::style::StyledString) -> Seq<char>;

// The font size of a styled string's style, if any.
pub uninterp spec fn styled_string_font_size(s: genpdf::style::StyledString) -> Option<u8>;

// Whether a styled string's style is unset besides the font size.
pub uninterp spec fn styled_string_default_otherwise(s: genpdf::style::StyledString) -> bool;

// Whether a text effect is the bold effect.
pub uninterp spec fn effect_is_bold(e: genpdf::style::Effect) -> bool;

// The characters a text element shows.
pub uninterp spec fn text_content(t: genpdf::elements::Text) -> Seq<char>;

// The font size a text element's own style sets, if any.
pub uninterp spec fn text_font_size(t: genpdf::elements::Text) -> Option<u8>;

// Whether a text element's own style is unset besides the font size.
pub uninterp spec fn text_default_otherwise(t: genpdf::elements::Text) -> bool;

// The characters a paragraph shows.
pub uninterp spec fn paragraph_content(p: genpdf::elements::Paragraph) -> Seq<char>;

// The texts of a linear layout's paragraphs, in order.
pub uninterp spec fn layout_texts(l: genpdf::elements::LinearLayout) -> Seq<Seq<char>>;

// The top, right, bottom and left millimetre values of a margins record.
pub uninterp spec fn margins_values(m: genpdf::Margins) -> (u32, u32, u32, u32);

// The column weights a table was made with.
pub uninterp spec fn table_weights(t: genpdf::elements::TableLayout) -> Seq<usize>;

// The rows a table holds, each cell as its text and its font size.
pub uninterp spec fn table_rows(t: genpdf::elements::TableLayout) -> Seq<
    Seq<(Seq<char>, Option<u8>)>,
>;

// The uniform page margin a decorator sets, if any.
pub uninterp spec fn decorator_margin(d: genpdf::SimplePageDecorator) -> Option<u32>;

// The title a document carries.
pub uninterp spec fn doc_title(d: genpdf::Document) -> Seq<char>;

// The uniform page margin of the decorator installed on a document, if any.
pub uninterp spec fn doc_margin(d: genpdf::Document) -> Option<u32>;

// The elements pushed into a document, in order.
pub uninterp spec fn doc_items(d: genpdf::Document) -> Seq<DocItem>;

/// What one element pushed into the document holds: a table with its weights
/// and rows, a single text with an optional effect, or a padded block of
/// paragraph lines.
#[verifier::ext_equal]
pub enum DocItem {
    Table { weights: Seq<usize>, rows: Seq<Seq<(Seq<char>, Option<u8>)>> },
    StyledText { content: Seq<char>, font_size: Option<u8>, bold: bool },
    PaddedLines { lines: Seq<Seq<char>>, margins: (u32, u32, u32, u32) },
}

// ---------------------------------------------------------------------------
// Contracts for the non-generic genpdf constructors the logic calls.
// ---------------------------------------------------------------------------

/// Relies on genpdf::style::Style::new: a style with no settings.
pub assume_specification[ genpdf::style::Style::new ]() -> (r: genpdf::style::Style)
    ensures
        style_font_size(r) is None,
        style_default_otherwise(r),
;

/// Relies on genpdf::style::Style::set_font_size: records the size in points
/// and changes nothing else.
pub assume_specification[ genpdf::style::Style::set_font_size ](
    s: &mut genpdf::style::Style,
    font_size: u8,
)
    ensures
        style_font_size(*final(s)) == Some(font_size),
        style_default_otherwise(*final(s)) == style_default_otherwise(*old(s)),
;

/// Relies on genpdf::elements::LinearLayout::vertical: an empty vertical
/// layout.
pub assume_specification[ genpdf::elements::LinearLayout::vertical ]() -> (r: genpdf::elements::LinearLayout)
    ensures
        layout_texts(r) == Seq::<Seq<char>>::empty(),
;

/// Relies on genpdf::elements::TableLayout::new: a table with the given
/// column weights and no rows yet.
pub assume_specification[ genpdf::elements::TableLayout::new ](
    column_weights: Vec<usize>,
) -> (r: genpdf::elements::TableLayout)
    ensures
        table_weights(r) == column_weights@,
        table_rows(r) == Seq::<Seq<(Seq<char>, Option<u8>)>>::empty(),
;

/// Relies on genpdf::SimplePageDecorator::new: a decorator that does not
/// modify the page, so no margin is set.
pub assume_specification[ genpdf::SimplePageDecorator::new ]() -> (r: genpdf::SimplePageDecorator)
    ensures
        decorator_margin(r) is None,
;

// ---------------------------------------------------------------------------
// Wrappers for the generic genpdf calls the logic makes.
// ---------------------------------------------------------------------------

/// Relies on genpdf::style::StyledString::new: pairs the string with the
/// style, changing neither.
#[verifier::external_body]
fn styled_string_new(s: String, style: genpdf::style::Style) -> (r: genpdf::style::StyledString)
    ensures
        styled_string_content(r) == s@,
        styled_string_font_size(r) == style_font_size(style),
        styled_string_default_otherwise(r) == style_default_otherwise(style),
{
    genpdf::style::StyledString::new(s, style)
}

/// Relies on genpdf::elements::Text::new: a single-line element showing the
/// styled string.
#[verifier::external_body]
fn text_new(text: genpdf::style::StyledString) -> (r: genpdf::elements::Text)
    ensures
        text_content(r) == styled_string_content(text),
        text_font_size(r) == styled_string_font_size(text),
        text_default_otherwise(r) == styled_string_default_otherwise(text),
{
    genpdf::elements::Text::new(text)
}

/// Relies on genpdf::elements::Text::new and StyledString's conversion from
/// a string slice, which attaches Style::new: a single-line element showing
/// the string with no style settings of its own.
#[verifier::external_body]
fn text_plain(text: &str) -> (r: genpdf::elements::Text)
    ensures
        text_content(r) == text@,
        text_font_size(r) is None,
        text_default_otherwise(r),
{
    genpdf::elements::Text::new(text)
}

/// Relies on genpdf::elements::Paragraph::new: a paragraph showing the string.
#[verifier::external_body]
fn paragraph_new(text: &String) -> (r: genpdf::elements::Paragraph)
    ensures
        paragraph_content(r) == text@,
{
    genpdf::elements::Paragraph::new(text)
}

/// Relies on genpdf::elements::LinearLayout::push: appends the paragraph to
/// the layout.
#[verifier::external_body]
fn layout_push_paragraph(
    layout: &mut genpdf::elements::LinearLayout,
    paragraph: genpdf::elements::Paragraph,
)
    ensures
        layout_texts(*final(layout)) == layout_texts(*old(layout)).push(
            paragraph_content(paragraph),
        ),
{
    layout.push(paragraph)
}

/// Relies on genpdf::Margins::trbl: margins from top, right, bottom, left
/// millimetre values.
#[verifier::external_body]
fn margins_trbl(top: u32, right: u32, bottom: u32, left: u32) -> (r: genpdf::Margins)
    ensures
        margins_values(r) == (top, right, bottom, left),
{
    genpdf::Margins::trbl(top, right, bottom, left)
}

/// Relies on genpdf::style::Effect::Bold: the bold text effect.
#[verifier::external_body]
fn effect_bold() -> (r: genpdf::style::Effect)
    ensures
        effect_is_bold(r),
{
    genpdf::style::Effect::Bold
}

/// Relies on genpdf::SimplePageDecorator::set_margins: sets the same margin
/// on all four sides of every page.
#[verifier::external_body]
fn decorator_set_margins(decorator: &mut genpdf::SimplePageDecorator, margins: u32)
    ensures
        decorator_margin(*final(decorator)) == Some(margins),
{
    decorator.set_margins(margins)
}

/// Relies on genpdf::Document::set_page_decorator: installs the decorator;
/// the title and the pushed elements stay as they were.
#[verifier::external_body]
fn doc_set_page_decorator(doc: &mut genpdf::Document, decorator: genpdf::SimplePageDecorator)
    ensures
        doc_margin(*final(doc)) == decorator_margin(decorator),
        doc_title(*final(doc)) == doc_title(*old(doc)),
        doc_items(*final(doc)) == doc_items(*old(doc)),
{
    doc.set_page_decorator(decorator)
}

/// Relies on genpdf::Document::set_title: sets the PDF title; the decorator
/// and the pushed elements stay as they were.
#[verifier::external_body]
fn doc_set_title(doc: &mut genpdf::Document, title: &str)
    ensures
        doc_title(*final(doc)) == title@,
        doc_margin(*final(doc)) == doc_margin(*old(doc)),
        doc_items(*final(doc)) == doc_items(*old(doc)),
{
    doc.set_title(title)
}

/// Relies on genpdf::Document::push: appends the table to the document's
/// elements; the title and the decorator stay as they were.
#[verifier::external_body]
fn doc_push_table(doc: &mut genpdf::Document, table: genpdf::elements::TableLayout)
    ensures
        doc_items(*final(doc)) == doc_items(*old(doc)).push(
            DocItem::Table { weights: table_weights(table), rows: table_rows(table) },
        ),
        doc_title(*final(doc)) == doc_title(*old(doc)),
        doc_margin(*final(doc)) == doc_margin(*old(doc)),
{
    doc.push(table)
}

/// Relies on genpdf::elements::StyledElement::new and genpdf::Document::push:
/// appends the text with the effect applied to it. The two calls stand
/// together because the intermediate `StyledElement` cannot be named outside
/// this body.
#[verifier::external_body]
fn doc_push_styled_text(
    doc: &mut genpdf::Document,
    element: genpdf::elements::Text,
    effect: genpdf::style::Effect,
)
    ensures
        doc_items(*final(doc)) == doc_items(*old(doc)).push(
            DocItem::StyledText {
                content: text_content(element),
                font_size: text_font_size(element),
                bold: effect_is_bold(effect),
            },
        ),
        doc_title(*final(doc)) == doc_title(*old(doc)),
        doc_margin(*final(doc)) == doc_margin(*old(doc)),
{
    doc.push(genpdf::elements::StyledElement::new(element, effect))
}

/// Relies on genpdf::elements::PaddedElement::new and genpdf::Document::push:
/// appends the layout with the padding applied around it. The two calls stand
/// together because the intermediate `PaddedElement` cannot be named outside
/// this body.
#[verifier::external_body]
fn doc_push_padded_layout(
    doc: &mut genpdf::Document,
    element: genpdf::elements::LinearLayout,
    padding: genpdf::Margins,
)
    ensures
        doc_items(*final(doc)) == doc_items(*old(doc)).push(
            DocItem::PaddedLines {
                lines: layout_texts(element),
                margins: margins_values(padding),
            },
        ),
        doc_title(*final(doc)) == doc_title(*old(doc)),
        doc_margin(*final(doc)) == doc_margin(*old(doc)),
{
    doc.push(genpdf::elements::PaddedElement::new(element, padding))
}

/// Relies on genpdf::elements::TableLayout::row, TableLayoutRow::push_element
/// and TableLayoutRow::push (which calls TableLayout::push_row): appends one
/// row with the three cells in order. The row builder borrows the table, so
/// the three pushes stand together here. push_row accepts the row exactly
/// when its cell count equals the table's column count, and leaves the table
/// unchanged otherwise.
#[verifier::external_body]
fn table_push_row3(
    table: &mut genpdf::elements::TableLayout,
    a: genpdf::elements::Text,
    b: genpdf::elements::Text,
    c: genpdf::elements::Text,
) -> (accepted: bool)
    ensures
        accepted == (table_weights(*old(table)).len() == 3),
        table_weights(*final(table)) == table_weights(*old(table)),
        accepted ==> table_rows(*final(table)) == table_rows(*old(table)).push(
            seq![
                (text_content(a), text_font_size(a)),
                (text_content(b), text_font_size(b)),
                (text_content(c), text_font_size(c)),
            ],
        ),
        !accepted ==> table_rows(*final(table)) == table_rows(*old(table)),
{
    let mut row = table.row();
    row.push_element(a);
    row.push_element(b);
    row.push_element(c);
    row.push().is_ok()
}

// ---------------------------------------------------------------------------
// The verified assembly.
// ---------------------------------------------------------------------------

impl Instance {
    /// The address as a one-line text element: it shows exactly the
    /// `oneliner` string in 10-point type, with no other style setting.
    pub fn get_oneliner(&self) -> (r: genpdf::elements::Text)
        ensures
            text_content(r) == oneliner_spec(
                self.name@,
                self.street@,
                self.postal_code@,
                self.city@,
            ),
            text_font_size(r) == Some(10u8),
            text_default_otherwise(r),
    {
        let text = self.oneliner();
        let mut smaller_style = genpdf::style::Style::new();
        smaller_style.set_font_size(10);
        let styled_string = styled_string_new(text, smaller_style);
        text_new(styled_string)
    }

    /// The address as a block of paragraphs holding exactly the three
    /// `layout_lines` — name, street, city, in order — together with the
    /// padding that belongs around it: 10 mm above and below, none at the
    /// sides.
    pub fn get_layout(&self) -> (r: (genpdf::elements::LinearLayout, genpdf::Margins))
        ensures
            layout_texts(r.0) == seq![self.name@, self.street@, self.city@],
            margins_values(r.1) == (10u32, 0u32, 10u32, 0u32),
    {
        let lines = self.layout_lines();
        let mut layout = genpdf::elements::LinearLayout::vertical();
        let mut i: usize = 0;
        while i < lines.len()
            invariant
                i <= lines@.len(),
                lines@.len() == 3,
                lines@[0]@ == self.name@,
                lines@[1]@ == self.street@,
                lines@[2]@ == self.city@,
                layout_texts(layout).len() == i,
                forall|k: int| 0 <= k < i ==> #[trigger] layout_texts(layout)[k] == lines@[k]@,
            decreases lines@.len() - i,
        {
            layout_push_paragraph(&mut layout, paragraph_new(&lines[i]));
            i = i + 1;
        }
        proof {
            assert(layout_texts(layout) =~= seq![self.name@, self.street@, self.city@]);
        }
        (layout, margins_trbl(10, 0, 10, 0))
    }
}

impl Invoice {
    /// What `fill_document` appends to the document, in order: the header
    /// table with column weights 4, 2, 1 and its one row — the sender's
    /// one-liner at 10 points, "B" at 10 points, "C" unstyled —, the bold
    /// "Invoice" heading, and the sender's and receiver's address blocks,
    /// each padded by 10 mm above and below.
    pub open spec fn document_items_spec(self) -> Seq<DocItem> {
        seq![
            DocItem::Table {
                weights: seq![4usize, 2usize, 1usize],
                rows: seq![
                    seq![
                        (
                            oneliner_spec(
                                self.sender.name@,
                                self.sender.street@,
                                self.sender.postal_code@,
                                self.sender.city@,
                            ),
                            Some(10u8),
                        ),
                        ("B"@, Some(10u8)),
                        ("C"@, None::<u8>),
                    ],
                ],
            },
            DocItem::StyledText { content: "Invoice"@, font_size: None::<u8>, bold: true },
            DocItem::PaddedLines {
                lines: seq![self.sender.name@, self.sender.street@, self.sender.city@],
                margins: (10u32, 0u32, 10u32, 0u32),
            },
            DocItem::PaddedLines {
                lines: seq![self.receiver.name@, self.receiver.street@, self.receiver.city@],
                margins: (10u32, 0u32, 10u32, 0u32),
            },
        ]
    }

    /// Fills the document with this invoice's content: a 20 mm page margin,
    /// the title "Invoice", and exactly the elements of
    /// `document_items_spec`, appended in that order. Only the sender and the
    /// receiver decide the content; the identifier, the dates and the
    /// positions play no part in it.
    pub fn fill_document(&self, doc: &mut genpdf::Document)
        ensures
            doc_margin(*final(doc)) == Some(20u32),
            doc_title(*final(doc)) == "Invoice"@,
            doc_items(*final(doc)) == doc_items(*old(doc)) + self.document_items_spec(),
    {
        let mut decorator = genpdf::SimplePageDecorator::new();
        decorator_set_margins(&mut decorator, 20);
        doc_set_page_decorator(doc, decorator);
        doc_set_title(doc, "Invoice");
        let mut weights: Vec<usize> = Vec::new();
        weights.push(4);
        weights.push(2);
        weights.push(1);
        proof {
            assert(weights@ =~= seq![4usize, 2usize, 1usize]);
        }
        let mut table = genpdf::elements::TableLayout::new(weights);
        let mut smaller_style = genpdf::style::Style::new();
        smaller_style.set_font_size(10);
        let b_cell = text_new(styled_string_new(String::from_str("B"), smaller_style));
        let c_cell = text_plain("C");
        let accepted = table_push_row3(&mut table, self.sender.get_oneliner(), b_cell, c_cell);
        assert(accepted);
        doc_push_table(doc, table);
        doc_push_styled_text(doc, text_plain("Invoice"), effect_bold());
        let (sender_layout, sender_padding) = self.sender.get_layout();
        doc_push_padded_layout(doc, sender_layout, sender_padding);
        let (receiver_layout, receiver_padding) = self.receiver.get_layout();
        doc_push_padded_layout(doc, receiver_layout, receiver_padding);
        proof {
            assert(doc_items(*doc) =~~= doc_items(*old(doc)) + self.document_items_spec());
        }
    }
}

/// The path under which the rendered invoice is written: the file name under
/// the `target` directory.
pub fn output_path(name: &str) -> (r: String)
    ensures
        r@ == "target/"@ + name@,
{
    let mut r = String::from_str("target/");
    r.append(name);
    r
}

} // verus!
