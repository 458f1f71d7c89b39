//! Property values as the database takes them, and their mathematical views.
//!
//! What a record of this client can say is held in plain fields. The slots
//! it always leaves empty keep the types of the `notion` crate, so that a
//! value converts to that crate's form without loss.

use notion::models::properties::{DateValue, RelationValue, SelectOptionId};
use notion::models::text::{Annotations, Link};
use vstd::prelude::*;

verus! {

/// `notion::models::properties::SelectOptionId`, the identifier of one
/// choice of a select or status property. Carried, never inspected.
#[verifier::external_type_specification]
#[verifier::external_body]
pub struct ExSelectOptionId(SelectOptionId);

/// `notion::models::properties::DateValue`, a date or a span of dates.
/// Carried, never inspected.
#[verifier::external_type_specification]
#[verifier::external_body]
pub struct ExDateValue(DateValue);

/// `notion::models::properties::RelationValue`, a reference to a related
/// page. Carried, never inspected.
#[verifier::external_type_specification]
#[verifier::external_body]
pub struct ExRelationValue(RelationValue);

/// `notion::models::text::Annotations`, the styling of a piece of text.
/// Carried, never inspected.
#[verifier::external_type_specification]
#[verifier::external_body]
pub struct ExAnnotations(Annotations);

/// `notion::models::text::Link`, the target of a linked piece of text.
/// Carried, never inspected.
#[verifier::external_type_specification]
#[verifier::external_body]
pub struct ExLink(Link);

/// The colour of a choice.
#[derive(Clone, Copy, Debug, PartialEq, Eq, Structural)]
pub enum Color {
    Default,
    Gray,
    Brown,
    Orange,
    Yellow,
    Green,
    Blue,
    Purple,
    Pink,
    Red,
}

/// One choice of a select or status property.
#[derive(Clone, Debug, PartialEq, Eq)]
pub struct SelectedValue {
    pub id: Option<SelectOptionId>,
    pub name: Option<String>,
    pub color: Color,
}

/// A piece of plain text inside a title or a text property.
#[derive(Clone, Debug, PartialEq, Eq)]
pub struct RichText {
    pub plain_text: String,
    pub href: Option<String>,
    pub annotations: Option<Annotations>,
    pub content: String,
    pub link: Option<Link>,
}

/// The value of one property of a record. Every value carries the
/// identifier of its property as text.
#[derive(Clone, Debug, PartialEq, Eq)]
pub enum PropertyValue {
    Title { id: String, title: Vec<RichText> },
    Text { id: String, rich_text: Vec<RichText> },
    Select { id: String, select: Option<SelectedValue> },
    Status { id: String, status: Option<SelectedValue> },
    Date { id: String, date: Option<DateValue> },
    Relation { id: String, relation: Option<Vec<RelationValue>> },
}

/// What a [`SelectedValue`] says.
pub struct SelectedValueView {
    pub id: Option<SelectOptionId>,
    pub name: Option<Seq<char>>,
    pub color: Color,
}

/// What a [`RichText`] says.
pub struct RichTextView {
    pub plain_text: Seq<char>,
    pub href: Option<Seq<char>>,
    pub annotations: Option<Annotations>,
    pub content: Seq<char>,
    pub link: Option<Link>,
}

/// What a [`PropertyValue`] says.
pub enum PropertyValueView {
    Title { id: Seq<char>, title: Seq<RichTextView> },
    Text { id: Seq<char>, rich_text: Seq<RichTextView> },
    Select { id: Seq<char>, select: Option<SelectedValueView> },
    Status { id: Seq<char>, status: Option<SelectedValueView> },
    Date { id: Seq<char>, date: Option<DateValue> },
    Relation { id: Seq<char>, relation: Option<Seq<RelationValue>> },
}

/// The characters of an optional string.
pub open spec fn text_view(text: Option<String>) -> Option<Seq<char>> {
    match text {
        Some(t) => Some(t@),
        None => None,
    }
}

impl View for SelectedValue {
    type V = SelectedValueView;

    open spec fn view(&self) -> SelectedValueView {
        SelectedValueView { id: self.id, name: text_view(self.name), color: self.color }
    }
}

impl View for RichText {
    type V = RichTextView;

    open spec fn view(&self) -> RichTextView {
        RichTextView {
            plain_text: self.plain_text@,
            href: text_view(self.href),
            annotations: self.annotations,
            content: self.content@,
            link: self.link,
        }
    }
}

/// The views of a run of texts, in order.
pub open spec fn texts_view(texts: Seq<RichText>) -> Seq<RichTextView> {
    texts.map_values(|t: RichText| t@)
}

/// The view of an optional choice.
pub open spec fn choice_view(choice: Option<SelectedValue>) -> Option<SelectedValueView> {
    match choice {
        Some(c) => Some(c@),
        None => None,
    }
}

/// The related pages of an optional list, in order.
pub open spec fn relation_view(relation: Option<Vec<RelationValue>>) -> Option<
    Seq<RelationValue>,
> {
    match relation {
        Some(r) => Some(r@),
        None => None,
    }
}

impl View for PropertyValue {
    type V = PropertyValueView;

    open spec fn view(&self) -> PropertyValueView {
        match *self {
            PropertyValue::Title { id, title } => PropertyValueView::Title {
                id: id@,
                title: texts_view(title@),
            },
            PropertyValue::Text { id, rich_text } => PropertyValueView::Text {
                id: id@,
                rich_text: texts_view(rich_text@),
            },
            PropertyValue::Select { id, select } => PropertyValueView::Select {
                id: id@,
                select: choice_view(select),
            },
            PropertyValue::Status { id, status } => PropertyValueView::Status {
                id: id@,
                status: choice_view(status),
            },
            PropertyValue::Date { id, date } => PropertyValueView::Date { id: id@, date },
            PropertyValue::Relation { id, relation } => PropertyValueView::Relation {
                id: id@,
                relation: relation_view(relation),
            },
        }
    }
}

} // verus!
