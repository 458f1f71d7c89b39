//! The record of a new task: six named properties, each under an
//! identifier of its own.

use crate::model::property::{
    text_view, texts_view, Color, PropertyValue, PropertyValueView, RichText, RichTextView,
    SelectedValue, SelectedValueView,
};
use notion::ids::PropertyId;
use notion::models::properties::RelationValue;
use std::str::FromStr;
use uuid::Uuid;
use vstd::hash_map::StringHashMap;
use vstd::prelude::*;

verus! {

/// The name of the property that holds a task's title.
pub const TITLE_FIELD: &'static str = "名前";

/// The name of the property that holds a task's progress.
pub const STATUS_FIELD: &'static str = "ステータス";

/// The name of the property that holds a task's kind.
pub const CATEGORY_FIELD: &'static str = "タスク種別";

/// The name of the property that lists the projects a task belongs to.
pub const PROJECT_FIELD: &'static str = "プロジェクト";

/// The name of the property that holds the day a task is planned for.
pub const DATE_FIELD: &'static str = "実施予定日";

/// The name of the property that holds a free note on a task.
pub const NOTE_FIELD: &'static str = "気持ち";

/// The name of the progress that a new task starts in.
pub const NOT_STARTED: &'static str = "未着手";

/// The names of the properties of a task record.
pub const TASK_FIELDS: [&'static str; 6] = [
    "名前",
    "ステータス",
    "タスク種別",
    "プロジェクト",
    "実施予定日",
    "気持ち",
];

/// The names of the properties of a task record, as a set.
pub open spec fn task_fields() -> Set<Seq<char>> {
    set![TITLE_FIELD@, STATUS_FIELD@, CATEGORY_FIELD@, PROJECT_FIELD@, DATE_FIELD@, NOTE_FIELD@]
}

/// A digit of lower-case hexadecimal.
pub open spec fn is_lower_hex(c: char) -> bool {
    ('0' <= c && c <= '9') || ('a' <= c && c <= 'f')
}

/// The hyphenated lower-case text of a random (version 4) UUID: five groups
/// of 8, 4, 4, 4 and 12 hexadecimal digits, the third starting with the
/// version `4` and the fourth with one of `8`, `9`, `a`, `b`.
pub open spec fn is_uuid_v4_text(text: Seq<char>) -> bool {
    &&& text.len() == 36
    &&& forall|i: int|
        0 <= i < 36 ==> if i == 8 || i == 13 || i == 18 || i == 23 {
            text[i] == '-'
        } else {
            is_lower_hex(#[trigger] text[i])
        }
    &&& text[14] == '4'
    &&& (text[19] == '8' || text[19] == '9' || text[19] == 'a' || text[19] == 'b')
}

/// The identifiers of the six properties of a task record.
pub struct PropertyIds {
    pub title: String,
    pub status: String,
    pub category: String,
    pub project: String,
    pub date: String,
    pub note: String,
}

/// The texts of six property identifiers.
pub struct PropertyIdsView {
    pub title: Seq<char>,
    pub status: Seq<char>,
    pub category: Seq<char>,
    pub project: Seq<char>,
    pub date: Seq<char>,
    pub note: Seq<char>,
}

impl View for PropertyIds {
    type V = PropertyIdsView;

    open spec fn view(&self) -> PropertyIdsView {
        PropertyIdsView {
            title: self.title@,
            status: self.status@,
            category: self.category@,
            project: self.project@,
            date: self.date@,
            note: self.note@,
        }
    }
}

impl PropertyIdsView {
    /// Every identifier is the text of a random UUID.
    pub open spec fn are_uuids(self) -> bool {
        &&& is_uuid_v4_text(self.title)
        &&& is_uuid_v4_text(self.status)
        &&& is_uuid_v4_text(self.category)
        &&& is_uuid_v4_text(self.project)
        &&& is_uuid_v4_text(self.date)
        &&& is_uuid_v4_text(self.note)
    }
}

/// A piece of text with the given content and nothing else: no rendered
/// form, no link, no styling.
pub open spec fn bare_text(content: Seq<char>) -> RichTextView {
    RichTextView { plain_text: Seq::empty(), href: None, annotations: None, content, link: None }
}

/// The record of a new task called `task`, with its properties under the
/// identifiers `ids`: the title is the task's name, the progress is "not
/// started" in the default colour, no kind and no day are chosen, no project
/// is related and the note is empty.
pub open spec fn task_record(task: Seq<char>, ids: PropertyIdsView) -> Map<
    Seq<char>,
    PropertyValueView,
> {
    map![
        TITLE_FIELD@ => PropertyValueView::Title { id: ids.title, title: seq![bare_text(task)] },
        STATUS_FIELD@ => PropertyValueView::Status {
            id: ids.status,
            status: Some(
                SelectedValueView { id: None, name: Some(NOT_STARTED@), color: Color::Default },
            ),
        },
        CATEGORY_FIELD@ => PropertyValueView::Select { id: ids.category, select: None },
        PROJECT_FIELD@ => PropertyValueView::Relation {
            id: ids.project,
            relation: Some(Seq::empty()),
        },
        DATE_FIELD@ => PropertyValueView::Date { id: ids.date, date: None },
        NOTE_FIELD@ => PropertyValueView::Text { id: ids.note, rich_text: Seq::empty() },
    ]
}

/// What the properties of a record say, name by name.
pub open spec fn record_view(record: Map<Seq<char>, PropertyValue>) -> Map<
    Seq<char>,
    PropertyValueView,
> {
    record.map_values(|v: PropertyValue| v@)
}

/// `record` is the record of a new task called `task`, under six
/// identifiers that are texts of random UUIDs.
pub open spec fn is_new_task_record(
    record: Map<Seq<char>, PropertyValueView>,
    task: Seq<char>,
) -> bool {
    exists|ids: PropertyIdsView| ids.are_uuids() && record == #[trigger] task_record(task, ids)
}

/// The text of a fresh random UUID, from `uuid::Uuid::new_v4` and the
/// `Display` form of the result. The contract claims what holds of every
/// such text: the hyphenated lower-case layout, the version digit and the
/// variant digit. Which UUID comes back is left open. The call draws on the
/// operating system's random bytes and aborts where there are none.
#[verifier::external_body]
fn random_uuid_text() -> (text: String)
    ensures
        is_uuid_v4_text(text@),
{
    Uuid::new_v4().to_string()
}

/// The text of the property identifier that `notion::ids::PropertyId::from_str`
/// makes of `text`. The contract claims that every text is accepted and
/// kept as it is.
#[verifier::external_body]
fn property_id_text(text: &str) -> (id: Option<String>)
    ensures
        text_view(id) == Some(text@),
{
    match PropertyId::from_str(text) {
        Ok(id) => Some(id.to_string()),
        Err(_) => None,
    }
}

/// A fresh property identifier.
fn fresh_property_id() -> (id: String)
    ensures
        is_uuid_v4_text(id@),
{
    let text = random_uuid_text();
    property_id_text(text.as_str()).unwrap()
}

/// The properties of a new task called `task_name`, under the given
/// identifiers.
pub fn page_properties(task_name: &str, ids: PropertyIds) -> (props: StringHashMap<PropertyValue>)
    ensures
        props@.dom() == task_fields(),
        record_view(props@) == task_record(task_name@, ids@),
{
    let mut title: Vec<RichText> = Vec::new();
    title.push(
        RichText {
            plain_text: String::new(),
            href: None,
            annotations: None,
            content: task_name.to_owned(),
            link: None,
        },
    );
    assert(texts_view(title@) =~= seq![bare_text(task_name@)]);
    let project: Vec<RelationValue> = Vec::new();
    assert(project@ =~= Seq::empty());
    let note: Vec<RichText> = Vec::new();
    assert(texts_view(note@) =~= Seq::empty());
    let started = SelectedValue {
        id: None,
        name: Some(NOT_STARTED.to_owned()),
        color: Color::Default,
    };

    let mut props: StringHashMap<PropertyValue> = StringHashMap::new();
    props.insert(TITLE_FIELD.to_owned(), PropertyValue::Title { id: ids.title, title });
    props.insert(
        STATUS_FIELD.to_owned(),
        PropertyValue::Status { id: ids.status, status: Some(started) },
    );
    props.insert(
        CATEGORY_FIELD.to_owned(),
        PropertyValue::Select { id: ids.category, select: None },
    );
    props.insert(
        PROJECT_FIELD.to_owned(),
        PropertyValue::Relation { id: ids.project, relation: Some(project) },
    );
    props.insert(DATE_FIELD.to_owned(), PropertyValue::Date { id: ids.date, date: None });
    props.insert(NOTE_FIELD.to_owned(), PropertyValue::Text { id: ids.note, rich_text: note });
    assert(props@.dom() =~= task_fields());
    assert(record_view(props@) =~= task_record(task_name@, ids@));
    props
}

/// The properties of a new task called `task_name`, each under a fresh
/// identifier.
pub fn create_page_req(task_name: &str) -> (props: StringHashMap<PropertyValue>)
    ensures
        props@.dom() == task_fields(),
        is_new_task_record(record_view(props@), task_name@),
{
    let title = fresh_property_id();
    let status = fresh_property_id();
    let category = fresh_property_id();
    let project = fresh_property_id();
    let date = fresh_property_id();
    let note = fresh_property_id();
    let ids = PropertyIds { title, status, category, project, date, note };
    page_properties(task_name, ids)
}

/// What a reader finds in the record of a new task called `task`, field by
/// field: the six task properties and no other; under each an identifier
/// that is the text of a random UUID; the task's name as the only text of
/// the title; the progress "not started" in the default colour; no kind
/// chosen, no project related, no day set and an empty note.
pub open spec fn reads_as_new_task(
    record: Map<Seq<char>, PropertyValueView>,
    task: Seq<char>,
) -> bool {
    &&& record.dom() == task_fields()
    &&& record[TITLE_FIELD@] matches PropertyValueView::Title { id, title }
    &&& is_uuid_v4_text(id)
    &&& title == seq![bare_text(task)]
    &&& record[STATUS_FIELD@] matches PropertyValueView::Status { id, status }
    &&& is_uuid_v4_text(id)
    &&& status == Some(
        SelectedValueView { id: None, name: Some(NOT_STARTED@), color: Color::Default },
    )
    &&& record[CATEGORY_FIELD@] matches PropertyValueView::Select { id, select }
    &&& is_uuid_v4_text(id)
    &&& select is None
    &&& record[PROJECT_FIELD@] matches PropertyValueView::Relation { id, relation }
    &&& is_uuid_v4_text(id)
    &&& relation == Some(Seq::<RelationValue>::empty())
    &&& record[DATE_FIELD@] matches PropertyValueView::Date { id, date }
    &&& is_uuid_v4_text(id)
    &&& date is None
    &&& record[NOTE_FIELD@] matches PropertyValueView::Text { id, rich_text }
    &&& is_uuid_v4_text(id)
    &&& rich_text == Seq::<RichTextView>::empty()
}

/// A record is the record of a new task exactly when it reads as one.
pub proof fn lemma_new_task_record_reads(
    record: Map<Seq<char>, PropertyValueView>,
    task: Seq<char>,
)
    ensures
        is_new_task_record(record, task) <==> reads_as_new_task(record, task),
{
    if is_new_task_record(record, task) {
        let ids = choose|ids: PropertyIdsView|
            ids.are_uuids() && record == #[trigger] task_record(task, ids);
        lemma_task_record_entries(task, ids);
    }
    if reads_as_new_task(record, task) {
        let ids = PropertyIdsView {
            title: record[TITLE_FIELD@]->Title_id,
            status: record[STATUS_FIELD@]->Status_id,
            category: record[CATEGORY_FIELD@]->Select_id,
            project: record[PROJECT_FIELD@]->Relation_id,
            date: record[DATE_FIELD@]->Date_id,
            note: record[NOTE_FIELD@]->Text_id,
        };
        lemma_task_record_entries(task, ids);
        assert(record =~= task_record(task, ids));
    }
}

/// The six names of the task properties differ from one another, so a task
/// record has six entries, one under each name, and each entry says what
/// the record was made to say.
pub proof fn lemma_task_record_entries(task: Seq<char>, ids: PropertyIdsView)
    ensures
        task_fields().finite(),
        task_fields().len() == 6,
        task_record(task, ids).dom() == task_fields(),
        task_record(task, ids)[TITLE_FIELD@] == (PropertyValueView::Title {
            id: ids.title,
            title: seq![bare_text(task)],
        }),
        task_record(task, ids)[STATUS_FIELD@] == (PropertyValueView::Status {
            id: ids.status,
            status: Some(
                SelectedValueView { id: None, name: Some(NOT_STARTED@), color: Color::Default },
            ),
        }),
        task_record(task, ids)[CATEGORY_FIELD@] == (PropertyValueView::Select {
            id: ids.category,
            select: None,
        }),
        task_record(task, ids)[PROJECT_FIELD@] == (PropertyValueView::Relation {
            id: ids.project,
            relation: Some(Seq::empty()),
        }),
        task_record(task, ids)[DATE_FIELD@] == (PropertyValueView::Date {
            id: ids.date,
            date: None,
        }),
        task_record(task, ids)[NOTE_FIELD@] == (PropertyValueView::Text {
            id: ids.note,
            rich_text: Seq::empty(),
        }),
{
    lemma_task_fields_differ();
    assert(task_record(task, ids).dom() =~= task_fields());
}

/// The six names of the task properties differ from one another, and
/// they are the names that [`TASK_FIELDS`] lists.
pub proof fn lemma_task_fields_differ()
    ensures
        task_fields().finite(),
        task_fields().len() == 6,
        forall|name: Seq<char>|
            task_fields().contains(name) <==> exists|i: int|
                0 <= i < 6 && #[trigger] TASK_FIELDS[i]@ == name,
        TITLE_FIELD@ != STATUS_FIELD@,
        TITLE_FIELD@ != CATEGORY_FIELD@,
        TITLE_FIELD@ != PROJECT_FIELD@,
        TITLE_FIELD@ != DATE_FIELD@,
        TITLE_FIELD@ != NOTE_FIELD@,
        STATUS_FIELD@ != CATEGORY_FIELD@,
        STATUS_FIELD@ != PROJECT_FIELD@,
        STATUS_FIELD@ != DATE_FIELD@,
        STATUS_FIELD@ != NOTE_FIELD@,
        CATEGORY_FIELD@ != PROJECT_FIELD@,
        CATEGORY_FIELD@ != DATE_FIELD@,
        CATEGORY_FIELD@ != NOTE_FIELD@,
        PROJECT_FIELD@ != DATE_FIELD@,
        PROJECT_FIELD@ != NOTE_FIELD@,
        DATE_FIELD@ != NOTE_FIELD@,
{
    reveal_strlit("名前");
    reveal_strlit("ステータス");
    reveal_strlit("タスク種別");
    reveal_strlit("プロジェクト");
    reveal_strlit("実施予定日");
    reveal_strlit("気持ち");
    assert(TITLE_FIELD@[0] == '名');
    assert(STATUS_FIELD@[0] == 'ス');
    assert(CATEGORY_FIELD@[0] == 'タ');
    assert(PROJECT_FIELD@[0] == 'プ');
    assert(DATE_FIELD@[0] == '実');
    assert(NOTE_FIELD@[0] == '気');
}

} // verus!
