use notion_todo::model::data::{
    create_page_req, page_properties, PropertyIds, CATEGORY_FIELD, DATE_FIELD, NOTE_FIELD,
    NOT_STARTED, PROJECT_FIELD, STATUS_FIELD, TASK_FIELDS, TITLE_FIELD,
};
use notion_todo::model::property::{Color, PropertyValue, RichText, SelectedValue};

fn sample_ids() -> PropertyIds {
    PropertyIds {
        title: "id-title".to_string(),
        status: "id-status".to_string(),
        category: "id-category".to_string(),
        project: "id-project".to_string(),
        date: "id-date".to_string(),
        note: "id-note".to_string(),
    }
}

fn bare_text(content: &str) -> RichText {
    RichText {
        plain_text: String::new(),
        href: None,
        annotations: None,
        content: content.to_string(),
        link: None,
    }
}

fn is_uuid_v4_text(text: &str) -> bool {
    let chars: Vec<char> = text.chars().collect();
    if chars.len() != 36 {
        return false;
    }
    for (i, c) in chars.iter().enumerate() {
        let ok = if i == 8 || i == 13 || i == 18 || i == 23 {
            *c == '-'
        } else {
            c.is_ascii_digit() || ('a'..='f').contains(c)
        };
        if !ok {
            return false;
        }
    }
    chars[14] == '4' && matches!(chars[19], '8' | '9' | 'a' | 'b')
}

fn id_of(value: &PropertyValue) -> &str {
    match value {
        PropertyValue::Title { id, .. }
        | PropertyValue::Text { id, .. }
        | PropertyValue::Select { id, .. }
        | PropertyValue::Status { id, .. }
        | PropertyValue::Date { id, .. }
        | PropertyValue::Relation { id, .. } => id,
    }
}

#[test]
fn field_names_are_the_six_of_the_database() {
    assert_eq!(TITLE_FIELD, "名前");
    assert_eq!(STATUS_FIELD, "ステータス");
    assert_eq!(CATEGORY_FIELD, "タスク種別");
    assert_eq!(PROJECT_FIELD, "プロジェクト");
    assert_eq!(DATE_FIELD, "実施予定日");
    assert_eq!(NOTE_FIELD, "気持ち");
    assert_eq!(NOT_STARTED, "未着手");
    assert_eq!(
        TASK_FIELDS,
        [TITLE_FIELD, STATUS_FIELD, CATEGORY_FIELD, PROJECT_FIELD, DATE_FIELD, NOTE_FIELD]
    );
}

#[test]
fn field_names_differ() {
    for i in 0..TASK_FIELDS.len() {
        for j in 0..i {
            assert_ne!(TASK_FIELDS[i], TASK_FIELDS[j]);
        }
    }
}

#[test]
fn page_properties_has_six_entries() {
    let props = page_properties("write report", sample_ids());
    assert_eq!(props.len(), 6);
    for name in TASK_FIELDS {
        assert!(props.contains_key(name));
    }
    assert!(!props.contains_key("title"));
    assert!(props.get("title").is_none());
}

#[test]
fn page_properties_title_holds_the_task_name() {
    let props = page_properties("write report", sample_ids());
    assert_eq!(
        props.get(TITLE_FIELD),
        Some(&PropertyValue::Title {
            id: "id-title".to_string(),
            title: vec![bare_text("write report")],
        })
    );
}

#[test]
fn page_properties_status_is_not_started() {
    let props = page_properties("write report", sample_ids());
    assert_eq!(
        props.get(STATUS_FIELD),
        Some(&PropertyValue::Status {
            id: "id-status".to_string(),
            status: Some(SelectedValue {
                id: None,
                name: Some("未着手".to_string()),
                color: Color::Default,
            }),
        })
    );
}

#[test]
fn page_properties_leaves_the_rest_empty() {
    let props = page_properties("write report", sample_ids());
    assert_eq!(
        props.get(CATEGORY_FIELD),
        Some(&PropertyValue::Select { id: "id-category".to_string(), select: None })
    );
    assert_eq!(
        props.get(PROJECT_FIELD),
        Some(&PropertyValue::Relation { id: "id-project".to_string(), relation: Some(vec![]) })
    );
    assert_eq!(
        props.get(DATE_FIELD),
        Some(&PropertyValue::Date { id: "id-date".to_string(), date: None })
    );
    assert_eq!(
        props.get(NOTE_FIELD),
        Some(&PropertyValue::Text { id: "id-note".to_string(), rich_text: vec![] })
    );
}

#[test]
fn page_properties_keeps_an_empty_name() {
    let props = page_properties("", sample_ids());
    assert_eq!(
        props.get(TITLE_FIELD),
        Some(&PropertyValue::Title { id: "id-title".to_string(), title: vec![bare_text("")] })
    );
}

#[test]
fn page_properties_keeps_a_name_beyond_ascii() {
    let props = page_properties("牛乳を買う\n2本", sample_ids());
    assert_eq!(
        props.get(TITLE_FIELD),
        Some(&PropertyValue::Title {
            id: "id-title".to_string(),
            title: vec![bare_text("牛乳を買う\n2本")],
        })
    );
}

#[test]
fn create_page_req_builds_the_task_record() {
    let props = create_page_req("water the plants");
    assert_eq!(props.len(), 6);
    let mut ids = PropertyIds {
        title: String::new(),
        status: String::new(),
        category: String::new(),
        project: String::new(),
        date: String::new(),
        note: String::new(),
    };
    ids.title = id_of(props.get(TITLE_FIELD).unwrap()).to_string();
    ids.status = id_of(props.get(STATUS_FIELD).unwrap()).to_string();
    ids.category = id_of(props.get(CATEGORY_FIELD).unwrap()).to_string();
    ids.project = id_of(props.get(PROJECT_FIELD).unwrap()).to_string();
    ids.date = id_of(props.get(DATE_FIELD).unwrap()).to_string();
    ids.note = id_of(props.get(NOTE_FIELD).unwrap()).to_string();
    let expected = page_properties("water the plants", ids);
    for name in TASK_FIELDS {
        assert_eq!(props.get(name), expected.get(name));
    }
}

#[test]
fn create_page_req_ids_are_random_uuid_texts() {
    let props = create_page_req("water the plants");
    for name in TASK_FIELDS {
        let id = id_of(props.get(name).unwrap());
        assert!(is_uuid_v4_text(id), "{} has the id {:?}", name, id);
    }
}

#[test]
fn create_page_req_ids_parse_as_version_four() {
    let props = create_page_req("water the plants");
    for name in TASK_FIELDS {
        let id = id_of(props.get(name).unwrap());
        let parsed = uuid::Uuid::parse_str(id).unwrap();
        assert_eq!(parsed.get_version_num(), 4);
        assert_eq!(parsed.to_string(), id);
    }
}

#[test]
fn create_page_req_ids_are_fresh() {
    let first = create_page_req("a");
    let second = create_page_req("a");
    assert_ne!(
        id_of(first.get(TITLE_FIELD).unwrap()),
        id_of(second.get(TITLE_FIELD).unwrap())
    );
    assert_ne!(
        id_of(first.get(TITLE_FIELD).unwrap()),
        id_of(first.get(STATUS_FIELD).unwrap())
    );
}
