use notion_todo::listing::{list_tasks, ListedProperty, RULE, RULE_WIDTH};

fn property(name: &str, value: &str) -> ListedProperty {
    ListedProperty { name: name.to_string(), value: value.to_string() }
}

fn rule() -> String {
    "-".repeat(117)
}

#[test]
fn rule_is_117_hyphens() {
    assert_eq!(RULE_WIDTH, 117);
    assert_eq!(RULE.len(), 117);
    assert!(RULE.chars().all(|c| c == '-'));
    assert_eq!(RULE, rule());
}

#[test]
fn empty_listing_is_empty_text() {
    assert_eq!(list_tasks(&vec![]), "");
}

#[test]
fn task_without_properties_is_a_rule() {
    assert_eq!(list_tasks(&vec![vec![]]), format!("{}\n", rule()));
}

#[test]
fn one_property_takes_four_lines() {
    let tasks = vec![vec![property("Name", "Title { id: 1 }")]];
    assert_eq!(list_tasks(&tasks), format!(" Name\nTitle {{ id: 1 }}\n\n\n{}\n", rule()));
}

#[test]
fn properties_keep_their_order() {
    let tasks = vec![vec![property("b", "2"), property("a", "1")]];
    assert_eq!(list_tasks(&tasks), format!(" b\n2\n\n\n a\n1\n\n\n{}\n", rule()));
}

#[test]
fn tasks_follow_one_another() {
    let tasks = vec![
        vec![property("名前", "x")],
        vec![],
        vec![property("p", ""), property("", "q")],
    ];
    let expected = format!(
        " 名前\nx\n\n\n{r}\n{r}\n p\n\n\n\n \nq\n\n\n{r}\n",
        r = rule()
    );
    assert_eq!(list_tasks(&tasks), expected);
}

#[test]
fn listing_matches_line_by_line_printing() {
    let tasks = vec![
        vec![property("one", "1"), property("two", "2")],
        vec![property("three", "3")],
    ];
    let mut expected = String::new();
    for task in &tasks {
        for p in task {
            expected.push_str(&format!(" {}\n{}\n\n", p.name, p.value));
            expected.push('\n');
        }
        expected.push_str(&rule());
        expected.push('\n');
    }
    assert_eq!(list_tasks(&tasks), expected);
}
