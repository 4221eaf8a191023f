use manga_extensions::input::{clone_inputs, merge_preferences, Input, InputType};

fn text(name: &str, state: Option<&str>) -> Input {
    Input::Text { name: name.to_string(), state: state.map(|s| s.to_string()) }
}

fn select(name: &str, state: Option<i64>) -> Input {
    Input::Select {
        name: name.to_string(),
        values: vec![InputType::Text("a".to_string()), InputType::Number("2".to_string()), InputType::Boolean(true)],
        state,
    }
}

fn multi(name: &str, state: Vec<i64>) -> Input {
    Input::MultiSelect { name: name.to_string(), values: vec![], state }
}

fn shown(inputs: &Vec<Input>) -> Vec<String> {
    inputs.iter().map(|i| format!("{:?}", i)).collect()
}

#[test]
fn equality_is_by_name_and_kind() {
    assert!(text("A", None) == text("A", Some("x")));
    assert!(text("A", None) != text("B", None));
    assert!(text("A", None) != select("A", None));
    assert!(select("A", Some(1)) == select("A", None));
    assert!(multi("A", vec![1]) == multi("A", vec![]));
    assert!(multi("A", vec![]) != select("A", None));
    assert_eq!(text("Name", None).name(), "Name");
    assert_eq!(select("Other", None).name(), "Other");
}

#[test]
fn merge_updates_matching_and_leaves_the_rest() {
    let mut stored = vec![text("A", None), select("B", None), text("C", Some("keep"))];
    merge_preferences(
        &mut stored,
        vec![select("A", Some(1)), text("A", Some("new")), text("Unknown", Some("x")), select("B", Some(2))],
    );
    assert_eq!(
        shown(&stored),
        shown(&vec![text("A", Some("new")), select("B", Some(2)), text("C", Some("keep"))])
    );
}

#[test]
fn merge_takes_the_last_of_several_updates() {
    let mut stored = vec![text("A", None), text("A", Some("twin"))];
    merge_preferences(&mut stored, vec![text("A", Some("1")), text("A", Some("2"))]);
    assert_eq!(shown(&stored), shown(&vec![text("A", Some("2")), text("A", Some("2"))]));
}

#[test]
fn merge_is_idempotent() {
    let updates = || vec![text("A", Some("new")), multi("M", vec![3, 1]), select("Nope", Some(0))];
    let mut once = vec![text("A", None), multi("M", vec![]), select("B", None)];
    merge_preferences(&mut once, updates());
    let mut twice = clone_inputs(&once);
    merge_preferences(&mut twice, updates());
    assert_eq!(shown(&once), shown(&twice));
    assert_eq!(shown(&once), shown(&vec![text("A", Some("new")), multi("M", vec![3, 1]), select("B", None)]));
}

#[test]
fn merge_with_nothing_changes_nothing() {
    let mut stored = vec![text("A", Some("x"))];
    merge_preferences(&mut stored, vec![]);
    assert_eq!(shown(&stored), shown(&vec![text("A", Some("x"))]));
    let mut empty: Vec<Input> = vec![];
    merge_preferences(&mut empty, vec![text("A", Some("x"))]);
    assert!(empty.is_empty());
}

#[test]
fn clone_keeps_everything() {
    let inputs = vec![text("A", Some("x")), select("B", Some(2)), multi("C", vec![0, 2])];
    assert_eq!(shown(&clone_inputs(&inputs)), shown(&inputs));
    assert_eq!(format!("{:?}", inputs[1].clone()), format!("{:?}", inputs[1]));
}
