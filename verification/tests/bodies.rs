use todos::json::{delete_body, task_body};
use todos::model::TaskProp;

fn task(id: i32, date: &str, inhalt: &str, percent: i32) -> TaskProp {
    TaskProp { id, date: date.to_string(), inhalt: inhalt.to_string(), percent }
}

fn serde_json_object(t: &TaskProp) -> String {
    let mut m = serde_json::Map::new();
    m.insert("id".to_string(), serde_json::Value::from(t.id));
    m.insert("date".to_string(), serde_json::Value::from(t.date.clone()));
    m.insert("inhalt".to_string(), serde_json::Value::from(t.inhalt.clone()));
    m.insert("percent".to_string(), serde_json::Value::from(t.percent));
    serde_json::Value::Object(m).to_string()
}

#[test]
fn task_body_exact() {
    let t = task(3, "2024-05-01", "Buy milk", 40);
    assert_eq!(task_body(&t), r#"{"date":"2024-05-01","id":3,"inhalt":"Buy milk","percent":40}"#);
}

#[test]
fn task_body_of_default_task() {
    assert_eq!(task_body(&TaskProp::default()), r#"{"date":"","id":0,"inhalt":"","percent":0}"#);
}

#[test]
fn task_body_escapes_strings() {
    let t = task(-1, "a\"b", "line\nbreak \\ end", -5);
    assert_eq!(task_body(&t), r#"{"date":"a\"b","id":-1,"inhalt":"line\nbreak \\ end","percent":-5}"#);
}

#[test]
fn task_body_matches_serde_json_value() {
    for t in [
        task(1, "2024-01-01", "Write report", 0),
        task(2147483647, "", "ümlaut ✓", 100),
        task(-2147483648, "tab\there", "quote\"", 55),
    ] {
        assert_eq!(task_body(&t), serde_json_object(&t));
        let back: serde_json::Value = serde_json::from_str(&task_body(&t)).unwrap();
        assert_eq!(back["id"], t.id);
        assert_eq!(back["inhalt"], t.inhalt.as_str());
    }
}

#[test]
fn delete_body_exact() {
    assert_eq!(delete_body(5), r#"{"id":5}"#);
    assert_eq!(delete_body(-12), r#"{"id":-12}"#);
}

#[test]
fn task_body_escapes_control_characters() {
    let t = task(1, "\u{8}\u{c}\r\t", "\u{1}\u{1f}\u{7f}/", 2);
    assert_eq!(task_body(&t), "{\"date\":\"\\b\\f\\r\\t\",\"id\":1,\"inhalt\":\"\\u0001\\u001f\u{7f}/\",\"percent\":2}");
    assert_eq!(task_body(&t), serde_json_object(&t));
}
