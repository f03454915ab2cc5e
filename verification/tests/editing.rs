use todos::editor::{apply_input, FieldInput, FormEvent, NewTaskForm, Request, TaskEditor, TaskEvent};
use todos::model::TaskProp;

fn task() -> TaskProp {
    TaskProp { id: 9, date: "2024-06-01".to_string(), inhalt: "Paint fence".to_string(), percent: 30 }
}

fn body(r: Request) -> Option<(&'static str, String)> {
    match r {
        Request::Nothing => None,
        Request::Create(b) => Some(("create", b)),
        Request::Update(b) => Some(("update", b)),
        Request::Delete(b) => Some(("delete", b)),
    }
}

#[test]
fn inputs_change_one_field() {
    let mut t = task();
    apply_input(&mut t, FieldInput::Description("Paint gate".to_string()));
    assert_eq!(t.inhalt, "Paint gate");
    apply_input(&mut t, FieldInput::Date("2024-07-01".to_string()));
    assert_eq!(t.date, "2024-07-01");
    apply_input(&mut t, FieldInput::Percent("80".to_string()));
    assert_eq!(t.percent, 80);
    apply_input(&mut t, FieldInput::Percent("eighty".to_string()));
    assert_eq!(t.percent, 0);
    assert_eq!(t.id, 9);
}

#[test]
fn toggling_opens_and_closes() {
    let mut e = TaskEditor::new(task());
    assert!(!e.is_editing());
    assert!(body(e.step(TaskEvent::ToggleEdit)).is_none());
    assert!(e.is_editing());
    e.step(TaskEvent::ToggleEdit);
    assert!(!e.is_editing());
}

#[test]
fn save_sends_edited_task_and_closes() {
    let mut e = TaskEditor::new(task());
    e.step(TaskEvent::ToggleEdit);
    e.step(TaskEvent::Input(FieldInput::Percent("100".to_string())));
    assert_eq!(e.props().percent, 30);
    let r = body(e.step(TaskEvent::Submit)).unwrap();
    assert_eq!(r.0, "update");
    assert_eq!(r.1, r#"{"date":"2024-06-01","id":9,"inhalt":"Paint fence","percent":100}"#);
    assert!(e.is_editing());
    e.step(TaskEvent::UpdateFinished(false));
    assert!(e.is_editing());
    e.step(TaskEvent::UpdateFinished(true));
    assert!(!e.is_editing());
    assert_eq!(e.edited().percent, 100);
}

#[test]
fn delete_names_the_card_task() {
    let mut e = TaskEditor::new(task());
    let r = body(e.step(TaskEvent::Delete)).unwrap();
    assert_eq!(r, ("delete", r#"{"id":9}"#.to_string()));
}

#[test]
fn new_form_creates_and_resets() {
    let mut f = NewTaskForm::new();
    f.step(FormEvent::Input(FieldInput::Description("Buy bread".to_string())));
    f.step(FormEvent::Input(FieldInput::Date("2024-08-08".to_string())));
    f.step(FormEvent::Input(FieldInput::Percent("5".to_string())));
    let r = body(f.step(FormEvent::Submit)).unwrap();
    assert_eq!(r.0, "create");
    assert_eq!(r.1, r#"{"date":"2024-08-08","id":0,"inhalt":"Buy bread","percent":5}"#);
    f.step(FormEvent::CreateFinished(false));
    assert_eq!(f.typed_task().inhalt, "Buy bread");
    f.step(FormEvent::CreateFinished(true));
    assert_eq!(f.typed_task().inhalt, "");
    assert_eq!(f.typed_task().date, "");
    assert_eq!(f.typed_task().percent, 0);
    assert_eq!(f.typed_task().id, 0);
}

#[test]
fn shown_percent_is_kept() {
    let mut t = task();
    let shown = t.percent.to_string();
    apply_input(&mut t, FieldInput::Percent(shown));
    assert_eq!(t.percent, 30);
}

#[test]
fn inputs_commute_on_different_fields() {
    let mut a = task();
    apply_input(&mut a, FieldInput::Date("2025-01-01".to_string()));
    apply_input(&mut a, FieldInput::Description("X".to_string()));
    let mut b = task();
    apply_input(&mut b, FieldInput::Description("X".to_string()));
    apply_input(&mut b, FieldInput::Date("2025-01-01".to_string()));
    assert_eq!((a.id, a.date, a.inhalt, a.percent), (b.id, b.date, b.inhalt, b.percent));
}

#[test]
fn delete_names_the_task_shown_now() {
    let mut e = TaskEditor::new(task());
    e.step(TaskEvent::ToggleEdit);
    e.step(TaskEvent::Input(FieldInput::Description("Paint door".to_string())));
    let shown = TaskProp { id: 12, date: "2024-09-09".to_string(), inhalt: "Walk dog".to_string(), percent: 60 };
    e.set_props(shown);
    assert_eq!(e.props().id, 12);
    assert!(e.is_editing());
    assert_eq!(e.edited().id, 9);
    assert_eq!(e.edited().inhalt, "Paint door");
    let r = body(e.step(TaskEvent::Delete)).unwrap();
    assert_eq!(r, ("delete", r#"{"id":12}"#.to_string()));
}

#[test]
fn many_toggles_open_iff_odd() {
    let mut e = TaskEditor::new(task());
    for n in 1..8 {
        e.step(TaskEvent::ToggleEdit);
        assert_eq!(e.is_editing(), n % 2 == 1);
        assert_eq!(e.edited().inhalt, "Paint fence");
    }
}

#[test]
fn form_sends_id_zero() {
    let mut f = NewTaskForm::new();
    f.step(FormEvent::Input(FieldInput::Percent("12".to_string())));
    f.step(FormEvent::CreateFinished(true));
    f.step(FormEvent::Input(FieldInput::Description("A".to_string())));
    let r = body(f.step(FormEvent::Submit)).unwrap();
    assert_eq!(r.1, r#"{"date":"","id":0,"inhalt":"A","percent":0}"#);
    assert_eq!(f.typed_task().id, 0);
}
