//! The editing logic of the web front end: the card that edits or deletes a
//! task, and the form that creates one. Each takes an event from the page and
//! gives back the request to send, if any; the page sends it and reports how
//! it went.
use vstd::prelude::*;
use crate::json::{delete_body, delete_body_spec, task_body, task_body_spec};
use crate::model::{empty_task, TaskProp, TodoModel};
use crate::number::{
    decimal_text, lemma_parse_decimal_roundtrip, parse_i32_spec, parse_or_zero, parse_or_zero_spec,
};

verus! {

/// What the user typed into one field of a task form.
pub enum FieldInput {
    Description(String),
    Date(String),
    Percent(String),
}

/// The task after one field was typed into: the description and the date
/// take the text, the percent takes the number read from it, or 0.
pub open spec fn with_input(t: TodoModel, input: FieldInput) -> TodoModel {
    match input {
        FieldInput::Description(v) => TodoModel { inhalt: v@, ..t },
        FieldInput::Date(v) => TodoModel { date: v@, ..t },
        FieldInput::Percent(v) => TodoModel { percent: parse_or_zero_spec(v@), ..t },
    }
}

/// Writes what the user typed into the task being edited.
pub fn apply_input(task: &mut TaskProp, input: FieldInput)
    ensures
        final(task)@ == with_input(old(task)@, input),
{
    match input {
        FieldInput::Description(v) => {
            task.inhalt = v;
        },
        FieldInput::Date(v) => {
            task.date = v;
        },
        FieldInput::Percent(v) => {
            task.percent = parse_or_zero(v.as_str());
        },
    }
}

/// A request for the service, with its JSON body.
pub enum Request {
    Nothing,
    Create(String),
    Update(String),
    Delete(String),
}

/// The value of a request.
pub enum RequestModel {
    Nothing,
    Create(Seq<char>),
    Update(Seq<char>),
    Delete(Seq<char>),
}

impl View for Request {
    type V = RequestModel;

    open spec fn view(&self) -> RequestModel {
        match self {
            Request::Nothing => RequestModel::Nothing,
            Request::Create(b) => RequestModel::Create(b@),
            Request::Update(b) => RequestModel::Update(b@),
            Request::Delete(b) => RequestModel::Delete(b@),
        }
    }
}

/// What happens on the card of a task.
pub enum TaskEvent {
    /// The edit button, or the close button of the edit dialog.
    ToggleEdit,
    /// Typing into a field of the edit dialog.
    Input(FieldInput),
    /// Saving the edit dialog.
    Submit,
    /// The update request came back (`true`) or could not be sent (`false`).
    UpdateFinished(bool),
    /// The delete button.
    Delete,
}

/// The state of a task card: the task it shows, whether its edit dialog is
/// open, and the task as edited so far (which starts from the task the card
/// was first given).
pub struct EditorModel {
    pub props: TodoModel,
    pub is_editing: bool,
    pub edited: TodoModel,
}

/// The card of one task.
pub struct TaskEditor {
    props: TaskProp,
    is_editing: bool,
    edited: TaskProp,
}

impl View for TaskEditor {
    type V = EditorModel;

    closed spec fn view(&self) -> EditorModel {
        EditorModel { props: self.props@, is_editing: self.is_editing, edited: self.edited@ }
    }
}

/// The card's state after an event.
pub open spec fn editor_next(m: EditorModel, e: TaskEvent) -> EditorModel {
    match e {
        TaskEvent::ToggleEdit => EditorModel { is_editing: !m.is_editing, ..m },
        TaskEvent::Input(i) => EditorModel { edited: with_input(m.edited, i), ..m },
        TaskEvent::Submit => m,
        TaskEvent::UpdateFinished(sent) => if sent {
            EditorModel { is_editing: false, ..m }
        } else {
            m
        },
        TaskEvent::Delete => m,
    }
}

/// The request that an event on the card sends: saving sends the edited
/// task, deleting names the id of the task the card shows.
pub open spec fn editor_request(m: EditorModel, e: TaskEvent) -> RequestModel {
    match e {
        TaskEvent::Submit => RequestModel::Update(task_body_spec(m.edited)),
        TaskEvent::Delete => RequestModel::Delete(delete_body_spec(m.props.id)),
        _ => RequestModel::Nothing,
    }
}

impl TaskEditor {
    /// A closed card for `props`, whose edit starts from the task as given.
    pub fn new(props: TaskProp) -> (r: Self)
        ensures
            r@ == (EditorModel { props: props@, is_editing: false, edited: props@ }),
    {
        let edited = props.clone();
        TaskEditor { props, is_editing: false, edited }
    }

    /// Shows the card for `props`, the task as the latest render of the list
    /// gives it; the edit and whether the dialog is open stay as they were.
    pub fn set_props(&mut self, props: TaskProp)
        ensures
            final(self)@ == (EditorModel { props: props@, ..old(self)@ }),
    {
        self.props = props;
    }

    /// The task the card shows.
    pub fn props(&self) -> (r: &TaskProp)
        ensures
            r@ == self@.props,
    {
        &self.props
    }

    /// Whether the edit dialog is open.
    pub fn is_editing(&self) -> (r: bool)
        ensures
            r == self@.is_editing,
    {
        self.is_editing
    }

    /// The task as edited so far.
    pub fn edited(&self) -> (r: &TaskProp)
        ensures
            r@ == self@.edited,
    {
        &self.edited
    }

    /// Takes one event and gives back the request to send.
    pub fn step(&mut self, event: TaskEvent) -> (r: Request)
        ensures
            final(self)@ == editor_next(old(self)@, event),
            r@ == editor_request(old(self)@, event),
    {
        match event {
            TaskEvent::ToggleEdit => {
                self.is_editing = !self.is_editing;
                Request::Nothing
            },
            TaskEvent::Input(i) => {
                apply_input(&mut self.edited, i);
                Request::Nothing
            },
            TaskEvent::Submit => Request::Update(task_body(&self.edited)),
            TaskEvent::UpdateFinished(sent) => {
                if sent {
                    self.is_editing = false;
                }
                Request::Nothing
            },
            TaskEvent::Delete => Request::Delete(delete_body(self.props.id)),
        }
    }
}

/// What happens in the form that creates a task.
pub enum FormEvent {
    /// Typing into a field of the form.
    Input(FieldInput),
    /// Submitting the form.
    Submit,
    /// The create request came back (`true`) or could not be sent (`false`).
    CreateFinished(bool),
}

/// The form's task after an event: a create request that came back empties
/// the form.
pub open spec fn form_next(t: TodoModel, e: FormEvent) -> TodoModel {
    match e {
        FormEvent::Input(i) => with_input(t, i),
        FormEvent::Submit => t,
        FormEvent::CreateFinished(sent) => if sent {
            empty_task()
        } else {
            t
        },
    }
}

/// The request that an event in the form sends.
pub open spec fn form_request(t: TodoModel, e: FormEvent) -> RequestModel {
    match e {
        FormEvent::Submit => RequestModel::Create(task_body_spec(t)),
        _ => RequestModel::Nothing,
    }
}

/// The form that creates a task.
pub struct NewTaskForm {
    task: TaskProp,
}

impl View for NewTaskForm {
    type V = TodoModel;

    closed spec fn view(&self) -> TodoModel {
        self.task@
    }
}

impl NewTaskForm {
    /// An empty form.
    pub fn new() -> (r: Self)
        ensures
            r@ == empty_task(),
    {
        NewTaskForm { task: TaskProp::default() }
    }

    /// The task as typed so far.
    pub fn typed_task(&self) -> (r: &TaskProp)
        ensures
            r@ == self@,
    {
        &self.task
    }

    /// Takes one event and gives back the request to send.
    pub fn step(&mut self, event: FormEvent) -> (r: Request)
        ensures
            final(self)@ == form_next(old(self)@, event),
            r@ == form_request(old(self)@, event),
    {
        match event {
            FormEvent::Input(i) => {
                apply_input(&mut self.task, i);
                Request::Nothing
            },
            FormEvent::Submit => Request::Create(task_body(&self.task)),
            FormEvent::CreateFinished(sent) => {
                if sent {
                    self.task = TaskProp::default();
                }
                Request::Nothing
            },
        }
    }
}

/// Opening and closing the edit dialog leaves the card as it was.
pub proof fn lemma_toggle_twice(m: EditorModel)
    ensures
        editor_next(editor_next(m, TaskEvent::ToggleEdit), TaskEvent::ToggleEdit) == m,
{
}

/// No event changes the task a card shows nor the id of the task being
/// edited, and deleting names the id of the task the card shows.
pub proof fn lemma_editor_keeps_task(m: EditorModel, e: TaskEvent)
    ensures
        editor_next(m, e).props == m.props,
        editor_next(m, e).edited.id == m.edited.id,
        editor_request(m, e) matches RequestModel::Delete(b) ==> b == delete_body_spec(m.props.id),
{
}

/// The card after `n` clicks on its edit or close buttons.
pub open spec fn toggled(m: EditorModel, n: nat) -> EditorModel
    decreases n,
{
    if n == 0 {
        m
    } else {
        editor_next(toggled(m, (n - 1) as nat), TaskEvent::ToggleEdit)
    }
}

/// After `n` clicks on the edit or close buttons the dialog is open exactly
/// when `n` is odd, and nothing else about the card changed; a new card
/// starts closed, editing the task it was given.
pub proof fn lemma_toggles(m: EditorModel, n: nat)
    ensures
        toggled(m, n) == (EditorModel {
            is_editing: if n % 2 == 1 {
                !m.is_editing
            } else {
                m.is_editing
            },
            ..m
        }),
        m.is_editing == false ==> toggled(m, n).is_editing == (n % 2 == 1),
    decreases n,
{
    if n > 0 {
        lemma_toggles(m, (n - 1) as nat);
    }
}

/// Typing into one field changes that field alone, so typing into two
/// different fields gives the same task in either order.
pub proof fn lemma_inputs_commute(t: TodoModel, a: FieldInput, b: FieldInput)
    requires
        !(a is Description && b is Description),
        !(a is Date && b is Date),
        !(a is Percent && b is Percent),
    ensures
        with_input(t, a).id == t.id,
        with_input(with_input(t, a), b) == with_input(with_input(t, b), a),
{
}

/// Submitting the percent field with the text it shows leaves the percent
/// unchanged.
pub proof fn lemma_shown_percent_kept(t: TodoModel, v: String)
    requires
        v@ == decimal_text(t.percent as int),
    ensures
        with_input(t, FieldInput::Percent(v)) == t,
{
    lemma_parse_decimal_roundtrip(t.percent);
}

/// Saving sends the edited task; once the update came back the dialog is
/// closed and the edit is kept.
pub proof fn lemma_save_cycle(m: EditorModel)
    ensures
        editor_request(m, TaskEvent::Submit) == RequestModel::Update(task_body_spec(m.edited)),
        editor_next(editor_next(m, TaskEvent::Submit), TaskEvent::UpdateFinished(true))
            == (EditorModel { is_editing: false, ..m }),
{
}

/// Submitting the form sends the task as typed; once the create request came
/// back the form is empty again, and a request that could not be sent keeps
/// what was typed.
pub proof fn lemma_create_cycle(t: TodoModel)
    ensures
        form_request(t, FormEvent::Submit) == RequestModel::Create(task_body_spec(t)),
        form_next(form_next(t, FormEvent::Submit), FormEvent::CreateFinished(true)) == empty_task(),
        form_next(form_next(t, FormEvent::Submit), FormEvent::CreateFinished(false)) == t,
{
}

/// The form's task after a run of events.
pub open spec fn form_run(t: TodoModel, events: Seq<FormEvent>) -> TodoModel
    decreases events.len(),
{
    if events.len() == 0 {
        t
    } else {
        form_next(form_run(t, events.drop_last()), events.last())
    }
}

/// No event sets the id of the form's task: starting from the empty form, the
/// id stays 0 through any run of events, and every create request carries id 0.
pub proof fn lemma_form_id_stays_zero(events: Seq<FormEvent>, e: FormEvent)
    ensures
        form_run(empty_task(), events).id == 0,
        form_request(form_run(empty_task(), events), e) matches RequestModel::Create(b) ==> b
            == task_body_spec(TodoModel { id: 0, ..form_run(empty_task(), events) }),
    decreases events.len(),
{
    if events.len() > 0 {
        lemma_form_id_stays_zero(events.drop_last(), e);
    }
}

/// Only saving and deleting send anything from a card: saving sends an
/// update of the edited task, deleting a delete of the shown task's id, and
/// opening or closing the dialog, typing, and the answer to an update send
/// nothing.
pub proof fn lemma_card_requests(m: EditorModel, e: TaskEvent)
    ensures
        (editor_request(m, e) is Update) <==> (e is Submit),
        (editor_request(m, e) is Delete) <==> (e is Delete),
        (editor_request(m, e) is Create) == false,
        (e is ToggleEdit || e is Input || e is UpdateFinished) ==> editor_request(m, e)
            == RequestModel::Nothing,
        e is Submit ==> editor_request(m, e) == RequestModel::Update(task_body_spec(m.edited)),
        e is Delete ==> editor_request(m, e) == RequestModel::Delete(delete_body_spec(m.props.id)),
{
}

/// Only submitting the form sends anything, and what it sends is a create of
/// the task as typed; typing and the answer to a create send nothing.
pub proof fn lemma_form_requests(t: TodoModel, e: FormEvent)
    ensures
        (form_request(t, e) is Create) <==> (e is Submit),
        (e is Input || e is CreateFinished) ==> form_request(t, e) == RequestModel::Nothing,
        e is Submit ==> form_request(t, e) == RequestModel::Create(task_body_spec(t)),
        !(form_request(t, e) is Update) && !(form_request(t, e) is Delete),
{
}

/// Typing into a field sets that field from the typed text alone, whatever it
/// held before, and leaves the other fields as they were: the description
/// and the date take the text; the percent takes the number the text
/// denotes (any `i32`, 0 among them), or 0 where the text is no number.
pub proof fn lemma_input_sets_field(t: TodoModel, u: TodoModel, v: String)
    ensures
        with_input(t, FieldInput::Description(v)).inhalt == v@,
        with_input(t, FieldInput::Date(v)).date == v@,
        with_input(t, FieldInput::Percent(v)).percent == with_input(u, FieldInput::Percent(v)).percent,
        parse_i32_spec(v@) is None ==> with_input(t, FieldInput::Percent(v)).percent == 0,
        parse_i32_spec(v@) matches Some(n) ==> with_input(t, FieldInput::Percent(v)).percent == n,
        with_input(t, FieldInput::Description(v)) == (TodoModel { inhalt: v@, ..t }),
        with_input(t, FieldInput::Date(v)) == (TodoModel { date: v@, ..t }),
        with_input(t, FieldInput::Percent(v)).id == t.id,
        with_input(t, FieldInput::Percent(v)).date == t.date,
        with_input(t, FieldInput::Percent(v)).inhalt == t.inhalt,
{
}

/// Typing the decimal text of any number `n` into the percent field sets the
/// percent to `n`, whatever it was before.
pub proof fn lemma_typed_number_is_percent(t: TodoModel, v: String, n: i32)
    requires
        v@ == decimal_text(n as int),
    ensures
        with_input(t, FieldInput::Percent(v)).percent == n,
{
    lemma_parse_decimal_roundtrip(n);
}

} // verus!
