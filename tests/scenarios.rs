use wildo::app::{ActionError, App, AppAction, Feature};
use wildo::content::todo::{Date, Todo, TodoStatus};
use wildo::content::todo_list::{ListenTarget, TodoList};
use wildo::content::traits::{Content, Row, WidgetOutput};
use wildo::input::{Event, KeyCode};
use wildo::register::Id;
use wildo::service::editors::{EditContext, Yank};
use wildo::traits::{Display, EventAction};

fn press(app: &mut App, e: Event) {
    app.handle_event(&e).expect("event applies");
}

fn type_text(app: &mut App, s: &str) {
    for c in s.chars() {
        let e = if c.is_uppercase() { Event::shift(KeyCode::Char(c)) } else { Event::plain(KeyCode::Char(c)) };
        press(app, e);
    }
}

fn root(app: &App) -> &TodoList {
    let id = app.context.stack.main_provider();
    match app.context.register.get(id) {
        Some(Content::TodoList(l)) => l,
        _ => panic!("root is a list"),
    }
}

fn todo(app: &App, id: Id) -> &Todo {
    match app.context.register.get(id) {
        Some(Content::Todo(t)) => t,
        _ => panic!("a to-do"),
    }
}

fn add_item(app: &mut App, text: &str) {
    press(app, Event::plain(KeyCode::Char('a')));
    type_text(app, text);
    press(app, Event::plain(KeyCode::Enter));
}

#[test]
fn empty_text_rolls_back_creation() {
    let mut app = App::new(String::from("Wildo"));
    assert_eq!(root(&app).items().len(), 0);
    press(&mut app, Event::plain(KeyCode::Char('a')));
    assert_eq!(root(&app).items().len(), 1);
    let created = root(&app).items()[0];
    assert!(app.context.register.get(created).is_some());
    assert!(root(&app).is_listening());
    assert_eq!(root(&app).listen_target(), ListenTarget::ContentCreate);
    press(&mut app, Event::plain(KeyCode::Enter));
    assert_eq!(root(&app).items().len(), 0);
    assert!(!root(&app).is_listening());
    assert!(app.context.register.get(created).is_none());
}

#[test]
fn spaces_only_text_rolls_back_creation() {
    let mut app = App::new(String::from("Wildo"));
    add_item(&mut app, "   ");
    assert_eq!(root(&app).items().len(), 0);
}

#[test]
fn escape_rolls_back_creation() {
    let mut app = App::new(String::from("Wildo"));
    press(&mut app, Event::plain(KeyCode::Char('a')));
    type_text(&mut app, "half");
    let created = root(&app).items()[0];
    press(&mut app, Event::plain(KeyCode::Esc));
    assert_eq!(root(&app).items().len(), 0);
    assert!(app.context.register.get(created).is_none());
}

#[test]
fn typed_item_is_added() {
    let mut app = App::new(String::from("Wildo"));
    add_item(&mut app, "Buy milk");
    let items = root(&app).items().clone();
    assert_eq!(items.len(), 1);
    assert_eq!(todo(&app, items[0]).text(), "Buy milk");
    assert_eq!(app.context.editor.edit_stack.len(), 1);
}

#[test]
fn typed_text_is_trimmed() {
    let mut app = App::new(String::from("Wildo"));
    add_item(&mut app, "  Buy milk  ");
    let items = root(&app).items().clone();
    assert_eq!(todo(&app, items[0]).text(), "Buy milk");
}

#[test]
fn move_down_swaps_and_follows() {
    let mut app = App::new(String::from("Wildo"));
    add_item(&mut app, "first");
    add_item(&mut app, "second");
    let before = root(&app).items().clone();
    assert_eq!(todo(&app, before[0]).text(), "first");
    assert_eq!(todo(&app, before[1]).text(), "second");
    press(&mut app, Event::plain(KeyCode::Up));
    assert_eq!(root(&app).selected(), 0);
    press(&mut app, Event::ctrl(KeyCode::Char('j')));
    let after = root(&app).items().clone();
    assert_eq!(after, vec![before[1], before[0]]);
    assert_eq!(root(&app).selected(), 1);
    assert_eq!(after[root(&app).selected()], before[0]);
}

#[test]
fn move_up_swaps_and_follows() {
    let mut app = App::new(String::from("Wildo"));
    add_item(&mut app, "first");
    add_item(&mut app, "second");
    let before = root(&app).items().clone();
    assert_eq!(root(&app).selected(), 1);
    press(&mut app, Event::ctrl(KeyCode::Char('k')));
    assert_eq!(root(&app).items().clone(), vec![before[1], before[0]]);
    assert_eq!(root(&app).selected(), 0);
}

#[test]
fn invalid_date_leaves_due_date() {
    let mut app = App::new(String::from("Wildo"));
    add_item(&mut app, "pay rent");
    let id = root(&app).items()[0];
    press(&mut app, Event::shift(KeyCode::Char('D')));
    type_text(&mut app, "31-12-2024");
    press(&mut app, Event::plain(KeyCode::Enter));
    let set = Date { day: 31, month: 12, year: 2024 };
    assert_eq!(todo(&app, id).due_date, Some(set));
    press(&mut app, Event::shift(KeyCode::Char('D')));
    type_text(&mut app, "31-02-2024");
    press(&mut app, Event::plain(KeyCode::Enter));
    assert_eq!(todo(&app, id).due_date, Some(set));
}

#[test]
fn editing_due_date_starts_from_current() {
    let mut app = App::new(String::from("Wildo"));
    add_item(&mut app, "pay rent");
    let id = root(&app).items()[0];
    press(&mut app, Event::shift(KeyCode::Char('D')));
    type_text(&mut app, "01-02-2024");
    press(&mut app, Event::plain(KeyCode::Enter));
    press(&mut app, Event::plain(KeyCode::Char('d')));
    assert_eq!(root(&app).listen_target(), ListenTarget::DueDate);
    let line = root(&app).edit_line();
    assert_eq!(line.before, "01-02-2024");
    // Replace the day with 15.
    press(&mut app, Event::plain(KeyCode::Home));
    press(&mut app, Event::plain(KeyCode::Right));
    press(&mut app, Event::plain(KeyCode::Right));
    press(&mut app, Event::plain(KeyCode::Backspace));
    press(&mut app, Event::plain(KeyCode::Backspace));
    type_text(&mut app, "15");
    press(&mut app, Event::plain(KeyCode::Enter));
    assert_eq!(todo(&app, id).due_date, Some(Date { day: 15, month: 2, year: 2024 }));
}

#[test]
fn empty_due_date_clears_it() {
    let mut app = App::new(String::from("Wildo"));
    add_item(&mut app, "pay rent");
    let id = root(&app).items()[0];
    press(&mut app, Event::shift(KeyCode::Char('D')));
    type_text(&mut app, "01-02-2024");
    press(&mut app, Event::plain(KeyCode::Enter));
    press(&mut app, Event::shift(KeyCode::Char('D')));
    press(&mut app, Event::plain(KeyCode::Enter));
    assert_eq!(todo(&app, id).due_date, None);
}

#[test]
fn rename_item_with_i() {
    let mut app = App::new(String::from("Wildo"));
    add_item(&mut app, "milk");
    let id = root(&app).items()[0];
    press(&mut app, Event::plain(KeyCode::Char('i')));
    type_text(&mut app, "s");
    press(&mut app, Event::plain(KeyCode::Enter));
    assert_eq!(todo(&app, id).text(), "milks");
    // An empty edit keeps the text.
    press(&mut app, Event::plain(KeyCode::Char('i')));
    for _ in 0..5 {
        press(&mut app, Event::plain(KeyCode::Backspace));
    }
    press(&mut app, Event::plain(KeyCode::Enter));
    assert_eq!(todo(&app, id).text(), "milks");
}

#[test]
fn toggle_status_with_c() {
    let mut app = App::new(String::from("Wildo"));
    add_item(&mut app, "milk");
    let id = root(&app).items()[0];
    assert_eq!(todo(&app, id).status, TodoStatus::Pending);
    press(&mut app, Event::plain(KeyCode::Char('c')));
    assert_eq!(todo(&app, id).status, TodoStatus::Done);
    press(&mut app, Event::plain(KeyCode::Char('c')));
    assert_eq!(todo(&app, id).status, TodoStatus::Pending);
}

#[test]
fn quit_key_sets_quit() {
    let mut app = App::new(String::from("Wildo"));
    press(&mut app, Event::plain(KeyCode::Char('q')));
    assert!(app.quit);
}

#[test]
fn quit_key_is_text_while_editing() {
    let mut app = App::new(String::from("Wildo"));
    add_item(&mut app, "q");
    assert!(!app.quit);
    let id = root(&app).items()[0];
    assert_eq!(todo(&app, id).text(), "q");
}

#[test]
fn focus_does_not_enter_a_todo() {
    let mut app = App::new(String::from("Wildo"));
    add_item(&mut app, "milk");
    press(&mut app, Event::plain(KeyCode::Right));
    assert_eq!(app.context.stack.len(), 1);
    press(&mut app, Event::plain(KeyCode::Left));
    assert_eq!(app.context.stack.len(), 1);
}

#[test]
fn yank_moves_down_which_is_unsupported() {
    let mut app = App::new(String::from("Wildo"));
    let list = app.context.stack.main_provider();
    let r = app.context.editor.handle_events(
        &Event::plain(KeyCode::Char('y')),
        EditContext { source_id: list, item: Some(Yank { id: list, pos: 0 }) },
    );
    let a = match r {
        EventAction::Absorbed(a) => a,
        EventAction::Unabsorbed(_) => panic!("absorbed"),
    };
    assert_eq!(a.apply(&mut app.context), Err(ActionError::NotImplemented(Feature::MoveDown)));
    let clip = app.context.editor.yanker.as_ref().expect("a clipboard");
    assert_eq!(clip.yanks.len(), 1);
    assert_eq!(clip.source, list);
}

#[test]
fn edited_row_shows_the_line() {
    let mut app = App::new(String::from("Wildo"));
    add_item(&mut app, "milk");
    press(&mut app, Event::plain(KeyCode::Char('i')));
    press(&mut app, Event::plain(KeyCode::Left));
    let WidgetOutput::TodoList { content, date, .. } = root(&app).display(&app.context.register);
    match &content[0] {
        Row::Editing(line) => {
            assert_eq!(line.before, "mil");
            assert_eq!(line.at, 'k');
            assert_eq!(line.after, "");
        },
        Row::Text { .. } => panic!("the edited row"),
    }
    assert!(matches!(&date[0], Row::Text { .. }));
}
