use wildo::app::{ActionError, AppAction, AppActionContext, Command, Feature};
use wildo::content::todo::{read_due_date, next_due_date, Date, Todo};
use wildo::content::todo_list::{trim_spaces_chars, TodoList};
use wildo::content::traits::{Container, Content, Row, RowStyle, WidgetOutput};
use wildo::input::{Event, KeyCode};
use wildo::register::{ContentID, ContentRegister, Id};
use wildo::service::editors::{EditManager, Yank};
use wildo::service::insert_mode::{chars_of, InsertAction, InsertMode};
use wildo::stack::ContentStack;
use wildo::traits::{Display, EventAction, Provider, YankDest};

fn cid(n: u64) -> Id {
    Id(ContentID { id: n, generation: n })
}

#[test]
fn registry_counts_owners() {
    let mut reg: ContentRegister<String, Id> = ContentRegister::new();
    let a = reg.allocate(String::from("a"));
    let b = reg.allocate(String::from("b"));
    assert_ne!(a, b);
    assert_eq!(a, cid(0));
    assert_eq!(b, cid(1));
    reg.register(a);
    reg.register(a);
    assert_eq!(reg.unregister(a), None);
    assert_eq!(reg.get(a).map(|s| s.as_str()), Some("a"));
    assert_eq!(reg.unregister(a), None);
    assert_eq!(reg.get(a).map(|s| s.as_str()), Some("a"));
    // The third unregistration drops the last of 1 + 2 owners.
    assert_eq!(reg.unregister(a), Some(String::from("a")));
    assert_eq!(reg.get(a), None);
    // Without registrations one unregistration releases the entity.
    assert_eq!(reg.unregister(b), Some(String::from("b")));
    assert_eq!(reg.get(b), None);
}

#[test]
fn registry_never_reuses_handles() {
    let mut reg: ContentRegister<u32, ContentID> = ContentRegister::new();
    let a = reg.allocate(1);
    assert_eq!(reg.unregister(a), Some(1));
    let b = reg.allocate(2);
    assert_ne!(a, b);
    assert_eq!(reg.get(a), None);
    assert_eq!(reg.get(b), Some(&2));
}

#[test]
fn registry_get_mut_changes_value() {
    let mut reg: ContentRegister<u32, Id> = ContentRegister::new();
    let a = reg.allocate(5);
    if let Some(v) = reg.get_mut(a) {
        *v = 9;
    }
    assert_eq!(reg.get(a), Some(&9));
    assert!(reg.get_mut(cid(7)).is_none());
    assert_eq!(reg.get(Id(ContentID { id: 0, generation: 3 })), None);
}

#[test]
fn registry_restore_checks_epochs() {
    let mut reg: ContentRegister<u32, Id> = ContentRegister::new();
    let _ = reg.allocate(5);
    let _ = reg.allocate(6);
    let slots: Vec<_> = reg.slots().iter().map(|s| s.as_ref().map(|e| (e.val, e.generation, e.id_counter))).collect();
    assert_eq!(slots, vec![Some((5, 0, 1)), Some((6, 1, 1))]);
    let bad = vec![Some(wildo::register::ContentEntry { val: 1u32, generation: 4, id_counter: 1 })];
    assert!(ContentRegister::<u32, Id>::restore(bad).is_none());
    let ownerless = vec![Some(wildo::register::ContentEntry { val: 1u32, generation: 0, id_counter: 0 })];
    assert!(ContentRegister::<u32, Id>::restore(ownerless).is_none());
    let good = vec![None, Some(wildo::register::ContentEntry { val: 1u32, generation: 1, id_counter: 1 })];
    let r = ContentRegister::<u32, Id>::restore(good).expect("consistent");
    assert_eq!(r.get(cid(1)), Some(&1));
}

#[test]
fn container_insert_and_remove() {
    let mut c: Container<Id> = Container::new();
    c.insert(Yank { id: cid(1), pos: 0 });
    c.insert(Yank { id: cid(2), pos: 1 });
    c.insert(Yank { id: cid(3), pos: 1 });
    assert_eq!(c.items, vec![cid(1), cid(3), cid(2)]);
    assert_eq!(c.get(1), Some(cid(3)));
    assert_eq!(c.get(3), None);
    // A mismatched id is refused.
    assert!(!c.remove(Yank { id: cid(2), pos: 1 }));
    assert_eq!(c.items.len(), 3);
    assert!(c.remove(Yank { id: cid(3), pos: 1 }));
    assert_eq!(c.items, vec![cid(1), cid(2)]);
    assert!(!c.remove(Yank { id: cid(3), pos: 5 }));
}

#[test]
fn container_cursor_follows_edits() {
    let mut c: Container<Id> = Container::new();
    c.insert(Yank { id: cid(1), pos: 0 });
    assert_eq!(c.selected_index.selected_index(), 0);
    c.insert(Yank { id: cid(2), pos: 1 });
    c.insert(Yank { id: cid(3), pos: 2 });
    c.selected_index.select(1);
    // Insert before the cursor shifts it down.
    c.insert(Yank { id: cid(4), pos: 0 });
    assert_eq!(c.selected_index.selected_index(), 2);
    assert_eq!(c.get_selected(), Some(cid(2)));
    // Insert after the cursor leaves it.
    c.insert(Yank { id: cid(5), pos: 4 });
    assert_eq!(c.selected_index.selected_index(), 2);
    // Remove before the cursor shifts it up.
    assert!(c.remove(Yank { id: cid(4), pos: 0 }));
    assert_eq!(c.selected_index.selected_index(), 1);
    assert_eq!(c.get_selected(), Some(cid(2)));
    // Removing the last child leaves the cursor at 0.
    let mut one: Container<Id> = Container::new();
    one.insert(Yank { id: cid(9), pos: 0 });
    assert!(one.remove(Yank { id: cid(9), pos: 0 }));
    assert_eq!(one.items.len(), 0);
    assert_eq!(one.selected_index.selected_index(), 0);
    assert_eq!(one.get_selected(), None);
}

#[test]
fn container_navigation_keys() {
    let mut c: Container<Id> = Container::new();
    for i in 0..3 {
        c.insert(Yank { id: cid(i), pos: i as usize });
    }
    c.selected_index.select(0);
    assert!(matches!(c.handle_events(&Event::plain(KeyCode::Down)), EventAction::Absorbed(AppAction::NoOp)));
    assert_eq!(c.selected_index.selected_index(), 1);
    c.handle_events(&Event::plain(KeyCode::End));
    assert_eq!(c.selected_index.selected_index(), 2);
    c.handle_events(&Event::plain(KeyCode::Down));
    assert_eq!(c.selected_index.selected_index(), 2);
    c.handle_events(&Event::plain(KeyCode::Home));
    assert_eq!(c.selected_index.selected_index(), 0);
    c.handle_events(&Event::plain(KeyCode::Up));
    assert_eq!(c.selected_index.selected_index(), 0);
    assert!(matches!(c.handle_events(&Event::plain(KeyCode::Char('x'))), EventAction::Unabsorbed(AppAction::NoOp)));
}

fn key(m: &mut InsertMode, code: KeyCode) -> InsertAction<AppAction> {
    m.handle_events(&Event::plain(code))
}

#[test]
fn insert_mode_edits_at_cursor() {
    let mut m = InsertMode::new();
    assert!(matches!(key(&mut m, KeyCode::Char('x')), InsertAction::Action(EventAction::Unabsorbed(_))));
    m.listen();
    assert!(m.is_listening());
    for c in "helo".chars() {
        key(&mut m, KeyCode::Char(c));
    }
    key(&mut m, KeyCode::Left);
    key(&mut m, KeyCode::Char('l'));
    let line = m.line();
    assert_eq!(line.before, "hell");
    assert_eq!(line.at, 'o');
    assert_eq!(line.after, "");
    key(&mut m, KeyCode::Home);
    key(&mut m, KeyCode::Left);
    key(&mut m, KeyCode::Backspace);
    key(&mut m, KeyCode::Char('>'));
    key(&mut m, KeyCode::End);
    key(&mut m, KeyCode::Right);
    key(&mut m, KeyCode::Backspace);
    let line = m.line();
    assert_eq!(line.before, ">hell");
    assert_eq!(line.at, ' ');
    match key(&mut m, KeyCode::Enter) {
        InsertAction::Accepted { text, .. } => assert_eq!(text, ">hell"),
        _ => panic!("accepted"),
    }
    assert!(!m.is_listening());
    assert_eq!(m.line().before, "");
}

#[test]
fn insert_mode_escape_discards() {
    let mut m = InsertMode::new();
    m.listen();
    m.replace_text("abc");
    assert_eq!(m.line().before, "abc");
    key(&mut m, KeyCode::Home);
    let line = m.line();
    assert_eq!((line.before.as_str(), line.at, line.after.as_str()), ("", 'a', "bc"));
    assert!(matches!(key(&mut m, KeyCode::Esc), InsertAction::Rejected(AppAction::NoOp)));
    assert!(!m.is_listening());
    assert_eq!(m.line().before, "");
    assert_eq!(m.line().after, "");
}

#[test]
fn insert_mode_absorbs_other_keys() {
    let mut m = InsertMode::new();
    m.listen();
    assert!(matches!(key(&mut m, KeyCode::Up), InsertAction::Action(EventAction::Absorbed(AppAction::NoOp))));
    assert!(matches!(m.handle_events(&Event::ctrl(KeyCode::Char('q'))), InsertAction::Action(EventAction::Absorbed(_))));
    assert!(matches!(m.handle_events(&Event::Other), InsertAction::Action(EventAction::Unabsorbed(_))));
    m.handle_events(&Event::shift(KeyCode::Char('Q')));
    assert_eq!(m.line().before, "Q");
}

#[test]
fn stack_keeps_root() {
    let mut s = ContentStack::new(cid(0));
    assert_eq!(s.pop(), None);
    assert_eq!(s.len(), 1);
    s.push(cid(1));
    assert_eq!(s.last(), cid(1));
    assert_eq!(s.len(), 2);
    assert_eq!(s.get(0), cid(0));
    assert_eq!(s.pop(), Some(cid(1)));
    assert_eq!(s.last(), cid(0));
    assert_eq!(s.main_provider(), cid(0));
}

#[test]
fn date_text_and_reading() {
    let d = Date { day: 5, month: 3, year: 2024 };
    assert_eq!(d.text().iter().collect::<String>(), "05-03-2024");
    let far = Date { day: 31, month: 12, year: 12345 };
    assert_eq!(far.text().iter().collect::<String>(), "31-12-+12345".replace("-+", "-+"));
    assert_eq!(read_due_date(None, "07-11-2023"), Some(Date { day: 7, month: 11, year: 2023 }));
    assert_eq!(read_due_date(Some(d), "31-02-2024"), Some(d));
    assert_eq!(read_due_date(Some(d), "tomorrow"), Some(d));
    assert_eq!(next_due_date(Some(d), Some((2025, 1, 2))), Some(Date { day: 2, month: 1, year: 2025 }));
    assert_eq!(next_due_date(Some(d), Some((-3, 1, 2))), Some(d));
    assert_eq!(next_due_date(None, None), None);
}

#[test]
fn trims_spaces() {
    let r: String = trim_spaces_chars(&chars_of("  a b  ")).iter().collect();
    assert_eq!(r, "a b");
    let r: String = trim_spaces_chars(&chars_of("    ")).iter().collect();
    assert_eq!(r, "");
}

fn context() -> (AppActionContext, Id, Id) {
    let mut register: ContentRegister<Content, Id> = ContentRegister::new();
    let list = register.allocate(Content::TodoList(TodoList::new(String::from("L"))));
    let item = register.allocate(Content::Todo(Todo::new(String::from("t"))));
    let stack = ContentStack::new(list);
    (AppActionContext { register, editor: EditManager::new(), stack }, list, item)
}

#[test]
fn chain_appends_in_order() {
    let (mut ctx, list, item) = context();
    let a = AppAction::Callback { call: Command::SetText { id: item, text: String::from("one") } };
    let b = AppAction::Callback { call: Command::ToggleStatus { id: item } };
    let c = AppAction::Callback { call: Command::SetText { id: list, text: String::from("two") } };
    let chained = a.chain(vec![b]).chain(vec![c]);
    match &chained {
        AppAction::Actions { v } => assert_eq!(v.len(), 3),
        _ => panic!("a sequence"),
    }
    assert_eq!(chained.apply(&mut ctx), Ok(()));
    match ctx.register.get(item) {
        Some(Content::Todo(t)) => {
            assert_eq!(t.text(), "one");
            assert_eq!(t.status, wildo::content::todo::TodoStatus::Done);
        },
        _ => panic!("a to-do"),
    }
    assert_eq!(ctx.register.get(list).map(|c| c.text()), Some(String::from("two")));
}

#[test]
fn sequence_stops_at_first_failure() {
    let (mut ctx, list, item) = context();
    let a = AppAction::Callback { call: Command::ToggleStatus { id: list } };
    let b = AppAction::Callback { call: Command::SetText { id: item, text: String::from("never") } };
    let r = AppAction::NoOp.chain(vec![a, b]).apply(&mut ctx);
    assert_eq!(r, Err(ActionError::WrongKind(list)));
    assert_eq!(ctx.register.get(item).map(|c| c.text()), Some(String::from("t")));
}

#[test]
fn action_errors() {
    let (mut ctx, _list, _item) = context();
    assert_eq!(AppAction::MoveUp.apply(&mut ctx), Err(ActionError::NotImplemented(Feature::MoveUp)));
    assert_eq!(
        AppAction::Callback { call: Command::SetText { id: cid(9), text: String::from("x") } }.apply(&mut ctx),
        Err(ActionError::MissingEntity(cid(9)))
    );
    assert_eq!(
        AppAction::Callback { call: Command::Unsupported { what: Feature::Paste } }.apply(&mut ctx),
        Err(ActionError::NotImplemented(Feature::Paste))
    );
    let mut em = EditManager::new();
    let r = em.handle_events(
        &Event::ctrl(KeyCode::Char('z')),
        wildo::service::editors::EditContext { source_id: cid(0), item: None },
    );
    match r {
        EventAction::Absorbed(a) => {
            assert_eq!(a.apply(&mut ctx), Err(ActionError::NotImplemented(Feature::Undo)))
        },
        _ => panic!("absorbed"),
    }
}

#[test]
fn move_right_enters_a_list() {
    let mut register: ContentRegister<Content, Id> = ContentRegister::new();
    let root = register.allocate(Content::TodoList(TodoList::new(String::from("root"))));
    let inner = register.allocate(Content::TodoList(TodoList::new(String::from("inner"))));
    if let Some(Content::TodoList(l)) = register.get_mut(root) {
        l.insert(Yank { id: inner, pos: 0 });
    }
    let mut ctx = AppActionContext { register, editor: EditManager::new(), stack: ContentStack::new(root) };
    assert_eq!(AppAction::MoveRight.apply(&mut ctx), Ok(()));
    assert_eq!(ctx.stack.last(), inner);
    assert_eq!(AppAction::MoveRight.apply(&mut ctx), Ok(()));
    assert_eq!(ctx.stack.len(), 2);
    assert_eq!(AppAction::MoveLeft.apply(&mut ctx), Ok(()));
    assert_eq!(ctx.stack.last(), root);
    assert_eq!(AppAction::MoveLeft.apply(&mut ctx), Ok(()));
    assert_eq!(ctx.stack.len(), 1);
}

#[test]
fn reject_creation_releases_the_entity() {
    let (mut ctx, list, item) = context();
    if let Some(Content::TodoList(l)) = ctx.register.get_mut(list) {
        l.insert(Yank { id: item, pos: 0 });
    }
    let r = AppAction::Callback { call: Command::RejectCreation { list, id: item } }.apply(&mut ctx);
    assert_eq!(r, Ok(()));
    match ctx.register.get(list) {
        Some(Content::TodoList(l)) => assert_eq!(l.items().len(), 0),
        _ => panic!("a list"),
    }
    // The allocation was the only owner, so the entity is released.
    assert!(ctx.register.get(item).is_none());
}

fn three_actions(item: Id, list: Id) -> (AppAction, AppAction, AppAction) {
    (
        AppAction::Callback { call: Command::SetText { id: item, text: String::from("x") } },
        AppAction::Callback { call: Command::ToggleStatus { id: item } },
        AppAction::Callback { call: Command::SetText { id: list, text: String::from("y") } },
    )
}

fn observe(ctx: &AppActionContext, list: Id, item: Id) -> (Option<String>, Option<String>, bool) {
    let done = match ctx.register.get(item) {
        Some(Content::Todo(t)) => t.status == wildo::content::todo::TodoStatus::Done,
        _ => false,
    };
    (ctx.register.get(list).map(|c| c.text()), ctx.register.get(item).map(|c| c.text()), done)
}

#[test]
fn chaining_twice_matches_chaining_once() {
    let (mut one, list, item) = context();
    let (a, b, c) = three_actions(item, list);
    let r1 = a.chain(vec![b]).chain(vec![c]).apply(&mut one);
    let (mut two, list2, item2) = context();
    let (a, b, c) = three_actions(item2, list2);
    let r2 = a.chain(vec![b, c]).apply(&mut two);
    assert_eq!(r1, r2);
    assert_eq!(observe(&one, list, item), observe(&two, list2, item2));
    assert_eq!(observe(&one, list, item), (Some(String::from("y")), Some(String::from("x")), true));
}

#[test]
fn list_display_rows() {
    let (mut ctx, list, item) = context();
    let missing = cid(9);
    if let Some(Content::TodoList(l)) = ctx.register.get_mut(list) {
        l.insert(Yank { id: item, pos: 0 });
        l.insert(Yank { id: missing, pos: 1 });
    }
    if let Some(Content::Todo(t)) = ctx.register.get_mut(item) {
        t.due_date = Some(Date { day: 1, month: 2, year: 2030 });
    }
    let out = match ctx.register.get(list) {
        Some(Content::TodoList(l)) => l.display(&ctx.register),
        _ => panic!("a list"),
    };
    let WidgetOutput::TodoList { title, content, date } = out;
    assert_eq!(title, "L");
    assert_eq!(content.len(), 2);
    match &content[0] {
        Row::Text { text, style } => {
            assert_eq!(text, "t");
            assert_eq!(*style, RowStyle::Pending);
        },
        Row::Editing(_) => panic!("not editing"),
    }
    match &date[0] {
        Row::Text { text, .. } => assert_eq!(text, "01-02-2030"),
        Row::Editing(_) => panic!("not editing"),
    }
    match &content[1] {
        Row::Text { text, .. } => assert_eq!(text, ""),
        Row::Editing(_) => panic!("not editing"),
    }
}
