use vstd::prelude::*;

use crate::app::{AppAction, is_shaped};
use crate::content::todo::{Todo, TodoStatus, TodoView, date_text};
use crate::content::todo_list::{ListView, TodoList, carried, list_step};
use crate::input::{is_plain, Event, KeyCode, KeyEvent, KeyModifiers};
use crate::register::{ContentRegister, Id};
use crate::service::editors::Yank;
use crate::service::insert_mode::{CursorLine, string_of};
use crate::traits::{Display, EventAction, Provider, SelectedIndex, YankDest};

verus! {

/// The cursor of a container with `len` children is on one of them, or at 0
/// when there is none.
pub open spec fn cursor_ok(sel: int, len: int) -> bool {
    0 <= sel && (sel < len || sel == 0)
}

/// Children and cursor after inserting `q`: the child lands at `q.pos`, and a
/// cursor at or after that position moves one down, clamped to the last child.
pub open spec fn insert_model<T>(items: Seq<T>, sel: int, q: Yank<T>) -> (Seq<T>, int) {
    let next = items.insert(q.pos as int, q.id);
    let nsel = if q.pos <= sel {
        if sel + 1 <= next.len() - 1 {
            sel + 1
        } else {
            next.len() - 1
        }
    } else {
        sel
    };
    (next, nsel)
}

/// `q` names the child at its position.
pub open spec fn yank_matches<T>(items: Seq<T>, q: Yank<T>) -> bool {
    q.pos < items.len() && items[q.pos as int] == q.id
}

/// Children, cursor and outcome after removing `q`: only a child that `q`
/// names is removed, and a cursor at or after it moves one up, stopping at 0.
pub open spec fn remove_model<T>(items: Seq<T>, sel: int, q: Yank<T>) -> (Seq<T>, int, bool) {
    if yank_matches(items, q) {
        let nsel = if q.pos <= sel && sel > 0 {
            sel - 1
        } else {
            sel
        };
        (items.remove(q.pos as int), nsel, true)
    } else {
        (items, sel, false)
    }
}

/// The cursor after a navigation key: Up and Down move by one, clamped to the
/// children; Home and End jump to the first and the last. `None`: the key is
/// not a navigation key.
pub open spec fn navigate_model(sel: int, len: int, e: Event) -> Option<int> {
    if is_plain(e, KeyCode::Up) {
        Some(if sel > 0 { sel - 1 } else { 0 })
    } else if is_plain(e, KeyCode::Down) {
        Some(if len > 0 { if sel + 1 <= len - 1 { sel + 1 } else { len - 1 } } else { sel })
    } else if is_plain(e, KeyCode::Home) {
        Some(0)
    } else if is_plain(e, KeyCode::End) {
        Some(if len > 0 { len - 1 } else { sel })
    } else {
        None
    }
}

/// An ordered sequence of children with a selection cursor.
#[derive(Clone, Debug)]
pub struct Container<T> {
    pub items: Vec<T>,
    pub selected_index: SelectedIndex,
}

impl<T> Container<T> {
    /// The cursor is set and on a child (or at 0 when there is none).
    pub open spec fn wf(&self) -> bool {
        &&& self.selected_index@ is Some
        &&& cursor_ok(self.sel(), self.items@.len() as int)
    }

    pub open spec fn sel(&self) -> int {
        self.selected_index@->Some_0 as int
    }

    pub fn new() -> (r: Self)
        ensures
            r.wf(),
            r.items@ == Seq::<T>::empty(),
            r.sel() == 0,
    {
        Container { items: Vec::new(), selected_index: SelectedIndex::new() }
    }

    /// Moves the cursor for Up, Down, Home and End; reports whether the event
    /// was one of them.
    pub fn navigate(&mut self, event: &Event) -> (absorbed: bool)
        requires
            old(self).wf(),
        ensures
            final(self).wf(),
            final(self).items@ == old(self).items@,
            absorbed == navigate_model(old(self).sel(), old(self).items@.len() as int, *event) is Some,
            absorbed ==> final(self).sel() == navigate_model(
                old(self).sel(),
                old(self).items@.len() as int,
                *event,
            )->Some_0,
            !absorbed ==> final(self).sel() == old(self).sel(),
    {
        let sel = self.selected_index.selected_index();
        let len = self.items.len();
        match event {
            Event::Key(KeyEvent { code, modifiers: KeyModifiers::NoModifier }) => match code {
                KeyCode::Up => {
                    self.selected_index.select(
                        if sel > 0 {
                            sel - 1
                        } else {
                            0
                        },
                    );
                    true
                },
                KeyCode::Down => {
                    if len > 0 {
                        self.selected_index.select(
                            if sel + 1 <= len - 1 {
                                sel + 1
                            } else {
                                len - 1
                            },
                        );
                    }
                    true
                },
                KeyCode::Home => {
                    self.selected_index.select(0);
                    true
                },
                KeyCode::End => {
                    if len > 0 {
                        self.selected_index.select(len - 1);
                    }
                    true
                },
                _ => false,
            },
            _ => false,
        }
    }
}

impl<T> Container<T> {
    /// Handles a navigation key; every other event is left for the ancestors.
    pub fn handle_events(&mut self, event: &Event) -> (r: EventAction<AppAction>)
        requires
            old(self).wf(),
        ensures
            final(self).wf(),
            final(self).items@ == old(self).items@,
            r is Absorbed <==> navigate_model(old(self).sel(), old(self).items@.len() as int, *event) is Some,
            r matches EventAction::Absorbed(a) ==> a is NoOp && final(self).sel() == navigate_model(
                old(self).sel(),
                old(self).items@.len() as int,
                *event,
            )->Some_0,
            r matches EventAction::Unabsorbed(a) ==> a is NoOp && final(self).sel() == old(self).sel(),
    {
        if self.navigate(event) {
            EventAction::Absorbed(AppAction::NoOp)
        } else {
            EventAction::Unabsorbed(AppAction::NoOp)
        }
    }
}

impl<T> Default for Container<T> {
    fn default() -> (r: Self)
        ensures
            r.wf(),
            r.items@ == Seq::<T>::empty(),
    {
        Container::new()
    }
}

impl YankDest for Container<Id> {
    type Query = Yank<Id>;

    open spec fn insert_ok(&self, q: Yank<Id>) -> bool {
        self.wf() && q.pos <= self.items@.len()
    }

    open spec fn inserted(&self, q: Yank<Id>, next: Self) -> bool {
        &&& next.wf()
        &&& next.selected_index@ is Some
        &&& (next.items@, next.sel()) == insert_model(self.items@, self.sel(), q)
    }

    open spec fn removed(&self, q: Yank<Id>, next: Self, r: bool) -> bool {
        &&& self.wf() ==> next.wf()
        &&& self.selected_index@ is Some ==> (next.items@, next.sel(), r) == remove_model(
            self.items@,
            self.sel(),
            q,
        )
        &&& self.selected_index@ is None ==> next.items@ == self.items@ && !r
        &&& next.selected_index@ is Some <==> self.selected_index@ is Some
    }

    fn insert(&mut self, q: Yank<Id>) {
        self.items.insert(q.pos, q.id);
        let sel = self.selected_index.selected_index();
        if q.pos <= sel {
            let last = self.items.len() - 1;
            self.selected_index.select(
                if sel + 1 <= last {
                    sel + 1
                } else {
                    last
                },
            );
        }
    }

    fn remove(&mut self, q: Yank<Id>) -> (r: bool) {
        let sel = match self.selected_index.selected() {
            Some(s) => s,
            None => {
                return false;
            },
        };
        let matches = q.pos < self.items.len() && self.items[q.pos] == q.id;
        if matches {
            if q.pos <= sel && sel > 0 {
                self.selected_index.select(sel - 1);
            }
            self.items.remove(q.pos);
            true
        } else {
            false
        }
    }
}

impl Provider for Container<Id> {
    type Item = Option<Id>;

    open spec fn spec_get(&self, index: int) -> Option<Id> {
        if 0 <= index < self.items@.len() {
            Some(self.items@[index])
        } else {
            None
        }
    }

    open spec fn spec_selected(&self) -> Option<Id> {
        match self.selected_index@ {
            Some(i) => self.spec_get(i as int),
            None => None,
        }
    }

    fn get(&self, index: usize) -> (r: Option<Id>) {
        if index < self.items.len() {
            Some(self.items[index])
        } else {
            None
        }
    }

    fn get_selected(&self) -> (r: Option<Id>) {
        match self.selected_index.selected() {
            Some(i) => self.get(i),
            None => None,
        }
    }
}


/// An entity of the registry: one of the concrete kinds, each with the
/// capabilities it opts into. Every kind has text; a list also draws itself,
/// handles events, takes children and has a selection.
#[derive(Clone, Debug)]
pub enum Content {
    Todo(Todo),
    TodoList(TodoList),
}

/// What an entity holds.
pub enum ContentView {
    Todo(TodoView),
    TodoList(ListView),
}

impl View for Content {
    type V = ContentView;

    open spec fn view(&self) -> ContentView {
        match self {
            Content::Todo(t) => ContentView::Todo(t@),
            Content::TodoList(l) => ContentView::TodoList(l@),
        }
    }
}

/// The text of an entity.
pub open spec fn content_text(c: ContentView) -> Seq<char> {
    match c {
        ContentView::Todo(t) => t.content,
        ContentView::TodoList(l) => l.title,
    }
}

/// The entity with its text set to `t`.
pub open spec fn with_text(c: ContentView, t: Seq<char>) -> ContentView {
    match c {
        ContentView::Todo(v) => ContentView::Todo(TodoView { content: t, ..v }),
        ContentView::TodoList(v) => ContentView::TodoList(ListView { title: t, ..v }),
    }
}

/// The child under the cursor of a list; other kinds have no selection.
pub open spec fn selected_of(c: ContentView) -> Option<Id> {
    match c {
        ContentView::TodoList(l) => if l.items.len() > 0 {
            Some(l.items[l.sel])
        } else {
            None
        },
        _ => None,
    }
}

impl Content {
    pub open spec fn wf(&self) -> bool {
        match self {
            Content::TodoList(l) => l.wf(),
            _ => true,
        }
    }

    /// Whether the entity draws itself as a widget.
    pub fn has_widget(&self) -> (r: bool)
        ensures
            r == (self is TodoList),
    {
        match self {
            Content::TodoList(_) => true,
            _ => false,
        }
    }

    /// The selected child, for an entity with a selection that has one.
    pub fn selected_child(&self) -> (r: Option<Id>)
        requires
            self.wf(),
        ensures
            r == selected_of(self@),
    {
        match self {
            Content::TodoList(l) => {
                proof {
                    l.lemma_wf();
                }
                l.get_selected()
            },
            _ => None,
        }
    }

    /// Hands `event` to the entity's event handler; `None` for a kind without one.
    pub fn handle_events(&mut self, event: &Event, self_id: Id) -> (r: Option<EventAction<AppAction>>)
        requires
            old(self).wf(),
        ensures
            final(self).wf(),
            (*old(self)) is Todo ==> r is None && final(self)@ == old(self)@,
            (*old(self)) is TodoList ==> ({
                let (next, absorbed, steps) = list_step(old(self)->TodoList_0@, *event, self_id);
                &&& final(self)@ == ContentView::TodoList(next)
                &&& r matches Some(x) && (x is Absorbed <==> absorbed) && is_shaped(carried(x), steps)
            }),
    {
        match self {
            Content::TodoList(l) => Some(l.handle_events(event, self_id)),
            _ => None,
        }
    }
}

impl Display for Content {
    open spec fn spec_text(&self) -> Seq<char> {
        content_text(self@)
    }

    open spec fn renamed(&self, t: Seq<char>, next: Self) -> bool {
        &&& next@ == with_text(self@, t)
        &&& next.wf() == self.wf()
    }

    fn text(&self) -> (r: String) {
        match self {
            Content::Todo(t) => t.text(),
            Content::TodoList(l) => l.text(),
        }
    }

    fn set_text(&mut self, name: String) {
        match self {
            Content::Todo(t) => t.set_text(name),
            Content::TodoList(l) => l.set_text(name),
        }
    }
}

/// How a drawn row is styled.
#[derive(Clone, Copy, Debug, PartialEq, Eq, Structural)]
pub enum RowStyle {
    Pending,
    Done,
    Ignored,
    Title,
    Date,
}

/// One drawn row: text in a style, or the line being edited.
pub enum Row {
    Text { text: String, style: RowStyle },
    Editing(CursorLine),
}

/// What a widget draws: a list's title, the rows of its children, and their
/// due dates.
pub enum WidgetOutput {
    TodoList { title: String, content: Vec<Row>, date: Vec<Row> },
}

/// The style a to-do of status `s` is drawn in.
pub open spec fn status_style(s: TodoStatus) -> RowStyle {
    match s {
        TodoStatus::Pending => RowStyle::Pending,
        TodoStatus::Done => RowStyle::Done,
        TodoStatus::Ignored => RowStyle::Ignored,
    }
}

/// The text of a row, if it is not the line being edited.
pub open spec fn row_text(r: Row) -> Option<Seq<char>> {
    match r {
        Row::Text { text, .. } => Some(text@),
        Row::Editing(_) => None,
    }
}

impl Content {
    /// The row an entity is drawn as in its parent's list.
    pub fn display(&self) -> (r: Row)
        ensures
            row_text(r) == Some(content_text(self@)),
            r matches Row::Text { style, .. } && style == (match self@ {
                ContentView::Todo(t) => status_style(t.status),
                ContentView::TodoList(_) => RowStyle::Title,
            }),
    {
        match self {
            Content::Todo(t) => Row::Text {
                text: t.text(),
                style: match t.status {
                    TodoStatus::Pending => RowStyle::Pending,
                    TodoStatus::Done => RowStyle::Done,
                    TodoStatus::Ignored => RowStyle::Ignored,
                },
            },
            Content::TodoList(l) => Row::Text { text: l.text(), style: RowStyle::Title },
        }
    }

    /// The due date an entity shows: a to-do's date as `dd-mm-yyyy`, else
    /// nothing.
    pub fn due_text(&self) -> (r: String)
        ensures
            r@ == (match self@ {
                ContentView::Todo(t) => match t.due_date {
                    Some(d) => date_text(d),
                    None => Seq::empty(),
                },
                _ => Seq::<char>::empty(),
            }),
    {
        match self {
            Content::Todo(t) => string_of(&t.due_date_text()),
            _ => string_of(&Vec::new()),
        }
    }
}

/// The text row `i` of the content column shows when nothing is edited: the
/// text of the child, or nothing for a handle the register does not hold.
pub open spec fn child_text(reg: &ContentRegister<Content, Id>, id: Id) -> Seq<char> {
    if reg.contains(id) {
        content_text(reg.value(id)@)
    } else {
        Seq::empty()
    }
}

/// The due date row `i` of the date column shows when nothing is edited.
pub open spec fn child_due(reg: &ContentRegister<Content, Id>, id: Id) -> Seq<char> {
    if reg.contains(id) {
        match reg.value(id)@ {
            ContentView::Todo(t) => match t.due_date {
                Some(d) => date_text(d),
                None => Seq::empty(),
            },
            _ => Seq::empty(),
        }
    } else {
        Seq::empty()
    }
}

/// Inserting a child and then removing the same child at the same position
/// gives back the children and the cursor as they were.
pub proof fn lemma_insert_then_remove<T>(items: Seq<T>, sel: int, q: Yank<T>)
    requires
        cursor_ok(sel, items.len() as int),
        q.pos <= items.len(),
    ensures
        ({
            let (mid, msel) = insert_model(items, sel, q);
            let (back, bsel, removed) = remove_model(mid, msel, q);
            &&& removed
            &&& back == items
            &&& bsel == sel
        }),
{
    let (mid, msel) = insert_model(items, sel, q);
    assert(mid.remove(q.pos as int) =~= items);
}

/// Insertion and removal keep the cursor on a child; an insertion puts the
/// child at the position asked for and adds one child; a removal that names
/// its child takes exactly that child away, and one that does not changes
/// nothing. An insertion at or before the cursor moves it one down, a removal
/// before or at it one up (stopping at the first child); edits after the
/// cursor leave it.
pub proof fn lemma_container_edits<T>(items: Seq<T>, sel: int, q: Yank<T>)
    requires
        cursor_ok(sel, items.len() as int),
    ensures
        q.pos <= items.len() ==> ({
            let (next, nsel) = insert_model(items, sel, q);
            &&& cursor_ok(nsel, next.len() as int)
            &&& next.len() == items.len() + 1
            &&& next[q.pos as int] == q.id
            &&& items.len() > 0 && q.pos <= sel ==> nsel == sel + 1
            &&& q.pos > sel ==> nsel == sel
        }),
        ({
            let (next, nsel, removed) = remove_model(items, sel, q);
            &&& cursor_ok(nsel, next.len() as int)
            &&& removed <==> yank_matches(items, q)
            &&& removed ==> next.len() == items.len() - 1 && next == items.remove(q.pos as int)
            &&& !removed ==> next == items && nsel == sel
            &&& removed && q.pos <= sel && sel > 0 ==> nsel == sel - 1
            &&& removed && (q.pos > sel || sel == 0) ==> nsel == sel
        }),
{
}

} // verus!
