use vstd::prelude::*;

use crate::app::{AppAction, Command, CommandView, Feature, Step, is_shaped};
use crate::content::traits::{Container, Content, Row, RowStyle, WidgetOutput, child_due, child_text, cursor_ok, navigate_model, row_text, yank_matches};
use crate::input::{Event, KeyCode, KeyEvent, KeyModifiers, is_ctrl, is_plain, is_shift};
use crate::register::{ContentRegister, Id};
use crate::service::editors::Yank;
use crate::service::insert_mode::{
    CursorLine,
    InsertAction,
    InsertMode,
    InsertOutcome,
    InsertState,
    chars_of,
    insert_state_ok,
    insert_step,
    shows_line,
    string_of,
};
use crate::traits::{Display, EventAction, Provider, YankDest};

verus! {

/// What the text being edited in a list will become.
#[derive(Clone, Copy, Debug, PartialEq, Eq, Structural)]
pub enum ListenTarget {
    ContentCreate,
    ContentEdit,
    DueDate,
    DueTime,
    Nothing,
}

/// A list of to-dos.
#[derive(Clone, Debug)]
pub struct TodoList {
    container: Container<Id>,
    title: String,
    insert_mode: InsertMode,
    listen_target: ListenTarget,
}

/// What a list holds: its children and cursor, its title, its editor and
/// what the editor is for.
pub struct ListView {
    pub items: Seq<Id>,
    pub sel: int,
    pub title: Seq<char>,
    pub insert: InsertState,
    pub target: ListenTarget,
}

/// The cursor is on a child (or at 0), the editor's cursor is within its
/// text, and a listening editor has something to edit.
pub open spec fn list_view_ok(v: ListView) -> bool {
    &&& cursor_ok(v.sel, v.items.len() as int)
    &&& insert_state_ok(v.insert)
    &&& v.insert.listening ==> v.target != ListenTarget::Nothing
}

/// `s` without its leading spaces.
pub open spec fn trim_start(s: Seq<char>) -> Seq<char>
    decreases s.len(),
{
    if s.len() > 0 && s[0] == ' ' {
        trim_start(s.drop_first())
    } else {
        s
    }
}

/// `s` without its trailing spaces.
pub open spec fn trim_end(s: Seq<char>) -> Seq<char>
    decreases s.len(),
{
    if s.len() > 0 && s.last() == ' ' {
        trim_end(s.drop_last())
    } else {
        s
    }
}

/// `s` without leading and trailing spaces.
pub open spec fn trim_spaces(s: Seq<char>) -> Seq<char> {
    trim_start(trim_end(s))
}

/// The characters of `v` without leading and trailing spaces.
pub fn trim_spaces_chars(v: &Vec<char>) -> (r: Vec<char>)
    ensures
        r@ == trim_spaces(v@),
{
    let mut hi: usize = v.len();
    assert(v@.take(hi as int) =~= v@);
    while hi > 0 && v[hi - 1] == ' '
        invariant
            hi <= v@.len(),
            trim_end(v@) == trim_end(v@.take(hi as int)),
        decreases hi,
    {
        assert(v@.take(hi as int).drop_last() =~= v@.take(hi - 1));
        hi = hi - 1;
    }
    assert(trim_end(v@) == v@.take(hi as int));
    let ghost kept = v@.take(hi as int);
    let mut lo: usize = 0;
    while lo < hi && v[lo] == ' '
        invariant
            lo <= hi <= v@.len(),
            kept == v@.take(hi as int),
            trim_start(kept) == trim_start(v@.subrange(lo as int, hi as int)),
        decreases hi - lo,
    {
        assert(v@.subrange(lo as int, hi as int).drop_first() =~= v@.subrange(lo + 1, hi as int));
        lo = lo + 1;
    }
    let mut out: Vec<char> = Vec::new();
    let mut i: usize = lo;
    while i < hi
        invariant
            lo <= i <= hi <= v@.len(),
            out@ == v@.subrange(lo as int, i as int),
        decreases hi - i,
    {
        out.push(v[i]);
        i = i + 1;
        assert(out@ =~= v@.subrange(lo as int, i as int));
    }
    out
}

/// The steps an unabsorbed event leaves to apply: the editor's no-op and the
/// container's no-op.
pub open spec fn two_noops() -> Seq<Step> {
    seq![Step::NoOp, Step::NoOp]
}

/// One event on list `me`: the list after it, whether it was absorbed, and
/// the steps of the action it hands back.
pub open spec fn list_step(v: ListView, e: Event, me: Id) -> (ListView, bool, Option<Seq<Step>>) {
    let (ins, out) = insert_step(v.insert, e);
    let nonempty = v.items.len() > 0;
    let cur = v.items[v.sel];
    let done = ListView { insert: ins, target: ListenTarget::Nothing, ..v };
    match out {
        InsertOutcome::Absorbed => (ListView { insert: ins, ..v }, true, None),
        InsertOutcome::Accepted(text) => {
            let t = trim_spaces(text);
            let call = if !nonempty {
                None
            } else if t.len() > 0 {
                match v.target {
                    ListenTarget::ContentCreate => Some(CommandView::SetText { id: cur, text: t }),
                    ListenTarget::ContentEdit => Some(CommandView::SetText { id: cur, text: t }),
                    ListenTarget::DueDate => Some(CommandView::SetDueDate { id: cur, text: t }),
                    ListenTarget::DueTime => Some(CommandView::Unsupported { what: Feature::DueTime }),
                    ListenTarget::Nothing => None,
                }
            } else {
                match v.target {
                    ListenTarget::ContentCreate => Some(CommandView::RejectCreation { list: me, id: cur }),
                    ListenTarget::DueDate => Some(CommandView::ClearDueDate { id: cur }),
                    ListenTarget::DueTime => Some(CommandView::Unsupported { what: Feature::DueTime }),
                    _ => None,
                }
            };
            match call {
                Some(c) => (done, true, Some(seq![Step::NoOp, Step::Call(c)])),
                None => (done, true, None),
            }
        },
        InsertOutcome::Rejected => {
            if v.target == ListenTarget::ContentCreate && nonempty {
                (done, true, Some(seq![Step::NoOp, Step::Call(CommandView::RejectCreation { list: me, id: cur })]))
            } else {
                (done, true, None)
            }
        },
        InsertOutcome::Unabsorbed => {
            let len = v.items.len() as int;
            match navigate_model(v.sel, len, e) {
                Some(nsel) => (ListView { sel: nsel, ..v }, true, Some(two_noops())),
                None => {
                    if is_plain(e, KeyCode::Char('a')) {
                        (v, true, Some(two_noops().push(Step::Call(CommandView::AddItem { list: me }))))
                    } else if is_plain(e, KeyCode::Char('d')) {
                        if nonempty {
                            (v, true, Some(two_noops().push(Step::Call(CommandView::EditDueDate { list: me, id: cur }))))
                        } else {
                            (v, true, Some(two_noops()))
                        }
                    } else if is_shift(e, KeyCode::Char('D')) {
                        (
                            ListView {
                                insert: InsertState { listening: true, pos: 0, text: Seq::empty() },
                                target: ListenTarget::DueDate,
                                ..v
                            },
                            true,
                            Some(two_noops()),
                        )
                    } else if is_plain(e, KeyCode::Char('i')) {
                        if nonempty {
                            (v, true, Some(two_noops().push(Step::Call(CommandView::EditText { list: me, id: cur }))))
                        } else {
                            (v, true, Some(two_noops()))
                        }
                    } else if is_plain(e, KeyCode::Char('c')) {
                        if nonempty {
                            (v, true, Some(two_noops().push(Step::Call(CommandView::ToggleStatus { id: cur }))))
                        } else {
                            (v, true, Some(two_noops()))
                        }
                    } else if is_ctrl(e, KeyCode::Char('j')) {
                        if len > 1 && v.sel < len - 1 {
                            let items = v.items.update(v.sel, v.items[v.sel + 1]).update(v.sel + 1, v.items[v.sel]);
                            (ListView { items, sel: v.sel + 1, ..v }, true, Some(two_noops()))
                        } else {
                            (v, true, Some(two_noops()))
                        }
                    } else if is_ctrl(e, KeyCode::Char('k')) {
                        if len > 1 && v.sel >= 1 {
                            let items = v.items.update(v.sel, v.items[v.sel - 1]).update(v.sel - 1, v.items[v.sel]);
                            (ListView { items, sel: v.sel - 1, ..v }, true, Some(two_noops()))
                        } else {
                            (v, true, Some(two_noops()))
                        }
                    } else {
                        (v, false, Some(two_noops()))
                    }
                },
            }
        },
    }
}

/// The value an event outcome carries.
pub open spec fn carried<T>(r: EventAction<T>) -> T {
    match r {
        EventAction::Absorbed(t) => t,
        EventAction::Unabsorbed(t) => t,
    }
}

impl View for TodoList {
    type V = ListView;

    closed spec fn view(&self) -> ListView {
        ListView {
            items: self.container.items@,
            sel: self.container.sel(),
            title: self.title@,
            insert: self.insert_mode@,
            target: self.listen_target,
        }
    }
}

impl TodoList {
    pub closed spec fn wf(&self) -> bool {
        &&& self.container.wf()
        &&& self.insert_mode.wf()
        &&& self.insert_mode@.listening ==> self.listen_target != ListenTarget::Nothing
    }

    pub proof fn lemma_wf(&self)
        ensures
            self.wf() ==> list_view_ok(self@),
            self.wf() ==> self.selected_child() == (if self@.items.len() > 0 {
                Some(self@.items[self@.sel])
            } else {
                None::<Id>
            }),
    {
    }

    /// The child under the cursor, if any.
    pub closed spec fn selected_child(&self) -> Option<Id> {
        self.container.spec_selected()
    }

    pub fn new(title: String) -> (r: Self)
        ensures
            r.wf(),
            r@ == (ListView {
                items: Seq::empty(),
                sel: 0,
                title: title@,
                insert: InsertState { listening: false, pos: 0, text: Seq::empty() },
                target: ListenTarget::Nothing,
            }),
    {
        TodoList {
            container: Container::new(),
            title,
            insert_mode: InsertMode::new(),
            listen_target: ListenTarget::Nothing,
        }
    }

    /// A list titled `title` with the children `items`, the cursor on the first.
    pub fn from_parts(title: String, items: Vec<Id>) -> (r: Self)
        ensures
            r.wf(),
            r@ == (ListView {
                items: items@,
                sel: 0,
                title: title@,
                insert: InsertState { listening: false, pos: 0, text: Seq::empty() },
                target: ListenTarget::Nothing,
            }),
    {
        let mut container = Container::new();
        container.items = items;
        TodoList { container, title, insert_mode: InsertMode::new(), listen_target: ListenTarget::Nothing }
    }

    /// The children, in order.
    pub fn items(&self) -> (r: &Vec<Id>)
        ensures
            r@ == self@.items,
    {
        &self.container.items
    }

    /// The position of the cursor.
    pub fn selected(&self) -> (r: usize)
        requires
            self.wf(),
        ensures
            r == self@.sel,
    {
        self.container.selected_index.selected_index()
    }

    pub fn listen_target(&self) -> (r: ListenTarget)
        ensures
            r == self@.target,
    {
        self.listen_target
    }

    pub fn is_listening(&self) -> (r: bool)
        ensures
            r == self@.insert.listening,
    {
        self.insert_mode.is_listening()
    }

    /// The line being edited, split at the editor's cursor.
    pub fn edit_line(&self) -> (r: CursorLine)
        requires
            self.wf(),
        ensures
            shows_line(self@.insert, r),
    {
        self.insert_mode.line()
    }

    /// Starts editing, for `target`, on the text `text`.
    pub fn start_edit(&mut self, target: ListenTarget, text: &str)
        requires
            old(self).wf(),
            target != ListenTarget::Nothing,
        ensures
            final(self).wf(),
            final(self)@ == (ListView {
                insert: InsertState { listening: true, pos: text@.len() as int, text: text@ },
                target,
                ..old(self)@
            }),
    {
        self.listen_target = target;
        self.insert_mode.listen();
        self.insert_mode.replace_text(text);
    }

    /// Inserts the new child `id` below the cursor (at the end of an empty
    /// list), moves the cursor onto it and starts editing its text. Returns
    /// the position it went to.
    pub fn begin_create(&mut self, id: Id) -> (r: usize)
        requires
            old(self).wf(),
        ensures
            final(self).wf(),
            r == (if old(self)@.sel + 1 <= old(self)@.items.len() {
                old(self)@.sel + 1
            } else {
                old(self)@.items.len() as int
            }),
            final(self)@ == (ListView {
                items: old(self)@.items.insert(r as int, id),
                sel: r as int,
                insert: InsertState { listening: true, pos: 0, text: Seq::empty() },
                target: ListenTarget::ContentCreate,
                ..old(self)@
            }),
    {
        self.listen_target = ListenTarget::ContentCreate;
        let sel = self.container.selected_index.selected_index();
        let len = self.container.items.len();
        let new_index = if sel + 1 <= len {
            sel + 1
        } else {
            len
        };
        self.insert_mode.listen();
        self.container.insert(Yank { id, pos: new_index });
        self.container.selected_index.select(new_index);
        new_index
    }

    /// Removes the child `id` if it is at the cursor; reports whether it was.
    pub fn remove_at_cursor(&mut self, id: Id) -> (r: bool)
        requires
            old(self).wf(),
        ensures
            final(self).wf(),
            r == yank_matches(old(self)@.items, Yank { id, pos: old(self)@.sel as usize }),
            r ==> final(self)@ == (ListView {
                items: old(self)@.items.remove(old(self)@.sel),
                sel: if old(self)@.sel > 0 {
                    old(self)@.sel - 1
                } else {
                    0
                },
                ..old(self)@
            }),
            !r ==> final(self)@ == old(self)@,
    {
        let pos = self.container.selected_index.selected_index();
        self.container.remove(Yank { id, pos })
    }

    pub fn handle_events(&mut self, event: &Event, self_id: Id) -> (r: EventAction<AppAction>)
        requires
            old(self).wf(),
        ensures
            final(self).wf(),
            ({
                let (next, absorbed, steps) = list_step(old(self)@, *event, self_id);
                &&& final(self)@ == next
                &&& (r is Absorbed <==> absorbed)
                &&& is_shaped(carried(r), steps)
            }),
    {
        let nonempty = self.container.items.len() > 0;
        let listened = self.listen_target;
        let ghost v0 = self@;
        let out = self.insert_mode.handle_events(event);
        let a = match out {
            InsertAction::Action(a) => a,
            InsertAction::Accepted { action, text } => {
                self.listen_target = ListenTarget::Nothing;
                if !nonempty {
                    return EventAction::Absorbed(action);
                }
                let id = self.container.items[self.container.selected_index.selected_index()];
                let trimmed = trim_spaces_chars(&chars_of(text.as_str()));
                let r = if trimmed.len() > 0 {
                    let t = string_of(&trimmed);
                    match listened {
                        ListenTarget::ContentCreate | ListenTarget::ContentEdit => action.then_call(
                            Command::SetText { id, text: t },
                        ),
                        ListenTarget::DueDate => action.then_call(Command::SetDueDate { id, text: t }),
                        ListenTarget::DueTime => action.then_call(Command::Unsupported { what: Feature::DueTime }),
                        ListenTarget::Nothing => action,
                    }
                } else {
                    match listened {
                        ListenTarget::ContentCreate => action.then_call(
                            Command::RejectCreation { list: self_id, id },
                        ),
                        ListenTarget::DueDate => action.then_call(Command::ClearDueDate { id }),
                        ListenTarget::DueTime => action.then_call(Command::Unsupported { what: Feature::DueTime }),
                        _ => action,
                    }
                };
                return EventAction::Absorbed(r);
            },
            InsertAction::Rejected(action) => {
                self.listen_target = ListenTarget::Nothing;
                if listened == ListenTarget::ContentCreate && nonempty {
                    let id = self.container.items[self.container.selected_index.selected_index()];
                    return EventAction::Absorbed(action.then_call(Command::RejectCreation { list: self_id, id }));
                }
                return EventAction::Absorbed(action);
            },
        };
        let a = match a {
            EventAction::Absorbed(a) => {
                return EventAction::Absorbed(a);
            },
            EventAction::Unabsorbed(a) => a,
        };
        let a = match self.container.handle_events(event) {
            EventAction::Absorbed(action) => {
                return EventAction::Absorbed(action.chain(vec![a]));
            },
            EventAction::Unabsorbed(action) => a.chain(vec![action]),
        };
        assert(a->v@ =~= seq![AppAction::NoOp, AppAction::NoOp]);
        let len = self.container.items.len();
        let i = self.container.selected_index.selected_index();
        match event {
            Event::Key(KeyEvent { code: KeyCode::Char(ch), modifiers }) => {
                let ch = *ch;
                let modifiers = *modifiers;
                if ch == 'a' && modifiers == KeyModifiers::NoModifier {
                    return EventAction::Absorbed(a.then_call(Command::AddItem { list: self_id }));
                } else if ch == 'd' && modifiers == KeyModifiers::NoModifier {
                    if nonempty {
                        let id = self.container.items[i];
                        return EventAction::Absorbed(a.then_call(Command::EditDueDate { list: self_id, id }));
                    }
                    return EventAction::Absorbed(a);
                } else if ch == 'D' && modifiers == KeyModifiers::Shift {
                    self.insert_mode.listen();
                    self.listen_target = ListenTarget::DueDate;
                    return EventAction::Absorbed(a);
                } else if ch == 'i' && modifiers == KeyModifiers::NoModifier {
                    if nonempty {
                        let id = self.container.items[i];
                        return EventAction::Absorbed(a.then_call(Command::EditText { list: self_id, id }));
                    }
                    return EventAction::Absorbed(a);
                } else if ch == 'c' && modifiers == KeyModifiers::NoModifier {
                    if nonempty {
                        let id = self.container.items[i];
                        return EventAction::Absorbed(a.then_call(Command::ToggleStatus { id }));
                    }
                    return EventAction::Absorbed(a);
                } else if ch == 'j' && modifiers == KeyModifiers::Control {
                    if len > 1 && i < len - 1 {
                        let id1 = self.container.items[i];
                        let id2 = self.container.items[i + 1];
                        self.container.items.set(i, id2);
                        self.container.items.set(i + 1, id1);
                        self.container.selected_index.select(i + 1);
                    }
                    return EventAction::Absorbed(a);
                } else if ch == 'k' && modifiers == KeyModifiers::Control {
                    if len > 1 && i >= 1 {
                        let id1 = self.container.items[i];
                        let id2 = self.container.items[i - 1];
                        self.container.items.set(i, id2);
                        self.container.items.set(i - 1, id1);
                        self.container.selected_index.select(i - 1);
                    }
                    return EventAction::Absorbed(a);
                }
            },
            _ => {},
        }
        EventAction::Unabsorbed(a)
    }
}

impl TodoList {
    /// What the list draws: its title; a row for each child with its text and
    /// one with its due date; while editing, the edited line in place of the
    /// text or the date of the child under the cursor.
    pub fn display(&self, reg: &ContentRegister<Content, Id>) -> (r: WidgetOutput)
        requires
            self.wf(),
        ensures
            ({
                let WidgetOutput::TodoList { title, content, date } = r;
                let editing_text = self@.insert.listening && (self@.target == ListenTarget::ContentCreate
                    || self@.target == ListenTarget::ContentEdit);
                let editing_date = self@.insert.listening && self@.target == ListenTarget::DueDate;
                &&& title@ == self@.title
                &&& content@.len() == self@.items.len()
                &&& date@.len() == self@.items.len()
                &&& forall|i: int|
                    0 <= i < self@.items.len() ==> row_text(#[trigger] content@[i]) == (if editing_text && i
                        == self@.sel {
                        None
                    } else {
                        Some(child_text(reg, self@.items[i]))
                    })
                &&& forall|i: int|
                    0 <= i < self@.items.len() ==> row_text(#[trigger] date@[i]) == (if editing_date && i
                        == self@.sel {
                        None
                    } else {
                        Some(child_due(reg, self@.items[i]))
                    })
                &&& editing_text && self@.items.len() > 0 ==> (content@[self@.sel] matches Row::Editing(l)
                    && shows_line(self@.insert, l))
                &&& editing_date && self@.items.len() > 0 ==> (date@[self@.sel] matches Row::Editing(l)
                    && shows_line(self@.insert, l))
            }),
    {
        let n = self.container.items.len();
        let sel = self.container.selected_index.selected_index();
        let listening = self.insert_mode.is_listening();
        let editing_text = listening && (self.listen_target == ListenTarget::ContentCreate
            || self.listen_target == ListenTarget::ContentEdit);
        let editing_date = listening && self.listen_target == ListenTarget::DueDate;
        let mut content: Vec<Row> = Vec::new();
        let mut date: Vec<Row> = Vec::new();
        let mut i: usize = 0;
        while i < n
            invariant
                n == self@.items.len(),
                self.wf(),
                sel == self@.sel,
                i <= n,
                content@.len() == i,
                date@.len() == i,
                editing_text == (self@.insert.listening && (self@.target == ListenTarget::ContentCreate
                    || self@.target == ListenTarget::ContentEdit)),
                editing_date == (self@.insert.listening && self@.target == ListenTarget::DueDate),
                forall|j: int|
                    0 <= j < i ==> row_text(#[trigger] content@[j]) == (if editing_text && j == sel {
                        None
                    } else {
                        Some(child_text(reg, self@.items[j]))
                    }),
                forall|j: int|
                    0 <= j < i ==> row_text(#[trigger] date@[j]) == (if editing_date && j == sel {
                        None
                    } else {
                        Some(child_due(reg, self@.items[j]))
                    }),
                editing_text && sel < i ==> (content@[sel as int] matches Row::Editing(l) && shows_line(
                    self@.insert,
                    l,
                )),
                editing_date && sel < i ==> (date@[sel as int] matches Row::Editing(l) && shows_line(
                    self@.insert,
                    l,
                )),
            decreases n - i,
        {
            let id = self.container.items[i];
            let child = reg.get(id);
            if editing_text && i == sel {
                content.push(Row::Editing(self.insert_mode.line()));
            } else {
                content.push(
                    match child {
                        Some(c) => c.display(),
                        None => Row::Text { text: string_of(&Vec::new()), style: RowStyle::Pending },
                    },
                );
            }
            if editing_date && i == sel {
                date.push(Row::Editing(self.insert_mode.line()));
            } else {
                date.push(
                    Row::Text {
                        text: match child {
                            Some(c) => c.due_text(),
                            None => string_of(&Vec::new()),
                        },
                        style: RowStyle::Date,
                    },
                );
            }
            i = i + 1;
        }
        WidgetOutput::TodoList { title: self.title.clone(), content, date }
    }
}

impl Display for TodoList {
    open spec fn spec_text(&self) -> Seq<char> {
        self@.title
    }

    open spec fn renamed(&self, t: Seq<char>, next: Self) -> bool {
        &&& next@ == (ListView { title: t, ..self@ })
        &&& next.wf() == self.wf()
    }

    fn text(&self) -> (r: String) {
        self.title.clone()
    }

    fn set_text(&mut self, name: String) {
        self.title = name;
    }
}

impl YankDest for TodoList {
    type Query = Yank<Id>;

    open spec fn insert_ok(&self, q: Yank<Id>) -> bool {
        self.wf() && q.pos <= self@.items.len()
    }

    open spec fn inserted(&self, q: Yank<Id>, next: Self) -> bool {
        &&& next.wf()
        &&& (next@.items, next@.sel) == crate::content::traits::insert_model(self@.items, self@.sel, q)
        &&& next@.title == self@.title
        &&& next@.insert == self@.insert
        &&& next@.target == self@.target
    }

    open spec fn removed(&self, q: Yank<Id>, next: Self, r: bool) -> bool {
        &&& self.wf() ==> next.wf()
        &&& self.wf() ==> (next@.items, next@.sel, r) == crate::content::traits::remove_model(
            self@.items,
            self@.sel,
            q,
        )
        &&& next@.title == self@.title
        &&& next@.insert == self@.insert
        &&& next@.target == self@.target
    }

    fn insert(&mut self, q: Yank<Id>) {
        self.container.insert(q)
    }

    fn remove(&mut self, q: Yank<Id>) -> (r: bool) {
        self.container.remove(q)
    }
}

impl Provider for TodoList {
    type Item = Option<Id>;

    open spec fn spec_get(&self, index: int) -> Option<Id> {
        if 0 <= index < self@.items.len() {
            Some(self@.items[index])
        } else {
            None
        }
    }

    open spec fn spec_selected(&self) -> Option<Id> {
        self.selected_child()
    }

    fn get(&self, index: usize) -> (r: Option<Id>) {
        self.container.get(index)
    }

    fn get_selected(&self) -> (r: Option<Id>) {
        self.container.get_selected()
    }
}

} // verus!
