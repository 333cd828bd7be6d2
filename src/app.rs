use vstd::prelude::*;

use crate::content::todo::{Todo, TodoStatus, TodoView, DATE_FORMAT, date_text, due_date_after, parsed_date, read_due_date, toggled};
use crate::content::todo_list::{ListView, ListenTarget, TodoList, list_step};
use crate::content::traits::{Content, ContentView, content_text, selected_of, with_text, yank_matches};
use crate::input::{Event, KeyCode, KeyEvent, KeyModifiers, is_plain};
use crate::register::{ContentEntry, ContentID, ContentRegister, Id, Slots, slot_entry, slots_live};
use crate::service::editors::{EditManager, EditManagerView, EditView, Yank};
use crate::service::insert_mode::{InsertState, string_of};
use crate::stack::{ContentStack, pop_model};
use crate::traits::{Display, EventAction};

verus! {

/// An operation that is declared but not supported.
#[derive(Clone, Copy, Debug, PartialEq, Eq, Structural)]
pub enum Feature {
    Cut,
    Copy,
    Paste,
    Undo,
    Redo,
    MoveUp,
    MoveDown,
    DueTime,
}

/// Why applying an action stopped.
#[derive(Clone, Copy, Debug, PartialEq, Eq, Structural)]
pub enum ActionError {
    /// The operation is not supported.
    NotImplemented(Feature),
    /// A handle named an entity that the register does not hold.
    MissingEntity(Id),
    /// An entity was not of the kind the operation works on.
    WrongKind(Id),
    /// The register has issued every handle it can.
    RegisterFull,
}

/// A deferred unit of work on the action context. Each one is a step that
/// an event handler schedules and that completes when applied.
pub enum Command {
    /// Renames entity `id` to `text`.
    SetText { id: Id, text: String },
    /// Sets the due date of to-do `id` from `text`, read as `dd-mm-yyyy`;
    /// text that names no date leaves the due date as it was.
    SetDueDate { id: Id, text: String },
    /// Clears the due date of to-do `id`.
    ClearDueDate { id: Id },
    /// Takes the just created child `id` back out of list `list` and releases it.
    RejectCreation { list: Id, id: Id },
    /// Creates an empty to-do below the cursor of list `list` and starts
    /// editing its text.
    AddItem { list: Id },
    /// Starts editing the due date of to-do `id`, a child of list `list`.
    EditDueDate { list: Id, id: Id },
    /// Starts editing the text of entity `id`, a child of list `list`.
    EditText { list: Id, id: Id },
    /// Cycles the status of to-do `id`: pending and ignored become done, done
    /// becomes pending.
    ToggleStatus { id: Id },
    /// Stops with an error: the operation is not supported.
    Unsupported { what: Feature },
}

/// A command with its text as characters.
pub enum CommandView {
    SetText { id: Id, text: Seq<char> },
    SetDueDate { id: Id, text: Seq<char> },
    ClearDueDate { id: Id },
    RejectCreation { list: Id, id: Id },
    AddItem { list: Id },
    EditDueDate { list: Id, id: Id },
    EditText { list: Id, id: Id },
    ToggleStatus { id: Id },
    Unsupported { what: Feature },
}

impl View for Command {
    type V = CommandView;

    open spec fn view(&self) -> CommandView {
        match self {
            Command::SetText { id, text } => CommandView::SetText { id: *id, text: text@ },
            Command::SetDueDate { id, text } => CommandView::SetDueDate { id: *id, text: text@ },
            Command::ClearDueDate { id } => CommandView::ClearDueDate { id: *id },
            Command::RejectCreation { list, id } => CommandView::RejectCreation { list: *list, id: *id },
            Command::AddItem { list } => CommandView::AddItem { list: *list },
            Command::EditDueDate { list, id } => CommandView::EditDueDate { list: *list, id: *id },
            Command::EditText { list, id } => CommandView::EditText { list: *list, id: *id },
            Command::ToggleStatus { id } => CommandView::ToggleStatus { id: *id },
            Command::Unsupported { what } => CommandView::Unsupported { what: *what },
        }
    }
}

/// A deferred command value.
pub enum AppAction {
    Callback { call: Command },
    Actions { v: Vec<AppAction> },
    MoveDown,
    MoveUp,
    MoveRight,
    MoveLeft,
    NoOp,
}

/// One element of a flat sequence of actions.
pub enum Step {
    NoOp,
    Call(CommandView),
    Other,
}

pub open spec fn step_of(a: AppAction) -> Step {
    match a {
        AppAction::NoOp => Step::NoOp,
        AppAction::Callback { call } => Step::Call(call@),
        _ => Step::Other,
    }
}

/// `a` is the no-op (`None`), or a sequence whose elements are `steps`.
pub open spec fn is_shaped(a: AppAction, steps: Option<Seq<Step>>) -> bool {
    match steps {
        None => a is NoOp,
        Some(s) => {
            &&& a is Actions
            &&& a->v@.len() == s.len()
            &&& forall|i: int| 0 <= i < s.len() ==> step_of(#[trigger] a->v@[i]) == s[i]
        },
    }
}

/// The elements of `a` chained with `others`: those of `a` if it is a
/// sequence, else `a` itself, followed by `others`.
pub open spec fn chain_seq(a: AppAction, others: Seq<AppAction>) -> Seq<AppAction> {
    match a {
        AppAction::Actions { v } => v@ + others,
        _ => seq![a] + others,
    }
}

impl AppAction {
    /// Appends `other` to this action: a sequence grows in place, any other
    /// action becomes the first element of a new sequence.
    pub fn chain(self, other: Vec<AppAction>) -> (r: AppAction)
        ensures
            r is Actions,
            r->v@ == chain_seq(self, other@),
    {
        let mut other = other;
        match self {
            AppAction::Actions { v } => {
                let mut v = v;
                v.append(&mut other);
                AppAction::Actions { v }
            },
            a => {
                let mut v: Vec<AppAction> = Vec::new();
                v.push(a);
                v.append(&mut other);
                AppAction::Actions { v }
            },
        }
    }

    /// The action that runs `call`.
    pub fn callback(call: Command) -> (r: AppAction)
        ensures
            step_of(r) == Step::Call(call@),
            r == (AppAction::Callback { call }),
    {
        AppAction::Callback { call }
    }

    /// `self` followed by the action that runs `call`.
    pub fn then_call(self, call: Command) -> (r: AppAction)
        ensures
            r is Actions,
            r->v@ == chain_seq(self, seq![AppAction::Callback { call }]),
    {
        let mut v: Vec<AppAction> = Vec::new();
        v.push(AppAction::callback(call));
        proof {
            assert(v@ =~= seq![AppAction::Callback { call }]);
        }
        self.chain(v)
    }
}

/// A stored entity as the context sees it.
pub struct EntryView {
    pub val: ContentView,
    pub generation: u64,
    pub count: u32,
}

pub open spec fn entry_view(o: Option<ContentEntry<Content>>) -> Option<EntryView> {
    match o {
        Some(e) => Some(EntryView { val: e.val@, generation: e.generation, count: e.id_counter }),
        None => None,
    }
}

pub open spec fn reg_view(s: Slots<Content>) -> Seq<Option<EntryView>> {
    s.map_values(|o: Option<ContentEntry<Content>>| entry_view(o))
}

/// What the action context holds: the entities, the edit ledger, and the
/// navigation stack.
pub struct CtxView {
    pub reg: Seq<Option<EntryView>>,
    pub edits: EditManagerView,
    pub stack: Seq<Id>,
}

/// `k` names a live entity of `reg`.
pub open spec fn live(reg: Seq<Option<EntryView>>, k: Id) -> bool {
    &&& k.0.id < reg.len()
    &&& reg[k.0.id as int] is Some
    &&& reg[k.0.id as int]->Some_0.generation == k.0.generation
}

pub open spec fn val_of(reg: Seq<Option<EntryView>>, k: Id) -> ContentView {
    reg[k.0.id as int]->Some_0.val
}

/// `reg` with the entity `k` replaced by `v`.
pub open spec fn set_val(reg: Seq<Option<EntryView>>, k: Id, v: ContentView) -> Seq<Option<EntryView>> {
    let e = reg[k.0.id as int]->Some_0;
    reg.update(k.0.id as int, Some(EntryView { val: v, ..e }))
}

/// `reg` after an unregistration of `k`: released by its last owner, else
/// counted down.
pub open spec fn unregister_view(reg: Seq<Option<EntryView>>, k: Id) -> Seq<Option<EntryView>> {
    let e = reg[k.0.id as int]->Some_0;
    if e.count <= 1 {
        reg.update(k.0.id as int, None)
    } else {
        reg.update(k.0.id as int, Some(EntryView { count: (e.count - 1) as u32, ..e }))
    }
}

/// A list that starts editing, for `target`, on `text`.
pub open spec fn editing(l: ListView, target: ListenTarget, text: Seq<char>) -> ListView {
    ListView { insert: InsertState { listening: true, pos: text.len() as int, text }, target, ..l }
}

/// The context after list `list` starts editing, for `target`, on `text`.
pub open spec fn start_edit_effect(s: CtxView, list: Id, target: ListenTarget, text: Seq<char>) -> (
    CtxView,
    Result<(), ActionError>,
) {
    if !live(s.reg, list) {
        (s, Err(ActionError::MissingEntity(list)))
    } else {
        match val_of(s.reg, list) {
            ContentView::TodoList(l) => (
                CtxView { reg: set_val(s.reg, list, ContentView::TodoList(editing(l, target, text))), ..s },
                Ok(()),
            ),
            _ => (s, Err(ActionError::WrongKind(list))),
        }
    }
}

/// The context after a change `f` to to-do `id`.
pub open spec fn todo_effect(s: CtxView, id: Id, f: spec_fn(TodoView) -> TodoView) -> (CtxView, Result<(), ActionError>) {
    if !live(s.reg, id) {
        (s, Err(ActionError::MissingEntity(id)))
    } else {
        match val_of(s.reg, id) {
            ContentView::Todo(t) => (CtxView { reg: set_val(s.reg, id, ContentView::Todo(f(t))), ..s }, Ok(())),
            _ => (s, Err(ActionError::WrongKind(id))),
        }
    }
}

/// The empty to-do that a new item starts as.
pub open spec fn empty_todo() -> ContentView {
    ContentView::Todo(TodoView { content: Seq::empty(), due_date: None, due_time: None, status: TodoStatus::Pending })
}

/// Where list `l` puts a new child: below the cursor, or at the end.
pub open spec fn new_index(l: ListView) -> int {
    if l.sel + 1 <= l.items.len() {
        l.sel + 1
    } else {
        l.items.len() as int
    }
}

/// The context after a command, and whether it succeeded.
pub open spec fn command_effect(c: CommandView, s: CtxView) -> (CtxView, Result<(), ActionError>) {
    match c {
        CommandView::SetText { id, text } => if !live(s.reg, id) {
            (s, Err(ActionError::MissingEntity(id)))
        } else {
            (CtxView { reg: set_val(s.reg, id, with_text(val_of(s.reg, id), text)), ..s }, Ok(()))
        },
        CommandView::SetDueDate { id, text } => todo_effect(
            s,
            id,
            |t: TodoView| TodoView { due_date: due_date_after(t.due_date, parsed_date(text, DATE_FORMAT@)), ..t },
        ),
        CommandView::ClearDueDate { id } => todo_effect(s, id, |t: TodoView| TodoView { due_date: None, ..t }),
        CommandView::ToggleStatus { id } => todo_effect(s, id, |t: TodoView| TodoView { status: toggled(t.status), ..t }),
        CommandView::RejectCreation { list, id } => if !live(s.reg, list) {
            (s, Err(ActionError::MissingEntity(list)))
        } else {
            match val_of(s.reg, list) {
                ContentView::TodoList(l) => if !live(s.reg, id) {
                    (s, Err(ActionError::MissingEntity(id)))
                } else {
                    let l2 = if yank_matches(l.items, Yank { id, pos: l.sel as usize }) {
                        ListView { items: l.items.remove(l.sel), sel: if l.sel > 0 { l.sel - 1 } else { 0 }, ..l }
                    } else {
                        l
                    };
                    let reg1 = set_val(s.reg, list, ContentView::TodoList(l2));
                    (CtxView { reg: unregister_view(reg1, id), ..s }, Ok(()))
                },
                _ => (s, Err(ActionError::WrongKind(list))),
            }
        },
        CommandView::AddItem { list } => if !live(s.reg, list) {
            (s, Err(ActionError::MissingEntity(list)))
        } else {
            match val_of(s.reg, list) {
                ContentView::TodoList(l) => if s.reg.len() >= u64::MAX {
                    (s, Err(ActionError::RegisterFull))
                } else {
                    let n = s.reg.len() as u64;
                    let id = Id(ContentID { id: n, generation: n });
                    let pos = new_index(l);
                    let reg1 = s.reg.push(Some(EntryView { val: empty_todo(), generation: n, count: 1 }));
                    let l2 = ListView {
                        items: l.items.insert(pos, id),
                        sel: pos,
                        insert: InsertState { listening: true, pos: 0, text: Seq::empty() },
                        target: ListenTarget::ContentCreate,
                        ..l
                    };
                    let edits = EditManagerView {
                        edits: s.edits.edits.push(EditView::Pasted { source: list, yanks: seq![Yank { id, pos: pos as usize }] }),
                        ..s.edits
                    };
                    (CtxView { reg: set_val(reg1, list, ContentView::TodoList(l2)), edits, ..s }, Ok(()))
                },
                _ => (s, Err(ActionError::WrongKind(list))),
            }
        },
        CommandView::EditDueDate { list, id } => if !live(s.reg, id) {
            (s, Err(ActionError::MissingEntity(id)))
        } else {
            match val_of(s.reg, id) {
                ContentView::Todo(t) => start_edit_effect(
                    s,
                    list,
                    ListenTarget::DueDate,
                    match t.due_date {
                        Some(d) => date_text(d),
                        None => Seq::empty(),
                    },
                ),
                _ => (s, Err(ActionError::WrongKind(id))),
            }
        },
        CommandView::EditText { list, id } => if !live(s.reg, id) {
            (s, Err(ActionError::MissingEntity(id)))
        } else {
            start_edit_effect(s, list, ListenTarget::ContentEdit, content_text(val_of(s.reg, id)))
        },
        CommandView::Unsupported { what } => (s, Err(ActionError::NotImplemented(what))),
    }
}

/// The context after moving focus into the selected child of the focused
/// entity, where that child draws itself.
pub open spec fn move_right_model(s: CtxView) -> CtxView {
    let top = s.stack.last();
    if live(s.reg, top) {
        match selected_of(val_of(s.reg, top)) {
            Some(c) => if live(s.reg, c) && val_of(s.reg, c) is TodoList {
                CtxView { stack: s.stack.push(c), ..s }
            } else {
                s
            },
            None => s,
        }
    } else {
        s
    }
}

/// The context after applying `a`, and whether it succeeded.
pub open spec fn apply_model(a: AppAction, s: CtxView) -> (CtxView, Result<(), ActionError>)
    decreases a, 0nat,
{
    match a {
        AppAction::Callback { call } => command_effect(call@, s),
        AppAction::Actions { v } => apply_from(v, 0, s),
        AppAction::MoveDown => (s, Err(ActionError::NotImplemented(Feature::MoveDown))),
        AppAction::MoveUp => (s, Err(ActionError::NotImplemented(Feature::MoveUp))),
        AppAction::MoveRight => (move_right_model(s), Ok(())),
        AppAction::MoveLeft => (CtxView { stack: pop_model(s.stack).0, ..s }, Ok(())),
        AppAction::NoOp => (s, Ok(())),
    }
}

/// The context after applying the elements of `v` from position `i` on, in
/// order, stopping at the first failure.
pub open spec fn apply_from(v: Vec<AppAction>, i: int, s: CtxView) -> (CtxView, Result<(), ActionError>)
    decreases v, v@.len() - i,
{
    if i < 0 || i >= v@.len() {
        (s, Ok(()))
    } else {
        let (s1, r) = apply_model(v@[i], s);
        if r is Err {
            (s1, r)
        } else {
            apply_from(v, i + 1, s1)
        }
    }
}

/// The mutable resources that actions work on.
pub struct AppActionContext {
    pub register: ContentRegister<Content, Id>,
    pub editor: EditManager,
    pub stack: ContentStack,
}

impl View for AppActionContext {
    type V = CtxView;

    open spec fn view(&self) -> CtxView {
        CtxView { reg: reg_view(self.register@), edits: self.editor@, stack: self.stack@ }
    }
}

impl AppActionContext {
    /// The register is consistent, the stack has its root, and every list in
    /// the register is well formed.
    pub open spec fn wf(&self) -> bool {
        &&& self.register.wf()
        &&& self.stack.wf()
        &&& forall|i: int|
            0 <= i < self.register@.len() && #[trigger] self.register@[i] is Some
                ==> self.register@[i]->Some_0.val.wf()
    }
}

proof fn lemma_set_entry(s: Slots<Content>, k: Id, v: Content)
    requires
        slots_live(s, k.0),
    ensures
        reg_view(
            s.update(
                k.0.id as int,
                Some(ContentEntry { val: v, generation: k.0.generation, id_counter: slot_entry(s, k.0).id_counter }),
            ),
        ) == set_val(reg_view(s), k, v@),
{
    assert(reg_view(
        s.update(
            k.0.id as int,
            Some(ContentEntry { val: v, generation: k.0.generation, id_counter: slot_entry(s, k.0).id_counter }),
        ),
    ) =~= set_val(reg_view(s), k, v@));
}

proof fn lemma_live(s: Slots<Content>, k: Id)
    ensures
        slots_live(s, k.0) <==> live(reg_view(s), k),
        slots_live(s, k.0) ==> val_of(reg_view(s), k) == slot_entry(s, k.0).val@,
{
}

impl AppActionContext {
    /// Writing an entity back unchanged leaves the register as it was.
    proof fn lemma_unchanged(&self, before: Slots<Content>, k: Id)
        requires
            slots_live(before, k.0),
            self.register@ == before.update(
                k.0.id as int,
                Some(
                    ContentEntry {
                        val: slot_entry(before, k.0).val,
                        generation: k.0.generation,
                        id_counter: slot_entry(before, k.0).id_counter,
                    },
                ),
            ),
        ensures
            self.register@ == before,
    {
        assert(self.register@ =~= before);
    }
}

fn run_set_text(ctx: &mut AppActionContext, id: Id, text: String) -> (r: Result<(), ActionError>)
    requires
        old(ctx).wf(),
    ensures
        final(ctx).wf(),
        (final(ctx)@, r) == command_effect(CommandView::SetText { id, text: text@ }, old(ctx)@),
{
    let ghost s0 = ctx.register@;
    proof {
        lemma_live(s0, id);
    }
    match ctx.register.get_mut(id) {
        Some(c) => {
            c.set_text(text);
        },
        None => {
            return Err(ActionError::MissingEntity(id));
        },
    }
    proof {
        lemma_set_entry(s0, id, ctx.register@[id.0.id as int]->Some_0.val);
    }
    Ok(())
}

/// A change to one to-do.
enum TodoChange {
    ReadDueDate,
    ClearDueDate,
    ToggleStatus,
}

/// What `change` does to a to-do; `text` is the typed due date.
spec fn todo_change(change: TodoChange, text: Seq<char>) -> spec_fn(TodoView) -> TodoView {
    match change {
        TodoChange::ReadDueDate => |t: TodoView|
            TodoView { due_date: due_date_after(t.due_date, parsed_date(text, DATE_FORMAT@)), ..t },
        TodoChange::ClearDueDate => |t: TodoView| TodoView { due_date: None, ..t },
        TodoChange::ToggleStatus => |t: TodoView| TodoView { status: toggled(t.status), ..t },
    }
}

/// Makes `change` to to-do `id`.
fn run_on_todo(ctx: &mut AppActionContext, id: Id, change: TodoChange, text: &str) -> (r: Result<(), ActionError>)
    requires
        old(ctx).wf(),
    ensures
        final(ctx).wf(),
        (final(ctx)@, r) == todo_effect(old(ctx)@, id, todo_change(change, text@)),
{
    let ghost s0 = ctx.register@;
    proof {
        lemma_live(s0, id);
    }
    match ctx.register.get_mut(id) {
        Some(c) => match c {
            Content::Todo(t) => match change {
                TodoChange::ReadDueDate => {
                    t.due_date = read_due_date(t.due_date, text);
                },
                TodoChange::ClearDueDate => {
                    t.due_date = None;
                },
                TodoChange::ToggleStatus => {
                    t.toggle_status();
                },
            },
            Content::TodoList(_) => {
                proof {
                    ctx.lemma_unchanged(s0, id);
                }
                return Err(ActionError::WrongKind(id));
            },
        },
        None => {
            return Err(ActionError::MissingEntity(id));
        },
    }
    proof {
        lemma_set_entry(s0, id, ctx.register@[id.0.id as int]->Some_0.val);
    }
    Ok(())
}

fn run_reject_creation(ctx: &mut AppActionContext, list: Id, id: Id) -> (r: Result<(), ActionError>)
    requires
        old(ctx).wf(),
    ensures
        final(ctx).wf(),
        (final(ctx)@, r) == command_effect(CommandView::RejectCreation { list, id }, old(ctx)@),
{
    let ghost s0 = ctx.register@;
    proof {
        lemma_live(s0, list);
        lemma_live(s0, id);
    }
    let kind_ok = match ctx.register.get(list) {
        Some(Content::TodoList(_)) => true,
        Some(_) => {
            return Err(ActionError::WrongKind(list));
        },
        None => {
            return Err(ActionError::MissingEntity(list));
        },
    };
    if ctx.register.get(id).is_none() {
        return Err(ActionError::MissingEntity(id));
    }
    match ctx.register.get_mut(list) {
        Some(c) => match c {
            Content::TodoList(l) => {
                l.remove_at_cursor(id);
            },
            _ => {},
        },
        None => {},
    }
    let ghost s1 = ctx.register@;
    proof {
        lemma_set_entry(s0, list, s1[list.0.id as int]->Some_0.val);
        lemma_live(s1, id);
    }
    let _ = ctx.register.unregister(id);
    proof {
        assert(reg_view(ctx.register@) =~= unregister_view(reg_view(s1), id));
    }
    Ok(())
}

fn run_add_item(ctx: &mut AppActionContext, list: Id) -> (r: Result<(), ActionError>)
    requires
        old(ctx).wf(),
    ensures
        final(ctx).wf(),
        (final(ctx)@, r) == command_effect(CommandView::AddItem { list }, old(ctx)@),
{
    let ghost s0 = ctx.register@;
    proof {
        lemma_live(s0, list);
    }
    match ctx.register.get(list) {
        Some(Content::TodoList(_)) => {},
        Some(_) => {
            return Err(ActionError::WrongKind(list));
        },
        None => {
            return Err(ActionError::MissingEntity(list));
        },
    }
    if ctx.register.slots().len() as u64 >= u64::MAX {
        return Err(ActionError::RegisterFull);
    }
    let id: Id = ctx.register.allocate(Content::Todo(Todo::new(String::new())));
    let ghost s1 = ctx.register@;
    proof {
        assert(reg_view(s1) =~= reg_view(s0).push(Some(EntryView { val: empty_todo(), generation: id.0.id, count: 1 })));
        lemma_live(s1, list);
    }
    let mut pos: usize = 0;
    match ctx.register.get_mut(list) {
        Some(c) => match c {
            Content::TodoList(l) => {
                pos = l.begin_create(id);
            },
            _ => {},
        },
        None => {},
    }
    proof {
        lemma_set_entry(s1, list, ctx.register@[list.0.id as int]->Some_0.val);
    }
    let mut yanks: Vec<Yank<Id>> = Vec::new();
    yanks.push(Yank { id, pos });
    ctx.editor.record_paste(list, yanks);
    proof {
        assert(yanks@ =~= seq![Yank { id, pos }]);
    }
    Ok(())
}

fn run_start_edit(ctx: &mut AppActionContext, list: Id, target: ListenTarget, text: &str) -> (r: Result<(), ActionError>)
    requires
        old(ctx).wf(),
        target != ListenTarget::Nothing,
    ensures
        final(ctx).wf(),
        (final(ctx)@, r) == start_edit_effect(old(ctx)@, list, target, text@),
{
    let ghost s0 = ctx.register@;
    proof {
        lemma_live(s0, list);
    }
    match ctx.register.get_mut(list) {
        Some(c) => match c {
            Content::TodoList(l) => {
                l.start_edit(target, text);
            },
            _ => {
                proof {
                    ctx.lemma_unchanged(s0, list);
                }
                return Err(ActionError::WrongKind(list));
            },
        },
        None => {
            return Err(ActionError::MissingEntity(list));
        },
    }
    proof {
        lemma_set_entry(s0, list, ctx.register@[list.0.id as int]->Some_0.val);
    }
    Ok(())
}

fn run_edit_due_date(ctx: &mut AppActionContext, list: Id, id: Id) -> (r: Result<(), ActionError>)
    requires
        old(ctx).wf(),
    ensures
        final(ctx).wf(),
        (final(ctx)@, r) == command_effect(CommandView::EditDueDate { list, id }, old(ctx)@),
{
    proof {
        lemma_live(ctx.register@, id);
    }
    let text = match ctx.register.get(id) {
        Some(Content::Todo(t)) => string_of(&t.due_date_text()),
        Some(_) => {
            return Err(ActionError::WrongKind(id));
        },
        None => {
            return Err(ActionError::MissingEntity(id));
        },
    };
    run_start_edit(ctx, list, ListenTarget::DueDate, text.as_str())
}

fn run_edit_text(ctx: &mut AppActionContext, list: Id, id: Id) -> (r: Result<(), ActionError>)
    requires
        old(ctx).wf(),
    ensures
        final(ctx).wf(),
        (final(ctx)@, r) == command_effect(CommandView::EditText { list, id }, old(ctx)@),
{
    proof {
        lemma_live(ctx.register@, id);
    }
    let text = match ctx.register.get(id) {
        Some(c) => c.text(),
        None => {
            return Err(ActionError::MissingEntity(id));
        },
    };
    run_start_edit(ctx, list, ListenTarget::ContentEdit, text.as_str())
}

impl Command {
    /// Carries out the command on `ctx` and hands back the action to apply
    /// next; every command here completes in one step, so that action is the
    /// no-op.
    pub fn run(self, ctx: &mut AppActionContext) -> (r: Result<AppAction, ActionError>)
        requires
            old(ctx).wf(),
        ensures
            final(ctx).wf(),
            (final(ctx)@, match r {
                Ok(_) => Ok(()),
                Err(e) => Err(e),
            }) == command_effect(self@, old(ctx)@),
            r matches Ok(next) ==> next is NoOp,
    {
        let done = match self {
            Command::SetText { id, text } => run_set_text(ctx, id, text),
            Command::SetDueDate { id, text } => run_on_todo(ctx, id, TodoChange::ReadDueDate, text.as_str()),
            Command::ClearDueDate { id } => run_on_todo(ctx, id, TodoChange::ClearDueDate, ""),
            Command::ToggleStatus { id } => run_on_todo(ctx, id, TodoChange::ToggleStatus, ""),
            Command::RejectCreation { list, id } => run_reject_creation(ctx, list, id),
            Command::AddItem { list } => run_add_item(ctx, list),
            Command::EditDueDate { list, id } => run_edit_due_date(ctx, list, id),
            Command::EditText { list, id } => run_edit_text(ctx, list, id),
            Command::Unsupported { what } => Err(ActionError::NotImplemented(what)),
        };
        match done {
            Ok(()) => Ok(AppAction::NoOp),
            Err(e) => Err(e),
        }
    }
}

/// How deeply an action nests callbacks and sequences: a follow-up that a
/// callback hands back is lower than the callback.
pub open spec fn action_height(a: AppAction) -> nat
    decreases a, 0nat,
{
    match a {
        AppAction::Actions { v } => 1 + heights_from(v, 0),
        AppAction::Callback { .. } => 1,
        _ => 0,
    }
}

/// The greatest height among the elements of `v` from position `i` on.
pub open spec fn heights_from(v: Vec<AppAction>, i: int) -> nat
    decreases v, v@.len() - i,
{
    if i < 0 || i >= v@.len() {
        0
    } else {
        let h = action_height(v@[i]);
        let rest = heights_from(v, i + 1);
        if h > rest {
            h
        } else {
            rest
        }
    }
}

proof fn lemma_heights_from(v: Vec<AppAction>, i: int, j: int)
    requires
        0 <= j <= i < v@.len(),
    ensures
        action_height(v@[i]) <= heights_from(v, j),
    decreases i - j,
{
    if j < i {
        lemma_heights_from(v, i, j + 1);
    }
}

impl AppAction {
    /// Applies the action to `ctx`: a callback runs its command, a sequence
    /// applies its elements in order and stops at the first failure, the
    /// navigation directives move the focus. The first failure is returned.
    pub fn apply(self, ctx: &mut AppActionContext) -> (r: Result<(), ActionError>)
        requires
            old(ctx).wf(),
        ensures
            final(ctx).wf(),
            (final(ctx)@, r) == apply_model(self, old(ctx)@),
        decreases action_height(self),
    {
        let ghost whole = self;
        match self {
            AppAction::Callback { call } => match call.run(ctx) {
                Ok(next) => next.apply(ctx),
                Err(e) => Err(e),
            },
            AppAction::Actions { v } => {
                let ghost orig = v;
                let ghost s0 = ctx@;
                let mut v = v;
                let n = v.len();
                let mut i: usize = 0;
                while v.len() > 0
                    invariant
                        ctx.wf(),
                        n == orig@.len(),
                        i <= orig@.len(),
                        v@ == orig@.skip(i as int),
                        apply_from(orig, 0, s0) == apply_from(orig, i as int, ctx@),
                        whole == (AppAction::Actions { v: orig }),
                        whole == self,
                        s0 == old(ctx)@,
                    decreases v@.len(),
                {
                    let a = v.remove(0);
                    assert(a == orig@[i as int]);
                    proof {
                        lemma_heights_from(orig, i as int, 0);
                    }
                    let ghost sb = ctx@;
                    let r = a.apply(ctx);
                    assert(apply_from(orig, i as int, sb) == (if r is Err {
                        (ctx@, r)
                    } else {
                        apply_from(orig, i + 1, ctx@)
                    }));
                    match r {
                        Ok(()) => {},
                        Err(e) => {
                            return Err(e);
                        },
                    }
                    i = i + 1;
                    assert(v@ =~= orig@.skip(i as int));
                }
                Ok(())
            },
            AppAction::MoveDown => Err(ActionError::NotImplemented(Feature::MoveDown)),
            AppAction::MoveUp => Err(ActionError::NotImplemented(Feature::MoveUp)),
            AppAction::MoveRight => {
                let top = ctx.stack.last();
                proof {
                    lemma_live(ctx.register@, top);
                }
                let child = match ctx.register.get(top) {
                    Some(c) => c.selected_child(),
                    None => None,
                };
                match child {
                    Some(c) => {
                        proof {
                            lemma_live(ctx.register@, c);
                        }
                        let widget = match ctx.register.get(c) {
                            Some(e) => e.has_widget(),
                            None => false,
                        };
                        if widget {
                            ctx.stack.push(c);
                        }
                    },
                    None => {},
                }
                Ok(())
            },
            AppAction::MoveLeft => {
                let _ = ctx.stack.pop();
                Ok(())
            },
            AppAction::NoOp => Ok(()),
        }
    }
}

/// `r` is `a` chained with `others`.
pub open spec fn chained(a: AppAction, others: Seq<AppAction>, r: AppAction) -> bool {
    r is Actions && r->v@ == chain_seq(a, others)
}

proof fn lemma_apply_from_same(v: Vec<AppAction>, w: Vec<AppAction>, i: int, s: CtxView)
    requires
        v@ == w@,
    ensures
        apply_from(v, i, s) == apply_from(w, i, s),
    decreases v@.len() - i,
{
    if 0 <= i < v@.len() {
        let (s1, r) = apply_model(v@[i], s);
        if r is Ok {
            lemma_apply_from_same(v, w, i + 1, s1);
        }
    }
}

/// Chaining is associative in effect: `a` chained with `b` and then with `c`
/// applies exactly as `a` chained with `b` and `c` at once.
pub proof fn lemma_chain_associative(a: AppAction, b: AppAction, c: AppAction, ab: AppAction, ab_c: AppAction, a_bc: AppAction, s: CtxView)
    requires
        chained(a, seq![b], ab),
        chained(ab, seq![c], ab_c),
        chained(a, seq![b, c], a_bc),
    ensures
        apply_model(ab_c, s) == apply_model(a_bc, s),
{
    assert(ab_c->v@ =~= a_bc->v@);
    lemma_apply_from_same(ab_c->v, a_bc->v, 0, s);
}

/// The context after the steps `st` from position `i` on, stopping at the
/// first failure.
pub open spec fn steps_from(st: Seq<Step>, i: int, s: CtxView) -> (CtxView, Result<(), ActionError>)
    decreases st.len() - i,
{
    if i < 0 || i >= st.len() {
        (s, Ok(()))
    } else {
        let (s1, r) = match st[i] {
            Step::Call(c) => command_effect(c, s),
            _ => (s, Ok(())),
        };
        if r is Err {
            (s1, r)
        } else {
            steps_from(st, i + 1, s1)
        }
    }
}

/// The context after applying a flat action of the steps `steps`.
pub open spec fn apply_steps(steps: Option<Seq<Step>>, s: CtxView) -> (CtxView, Result<(), ActionError>) {
    match steps {
        None => (s, Ok(())),
        Some(st) => steps_from(st, 0, s),
    }
}

/// No step is of a kind other than a no-op or a call.
pub open spec fn flat_steps(steps: Option<Seq<Step>>) -> bool {
    steps matches Some(st) ==> forall|i: int| 0 <= i < st.len() ==> !(#[trigger] st[i] is Other)
}

proof fn lemma_apply_shaped_from(v: Vec<AppAction>, st: Seq<Step>, i: int, s: CtxView)
    requires
        v@.len() == st.len(),
        forall|j: int| 0 <= j < st.len() ==> step_of(#[trigger] v@[j]) == st[j],
        forall|j: int| 0 <= j < st.len() ==> !(#[trigger] st[j] is Other),
    ensures
        apply_from(v, i, s) == steps_from(st, i, s),
    decreases st.len() - i,
{
    if 0 <= i < st.len() {
        assert(step_of(v@[i]) == st[i]);
        assert(!(st[i] is Other));
        let (s1, r) = apply_model(v@[i], s);
        if r is Ok {
            lemma_apply_shaped_from(v, st, i + 1, s1);
        }
    }
}

/// A flat action applies as its steps do.
pub proof fn lemma_apply_shaped(a: AppAction, steps: Option<Seq<Step>>, s: CtxView)
    requires
        is_shaped(a, steps),
        flat_steps(steps),
    ensures
        apply_model(a, s) == apply_steps(steps, s),
{
    if let Some(st) = steps {
        lemma_apply_shaped_from(a->v, st, 0, s);
    }
}

/// One input event on the application with context `s`: the focused list
/// handles it; an event it leaves is seen by the global keys (quit, focus
/// deeper, focus shallower); then the action produced is applied. Gives the
/// context after, whether to quit, and the first failure.
pub open spec fn app_step(s: CtxView, quit: bool, e: Event) -> (CtxView, bool, Result<(), ActionError>) {
    let top = s.stack.last();
    let (s1, absorbed, steps) = if live(s.reg, top) && val_of(s.reg, top) is TodoList {
        let (l2, ab, st) = list_step(val_of(s.reg, top)->TodoList_0, e, top);
        (CtxView { reg: set_val(s.reg, top, ContentView::TodoList(l2)), ..s }, ab, st)
    } else {
        (s, false, None)
    };
    if absorbed {
        let (s2, r) = apply_steps(steps, s1);
        (s2, quit, r)
    } else if is_plain(e, KeyCode::Char('q')) {
        let (s2, r) = apply_steps(steps, s1);
        (s2, true, r)
    } else if is_plain(e, KeyCode::Right) {
        let (s2, r) = apply_steps(steps, move_right_model(s1));
        (s2, quit, r)
    } else if is_plain(e, KeyCode::Left) {
        let (s2, r) = apply_steps(steps, CtxView { stack: pop_model(s1.stack).0, ..s1 });
        (s2, quit, r)
    } else {
        let (s2, r) = apply_steps(steps, s1);
        (s2, quit, r)
    }
}

/// Every step that a list hands back is a no-op or a call.
proof fn lemma_list_steps_flat(v: ListView, e: Event, me: Id)
    ensures
        flat_steps(list_step(v, e, me).2),
{
}

/// The application: the action context and whether to quit.
pub struct App {
    pub context: AppActionContext,
    pub quit: bool,
}

/// The handle of the root list of a new application.
pub open spec fn root_id() -> Id {
    Id(ContentID { id: 0, generation: 0 })
}

impl App {
    /// An application whose register holds only the root list, titled
    /// `title`, which has the focus.
    pub fn new(title: String) -> (r: App)
        ensures
            r.context.wf(),
            !r.quit,
            r.context@.stack == seq![root_id()],
            r.context@.edits.edits == Seq::<EditView>::empty(),
            r.context@.reg == seq![
                Some(
                    EntryView {
                        val: ContentView::TodoList(
                            ListView {
                                items: Seq::empty(),
                                sel: 0,
                                title: title@,
                                insert: InsertState { listening: false, pos: 0, text: Seq::empty() },
                                target: ListenTarget::Nothing,
                            },
                        ),
                        generation: 0,
                        count: 1,
                    },
                ),
            ],
    {
        let mut register: ContentRegister<Content, Id> = ContentRegister::new();
        let root: Id = register.allocate(Content::TodoList(TodoList::new(title)));
        let stack = ContentStack::new(root);
        let app = App { context: AppActionContext { register, editor: EditManager::new(), stack }, quit: false };
        proof {
            assert(app.context@.reg =~= seq![
                Some(
                    EntryView {
                        val: ContentView::TodoList(
                            ListView {
                                items: Seq::empty(),
                                sel: 0,
                                title: title@,
                                insert: InsertState { listening: false, pos: 0, text: Seq::empty() },
                                target: ListenTarget::Nothing,
                            },
                        ),
                        generation: 0,
                        count: 1,
                    },
                ),
            ]);
        }
        app
    }

    /// Handles one input event; see `app_step`.
    pub fn handle_event(&mut self, event: &Event) -> (r: Result<(), ActionError>)
        requires
            old(self).context.wf(),
        ensures
            final(self).context.wf(),
            (final(self).context@, final(self).quit, r) == app_step(old(self).context@, old(self).quit, *event),
    {
        let id = self.context.stack.last();
        let ghost s0 = self.context.register@;
        proof {
            lemma_live(s0, id);
        }
        let handled = match self.context.register.get_mut(id) {
            Some(c) => c.handle_events(event, id),
            None => None,
        };
        proof {
            if slots_live(s0, id.0) {
                lemma_set_entry(s0, id, self.context.register@[id.0.id as int]->Some_0.val);
                if !(slot_entry(s0, id.0).val is TodoList) {
                    assert(reg_view(self.context.register@) =~= reg_view(s0));
                }
            }
        }
        let ghost s1 = self.context@;
        let a = match handled {
            Some(ea) => ea,
            None => EventAction::Unabsorbed(AppAction::NoOp),
        };
        let ghost steps = if slots_live(s0, id.0) && slot_entry(s0, id.0).val is TodoList {
            list_step(slot_entry(s0, id.0).val->TodoList_0@, *event, id).2
        } else {
            None
        };
        proof {
            if slots_live(s0, id.0) && slot_entry(s0, id.0).val is TodoList {
                lemma_list_steps_flat(slot_entry(s0, id.0).val->TodoList_0@, *event, id);
            }
        }
        let a = match a {
            EventAction::Unabsorbed(a) => {
                match event {
                    Event::Key(KeyEvent { code, modifiers: KeyModifiers::NoModifier }) => match code {
                        KeyCode::Char('q') => {
                            self.quit = true;
                        },
                        KeyCode::Right => {
                            let _ = AppAction::MoveRight.apply(&mut self.context);
                        },
                        KeyCode::Left => {
                            let _ = AppAction::MoveLeft.apply(&mut self.context);
                        },
                        _ => {},
                    },
                    _ => {},
                }
                a
            },
            EventAction::Absorbed(a) => a,
        };
        proof {
            lemma_apply_shaped(a, steps, self.context@);
        }
        a.apply(&mut self.context)
    }
}

} // verus!
