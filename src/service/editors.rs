use vstd::prelude::*;

use crate::app::{AppAction, Command, Feature};
use crate::input::{Event, KeyCode, KeyEvent, KeyModifiers, is_ctrl, is_plain};
use crate::register::Id;
use crate::traits::EventAction;

verus! {

/// How a yank was taken.
#[derive(Clone, Copy, Debug, PartialEq, Eq, Structural)]
pub enum YankType {
    Cut,
    Copy,
}

/// A reference to the child `id` at position `pos` of some container.
#[derive(Clone, Copy, Debug, PartialEq, Eq, Structural)]
pub struct Yank<T> {
    pub id: T,
    pub pos: usize,
}

/// A pending clipboard: yanks taken from one source container.
#[derive(Clone, Debug)]
pub struct Yanker {
    pub yanks: Vec<Yank<Id>>,
    pub source: Id,
}

/// A recorded edit.
#[derive(Clone, Debug)]
pub enum Edit {
    Yanked { yank_type: YankType, source: Id, yanks: Vec<Yank<Id>> },
    Pasted { source: Id, yanks: Vec<Yank<Id>> },
}

/// A recorded edit, with its yanks as a sequence.
pub enum EditView {
    Yanked { yank_type: YankType, source: Id, yanks: Seq<Yank<Id>> },
    Pasted { source: Id, yanks: Seq<Yank<Id>> },
}

impl View for Edit {
    type V = EditView;

    open spec fn view(&self) -> EditView {
        match self {
            Edit::Yanked { yank_type, source, yanks } => EditView::Yanked {
                yank_type: *yank_type,
                source: *source,
                yanks: yanks@,
            },
            Edit::Pasted { source, yanks } => EditView::Pasted { source: *source, yanks: yanks@ },
        }
    }
}

/// The clipboard and the log of edits.
#[derive(Clone, Debug)]
pub struct EditManager {
    pub yanker: Option<Yanker>,
    pub edit_stack: Vec<Edit>,
    pub undo_stack: Vec<Edit>,
}

/// What the edit manager holds: the clipboard's source and yanks, the edits
/// made, and the edits undone.
pub struct EditManagerView {
    pub clipboard: Option<(Id, Seq<Yank<Id>>)>,
    pub edits: Seq<EditView>,
    pub undone: Seq<EditView>,
}

impl View for EditManager {
    type V = EditManagerView;

    open spec fn view(&self) -> EditManagerView {
        EditManagerView {
            clipboard: match self.yanker {
                Some(y) => Some((y.source, y.yanks@)),
                None => None,
            },
            edits: self.edit_stack@.map_values(|e: Edit| e@),
            undone: self.undo_stack@.map_values(|e: Edit| e@),
        }
    }
}

/// The clipboard after yanking `y` from `source`: added to the pending yanks
/// if they come from the same source, else replacing them.
pub open spec fn clipboard_after(clip: Option<(Id, Seq<Yank<Id>>)>, y: Yank<Id>, source: Id) -> Option<
    (Id, Seq<Yank<Id>>),
> {
    match clip {
        Some((s, ys)) => if s == source {
            Some((s, ys.push(y)))
        } else {
            Some((source, seq![y]))
        },
        None => Some((source, seq![y])),
    }
}

/// The unsupported operation a key asks for: cut and copy (only on the
/// clipboard's own source), undo, redo and paste.
pub open spec fn unsupported_key(e: Event, same_source: bool) -> Option<Feature> {
    if is_ctrl(e, KeyCode::Char('x')) && same_source {
        Some(Feature::Cut)
    } else if is_ctrl(e, KeyCode::Char('c')) && same_source {
        Some(Feature::Copy)
    } else if is_ctrl(e, KeyCode::Char('z')) {
        Some(Feature::Undo)
    } else if is_ctrl(e, KeyCode::Char('y')) {
        Some(Feature::Redo)
    } else if is_ctrl(e, KeyCode::Char('v')) {
        Some(Feature::Paste)
    } else {
        None
    }
}

/// What an event on a yankable child sees: the source container and the
/// child, if there is one.
pub struct EditContext {
    pub source_id: Id,
    pub item: Option<Yank<Id>>,
}

impl EditManager {
    pub fn new() -> (r: Self)
        ensures
            r@.clipboard is None,
            r@.edits == Seq::<EditView>::empty(),
            r@.undone == Seq::<EditView>::empty(),
    {
        let r = EditManager { yanker: None, edit_stack: Vec::new(), undo_stack: Vec::new() };
        assert(r@.edits =~= Seq::<EditView>::empty());
        assert(r@.undone =~= Seq::<EditView>::empty());
        r
    }

    /// Adds `y` to the clipboard: to the pending yanks if they come from
    /// `source`, else in place of them.
    pub fn register_yank(&mut self, y: Yank<Id>, source: Id)
        ensures
            final(self)@ == (EditManagerView { clipboard: clipboard_after(old(self)@.clipboard, y, source), ..old(self)@ }),
    {
        let same = match &self.yanker {
            Some(yk) => yk.source == source,
            None => false,
        };
        if same {
            match self.yanker.as_mut() {
                Some(yk) => {
                    yk.yanks.push(y);
                },
                None => {},
            }
        } else {
            let mut yanks: Vec<Yank<Id>> = Vec::new();
            yanks.push(y);
            self.yanker = Some(Yanker { yanks, source });
        }
        assert(self@.edits =~= old(self)@.edits);
        assert(self@.undone =~= old(self)@.undone);
    }

    /// Logs that `yanks` were inserted into `source`.
    pub fn record_paste(&mut self, source: Id, yanks: Vec<Yank<Id>>)
        ensures
            final(self)@ == (EditManagerView {
                edits: old(self)@.edits.push(EditView::Pasted { source, yanks: yanks@ }),
                ..old(self)@
            }),
    {
        let ghost y = yanks@;
        self.edit_stack.push(Edit::Pasted { source, yanks });
        assert(self@.edits =~= old(self)@.edits.push(EditView::Pasted { source, yanks: y }));
        assert(self@.undone =~= old(self)@.undone);
    }

    /// Yanks the child in `ctx` on `y` and moves on to the next child; the
    /// cut, copy, paste, undo and redo keys stop with an unsupported
    /// operation; other events are left for the ancestors.
    pub fn handle_events(&mut self, event: &Event, ctx: EditContext) -> (r: EventAction<AppAction>)
        ensures
            ({
                let same = old(self)@.clipboard matches Some((s, _)) && s == ctx.source_id;
                if is_plain(*event, KeyCode::Char('y')) && ctx.item is Some {
                    &&& r == EventAction::Absorbed(AppAction::MoveDown)
                    &&& final(self)@ == (EditManagerView {
                        clipboard: clipboard_after(old(self)@.clipboard, ctx.item->Some_0, ctx.source_id),
                        ..old(self)@
                    })
                } else {
                    &&& final(self)@ == old(self)@
                    &&& match unsupported_key(*event, same) {
                        Some(f) => r matches EventAction::Absorbed(AppAction::Callback {
                            call: Command::Unsupported { what },
                        }) && what == f,
                        None => r matches EventAction::Unabsorbed(AppAction::NoOp),
                    }
                }
            }),
    {
        let same_source = match &self.yanker {
            Some(y) => y.source == ctx.source_id,
            None => false,
        };
        let unsupported = |what: Feature| -> (r: EventAction<AppAction>)
            ensures
                r == EventAction::Absorbed(AppAction::Callback { call: Command::Unsupported { what } }),
            { EventAction::Absorbed(AppAction::Callback { call: Command::Unsupported { what } }) };
        match event {
            Event::Key(KeyEvent { code: KeyCode::Char(c), modifiers }) => {
                let c = *c;
                let m = *modifiers;
                if c == 'y' && m == KeyModifiers::NoModifier {
                    match ctx.item {
                        Some(item) => {
                            self.register_yank(item, ctx.source_id);
                            return EventAction::Absorbed(AppAction::MoveDown);
                        },
                        None => {},
                    }
                } else if m == KeyModifiers::Control {
                    if c == 'x' && same_source {
                        return unsupported(Feature::Cut);
                    } else if c == 'c' && same_source {
                        return unsupported(Feature::Copy);
                    } else if c == 'z' {
                        return unsupported(Feature::Undo);
                    } else if c == 'y' {
                        return unsupported(Feature::Redo);
                    } else if c == 'v' {
                        return unsupported(Feature::Paste);
                    }
                }
            },
            _ => {},
        }
        EventAction::Unabsorbed(AppAction::NoOp)
    }
}

impl Default for EditManager {
    fn default() -> (r: Self)
        ensures
            r@.clipboard is None,
            r@.edits == Seq::<EditView>::empty(),
            r@.undone == Seq::<EditView>::empty(),
    {
        EditManager::new()
    }
}

} // verus!
