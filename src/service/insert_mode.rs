use vstd::prelude::*;

use crate::app::AppAction;
use crate::input::{is_plain, Event, KeyCode, KeyEvent, KeyModifiers};
use crate::traits::EventAction;

verus! {

/// Relies on `String`'s `FromIterator<char>`: the string holds the characters
/// in order.
#[verifier::external_body]
pub(crate) fn string_of(v: &Vec<char>) -> (r: String)
    ensures
        r@ == v@,
{
    v.iter().collect()
}

/// The characters of `s`, in order.
pub fn chars_of(s: &str) -> (r: Vec<char>)
    ensures
        r@ == s@,
{
    let n = s.unicode_len();
    let mut v: Vec<char> = Vec::new();
    let mut i: usize = 0;
    while i < n
        invariant
            n == s@.len(),
            i <= n,
            v@ == s@.subrange(0, i as int),
        decreases n - i,
    {
        v.push(s.get_char(i));
        i = i + 1;
    }
    assert(v@ =~= s@);
    v
}

/// The state of the editor: whether it listens, the cursor, the text.
pub struct InsertState {
    pub listening: bool,
    pub pos: int,
    pub text: Seq<char>,
}

/// The editor at rest: not listening, nothing typed.
pub open spec fn idle_state() -> InsertState {
    InsertState { listening: false, pos: 0, text: Seq::empty() }
}

/// The cursor is within the text.
pub open spec fn insert_state_ok(s: InsertState) -> bool {
    0 <= s.pos <= s.text.len()
}

/// What the editor made of an event.
pub enum InsertOutcome {
    Unabsorbed,
    Absorbed,
    Accepted(Seq<char>),
    Rejected,
}

/// A character to type: a press of a character key with no modifier or with
/// Shift only.
pub open spec fn typed_char(e: Event) -> Option<char> {
    match e {
        Event::Key(KeyEvent { code: KeyCode::Char(c), modifiers: KeyModifiers::NoModifier }) => Some(c),
        Event::Key(KeyEvent { code: KeyCode::Char(c), modifiers: KeyModifiers::Shift }) => Some(c),
        _ => None,
    }
}

/// One step of the editor on event `e`.
pub open spec fn insert_step(s: InsertState, e: Event) -> (InsertState, InsertOutcome) {
    if !s.listening || e is Other {
        (s, InsertOutcome::Unabsorbed)
    } else if typed_char(e) is Some {
        (
            InsertState { pos: s.pos + 1, text: s.text.insert(s.pos, typed_char(e)->Some_0), ..s },
            InsertOutcome::Absorbed,
        )
    } else if is_plain(e, KeyCode::Right) {
        (
            InsertState { pos: if s.pos + 1 <= s.text.len() { s.pos + 1 } else { s.text.len() as int }, ..s },
            InsertOutcome::Absorbed,
        )
    } else if is_plain(e, KeyCode::Left) {
        (InsertState { pos: if s.pos > 0 { s.pos - 1 } else { 0 }, ..s }, InsertOutcome::Absorbed)
    } else if is_plain(e, KeyCode::Home) {
        (InsertState { pos: 0, ..s }, InsertOutcome::Absorbed)
    } else if is_plain(e, KeyCode::End) {
        (InsertState { pos: s.text.len() as int, ..s }, InsertOutcome::Absorbed)
    } else if is_plain(e, KeyCode::Backspace) {
        if s.pos > 0 {
            (InsertState { pos: s.pos - 1, text: s.text.remove(s.pos - 1), ..s }, InsertOutcome::Absorbed)
        } else {
            (s, InsertOutcome::Absorbed)
        }
    } else if is_plain(e, KeyCode::Esc) {
        (idle_state(), InsertOutcome::Rejected)
    } else if is_plain(e, KeyCode::Enter) {
        (idle_state(), InsertOutcome::Accepted(s.text))
    } else {
        (s, InsertOutcome::Absorbed)
    }
}

/// The editor after the events `es`, in order.
pub open spec fn insert_run(s: InsertState, es: Seq<Event>) -> InsertState
    decreases es.len(),
{
    if es.len() == 0 {
        s
    } else {
        insert_step(insert_run(s, es.drop_last()), es.last()).0
    }
}

/// A single-line modal text editor.
#[derive(Clone, Debug)]
pub struct InsertMode {
    listening: bool,
    pos: usize,
    text: Vec<char>,
}

/// What the editor hands back for an event: an ordinary event outcome, the
/// text accepted with Enter, or a rejection with Escape.
pub enum InsertAction<T> {
    Action(EventAction<T>),
    Accepted { action: T, text: String },
    Rejected(T),
}

/// The outcome that an editor result stands for.
pub open spec fn outcome_of(a: InsertAction<AppAction>) -> InsertOutcome {
    match a {
        InsertAction::Action(EventAction::Absorbed(_)) => InsertOutcome::Absorbed,
        InsertAction::Action(EventAction::Unabsorbed(_)) => InsertOutcome::Unabsorbed,
        InsertAction::Accepted { text, .. } => InsertOutcome::Accepted(text@),
        InsertAction::Rejected(_) => InsertOutcome::Rejected,
    }
}

/// The action an editor result carries.
pub open spec fn action_of<T>(a: InsertAction<T>) -> T {
    match a {
        InsertAction::Action(EventAction::Absorbed(t)) => t,
        InsertAction::Action(EventAction::Unabsorbed(t)) => t,
        InsertAction::Accepted { action, .. } => action,
        InsertAction::Rejected(t) => t,
    }
}

/// The three parts of the edited line: the text before the cursor, the
/// character under it (a space past the end), and the text after it.
pub struct CursorLine {
    pub before: String,
    pub at: char,
    pub after: String,
}

/// `l` is the line of editor state `s` split at its cursor.
pub open spec fn shows_line(s: InsertState, l: CursorLine) -> bool {
    &&& l.before@ == s.text.take(s.pos)
    &&& l.at == (if s.pos < s.text.len() {
        s.text[s.pos]
    } else {
        ' '
    })
    &&& l.after@ == (if s.pos < s.text.len() {
        s.text.skip(s.pos + 1)
    } else {
        Seq::<char>::empty()
    })
}

impl View for InsertMode {
    type V = InsertState;

    closed spec fn view(&self) -> InsertState {
        InsertState { listening: self.listening, pos: self.pos as int, text: self.text@ }
    }
}

impl InsertMode {
    pub open spec fn wf(&self) -> bool {
        insert_state_ok(self@)
    }

    pub fn new() -> (r: Self)
        ensures
            r@ == idle_state(),
    {
        InsertMode { listening: false, pos: 0, text: Vec::new() }
    }

    /// Starts listening on an empty text.
    pub fn listen(&mut self)
        ensures
            final(self)@ == (InsertState { listening: true, pos: 0, text: Seq::empty() }),
    {
        self.listening = true;
        self.pos = 0;
        self.text = Vec::new();
    }

    pub fn stop_listen(&mut self)
        ensures
            final(self)@ == (InsertState { listening: false, ..old(self)@ }),
    {
        self.listening = false;
    }

    pub fn is_listening(&self) -> (r: bool)
        ensures
            r == self@.listening,
    {
        self.listening
    }

    /// Puts `text` in the editor, with the cursor at its end.
    pub fn replace_text(&mut self, text: &str)
        ensures
            final(self)@ == (InsertState { pos: text@.len() as int, text: text@, ..old(self)@ }),
    {
        self.text = chars_of(text);
        self.pos = self.text.len();
    }

    /// The edited line, split at the cursor.
    pub fn line(&self) -> (r: CursorLine)
        requires
            self.wf(),
        ensures
            shows_line(self@, r),
    {
        let n = self.text.len();
        let mut before: Vec<char> = Vec::new();
        let mut i: usize = 0;
        while i < self.pos
            invariant
                self.pos <= n == self.text@.len(),
                i <= self.pos,
                before@ == self.text@.take(i as int),
            decreases self.pos - i,
        {
            before.push(self.text[i]);
            i = i + 1;
            assert(before@ =~= self.text@.take(i as int));
        }
        let at = if self.pos < n {
            self.text[self.pos]
        } else {
            ' '
        };
        let mut after: Vec<char> = Vec::new();
        if self.pos < n {
            let mut j: usize = self.pos + 1;
            while j < n
                invariant
                    self.pos < n == self.text@.len(),
                    self.pos + 1 <= j <= n,
                    after@ == self.text@.subrange(self.pos + 1, j as int),
                decreases n - j,
            {
                after.push(self.text[j]);
                j = j + 1;
                assert(after@ =~= self.text@.subrange(self.pos + 1, j as int));
            }
            assert(after@ =~= self.text@.skip(self.pos + 1));
        } else {
            assert(after@ =~= Seq::<char>::empty());
        }
        CursorLine { before: string_of(&before), at, after: string_of(&after) }
    }

    pub fn handle_events(&mut self, event: &Event) -> (r: InsertAction<AppAction>)
        requires
            old(self).wf(),
        ensures
            final(self).wf(),
            (final(self)@, outcome_of(r)) == insert_step(old(self)@, *event),
            action_of(r) is NoOp,
    {
        let unabsorbed = InsertAction::Action(EventAction::Unabsorbed(AppAction::NoOp));
        if !self.listening {
            return unabsorbed;
        }
        match event {
            Event::Key(k) => {
                let KeyEvent { code, modifiers } = *k;
                match (code, modifiers) {
                    (KeyCode::Char(c), KeyModifiers::NoModifier) | (KeyCode::Char(c), KeyModifiers::Shift) => {
                        self.text.insert(self.pos, c);
                        let n = self.text.len();
                        assert(self.pos < n);
                        self.pos = self.pos + 1;
                    },
                    (KeyCode::Right, KeyModifiers::NoModifier) => {
                        self.pos = if self.pos < self.text.len() {
                            self.pos + 1
                        } else {
                            self.text.len()
                        };
                    },
                    (KeyCode::Left, KeyModifiers::NoModifier) => {
                        self.pos = if self.pos > 0 {
                            self.pos - 1
                        } else {
                            0
                        };
                    },
                    (KeyCode::Home, KeyModifiers::NoModifier) => {
                        self.pos = 0;
                    },
                    (KeyCode::End, KeyModifiers::NoModifier) => {
                        self.pos = self.text.len();
                    },
                    (KeyCode::Backspace, KeyModifiers::NoModifier) => {
                        if self.pos > 0 {
                            self.text.remove(self.pos - 1);
                            self.pos = self.pos - 1;
                        }
                    },
                    (KeyCode::Esc, KeyModifiers::NoModifier) => {
                        *self = InsertMode::new();
                        return InsertAction::Rejected(AppAction::NoOp);
                    },
                    (KeyCode::Enter, KeyModifiers::NoModifier) => {
                        let text = string_of(&self.text);
                        *self = InsertMode::new();
                        return InsertAction::Accepted { action: AppAction::NoOp, text };
                    },
                    _ => {},
                }
            },
            Event::Other => {
                return unabsorbed;
            },
        }
        InsertAction::Action(EventAction::Absorbed(AppAction::NoOp))
    }
}

impl Default for InsertMode {
    fn default() -> (r: Self)
        ensures
            r@ == idle_state(),
    {
        InsertMode::new()
    }
}

/// Over any sequence of events the cursor stays within the text; Enter on a
/// listening editor returns it to rest and hands back exactly the text in it;
/// Escape returns it to rest and discards the text.
pub proof fn lemma_insert_mode_laws(s: InsertState, es: Seq<Event>)
    requires
        insert_state_ok(s),
    ensures
        insert_state_ok(insert_run(s, es)),
        s.listening ==> insert_step(s, Event::Key(KeyEvent { code: KeyCode::Enter, modifiers: KeyModifiers::NoModifier }))
            == (idle_state(), InsertOutcome::Accepted(s.text)),
        s.listening ==> insert_step(s, Event::Key(KeyEvent { code: KeyCode::Esc, modifiers: KeyModifiers::NoModifier }))
            == (idle_state(), InsertOutcome::Rejected),
    decreases es.len(),
{
    if es.len() > 0 {
        lemma_insert_mode_laws(s, es.drop_last());
    }
}

/// Typing characters into an empty listening editor leaves exactly those
/// characters in it, with the cursor after them.
pub proof fn lemma_typing(cs: Seq<char>, es: Seq<Event>)
    requires
        es.len() == cs.len(),
        forall|i: int| 0 <= i < es.len() ==> typed_char(#[trigger] es[i]) == Some(cs[i]),
    ensures
        insert_run(InsertState { listening: true, pos: 0, text: Seq::empty() }, es) == (InsertState {
            listening: true,
            pos: cs.len() as int,
            text: cs,
        }),
    decreases es.len(),
{
    if es.len() > 0 {
        let pre = cs.drop_last();
        assert(forall|i: int| 0 <= i < es.drop_last().len() ==> es.drop_last()[i] == es[i]);
        lemma_typing(pre, es.drop_last());
        assert(typed_char(es.last()) == Some(cs.last()));
        assert(pre.insert(pre.len() as int, cs.last()) =~= cs);
    } else {
        assert(cs =~= Seq::<char>::empty());
    }
}

} // verus!
