use vstd::prelude::*;

use chrono::Datelike;

use crate::traits::Display;

verus! {

/// The state of a to-do.
#[derive(Clone, Copy, Debug, PartialEq, Eq, Structural)]
pub enum TodoStatus {
    Pending,
    Done,
    Ignored,
}

/// A calendar date.
#[derive(Clone, Copy, Debug, PartialEq, Eq, Structural)]
pub struct Date {
    pub day: u8,
    pub month: u8,
    pub year: u16,
}

/// A time of day.
#[derive(Clone, Copy, Debug, PartialEq, Eq, Structural)]
pub struct Time {
    pub hour: u8,
    pub min: u8,
    pub sec: u8,
}

/// A to-do item.
#[derive(Clone, Debug)]
pub struct Todo {
    pub content: String,
    pub due_date: Option<Date>,
    pub due_time: Option<Time>,
    pub status: TodoStatus,
}

/// What a to-do holds, with its text as characters.
pub struct TodoView {
    pub content: Seq<char>,
    pub due_date: Option<Date>,
    pub due_time: Option<Time>,
    pub status: TodoStatus,
}

impl View for Todo {
    type V = TodoView;

    open spec fn view(&self) -> TodoView {
        TodoView {
            content: self.content@,
            due_date: self.due_date,
            due_time: self.due_time,
            status: self.status,
        }
    }
}

/// The status after a toggle: pending and ignored become done, done becomes
/// pending.
pub open spec fn toggled(s: TodoStatus) -> TodoStatus {
    match s {
        TodoStatus::Pending => TodoStatus::Done,
        TodoStatus::Done => TodoStatus::Pending,
        TodoStatus::Ignored => TodoStatus::Done,
    }
}

/// The format in which due dates are typed and shown.
pub const DATE_FORMAT: &'static str = "%d-%m-%Y";

/// The year, month and day that chrono reads from `s` in the format `fmt`,
/// if `s` names a date in it.
pub uninterp spec fn parsed_date(s: Seq<char>, fmt: Seq<char>) -> Option<(i32, u32, u32)>;

/// Relies on chrono's `NaiveDate::parse_from_str` to read a date from `s`
/// in the format `fmt`, and on `Datelike`'s `year`, `month` and `day` to take
/// it apart: the result depends on `s` and `fmt` alone.
#[verifier::external_body]
fn parse_date(s: &str, fmt: &str) -> (r: Option<(i32, u32, u32)>)
    ensures
        r == parsed_date(s@, fmt@),
{
    match chrono::NaiveDate::parse_from_str(s, fmt) {
        Ok(d) => Some((d.year(), d.month(), d.day())),
        Err(_) => None,
    }
}

/// The date of a year, month and day, where the year fits the date's range.
pub open spec fn date_of(p: (i32, u32, u32)) -> Option<Date> {
    let (y, m, d) = p;
    if 0 <= y <= u16::MAX && 1 <= m <= 12 && 1 <= d <= 31 {
        Some(Date { day: d as u8, month: m as u8, year: y as u16 })
    } else {
        None
    }
}

/// The due date after reading a new one: the date read, where there is one
/// that fits, else the due date as it was.
pub open spec fn due_date_after(old: Option<Date>, parsed: Option<(i32, u32, u32)>) -> Option<Date> {
    match parsed {
        Some(p) => match date_of(p) {
            Some(d) => Some(d),
            None => old,
        },
        None => old,
    }
}

/// The due date after reading `parsed`, the result of reading a typed date.
pub fn next_due_date(old: Option<Date>, parsed: Option<(i32, u32, u32)>) -> (r: Option<Date>)
    ensures
        r == due_date_after(old, parsed),
{
    match parsed {
        Some((y, m, d)) => {
            if 0 <= y && y <= 65535 && 1 <= m && m <= 12 && 1 <= d && d <= 31 {
                Some(Date { day: d as u8, month: m as u8, year: y as u16 })
            } else {
                old
            }
        },
        None => old,
    }
}

/// The due date after the user typed `text`: the date it names, else the
/// due date as it was.
pub fn read_due_date(old: Option<Date>, text: &str) -> (r: Option<Date>)
    ensures
        r == due_date_after(old, parsed_date(text@, DATE_FORMAT@)),
{
    next_due_date(old, parse_date(text, DATE_FORMAT))
}

pub open spec fn digit(n: int) -> char {
    if n == 0 {
        '0'
    } else if n == 1 {
        '1'
    } else if n == 2 {
        '2'
    } else if n == 3 {
        '3'
    } else if n == 4 {
        '4'
    } else if n == 5 {
        '5'
    } else if n == 6 {
        '6'
    } else if n == 7 {
        '7'
    } else if n == 8 {
        '8'
    } else {
        '9'
    }
}

/// The last `width` decimal digits of `n`, most significant first.
pub open spec fn digits(n: nat, width: nat) -> Seq<char>
    decreases width,
{
    if width == 0 {
        Seq::empty()
    } else {
        digits(n / 10, (width - 1) as nat).push(digit((n % 10) as int))
    }
}

/// A date as `dd-mm-yyyy`; a year past 9999 is written with a `+` and five
/// digits.
pub open spec fn date_text(d: Date) -> Seq<char> {
    let year = if d.year <= 9999 {
        digits(d.year as nat, 4)
    } else {
        seq!['+'] + digits(d.year as nat, 5)
    };
    digits(d.day as nat, 2) + seq!['-'] + digits(d.month as nat, 2) + seq!['-'] + year
}

fn digit_char(n: u16) -> (c: char)
    requires
        n < 10,
    ensures
        c == digit(n as int),
{
    if n == 0 {
        '0'
    } else if n == 1 {
        '1'
    } else if n == 2 {
        '2'
    } else if n == 3 {
        '3'
    } else if n == 4 {
        '4'
    } else if n == 5 {
        '5'
    } else if n == 6 {
        '6'
    } else if n == 7 {
        '7'
    } else if n == 8 {
        '8'
    } else {
        '9'
    }
}

fn push_digits(out: &mut Vec<char>, n: u16, width: usize)
    requires
        width <= 5,
    ensures
        final(out)@ == old(out)@ + digits(n as nat, width as nat),
    decreases width,
{
    if width > 0 {
        push_digits(out, n / 10, width - 1);
        out.push(digit_char(n % 10));
    }
}

impl Date {
    /// The date as `dd-mm-yyyy`.
    pub fn text(&self) -> (r: Vec<char>)
        ensures
            r@ == date_text(*self),
    {
        let mut out: Vec<char> = Vec::new();
        push_digits(&mut out, self.day as u16, 2);
        out.push('-');
        push_digits(&mut out, self.month as u16, 2);
        out.push('-');
        if self.year <= 9999 {
            push_digits(&mut out, self.year, 4);
        } else {
            out.push('+');
            push_digits(&mut out, self.year, 5);
        }
        assert(out@ =~= date_text(*self));
        out
    }
}

impl Todo {
    pub fn new(content: String) -> (r: Self)
        ensures
            r@ == (TodoView { content: content@, due_date: None, due_time: None, status: TodoStatus::Pending }),
    {
        Todo { content, due_date: None, due_time: None, status: TodoStatus::Pending }
    }

    pub fn toggle_status(&mut self)
        ensures
            final(self)@ == (TodoView { status: toggled(old(self).status), ..old(self)@ }),
    {
        self.status = match self.status {
            TodoStatus::Pending => TodoStatus::Done,
            TodoStatus::Done => TodoStatus::Pending,
            TodoStatus::Ignored => TodoStatus::Done,
        };
    }

    /// The due date as it is typed: `dd-mm-yyyy`, or nothing.
    pub fn due_date_text(&self) -> (r: Vec<char>)
        ensures
            r@ == (match self.due_date {
                Some(d) => date_text(d),
                None => Seq::<char>::empty(),
            }),
    {
        match self.due_date {
            Some(d) => d.text(),
            None => Vec::new(),
        }
    }
}

impl Display for Todo {
    open spec fn spec_text(&self) -> Seq<char> {
        self.content@
    }

    open spec fn renamed(&self, t: Seq<char>, next: Self) -> bool {
        next@ == (TodoView { content: t, ..self@ })
    }

    fn text(&self) -> (r: String) {
        self.content.clone()
    }

    fn set_text(&mut self, name: String) {
        self.content = name;
    }
}

} // verus!
