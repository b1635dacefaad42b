//! The store: three ordered lists of entries, and the operations on them.
use vstd::prelude::*;

use crate::cli::TodoElements;
use crate::laws::lemma_trim_twice;
use crate::text::{agrees, confirms, numbered, numbered_line, trim, trim_of};

verus! {

/// The texts held by a list of strings, in order.
pub open spec fn texts(v: Seq<String>) -> Seq<Seq<char>> {
    v.map_values(|s: String| s@)
}

/// The three lists of a store, as sequences of texts.
pub struct TodoView {
    pub pending: Seq<Seq<char>>,
    pub completed: Seq<Seq<char>>,
    pub notes: Seq<Seq<char>>,
}

/// A list after an entry is offered to it: the trimmed text is appended
/// unless it is empty or already in the list.
pub open spec fn with_entry(list: Seq<Seq<char>>, text: Seq<char>) -> Seq<Seq<char>> {
    let t = trim_of(text);
    if t.len() == 0 || list.contains(t) {
        list
    } else {
        list.push(t)
    }
}

/// A list after a request to clear it, answered with `answer`.
pub open spec fn after_clear(list: Seq<Seq<char>>, answer: Seq<char>) -> Seq<Seq<char>> {
    if agrees(answer) {
        Seq::empty()
    } else {
        list
    }
}

/// Every entry of the list is a non-empty text that trimming keeps as it is.
pub open spec fn all_entries_trimmed(list: Seq<Seq<char>>) -> bool {
    forall|i: int| 0 <= i < list.len() ==> #[trigger] list[i].len() > 0 && trim_of(list[i]) == list[i]
}

/// The lines that show a list: a header, then each entry numbered from 0;
/// nothing at all for an empty list.
pub open spec fn listing(header: Seq<char>, items: Seq<Seq<char>>) -> Seq<Seq<char>> {
    if items.len() == 0 {
        Seq::empty()
    } else {
        seq![header] + Seq::new(items.len(), |i: int| numbered(i as nat, items[i]))
    }
}

pub open spec fn pending_header() -> Seq<char> {
    seq!['-', '-', ' ', 'T', 'O', 'D', 'O', ' ', '-', '-']
}

pub open spec fn completed_header() -> Seq<char> {
    seq!['-', '-', ' ', 'D', 'O', 'N', 'E', ' ', '-', '-']
}

pub open spec fn notes_header() -> Seq<char> {
    seq!['-', '-', ' ', 'N', 'O', 'T', 'E', ' ', '-', '-']
}

/// Why an operation on the store was refused.
#[derive(Debug, Clone, Copy, PartialEq, Eq, Structural)]
pub enum StoreError {
    /// The index given to complete a task names no pending task.
    IndexOutOfRange { index: usize, len: usize },
}

/// The store: pending tasks, completed tasks and notes.
#[derive(Debug)]
pub struct Todo {
    todo: Vec<String>,
    done: Vec<String>,
    note: Vec<String>,
}

impl View for Todo {
    type V = TodoView;

    closed spec fn view(&self) -> TodoView {
        TodoView { pending: texts(self.todo@), completed: texts(self.done@), notes: texts(self.note@) }
    }
}

impl TodoView {
    /// Pending tasks and notes hold no entry twice, and each of their
    /// entries is trimmed and not empty.
    pub open spec fn wf(self) -> bool {
        &&& self.pending.no_duplicates()
        &&& self.notes.no_duplicates()
        &&& all_entries_trimmed(self.pending)
        &&& all_entries_trimmed(self.notes)
    }
}

/// Whether `list` holds a string with the text `item`.
fn contains_text(list: &Vec<String>, item: &String) -> (r: bool)
    ensures
        r == texts(list@).contains(item@),
{
    let mut i: usize = 0;
    while i < list.len()
        invariant
            i <= list.len(),
            forall|k: int| 0 <= k < i ==> list@[k]@ != item@,
        decreases list.len() - i,
    {
        if list[i] == *item {
            assert(texts(list@)[i as int] == item@);
            return true;
        }
        i += 1;
    }
    proof {
        if texts(list@).contains(item@) {
            let k = choose|k: int| 0 <= k < texts(list@).len() && texts(list@)[k] == item@;
            assert(list@[k]@ == item@);
        }
    }
    false
}

/// Offers `item` to a list: see `with_entry`.
fn add_entry(list: &mut Vec<String>, item: &str) -> (added: bool)
    ensures
        texts(final(list)@) == with_entry(texts(old(list)@), item@),
        added == (texts(final(list)@) != texts(old(list)@)),
        texts(old(list)@).no_duplicates() ==> texts(final(list)@).no_duplicates(),
        all_entries_trimmed(texts(old(list)@)) ==> all_entries_trimmed(texts(final(list)@)),
{
    let t = trim(item);
    if t.as_str().is_empty() || contains_text(list, &t) {
        return false;
    }
    proof {
        assert(t@.len() != 0);
    }
    let ghost before = list@;
    list.push(t);
    proof {
        assert(texts(list@) =~= texts(before).push(trim_of(item@)));
        assert(texts(list@).len() != texts(before).len());
        lemma_trim_twice(item@);
    }
    true
}

/// Shows one list: see `listing`.
fn show_list(header: &str, items: &Vec<String>) -> (lines: Vec<String>)
    ensures
        texts(lines@) == listing(header@, texts(items@)),
{
    let mut lines: Vec<String> = Vec::new();
    if items.len() == 0 {
        assert(texts(lines@) =~= Seq::<Seq<char>>::empty());
        return lines;
    }
    lines.push(header.to_owned());
    let mut i: usize = 0;
    while i < items.len()
        invariant
            i <= items.len(),
            items@.len() > 0,
            texts(lines@) =~= seq![header@] + Seq::new(
                i as nat,
                |k: int| numbered(k as nat, texts(items@)[k]),
            ),
        decreases items.len() - i,
    {
        let line = numbered_line(i, items[i].as_str());
        let ghost before = lines@;
        lines.push(line);
        proof {
            assert(texts(lines@) =~= texts(before).push(numbered(i as nat, texts(items@)[i as int])));
        }
        i += 1;
    }
    lines
}

impl Todo {
    /// A store with three empty lists.
    pub fn new() -> (r: Todo)
        ensures
            r@.pending == Seq::<Seq<char>>::empty(),
            r@.completed == Seq::<Seq<char>>::empty(),
            r@.notes == Seq::<Seq<char>>::empty(),
    {
        let r = Todo { todo: Vec::new(), done: Vec::new(), note: Vec::new() };
        assert(r@.pending =~= Seq::<Seq<char>>::empty());
        assert(r@.completed =~= Seq::<Seq<char>>::empty());
        assert(r@.notes =~= Seq::<Seq<char>>::empty());
        r
    }

    /// A store that holds the given lists as they are, as when it is read
    /// back from where it was kept.
    pub fn from_lists(todo: Vec<String>, done: Vec<String>, note: Vec<String>) -> (r: Todo)
        ensures
            r@.pending == texts(todo@),
            r@.completed == texts(done@),
            r@.notes == texts(note@),
    {
        Todo { todo, done, note }
    }

    /// Pending tasks, oldest first.
    pub fn pending(&self) -> (r: &Vec<String>)
        ensures
            texts(r@) == self@.pending,
    {
        &self.todo
    }

    /// Completed tasks, in the order they were completed.
    pub fn completed(&self) -> (r: &Vec<String>)
        ensures
            texts(r@) == self@.completed,
    {
        &self.done
    }

    /// Notes, oldest first.
    pub fn notes(&self) -> (r: &Vec<String>)
        ensures
            texts(r@) == self@.notes,
    {
        &self.note
    }

    /// Offers a task to the pending list: its trimmed text is appended unless
    /// it is blank or already pending. Says whether it was appended.
    pub fn handle_todo(&mut self, todo_item: String) -> (added: bool)
        ensures
            final(self)@ == (TodoView {
                pending: with_entry(old(self)@.pending, todo_item@),
                ..old(self)@
            }),
            added == (final(self)@.pending != old(self)@.pending),
            old(self)@.wf() ==> final(self)@.wf(),
    {
        add_entry(&mut self.todo, todo_item.as_str())
    }

    /// Offers a note to the notes list, as `handle_todo` does for tasks.
    pub fn handle_note(&mut self, note_item: String) -> (added: bool)
        ensures
            final(self)@ == (TodoView { notes: with_entry(old(self)@.notes, note_item@), ..old(self)@ }),
            added == (final(self)@.notes != old(self)@.notes),
            old(self)@.wf() ==> final(self)@.wf(),
    {
        add_entry(&mut self.note, note_item.as_str())
    }

    /// Moves the pending task at `index` to the end of the completed list and
    /// returns its text. An index past the pending list changes nothing.
    pub fn handle_done(&mut self, index: usize) -> (r: Result<String, StoreError>)
        ensures
            match r {
                Ok(item) => {
                    &&& index < old(self)@.pending.len()
                    &&& item@ == old(self)@.pending[index as int]
                    &&& final(self)@ == (TodoView {
                        pending: old(self)@.pending.remove(index as int),
                        completed: old(self)@.completed.push(old(self)@.pending[index as int]),
                        notes: old(self)@.notes,
                    })
                },
                Err(e) => {
                    &&& index >= old(self)@.pending.len()
                    &&& e == StoreError::IndexOutOfRange { index, len: old(self)@.pending.len() as usize }
                    &&& final(self)@ == old(self)@
                },
            },
            final(self)@.pending.len() + final(self)@.completed.len() == old(self)@.pending.len()
                + old(self)@.completed.len(),
            old(self)@.wf() ==> final(self)@.wf(),
    {
        let len = self.todo.len();
        if index >= len {
            return Err(StoreError::IndexOutOfRange { index, len });
        }
        let ghost before = *self;
        let item = self.todo.remove(index);
        let kept = item.clone();
        self.done.push(item);
        proof {
            assert(self@.pending =~= before@.pending.remove(index as int));
            assert(self@.completed =~= before@.completed.push(before@.pending[index as int]));
            if before@.wf() {
                let p = before@.pending;
                assert forall|a: int, b: int|
                    0 <= a < b < p.remove(index as int).len() implies p.remove(index as int)[a]
                    != p.remove(index as int)[b] by {
                    let a2 = if a < index { a } else { a + 1 };
                    let b2 = if b < index { b } else { b + 1 };
                    assert(p.remove(index as int)[a] == p[a2]);
                    assert(p.remove(index as int)[b] == p[b2]);
                }
            }
        }
        Ok(kept)
    }

    /// Clears the pending list unless the answer refuses; says whether it did.
    pub fn handle_clear_todo(&mut self, answer: &str) -> (cleared: bool)
        ensures
            cleared == agrees(answer@),
            final(self)@ == (TodoView { pending: after_clear(old(self)@.pending, answer@), ..old(self)@ }),
    {
        let cleared = confirms(answer);
        if cleared {
            self.todo.clear();
            assert(self@.pending =~= Seq::<Seq<char>>::empty());
        }
        cleared
    }

    /// Clears the completed list unless the answer refuses; says whether it did.
    pub fn handle_clear_done(&mut self, answer: &str) -> (cleared: bool)
        ensures
            cleared == agrees(answer@),
            final(self)@ == (TodoView {
                completed: after_clear(old(self)@.completed, answer@),
                ..old(self)@
            }),
    {
        let cleared = confirms(answer);
        if cleared {
            self.done.clear();
            assert(self@.completed =~= Seq::<Seq<char>>::empty());
        }
        cleared
    }

    /// Clears the notes list unless the answer refuses; says whether it did.
    pub fn handle_clear_note(&mut self, answer: &str) -> (cleared: bool)
        ensures
            cleared == agrees(answer@),
            final(self)@ == (TodoView { notes: after_clear(old(self)@.notes, answer@), ..old(self)@ }),
    {
        let cleared = confirms(answer);
        if cleared {
            self.note.clear();
            assert(self@.notes =~= Seq::<Seq<char>>::empty());
        }
        cleared
    }

    /// Asks for each list in turn, pending, completed, then notes, with its
    /// own answer; a refusal for one list leaves the others to their answers.
    pub fn handle_clear_all(&mut self, todo_answer: &str, done_answer: &str, note_answer: &str) -> (r: (
        bool,
        bool,
        bool,
    ))
        ensures
            r == (agrees(todo_answer@), agrees(done_answer@), agrees(note_answer@)),
            final(self)@ == (TodoView {
                pending: after_clear(old(self)@.pending, todo_answer@),
                completed: after_clear(old(self)@.completed, done_answer@),
                notes: after_clear(old(self)@.notes, note_answer@),
            }),
    {
        let a = self.handle_clear_todo(todo_answer);
        let b = self.handle_clear_done(done_answer);
        let c = self.handle_clear_note(note_answer);
        (a, b, c)
    }

    /// The lines that show the pending list.
    pub fn handle_show_todo(&self) -> (lines: Vec<String>)
        ensures
            texts(lines@) == listing(pending_header(), self@.pending),
    {
        let h = "-- TODO --";
        proof {
            reveal_strlit("-- TODO --");
            assert(h@ =~= pending_header());
        }
        show_list(h, &self.todo)
    }

    /// The lines that show the completed list.
    pub fn handle_show_done(&self) -> (lines: Vec<String>)
        ensures
            texts(lines@) == listing(completed_header(), self@.completed),
    {
        let h = "-- DONE --";
        proof {
            reveal_strlit("-- DONE --");
            assert(h@ =~= completed_header());
        }
        show_list(h, &self.done)
    }

    /// The lines that show the notes list.
    pub fn handle_show_note(&self) -> (lines: Vec<String>)
        ensures
            texts(lines@) == listing(notes_header(), self@.notes),
    {
        let h = "-- NOTE --";
        proof {
            reveal_strlit("-- NOTE --");
            assert(h@ =~= notes_header());
        }
        show_list(h, &self.note)
    }

    /// The lines that show every list: pending, completed, then notes, each
    /// left out when it is empty.
    pub fn handle_show_all(&self) -> (lines: Vec<String>)
        ensures
            texts(lines@) == listing(pending_header(), self@.pending) + listing(
                completed_header(),
                self@.completed,
            ) + listing(notes_header(), self@.notes),
    {
        let mut lines = self.handle_show_todo();
        let mut done = self.handle_show_done();
        let mut note = self.handle_show_note();
        let ghost (a, b, c) = (lines@, done@, note@);
        lines.append(&mut done);
        lines.append(&mut note);
        assert(texts(lines@) =~= texts(a) + texts(b) + texts(c));
        lines
    }

    /// The lines that show the selected list, or all of them.
    pub fn handle_show(&self, which: TodoElements) -> (lines: Vec<String>)
        ensures
            texts(lines@) == match which {
                TodoElements::Todo => listing(pending_header(), self@.pending),
                TodoElements::Done => listing(completed_header(), self@.completed),
                TodoElements::Note => listing(notes_header(), self@.notes),
                TodoElements::All => listing(pending_header(), self@.pending) + listing(
                    completed_header(),
                    self@.completed,
                ) + listing(notes_header(), self@.notes),
            },
    {
        match which {
            TodoElements::Todo => self.handle_show_todo(),
            TodoElements::Done => self.handle_show_done(),
            TodoElements::Note => self.handle_show_note(),
            TodoElements::All => self.handle_show_all(),
        }
    }
}

} // verus!
