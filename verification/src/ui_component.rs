//! The editable-collection editors: a single-column list editor, a
//! multi-column table editor, and a text-filtered autocomplete editor. Each
//! owns a cursor over a collection handed in by its controller, mutates the
//! collection in response to key events, and broadcasts selection and text
//! changes over an [`EventBus`](crate::event::EventBus).

use vstd::prelude::*;

use crate::event::{ActionPayload, Event, EventBus, Key, KeyInput};
use crate::text::{string_pop, string_push};
use crate::todo::{EditableRowItem, EditableStateItem, SelectableItem};
use core::marker::PhantomData;

verus! {

/// A single-column list editor: one selected row, in-place text editing of
/// that row. The collection it edits is owned by its controller and handed to
/// every operation; the editor itself holds only its cursor.
pub struct ListTextEditor<T: EditableStateItem> {
    pub title: String,
    pub current_selection: Option<usize>,
    pub active: bool,
    pub marker: PhantomData<T>,
}

impl<T: EditableStateItem> ListTextEditor<T> {
    /// The selection, when present, is a valid index into the bound
    /// collection.
    pub open spec fn inv(&self, c: Seq<T>) -> bool {
        match self.current_selection {
            Some(i) => i < c.len(),
            None => true,
        }
    }

    /// The index the editor works at: the selection, defaulting to the first
    /// row when nothing is selected.
    pub open spec fn sel_or_zero(&self) -> int {
        match self.current_selection {
            Some(i) => i as int,
            None => 0,
        }
    }

    /// The same editor with the given row selected.
    pub open spec fn selected(self, i: int) -> Self {
        ListTextEditor { current_selection: Some(i as usize), ..self }
    }

    /// The notification emitted when row `i` of this editor is selected.
    pub open spec fn selection_event(self, i: int) -> Event {
        Event::Action(ActionPayload::Selection(self.title, Some(i as usize)))
    }

    /// `c1` is `c0` with only the text of the item at `i` changed, to `text`.
    pub open spec fn content_edited(c0: Seq<T>, c1: Seq<T>, i: int, text: Seq<char>) -> bool {
        &&& c1.len() == c0.len()
        &&& c1[i].content() == text
        &&& c1[i].ident() == c0[i].ident()
        &&& c1[i].aux() == c0[i].aux()
        &&& c1[i].wf() == c0[i].wf()
        &&& forall|j: int| 0 <= j < c0.len() && j != i ==> c1[j] == c0[j]
    }

    /// A freshly appended default item: empty text, well-formed.
    pub open spec fn fresh_item(t: T) -> bool {
        t.content().len() == 0 && t.wf()
    }

    /// Every item of the collection is well-formed.
    pub open spec fn all_wf(c: Seq<T>) -> bool {
        forall|q: int| 0 <= q < c.len() ==> (#[trigger] c[q]).wf()
    }

    /// The row the cursor moves to on one upward step.
    pub open spec fn up_target(s: Option<usize>) -> int {
        match s {
            Some(x) => if x > 0 {
                x - 1
            } else {
                0
            },
            None => 0,
        }
    }

    /// What one character keystroke does: the selected row's text grows by
    /// that character; an out-of-bounds cursor makes it a no-op.
    pub open spec fn char_step(e0: Self, c0: Seq<T>, e1: Self, c1: Seq<T>, c: char) -> bool {
        &&& e1 == e0
        &&& {
            let i = e0.sel_or_zero();
            if i < c0.len() {
                Self::content_edited(c0, c1, i, c0[i].content().push(c))
            } else {
                c1 == c0
            }
        }
    }

    /// What one upward navigation does: the cursor moves one row up, clamped
    /// at the first row, and the new selection is broadcast.
    pub open spec fn up_step(e0: Self, q0: Seq<Event>, e1: Self, q1: Seq<Event>) -> bool {
        let t = Self::up_target(e0.current_selection);
        &&& e1 == e0.selected(t)
        &&& q1 == q0.push(e0.selection_event(t))
    }

    /// What one downward navigation does: the cursor moves one row down; past
    /// the last row a fresh default item is appended and selected; with no
    /// selection the first row is selected. The new selection is broadcast.
    pub open spec fn down_step(
        e0: Self,
        c0: Seq<T>,
        q0: Seq<Event>,
        e1: Self,
        c1: Seq<T>,
        q1: Seq<Event>,
    ) -> bool {
        match e0.current_selection {
            Some(x) => if x + 1 < c0.len() {
                &&& c1 == c0
                &&& e1 == e0.selected(x + 1)
                &&& q1 == q0.push(e0.selection_event(x + 1))
            } else {
                &&& (exists|t: T| #[trigger] Self::fresh_item(t) && c1 == c0.push(t))
                &&& e1 == e0.selected(c0.len() as int)
                &&& q1 == q0.push(e0.selection_event(c0.len() as int))
            },
            None => {
                &&& c1 == c0
                &&& e1 == e0.selected(0)
                &&& q1 == q0.push(e0.selection_event(0))
            },
        }
    }

    /// What one backspace does: a non-empty selected text loses its last
    /// character; an empty text at any row but the first removes the row and
    /// moves the cursor up; the first row is never removed (its already-empty
    /// text stays empty); with no selection nothing happens. Nothing is
    /// broadcast.
    pub open spec fn backspace_step(e0: Self, c0: Seq<T>, e1: Self, c1: Seq<T>) -> bool {
        match e0.current_selection {
            Some(x) => if c0[x as int].content().len() > 0 {
                &&& e1 == e0
                &&& Self::content_edited(c0, c1, x as int, c0[x as int].content().drop_last())
            } else if x >= 1 {
                &&& c1 == c0.remove(x as int)
                &&& e1 == e0.selected(x - 1)
            } else {
                &&& e1 == e0
                &&& Self::content_edited(c0, c1, x as int, c0[x as int].content())
            },
            None => {
                &&& e1 == e0
                &&& c1 == c0
            },
        }
    }

    /// What one enter does: a fresh default item is inserted right after the
    /// selected row and selected, and the new selection is broadcast; with no
    /// selection nothing happens.
    pub open spec fn enter_step(
        e0: Self,
        c0: Seq<T>,
        q0: Seq<Event>,
        e1: Self,
        c1: Seq<T>,
        q1: Seq<Event>,
    ) -> bool {
        match e0.current_selection {
            Some(x) => {
                &&& (exists|t: T| #[trigger] Self::fresh_item(t) && c1 == c0.insert(x + 1, t))
                &&& e1 == e0.selected(x + 1)
                &&& q1 == q0.push(e0.selection_event(x + 1))
            },
            None => {
                &&& e1 == e0
                &&& c1 == c0
                &&& q1 == q0
            },
        }
    }

    /// The editor after activation: active, with the first row selected when
    /// nothing was.
    pub open spec fn activated(self) -> Self {
        ListTextEditor {
            current_selection: if self.current_selection is None {
                Some(0usize)
            } else {
                self.current_selection
            },
            active: true,
            ..self
        }
    }

    /// What handling one key event does while the editor is active. A
    /// control-chorded character is left to the embedding (paste is routed
    /// there, because reading the paste provider is an outside effect).
    pub open spec fn event_step(
        e0: Self,
        c0: Seq<T>,
        q0: Seq<Event>,
        e1: Self,
        c1: Seq<T>,
        q1: Seq<Event>,
        k: KeyInput,
    ) -> bool {
        match k.key {
            Key::Char(c) => if !k.control {
                Self::char_step(e0, c0, e1, c1, c) && q1 == q0
            } else {
                e1 == e0 && c1 == c0 && q1 == q0
            },
            Key::Up => Self::up_step(e0, q0, e1, q1) && c1 == c0,
            Key::Down => Self::down_step(e0, c0, q0, e1, c1, q1),
            Key::Backspace => Self::backspace_step(e0, c0, e1, c1) && q1 == q0,
            Key::Enter => Self::enter_step(e0, c0, q0, e1, c1, q1),
            _ => e1 == e0 && c1 == c0 && q1 == q0,
        }
    }

    pub fn new(title: String) -> (r: Self)
        ensures
            r.title == title,
            r.current_selection is None,
            !r.active,
    {
        ListTextEditor { title, current_selection: None, active: false, marker: PhantomData }
    }

    /// Append `c` to the text of the item at the current selection
    /// (defaulting to the first row); a no-op when the collection is empty.
    pub fn on_key(&mut self, col: &mut Vec<T>, c: char)
        ensures
            *final(self) == *old(self),
            Self::char_step(*old(self), old(col)@, *final(self), final(col)@, c),
            final(self).inv(final(col)@) == old(self).inv(old(col)@),
            old(col)@.len() >= 1 ==> final(col)@.len() >= 1,
            Self::all_wf(old(col)@) ==> Self::all_wf(final(col)@),
    {
        let selected_index: usize = match self.current_selection {
            Some(x) => x,
            None => 0,
        };
        if selected_index < col.len() {
            let elem = &mut col[selected_index];
            let content = elem.get_content_mut();
            string_push(content, c);
        }
    }

    /// Append externally pasted text to the item at the current selection
    /// (defaulting to the first row); a no-op when the collection is empty.
    /// Fetching the text from the platform's paste provider is the
    /// embedding's job.
    pub fn on_paste(&mut self, col: &mut Vec<T>, pasted: &str)
        ensures
            *final(self) == *old(self),
            ({
                let i = old(self).sel_or_zero();
                if i < old(col)@.len() {
                    Self::content_edited(
                        old(col)@,
                        final(col)@,
                        i,
                        old(col)@[i].content() + pasted@,
                    )
                } else {
                    final(col)@ == old(col)@
                }
            }),
            final(self).inv(final(col)@) == old(self).inv(old(col)@),
            old(col)@.len() >= 1 ==> final(col)@.len() >= 1,
            Self::all_wf(old(col)@) ==> Self::all_wf(final(col)@),
    {
        let selected_index: usize = match self.current_selection {
            Some(x) => x,
            None => 0,
        };
        if selected_index < col.len() {
            let elem = &mut col[selected_index];
            let content = elem.get_content_mut();
            content.append(pasted);
        }
    }

    /// Move the selection one row up, clamped at the first row.
    pub fn on_up(&mut self, col: &Vec<T>, bus: &mut EventBus)
        requires
            old(self).inv(col@),
            col@.len() >= 1,
        ensures
            Self::up_step(*old(self), old(bus).events@, *final(self), final(bus).events@),
            final(self).inv(col@),
    {
        let target: usize = match self.current_selection {
            Some(x) => if x > 0 {
                x - 1
            } else {
                0
            },
            None => 0,
        };
        self.select_item(col, target, bus);
    }

    /// Move the selection one row down; moving past the last row appends a
    /// fresh default item and selects it.
    pub fn on_down(&mut self, col: &mut Vec<T>, bus: &mut EventBus)
        requires
            old(self).inv(old(col)@),
            old(col)@.len() >= 1,
        ensures
            Self::down_step(
                *old(self),
                old(col)@,
                old(bus).events@,
                *final(self),
                final(col)@,
                final(bus).events@,
            ),
            final(self).inv(final(col)@),
            final(col)@.len() >= 1,
            Self::all_wf(old(col)@) ==> Self::all_wf(final(col)@),
    {
        let target: usize;
        let n: usize = col.len();
        match self.current_selection {
            Some(x) => {
                if x < n - 1 {
                    target = x + 1;
                } else {
                    let t = T::new(String::new());
                    proof {
                        assert(Self::fresh_item(t));
                    }
                    col.push(t);
                    target = col.len() - 1;
                }
            },
            None => {
                target = 0;
            },
        }
        self.select_item(col, target, bus);
    }

    /// Backspace at the current selection: pop one character, or remove an
    /// emptied row (never the first) and move the cursor up.
    pub fn on_backspace(&mut self, col: &mut Vec<T>)
        requires
            old(self).inv(old(col)@),
        ensures
            final(self).title == old(self).title,
            final(self).active == old(self).active,
            Self::backspace_step(*old(self), old(col)@, *final(self), final(col)@),
            final(self).inv(final(col)@),
            old(col)@.len() >= 1 ==> final(col)@.len() >= 1,
            Self::all_wf(old(col)@) ==> Self::all_wf(final(col)@),
    {
        match self.current_selection {
            Some(x) => {
                let elem = &mut col[x];
                let content = elem.get_content_mut();
                match string_pop(content) {
                    Some(_) => {
                    },
                    None => {
                        if x >= 1 {
                            col.remove(x);
                            self.current_selection = Some(x - 1);
                            proof {
                                assert(col@ =~= old(col)@.remove(x as int));
                                old(col)@.remove_ensures(x as int);
                            }
                        }
                    },
                }
            },
            None => {
            },
        }
    }

    /// Insert a fresh default item right after the current selection and
    /// select it.
    pub fn on_enter(&mut self, col: &mut Vec<T>, bus: &mut EventBus)
        requires
            old(self).inv(old(col)@),
        ensures
            Self::enter_step(
                *old(self),
                old(col)@,
                old(bus).events@,
                *final(self),
                final(col)@,
                final(bus).events@,
            ),
            final(self).inv(final(col)@),
            old(col)@.len() >= 1 ==> final(col)@.len() >= 1,
            Self::all_wf(old(col)@) ==> Self::all_wf(final(col)@),
    {
        if let Some(x) = self.current_selection {
            let n: usize = col.len();
            let t = T::new(String::new());
            let ghost tg = t;
            proof {
                assert(Self::fresh_item(t));
                assert(x < n);
            }
            col.insert(x + 1, t);
            proof {
                old(col)@.insert_ensures(x + 1, tg);
            }
            self.select_item(col, x + 1, bus);
        }
    }

    /// Set the selection and broadcast it: the sole channel through which
    /// dependent panels learn of a selection change. Exactly one Selection
    /// notification is emitted per call, carrying the given index.
    pub fn select_item(&mut self, col: &Vec<T>, index: usize, bus: &mut EventBus)
        requires
            index < col@.len(),
        ensures
            *final(self) == old(self).selected(index as int),
            final(self).inv(col@),
            final(bus).events@ == old(bus).events@.push(old(self).selection_event(index as int)),
    {
        self.current_selection = Some(index);
        self.broadcast_selection(bus);
    }

    /// Broadcast the current selection.
    pub fn broadcast_selection(&self, bus: &mut EventBus)
        ensures
            final(bus).events@ == old(bus).events@.push(
                Event::Action(ActionPayload::Selection(self.title, self.current_selection)),
            ),
    {
        bus.send(Event::Action(ActionPayload::Selection(self.title.clone(), self.current_selection)));
    }

    /// Clear the selection and broadcast that nothing is selected.
    pub fn unselect(&mut self, bus: &mut EventBus)
        ensures
            final(self).title == old(self).title,
            final(self).active == old(self).active,
            final(self).current_selection is None,
            final(bus).events@ == old(bus).events@.push(
                Event::Action(ActionPayload::Selection(old(self).title, None)),
            ),
    {
        self.current_selection = None;
        self.broadcast_selection(bus);
    }

    /// Activate the editor; when nothing is selected the first row is
    /// selected and broadcast. Activating twice in a row is the same as
    /// activating once.
    pub fn on_activate(&mut self, col: &Vec<T>, bus: &mut EventBus)
        requires
            old(self).inv(col@),
            col@.len() >= 1,
        ensures
            *final(self) == old(self).activated(),
            final(self).inv(col@),
            final(bus).events@ == if old(self).current_selection is None {
                old(bus).events@.push(old(self).selection_event(0))
            } else {
                old(bus).events@
            },
    {
        if self.current_selection.is_none() {
            self.select_item(col, 0, bus);
        }
        self.active = true;
    }

    /// Deactivate the editor; the selection is preserved.
    pub fn on_deactivate(&mut self)
        ensures
            *final(self) == (ListTextEditor { active: false, ..*old(self) }),
    {
        self.active = false;
    }

    /// Route one key event to the matching operation; ignored while the
    /// editor is inactive.
    pub fn on_event(&mut self, col: &mut Vec<T>, event: KeyInput, bus: &mut EventBus)
        requires
            old(self).inv(old(col)@),
            old(col)@.len() >= 1,
        ensures
            final(self).inv(final(col)@),
            final(col)@.len() >= 1,
            Self::all_wf(old(col)@) ==> Self::all_wf(final(col)@),
            !old(self).active ==> *final(self) == *old(self) && final(col)@ == old(col)@
                && final(bus).events@ == old(bus).events@,
            old(self).active ==> Self::event_step(
                *old(self),
                old(col)@,
                old(bus).events@,
                *final(self),
                final(col)@,
                final(bus).events@,
                event,
            ),
    {
        if self.active {
            match event.key {
                Key::Char(c) => {
                    if !event.control {
                        self.on_key(col, c);
                    }
                },
                Key::Up => self.on_up(col, bus),
                Key::Down => self.on_down(col, bus),
                Key::Backspace => self.on_backspace(col),
                Key::Enter => self.on_enter(col, bus),
                _ => {
                },
            }
        }
    }
}

/// A two-dimensional table editor: a selected row and a selected column,
/// in-place text editing of one cell. As with the list editor, the collection
/// of rows is owned by the controller and handed to every operation.
pub struct TableEditor<T: EditableRowItem> {
    pub title: String,
    pub current_selection: Option<usize>,
    pub current_header_selection: Option<usize>,
    pub column_lengths: Vec<u16>,
    pub headers: Vec<String>,
    pub active: bool,
    pub marker: PhantomData<T>,
}

impl<T: EditableRowItem> TableEditor<T> {
    /// The row selection, when present, is a valid index, and the column
    /// selection, when present, is bounded by the column count of the row the
    /// editor works at.
    pub open spec fn inv(&self, c: Seq<T>) -> bool {
        &&& match self.current_selection {
            Some(r) => r < c.len(),
            None => true,
        }
        &&& match self.current_header_selection {
            Some(h) => {
                let r = self.row_or_zero();
                r < c.len() && h < c[r].columns().len()
            },
            None => true,
        }
    }

    /// Every row offers at least one column.
    pub open spec fn rows_wf(c: Seq<T>) -> bool {
        forall|j: int| 0 <= j < c.len() ==> (#[trigger] c[j].columns()).len() >= 1
    }

    /// The row the editor works at: the row selection, defaulting to the
    /// first row.
    pub open spec fn row_or_zero(&self) -> int {
        match self.current_selection {
            Some(i) => i as int,
            None => 0,
        }
    }

    /// The column the editor works at: the column selection, defaulting to
    /// the first column.
    pub open spec fn head_or_zero(&self) -> int {
        match self.current_header_selection {
            Some(i) => i as int,
            None => 0,
        }
    }

    /// The column selection after moving to row `i`: clamped to that row's
    /// column count.
    pub open spec fn clamped_header(self, c: Seq<T>, i: int) -> Option<usize> {
        match self.current_header_selection {
            Some(h) => {
                let cnt = c[i].columns().len();
                if h < cnt {
                    Some(h)
                } else {
                    Some((cnt - 1) as usize)
                }
            },
            None => None,
        }
    }

    /// The same editor with row `i` selected and the column cursor clamped to
    /// that row's column count.
    pub open spec fn selected_row(self, c: Seq<T>, i: int) -> Self {
        TableEditor {
            current_selection: Some(i as usize),
            current_header_selection: self.clamped_header(c, i),
            ..self
        }
    }

    /// `c1` is `c0` with only the text of row `i`'s column `j` changed, to
    /// `text`.
    pub open spec fn cell_edited(c0: Seq<T>, c1: Seq<T>, i: int, j: int, text: Seq<char>) -> bool {
        &&& c1.len() == c0.len()
        &&& c1[i].columns().len() == c0[i].columns().len()
        &&& c1[i].columns()[j] == text
        &&& forall|k: int|
            0 <= k < c0[i].columns().len() && k != j ==> c1[i].columns()[k] == c0[i].columns()[k]
        &&& c1[i].row_ident() == c0[i].row_ident()
        &&& forall|k: int| 0 <= k < c0.len() && k != i ==> c1[k] == c0[k]
    }

    /// A freshly appended default row: at least one column, all of them
    /// empty.
    pub open spec fn fresh_row(t: T) -> bool {
        t.columns().len() >= 1 && forall|j: int|
            0 <= j < t.columns().len() ==> (#[trigger] t.columns()[j]).len() == 0
    }

    /// What one character keystroke does: the working cell's text grows by
    /// that character; an out-of-bounds row cursor makes it a no-op.
    pub open spec fn char_step(e0: Self, c0: Seq<T>, e1: Self, c1: Seq<T>, c: char) -> bool {
        &&& e1 == e0
        &&& {
            let i = e0.row_or_zero();
            let j = e0.head_or_zero();
            if i < c0.len() {
                Self::cell_edited(c0, c1, i, j, c0[i].columns()[j].push(c))
            } else {
                c1 == c0
            }
        }
    }

    /// What one backspace does: a non-empty working cell loses its last
    /// character; an emptied cell in the first column of any row but the
    /// first removes the row and moves the row cursor up; elsewhere an empty
    /// cell stays empty.
    pub open spec fn backspace_step(e0: Self, c0: Seq<T>, e1: Self, c1: Seq<T>) -> bool {
        let i = e0.row_or_zero();
        let j = e0.head_or_zero();
        if i < c0.len() {
            if c0[i].columns()[j].len() > 0 {
                &&& e1 == e0
                &&& Self::cell_edited(c0, c1, i, j, c0[i].columns()[j].drop_last())
            } else if j == 0 && i >= 1 {
                &&& c1 == c0.remove(i)
                &&& e1 == (TableEditor { current_selection: Some((i - 1) as usize), ..e0 })
            } else {
                &&& e1 == e0
                &&& Self::cell_edited(c0, c1, i, j, c0[i].columns()[j])
            }
        } else {
            e1 == e0 && c1 == c0
        }
    }

    /// What one upward navigation does: the row cursor moves one row up,
    /// clamped at the first row; the column cursor is clamped to the new
    /// row's column count.
    pub open spec fn up_step(e0: Self, c0: Seq<T>, e1: Self) -> bool {
        let t = match e0.current_selection {
            Some(x) => if x > 0 {
                x - 1
            } else {
                0
            },
            None => 0,
        };
        e1 == e0.selected_row(c0, t)
    }

    /// What one downward navigation does: the row cursor moves one row down;
    /// past the last row a fresh default row is appended and selected; with
    /// no selection the first row is selected.
    pub open spec fn down_step(e0: Self, c0: Seq<T>, e1: Self, c1: Seq<T>) -> bool {
        match e0.current_selection {
            Some(x) => if x + 1 < c0.len() {
                &&& c1 == c0
                &&& e1 == e0.selected_row(c0, x + 1)
            } else {
                &&& (exists|t: T| #[trigger] Self::fresh_row(t) && c1 == c0.push(t))
                &&& e1 == e0.selected_row(c1, c0.len() as int)
            },
            None => {
                &&& c1 == c0
                &&& e1 == e0.selected_row(c0, 0)
            },
        }
    }

    /// What one leftward navigation does: the column cursor moves one column
    /// left, stopping at the first column; a no-op when the row cursor is out
    /// of bounds.
    pub open spec fn left_step(e0: Self, c0: Seq<T>, e1: Self) -> bool {
        let i = e0.row_or_zero();
        let j = e0.head_or_zero();
        if i < c0.len() && j > 0 {
            e1 == (TableEditor { current_header_selection: Some((j - 1) as usize), ..e0 })
        } else {
            e1 == e0
        }
    }

    /// What one rightward navigation does: the column cursor moves one column
    /// right, stopping at the working row's last column, without wrapping or
    /// growing; a no-op when the row cursor is out of bounds.
    pub open spec fn right_step(e0: Self, c0: Seq<T>, e1: Self) -> bool {
        let i = e0.row_or_zero();
        let j = e0.head_or_zero();
        if i < c0.len() && j + 1 < c0[i].columns().len() {
            e1 == (TableEditor { current_header_selection: Some((j + 1) as usize), ..e0 })
        } else {
            e1 == e0
        }
    }

    /// The editor after activation: active, with both cursors reset to the
    /// first row and first column, whatever they were before.
    pub open spec fn activated(self) -> Self {
        TableEditor {
            current_selection: Some(0usize),
            current_header_selection: Some(0usize),
            active: true,
            ..self
        }
    }

    /// What handling one key event does while the editor is active. A
    /// control-chorded character is left to the embedding, which routes
    /// paste.
    pub open spec fn event_step(
        e0: Self,
        c0: Seq<T>,
        e1: Self,
        c1: Seq<T>,
        k: KeyInput,
    ) -> bool {
        match k.key {
            Key::Char(c) => if !k.control {
                Self::char_step(e0, c0, e1, c1, c)
            } else {
                e1 == e0 && c1 == c0
            },
            Key::Backspace => Self::backspace_step(e0, c0, e1, c1),
            Key::Up => Self::up_step(e0, c0, e1) && c1 == c0,
            Key::Down => Self::down_step(e0, c0, e1, c1),
            Key::Left => Self::left_step(e0, c0, e1) && c1 == c0,
            Key::Right => Self::right_step(e0, c0, e1) && c1 == c0,
            _ => e1 == e0 && c1 == c0,
        }
    }

    pub fn new(title: String, headers: Vec<String>, column_lengths: Vec<u16>) -> (r: Self)
        ensures
            r.title == title,
            r.headers == headers,
            r.column_lengths == column_lengths,
            r.current_selection is None,
            r.current_header_selection is None,
            !r.active,
    {
        TableEditor {
            title,
            current_selection: None,
            current_header_selection: None,
            column_lengths,
            headers,
            active: false,
            marker: PhantomData,
        }
    }

    /// Select a row; the column cursor is clamped to that row's column
    /// count. Unlike the list editor, nothing is broadcast.
    pub fn select_item(&mut self, col: &Vec<T>, index: usize)
        requires
            index < col@.len(),
            Self::rows_wf(col@),
        ensures
            *final(self) == old(self).selected_row(col@, index as int),
            final(self).inv(col@),
    {
        self.current_selection = Some(index);
        if let Some(h) = self.current_header_selection {
            let cnt = col[index].get_content_vector().len();
            if h >= cnt {
                self.current_header_selection = Some(cnt - 1);
            }
        }
    }

    /// Select a column of the working row.
    pub fn select_header(&mut self, col: &Vec<T>, index: usize)
        requires
            old(self).row_or_zero() < col@.len(),
            index < col@[old(self).row_or_zero()].columns().len(),
        ensures
            *final(self) == (TableEditor { current_header_selection: Some(index), ..*old(self) }),
            final(self).inv(col@),
    {
        self.current_header_selection = Some(index);
    }

    /// Append `c` to the text of the working cell; a no-op when the
    /// collection is empty.
    pub fn on_key(&mut self, col: &mut Vec<T>, c: char)
        requires
            old(self).inv(old(col)@),
            Self::rows_wf(old(col)@),
        ensures
            Self::char_step(*old(self), old(col)@, *final(self), final(col)@, c),
            final(self).inv(final(col)@),
            Self::rows_wf(final(col)@),
            old(col)@.len() >= 1 ==> final(col)@.len() >= 1,
    {
        let row: usize = match self.current_selection {
            Some(x) => x,
            None => 0,
        };
        let h: usize = match self.current_header_selection {
            Some(x) => x,
            None => 0,
        };
        if row < col.len() {
            let elem = &mut col[row];
            let content = elem.get_content_mut(h);
            string_push(content, c);
        }
    }

    /// Append externally pasted text to the working cell; a no-op when the
    /// collection is empty. Fetching the text from the platform's paste
    /// provider is the embedding's job.
    pub fn on_paste(&mut self, col: &mut Vec<T>, pasted: &str)
        requires
            old(self).inv(old(col)@),
            Self::rows_wf(old(col)@),
        ensures
            *final(self) == *old(self),
            ({
                let i = old(self).row_or_zero();
                let j = old(self).head_or_zero();
                if i < old(col)@.len() {
                    Self::cell_edited(
                        old(col)@,
                        final(col)@,
                        i,
                        j,
                        old(col)@[i].columns()[j] + pasted@,
                    )
                } else {
                    final(col)@ == old(col)@
                }
            }),
            final(self).inv(final(col)@),
            Self::rows_wf(final(col)@),
            old(col)@.len() >= 1 ==> final(col)@.len() >= 1,
    {
        let row: usize = match self.current_selection {
            Some(x) => x,
            None => 0,
        };
        let h: usize = match self.current_header_selection {
            Some(x) => x,
            None => 0,
        };
        if row < col.len() {
            let elem = &mut col[row];
            let content = elem.get_content_mut(h);
            content.append(pasted);
        }
    }

    /// Backspace at the working cell: pop one character, or, in the first
    /// column of any row but the first, remove the emptied row and move the
    /// row cursor up.
    pub fn on_backspace(&mut self, col: &mut Vec<T>)
        requires
            old(self).inv(old(col)@),
            Self::rows_wf(old(col)@),
        ensures
            Self::backspace_step(*old(self), old(col)@, *final(self), final(col)@),
            final(self).inv(final(col)@),
            Self::rows_wf(final(col)@),
            old(col)@.len() >= 1 ==> final(col)@.len() >= 1,
    {
        let row: usize = match self.current_selection {
            Some(x) => x,
            None => 0,
        };
        let h: usize = match self.current_header_selection {
            Some(x) => x,
            None => 0,
        };
        if row < col.len() {
            let elem = &mut col[row];
            let content = elem.get_content_mut(h);
            match string_pop(content) {
                Some(_) => {
                },
                None => {
                    if h == 0 && row >= 1 {
                        col.remove(row);
                        self.current_selection = Some(row - 1);
                        proof {
                            assert(col@ =~= old(col)@.remove(row as int));
                        }
                    }
                },
            }
        }
    }

    /// Move the row cursor one row up, clamped at the first row.
    pub fn on_up(&mut self, col: &Vec<T>)
        requires
            old(self).inv(col@),
            Self::rows_wf(col@),
            col@.len() >= 1,
        ensures
            Self::up_step(*old(self), col@, *final(self)),
            final(self).inv(col@),
    {
        let target: usize = match self.current_selection {
            Some(x) => if x > 0 {
                x - 1
            } else {
                0
            },
            None => 0,
        };
        self.select_item(col, target);
    }

    /// Move the row cursor one row down; moving past the last row appends a
    /// fresh default row and selects it.
    pub fn on_down(&mut self, col: &mut Vec<T>)
        requires
            old(self).inv(old(col)@),
            Self::rows_wf(old(col)@),
            old(col)@.len() >= 1,
        ensures
            Self::down_step(*old(self), old(col)@, *final(self), final(col)@),
            final(self).inv(final(col)@),
            Self::rows_wf(final(col)@),
            final(col)@.len() >= 1,
    {
        let target: usize;
        let n: usize = col.len();
        match self.current_selection {
            Some(x) => {
                if x < n - 1 {
                    target = x + 1;
                } else {
                    let t = T::new(Vec::new());
                    proof {
                        assert(Self::fresh_row(t));
                    }
                    col.push(t);
                    target = n;
                }
            },
            None => {
                target = 0;
            },
        }
        self.select_item(col, target);
    }

    /// Move the column cursor one column left, stopping at the first column.
    pub fn on_left(&mut self, col: &Vec<T>)
        requires
            old(self).inv(col@),
        ensures
            Self::left_step(*old(self), col@, *final(self)),
            final(self).inv(col@),
    {
        let row: usize = match self.current_selection {
            Some(x) => x,
            None => 0,
        };
        let h: usize = match self.current_header_selection {
            Some(x) => x,
            None => 0,
        };
        if row < col.len() {
            if h > 0 {
                self.current_header_selection = Some(h - 1);
            }
        }
    }

    /// Move the column cursor one column right, stopping at the working
    /// row's last column: no wraparound, no growth.
    pub fn on_right(&mut self, col: &Vec<T>)
        requires
            old(self).inv(col@),
            Self::rows_wf(col@),
        ensures
            Self::right_step(*old(self), col@, *final(self)),
            final(self).inv(col@),
    {
        let row: usize = match self.current_selection {
            Some(x) => x,
            None => 0,
        };
        let h: usize = match self.current_header_selection {
            Some(x) => x,
            None => 0,
        };
        if row < col.len() {
            let cnt = col[row].get_content_vector().len();
            if h < cnt - 1 {
                self.current_header_selection = Some(h + 1);
            }
        }
    }

    /// Activate the editor, always resetting both cursors to the first row
    /// and first column. Activating twice in a row is the same as activating
    /// once.
    pub fn on_activate(&mut self, col: &Vec<T>)
        requires
            Self::rows_wf(col@),
            col@.len() >= 1,
        ensures
            *final(self) == old(self).activated(),
            final(self).inv(col@),
    {
        self.active = true;
        self.current_selection = Some(0);
        self.current_header_selection = Some(0);
    }

    /// Deactivate the editor; the cursors are preserved.
    pub fn on_deactivate(&mut self)
        ensures
            *final(self) == (TableEditor { active: false, ..*old(self) }),
    {
        self.active = false;
    }

    /// Route one key event to the matching operation; ignored while the
    /// editor is inactive.
    pub fn on_event(&mut self, col: &mut Vec<T>, event: KeyInput)
        requires
            old(self).inv(old(col)@),
            Self::rows_wf(old(col)@),
            old(col)@.len() >= 1,
        ensures
            final(self).inv(final(col)@),
            Self::rows_wf(final(col)@),
            final(col)@.len() >= 1,
            !old(self).active ==> *final(self) == *old(self) && final(col)@ == old(col)@,
            old(self).active ==> Self::event_step(
                *old(self),
                old(col)@,
                *final(self),
                final(col)@,
                event,
            ),
    {
        if self.active {
            match event.key {
                Key::Char(c) => {
                    if !event.control {
                        self.on_key(col, c);
                    }
                },
                Key::Backspace => self.on_backspace(col),
                Key::Up => self.on_up(col),
                Key::Down => self.on_down(col),
                Key::Left => self.on_left(col),
                Key::Right => self.on_right(col),
                _ => {
                },
            }
        }
    }
}

/// A free-text input plus a filtered, selectable suggestion list. The
/// suggestion list is owned by the editor but recomputed externally (by the
/// controller) on every text change; navigation only moves the highlight,
/// never grows the list.
pub struct AutoCompleteEditor<T: SelectableItem> {
    pub active: bool,
    pub title: String,
    pub text: String,
    pub current_suggestions: Vec<T>,
    pub current_selection: Option<usize>,
    pub current_chosen: Option<String>,
}

impl<T: SelectableItem> AutoCompleteEditor<T> {
    /// The highlighted suggestion, when present, is a valid index into the
    /// suggestion list.
    pub open spec fn inv(&self) -> bool {
        match self.current_selection {
            Some(i) => i < self.current_suggestions@.len(),
            None => true,
        }
    }

    /// The notification emitted when the text buffer changes.
    pub open spec fn text_event(self) -> Event {
        Event::Action(ActionPayload::Text(self.text))
    }

    /// The suggestion index the highlight moves to on one upward step: one
    /// up, clamped at the first entry; from nothing, the first entry when one
    /// exists.
    pub open spec fn up_target(s: Option<usize>, n: nat) -> Option<usize> {
        match s {
            Some(x) => if x > 0 {
                Some((x - 1) as usize)
            } else {
                Some(0usize)
            },
            None => if n > 0 {
                Some(0usize)
            } else {
                None
            },
        }
    }

    /// The suggestion index the highlight moves to on one downward step: one
    /// down, clamped at the last entry; from nothing, nothing.
    pub open spec fn down_target(s: Option<usize>, n: nat) -> Option<usize> {
        match s {
            Some(x) => if x + 1 < n {
                Some((x + 1) as usize)
            } else {
                Some(x)
            },
            None => None,
        }
    }

    /// After a navigation step the text buffer shows the newly highlighted
    /// suggestion's display name; without a highlight it is untouched.
    pub open spec fn read_through(e0: Self, e1: Self, target: Option<usize>) -> bool {
        &&& e1.active == e0.active
        &&& e1.title == e0.title
        &&& e1.current_suggestions == e0.current_suggestions
        &&& e1.current_chosen == e0.current_chosen
        &&& e1.current_selection == target
        &&& match target {
            Some(x) => e1.text@ == e0.current_suggestions@[x as int].sel_name(),
            None => e1.text == e0.text,
        }
    }

    /// What one backspace does: a non-empty buffer loses its last character
    /// and the new text is broadcast; an empty buffer with a non-empty stored
    /// choice clears the choice and broadcasts the empty text; otherwise
    /// nothing happens.
    pub open spec fn backspace_step(e0: Self, q0: Seq<Event>, e1: Self, q1: Seq<Event>) -> bool {
        &&& e1.active == e0.active
        &&& e1.title == e0.title
        &&& e1.current_suggestions == e0.current_suggestions
        &&& e1.current_selection == e0.current_selection
        &&& if e0.text@.len() > 0 {
            &&& e1.text@ == e0.text@.drop_last()
            &&& e1.current_chosen == e0.current_chosen
            &&& q1 == q0.push(e1.text_event())
        } else if (e0.current_chosen matches Some(x) && x@.len() > 0) {
            &&& e1.text@.len() == 0
            &&& (e1.current_chosen matches Some(x) && x@.len() == 0)
            &&& q1 == q0.push(e1.text_event())
        } else {
            &&& e1.text@ == e0.text@
            &&& e1.current_chosen == e0.current_chosen
            &&& q1 == q0
        }
    }

    /// What one enter does: the buffer takes the highlighted suggestion's
    /// name and its identifier is broadcast as the committed choice; with no
    /// highlight nothing happens.
    pub open spec fn enter_step(e0: Self, q0: Seq<Event>, e1: Self, q1: Seq<Event>) -> bool {
        &&& e1.active == e0.active
        &&& e1.title == e0.title
        &&& e1.current_suggestions == e0.current_suggestions
        &&& e1.current_selection == e0.current_selection
        &&& e1.current_chosen == e0.current_chosen
        &&& match e0.current_selection {
            Some(x) => {
                &&& e1.text@ == e0.current_suggestions@[x as int].sel_name()
                &&& (exists|s: String|
                    s@ == e0.current_suggestions@[x as int].sel_ident() && q1 == q0.push(
                        Event::Action(ActionPayload::TextSelection(e0.title, s)),
                    ))
            },
            None => e1.text == e0.text && q1 == q0,
        }
    }

    /// The editor after activation: active, everything else untouched.
    pub open spec fn activated(self) -> Self {
        AutoCompleteEditor { active: true, ..self }
    }

    /// What handling one key event does while the editor is active.
    pub open spec fn event_step(e0: Self, q0: Seq<Event>, e1: Self, q1: Seq<Event>, k: KeyInput) -> bool {
        match k.key {
            Key::Char(c) => {
                &&& e1 == (AutoCompleteEditor { text: e1.text, ..e0 })
                &&& e1.text@ == e0.text@.push(c)
                &&& q1 == q0.push(e1.text_event())
            },
            Key::Backspace => Self::backspace_step(e0, q0, e1, q1),
            Key::Up => Self::read_through(
                e0,
                e1,
                Self::up_target(e0.current_selection, e0.current_suggestions@.len()),
            ) && q1 == q0,
            Key::Down => Self::read_through(
                e0,
                e1,
                Self::down_target(e0.current_selection, e0.current_suggestions@.len()),
            ) && q1 == q0,
            Key::Enter => Self::enter_step(e0, q0, e1, q1),
            _ => e1 == e0 && q1 == q0,
        }
    }

    pub fn new(title: String, text: String, current_suggestions: Vec<T>) -> (r: Self)
        ensures
            r.title == title,
            r.text == text,
            r.current_suggestions == current_suggestions,
            r.current_selection is None,
            r.current_chosen is None,
            !r.active,
    {
        AutoCompleteEditor {
            active: false,
            title,
            text,
            current_suggestions,
            current_selection: None,
            current_chosen: None,
        }
    }

    /// Append `c` to the text buffer and broadcast the new text — the
    /// trigger for the controller to recompute the suggestions.
    pub fn on_key(&mut self, c: char, bus: &mut EventBus)
        ensures
            *final(self) == (AutoCompleteEditor { text: final(self).text, ..*old(self) }),
            final(self).text@ == old(self).text@.push(c),
            final(bus).events@ == old(bus).events@.push(final(self).text_event()),
            final(self).inv() == old(self).inv(),
    {
        string_push(&mut self.text, c);
        self.broadcast_text(bus);
    }

    /// Backspace in the text buffer: pop one character, or clear a stored
    /// choice once the buffer is already empty.
    pub fn on_backspace(&mut self, bus: &mut EventBus)
        ensures
            Self::backspace_step(*old(self), old(bus).events@, *final(self), final(bus).events@),
            final(self).inv() == old(self).inv(),
    {
        match string_pop(&mut self.text) {
            Some(_) => {
                self.broadcast_text(bus);
            },
            None => {
                let clear = match &self.current_chosen {
                    Some(x) => x.as_str().unicode_len() > 0,
                    None => false,
                };
                if clear {
                    self.current_chosen = Some(String::new());
                    self.text = String::new();
                    self.broadcast_text(bus);
                }
            },
        }
    }

    /// Broadcast the current text buffer.
    pub fn broadcast_text(&self, bus: &mut EventBus)
        ensures
            final(bus).events@ == old(bus).events@.push(self.text_event()),
    {
        bus.send(Event::Action(ActionPayload::Text(self.text.clone())));
    }

    /// Broadcast the highlighted suggestion's identifier as the committed
    /// choice; nothing is broadcast without a highlight.
    pub fn broadcast_selection(&self, bus: &mut EventBus)
        requires
            self.inv(),
        ensures
            match self.current_selection {
                Some(x) => (exists|s: String|
                    s@ == self.current_suggestions@[x as int].sel_ident() && final(bus).events@
                        == old(bus).events@.push(
                        Event::Action(ActionPayload::TextSelection(self.title, s)),
                    )),
                None => final(bus).events@ == old(bus).events@,
            },
    {
        match self.current_selection {
            Some(x) => {
                let id = self.current_suggestions[x].get_identifier();
                bus.send(Event::Action(ActionPayload::TextSelection(self.title.clone(), id)));
            },
            None => {
            },
        }
    }

    /// Move the highlight; the caller answers for the index being in
    /// bounds.
    pub fn select_suggestion(&mut self, index: Option<usize>)
        requires
            index matches Some(i) ==> i < old(self).current_suggestions@.len(),
        ensures
            *final(self) == (AutoCompleteEditor { current_selection: index, ..*old(self) }),
            final(self).inv(),
    {
        self.current_selection = index;
    }

    /// Overwrite the text buffer with the highlighted suggestion's name.
    pub fn set_text_to_choice(&mut self)
        requires
            old(self).inv(),
        ensures
            Self::read_through(*old(self), *final(self), old(self).current_selection),
            final(self).inv(),
    {
        match self.current_selection {
            Some(x) => {
                let name = self.current_suggestions[x].get_name();
                self.text = name;
            },
            None => {
            },
        }
    }

    /// Move the highlight one entry up, clamped at the first entry, and show
    /// the newly highlighted name in the buffer.
    pub fn on_up(&mut self)
        requires
            old(self).inv(),
        ensures
            Self::read_through(
                *old(self),
                *final(self),
                Self::up_target(
                    old(self).current_selection,
                    old(self).current_suggestions@.len(),
                ),
            ),
            final(self).inv(),
    {
        let target: Option<usize> = match self.current_selection {
            Some(x) => if x > 0 {
                Some(x - 1)
            } else {
                Some(0)
            },
            None => if self.current_suggestions.len() > 0 {
                Some(0)
            } else {
                None
            },
        };
        self.select_suggestion(target);
        self.set_text_to_choice();
    }

    /// Move the highlight one entry down, clamped at the last entry, and
    /// show the newly highlighted name in the buffer.
    pub fn on_down(&mut self)
        requires
            old(self).inv(),
        ensures
            Self::read_through(
                *old(self),
                *final(self),
                Self::down_target(
                    old(self).current_selection,
                    old(self).current_suggestions@.len(),
                ),
            ),
            final(self).inv(),
    {
        let n: usize = self.current_suggestions.len();
        let target: Option<usize> = match self.current_selection {
            Some(x) => if x < n - 1 {
                Some(x + 1)
            } else {
                Some(x)
            },
            None => None,
        };
        self.select_suggestion(target);
        self.set_text_to_choice();
    }

    /// Commit the highlighted suggestion: show its name in the buffer and
    /// broadcast its identifier.
    pub fn on_enter(&mut self, bus: &mut EventBus)
        requires
            old(self).inv(),
        ensures
            Self::enter_step(*old(self), old(bus).events@, *final(self), final(bus).events@),
            final(self).inv(),
    {
        match self.current_selection {
            Some(x) => {
                let name = self.current_suggestions[x].get_name();
                self.text = name;
            },
            None => {
            },
        }
        self.broadcast_selection(bus);
    }

    /// Activate the editor; everything else is untouched. Activating twice
    /// in a row is the same as activating once.
    pub fn on_activate(&mut self)
        ensures
            *final(self) == old(self).activated(),
            final(self).inv() == old(self).inv(),
    {
        self.active = true;
    }

    /// Deactivate the editor; the buffer, highlight and choice are
    /// preserved.
    pub fn on_deactivate(&mut self)
        ensures
            *final(self) == (AutoCompleteEditor { active: false, ..*old(self) }),
            final(self).inv() == old(self).inv(),
    {
        self.active = false;
    }

    /// Route one key event to the matching operation; ignored while the
    /// editor is inactive.
    pub fn on_event(&mut self, event: KeyInput, bus: &mut EventBus)
        requires
            old(self).inv(),
        ensures
            final(self).inv(),
            !old(self).active ==> *final(self) == *old(self) && final(bus).events@ == old(
                bus,
            ).events@,
            old(self).active ==> Self::event_step(
                *old(self),
                old(bus).events@,
                *final(self),
                final(bus).events@,
                event,
            ),
    {
        if self.active {
            match event.key {
                Key::Char(c) => self.on_key(c, bus),
                Key::Backspace => self.on_backspace(bus),
                Key::Up => self.on_up(),
                Key::Down => self.on_down(),
                Key::Enter => self.on_enter(bus),
                _ => {
                },
            }
        }
    }
}

/// Activation is idempotent: activating an autocomplete editor twice in a
/// row leaves exactly the state one activation leaves.
pub proof fn lemma_autocomplete_activate_idempotent<T: SelectableItem>(e: AutoCompleteEditor<T>)
    ensures
        e.activated().activated() == e.activated(),
{
}

/// Activation is idempotent: activating a table editor twice in a row leaves
/// exactly the state one activation leaves.
pub proof fn lemma_table_activate_idempotent<T: EditableRowItem>(e: TableEditor<T>)
    ensures
        e.activated().activated() == e.activated(),
{
}

/// A non-empty collection can never be emptied by handling a key event in a
/// list editor: growth is on demand and the first row is unremovable.
pub proof fn lemma_list_collection_never_emptied<T: EditableStateItem>(
    e0: ListTextEditor<T>,
    c0: Seq<T>,
    q0: Seq<Event>,
    e1: ListTextEditor<T>,
    c1: Seq<T>,
    q1: Seq<Event>,
    k: KeyInput,
)
    requires
        e0.inv(c0),
        c0.len() >= 1,
        ListTextEditor::event_step(e0, c0, q0, e1, c1, q1, k),
    ensures
        c1.len() >= 1,
{
}

/// A non-empty collection can never be emptied by handling a key event in a
/// table editor: growth is on demand and the first row is unremovable.
pub proof fn lemma_table_collection_never_emptied<T: EditableRowItem>(
    e0: TableEditor<T>,
    c0: Seq<T>,
    e1: TableEditor<T>,
    c1: Seq<T>,
    k: KeyInput,
)
    requires
        e0.inv(c0),
        c0.len() >= 1,
        TableEditor::event_step(e0, c0, e1, c1, k),
    ensures
        c1.len() >= 1,
{
}

/// Activation is idempotent: activating a list editor twice in a row leaves
/// exactly the state one activation leaves.
pub proof fn lemma_list_activate_idempotent<T: EditableStateItem>(e: ListTextEditor<T>)
    ensures
        e.activated().activated() == e.activated(),
{
}

/// Enter followed by two backspaces is a round trip: the first backspace
/// removes the freshly inserted empty row, and the second pops a character of
/// the original row (or does nothing on the unremovable first row), so the
/// collection length and the selection both return to what they were. The row
/// the cursor started on must hold text unless it is the first row.
pub proof fn lemma_list_enter_backspace_roundtrip<T: EditableStateItem>(
    e0: ListTextEditor<T>,
    c0: Seq<T>,
    q0: Seq<Event>,
    q1: Seq<Event>,
    e1: ListTextEditor<T>,
    c1: Seq<T>,
    e2: ListTextEditor<T>,
    c2: Seq<T>,
    e3: ListTextEditor<T>,
    c3: Seq<T>,
    x: usize,
)
    requires
        e0.inv(c0),
        c0.len() <= usize::MAX,
        e0.current_selection == Some(x),
        x == 0 || c0[x as int].content().len() > 0,
        ListTextEditor::enter_step(e0, c0, q0, e1, c1, q1),
        ListTextEditor::backspace_step(e1, c1, e2, c2),
        ListTextEditor::backspace_step(e2, c2, e3, c3),
    ensures
        c3.len() == c0.len(),
        e3.current_selection == e0.current_selection,
{
    let t = choose|t: T| #[trigger]
        ListTextEditor::<T>::fresh_item(t) && c1 == c0.insert(x + 1, t);
    c0.insert_ensures(x + 1, t);
    assert(c1[x + 1] == t);
    assert(c1[x as int] == c0[x as int]);
    assert(e1.current_selection == Some((x + 1) as usize));
    // the first backspace finds the fresh row empty and removes it
    assert(c2 == c1.remove(x + 1));
    c1.remove_ensures(x + 1);
    assert(c2[x as int] == c1[x as int]);
    assert(e2.current_selection == Some(x));
    // the second backspace acts on the original row
    assert(c3.len() == c2.len());
}

} // verus!
