//! The items the editors operate on — todo entries, their notes, and
//! projects — together with the capability traits the editors are generic
//! over.

use vstd::prelude::*;

verus! {

/// Relies on uuid::Uuid::new_v4 and its Display impl: a freshly generated
/// random version-4 identifier, rendered in hyphenated text form. The result
/// is random, so nothing is promised of it.
#[verifier::external_body]
pub(crate) fn fresh_identifier() -> String {
    uuid::Uuid::new_v4().to_string()
}

/// Capability of items edited by a single-column list editor: one editable
/// text field and a stable identifier.
pub trait EditableStateItem: Sized {
    /// Whatever the item carries besides its text and its identifier;
    /// text editing leaves it untouched.
    type Aux;

    /// The item's editable text.
    spec fn content(&self) -> Seq<char>;

    /// The item's stable identifier.
    spec fn ident(&self) -> Seq<char>;

    /// The rest of the item's state.
    spec fn aux(&self) -> Self::Aux;

    /// Structural soundness of the item itself.
    spec fn wf(&self) -> bool;

    /// Mutable access to the item's text.
    fn get_content_mut(&mut self) -> (r: &mut String)
        ensures
            r@ == old(self).content(),
            final(self).content() == final(r)@,
            final(self).ident() == old(self).ident(),
            final(self).aux() == old(self).aux(),
            final(self).wf() == old(self).wf(),
    ;

    /// Mutable access to the item's identifier.
    fn get_identifier_mut(&mut self) -> (r: &mut String)
        ensures
            r@ == old(self).ident(),
            final(self).ident() == final(r)@,
            final(self).content() == old(self).content(),
            final(self).aux() == old(self).aux(),
            final(self).wf() == old(self).wf(),
    ;

    /// A fresh, well-formed item with the given text.
    fn new(s: String) -> (r: Self)
        ensures
            r.content() == s@,
            r.wf(),
    ;
}

/// Capability of items edited by a multi-column table editor: an ordered,
/// never-empty vector of editable column strings and a stable identifier.
pub trait EditableRowItem: Sized {
    /// The item's columns, in display order.
    spec fn columns(&self) -> Seq<Seq<char>>;

    /// The item's stable identifier.
    spec fn row_ident(&self) -> Seq<char>;

    /// The current column texts, in display order.
    fn get_content_vector(&self) -> (r: Vec<&str>)
        ensures
            r@.len() == self.columns().len(),
            forall|j: int| 0 <= j < r@.len() ==> r@[j]@ == self.columns()[j],
    ;

    /// Mutable access to one column's text.
    fn get_content_mut(&mut self, index: usize) -> (r: &mut String)
        requires
            index < old(self).columns().len(),
        ensures
            r@ == old(self).columns()[index as int],
            final(self).columns().len() == old(self).columns().len(),
            final(self).columns()[index as int] == final(r)@,
            forall|j: int|
                0 <= j < old(self).columns().len() && j != index ==> final(self).columns()[j]
                    == old(self).columns()[j],
            final(self).row_ident() == old(self).row_ident(),
    ;

    /// Mutable access to the item's identifier.
    fn get_identifier_mut(&mut self) -> (r: &mut String)
        ensures
            r@ == old(self).row_ident(),
            final(self).row_ident() == final(r)@,
            final(self).columns() == old(self).columns(),
    ;

    /// A fresh row; handed an empty vector, every column is empty.
    fn new(s: Vec<String>) -> (r: Self)
        ensures
            r.columns().len() >= 1,
            s@.len() == 0 ==> forall|j: int|
                0 <= j < r.columns().len() ==> r.columns()[j].len() == 0,
    ;
}

/// Capability of items offered as autocomplete suggestions: a stable
/// identifier and a display name.
pub trait SelectableItem: Sized {
    /// The item's stable identifier.
    spec fn sel_ident(&self) -> Seq<char>;

    /// The item's display name.
    spec fn sel_name(&self) -> Seq<char>;

    fn get_identifier(&self) -> (r: String)
        ensures
            r@ == self.sel_ident(),
    ;

    fn get_name(&self) -> (r: String)
        ensures
            r@ == self.sel_name(),
    ;
}

/// A note attached to a todo item.
pub struct Note {
    pub identifier: String,
    pub content: String,
}

impl EditableStateItem for Note {
    type Aux = ();

    open spec fn content(&self) -> Seq<char> {
        self.content@
    }

    open spec fn ident(&self) -> Seq<char> {
        self.identifier@
    }

    open spec fn aux(&self) -> () {
        ()
    }

    open spec fn wf(&self) -> bool {
        true
    }

    fn get_content_mut(&mut self) -> (r: &mut String) {
        &mut self.content
    }

    fn get_identifier_mut(&mut self) -> (r: &mut String) {
        &mut self.identifier
    }

    fn new(s: String) -> (r: Self) {
        Note { identifier: fresh_identifier(), content: s }
    }
}

/// A todo entry: an editable title, free-form description lines, its own
/// collection of notes (never empty), and an optional project reference held
/// as that project's identifier.
pub struct TodoItem {
    pub identifier: String,
    pub title: String,
    pub project_identifier: String,
    pub description: Vec<String>,
    pub notes: Vec<Note>,
}

impl TodoItem {
    /// A fresh todo item: the given title, no project reference, no
    /// description lines, one empty initial note, and a freshly generated
    /// identifier (random, so nothing is promised of it).
    pub fn new(s: String) -> (r: TodoItem)
        ensures
            r.title == s,
            r.project_identifier@ == Seq::<char>::empty(),
            r.description@ == Seq::<String>::empty(),
            r.notes@.len() == 1,
            r.notes@[0].content@ == Seq::<char>::empty(),
    {
        let mut notes: Vec<Note> = Vec::new();
        notes.push(Note::new(String::new()));
        TodoItem {
            identifier: fresh_identifier(),
            title: s,
            project_identifier: String::new(),
            description: Vec::new(),
            notes,
        }
    }
}

impl EditableStateItem for TodoItem {
    type Aux = (Seq<char>, Seq<Seq<char>>, Seq<(Seq<char>, Seq<char>)>);

    open spec fn content(&self) -> Seq<char> {
        self.title@
    }

    open spec fn ident(&self) -> Seq<char> {
        self.identifier@
    }

    open spec fn aux(&self) -> (Seq<char>, Seq<Seq<char>>, Seq<(Seq<char>, Seq<char>)>) {
        (
            self.project_identifier@,
            self.description@.map_values(|s: String| s@),
            self.notes@.map_values(|n: Note| (n.identifier@, n.content@)),
        )
    }

    open spec fn wf(&self) -> bool {
        self.notes@.len() >= 1
    }

    fn get_content_mut(&mut self) -> (r: &mut String) {
        &mut self.title
    }

    fn get_identifier_mut(&mut self) -> (r: &mut String) {
        &mut self.identifier
    }

    fn new(s: String) -> (r: Self) {
        TodoItem::new(s)
    }
}

/// A project: a name, a url and a directory location, each an editable table
/// column, plus a stable identifier.
pub struct Project {
    pub identifier: String,
    pub name: String,
    pub url: String,
    pub dir_location: String,
}

impl Clone for Project {
    fn clone(&self) -> (r: Self)
        ensures
            r == *self,
    {
        Project {
            identifier: self.identifier.clone(),
            name: self.name.clone(),
            url: self.url.clone(),
            dir_location: self.dir_location.clone(),
        }
    }
}

impl Project {
    /// A fresh project row, filled from the back of the given vector: the
    /// last element is the directory location, the one before it the url,
    /// the one before that the name; missing leading fields default to
    /// empty, and extra leading elements are dropped. The identifier is
    /// freshly generated (random, so nothing is promised of it).
    pub fn new(s: Vec<String>) -> (r: Project)
        ensures
            ({
                let m = s@.len();
                &&& (m >= 3 ==> r.name == s@[m - 3] && r.url == s@[m - 2] && r.dir_location
                    == s@[m - 1])
                &&& (m == 2 ==> r.name@.len() == 0 && r.url == s@[0] && r.dir_location == s@[1])
                &&& (m == 1 ==> r.name@.len() == 0 && r.url@.len() == 0 && r.dir_location
                    == s@[0])
                &&& (m == 0 ==> r.name@.len() == 0 && r.url@.len() == 0 && r.dir_location@.len()
                    == 0)
            }),
    {
        let mut owned = s;
        let dir_location = match owned.pop() {
            Some(x) => x,
            None => String::new(),
        };
        let url = match owned.pop() {
            Some(x) => x,
            None => String::new(),
        };
        let name = match owned.pop() {
            Some(x) => x,
            None => String::new(),
        };
        Project { identifier: fresh_identifier(), name, url, dir_location }
    }
}

impl EditableRowItem for Project {
    open spec fn columns(&self) -> Seq<Seq<char>> {
        seq![self.name@, self.url@, self.dir_location@]
    }

    open spec fn row_ident(&self) -> Seq<char> {
        self.identifier@
    }

    fn get_content_vector(&self) -> (r: Vec<&str>) {
        let mut v: Vec<&str> = Vec::new();
        v.push(self.name.as_str());
        v.push(self.url.as_str());
        v.push(self.dir_location.as_str());
        v
    }

    fn get_content_mut(&mut self, index: usize) -> (r: &mut String) {
        match index {
            0 => &mut self.name,
            1 => &mut self.url,
            _ => &mut self.dir_location,
        }
    }

    fn get_identifier_mut(&mut self) -> (r: &mut String) {
        &mut self.identifier
    }

    fn new(s: Vec<String>) -> (r: Self) {
        Project::new(s)
    }
}

impl SelectableItem for Project {
    open spec fn sel_ident(&self) -> Seq<char> {
        self.identifier@
    }

    open spec fn sel_name(&self) -> Seq<char> {
        self.name@
    }

    fn get_identifier(&self) -> (r: String) {
        self.identifier.clone()
    }

    fn get_name(&self) -> (r: String) {
        self.name.clone()
    }
}

} // verus!
