//! The controller: owns the canonical collections and one editor of each
//! kind, routes key events to whichever editor is active, and reacts to the
//! action notifications the editors broadcast so that dependent panels stay
//! in step.

use vstd::prelude::*;
use vstd::string::StringExecFns;

use crate::event::{ActionPayload, Event, EventBus, Key, KeyInput};
use crate::text::has_substring;
use crate::todo::{EditableRowItem, EditableStateItem, Note, Project, SelectableItem, TodoItem};
use crate::ui_component::{AutoCompleteEditor, ListTextEditor, TableEditor};
use crate::util::TabsState;

verus! {

/// Which user action — and with it which editor — is currently active.
#[derive(Clone, Copy, Debug, PartialEq, Eq)]
pub enum CodePalAction {
    AddToDoItem,
    AddNote,
    AddProject,
    SelectProject,
    NoAction,
}

/// The editor a [`CodePalAction`] drives, for callers asking which editor is
/// live.
#[derive(Clone, Copy, Debug, PartialEq, Eq)]
pub enum ActiveEditor {
    TodoItems,
    Notes,
    Projects,
    TodoItemProject,
}

/// The canonical collections: the todo items (each owning its notes) and the
/// projects. Both start with one empty placeholder and are never emptied.
pub struct AppState {
    pub todo_items: Vec<TodoItem>,
    pub projects: Vec<Project>,
}

/// One empty placeholder project: the default project list used when none
/// was persisted.
pub fn default_projects() -> (r: Vec<Project>)
    ensures
        r@.len() == 1,
        r@[0].columns().len() == 3,
        forall|j: int| 0 <= j < 3 ==> r@[0].columns()[j].len() == 0,
{
    let p = Project {
        identifier: crate::todo::fresh_identifier(),
        name: String::new(),
        url: String::new(),
        dir_location: String::new(),
    };
    let mut v: Vec<Project> = Vec::new();
    v.push(p);
    v
}

/// A single todo item is well-formed: its notes collection is never empty.
pub open spec fn todo_item_wf(t: TodoItem) -> bool {
    t.notes@.len() >= 1
}

impl AppState {
    /// Both collections are non-empty and every todo item is well-formed
    /// (its notes collection is never empty).
    pub open spec fn wf(&self) -> bool {
        &&& self.todo_items@.len() >= 1
        &&& self.projects@.len() >= 1
        &&& forall|i: int|
            0 <= i < self.todo_items@.len() ==> todo_item_wf(#[trigger] self.todo_items@[i])
    }

    /// The default in-memory state: one empty todo item and one empty
    /// placeholder project. Loading persisted state instead is the
    /// embedding's job.
    pub fn new() -> (r: AppState)
        ensures
            r.wf(),
            r.todo_items@.len() == 1,
            r.projects@.len() == 1,
            r.todo_items@[0].content().len() == 0,
            r.todo_items@[0].project_identifier@.len() == 0,
            r.todo_items@[0].description@.len() == 0,
            r.todo_items@[0].notes@.len() == 1,
            r.todo_items@[0].notes@[0].content@.len() == 0,
            forall|j: int| 0 <= j < 3 ==> r.projects@[0].columns()[j].len() == 0,
    {
        let mut todos: Vec<TodoItem> = Vec::new();
        todos.push(TodoItem::new(String::new()));
        AppState { todo_items: todos, projects: default_projects() }
    }
}

/// The spec-level filter the controller applies to project suggestions:
/// keep the projects whose name contains `text`.
pub open spec fn project_pred(text: Seq<char>) -> spec_fn(Project) -> bool {
    |p: Project| has_substring(p.name@, text)
}

/// The controller. It owns the canonical collections, the event bus, and one
/// editor of each kind; the editors hold only cursors and are handed the
/// collection they edit on every call.
pub struct App {
    pub app_state: AppState,
    pub todo_items: ListTextEditor<TodoItem>,
    pub notes: ListTextEditor<Note>,
    /// Which todo item's notes the notes editor is bound to; None while no
    /// todo item is selected.
    pub notes_binding: Option<usize>,
    pub projects: TableEditor<Project>,
    pub todo_item_project: AutoCompleteEditor<Project>,
    pub current_action: CodePalAction,
    pub title: String,
    pub should_quit: bool,
    /// Raised when the user asks to persist; the embedding saves and lowers
    /// it.
    pub should_save: bool,
    pub tabs: TabsState,
    pub bus: EventBus,
}

impl App {
    /// The controller's invariant: sound collections, every cursor in
    /// bounds, at most one editor active — the one the current action
    /// drives — and the fixed editor titles the reaction logic keys on.
    pub open spec fn wf(&self) -> bool {
        &&& self.app_state.wf()
        &&& match self.todo_items.current_selection {
            Some(i) => i < self.app_state.todo_items@.len(),
            None => true,
        }
        &&& self.projects.inv(self.app_state.projects@)
        &&& self.todo_item_project.inv()
        &&& self.tabs.wf()
        &&& (self.todo_items.active ==> self.current_action == CodePalAction::AddToDoItem)
        &&& (self.notes.active ==> self.current_action == CodePalAction::AddNote)
        &&& (self.projects.active ==> self.current_action == CodePalAction::AddProject)
        &&& (self.todo_item_project.active ==> self.current_action
            == CodePalAction::SelectProject)
        &&& self.todo_items.title@ == "Todo Items"@
        &&& self.notes.title@ == "Notes"@
        &&& self.projects.title@ == "Projects"@
        &&& self.todo_item_project.title@ == "Project"@
    }

    /// The notes editor's binding points at a live todo item and its cursor
    /// is in bounds for that todo's notes. Not an invariant: editing the
    /// todo list can invalidate it, and every use re-checks it.
    pub open spec fn notes_ok(&self) -> bool {
        match self.notes_binding {
            Some(k) => k < self.app_state.todo_items@.len() && self.notes.inv(
                self.app_state.todo_items@[k as int].notes@,
            ),
            None => false,
        }
    }

    /// The controller after the active editor, if any, was deactivated.
    pub open spec fn stopped(self) -> App {
        match self.current_action {
            CodePalAction::AddToDoItem => App {
                todo_items: (ListTextEditor { active: false, ..self.todo_items }),
                current_action: CodePalAction::NoAction,
                ..self
            },
            CodePalAction::AddNote => App {
                notes: (ListTextEditor { active: false, ..self.notes }),
                current_action: CodePalAction::NoAction,
                ..self
            },
            CodePalAction::AddProject => App {
                projects: (TableEditor { active: false, ..self.projects }),
                current_action: CodePalAction::NoAction,
                ..self
            },
            CodePalAction::SelectProject => App {
                todo_item_project: (AutoCompleteEditor { active: false, ..self.todo_item_project }),
                current_action: CodePalAction::NoAction,
                ..self
            },
            CodePalAction::NoAction => self,
        }
    }

    pub fn new(title: String, app_state: AppState) -> (r: App)
        requires
            app_state.wf(),
        ensures
            r.wf(),
            r.app_state == app_state,
            r.title == title,
            r.current_action == CodePalAction::NoAction,
            !r.should_quit,
            !r.should_save,
            r.todo_items.current_selection is None,
            r.notes.current_selection is None,
            r.projects.current_selection is None,
            r.todo_item_project.current_selection is None,
            r.todo_item_project.text@ == Seq::<char>::empty(),
            r.notes_binding is None,
            r.tabs.index == 0,
            r.bus.events@ == Seq::<Event>::empty(),
    {
        let mut headers: Vec<String> = Vec::new();
        headers.push(String::from_str("Name"));
        headers.push(String::from_str("url"));
        headers.push(String::from_str("Directory"));
        let mut column_lengths: Vec<u16> = Vec::new();
        column_lengths.push(20);
        column_lengths.push(50);
        column_lengths.push(50);
        let mut tab_titles: Vec<String> = Vec::new();
        tab_titles.push(String::from_str("Notes"));
        tab_titles.push(String::from_str("Projects"));
        let mut a = App {
            app_state,
            todo_items: ListTextEditor::new(String::from_str("Todo Items")),
            notes: ListTextEditor::new(String::from_str("Notes")),
            notes_binding: None,
            projects: TableEditor::new(String::from_str("Projects"), headers, column_lengths),
            todo_item_project: AutoCompleteEditor::new(
                String::from_str("Project"),
                String::new(),
                Vec::new(),
            ),
            current_action: CodePalAction::NoAction,
            title,
            should_quit: false,
            should_save: false,
            tabs: TabsState::new(tab_titles),
            bus: EventBus::new(),
        };
        a.init_state();
        a
    }

    /// Derive the dependent panels' initial state from the canonical
    /// collections: bind the notes editor to the selected todo item's notes
    /// (there is none yet right after construction).
    pub fn init_state(&mut self)
        requires
            old(self).wf(),
        ensures
            final(self).wf(),
            Self::notes_effect(*old(self), *final(self)),
            final(self).app_state == old(self).app_state,
            final(self).todo_items == old(self).todo_items,
            final(self).projects == old(self).projects,
            final(self).todo_item_project == old(self).todo_item_project,
            final(self).current_action == old(self).current_action,
            final(self).title == old(self).title,
            final(self).should_quit == old(self).should_quit,
            final(self).should_save == old(self).should_save,
            final(self).tabs == old(self).tabs,
    {
        self.set_notes();
    }

    /// What rebinding the notes panel does to the binding and the notes
    /// cursor: with a selected todo item, the notes editor is bound to that
    /// todo's notes and its first note is selected; with none, the binding
    /// is cleared.
    pub open spec fn notes_state_effect(pre: App, post: App) -> bool {
        match pre.todo_items.current_selection {
            Some(i) => {
                &&& post.notes_binding == Some(i)
                &&& post.notes == pre.notes.selected(0)
            },
            None => {
                &&& post.notes_binding is None
                &&& post.notes == pre.notes
            },
        }
    }

    /// What rebinding the notes panel does: the binding and cursor move as
    /// [`App::notes_state_effect`] says, and a fresh selection is broadcast
    /// exactly when a todo item is selected.
    pub open spec fn notes_effect(pre: App, post: App) -> bool {
        &&& Self::notes_state_effect(pre, post)
        &&& post.bus.events@ == (match pre.todo_items.current_selection {
            Some(_) => pre.bus.events@.push(pre.notes.selection_event(0)),
            None => pre.bus.events@,
        })
    }

    /// What recomputing the project suggestions against `text` does: the
    /// suggestion list becomes exactly the projects whose name contains
    /// `text`, in their original order, and the first suggestion is
    /// highlighted when there is one. The buffer itself is not touched.
    pub open spec fn suggestions_effect(pre: App, post: App, text: Seq<char>) -> bool {
        let filtered = pre.app_state.projects@.filter(project_pred(text));
        &&& post.todo_item_project.current_suggestions@ == filtered
        &&& post.todo_item_project.current_selection == (if filtered.len() > 0 {
            Some(0usize)
        } else {
            None::<usize>
        })
        &&& post.todo_item_project.active == pre.todo_item_project.active
        &&& post.todo_item_project.title == pre.todo_item_project.title
        &&& post.todo_item_project.current_chosen == pre.todo_item_project.current_chosen
    }

    /// Recompute the project autocomplete's suggestion list: keep every
    /// project whose name contains `text` as a substring, preserving order,
    /// then highlight the first suggestion (none when the list came out
    /// empty).
    #[verifier::loop_isolation(false)]
    pub fn set_project_suggestions(&mut self, text: &str)
        requires
            old(self).wf(),
        ensures
            final(self).wf(),
            Self::suggestions_effect(*old(self), *final(self), text@),
            final(self).todo_item_project.text == old(self).todo_item_project.text,
            final(self).app_state == old(self).app_state,
            final(self).todo_items == old(self).todo_items,
            final(self).notes == old(self).notes,
            final(self).notes_binding == old(self).notes_binding,
            final(self).projects == old(self).projects,
            final(self).bus == old(self).bus,
            final(self).current_action == old(self).current_action,
            final(self).title == old(self).title,
            final(self).should_quit == old(self).should_quit,
            final(self).should_save == old(self).should_save,
            final(self).tabs == old(self).tabs,
    {
        let ghost pred = project_pred(text@);
        let mut cloned_list: Vec<Project> = Vec::new();
        let n: usize = self.app_state.projects.len();
        let mut i: usize = 0;
        proof {
            assert(self.app_state.projects@.take(0) =~= Seq::<Project>::empty());
            reveal_with_fuel(Seq::filter, 1);
            assert(cloned_list@ == self.app_state.projects@.take(0).filter(pred));
        }
        while i < n
            invariant
                i <= n,
                cloned_list@ == self.app_state.projects@.take(i as int).filter(pred),
            decreases n - i,
        {
            let keep = crate::text::str_contains(self.app_state.projects[i].name.as_str(), text);
            if keep {
                cloned_list.push(self.app_state.projects[i].clone());
            }
            proof {
                let c = self.app_state.projects@;
                assert(c.take(i + 1).drop_last() =~= c.take(i as int));
                assert(c.take(i + 1).last() == c[i as int]);
                reveal_with_fuel(Seq::filter, 2);
                assert(cloned_list@ == c.take(i + 1).filter(pred));
            }
            i = i + 1;
        }
        proof {
            assert(self.app_state.projects@.take(n as int) =~= self.app_state.projects@);
        }
        let has: bool = cloned_list.len() > 0;
        self.todo_item_project.current_suggestions = cloned_list;
        if has {
            self.todo_item_project.select_suggestion(Some(0));
        } else {
            self.todo_item_project.select_suggestion(None);
        }
    }

    /// The filter law, spelled out: after the suggestions are recomputed
    /// against `text`, every entry's display name contains `text` as a
    /// substring, every project whose name contains it is among the
    /// suggestions, and no project whose name does not is.
    pub proof fn lemma_suggestions_filtered(pre: App, post: App, text: Seq<char>)
        requires
            Self::suggestions_effect(pre, post, text),
        ensures
            forall|i: int|
                0 <= i < post.todo_item_project.current_suggestions@.len() ==> has_substring(
                    (#[trigger] post.todo_item_project.current_suggestions@[i]).name@,
                    text,
                ),
            forall|j: int|
                0 <= j < pre.app_state.projects@.len() && has_substring(
                    (#[trigger] pre.app_state.projects@[j]).name@,
                    text,
                ) ==> post.todo_item_project.current_suggestions@.contains(
                    pre.app_state.projects@[j],
                ),
            forall|j: int|
                0 <= j < pre.app_state.projects@.len() && !has_substring(
                    (#[trigger] pre.app_state.projects@[j]).name@,
                    text,
                ) ==> !post.todo_item_project.current_suggestions@.contains(
                    pre.app_state.projects@[j],
                ),
    {
        broadcast use vstd::seq_lib::group_filter_ensures;

        let pred = project_pred(text);
        let projects = pre.app_state.projects@;
        let kept = post.todo_item_project.current_suggestions@;
        assert forall|j: int|
            0 <= j < projects.len() && !has_substring(
                (#[trigger] projects[j]).name@,
                text,
            ) implies !kept.contains(projects[j]) by {
            if kept.contains(projects[j]) {
                let i = choose|i: int| 0 <= i < kept.len() && kept[i] == projects[j];
                assert(pred(kept[i]));
            }
        }
    }

    /// What deriving the project panel from the selected todo item does:
    /// with a selected todo item whose project reference matches a known
    /// project, the buffer shows the first matching project's name and the
    /// suggestions are filtered by that name; with a dangling or absent
    /// reference — a look-up miss is not an error — the buffer is emptied
    /// and the suggestions are filtered by the empty text.
    pub open spec fn project_link_effect(pre: App, post: App) -> bool {
        match pre.todo_items.current_selection {
            Some(i) => {
                let pid = pre.app_state.todo_items@[i as int].project_identifier@;
                let projects = pre.app_state.projects@;
                if exists|k: int|
                    0 <= k < projects.len() && (#[trigger] projects[k]).identifier@ == pid {
                    exists|j: int|
                        {
                            &&& 0 <= j < projects.len()
                            &&& (#[trigger] projects[j]).identifier@ == pid
                            &&& forall|k: int| 0 <= k < j ==> projects[k].identifier@ != pid
                            &&& post.todo_item_project.text@ == projects[j].name@
                            &&& Self::suggestions_effect(pre, post, projects[j].name@)
                        }
                } else {
                    &&& post.todo_item_project.text@.len() == 0
                    &&& Self::suggestions_effect(pre, post, Seq::<char>::empty())
                }
            },
            None => {
                &&& post.todo_item_project.text@.len() == 0
                &&& Self::suggestions_effect(pre, post, Seq::<char>::empty())
            },
        }
    }

    /// Derive the project autocomplete's buffer and suggestion list from the
    /// selected todo item's project reference.
    pub fn set_todo_item_project_suggestions(&mut self)
        requires
            old(self).wf(),
        ensures
            final(self).wf(),
            Self::project_link_effect(*old(self), *final(self)),
            final(self).app_state == old(self).app_state,
            final(self).todo_items == old(self).todo_items,
            final(self).notes == old(self).notes,
            final(self).notes_binding == old(self).notes_binding,
            final(self).projects == old(self).projects,
            final(self).bus == old(self).bus,
            final(self).current_action == old(self).current_action,
            final(self).title == old(self).title,
            final(self).should_quit == old(self).should_quit,
            final(self).should_save == old(self).should_save,
            final(self).tabs == old(self).tabs,
    {
        proof {
            reveal_strlit("");
            assert(""@ =~= Seq::<char>::empty());
        }
        match self.todo_items.current_selection {
            Some(index) => {
                let n: usize = self.app_state.projects.len();
                let mut j: usize = 0;
                let mut found: Option<usize> = None;
                while j < n && found.is_none()
                    invariant
                        j <= n,
                        n == self.app_state.projects@.len(),
                        index < self.app_state.todo_items@.len(),
                        found is None ==> forall|k: int|
                            0 <= k < j ==> (#[trigger] self.app_state.projects@[k]).identifier@
                                != self.app_state.todo_items@[index as int].project_identifier@,
                        found matches Some(f) ==> {
                            &&& f < n
                            &&& self.app_state.projects@[f as int].identifier@
                                == self.app_state.todo_items@[index as int].project_identifier@
                            &&& forall|k: int|
                                0 <= k < f ==> (#[trigger] self.app_state.projects@[k]).identifier@
                                    != self.app_state.todo_items@[
                                    index as int].project_identifier@
                        },
                    decreases n - j, (if found is None { 1int } else { 0int }),
                {
                    if self.app_state.projects[j].identifier == self.app_state.todo_items[
                        index].project_identifier {
                        found = Some(j);
                    } else {
                        j = j + 1;
                    }
                }
                match found {
                    Some(f) => {
                        let project_name = self.app_state.projects[f].get_name();
                        self.todo_item_project.text = project_name.clone();
                        self.set_project_suggestions(project_name.as_str());
                    },
                    None => {
                        self.todo_item_project.text = String::new();
                        self.set_project_suggestions("");
                    },
                }
            },
            None => {
                self.todo_item_project.text = String::new();
                self.set_project_suggestions("");
            },
        }
    }

    /// What writing a project reference does: with a selected todo item,
    /// only that item's project reference changes, to `identifier`; with
    /// none, the collections stay put and the notes binding is cleared.
    pub open spec fn project_set_effect(pre: App, post: App, identifier: Seq<char>) -> bool {
        match pre.todo_items.current_selection {
            Some(i) => {
                &&& post.app_state.todo_items@.len() == pre.app_state.todo_items@.len()
                &&& post.app_state.todo_items@[i as int].project_identifier@ == identifier
                &&& post.app_state.todo_items@[i as int].identifier == pre.app_state.todo_items@[
                    i as int].identifier
                &&& post.app_state.todo_items@[i as int].title == pre.app_state.todo_items@[
                    i as int].title
                &&& post.app_state.todo_items@[i as int].description == pre.app_state.todo_items@[
                    i as int].description
                &&& post.app_state.todo_items@[i as int].notes == pre.app_state.todo_items@[
                    i as int].notes
                &&& forall|k: int|
                    0 <= k < pre.app_state.todo_items@.len() && k != i
                        ==> post.app_state.todo_items@[k] == pre.app_state.todo_items@[k]
                &&& post.app_state.projects == pre.app_state.projects
                &&& post.notes_binding == pre.notes_binding
            },
            None => {
                &&& post.app_state == pre.app_state
                &&& post.notes_binding is None
            },
        }
    }

    /// Write `identifier` into the selected todo item's project reference;
    /// with no selected todo item, clear the notes binding instead.
    pub fn set_project(&mut self, identifier: &str)
        requires
            old(self).wf(),
        ensures
            final(self).wf(),
            Self::project_set_effect(*old(self), *final(self), identifier@),
            final(self).todo_items == old(self).todo_items,
            final(self).notes == old(self).notes,
            final(self).projects == old(self).projects,
            final(self).todo_item_project == old(self).todo_item_project,
            final(self).bus == old(self).bus,
            final(self).current_action == old(self).current_action,
            final(self).title == old(self).title,
            final(self).should_quit == old(self).should_quit,
            final(self).should_save == old(self).should_save,
            final(self).tabs == old(self).tabs,
    {
        match self.todo_items.current_selection {
            Some(index) => {
                let todo = &mut self.app_state.todo_items[index];
                todo.project_identifier = String::from_str(identifier);
                proof {
                    assert(todo_item_wf(self.app_state.todo_items@[index as int]));
                }
            },
            None => {
                self.notes_binding = None;
            },
        }
    }

    /// React to one action notification: a selection change of the todo
    /// items rebinds the notes panel and rederives the project panel; a text
    /// change refilters the project suggestions; a committed project choice
    /// is written into the selected todo item. Anything else is ignored.
    pub fn on_action(&mut self, action: ActionPayload)
        requires
            old(self).wf(),
        ensures
            final(self).wf(),
            Self::handled(*old(self), *final(self), action),
            final(self).todo_items == old(self).todo_items,
            final(self).projects == old(self).projects,
            final(self).current_action == old(self).current_action,
            final(self).title == old(self).title,
            final(self).should_quit == old(self).should_quit,
            final(self).should_save == old(self).should_save,
            final(self).tabs == old(self).tabs,
            match action {
                ActionPayload::Selection(sender, _) => if sender@ == "Todo Items"@ {
                    &&& Self::notes_effect(*old(self), *final(self))
                    &&& Self::project_link_effect(*old(self), *final(self))
                    &&& final(self).app_state == old(self).app_state
                } else {
                    *final(self) == *old(self)
                },
                ActionPayload::Text(text) => {
                    &&& Self::suggestions_effect(*old(self), *final(self), text@)
                    &&& final(self).todo_item_project.text == old(self).todo_item_project.text
                    &&& final(self).app_state == old(self).app_state
                    &&& final(self).notes == old(self).notes
                    &&& final(self).notes_binding == old(self).notes_binding
                    &&& final(self).bus == old(self).bus
                },
                ActionPayload::TextSelection(sender, identifier) => if sender@ == "Project"@ {
                    &&& Self::project_set_effect(*old(self), *final(self), identifier@)
                    &&& final(self).notes == old(self).notes
                    &&& final(self).todo_item_project == old(self).todo_item_project
                    &&& final(self).bus == old(self).bus
                } else {
                    *final(self) == *old(self)
                },
            },
    {
        match action {
            ActionPayload::Selection(sender, _) => {
                if sender == String::from_str("Todo Items") {
                    self.set_notes();
                    self.set_todo_item_project_suggestions();
                }
            },
            ActionPayload::Text(text) => {
                self.set_project_suggestions(text.as_str());
            },
            ActionPayload::TextSelection(sender, identifier) => {
                if sender == String::from_str("Project") {
                    self.set_project(identifier.as_str());
                }
            },
        }
    }

    /// The two controllers agree on everything but the event queue.
    pub open spec fn non_bus_eq(a: App, b: App) -> bool {
        &&& b.app_state == a.app_state
        &&& b.todo_items == a.todo_items
        &&& b.notes == a.notes
        &&& b.notes_binding == a.notes_binding
        &&& b.projects == a.projects
        &&& b.todo_item_project == a.todo_item_project
        &&& b.current_action == a.current_action
        &&& b.title == a.title
        &&& b.should_quit == a.should_quit
        &&& b.should_save == a.should_save
        &&& b.tabs == a.tabs
    }

    /// What handling one action notification does to everything but the
    /// event queue: a todo-items selection rebinds the notes panel and
    /// rederives the project panel; a text change refilters the suggestions;
    /// a committed project choice is written into the selected todo item;
    /// anything else changes nothing.
    pub open spec fn handled(pre: App, post: App, a: ActionPayload) -> bool {
        &&& post.todo_items == pre.todo_items
        &&& post.projects == pre.projects
        &&& post.current_action == pre.current_action
        &&& post.title == pre.title
        &&& post.should_quit == pre.should_quit
        &&& post.should_save == pre.should_save
        &&& post.tabs == pre.tabs
        &&& match a {
            ActionPayload::Selection(sender, _) => if sender@ == "Todo Items"@ {
                &&& Self::notes_state_effect(pre, post)
                &&& Self::project_link_effect(pre, post)
                &&& post.app_state == pre.app_state
            } else {
                Self::non_bus_eq(pre, post)
            },
            ActionPayload::Text(text) => {
                &&& Self::suggestions_effect(pre, post, text@)
                &&& post.todo_item_project.text == pre.todo_item_project.text
                &&& post.app_state == pre.app_state
                &&& post.notes == pre.notes
                &&& post.notes_binding == pre.notes_binding
            },
            ActionPayload::TextSelection(sender, identifier) => if sender@ == "Project"@ {
                &&& Self::project_set_effect(pre, post, identifier@)
                &&& post.notes == pre.notes
                &&& post.todo_item_project == pre.todo_item_project
            } else {
                Self::non_bus_eq(pre, post)
            },
        }
    }

    /// Bind the notes editor to the selected todo item's notes and select
    /// its first note; with no selected todo item, clear the binding.
    pub fn set_notes(&mut self)
        requires
            old(self).wf(),
        ensures
            final(self).wf(),
            Self::notes_effect(*old(self), *final(self)),
            final(self).app_state == old(self).app_state,
            final(self).todo_items == old(self).todo_items,
            final(self).projects == old(self).projects,
            final(self).todo_item_project == old(self).todo_item_project,
            final(self).current_action == old(self).current_action,
            final(self).title == old(self).title,
            final(self).should_quit == old(self).should_quit,
            final(self).should_save == old(self).should_save,
            final(self).tabs == old(self).tabs,
            old(self).todo_items.current_selection is Some ==> final(self).notes_ok(),
    {
        match self.todo_items.current_selection {
            Some(index) => {
                self.notes_binding = Some(index);
                proof {
                    assert(todo_item_wf(self.app_state.todo_items@[index as int]));
                }
                let todo = &self.app_state.todo_items[index];
                self.notes.select_item(&todo.notes, 0, &mut self.bus);
            },
            None => {
                self.notes_binding = None;
            },
        }
    }

    /// Whether `event` is one of the controller's own control chords.
    pub open spec fn is_control_command(event: KeyInput) -> bool {
        event.control && (event.key == Key::Char('q') || event.key == Key::Char('a') || event.key
            == Key::Char('n') || event.key == Key::Char('p') || event.key == Key::Char('s'))
    }

    /// What starting to add a todo item does: the previously active editor is
    /// deactivated, the todo editor becomes the active one, and its
    /// activation selects (and broadcasts) the first row when nothing was
    /// selected.
    pub open spec fn add_todo_effect(pre: App, post: App) -> bool {
        let s = pre.stopped();
        &&& post == (App {
            todo_items: post.todo_items,
            current_action: CodePalAction::AddToDoItem,
            bus: post.bus,
            ..s
        })
        &&& post.todo_items == s.todo_items.activated()
        &&& post.bus.events@ == (if s.todo_items.current_selection is None {
            pre.bus.events@.push(
                Event::Action(ActionPayload::Selection(s.todo_items.title, Some(0usize))),
            )
        } else {
            pre.bus.events@
        })
    }

    /// What starting to add a note does: the previously active editor is
    /// deactivated and the notes editor becomes the active one. Its
    /// activation can select the first note only when the binding is usable;
    /// a dangling binding merely raises the active flag.
    pub open spec fn add_note_effect(pre: App, post: App) -> bool {
        let s = pre.stopped();
        &&& post == (App {
            notes: post.notes,
            current_action: CodePalAction::AddNote,
            bus: post.bus,
            ..s
        })
        &&& if s.notes_ok() {
            &&& post.notes == s.notes.activated()
            &&& post.bus.events@ == (if s.notes.current_selection is None {
                pre.bus.events@.push(
                    Event::Action(ActionPayload::Selection(s.notes.title, Some(0usize))),
                )
            } else {
                pre.bus.events@
            })
        } else {
            &&& post.notes == (ListTextEditor { active: true, ..s.notes })
            &&& post.bus.events@ == pre.bus.events@
        }
    }

    /// What starting to add a project does: the previously active editor is
    /// deactivated and the project table becomes the active one, with both
    /// its cursors reset. Nothing is broadcast.
    pub open spec fn add_project_effect(pre: App, post: App) -> bool {
        let s = pre.stopped();
        &&& post == (App {
            projects: post.projects,
            current_action: CodePalAction::AddProject,
            ..s
        })
        &&& post.projects == s.projects.activated()
    }

    /// What starting to pick a project does: the previously active editor is
    /// deactivated and the project autocomplete becomes the active one.
    /// Nothing is broadcast.
    pub open spec fn select_project_effect(pre: App, post: App) -> bool {
        let s = pre.stopped();
        &&& post == (App {
            todo_item_project: post.todo_item_project,
            current_action: CodePalAction::SelectProject,
            ..s
        })
        &&& post.todo_item_project == s.todo_item_project.activated()
    }

    /// Deactivate whichever editor is active and return to no action; a
    /// no-op when none is.
    pub fn on_stop_action(&mut self)
        requires
            old(self).wf(),
        ensures
            final(self).wf(),
            *final(self) == old(self).stopped(),
    {
        match self.current_action {
            CodePalAction::AddToDoItem => {
                self.todo_items.on_deactivate();
                self.current_action = CodePalAction::NoAction;
            },
            CodePalAction::AddNote => {
                self.notes.on_deactivate();
                self.current_action = CodePalAction::NoAction;
            },
            CodePalAction::AddProject => {
                self.projects.on_deactivate();
                self.current_action = CodePalAction::NoAction;
            },
            CodePalAction::SelectProject => {
                self.todo_item_project.on_deactivate();
                self.current_action = CodePalAction::NoAction;
            },
            CodePalAction::NoAction => {
            },
        }
    }

    /// Which editor is currently receiving key events, if any.
    pub fn current_active_item(&self) -> (r: Option<ActiveEditor>)
        ensures
            r == match self.current_action {
                CodePalAction::AddToDoItem => Some(ActiveEditor::TodoItems),
                CodePalAction::AddNote => Some(ActiveEditor::Notes),
                CodePalAction::AddProject => Some(ActiveEditor::Projects),
                CodePalAction::SelectProject => Some(ActiveEditor::TodoItemProject),
                CodePalAction::NoAction => None::<ActiveEditor>,
            },
    {
        match self.current_action {
            CodePalAction::AddToDoItem => Some(ActiveEditor::TodoItems),
            CodePalAction::AddNote => Some(ActiveEditor::Notes),
            CodePalAction::AddProject => Some(ActiveEditor::Projects),
            CodePalAction::SelectProject => Some(ActiveEditor::TodoItemProject),
            CodePalAction::NoAction => None,
        }
    }

    /// Whether the notes editor's binding and cursor are usable right now.
    fn notes_usable(&self) -> (r: bool)
        ensures
            r == self.notes_ok(),
    {
        match self.notes_binding {
            Some(k) => {
                if k < self.app_state.todo_items.len() {
                    match self.notes.current_selection {
                        None => true,
                        Some(j) => j < self.app_state.todo_items[k].notes.len(),
                    }
                } else {
                    false
                }
            },
            None => false,
        }
    }

    /// Stop the running action and activate the todo editor.
    pub fn on_add_todo(&mut self)
        requires
            old(self).wf(),
        ensures
            final(self).wf(),
            Self::add_todo_effect(*old(self), *final(self)),
    {
        self.on_stop_action();
        self.current_action = CodePalAction::AddToDoItem;
        self.todo_items.on_activate(&self.app_state.todo_items, &mut self.bus);
    }

    /// Stop the running action and activate the notes editor.
    pub fn on_add_note(&mut self)
        requires
            old(self).wf(),
        ensures
            final(self).wf(),
            Self::add_note_effect(*old(self), *final(self)),
    {
        self.on_stop_action();
        self.current_action = CodePalAction::AddNote;
        if self.notes_usable() {
            let k = match self.notes_binding {
                Some(k) => k,
                None => 0,
            };
            proof {
                assert(todo_item_wf(self.app_state.todo_items@[k as int]));
            }
            let todo = &self.app_state.todo_items[k];
            self.notes.on_activate(&todo.notes, &mut self.bus);
        } else {
            self.notes.active = true;
        }
    }

    /// Stop the running action and activate the project table.
    pub fn on_add_project(&mut self)
        requires
            old(self).wf(),
        ensures
            final(self).wf(),
            Self::add_project_effect(*old(self), *final(self)),
    {
        self.on_stop_action();
        self.current_action = CodePalAction::AddProject;
        self.projects.on_activate(&self.app_state.projects);
    }

    /// Stop the running action and activate the project autocomplete.
    pub fn on_select_project(&mut self)
        requires
            old(self).wf(),
        ensures
            final(self).wf(),
            Self::select_project_effect(*old(self), *final(self)),
    {
        self.on_stop_action();
        self.current_action = CodePalAction::SelectProject;
        self.todo_item_project.on_activate();
    }

    /// Raise the save flag; the embedding persists the state and lowers it.
    pub fn on_save(&mut self)
        ensures
            *final(self) == (App { should_save: true, ..*old(self) }),
    {
        self.should_save = true;
    }

    /// Nothing is bound to a bare upward arrow outside the editors.
    pub fn on_up(&mut self)
        ensures
            *final(self) == *old(self),
    {
    }

    /// Nothing is bound to a bare downward arrow outside the editors.
    pub fn on_down(&mut self)
        ensures
            *final(self) == *old(self),
    {
    }

    /// Nothing is bound to a bare enter outside the editors.
    pub fn on_enter(&mut self)
        ensures
            *final(self) == *old(self),
    {
    }

    /// The tick hook: nothing happens on a timer tick.
    pub fn on_tick(&mut self)
        ensures
            *final(self) == *old(self),
    {
    }

    /// Select the next tab.
    pub fn on_right(&mut self)
        requires
            old(self).wf(),
        ensures
            final(self).wf(),
            *final(self) == (App { tabs: final(self).tabs, ..*old(self) }),
            final(self).tabs.titles == old(self).tabs.titles,
            final(self).tabs.index as int == (old(self).tabs.index + 1) % (
            old(self).tabs.titles@.len() as int),
    {
        self.tabs.next();
    }

    /// Select the previous tab.
    pub fn on_left(&mut self)
        requires
            old(self).wf(),
        ensures
            final(self).wf(),
            *final(self) == (App { tabs: final(self).tabs, ..*old(self) }),
            final(self).tabs.titles == old(self).tabs.titles,
            final(self).tabs.index as int == (if old(self).tabs.index == 0 {
                old(self).tabs.titles@.len() - 1
            } else {
                old(self).tabs.index - 1
            }),
    {
        self.tabs.previous();
    }
}

/// Besides the notes of the todo item at `k`, nothing in the todo collection
/// changed.
pub open spec fn todos_except_notes_preserved(c0: Seq<TodoItem>, c1: Seq<TodoItem>, k: int) -> bool {
    &&& c1.len() == c0.len()
    &&& c1[k].identifier == c0[k].identifier
    &&& c1[k].title == c0[k].title
    &&& c1[k].project_identifier == c0[k].project_identifier
    &&& c1[k].description == c0[k].description
    &&& forall|j: int| 0 <= j < c0.len() && j != k ==> c1[j] == c0[j]
}

impl App {
    /// Route one raw key event: control chords drive the controller itself;
    /// everything else goes to the active editor, or moves the tab bar when
    /// none is active. Reactions to the notifications this queues are
    /// applied by [`App::process_actions`].
    pub fn on_key(&mut self, event: KeyInput)
        requires
            old(self).wf(),
        ensures
            final(self).wf(),
            (event.control && event.key == Key::Char('q')) ==> *final(self) == (App {
                should_quit: true,
                ..*old(self)
            }),
            (event.control && event.key == Key::Char('a')) ==> Self::add_todo_effect(
                *old(self),
                *final(self),
            ),
            (event.control && event.key == Key::Char('n')) ==> Self::add_note_effect(
                *old(self),
                *final(self),
            ),
            (event.control && event.key == Key::Char('p')) ==> (if old(self).tabs.index == 0 {
                Self::select_project_effect(*old(self), *final(self))
            } else if old(self).tabs.index == 1 {
                Self::add_project_effect(*old(self), *final(self))
            } else {
                *final(self) == *old(self)
            }),
            (event.control && event.key == Key::Char('s')) ==> *final(self) == (App {
                should_save: true,
                ..*old(self)
            }),
            event.key == Key::Esc ==> *final(self) == old(self).stopped(),
            (!Self::is_control_command(event) && event.key != Key::Esc) ==> match old(self).current_action {
                CodePalAction::AddToDoItem => {
                    &&& *final(self) == (App {
                        todo_items: final(self).todo_items,
                        app_state: final(self).app_state,
                        bus: final(self).bus,
                        ..*old(self)
                    })
                    &&& final(self).app_state.projects == old(self).app_state.projects
                    &&& (old(self).todo_items.active
                        ==> ListTextEditor::<TodoItem>::event_step(
                        old(self).todo_items,
                        old(self).app_state.todo_items@,
                        old(self).bus.events@,
                        final(self).todo_items,
                        final(self).app_state.todo_items@,
                        final(self).bus.events@,
                        event,
                    ))
                    &&& (!old(self).todo_items.active ==> final(self).todo_items == old(self).todo_items && final(self).app_state.todo_items@ == old(self).app_state.todo_items@ && final(self).bus.events@ == old(self).bus.events@)
                },
                CodePalAction::AddNote => {
                    &&& *final(self) == (App {
                        notes: final(self).notes,
                        app_state: final(self).app_state,
                        bus: final(self).bus,
                        ..*old(self)
                    })
                    &&& final(self).app_state.projects == old(self).app_state.projects
                    &&& if old(self).notes_ok() {
                        old(self).notes_binding matches Some(k) ==> {
                            &&& todos_except_notes_preserved(
                                old(self).app_state.todo_items@,
                                final(self).app_state.todo_items@,
                                k as int,
                            )
                            &&& (old(self).notes.active
                                ==> ListTextEditor::<Note>::event_step(
                                old(self).notes,
                                old(self).app_state.todo_items@[k as int].notes@,
                                old(self).bus.events@,
                                final(self).notes,
                                final(self).app_state.todo_items@[k as int].notes@,
                                final(self).bus.events@,
                                event,
                            ))
                            &&& (!old(self).notes.active ==> final(self).notes == old(self).notes
                                && final(self).app_state.todo_items@[k as int].notes@ == old(self).app_state.todo_items@[k as int].notes@ && final(self).bus.events@
                                == old(self).bus.events@)
                        }
                    } else {
                        &&& final(self).notes == old(self).notes
                        &&& final(self).app_state.todo_items@ == old(self).app_state.todo_items@
                        &&& final(self).bus.events@ == old(self).bus.events@
                    }
                },
                CodePalAction::AddProject => {
                    &&& *final(self) == (App {
                        projects: final(self).projects,
                        app_state: final(self).app_state,
                        ..*old(self)
                    })
                    &&& final(self).app_state.todo_items == old(self).app_state.todo_items
                    &&& (old(self).projects.active
                        ==> TableEditor::<Project>::event_step(
                        old(self).projects,
                        old(self).app_state.projects@,
                        final(self).projects,
                        final(self).app_state.projects@,
                        event,
                    ))
                    &&& (!old(self).projects.active ==> final(self).projects == old(self).projects
                        && final(self).app_state.projects@ == old(self).app_state.projects@)
                },
                CodePalAction::SelectProject => {
                    &&& *final(self) == (App {
                        todo_item_project: final(self).todo_item_project,
                        bus: final(self).bus,
                        ..*old(self)
                    })
                    &&& (old(self).todo_item_project.active
                        ==> AutoCompleteEditor::<Project>::event_step(
                        old(self).todo_item_project,
                        old(self).bus.events@,
                        final(self).todo_item_project,
                        final(self).bus.events@,
                        event,
                    ))
                    &&& (!old(self).todo_item_project.active ==> final(self).todo_item_project
                        == old(self).todo_item_project && final(self).bus.events@ == old(self).bus.events@)
                },
                CodePalAction::NoAction => {
                    &&& event.key == Key::Left ==> *final(self) == (App {
                        tabs: final(self).tabs,
                        ..*old(self)
                    }) && final(self).tabs.titles == old(self).tabs.titles && final(self).tabs.index as int == (if old(self).tabs.index == 0 {
                        old(self).tabs.titles@.len() - 1
                    } else {
                        old(self).tabs.index - 1
                    })
                    &&& event.key == Key::Right ==> *final(self) == (App {
                        tabs: final(self).tabs,
                        ..*old(self)
                    }) && final(self).tabs.titles == old(self).tabs.titles && final(self).tabs.index as int == (old(self).tabs.index + 1) % (
                    old(self).tabs.titles@.len() as int)
                    &&& (event.key != Key::Left && event.key != Key::Right) ==> *final(self)
                        == *old(self)
                },
            },
    {
        match (event.key, event.control) {
            (Key::Char('q'), true) => {
                self.should_quit = true;
            },
            (Key::Char('a'), true) => self.on_add_todo(),
            (Key::Char('n'), true) => self.on_add_note(),
            (Key::Char('p'), true) => {
                if self.tabs.index == 0 {
                    self.on_select_project();
                } else if self.tabs.index == 1 {
                    self.on_add_project();
                }
            },
            (Key::Char('s'), true) => self.on_save(),
            (Key::Esc, _) => self.on_stop_action(),
            _ => {
                match self.current_action {
                    CodePalAction::AddToDoItem => {
                        self.todo_items.on_event(
                            &mut self.app_state.todo_items,
                            event,
                            &mut self.bus,
                        );
                        proof {
                            assert forall|q: int|
                                0 <= q < self.app_state.todo_items@.len() implies todo_item_wf(
                                #[trigger] self.app_state.todo_items@[q],
                            ) by {
                                assert(ListTextEditor::<TodoItem>::all_wf(
                                    old(self).app_state.todo_items@,
                                ));
                                assert(self.app_state.todo_items@[q].wf());
                            }
                        }
                    },
                    CodePalAction::AddNote => {
                        if self.notes_usable() {
                            let k = match self.notes_binding {
                                Some(k) => k,
                                None => 0,
                            };
                            proof {
                                assert(todo_item_wf(self.app_state.todo_items@[k as int]));
                            }
                            let todo = &mut self.app_state.todo_items[k];
                            self.notes.on_event(&mut todo.notes, event, &mut self.bus);
                            proof {
                                assert forall|q: int|
                                    0 <= q < self.app_state.todo_items@.len() implies todo_item_wf(
                                    #[trigger] self.app_state.todo_items@[q],
                                ) by {
                                    if q != k as int {
                                        assert(self.app_state.todo_items@[q] == old(self).app_state.todo_items@[q]);
                                    }
                                }
                            }
                        }
                    },
                    CodePalAction::AddProject => {
                        self.projects.on_event(&mut self.app_state.projects, event);
                    },
                    CodePalAction::SelectProject => {
                        self.todo_item_project.on_event(event, &mut self.bus);
                    },
                    CodePalAction::NoAction => {
                        match event.key {
                            Key::Left => self.on_left(),
                            Key::Up => self.on_up(),
                            Key::Right => self.on_right(),
                            Key::Down => self.on_down(),
                            Key::Enter => self.on_enter(),
                            _ => {
                            },
                        }
                    },
                }
            },
        }
    }

    /// Route externally pasted text to the active editor's working cell or
    /// row; the autocomplete takes no paste, and without an active editor
    /// nothing happens. Fetching the text from the platform's paste provider
    /// — which may fail, making the paste a silent no-op — is the
    /// embedding's job.
    pub fn on_paste(&mut self, pasted: &str)
        requires
            old(self).wf(),
        ensures
            final(self).wf(),
            final(self).bus == old(self).bus,
            match old(self).current_action {
                CodePalAction::AddToDoItem => {
                    &&& *final(self) == (App {
                        app_state: final(self).app_state,
                        ..*old(self)
                    })
                    &&& final(self).app_state.projects == old(self).app_state.projects
                    &&& ({
                        let i = old(self).todo_items.sel_or_zero();
                        if i < old(self).app_state.todo_items@.len() {
                            ListTextEditor::<TodoItem>::content_edited(
                                old(self).app_state.todo_items@,
                                final(self).app_state.todo_items@,
                                i,
                                old(self).app_state.todo_items@[i].content() + pasted@,
                            )
                        } else {
                            final(self).app_state.todo_items@ == old(self).app_state.todo_items@
                        }
                    })
                },
                CodePalAction::AddNote => {
                    &&& *final(self) == (App {
                        app_state: final(self).app_state,
                        ..*old(self)
                    })
                    &&& final(self).app_state.projects == old(self).app_state.projects
                    &&& if old(self).notes_ok() {
                        old(self).notes_binding matches Some(k) ==> {
                            &&& todos_except_notes_preserved(
                                old(self).app_state.todo_items@,
                                final(self).app_state.todo_items@,
                                k as int,
                            )
                            &&& ({
                                let i = old(self).notes.sel_or_zero();
                                let n0 = old(self).app_state.todo_items@[k as int].notes@;
                                let n1 = final(self).app_state.todo_items@[k as int].notes@;
                                if i < n0.len() {
                                    ListTextEditor::<Note>::content_edited(
                                        n0,
                                        n1,
                                        i,
                                        n0[i].content() + pasted@,
                                    )
                                } else {
                                    n1 == n0
                                }
                            })
                        }
                    } else {
                        final(self).app_state.todo_items@ == old(self).app_state.todo_items@
                    }
                },
                CodePalAction::AddProject => {
                    &&& *final(self) == (App {
                        app_state: final(self).app_state,
                        ..*old(self)
                    })
                    &&& final(self).app_state.todo_items == old(self).app_state.todo_items
                    &&& ({
                        let i = old(self).projects.row_or_zero();
                        let j = old(self).projects.head_or_zero();
                        if i < old(self).app_state.projects@.len() {
                            TableEditor::<Project>::cell_edited(
                                old(self).app_state.projects@,
                                final(self).app_state.projects@,
                                i,
                                j,
                                old(self).app_state.projects@[i].columns()[j] + pasted@,
                            )
                        } else {
                            final(self).app_state.projects@ == old(self).app_state.projects@
                        }
                    })
                },
                CodePalAction::SelectProject => *final(self) == *old(self),
                CodePalAction::NoAction => *final(self) == *old(self),
            },
    {
        match self.current_action {
            CodePalAction::AddToDoItem => {
                self.todo_items.on_paste(&mut self.app_state.todo_items, pasted);
                proof {
                    assert forall|q: int|
                        0 <= q < self.app_state.todo_items@.len() implies todo_item_wf(
                        #[trigger] self.app_state.todo_items@[q],
                    ) by {
                        assert(ListTextEditor::<TodoItem>::all_wf(old(self).app_state.todo_items@));
                        assert(self.app_state.todo_items@[q].wf());
                    }
                }
            },
            CodePalAction::AddNote => {
                if self.notes_usable() {
                    let k = match self.notes_binding {
                        Some(k) => k,
                        None => 0,
                    };
                    proof {
                        assert(todo_item_wf(self.app_state.todo_items@[k as int]));
                    }
                    let todo = &mut self.app_state.todo_items[k];
                    self.notes.on_paste(&mut todo.notes, pasted);
                    proof {
                        assert forall|q: int|
                            0 <= q < self.app_state.todo_items@.len() implies todo_item_wf(
                            #[trigger] self.app_state.todo_items@[q],
                        ) by {
                            if q != k as int {
                                assert(self.app_state.todo_items@[q] == old(self).app_state.todo_items@[q]);
                            }
                        }
                    }
                }
            },
            CodePalAction::AddProject => {
                self.projects.on_paste(&mut self.app_state.projects, pasted);
            },
            CodePalAction::SelectProject => {
            },
            CodePalAction::NoAction => {
            },
        }
    }
}

/// An event is a selection notification from the todo items editor: the one
/// kind of event whose handling can queue another notification.
pub open spec fn is_todo_selection(e: Event) -> bool {
    match e {
        Event::Action(ActionPayload::Selection(sender, _)) => sender@ == "Todo Items"@,
        _ => false,
    }
}

/// How many todo-items selection notifications a queue holds.
pub open spec fn todo_selection_count(q: Seq<Event>) -> nat
    decreases q.len(),
{
    if q.len() == 0 {
        0
    } else {
        (if is_todo_selection(q[0]) {
            1nat
        } else {
            0nat
        }) + todo_selection_count(q.skip(1))
    }
}

/// Appending an event at the back adds its own weight to the count.
pub proof fn lemma_todo_selection_count_push(q: Seq<Event>, e: Event)
    ensures
        todo_selection_count(q.push(e)) == todo_selection_count(q) + (if is_todo_selection(e) {
            1nat
        } else {
            0nat
        }),
    decreases q.len(),
{
    reveal_with_fuel(todo_selection_count, 2);
    if q.len() == 0 {
        assert(q.push(e)[0] == e);
        assert(q.push(e).skip(1) =~= Seq::<Event>::empty());
    } else {
        assert(q.push(e).skip(1) =~= q.skip(1).push(e));
        assert(q.push(e)[0] == q[0]);
        lemma_todo_selection_count_push(q.skip(1), e);
    }
}

/// Taking the oldest event off the front subtracts its own weight from the
/// count.
pub proof fn lemma_todo_selection_count_pop(q: Seq<Event>)
    requires
        q.len() > 0,
    ensures
        todo_selection_count(q.remove(0)) == todo_selection_count(q) - (if is_todo_selection(
            q[0],
        ) {
            1nat
        } else {
            0nat
        }),
{
    reveal_with_fuel(todo_selection_count, 2);
    assert(q.skip(1) =~= q.remove(0));
}

impl App {
    /// Handling such an event can change nothing but the queue itself: raw
    /// input and ticks are dropped by the drain, and the only notifications
    /// a reaction listens to are todo-items selections, text changes, and
    /// committed project choices. In particular the notes selection that a
    /// rebinding itself broadcasts is inert.
    pub open spec fn inert(e: Event) -> bool {
        match e {
            Event::Action(a) => match a {
                ActionPayload::Selection(sender, _) => sender@ != "Todo Items"@,
                ActionPayload::Text(_) => false,
                ActionPayload::TextSelection(sender, _) => sender@ != "Project"@,
            },
            _ => true,
        }
    }

    /// `post` is what `pre` becomes, apart from the event queue itself, when
    /// the action notifications on `q` are handled in queue order (raw input
    /// and ticks are dropped).
    pub open spec fn drains(pre: App, q: Seq<Event>, post: App) -> bool
        decreases q.len(),
    {
        if q.len() == 0 {
            Self::non_bus_eq(pre, post)
        } else {
            match q[0] {
                Event::Action(a) => exists|mid: App|
                    #[trigger] Self::handled(pre, mid, a) && Self::drains(mid, q.skip(1), post),
                _ => Self::drains(pre, q.skip(1), post),
            }
        }
    }

    /// Draining a queue of inert events changes nothing but the queue.
    proof fn lemma_drains_inert(pre: App, q: Seq<Event>, post: App)
        requires
            forall|i: int| 0 <= i < q.len() ==> Self::inert(#[trigger] q[i]),
            Self::drains(pre, q, post),
        ensures
            Self::non_bus_eq(pre, post),
        decreases q.len(),
    {
        if q.len() > 0 {
            assert(forall|i: int| 0 <= i < q.skip(1).len() ==> Self::inert(#[trigger] q.skip(1)[i]))
                by {
                assert(forall|i: int|
                    0 <= i < q.skip(1).len() ==> #[trigger] q.skip(1)[i] == q[i + 1]);
            }
            match q[0] {
                Event::Action(a) => {
                    let mid = choose|mid: App|
                        #[trigger] Self::handled(pre, mid, a) && Self::drains(mid, q.skip(1), post);
                    assert(Self::non_bus_eq(pre, mid));
                    Self::lemma_drains_inert(mid, q.skip(1), post);
                },
                _ => {
                    Self::lemma_drains_inert(pre, q.skip(1), post);
                },
            }
        }
    }

    /// A trailing run of inert events can be dropped from the queue without
    /// changing what draining it means.
    proof fn lemma_drains_strip(pre: App, q: Seq<Event>, em: Seq<Event>, post: App)
        requires
            forall|i: int| 0 <= i < em.len() ==> Self::inert(#[trigger] em[i]),
            Self::drains(pre, q + em, post),
        ensures
            Self::drains(pre, q, post),
        decreases q.len(),
    {
        if q.len() == 0 {
            assert(q + em =~= em);
            Self::lemma_drains_inert(pre, em, post);
        } else {
            assert((q + em)[0] == q[0]);
            assert((q + em).skip(1) =~= q.skip(1) + em);
            match q[0] {
                Event::Action(a) => {
                    let mid = choose|mid: App|
                        #[trigger] Self::handled(pre, mid, a) && Self::drains(
                            mid,
                            (q + em).skip(1),
                            post,
                        );
                    Self::lemma_drains_strip(mid, q.skip(1), em, post);
                    assert(Self::handled(pre, mid, a) && Self::drains(mid, q.skip(1), post));
                },
                _ => {
                    Self::lemma_drains_strip(pre, q.skip(1), em, post);
                },
            }
        }
    }

    /// What draining a queue means does not depend on the starting event
    /// queue, only on the rest of the starting state.
    proof fn lemma_drains_pre_bus(p1: App, p2: App, q: Seq<Event>, post: App)
        requires
            Self::non_bus_eq(p1, p2),
            Self::drains(p1, q, post),
        ensures
            Self::drains(p2, q, post),
        decreases q.len(),
    {
        if q.len() == 0 {
        } else {
            match q[0] {
                Event::Action(a) => {
                    let mid = choose|mid: App|
                        #[trigger] Self::handled(p1, mid, a) && Self::drains(mid, q.skip(1), post);
                    assert(Self::handled(p2, mid, a));
                },
                _ => {
                    Self::lemma_drains_pre_bus(p1, p2, q.skip(1), post);
                },
            }
        }
    }

    /// Drain the event queue, handling each action notification in queue
    /// order via [`App::on_action`]; raw input and ticks on the queue are
    /// dropped here (the embedding routes those through [`App::on_key`] and
    /// [`App::on_tick`]). The recursion terminates because only handling a
    /// todo-items selection queues a further notification, and what it
    /// queues is an inert notes selection.
    pub fn process_actions(&mut self)
        requires
            old(self).wf(),
        ensures
            final(self).wf(),
            final(self).bus.events@.len() == 0,
            Self::drains(*old(self), old(self).bus.events@, *final(self)),
            final(self).todo_items == old(self).todo_items,
            final(self).projects == old(self).projects,
            final(self).current_action == old(self).current_action,
            final(self).title == old(self).title,
            final(self).should_quit == old(self).should_quit,
            final(self).should_save == old(self).should_save,
            final(self).tabs == old(self).tabs,
            final(self).app_state.todo_items@.len() == old(self).app_state.todo_items@.len(),
            final(self).app_state.projects == old(self).app_state.projects,
        decreases todo_selection_count(self.bus.events@), self.bus.events@.len(),
    {
        let ghost q0 = self.bus.events@;
        let ev = self.bus.next();
        match ev {
            None => {
            },
            Some(Event::Action(payload)) => {
                let ghost pl = payload;
                proof {
                    lemma_todo_selection_count_pop(q0);
                }
                let ghost q1 = self.bus.events@;
                let ghost before = *self;
                self.on_action(payload);
                let ghost mid = *self;
                proof {
                    reveal_strlit("Todo Items");
                    reveal_strlit("Notes");
                    assert("Notes"@.len() != "Todo Items"@.len());
                    assert(before.notes.title@ != "Todo Items"@);
                    if is_todo_selection(q0[0]) {
                        // handling a todo-items selection queues at most one
                        // notes selection, which weighs nothing
                        if mid.bus.events@ != q1 {
                            assert(mid.bus.events@ == q1.push(
                                Event::Action(
                                    ActionPayload::Selection(before.notes.title, Some(0usize)),
                                ),
                            ));
                            lemma_todo_selection_count_push(
                                q1,
                                Event::Action(
                                    ActionPayload::Selection(before.notes.title, Some(0usize)),
                                ),
                            );
                        }
                        assert(todo_selection_count(mid.bus.events@) < todo_selection_count(q0));
                    } else {
                        // nothing is queued for any other event
                        assert(mid.bus.events@ == q1);
                        assert(todo_selection_count(mid.bus.events@) == todo_selection_count(q0));
                        assert(mid.bus.events@.len() < q0.len());
                    }
                }
                self.process_actions();
                proof {
                    reveal_strlit("Todo Items");
                    reveal_strlit("Notes");
                    // the queue on which the recursion drained was the tail
                    // of the popped queue plus the (inert) emission
                    let em: Seq<Event> = if mid.bus.events@ == q1 {
                        Seq::<Event>::empty()
                    } else {
                        seq![Event::Action(ActionPayload::Selection(before.notes.title, Some(0usize)))]
                    };
                    assert(mid.bus.events@ =~= q1 + em);
                    assert(before.notes.title@ != "Todo Items"@);
                    assert(forall|i: int| 0 <= i < em.len() ==> Self::inert(#[trigger] em[i]));
                    Self::lemma_drains_strip(mid, q1, em, *self);
                    assert(q1 =~= q0.skip(1));
                    assert(Self::non_bus_eq(before, *old(self)));
                    assert(Self::handled(*old(self), mid, pl));
                    assert(Self::drains(mid, q0.skip(1), *self));
                    assert(q0[0] == Event::Action(pl));
                    assert(Self::drains(*old(self), q0, *self));
                }
            },
            Some(_) => {
                proof {
                    lemma_todo_selection_count_pop(q0);
                }
                let ghost spop = *self;
                self.process_actions();
                proof {
                    assert(q0.skip(1) =~= q0.remove(0));
                    Self::lemma_drains_pre_bus(spop, *old(self), q0.skip(1), *self);
                    assert(Self::drains(*old(self), q0, *self));
                }
            },
        }
    }
}

} // verus!
