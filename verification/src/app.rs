use vstd::prelude::*;

use crate::journal::Journal;

verus! {

/// A key as the terminal driver reports it, reduced to the plain values the
/// classifier reads: a printable character or one of the named keys.
#[derive(Debug, Clone, Copy, PartialEq, Eq, Structural)]
pub enum KeyCode {
    Char(char),
    Left,
    Right,
    Up,
    Down,
    Enter,
    Backspace,
    Esc,
    Other,
}

/// One raw input event: a key with its press discriminant, or something
/// other than a key (mouse, resize, ...).
#[derive(Debug, Clone, Copy, PartialEq, Eq, Structural)]
pub enum InputEvent {
    Key { code: KeyCode, press: bool },
    NotKey,
}

/// The semantic action one input event maps to.
#[derive(Debug, Clone, Copy, PartialEq, Eq, Structural)]
pub enum KeyAction {
    Quit,
    AddBeans,
    Left,
    Right,
    Up,
    Down,
    Noop,
    Confirm,
    Type(char),
    Backspace,
    Cancel,
}

/// The context-free classification of one input event.
///
/// Only key presses act; fixed single-character bindings come first, then the
/// named keys, then any other character is typed literally.
pub open spec fn classify(e: InputEvent) -> KeyAction {
    match e {
        InputEvent::NotKey => KeyAction::Noop,
        InputEvent::Key { code, press } => {
            if !press {
                KeyAction::Noop
            } else {
                match code {
                    KeyCode::Char(c) => {
                        if c == 'q' {
                            KeyAction::Quit
                        } else if c == 'b' {
                            KeyAction::AddBeans
                        } else if c == 'h' {
                            KeyAction::Left
                        } else if c == 'l' {
                            KeyAction::Right
                        } else if c == 'j' {
                            KeyAction::Down
                        } else if c == 'k' {
                            KeyAction::Up
                        } else {
                            KeyAction::Type(c)
                        }
                    },
                    KeyCode::Left => KeyAction::Left,
                    KeyCode::Right => KeyAction::Right,
                    KeyCode::Down => KeyAction::Down,
                    KeyCode::Up => KeyAction::Up,
                    KeyCode::Enter => KeyAction::Confirm,
                    KeyCode::Backspace => KeyAction::Backspace,
                    KeyCode::Esc => KeyAction::Cancel,
                    KeyCode::Other => KeyAction::Noop,
                }
            }
        },
    }
}

impl KeyAction {
    /// Map one raw input event to its action, as `classify` states.
    pub fn from(value: InputEvent) -> (r: KeyAction)
        ensures
            r == classify(value),
    {
        match value {
            InputEvent::NotKey => KeyAction::Noop,
            InputEvent::Key { code, press } => {
                if !press {
                    KeyAction::Noop
                } else {
                    match code {
                        KeyCode::Char(c) => {
                            if c == 'q' {
                                KeyAction::Quit
                            } else if c == 'b' {
                                KeyAction::AddBeans
                            } else if c == 'h' {
                                KeyAction::Left
                            } else if c == 'l' {
                                KeyAction::Right
                            } else if c == 'j' {
                                KeyAction::Down
                            } else if c == 'k' {
                                KeyAction::Up
                            } else {
                                KeyAction::Type(c)
                            }
                        },
                        KeyCode::Left => KeyAction::Left,
                        KeyCode::Right => KeyAction::Right,
                        KeyCode::Down => KeyAction::Down,
                        KeyCode::Up => KeyAction::Up,
                        KeyCode::Enter => KeyAction::Confirm,
                        KeyCode::Backspace => KeyAction::Backspace,
                        KeyCode::Esc => KeyAction::Cancel,
                        KeyCode::Other => KeyAction::Noop,
                    }
                }
            },
        }
    }
}

/// Which of the two panes receives navigation input.
#[derive(Debug, Clone, Copy, PartialEq, Eq, Structural)]
pub enum Focus {
    BeansList,
    JournalPage,
}

/// Where focus lands when moving one pane to the left, or `None` at the
/// leftmost pane.
pub open spec fn spec_left(f: Focus) -> Option<Focus> {
    match f {
        Focus::BeansList => None,
        Focus::JournalPage => Some(Focus::BeansList),
    }
}

/// Where focus lands when moving one pane to the right, or `None` at the
/// rightmost pane.
pub open spec fn spec_right(f: Focus) -> Option<Focus> {
    match f {
        Focus::BeansList => Some(Focus::JournalPage),
        Focus::JournalPage => None,
    }
}

/// How a pane label is drawn: emphasised when its pane has focus, plain
/// otherwise.
#[derive(Debug, Clone, Copy, PartialEq, Eq, Structural)]
pub enum LabelStyle {
    Emphasis,
    Plain,
}

impl Focus {
    /// The pane to the left, when there is one.
    pub fn left(&self) -> (r: Option<Focus>)
        ensures
            r == spec_left(*self),
    {
        match self {
            Focus::BeansList => None,
            Focus::JournalPage => Some(Focus::BeansList),
        }
    }

    /// The pane to the right, when there is one.
    pub fn right(&self) -> (r: Option<Focus>)
        ensures
            r == spec_right(*self),
    {
        match self {
            Focus::BeansList => Some(Focus::JournalPage),
            Focus::JournalPage => None,
        }
    }

    /// The style for the label of pane `value`: emphasised exactly when that
    /// pane is the focused one.
    pub fn get_style(&self, value: Focus) -> (r: LabelStyle)
        ensures
            r == (if *self == value { LabelStyle::Emphasis } else { LabelStyle::Plain }),
    {
        if *self == value {
            LabelStyle::Emphasis
        } else {
            LabelStyle::Plain
        }
    }
}

impl Default for Focus {
    /// The journal pane has focus at session start.
    fn default() -> (r: Focus)
        ensures
            r == Focus::JournalPage,
    {
        Focus::JournalPage
    }
}

/// Moving left and then right from the journal pane comes back to the
/// journal pane, both transitions existing; from the bean list, moving left
/// is refused.
pub proof fn lemma_focus_left_right_round_trip()
    ensures
        spec_left(Focus::JournalPage) == Some(Focus::BeansList),
        spec_right(Focus::BeansList) == Some(Focus::JournalPage),
        spec_left(Focus::BeansList) is None,
        spec_right(Focus::JournalPage) is None,
{
}

/// The selection after one step down the list of `n` entries: with an empty
/// journal nothing changes; with no selection yet the first entry is
/// selected; otherwise the index moves up by one and saturates at the last
/// entry.
pub open spec fn spec_next(sel: Option<usize>, n: nat) -> Option<usize> {
    if n == 0 {
        sel
    } else {
        match sel {
            None => Some(0usize),
            Some(i) => if i + 1 < n {
                Some((i + 1) as usize)
            } else {
                Some((n - 1) as usize)
            },
        }
    }
}

/// The selection after one step up the list of `n` entries: the mirror of
/// `spec_next`, saturating at the first entry.
pub open spec fn spec_prev(sel: Option<usize>, n: nat) -> Option<usize> {
    if n == 0 {
        sel
    } else {
        match sel {
            None => Some(0usize),
            Some(i) => if i > 0 {
                Some((i - 1) as usize)
            } else {
                Some(0usize)
            },
        }
    }
}

/// The selection after `k` repeated `spec_next` steps.
pub open spec fn iter_next(sel: Option<usize>, n: nat, k: nat) -> Option<usize>
    decreases k,
{
    if k == 0 {
        sel
    } else {
        spec_next(iter_next(sel, n, (k - 1) as nat), n)
    }
}

/// The selection after `k` repeated `spec_prev` steps.
pub open spec fn iter_prev(sel: Option<usize>, n: nat, k: nat) -> Option<usize>
    decreases k,
{
    if k == 0 {
        sel
    } else {
        spec_prev(iter_prev(sel, n, (k - 1) as nat), n)
    }
}

/// From any starting index of a non-empty journal, `k` repeated `next`
/// steps land exactly on `min(i + k, n - 1)`: no step leaves `[0, n - 1]`,
/// and from `n - 1 - i` steps on the selection is the last entry and stays
/// there.
pub proof fn lemma_repeated_next(i: usize, n: nat, k: nat)
    requires
        n >= 1,
        n <= usize::MAX,
        (i as nat) < n,
    ensures
        iter_next(Some(i), n, k) == (if i + k < n {
            Some((i + k) as usize)
        } else {
            Some((n - 1) as usize)
        }),
    decreases k,
{
    if k > 0 {
        lemma_repeated_next(i, n, (k - 1) as nat);
    }
}

/// From any starting index of a non-empty journal, `k` repeated `prev`
/// steps land exactly on `max(i - k, 0)`: no step leaves `[0, n - 1]`, and
/// from `i` steps on the selection is the first entry and stays there.
pub proof fn lemma_repeated_prev(i: usize, n: nat, k: nat)
    requires
        n >= 1,
        (i as nat) < n,
    ensures
        iter_prev(Some(i), n, k) == (if k <= i {
            Some((i - k) as usize)
        } else {
            Some(0usize)
        }),
    decreases k,
{
    if k > 0 {
        lemma_repeated_prev(i, n, (k - 1) as nat);
    }
}

/// On an empty journal, any number of `next` or `prev` steps leaves the
/// selection `None`.
pub proof fn lemma_empty_journal_keeps_none(k: nat)
    ensures
        iter_next(None, 0, k) is None,
        iter_prev(None, 0, k) is None,
    decreases k,
{
    if k > 0 {
        lemma_empty_journal_keeps_none((k - 1) as nat);
    }
}

/// Which journal entry the bean list highlights, if any.
#[derive(Debug, Clone, Copy)]
pub struct BeansListState {
    pub selected: Option<usize>,
}

impl BeansListState {
    /// A highlighted entry always lies inside the journal of `n` entries.
    pub open spec fn wf(&self, n: nat) -> bool {
        self.selected matches Some(i) ==> (i as nat) < n
    }

    /// Move the highlight one entry down the bean list, as `spec_next`
    /// states.
    pub fn next(&mut self, journal: &Journal)
        requires
            old(self).wf(journal.spec_len()),
        ensures
            final(self).selected == spec_next(old(self).selected, journal.spec_len()),
            final(self).wf(journal.spec_len()),
    {
        match self.selected {
            Some(idx) => {
                let size = journal.len();
                self.selected = Some(if idx + 1 < size { idx + 1 } else { size - 1 });
            },
            None => {
                if !journal.is_empty() {
                    self.selected = Some(0);
                }
            },
        }
    }

    /// Move the highlight one entry up the bean list, as `spec_prev` states.
    pub fn prev(&mut self, journal: &Journal)
        requires
            old(self).wf(journal.spec_len()),
        ensures
            final(self).selected == spec_prev(old(self).selected, journal.spec_len()),
            final(self).wf(journal.spec_len()),
    {
        match self.selected {
            Some(idx) => {
                self.selected = Some(if idx > 0 { idx - 1 } else { 0 });
            },
            None => {
                if !journal.is_empty() {
                    self.selected = Some(0);
                }
            },
        }
    }

    /// Highlight the first entry unconditionally; used right after the very
    /// first bean is inserted.
    pub fn select_first(&mut self)
        ensures
            final(self).selected == Some(0usize),
    {
        self.selected = Some(0);
    }
}

impl Default for BeansListState {
    /// No entry is highlighted at session start.
    fn default() -> (r: BeansListState)
        ensures
            r.selected is None,
    {
        BeansListState { selected: None }
    }
}

/// The whole interaction state: bean-list highlight, focused pane, and the
/// add-bean popup buffer (`None` while the popup is closed).
#[derive(Debug)]
pub struct AppState {
    pub beans_list_state: BeansListState,
    pub focused_window: Focus,
    pub add_beans_popup_text: Option<String>,
}

/// Relies on String::push: appends the given character to the end of the
/// string.
#[verifier::external_body]
fn push_char(s: &mut String, c: char)
    ensures
        final(s)@ == old(s)@.push(c),
{
    s.push(c);
}

/// Relies on String::pop: removes the last character of the string and
/// returns it, or returns None and changes nothing when the string is empty.
#[verifier::external_body]
fn pop_char(s: &mut String) -> (r: Option<char>)
    ensures
        old(s)@.len() == 0 ==> final(s)@ == old(s)@ && r is None,
        old(s)@.len() > 0 ==> final(s)@ == old(s)@.drop_last() && r == Some(old(s)@.last()),
{
    s.pop()
}

/// Whether the action ends the session: Quit pressed while the popup is
/// closed.
pub open spec fn quits(pre: AppState, action: KeyAction) -> bool {
    action is Quit && pre.popup_view() is None
}

/// The focused pane after the action: Left and Right move focus when a
/// neighbouring pane exists, whatever the popup state; nothing else moves
/// it.
pub open spec fn focus_after(f: Focus, action: KeyAction) -> Focus {
    match action {
        KeyAction::Left => match spec_left(f) {
            Some(g) => g,
            None => f,
        },
        KeyAction::Right => match spec_right(f) {
            Some(g) => g,
            None => f,
        },
        _ => f,
    }
}

/// Whether this action, in this state, inserts the popup buffer as a new
/// bean: Confirm while the popup is open on a non-empty text that is not a
/// bean yet.
pub open spec fn confirm_inserts(pre: AppState, j: Journal, action: KeyAction) -> bool {
    &&& action is Confirm
    &&& pre.popup_view() matches Some(buf)
    &&& buf.len() > 0
    &&& !j.has_label(buf)
}

/// The popup buffer after the action.
///
/// While the popup is open it captures typed input exclusively: `q` and `b`
/// land in the buffer as literal characters instead of acting as Quit and
/// AddBeans. AddBeans opens an empty buffer when the popup is closed.
/// Backspace drops the last character, Cancel discards the buffer, and
/// Confirm closes the popup exactly when the buffer names a new, non-empty
/// bean; a duplicate or empty name leaves it open unchanged.
pub open spec fn popup_after(pre: Option<Seq<char>>, j: Journal, action: KeyAction) -> Option<
    Seq<char>,
> {
    match action {
        KeyAction::Quit => match pre {
            Some(buf) => Some(buf.push('q')),
            None => None,
        },
        KeyAction::AddBeans => match pre {
            Some(buf) => Some(buf.push('b')),
            None => Some(Seq::<char>::empty()),
        },
        KeyAction::Type(c) => match pre {
            Some(buf) => Some(buf.push(c)),
            None => None,
        },
        KeyAction::Backspace => match pre {
            Some(buf) => Some(if buf.len() > 0 {
                buf.drop_last()
            } else {
                buf
            }),
            None => None,
        },
        KeyAction::Cancel => None,
        KeyAction::Confirm => match pre {
            Some(buf) => if buf.len() > 0 && !j.has_label(buf) {
                None
            } else {
                Some(buf)
            },
            None => None,
        },
        _ => pre,
    }
}

/// The bean-list highlight after the action: Up and Down navigate the list
/// when the bean list has focus; the very first successful insertion
/// highlights the new single entry; nothing else moves the highlight.
pub open spec fn selection_after(pre: AppState, j: Journal, action: KeyAction) -> Option<usize> {
    if action is Up && pre.focused_window is BeansList {
        spec_prev(pre.beans_list_state.selected, j.spec_len())
    } else if action is Down && pre.focused_window is BeansList {
        spec_next(pre.beans_list_state.selected, j.spec_len())
    } else if confirm_inserts(pre, j, action) && j.spec_len() == 0 {
        Some(0usize)
    } else {
        pre.beans_list_state.selected
    }
}

impl AppState {
    /// The popup buffer as a sequence of characters, `None` while the popup
    /// is closed.
    pub open spec fn popup_view(&self) -> Option<Seq<char>> {
        match self.add_beans_popup_text {
            None => None,
            Some(t) => Some(t@),
        }
    }

    /// The highlight stays inside a journal of `n` entries.
    pub open spec fn wf(&self, n: nat) -> bool {
        self.beans_list_state.wf(n)
    }

    /// The label of the highlighted bean, when one is highlighted and in
    /// range.
    pub fn get_selected_beans(&self, journal: &Journal) -> (r: Option<String>)
        ensures
            match self.beans_list_state.selected {
                Some(i) => {
                    &&& (i as nat) < journal.spec_len() ==> (r matches Some(s) && s@
                        == journal.labels()[i as int])
                    &&& (i as nat) >= journal.spec_len() ==> r is None
                },
                None => r is None,
            },
    {
        if let Some(idx) = self.beans_list_state.selected {
            if idx < journal.len() {
                Some(journal.label_at(idx))
            } else {
                None
            }
        } else {
            None
        }
    }

    /// Apply one semantic action to the interaction state and the journal.
    ///
    /// Returns whether the session ends, which only Quit with the popup
    /// closed does. Routing: while the popup is open, Quit and AddBeans are
    /// taken as the typed characters `q` and `b`; Left and Right always move
    /// focus; Up and Down navigate the bean list when it has focus; Type,
    /// Backspace, Cancel and Confirm drive the popup, and Confirm of a new
    /// non-empty name is the one way the journal grows.
    pub fn dispatch(&mut self, journal: &mut Journal, action: KeyAction) -> (quit: bool)
        requires
            old(journal).wf(),
            old(self).wf(old(journal).spec_len()),
        ensures
            final(journal).wf(),
            final(self).wf(final(journal).spec_len()),
            quit == quits(*old(self), action),
            final(self).focused_window == focus_after(old(self).focused_window, action),
            final(self).popup_view() == popup_after(
                old(self).popup_view(),
                *old(journal),
                action,
            ),
            final(self).beans_list_state.selected == selection_after(
                *old(self),
                *old(journal),
                action,
            ),
            confirm_inserts(*old(self), *old(journal), action) ==> {
                &&& final(journal).spec_len() == old(journal).spec_len() + 1
                &&& forall|i: int|
                    0 <= i < old(journal).spec_len() ==> final(journal).entries@[i] == old(
                        journal,
                    ).entries@[i]
                &&& old(self).popup_view() matches Some(buf) && final(journal).labels()[old(
                    journal,
                ).spec_len() as int] == buf
                &&& final(journal).entries@[old(journal).spec_len() as int].shots@.len() == 0
            },
            !confirm_inserts(*old(self), *old(journal), action) ==> *final(journal) == *old(
                journal,
            ),
    {
        match action {
            KeyAction::Quit => {
                match &mut self.add_beans_popup_text {
                    Some(text) => {
                        push_char(text, 'q');
                        false
                    },
                    None => true,
                }
            },
            KeyAction::AddBeans => {
                match &mut self.add_beans_popup_text {
                    Some(text) => {
                        push_char(text, 'b');
                    },
                    None => {
                        self.add_beans_popup_text = Some(String::new());
                    },
                }
                false
            },
            KeyAction::Left => {
                if let Some(pane) = self.focused_window.left() {
                    self.focused_window = pane;
                }
                false
            },
            KeyAction::Right => {
                if let Some(pane) = self.focused_window.right() {
                    self.focused_window = pane;
                }
                false
            },
            KeyAction::Up => {
                if let Focus::BeansList = self.focused_window {
                    self.beans_list_state.prev(journal);
                }
                false
            },
            KeyAction::Down => {
                if let Focus::BeansList = self.focused_window {
                    self.beans_list_state.next(journal);
                }
                false
            },
            KeyAction::Type(c) => {
                match &mut self.add_beans_popup_text {
                    Some(text) => {
                        push_char(text, c);
                    },
                    None => {},
                }
                false
            },
            KeyAction::Backspace => {
                match &mut self.add_beans_popup_text {
                    Some(text) => {
                        pop_char(text);
                    },
                    None => {},
                }
                false
            },
            KeyAction::Cancel => {
                self.add_beans_popup_text = None;
                false
            },
            KeyAction::Confirm => {
                let buf = match &self.add_beans_popup_text {
                    Some(text) => Some(text.clone()),
                    None => None,
                };
                if let Some(text) = buf {
                    if !text.as_str().is_empty() && !journal.has_bean(&text) {
                        let was_empty = journal.is_empty();
                        journal.insert(text, Vec::new());
                        self.add_beans_popup_text = None;
                        if was_empty {
                            self.beans_list_state.select_first();
                        }
                    }
                }
                false
            },
            KeyAction::Noop => false,
        }
    }
}

impl Default for AppState {
    /// Session start: nothing highlighted, the journal pane focused, the
    /// popup closed.
    fn default() -> (r: AppState)
        ensures
            r.beans_list_state.selected is None,
            r.focused_window == Focus::JournalPage,
            r.add_beans_popup_text is None,
    {
        AppState {
            beans_list_state: BeansListState { selected: None },
            focused_window: Focus::JournalPage,
            add_beans_popup_text: None,
        }
    }
}

} // verus!
