use espresso_journal::app::{AppState, BeansListState, Focus};
use espresso_journal::chat::{Message, RequestData, Role};
use espresso_journal::espresso::{Shot, ShotError};
use espresso_journal::journal::Journal;

#[test]
fn new_journal_is_empty() {
    let journal = Journal::new();
    assert_eq!(journal.len(), 0);
    assert!(journal.is_empty());
    assert!(journal.bean_labels().is_empty());
}

#[test]
fn insert_keeps_order_and_lookup() {
    let mut journal = Journal::new();
    journal.insert("Kenya".to_string(), Vec::new());
    journal.insert("Brazil".to_string(), Vec::new());
    journal.insert("Yirgacheffe".to_string(), Vec::new());
    assert_eq!(journal.len(), 3);
    assert!(!journal.is_empty());
    assert!(journal.has_bean(&"Kenya".to_string()));
    assert!(journal.has_bean(&"Brazil".to_string()));
    assert!(!journal.has_bean(&"Colombia".to_string()));
    assert_eq!(journal.label_at(0), "Kenya");
    assert_eq!(journal.label_at(1), "Brazil");
    assert_eq!(journal.label_at(2), "Yirgacheffe");
    assert_eq!(journal.bean_labels(), vec!["Kenya", "Brazil", "Yirgacheffe"]);
}

#[test]
fn insert_carries_the_shots() {
    let shot = Shot {
        in_weight: 180,
        out_weight: 360,
        grind: "2.5".to_string(),
        temperature: 930,
        time: 28_000,
        notes: "bright, a touch sour".to_string(),
        date: 1_700_000_000,
    };
    let mut journal = Journal::new();
    journal.insert("Kenya".to_string(), vec![shot]);
    assert_eq!(journal.len(), 1);
    assert!(journal.has_bean(&"Kenya".to_string()));
}

#[test]
fn get_selected_beans_follows_the_highlight() {
    let mut journal = Journal::new();
    journal.insert("A".to_string(), Vec::new());
    journal.insert("B".to_string(), Vec::new());
    let mut state = AppState::default();
    assert_eq!(state.get_selected_beans(&journal), None);
    state.beans_list_state = BeansListState { selected: Some(1) };
    assert_eq!(state.get_selected_beans(&journal), Some("B".to_string()));
    state.beans_list_state = BeansListState { selected: Some(5) };
    assert_eq!(state.get_selected_beans(&journal), None);
}

#[test]
fn shot_error_messages() {
    assert_eq!(ShotError::Weight.message(), "The weight you chose is not valid!");
    assert_eq!(ShotError::Temperature.message(), "The temperature is invalid!");
    assert_eq!(ShotError::Grind.message(), "Error registering grind setting");
    assert_eq!(ShotError::Time.message(), "The time is invalid!");
}

#[test]
fn default_state_is_the_session_start() {
    let state = AppState::default();
    assert_eq!(state.beans_list_state.selected, None);
    assert_eq!(state.focused_window, Focus::JournalPage);
    assert_eq!(state.add_beans_popup_text, None);
    assert_eq!(Focus::default(), Focus::JournalPage);
    assert_eq!(BeansListState::default().selected, None);
}

#[test]
fn chat_message_builders() {
    let user = Message::user("hello".to_string());
    assert_eq!(user.role, Role::User);
    assert_eq!(user.content, "hello");
    let assistant = Message::assistant("hi".to_string());
    assert_eq!(assistant.role, Role::Assistant);
    assert_eq!(assistant.content, "hi");
    let request = RequestData::turbo(vec![user, assistant]);
    assert_eq!(request.model, "gpt-3.5-turbo");
    assert_eq!(request.messages.len(), 2);
}
