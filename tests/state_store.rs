use bolt_bridge::dispatch::Request;
use bolt_bridge::method::Method;
use bolt_bridge::state::{Collection, Page, StateStore, WorkspaceSnapshot};

fn request(url: &str, index: usize) -> Request {
    Request {
        url: url.to_string(),
        method: Method::GET,
        body: String::new(),
        headers: vec![vec![String::new(), String::new()]],
        params: vec![vec![String::new(), String::new()]],
        index,
    }
}

fn workspace(page: Page, name: &str, current: usize) -> WorkspaceSnapshot {
    WorkspaceSnapshot {
        page,
        main_current: current,
        col_current: vec![0, current],
        main_col: Collection {
            name: "main".to_string(),
            requests: vec![request("http://a", 0), request("http://b", 1)],
            collapsed: false,
        },
        collections: vec![Collection {
            name: name.to_string(),
            requests: vec![request("http://c", 2)],
            collapsed: true,
        }],
    }
}

#[test]
fn restore_of_saved_workspace_round_trips() {
    let source = StateStore::new(workspace(Page::Collections, "api", 1));
    let saved = source.save_state().clone();
    let mut target = StateStore::new(workspace(Page::Home, "other", 0));
    assert!(target.set_save_state(Some(saved)));
    assert_eq!(target.workspace, workspace(Page::Collections, "api", 1));
    assert_eq!(&target.workspace, source.save_state());
    assert!(target.update_pending);
}

#[test]
fn failed_restore_leaves_workspace_unchanged() {
    let mut store = StateStore::new(workspace(Page::Home, "keep", 0));
    assert!(!store.set_save_state(None));
    assert_eq!(store.workspace, workspace(Page::Home, "keep", 0));
    assert!(!store.update_pending);
}

#[test]
fn update_notification_is_taken_once() {
    let mut store = StateStore::new(workspace(Page::Home, "x", 0));
    assert!(!store.take_update());
    store.set_save_state(Some(workspace(Page::Collections, "y", 1)));
    assert!(store.take_update());
    assert!(!store.take_update());
    assert_eq!(store.workspace, workspace(Page::Collections, "y", 1));
}
