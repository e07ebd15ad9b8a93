//! The RPC client, message dispatch and the view controller, observed
//! through the transport channel's receiving end.

use std::sync::mpsc::{channel, Receiver};
use xi_win::edit_view::{
    EditView, EditViewCommands, M_ALT, M_CTRL, M_SHIFT, VK_BACK, VK_DELETE, VK_DOWN, VK_END,
    VK_ESCAPE, VK_HOME, VK_LEFT, VK_NEXT, VK_OEM_4, VK_OEM_6, VK_PRIOR, VK_RETURN, VK_RIGHT,
    VK_TAB, VK_UP,
};
use xi_win::graph::Graph;
use xi_win::menus::{plan_save, save_needs_dialog, view_command_for_entry, MenuEntries};
use xi_win::json::{classify_message, dispatch_message, view_id_from_result, Dispatch,
    MessageFromCore, NotificationRoute, route_notification};
use xi_win::rpc::{Core, PendingRequest};
use xi_win::transport::XiPeer;

fn core_with_rx() -> (Core, Receiver<String>) {
    let (tx, rx) = channel();
    let peer = XiPeer::new(tx);
    (Core::new(peer), rx)
}

fn drain(rx: &Receiver<String>) -> Vec<String> {
    let mut out = Vec::new();
    while let Ok(msg) = rx.try_recv() {
        out.push(msg);
    }
    out
}

#[test]
fn request_and_response_resolve_exactly_once() {
    let (mut core, rx) = core_with_rx();
    let id = core.send_request("new_view", "{}", PendingRequest::NewView { filename: None });
    assert_eq!(id, 0);
    let sent = drain(&rx);
    assert_eq!(sent, vec!["{\"method\":\"new_view\",\"params\":{},\"id\":0}".to_string()]);

    let response: serde_json::Value =
        serde_json::from_str(&format!("{{\"id\":{},\"result\":\"view-id-1\"}}", id)).unwrap();
    match dispatch_message(&mut core, &response) {
        Dispatch::Resolved { id: rid, completion, result } => {
            assert_eq!(rid, id);
            assert!(matches!(completion, PendingRequest::NewView { filename: None }));
            assert_eq!(view_id_from_result(&result).unwrap(), "view-id-1");
        }
        _ => panic!("expected the response to resolve the pending request"),
    }
    // A second delivery of the same response finds no pending entry.
    assert!(matches!(dispatch_message(&mut core, &response), Dispatch::Ignored));
}

#[test]
fn correlation_ids_increase() {
    let (mut core, _rx) = core_with_rx();
    let a = core.send_request("new_view", "{}", PendingRequest::NewView { filename: None });
    let b = core.send_request(
        "new_view",
        "{\"file_path\":\"x\"}",
        PendingRequest::NewView { filename: Some("x".to_string()) },
    );
    assert_eq!(a, 0);
    assert_eq!(b, 1);
}

#[test]
fn stale_response_is_ignored() {
    let (mut core, _rx) = core_with_rx();
    let response: serde_json::Value =
        serde_json::from_str("{\"id\":7,\"result\":null}").unwrap();
    assert!(matches!(dispatch_message(&mut core, &response), Dispatch::Ignored));
}

#[test]
fn classify_distinguishes_message_shapes() {
    let resp: serde_json::Value = serde_json::from_str("{\"id\":3,\"result\":1}").unwrap();
    assert!(matches!(classify_message(&resp), MessageFromCore::Response { id: 3, .. }));
    let notif: serde_json::Value =
        serde_json::from_str("{\"method\":\"scroll_to\",\"params\":{\"line\":2}}").unwrap();
    match classify_message(&notif) {
        MessageFromCore::Notification { method, .. } => assert_eq!(method, "scroll_to"),
        _ => panic!("expected a notification"),
    }
    let junk: serde_json::Value = serde_json::from_str("{\"x\":1}").unwrap();
    assert!(matches!(classify_message(&junk), MessageFromCore::Malformed));
}

#[test]
fn routing_by_method() {
    let params: serde_json::Value = serde_json::from_str("{\"line\":2}").unwrap();
    assert!(matches!(
        route_notification("scroll_to", &params),
        NotificationRoute::Command(EditViewCommands::ScrollTo(2))
    ));
    assert!(matches!(route_notification("available_themes", &params), NotificationRoute::Ignored));
    assert!(matches!(route_notification("set_style", &params), NotificationRoute::Unknown));
    assert!(matches!(route_notification("update", &params), NotificationRoute::Malformed));
}

#[test]
fn update_notification_flows_into_the_cache() {
    let (mut core, _rx) = core_with_rx();
    let mut view = EditView::new();
    let msg: serde_json::Value = serde_json::from_str(
        "{\"method\":\"update\",\"params\":{\"update\":{\"ops\":[\
         {\"op\":\"ins\",\"lines\":[{\"text\":\"hi\",\"cursor\":[1]}]}]}}}",
    )
    .unwrap();
    match dispatch_message(&mut core, &msg) {
        Dispatch::ViewCommand(cmd) => {
            assert!(view.poke(&mut core, cmd));
        }
        _ => panic!("expected a view command"),
    }
    assert_eq!(view.line_cache().height(), 1);
    assert_eq!(view.line_cache().get_line(0).unwrap().text(), "hi");
}

#[test]
fn viewport_recompute_sends_scroll_once() {
    let (mut core, rx) = core_with_rx();
    let mut view = EditView::new();
    view.size(300, 100);
    view.update_viewport(&mut core);
    view.update_viewport(&mut core);
    let sent = drain(&rx);
    assert_eq!(sent.len(), 1);
    assert_eq!(sent[0], "{\"method\":\"scroll\",\"params\":[0,6]}");
}

#[test]
fn wheel_scroll_is_clamped_to_range() {
    let (mut core, rx) = core_with_rx();
    let mut view = EditView::new();

    // Empty cache: max scroll is the top pad alone.
    view.mouse_wheel(&mut core, 1000, 0);
    assert_eq!(view.scroll_offset(), 0);
    view.mouse_wheel(&mut core, -1000, 0);
    assert_eq!(view.scroll_offset(), 6);

    // Three lines: max scroll grows to TOP_PAD + 2 * LINE_SPACE.
    let update: serde_json::Value = serde_json::from_str(
        "{\"ops\":[{\"op\":\"ins\",\"lines\":[{\"text\":\"a\"},{\"text\":\"b\"},{\"text\":\"c\"}]}]}",
    )
    .unwrap();
    view.poke(
        &mut core,
        EditViewCommands::ApplyUpdate(xi_win::linecache::Update::from_json(&update).unwrap()),
    );
    view.mouse_wheel(&mut core, -10000, 0);
    assert_eq!(view.scroll_offset(), 40);
    view.mouse_wheel(&mut core, 50, 0);
    assert_eq!(view.scroll_offset(), 15);
    view.mouse_wheel(&mut core, 100, 0);
    assert_eq!(view.scroll_offset(), 0);
    drop(drain(&rx));
}

#[test]
fn scroll_to_pulls_line_into_view() {
    let (_core, _rx) = core_with_rx();
    let mut view = EditView::new();
    view.size(300, 100);
    // Line 50 sits far below: scroll down to it, keeping the slop visible.
    view.scroll_to(50);
    assert_eq!(view.scroll_offset(), 6 + 17 * 50 + 20 - 100);
    // Line 0 sits above now: scroll straight to its top.
    view.scroll_to(0);
    assert_eq!(view.scroll_offset(), 6);
}

#[test]
fn keydown_sends_the_mapped_command() {
    let (mut core, rx) = core_with_rx();
    let mut view = EditView::new();
    assert!(view.poke(&mut core, EditViewCommands::ViewId("view-id-1".to_string())));
    assert!(view.keydown(&mut core, VK_RETURN, 0));
    let sent = drain(&rx);
    assert_eq!(
        sent,
        vec![
            "{\"method\":\"edit\",\"params\":{\"method\":\"insert_newline\",\"params\":[],\
             \"view_id\":\"view-id-1\"}}"
                .to_string()
        ]
    );
}

#[test]
fn keydown_shift_selects_the_modifying_variant() {
    let (mut core, rx) = core_with_rx();
    let mut view = EditView::new();
    assert!(view.keydown(&mut core, VK_UP, M_SHIFT));
    let sent = drain(&rx);
    assert!(sent[0].contains("move_up_and_modify_selection"));
}

#[test]
fn keydown_ctrl_up_scrolls_instead_of_sending_an_edit() {
    let (mut core, rx) = core_with_rx();
    let mut view = EditView::new();
    view.mouse_wheel(&mut core, -1000, 0);
    assert_eq!(view.scroll_offset(), 6);
    drop(drain(&rx));
    assert!(view.keydown(&mut core, VK_UP, M_CTRL));
    assert_eq!(view.scroll_offset(), 0);
    for msg in drain(&rx) {
        assert!(!msg.contains("\"edit\""));
    }
}

#[test]
fn keydown_command_table_matches_the_protocol() {
    let cases: Vec<(i32, u32, &str)> = vec![
        (VK_TAB, 0, "insert_tab"),
        (VK_UP, 0, "move_up"),
        (VK_UP, M_SHIFT, "move_up_and_modify_selection"),
        (VK_UP, M_CTRL | M_ALT, "add_selection_above"),
        (VK_DOWN, 0, "move_down"),
        (VK_DOWN, M_CTRL | M_ALT, "add_selection_below"),
        (VK_LEFT, 0, "move_left"),
        (VK_LEFT, M_CTRL, "move_word_left"),
        (VK_LEFT, M_CTRL | M_SHIFT, "move_word_left_and_modify_selection"),
        (VK_RIGHT, M_SHIFT, "move_right_and_modify_selection"),
        (VK_RIGHT, M_ALT, "move_word_right"),
        (VK_PRIOR, 0, "scroll_page_up"),
        (VK_PRIOR, M_SHIFT, "page_up_and_modify_selection"),
        (VK_NEXT, 0, "scroll_page_down"),
        (VK_NEXT, M_SHIFT, "page_down_and_modify_selection"),
        (VK_HOME, 0, "move_to_left_end_of_line"),
        (VK_HOME, M_CTRL, "move_to_beginning_of_document"),
        (VK_HOME, M_SHIFT, "move_to_left_end_of_line_and_modify_selection"),
        (VK_END, 0, "move_to_right_end_of_line"),
        (VK_END, M_CTRL | M_SHIFT, "move_to_end_of_document_and_modify_selection"),
        (VK_ESCAPE, 0, "cancel_operation"),
        (VK_BACK, 0, "delete_backward"),
        (VK_BACK, M_CTRL, "delete_word_backward"),
        (VK_BACK, M_CTRL | M_SHIFT, "delete_to_beginning_of_line"),
        (VK_DELETE, 0, "delete_forward"),
        (VK_DELETE, M_CTRL, "delete_word_forward"),
        (VK_DELETE, M_CTRL | M_SHIFT, "delete_to_end_of_paragraph"),
        (VK_OEM_4, M_CTRL, "outdent"),
        (VK_OEM_6, M_CTRL, "indent"),
    ];
    for (vk, mods, command) in cases {
        let (mut core, rx) = core_with_rx();
        let mut view = EditView::new();
        assert!(view.poke(&mut core, EditViewCommands::ViewId("v".to_string())));
        assert!(view.keydown(&mut core, vk, mods), "key {:#x} mods {} unhandled", vk, mods);
        let sent = drain(&rx);
        let expected = format!(
            "{{\"method\":\"edit\",\"params\":{{\"method\":\"{}\",\"params\":[],\"view_id\":\"v\"}}}}",
            command
        );
        assert_eq!(sent, vec![expected]);
    }
    // The bracket keys only act with Control held.
    let (mut core, rx) = core_with_rx();
    let mut view = EditView::new();
    assert!(!view.keydown(&mut core, VK_OEM_4, 0));
    assert!(!view.keydown(&mut core, VK_OEM_6, M_SHIFT));
    assert!(drain(&rx).is_empty());
}

#[test]
fn unknown_key_is_not_handled() {
    let (mut core, rx) = core_with_rx();
    let mut view = EditView::new();
    assert!(!view.keydown(&mut core, 0x70, 0));
    assert!(drain(&rx).is_empty());
}

#[test]
fn char_inserts_printable_and_drops_controls() {
    let (mut core, rx) = core_with_rx();
    let mut view = EditView::new();
    assert!(view.poke(&mut core, EditViewCommands::ViewId("v".to_string())));
    view.char(&mut core, 'x' as u32, 0);
    view.char(&mut core, 0x08, 0);
    let sent = drain(&rx);
    assert_eq!(
        sent,
        vec![
            "{\"method\":\"edit\",\"params\":{\"method\":\"insert\",\"params\":\
             {\"chars\":\"x\"},\"view_id\":\"v\"}}"
                .to_string()
        ]
    );
}

#[test]
fn poke_actions_send_their_commands() {
    let (mut core, rx) = core_with_rx();
    let mut view = EditView::new();
    assert!(view.poke(&mut core, EditViewCommands::Undo));
    assert!(view.poke(&mut core, EditViewCommands::SelectAll));
    let sent = drain(&rx);
    assert_eq!(sent.len(), 2);
    assert!(sent[0].contains("\"undo\""));
    assert!(sent[1].contains("\"select_all\""));
}

#[test]
fn point_select_sends_a_gesture() {
    let (mut core, rx) = core_with_rx();
    let mut view = EditView::new();
    assert!(view.poke(&mut core, EditViewCommands::ViewId("v".to_string())));
    view.point_select(&mut core, 3, 9);
    let sent = drain(&rx);
    assert_eq!(
        sent,
        vec![
            "{\"method\":\"edit\",\"params\":{\"method\":\"gesture\",\"params\":\
             {\"ty\":\"point_select\",\"line\":3,\"col\":9},\"view_id\":\"v\"}}"
                .to_string()
        ]
    );
}

#[test]
fn menu_entries_map_to_view_commands() {
    assert!(matches!(
        view_command_for_entry(&MenuEntries::Undo),
        Some(EditViewCommands::Undo)
    ));
    assert!(matches!(
        view_command_for_entry(&MenuEntries::AddCursorBelow),
        Some(EditViewCommands::AddCursorBelow)
    ));
    assert!(view_command_for_entry(&MenuEntries::Exit).is_none());
    assert!(view_command_for_entry(&MenuEntries::Open).is_none());
    assert!(view_command_for_entry(&MenuEntries::Paste).is_none());
}

#[test]
fn save_asks_only_without_a_remembered_name() {
    assert!(save_needs_dialog(&MenuEntries::Save, &None));
    assert!(!save_needs_dialog(&MenuEntries::Save, &Some("a.txt".to_string())));
    assert!(save_needs_dialog(&MenuEntries::SaveAs, &Some("a.txt".to_string())));
    assert!(!save_needs_dialog(&MenuEntries::Undo, &None));
}

#[test]
fn save_writes_to_the_remembered_name() {
    let plan = plan_save(&MenuEntries::Save, Some("a.txt".to_string()), None);
    assert_eq!(plan.target, Some("a.txt".to_string()));
    assert_eq!(plan.remembered, Some("a.txt".to_string()));
}

#[test]
fn first_save_remembers_the_dialog_answer() {
    let plan = plan_save(&MenuEntries::Save, None, Some("b.txt".to_string()));
    assert_eq!(plan.target, Some("b.txt".to_string()));
    assert_eq!(plan.remembered, Some("b.txt".to_string()));
}

#[test]
fn canceled_save_dialog_writes_and_forgets_nothing() {
    let plan = plan_save(&MenuEntries::Save, None, None);
    assert_eq!(plan.target, None);
    assert_eq!(plan.remembered, None);
}

#[test]
fn save_as_replaces_the_remembered_name() {
    let plan = plan_save(
        &MenuEntries::SaveAs,
        Some("a.txt".to_string()),
        Some("c.txt".to_string()),
    );
    assert_eq!(plan.target, Some("c.txt".to_string()));
    assert_eq!(plan.remembered, Some("c.txt".to_string()));
}

#[test]
fn canceled_save_as_keeps_the_remembered_name() {
    let plan = plan_save(&MenuEntries::SaveAs, Some("a.txt".to_string()), None);
    assert_eq!(plan.target, None);
    assert_eq!(plan.remembered, Some("a.txt".to_string()));
}

#[test]
fn graph_allocates_appends_and_removes() {
    let mut graph = Graph::default();
    let a = graph.alloc_node();
    let b = graph.alloc_node();
    let c = graph.alloc_node();
    assert_eq!((a, b, c), (0, 1, 2));
    graph.append_child(a, b);
    graph.append_child(a, c);
    assert_eq!(graph.children[a], vec![b, c]);
    assert_eq!(graph.parent[b], a);
    graph.remove_child(a, b);
    assert_eq!(graph.children[a], vec![c]);
    assert_eq!(graph.parent[b], b);
}
