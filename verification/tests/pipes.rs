use jeliya_ui::api::{Link, LinkReason, PipeListOut, PipeRow, Target, Timestamp, Truncated};
use jeliya_ui::files::errors::{FlowFailure, FlowStop, Settled};
use jeliya_ui::pipes::connect::{
    connect_settled, mutation_settled, publish_settled, ConnectDone, PipeConnectOut, PublishDone,
};
use jeliya_ui::pipes::list::{PipeListModel, PipeRowView};

fn row(connected: bool, link: Link) -> PipeRow {
    PipeRow {
        pipe_id: "blake3:pipe".to_string(),
        published_by: "blake3:owner".to_string(),
        device_id: "blake3:device".to_string(),
        published_at: Timestamp::unix_epoch(),
        link,
        connected,
    }
}

#[test]
fn link_and_connected_are_independent_facts() {
    let open = PipeRowView::from_row(row(
        false,
        Link::Direct {
            since: Timestamp::unix_epoch(),
        },
    ));
    assert!(!open.connected);
    assert!(open.publisher_reachable());

    let connected_but_link_down = PipeRowView::from_row(row(
        true,
        Link::NotConnected {
            reason: LinkReason::Closed,
        },
    ));
    assert!(connected_but_link_down.connected);
    assert!(!connected_but_link_down.publisher_reachable());
}

#[test]
fn is_own_is_never_guessed() {
    let view = PipeRowView::from_row(row(
        false,
        Link::NotConnected {
            reason: LinkReason::NeverDialed,
        },
    ));
    assert!(!view.is_own(None), "unknown local subject is never own");
    assert!(view.is_own(Some(&"blake3:owner".to_string())));
    assert!(!view.is_own(Some(&"blake3:other".to_string())));
}

#[test]
fn pipe_list_model_builds_and_looks_up_by_id() {
    let pipe_id = "blake3:pipe".to_string();
    let model = PipeListModel::from_out(PipeListOut {
        room_id: "r".to_string(),
        pipes: vec![row(
            false,
            Link::NotConnected {
                reason: LinkReason::NeverDialed,
            },
        )],
        truncated: Truncated::Complete,
    });
    assert_eq!(model.rows.len(), 1);
    assert!(model.row(&pipe_id).is_some(), "row lookup finds by pipe_id");
    assert!(
        model.row(&"blake3:other".to_string()).is_none(),
        "unknown id returns None"
    );
    assert_eq!(model.truncated, Truncated::Complete);
}

#[test]
fn relay_linked_publisher_is_reachable() {
    let relay = PipeRowView::from_row(row(
        false,
        Link::Relay {
            since: Timestamp::unix_epoch(),
        },
    ));
    assert!(relay.publisher_reachable());
}

#[test]
fn pipe_mutations_settle_with_their_reply_or_their_typed_stop() {
    let local = Target { host: "127.0.0.1".to_string(), port: 40001 };
    let done = connect_settled(Ok(PipeConnectOut { connection_id: "c-1".to_string(), local: local.clone() }));
    assert_eq!(done, Settled::Succeeded(ConnectDone { connection_id: "c-1".to_string(), local }));
    assert_eq!(
        connect_settled(Err(FlowStop::Failed(FlowFailure::PipeUnreachable))),
        Settled::Failed(FlowFailure::PipeUnreachable)
    );
    assert_eq!(mutation_settled(Ok(())), Settled::Succeeded(()));
    assert_eq!(mutation_settled(Err(FlowStop::Cancelled)), Settled::Cancelled);
    assert_eq!(
        publish_settled(Ok("p-9".to_string())),
        Settled::Succeeded(PublishDone { pipe_id: "p-9".to_string() })
    );
    assert_eq!(
        publish_settled(Err(FlowStop::Failed(FlowFailure::PolicyRefused))),
        Settled::Failed(FlowFailure::PolicyRefused)
    );
}
