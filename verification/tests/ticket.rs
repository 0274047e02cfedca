use beep::commands::ticket::{
    Destination, OverwriteTarget, PermissionOverwrite, TicketAction, TicketEvent, TicketFlow, TicketRequest,
    TicketStage, READ_MESSAGES, SEND_TTS_MESSAGES, STREAM,
};
use beep::util::database_store::{DatabaseCollections, GuildConfigData, GuildConfigKey, StoreResult};
use beep::util::embed_store::TicketAuthor;

fn request() -> TicketRequest {
    TicketRequest { guild_id: 1, author_id: 2, title: "help".to_string(), description: "it broke".to_string() }
}

fn is_failure(a: &TicketAction) -> bool {
    matches!(a, TicketAction::ReportFailure(e) if e.title == "Error" && e.description == "Error creating a ticket for you!")
}

#[test]
fn ticket_happy_path() {
    let (mut flow, action) = TicketFlow::start(request());
    assert!(matches!(
        action,
        TicketAction::FetchModerationRole(DatabaseCollections::GuildConfig { id: 1, key: GuildConfigKey::ModerationRole })
    ));
    let a = flow.step(TicketEvent::ModerationRole(StoreResult::Guild(GuildConfigData::ModerationRole(30))));
    assert!(matches!(a, TicketAction::FetchTicketCategory { guild_id: 1 }));
    let a = flow.step(TicketEvent::TicketCategory(Some(40)));
    assert!(matches!(a, TicketAction::FindCategoryChannel { category: 40 }));
    let a = flow.step(TicketEvent::CategoryChannel(true));
    assert!(matches!(a, TicketAction::FindEveryoneRole));
    let a = flow.step(TicketEvent::EveryoneRole(50));
    match a {
        TicketAction::CreateChannel { name, topic, category, overwrites } => {
            assert_eq!((name.as_str(), topic.as_str(), category), ("help", "it broke", 40));
            assert_eq!(overwrites, vec![
                PermissionOverwrite { allow: READ_MESSAGES, deny: SEND_TTS_MESSAGES, kind: OverwriteTarget::Member(2) },
                PermissionOverwrite { allow: STREAM, deny: READ_MESSAGES, kind: OverwriteTarget::Role(50) },
                PermissionOverwrite { allow: READ_MESSAGES, deny: SEND_TTS_MESSAGES, kind: OverwriteTarget::Role(30) },
            ]);
            assert_eq!((READ_MESSAGES, SEND_TTS_MESSAGES, STREAM), (1024, 4096, 512));
        }
        _ => panic!("expected a channel"),
    }
    let a = flow.step(TicketEvent::Channel(Some(60)));
    match a {
        TicketAction::RecordTicket { guild_id, channel_id, author_id, title, description } => {
            assert_eq!((guild_id, channel_id, author_id, title.as_str(), description.as_str()), (1, 60, 2, "help", "it broke"));
        }
        _ => panic!("expected a record"),
    }
    let a = flow.step(TicketEvent::Recorded(true));
    assert!(matches!(a, TicketAction::FetchAuthor { author_id: 2 }));
    let a = flow.step(TicketEvent::Author(TicketAuthor { name: "ann".to_string(), avatar_url: None }));
    match a {
        TicketAction::Announce(messages) => {
            assert_eq!(messages.len(), 2);
            assert_eq!(messages[0].to, Destination::TicketChannel(60));
            let ticket = &messages[0].embed;
            assert_eq!(ticket.title, "help");
            assert_eq!(ticket.description, "it broke");
            assert_eq!(ticket.author.as_ref().unwrap().name, "ann");
            assert_eq!(messages[1].to, Destination::RequestChannel);
            assert_eq!(messages[1].embed.description, "Please go to <#60>");
        }
        _ => panic!("expected an announcement"),
    }
    assert_eq!(flow.stage, TicketStage::Finished);
    assert!(matches!(flow.step(TicketEvent::Recorded(true)), TicketAction::Ignore));
    assert_eq!(flow.stage, TicketStage::Finished);
}

fn flow_at(events: Vec<TicketEvent>) -> TicketFlow {
    let (mut flow, _) = TicketFlow::start(request());
    for e in events {
        flow.step(e);
    }
    flow
}

#[test]
fn ticket_fails_without_moderation_role() {
    for answer in [StoreResult::Nothing, StoreResult::Guild(GuildConfigData::DefaultRole(3))] {
        let (mut flow, _) = TicketFlow::start(request());
        assert!(is_failure(&flow.step(TicketEvent::ModerationRole(answer))));
        assert_eq!(flow.stage, TicketStage::Failed);
        assert!(matches!(flow.step(TicketEvent::TicketCategory(Some(1))), TicketAction::Ignore));
        assert_eq!(flow.stage, TicketStage::Failed);
    }
}

#[test]
fn ticket_fails_at_each_later_step() {
    let role = || TicketEvent::ModerationRole(StoreResult::Guild(GuildConfigData::ModerationRole(30)));
    let mut flow = flow_at(vec![role()]);
    assert!(is_failure(&flow.step(TicketEvent::TicketCategory(None))));
    let mut flow = flow_at(vec![role(), TicketEvent::TicketCategory(Some(4))]);
    assert!(is_failure(&flow.step(TicketEvent::CategoryChannel(false))));
    let mut flow = flow_at(vec![role(), TicketEvent::TicketCategory(Some(4)), TicketEvent::CategoryChannel(true), TicketEvent::EveryoneRole(5)]);
    assert!(is_failure(&flow.step(TicketEvent::Channel(None))));
    let mut flow = flow_at(vec![role(), TicketEvent::TicketCategory(Some(4)), TicketEvent::CategoryChannel(true), TicketEvent::EveryoneRole(5), TicketEvent::Channel(Some(6))]);
    assert!(is_failure(&flow.step(TicketEvent::Recorded(false))));
    assert_eq!(flow.stage, TicketStage::Failed);
}

#[test]
fn ticket_ignores_events_out_of_turn() {
    let (mut flow, _) = TicketFlow::start(request());
    assert!(matches!(flow.step(TicketEvent::Recorded(true)), TicketAction::Ignore));
    assert_eq!(flow.stage, TicketStage::ModerationRole);
}
