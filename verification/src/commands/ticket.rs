//! The `ticket create` command as a sequence of steps: each step decides,
//! from what the previous outside action came back with, what to do next.

use vstd::prelude::*;

use crate::util::database_store::{DatabaseCollections, GuildConfigData, GuildConfigKey, StoreResult};
use crate::util::embed_store::{
    is_description_embed, is_failure_embed, is_success_embed, Embed, EmbedStore, TicketAuthor,
    TicketEmbed,
};

verus! {

/// The permission bit `STREAM`.
pub const STREAM: u64 = 512;

/// The permission bit `READ_MESSAGES`.
pub const READ_MESSAGES: u64 = 1024;

/// The permission bit `SEND_TTS_MESSAGES`.
pub const SEND_TTS_MESSAGES: u64 = 4096;

/// Whom a permission overwrite applies to.
#[derive(Debug, Clone, Copy, PartialEq, Eq, Structural)]
pub enum OverwriteTarget {
    Member(u64),
    Role(u64),
}

/// Permissions granted (`allow`) and withheld (`deny`) in a channel.
#[derive(Debug, Clone, Copy, PartialEq, Eq, Structural)]
pub struct PermissionOverwrite {
    pub allow: u64,
    pub deny: u64,
    pub kind: OverwriteTarget,
}

/// A ticket that a user asked for in a guild.
#[derive(Debug, Clone)]
pub struct TicketRequest {
    pub guild_id: u64,
    pub author_id: u64,
    pub title: String,
    pub description: String,
}

/// How far the creation of a ticket got.
#[derive(Debug, Clone, Copy, PartialEq, Eq, Structural)]
pub enum TicketStage {
    /// Waits for the guild's moderation role.
    ModerationRole,
    /// Waits for the guild's ticket category.
    TicketCategory { moderation_role: u64 },
    /// Waits to learn whether the category is a channel of the guild.
    CategoryChannel { moderation_role: u64, category: u64 },
    /// Waits for the id of the guild's `@everyone` role.
    EveryoneRole { moderation_role: u64, category: u64 },
    /// Waits for the ticket channel to be created.
    Channel,
    /// Waits for the ticket in the channel `channel` to be recorded.
    Record { channel: u64 },
    /// Waits for the author's profile, to open the channel `channel`.
    Author { channel: u64 },
    /// The ticket exists and was announced.
    Finished,
    /// The ticket could not be created.
    Failed,
}

/// What an outside action came back with.
#[derive(Debug, Clone)]
pub enum TicketEvent {
    /// The store's answer about the guild's moderation role.
    ModerationRole(StoreResult),
    /// The guild's ticket category, if one is configured.
    TicketCategory(Option<u64>),
    /// Whether the category is a channel of the guild.
    CategoryChannel(bool),
    /// The id of the guild's `@everyone` role.
    EveryoneRole(u64),
    /// The id of the created channel, or `None` where creating it failed.
    Channel(Option<u64>),
    /// Whether the ticket was recorded.
    Recorded(bool),
    /// The author's profile.
    Author(TicketAuthor),
}

/// Where an embed of the ticket system goes.
#[derive(Debug, Clone, Copy, PartialEq, Eq, Structural)]
pub enum Destination {
    /// The ticket channel with this id.
    TicketChannel(u64),
    /// The channel where the ticket was asked for.
    RequestChannel,
}

/// An embed to send, and where.
#[derive(Debug, Clone)]
pub struct Outgoing {
    pub to: Destination,
    pub embed: Embed,
}

/// What to do next.
#[derive(Debug, Clone)]
pub enum TicketAction {
    /// Ask the store this question (the guild's moderation role).
    FetchModerationRole(DatabaseCollections),
    /// Read the guild's ticket category.
    FetchTicketCategory { guild_id: u64 },
    /// Look for the category among the guild's channels.
    FindCategoryChannel { category: u64 },
    /// Look up the guild's `@everyone` role.
    FindEveryoneRole,
    /// Create a text channel.
    CreateChannel { name: String, topic: String, category: u64, overwrites: Vec<PermissionOverwrite> },
    /// Record the ticket.
    RecordTicket {
        guild_id: u64,
        channel_id: u64,
        author_id: u64,
        title: String,
        description: String,
    },
    /// Fetch the author's profile.
    FetchAuthor { author_id: u64 },
    /// Send these embeds, in this order.
    Announce(Vec<Outgoing>),
    /// Send this embed where the ticket was asked for.
    ReportFailure(Embed),
    /// Nothing: the event does not belong to this stage.
    Ignore,
}

/// The creation of one ticket.
#[derive(Debug, Clone)]
pub struct TicketFlow {
    pub request: TicketRequest,
    pub stage: TicketStage,
}

/// The overwrites of a ticket channel, in this order: its author may read
/// and not use text-to-speech, everyone else may stream but not read, the
/// moderators may read and not use text-to-speech.
pub open spec fn ticket_overwrites(author: u64, everyone: u64, moderation_role: u64) -> Seq<
    PermissionOverwrite,
> {
    seq![
        PermissionOverwrite { allow: READ_MESSAGES, deny: SEND_TTS_MESSAGES, kind: OverwriteTarget::Member(author) },
        PermissionOverwrite { allow: STREAM, deny: READ_MESSAGES, kind: OverwriteTarget::Role(everyone) },
        PermissionOverwrite { allow: READ_MESSAGES, deny: SEND_TTS_MESSAGES, kind: OverwriteTarget::Role(moderation_role) },
    ]
}

/// The stage that `event` leads to from `stage`. An event that fails the
/// creation leads to `Failed`; an event that does not belong to the stage
/// leaves it as it is.
pub open spec fn next_stage(stage: TicketStage, event: TicketEvent) -> TicketStage {
    match (stage, event) {
        (TicketStage::ModerationRole, TicketEvent::ModerationRole(answer)) => match answer {
            StoreResult::Guild(GuildConfigData::ModerationRole(role)) => TicketStage::TicketCategory {
                moderation_role: role,
            },
            _ => TicketStage::Failed,
        },
        (TicketStage::TicketCategory { moderation_role }, TicketEvent::TicketCategory(found)) => match found {
            Some(category) => TicketStage::CategoryChannel { moderation_role, category },
            None => TicketStage::Failed,
        },
        (
            TicketStage::CategoryChannel { moderation_role, category },
            TicketEvent::CategoryChannel(exists),
        ) => if exists {
            TicketStage::EveryoneRole { moderation_role, category }
        } else {
            TicketStage::Failed
        },
        (TicketStage::EveryoneRole { .. }, TicketEvent::EveryoneRole(_)) => TicketStage::Channel,
        (TicketStage::Channel, TicketEvent::Channel(created)) => match created {
            Some(channel) => TicketStage::Record { channel },
            None => TicketStage::Failed,
        },
        (TicketStage::Record { channel }, TicketEvent::Recorded(recorded)) => if recorded {
            TicketStage::Author { channel }
        } else {
            TicketStage::Failed
        },
        (TicketStage::Author { .. }, TicketEvent::Author(_)) => TicketStage::Finished,
        _ => stage,
    }
}

/// Whether `event` belongs to `stage`.
pub open spec fn event_fits(stage: TicketStage, event: TicketEvent) -> bool {
    match (stage, event) {
        (TicketStage::ModerationRole, TicketEvent::ModerationRole(_)) => true,
        (TicketStage::TicketCategory { .. }, TicketEvent::TicketCategory(_)) => true,
        (TicketStage::CategoryChannel { .. }, TicketEvent::CategoryChannel(_)) => true,
        (TicketStage::EveryoneRole { .. }, TicketEvent::EveryoneRole(_)) => true,
        (TicketStage::Channel, TicketEvent::Channel(_)) => true,
        (TicketStage::Record { .. }, TicketEvent::Recorded(_)) => true,
        (TicketStage::Author { .. }, TicketEvent::Author(_)) => true,
        _ => false,
    }
}

/// Whether `action` is what `event` calls for from `stage`, for the ticket
/// `request`: the next outside action while all goes well, the failure
/// embed where the event fails the creation, nothing for an event that
/// does not belong to the stage.
pub open spec fn action_fits(
    request: TicketRequest,
    stage: TicketStage,
    event: TicketEvent,
    action: TicketAction,
) -> bool {
    if !event_fits(stage, event) {
        action is Ignore
    } else if next_stage(stage, event) == TicketStage::Failed {
        action matches TicketAction::ReportFailure(e) && is_failure_embed(e)
    } else {
        match (stage, event) {
            (TicketStage::ModerationRole, _) => action == TicketAction::FetchTicketCategory {
                guild_id: request.guild_id,
            },
            (TicketStage::TicketCategory { .. }, TicketEvent::TicketCategory(Some(category))) => action
                == TicketAction::FindCategoryChannel { category },
            (TicketStage::CategoryChannel { .. }, _) => action is FindEveryoneRole,
            (
                TicketStage::EveryoneRole { moderation_role, category },
                TicketEvent::EveryoneRole(everyone),
            ) => action matches TicketAction::CreateChannel { name, topic, category: c, overwrites }
                && name@ == request.title@ && topic@ == request.description@ && c == category
                && overwrites@ == ticket_overwrites(request.author_id, everyone, moderation_role),
            (TicketStage::Channel, TicketEvent::Channel(Some(channel))) => action matches TicketAction::RecordTicket {
                guild_id,
                channel_id,
                author_id,
                title,
                description,
            } && guild_id == request.guild_id && channel_id == channel && author_id
                == request.author_id && title@ == request.title@ && description@
                == request.description@,
            (TicketStage::Record { .. }, _) => action == TicketAction::FetchAuthor {
                author_id: request.author_id,
            },
            (TicketStage::Author { channel }, TicketEvent::Author(author)) => action matches TicketAction::Announce(
                messages,
            ) && messages@.len() == 2 && messages@[0].to == Destination::TicketChannel(channel)
                && is_description_embed(
                messages@[0].embed,
                author,
                request.title@,
                request.description@,
            ) && messages@[1].to == Destination::RequestChannel && is_success_embed(
                messages@[1].embed,
                channel,
            ),
            _ => false,
        }
    }
}

/// How far `stage` is along the creation; `Failed` is beyond every stage.
pub open spec fn stage_rank(stage: TicketStage) -> nat {
    match stage {
        TicketStage::ModerationRole => 0,
        TicketStage::TicketCategory { .. } => 1,
        TicketStage::CategoryChannel { .. } => 2,
        TicketStage::EveryoneRole { .. } => 3,
        TicketStage::Channel => 4,
        TicketStage::Record { .. } => 5,
        TicketStage::Author { .. } => 6,
        TicketStage::Finished => 7,
        TicketStage::Failed => 8,
    }
}

/// The stage that a sequence of events leads to from `stage`.
pub open spec fn run_stage(stage: TicketStage, events: Seq<TicketEvent>) -> TicketStage
    decreases events.len(),
{
    if events.len() == 0 {
        stage
    } else {
        next_stage(run_stage(stage, events.drop_last()), events.last())
    }
}

/// Whether the store named a moderation role, a ticket category was
/// configured and it was found among the guild's channels, somewhere in
/// `events`.
pub open spec fn checks_passed(events: Seq<TicketEvent>) -> (bool, bool, bool) {
    (
        exists|i: int|
            0 <= i < events.len() && #[trigger] events[i] matches TicketEvent::ModerationRole(
                StoreResult::Guild(GuildConfigData::ModerationRole(_)),
            ),
        exists|i: int|
            0 <= i < events.len() && #[trigger] events[i] matches TicketEvent::TicketCategory(
                Some(_),
            ),
        exists|i: int|
            0 <= i < events.len() && #[trigger] events[i] matches TicketEvent::CategoryChannel(true),
    )
}

/// A settled creation stays settled: once finished or failed, every event
/// is ignored.
pub proof fn law_settled_flow_ignores_events(stage: TicketStage, event: TicketEvent)
    requires
        stage == TicketStage::Finished || stage == TicketStage::Failed,
    ensures
        next_stage(stage, event) == stage,
        !event_fits(stage, event),
{
}

/// The creation never goes back: every event leaves it at least as far
/// along as it was.
pub proof fn law_flow_moves_forward(stage: TicketStage, event: TicketEvent)
    ensures
        stage_rank(next_stage(stage, event)) >= stage_rank(stage),
{
}

/// From the start, a creation that has come as far as creating the channel
/// (and has not failed) has seen the store name a moderation role, a ticket
/// category configured, and that category found among the guild's channels.
pub proof fn law_channel_only_after_checks(events: Seq<TicketEvent>)
    ensures
        ({
            let reached = run_stage(TicketStage::ModerationRole, events);
            let (role, category, found) = checks_passed(events);
            &&& (reached != TicketStage::Failed && stage_rank(reached) >= 1 ==> role)
            &&& (reached != TicketStage::Failed && stage_rank(reached) >= 2 ==> category)
            &&& (reached != TicketStage::Failed && stage_rank(reached) >= 3 ==> found)
        }),
    decreases events.len(),
{
    if events.len() > 0 {
        let before = events.drop_last();
        law_channel_only_after_checks(before);
        let e = events.last();
        let last = events.len() - 1;
        assert(events[last] == e);
        assert forall|i: int| 0 <= i < before.len() implies before[i] == events[i] by {}
        let (r0, c0, f0) = checks_passed(before);
        let (r1, c1, f1) = checks_passed(events);
        if r0 {
            let i = choose|i: int|
                0 <= i < before.len() && #[trigger] before[i] matches TicketEvent::ModerationRole(
                    StoreResult::Guild(GuildConfigData::ModerationRole(_)),
                );
            assert(events[i] == before[i]);
        }
        if c0 {
            let i = choose|i: int|
                0 <= i < before.len() && #[trigger] before[i] matches TicketEvent::TicketCategory(
                    Some(_),
                );
            assert(events[i] == before[i]);
        }
        if f0 {
            let i = choose|i: int|
                0 <= i < before.len() && #[trigger] before[i] matches TicketEvent::CategoryChannel(
                    true,
                );
            assert(events[i] == before[i]);
        }
    }
}

/// The moderation role that the store names is the one the ticket channel
/// opens to: from the start, once the store has named the role `role`, a
/// ticket category `category` was configured and found among the guild's
/// channels, the creation waits for the `@everyone` role with `role` and
/// `category` unchanged, for every role id.
pub proof fn law_named_role_is_carried(role: u64, category: u64)
    ensures
        run_stage(
            TicketStage::ModerationRole,
            seq![
                TicketEvent::ModerationRole(StoreResult::Guild(GuildConfigData::ModerationRole(role))),
                TicketEvent::TicketCategory(Some(category)),
                TicketEvent::CategoryChannel(true),
            ],
        ) == (TicketStage::EveryoneRole { moderation_role: role, category }),
{
    let events = seq![
        TicketEvent::ModerationRole(StoreResult::Guild(GuildConfigData::ModerationRole(role))),
        TicketEvent::TicketCategory(Some(category)),
        TicketEvent::CategoryChannel(true),
    ];
    assert(events.drop_last().drop_last().drop_last() =~= Seq::<TicketEvent>::empty());
    assert(events.drop_last().drop_last() =~= seq![events[0]]);
    assert(events.drop_last() =~= seq![events[0], events[1]]);
    reveal_with_fuel(run_stage, 4);
}

/// The channel of a ticket is created in the configured category, named
/// and described after the ticket, and open to exactly these: its author and
/// the moderation role that the store named may read it and may not send
/// text-to-speech messages, and the `@everyone` role may stream but not read.
pub proof fn law_channel_opens_to_author_and_moderators(
    request: TicketRequest,
    role: u64,
    category: u64,
    everyone: u64,
    action: TicketAction,
)
    requires
        action_fits(
            request,
            TicketStage::EveryoneRole { moderation_role: role, category },
            TicketEvent::EveryoneRole(everyone),
            action,
        ),
    ensures
        action matches TicketAction::CreateChannel { name, topic, category: c, overwrites }
            && name@ == request.title@ && topic@ == request.description@ && c == category
            && overwrites@.len() == 3
            && overwrites@[0] == (PermissionOverwrite {
                allow: 1024,
                deny: 4096,
                kind: OverwriteTarget::Member(request.author_id),
            })
            && overwrites@[1] == (PermissionOverwrite {
                allow: 512,
                deny: 1024,
                kind: OverwriteTarget::Role(everyone),
            })
            && overwrites@[2] == (PermissionOverwrite {
                allow: 1024,
                deny: 4096,
                kind: OverwriteTarget::Role(role),
            }),
{
}

/// From the start, the channel that a successful run of checks creates
/// lets the moderators read it: whatever role `role` the store named, the
/// last overwrite of the channel is for `role` itself.
pub proof fn law_moderators_read_the_ticket(
    request: TicketRequest,
    role: u64,
    category: u64,
    everyone: u64,
    action: TicketAction,
)
    requires
        action_fits(
            request,
            run_stage(
                TicketStage::ModerationRole,
                seq![
                    TicketEvent::ModerationRole(StoreResult::Guild(GuildConfigData::ModerationRole(role))),
                    TicketEvent::TicketCategory(Some(category)),
                    TicketEvent::CategoryChannel(true),
                ],
            ),
            TicketEvent::EveryoneRole(everyone),
            action,
        ),
    ensures
        action matches TicketAction::CreateChannel { overwrites, .. } && overwrites@.len() == 3
            && overwrites@[2].kind == OverwriteTarget::Role(role) && overwrites@[2].allow == 1024,
{
    law_named_role_is_carried(role, category);
    law_channel_opens_to_author_and_moderators(request, role, category, everyone, action);
}

impl TicketFlow {
    /// Begins the creation of `request`: first the store is asked for the
    /// guild's moderation role.
    pub fn start(request: TicketRequest) -> (r: (TicketFlow, TicketAction))
        ensures
            r.0.stage == TicketStage::ModerationRole,
            r.0.request == request,
            r.1 == TicketAction::FetchModerationRole(
                DatabaseCollections::GuildConfig {
                    id: request.guild_id,
                    key: GuildConfigKey::ModerationRole,
                },
            ),
    {
        let question = DatabaseCollections::GuildConfig {
            id: request.guild_id,
            key: GuildConfigKey::ModerationRole,
        };
        (TicketFlow { request, stage: TicketStage::ModerationRole }, TicketAction::FetchModerationRole(question))
    }

    /// Takes in what the last action came back with and says what to do next.
    pub fn step(&mut self, event: TicketEvent) -> (action: TicketAction)
        ensures
            final(self).request == old(self).request,
            final(self).stage == next_stage(old(self).stage, event),
            action_fits(old(self).request, old(self).stage, event, action),
    {
        let ghost before = self.stage;
        let stage = self.stage;
        match (stage, event) {
            (TicketStage::ModerationRole, TicketEvent::ModerationRole(answer)) => match answer {
                StoreResult::Guild(GuildConfigData::ModerationRole(role)) => {
                    self.stage = TicketStage::TicketCategory { moderation_role: role };
                    TicketAction::FetchTicketCategory { guild_id: self.request.guild_id }
                },
                _ => self.fail(),
            },
            (TicketStage::TicketCategory { moderation_role }, TicketEvent::TicketCategory(found)) => match found {
                Some(category) => {
                    self.stage = TicketStage::CategoryChannel { moderation_role, category };
                    TicketAction::FindCategoryChannel { category }
                },
                None => self.fail(),
            },
            (
                TicketStage::CategoryChannel { moderation_role, category },
                TicketEvent::CategoryChannel(exists),
            ) => {
                if exists {
                    self.stage = TicketStage::EveryoneRole { moderation_role, category };
                    TicketAction::FindEveryoneRole
                } else {
                    self.fail()
                }
            },
            (
                TicketStage::EveryoneRole { moderation_role, category },
                TicketEvent::EveryoneRole(everyone),
            ) => {
                self.stage = TicketStage::Channel;
                let mut overwrites: Vec<PermissionOverwrite> = Vec::new();
                overwrites.push(
                    PermissionOverwrite {
                        allow: READ_MESSAGES,
                        deny: SEND_TTS_MESSAGES,
                        kind: OverwriteTarget::Member(self.request.author_id),
                    },
                );
                overwrites.push(
                    PermissionOverwrite {
                        allow: STREAM,
                        deny: READ_MESSAGES,
                        kind: OverwriteTarget::Role(everyone),
                    },
                );
                overwrites.push(
                    PermissionOverwrite {
                        allow: READ_MESSAGES,
                        deny: SEND_TTS_MESSAGES,
                        kind: OverwriteTarget::Role(moderation_role),
                    },
                );
                assert(overwrites@ =~= ticket_overwrites(
                    self.request.author_id,
                    everyone,
                    moderation_role,
                ));
                TicketAction::CreateChannel {
                    name: self.request.title.clone(),
                    topic: self.request.description.clone(),
                    category,
                    overwrites,
                }
            },
            (TicketStage::Channel, TicketEvent::Channel(created)) => match created {
                Some(channel) => {
                    self.stage = TicketStage::Record { channel };
                    TicketAction::RecordTicket {
                        guild_id: self.request.guild_id,
                        channel_id: channel,
                        author_id: self.request.author_id,
                        title: self.request.title.clone(),
                        description: self.request.description.clone(),
                    }
                },
                None => self.fail(),
            },
            (TicketStage::Record { channel }, TicketEvent::Recorded(recorded)) => {
                if recorded {
                    self.stage = TicketStage::Author { channel };
                    TicketAction::FetchAuthor { author_id: self.request.author_id }
                } else {
                    self.fail()
                }
            },
            (TicketStage::Author { channel }, TicketEvent::Author(author)) => {
                self.stage = TicketStage::Finished;
                let ticket = EmbedStore::ticket(
                    TicketEmbed::Description {
                        author,
                        title: self.request.title.clone(),
                        description: self.request.description.clone(),
                    },
                );
                let confirmation = EmbedStore::ticket_success(channel);
                let mut messages: Vec<Outgoing> = Vec::new();
                messages.push(Outgoing { to: Destination::TicketChannel(channel), embed: ticket });
                messages.push(Outgoing { to: Destination::RequestChannel, embed: confirmation });
                TicketAction::Announce(messages)
            },
            _ => TicketAction::Ignore,
        }
    }

    /// Gives up: the flow is failed and the failure is to be reported.
    fn fail(&mut self) -> (action: TicketAction)
        ensures
            final(self).request == old(self).request,
            final(self).stage == TicketStage::Failed,
            action matches TicketAction::ReportFailure(e) && is_failure_embed(e),
    {
        self.stage = TicketStage::Failed;
        TicketAction::ReportFailure(EmbedStore::ticket_failure())
    }
}

} // verus!
