//! The protocol's value types as plain data: typed daemon refusals, link
//! evidence, and signed timestamps.

use vstd::prelude::*;

use crate::text::owned;

verus! {

/// The earliest Unix second a signed instant can carry (-9999-01-01T00:00:00Z).
pub const MIN_UNIX_SECONDS: i64 = -377_705_116_800;

/// The latest Unix second a signed instant can carry (9999-12-31T23:59:59Z).
pub const MAX_UNIX_SECONDS: i64 = 253_402_300_799;

/// A signed instant: whole seconds since the Unix epoch plus nanoseconds,
/// within the calendar years -9999 to 9999.
#[derive(Clone, Copy, PartialEq, Eq, PartialOrd, Ord, Debug, Hash, Structural)]
pub struct Timestamp {
    unix_seconds: i64,
    nanos: u32,
}

impl Timestamp {
    /// The instant lies within the representable calendar range.
    #[verifier::type_invariant]
    spec fn well_formed(self) -> bool {
        &&& MIN_UNIX_SECONDS <= self.unix_seconds <= MAX_UNIX_SECONDS
        &&& self.nanos < 1_000_000_000
    }

    /// Whole seconds since the epoch (floored).
    pub closed spec fn seconds(self) -> int {
        self.unix_seconds as int
    }

    /// The nanoseconds within the second.
    pub closed spec fn subsec(self) -> int {
        self.nanos as int
    }

    /// The instant, or `None` when it lies outside the calendar range or
    /// the nanoseconds are not below one second.
    pub fn from_unix(unix_seconds: i64, nanos: u32) -> (r: Option<Timestamp>)
        ensures
            match r {
                Some(t) => t.seconds() == unix_seconds && t.subsec() == nanos,
                None => !(MIN_UNIX_SECONDS <= unix_seconds <= MAX_UNIX_SECONDS && nanos < 1_000_000_000),
            },
    {
        if MIN_UNIX_SECONDS <= unix_seconds && unix_seconds <= MAX_UNIX_SECONDS && nanos < 1_000_000_000 {
            Some(Timestamp { unix_seconds, nanos })
        } else {
            None
        }
    }

    /// The instant at a whole Unix second, when within range.
    pub fn from_unix_seconds(unix_seconds: i64) -> (r: Option<Timestamp>)
        ensures
            match r {
                Some(t) => t.seconds() == unix_seconds && t.subsec() == 0,
                None => !(MIN_UNIX_SECONDS <= unix_seconds <= MAX_UNIX_SECONDS),
            },
    {
        Timestamp::from_unix(unix_seconds, 0)
    }

    /// 1970-01-01T00:00:00Z.
    pub fn unix_epoch() -> (r: Timestamp)
        ensures
            r.seconds() == 0,
            r.subsec() == 0,
    {
        Timestamp { unix_seconds: 0, nanos: 0 }
    }

    /// Whole seconds since the epoch.
    pub fn unix_seconds(&self) -> (r: i64)
        ensures
            r == self.seconds(),
            MIN_UNIX_SECONDS <= r <= MAX_UNIX_SECONDS,
    {
        proof {
            use_type_invariant(self);
        }
        self.unix_seconds
    }

    /// The nanoseconds within the second.
    pub fn subsec_nanos(&self) -> (r: u32)
        ensures
            r == self.subsec(),
            r < 1_000_000_000,
    {
        proof {
            use_type_invariant(self);
        }
        self.nanos
    }

    /// Whether this instant is strictly before `other`.
    pub fn is_before(&self, other: &Timestamp) -> (r: bool)
        ensures
            r == ts_lt(*self, *other),
    {
        self.unix_seconds < other.unix_seconds
            || (self.unix_seconds == other.unix_seconds && self.nanos < other.nanos)
    }
}

/// Two instants with the same seconds and nanoseconds are the same.
pub proof fn lemma_timestamp_ext(a: Timestamp, b: Timestamp)
    requires
        a.seconds() == b.seconds(),
        a.subsec() == b.subsec(),
    ensures
        a == b,
{
}

/// Strict order of instants.
pub open spec fn ts_lt(a: Timestamp, b: Timestamp) -> bool {
    a.seconds() < b.seconds() || (a.seconds() == b.seconds() && a.subsec() < b.subsec())
}

/// Where a size limit was enforced.
#[derive(Clone, Copy, PartialEq, Eq, Debug, Structural)]
pub enum EnforcedAt {
    /// When the declared size was staged.
    StageDeclared,
    /// While the bytes streamed.
    StageStream,
}

/// A transfer's total, when known.
#[derive(Clone, Copy, PartialEq, Eq, Debug, Structural)]
pub enum ByteTotal {
    /// The total is known.
    Known(u64),
    /// The total is not known.
    Unknown,
}

/// Why a stream was aborted.
#[derive(Clone, Copy, PartialEq, Eq, Debug, Structural)]
pub enum StreamAbortReason {
    /// A party cancelled it.
    Cancelled,
    /// The peer went away.
    PeerGone,
}

/// Why a peer is not connected.
#[derive(Clone, Copy, PartialEq, Eq, Debug, Structural)]
pub enum LinkReason {
    /// No route to the peer is known.
    NoRoute,
    /// The peer was never dialed.
    NeverDialed,
    /// A dial was attempted and failed.
    DialFailed,
    /// The link was closed.
    Closed,
}

/// How this device reaches a peer.
#[derive(Clone, Copy, PartialEq, Eq, Debug, Structural)]
pub enum Link {
    /// A direct connection, since an instant.
    Direct { since: Timestamp },
    /// A connection through a relay, since an instant.
    Relay { since: Timestamp },
    /// No connection.
    NotConnected { reason: LinkReason },
}

/// Who may connect to a published pipe.
#[derive(Clone, Copy, PartialEq, Eq, Debug, Structural)]
pub enum Audience {
    /// Every member of the room.
    Room,
}

/// A local TCP target.
#[derive(Clone, PartialEq, Eq, Debug)]
pub struct Target {
    /// The host.
    pub host: String,
    /// The port.
    pub port: u64,
}

/// Whether a local identity exists.
#[derive(Clone, PartialEq, Eq, Debug)]
pub enum SubjectState {
    /// No identity has been created on this daemon.
    Absent,
    /// The local subject and its device.
    Present { subject_id: String, device_id: String },
}

/// A member's role.
#[derive(Clone, Copy, PartialEq, Eq, Debug, Hash, Structural)]
pub enum Role {
    /// The room's signed authority (its creator).
    Authority,
    /// An ordinary member.
    Member,
}

/// A member's standing in a room.
#[derive(Clone, Copy, PartialEq, Eq, Debug, Hash, Structural)]
pub enum Standing {
    /// A current member.
    Active,
    /// Left of their own accord.
    Left,
    /// Removed by the authority.
    Removed,
}

/// How serious a posted status is.
#[derive(Clone, Copy, PartialEq, Eq, Debug, Hash, Structural)]
pub enum Severity {
    /// Nothing needs attention.
    Nominal,
    /// A person needs to look.
    Review,
    /// The run failed.
    Failed,
}

/// An agent's posted status label.
#[derive(Clone, Copy, PartialEq, Eq, Debug, Hash, Structural)]
pub enum StatusLabel {
    Online,
    Idle,
    Claiming,
    Working,
    Done,
    Blocked,
    Failed,
}

/// The severity a label carries: `Blocked` needs a person, `Failed`
/// failed, everything else is fine.
pub open spec fn severity_spec(label: StatusLabel) -> Severity {
    match label {
        StatusLabel::Blocked => Severity::Review,
        StatusLabel::Failed => Severity::Failed,
        _ => Severity::Nominal,
    }
}

impl StatusLabel {
    /// The severity this label carries.
    pub fn severity(self) -> (r: Severity)
        ensures
            r == severity_spec(self),
    {
        match self {
            StatusLabel::Blocked => Severity::Review,
            StatusLabel::Failed => Severity::Failed,
            _ => Severity::Nominal,
        }
    }
}

/// A status's reported progress.
#[derive(Clone, Copy, PartialEq, Eq, Debug, Hash, Structural)]
pub enum StatusProgress {
    /// No progress was reported.
    Absent,
    /// A percentage was reported.
    Reported { percent: u8 },
}

/// Who authored an event, as the daemon resolved it.
#[derive(PartialEq, Eq, Debug)]
pub enum Author {
    /// A resolved member, with their role and standing at signing time.
    Resolved { subject_id: String, role: Role, standing: Standing },
    /// The signer could not be resolved to a member.
    Unresolved,
}

/// What an event says.
#[derive(PartialEq, Eq, Debug)]
pub enum EventKindContent {
    Message { body: String },
    AgentStatus { label: StatusLabel, progress: StatusProgress },
    RoomCreated { name: String },
    MemberJoined { subject_id: String, role: Role },
    MemberLeft { subject_id: String },
    MemberRemoved { subject_id: String, by: String },
    InviteRevoked { invite_id: String },
    FileShared { file_id: String, name: String, bytes: u64, digest: String },
    PipePublished { pipe_id: String, target: Target, audience: Audience },
    PipeRevoked { pipe_id: String },
}

/// A signed room event at its timeline position.
#[derive(PartialEq, Eq, Debug)]
pub struct Event {
    /// The position in the room's timeline.
    pub pos: u64,
    /// The event's id.
    pub event_id: String,
    /// When it was signed.
    pub at: Timestamp,
    /// Who signed it.
    pub author: Author,
    /// What it says.
    pub kind: EventKindContent,
}

impl Clone for Author {
    fn clone(&self) -> (r: Self)
        ensures
            r == *self,
    {
        match self {
            Author::Resolved { subject_id, role, standing } => Author::Resolved {
                subject_id: subject_id.clone(),
                role: *role,
                standing: *standing,
            },
            Author::Unresolved => Author::Unresolved,
        }
    }
}

impl Clone for EventKindContent {
    fn clone(&self) -> (r: Self)
        ensures
            r == *self,
    {
        match self {
            EventKindContent::Message { body } => EventKindContent::Message { body: body.clone() },
            EventKindContent::AgentStatus { label, progress } =>
                EventKindContent::AgentStatus { label: *label, progress: *progress },
            EventKindContent::RoomCreated { name } => EventKindContent::RoomCreated { name: name.clone() },
            EventKindContent::MemberJoined { subject_id, role } =>
                EventKindContent::MemberJoined { subject_id: subject_id.clone(), role: *role },
            EventKindContent::MemberLeft { subject_id } =>
                EventKindContent::MemberLeft { subject_id: subject_id.clone() },
            EventKindContent::MemberRemoved { subject_id, by } => EventKindContent::MemberRemoved {
                subject_id: subject_id.clone(),
                by: by.clone(),
            },
            EventKindContent::InviteRevoked { invite_id } =>
                EventKindContent::InviteRevoked { invite_id: invite_id.clone() },
            EventKindContent::FileShared { file_id, name, bytes, digest } => EventKindContent::FileShared {
                file_id: file_id.clone(),
                name: name.clone(),
                bytes: *bytes,
                digest: digest.clone(),
            },
            EventKindContent::PipePublished { pipe_id, target, audience } =>
                EventKindContent::PipePublished {
                    pipe_id: pipe_id.clone(),
                    target: Target { host: target.host.clone(), port: target.port },
                    audience: *audience,
                },
            EventKindContent::PipeRevoked { pipe_id } =>
                EventKindContent::PipeRevoked { pipe_id: pipe_id.clone() },
        }
    }
}

impl Clone for Event {
    fn clone(&self) -> (r: Self)
        ensures
            r == *self,
    {
        Event {
            pos: self.pos,
            event_id: self.event_id.clone(),
            at: self.at,
            author: self.author.clone(),
            kind: self.kind.clone(),
        }
    }
}

/// Where a page of events continues.
#[derive(Clone, Copy, PartialEq, Eq, Debug, Structural)]
pub enum Cursor {
    /// From the start.
    Start,
    /// At a position.
    At { pos: u64 },
}

/// Whether a read returned everything.
#[derive(Clone, Copy, PartialEq, Eq, Debug, Structural)]
pub enum Truncated {
    /// Nothing more.
    Complete,
    /// More from the cursor.
    More { cursor: Cursor },
}

/// A page of a departed room's archive.
#[derive(Clone, PartialEq, Eq, Debug)]
pub struct RoomArchiveOut {
    /// The room.
    pub room_id: String,
    /// The caller's standing.
    pub standing: Standing,
    /// The events, in any order.
    pub events: Vec<Event>,
    /// Whether more remain.
    pub truncated: Truncated,
}

/// The daemon's answer to a message send.
#[derive(Clone, PartialEq, Eq, Debug)]
pub struct MessageSendOut {
    /// The room.
    pub room_id: String,
    /// The authored event's id.
    pub event_id: String,
    /// Its timeline position.
    pub pos: u64,
    /// When it was signed.
    pub at: Timestamp,
}

/// An operation a room's served capability list may grant.
#[derive(Clone, Copy, PartialEq, Eq, Debug, Hash, Structural)]
pub enum CapabilityToken {
    MessageSend,
    StatusPost,
    StatusHistory,
    RoomList,
    RoomLeave,
    RoomActivate,
    RoomDeactivate,
    RoomArchive,
    RoomTimeline,
    RoomMembers,
    RoomPeers,
    InviteMint,
    InviteList,
    InviteRevoke,
    MemberRemove,
    FileShare,
    FileList,
    FileFetch,
    FileRead,
    TransferCancel,
    PipePublish,
    PipeList,
    PipeConnect,
    PipeRelease,
    PipeRevoke,
    StreamSubscribe,
    StreamUnsubscribe,
    StreamResync,
}

/// How well this device reaches a live room's peers.
#[derive(Clone, Copy, PartialEq, Eq, Debug, Hash, Structural)]
pub enum Reachability {
    Connecting,
    Connected,
    Alone,
    Offline,
}

/// An agent's liveness.
#[derive(Clone, Copy, PartialEq, Eq, Debug, Hash, Structural)]
pub enum Liveness {
    Working,
    OnlineIdle,
    Stale,
    Offline,
}

/// An invite's redeemability.
#[derive(Clone, Copy, PartialEq, Eq, Debug, Hash, Structural)]
pub enum Redeemability {
    Outstanding,
    Redeemed,
    Expired,
    Revoked,
}

/// An agent's latest posted status.
#[derive(Clone, Copy, PartialEq, Eq, Debug, Structural)]
pub enum LatestStatus {
    /// Never posted.
    Absent,
    /// The latest label and when it was posted.
    Present { label: StatusLabel, at: Timestamp },
}

/// When an agent was last seen.
#[derive(Clone, Copy, PartialEq, Eq, Debug, Structural)]
pub enum LastSeen {
    /// Never seen.
    Absent,
    /// Last seen at an instant.
    Present { at: Timestamp },
}

/// One member of a room's current roster.
#[derive(Clone, PartialEq, Eq, Debug)]
pub struct MemberRow {
    pub subject_id: String,
    pub role: Role,
    pub standing: Standing,
    pub joined_at: Timestamp,
}

/// A room's current roster.
#[derive(Clone, PartialEq, Eq, Debug)]
pub struct RoomMembersOut {
    pub room_id: String,
    pub members: Vec<MemberRow>,
}

/// One peer device of a live room.
#[derive(Clone, PartialEq, Eq, Debug)]
pub struct PeerRow {
    pub subject_id: String,
    pub device_id: String,
    pub link: Link,
}

/// One shared file of a room's file list.
#[derive(Clone, PartialEq, Eq, Debug)]
pub struct FileRow {
    pub file_id: String,
    pub name: String,
    pub bytes: u64,
    pub digest: String,
    pub declared_content_type: String,
    pub shared_by: String,
    pub shared_at: Timestamp,
    pub providers: Vec<PeerRow>,
    pub fetchable: bool,
    pub self_hosted: bool,
}

/// A page of a room's file list.
#[derive(Clone, PartialEq, Eq, Debug)]
pub struct FileListOut {
    pub room_id: String,
    pub files: Vec<FileRow>,
    pub truncated: Truncated,
}

/// A live room's peer devices.
#[derive(Clone, PartialEq, Eq, Debug)]
pub struct RoomPeersOut {
    pub room_id: String,
    pub reachability: Reachability,
    pub peers: Vec<PeerRow>,
}

/// One agent of the fleet.
#[derive(Clone, PartialEq, Eq, Debug)]
pub struct FleetRow {
    pub subject_id: String,
    pub room_id: String,
    pub liveness: Liveness,
    pub latest_status: LatestStatus,
    pub last_seen: LastSeen,
}

/// The fleet.
#[derive(Clone, PartialEq, Eq, Debug)]
pub struct FleetListOut {
    pub agents: Vec<FleetRow>,
}

/// One posted status of an agent's history.
#[derive(Clone, Copy, PartialEq, Eq, Debug, Structural)]
pub struct StatusEntry {
    pub at: Timestamp,
    pub label: StatusLabel,
    pub severity: Severity,
    pub progress: StatusProgress,
}

/// A page of an agent's status history.
#[derive(Clone, PartialEq, Eq, Debug)]
pub struct StatusHistoryOut {
    pub room_id: String,
    pub subject_id: String,
    pub entries: Vec<StatusEntry>,
    pub truncated: Truncated,
}

/// One invite of a room.
#[derive(Clone, PartialEq, Eq, Debug)]
pub struct InviteRow {
    pub invite_id: String,
    pub subject_id: String,
    pub role: Role,
    pub expires_at: Timestamp,
    pub redeemability: Redeemability,
}

/// A page of a room's invites.
#[derive(Clone, PartialEq, Eq, Debug)]
pub struct InviteListOut {
    pub room_id: String,
    pub invites: Vec<InviteRow>,
    pub truncated: Truncated,
}

/// A room's most recent event, if any.
#[derive(Clone, Copy, PartialEq, Eq, Debug, Structural)]
pub enum LastEvent {
    /// The room has no events.
    Absent,
    /// The latest event's position and signing time.
    Present { pos: u64, at: Timestamp },
}

/// One room of the caller's room list.
#[derive(Clone, PartialEq, Eq, Debug)]
pub struct RoomRow {
    pub room_id: String,
    pub name: String,
    pub standing: Standing,
    pub live: bool,
    pub role: Role,
    pub member_count: u64,
    pub last_event: LastEvent,
    pub capabilities: Vec<CapabilityToken>,
}

/// One published pipe of a room.
#[derive(PartialEq, Eq, Debug)]
pub struct PipeRow {
    pub pipe_id: String,
    pub published_by: String,
    pub device_id: String,
    pub published_at: Timestamp,
    pub link: Link,
    pub connected: bool,
}

impl Clone for PipeRow {
    fn clone(&self) -> (r: Self)
        ensures
            r == *self,
    {
        PipeRow {
            pipe_id: self.pipe_id.clone(),
            published_by: self.published_by.clone(),
            device_id: self.device_id.clone(),
            published_at: self.published_at,
            link: self.link,
            connected: self.connected,
        }
    }
}

/// A page of a room's pipes.
#[derive(Clone, PartialEq, Eq, Debug)]
pub struct PipeListOut {
    pub room_id: String,
    pub pipes: Vec<PipeRow>,
    pub truncated: Truncated,
}

/// A typed daemon refusal.
#[derive(Clone, PartialEq, Eq, Debug)]
pub enum ApiError {
    FileTooLarge { declared_bytes: u64, limit_bytes: u64, enforced_at: EnforcedAt },
    DeclaredSizeMismatch { declared_bytes: u64, observed_bytes: u64 },
    ProviderUnreachable { file_id: String, providers: Vec<String> },
    DigestMismatch { expected: String, observed: String },
    FileUnknown { file_id: String },
    FileNotFetched { file_id: String },
    TransferStalled { transferred_bytes: u64, total: ByteTotal },
    TransferDeadlineExceeded { transferred_bytes: u64, total: ByteTotal, budget_ms: u64 },
    StreamAborted { transferred_bytes: u64, total: ByteTotal, reason: StreamAbortReason },
    TransferUnknown { transfer_op_id: String },
    FileIndexUnreadable,
    PipeIndexUnreadable,
    PipeTargetRefused { target: Target },
    PolicyRefused { room_id: String },
    PipeUnreachable { pipe_id: String, link: Link },
    PipeUnknown { pipe_id: String },
    PipeRevoked { pipe_id: String, revoked_at: Timestamp },
    PipeNotPublisher { pipe_id: String },
    ConnectionUnknown { connection_id: String },
    RoomNotLive { room_id: String },
    RoomStillActive { room_id: String },
    OpIdConflict { op_id: String },
    SubscriptionLimitReached { limit: u32 },
    Unauthorized,
}

/// The protocol `code` of each refusal: its variant name in snake case.
pub open spec fn api_error_code_spec(e: ApiError) -> Seq<char> {
    match e {
        ApiError::FileTooLarge { .. } => "file_too_large"@,
        ApiError::DeclaredSizeMismatch { .. } => "declared_size_mismatch"@,
        ApiError::ProviderUnreachable { .. } => "provider_unreachable"@,
        ApiError::DigestMismatch { .. } => "digest_mismatch"@,
        ApiError::FileUnknown { .. } => "file_unknown"@,
        ApiError::FileNotFetched { .. } => "file_not_fetched"@,
        ApiError::TransferStalled { .. } => "transfer_stalled"@,
        ApiError::TransferDeadlineExceeded { .. } => "transfer_deadline_exceeded"@,
        ApiError::StreamAborted { .. } => "stream_aborted"@,
        ApiError::TransferUnknown { .. } => "transfer_unknown"@,
        ApiError::FileIndexUnreadable => "file_index_unreadable"@,
        ApiError::PipeIndexUnreadable => "pipe_index_unreadable"@,
        ApiError::PipeTargetRefused { .. } => "pipe_target_refused"@,
        ApiError::PolicyRefused { .. } => "policy_refused"@,
        ApiError::PipeUnreachable { .. } => "pipe_unreachable"@,
        ApiError::PipeUnknown { .. } => "pipe_unknown"@,
        ApiError::PipeRevoked { .. } => "pipe_revoked"@,
        ApiError::PipeNotPublisher { .. } => "pipe_not_publisher"@,
        ApiError::ConnectionUnknown { .. } => "connection_unknown"@,
        ApiError::RoomNotLive { .. } => "room_not_live"@,
        ApiError::RoomStillActive { .. } => "room_still_active"@,
        ApiError::OpIdConflict { .. } => "op_id_conflict"@,
        ApiError::SubscriptionLimitReached { .. } => "subscription_limit_reached"@,
        ApiError::Unauthorized => "unauthorized"@,
    }
}

impl ApiError {
    /// The refusal's protocol `code` (its discriminant, never its payload).
    pub fn wire_code(&self) -> (r: String)
        ensures
            r@ == api_error_code_spec(*self),
    {
        match self {
            ApiError::FileTooLarge { .. } => owned("file_too_large"),
            ApiError::DeclaredSizeMismatch { .. } => owned("declared_size_mismatch"),
            ApiError::ProviderUnreachable { .. } => owned("provider_unreachable"),
            ApiError::DigestMismatch { .. } => owned("digest_mismatch"),
            ApiError::FileUnknown { .. } => owned("file_unknown"),
            ApiError::FileNotFetched { .. } => owned("file_not_fetched"),
            ApiError::TransferStalled { .. } => owned("transfer_stalled"),
            ApiError::TransferDeadlineExceeded { .. } => owned("transfer_deadline_exceeded"),
            ApiError::StreamAborted { .. } => owned("stream_aborted"),
            ApiError::TransferUnknown { .. } => owned("transfer_unknown"),
            ApiError::FileIndexUnreadable => owned("file_index_unreadable"),
            ApiError::PipeIndexUnreadable => owned("pipe_index_unreadable"),
            ApiError::PipeTargetRefused { .. } => owned("pipe_target_refused"),
            ApiError::PolicyRefused { .. } => owned("policy_refused"),
            ApiError::PipeUnreachable { .. } => owned("pipe_unreachable"),
            ApiError::PipeUnknown { .. } => owned("pipe_unknown"),
            ApiError::PipeRevoked { .. } => owned("pipe_revoked"),
            ApiError::PipeNotPublisher { .. } => owned("pipe_not_publisher"),
            ApiError::ConnectionUnknown { .. } => owned("connection_unknown"),
            ApiError::RoomNotLive { .. } => owned("room_not_live"),
            ApiError::RoomStillActive { .. } => owned("room_still_active"),
            ApiError::OpIdConflict { .. } => owned("op_id_conflict"),
            ApiError::SubscriptionLimitReached { .. } => owned("subscription_limit_reached"),
            ApiError::Unauthorized => owned("unauthorized"),
        }
    }
}

} // verus!
