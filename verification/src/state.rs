//! Room, member and message state of the client, and the trust level of a
//! room derived from the verification status of its members.
//!
//! Users and groups are identified by the 128-bit value of their UUID.

use std::collections::HashMap;

use vstd::prelude::*;

use crate::text::owned;
use vstd::std_specs::iter::IteratorSpec;

verus! {

broadcast use vstd::std_specs::hash::group_hash_axioms;

/// Connection status of the server event stream.
#[derive(Debug, Clone, PartialEq, Eq, Structural)]
pub enum ConnectionStatus {
    Disconnected,
    Connecting,
    Connected,
}

/// Colour of the indicator of a risky room or changed key.
pub const INDICATOR_COLOR_RISKY: (u8, u8, u8) = (0xcc, 0x44, 0x44);

/// Colour of the indicator of an unverified user or room.
pub const INDICATOR_COLOR_UNVERIFIED: (u8, u8, u8) = (0xcc, 0x99, 0x33);

/// Colour of the indicator of a verified user or room.
pub const INDICATOR_COLOR_VERIFIED: (u8, u8, u8) = (0x44, 0x88, 0x44);

/// Verification status of a user's signing key fingerprint.
#[derive(Debug, Clone, Copy, PartialEq, Eq, Structural)]
pub enum VerificationStatus {
    /// No fingerprint available from the server.
    Unknown,
    /// Stored on first use, not manually verified.
    Unverified,
    /// Manually verified.
    Verified,
    /// The fingerprint changed since it was last seen.
    Changed,
}

/// Aggregate trust level of a room.
#[derive(Debug, Clone, Copy, PartialEq, Eq, Structural)]
pub enum RoomTrustLevel {
    /// All members are verified.
    Verified,
    /// Some members are unverified or unknown.
    Unverified,
    /// A member's signing key has changed.
    Risky,
}

/// A member of a room.
#[derive(Debug, Clone)]
pub struct RoomMember {
    pub user_id: u128,
    pub username: String,
    pub alias: Option<String>,
    pub role: String,
    pub signing_key_fingerprint: Option<String>,
}

/// The name shown for a member: the alias when set and non-empty, otherwise
/// the username.
pub open spec fn member_display_name_spec(m: RoomMember) -> Seq<char> {
    match m.alias {
        Some(a) => if a@.len() > 0 {
            a@
        } else {
            m.username@
        },
        None => m.username@,
    }
}

impl RoomMember {
    /// Display name: alias if set, otherwise username.
    pub fn display_name(&self) -> (r: &str)
        ensures
            r@ == member_display_name_spec(*self),
    {
        match &self.alias {
            Some(a) => {
                if a.as_str().is_empty() {
                    self.username.as_str()
                } else {
                    a.as_str()
                }
            },
            None => self.username.as_str(),
        }
    }
}

/// A room the user has joined.
#[derive(Debug, Clone)]
pub struct Room {
    pub server_group_id: u128,
    pub group_name: String,
    pub alias: Option<String>,
    pub members: Vec<RoomMember>,
    /// Highest sequence number processed by MLS (fetched and decrypted).
    pub last_seen_seq: u64,
    /// Highest sequence number the user has viewed.
    pub last_read_seq: u64,
    /// Message expiry policy: -1 disabled, 0 fetch-then-delete, >0 seconds.
    pub message_expiry_seconds: i64,
}

/// The name shown for a room: the alias when set and non-empty, otherwise
/// the group name.
pub open spec fn room_display_name_spec(r: Room) -> Seq<char> {
    match r.alias {
        Some(a) => if a@.len() > 0 {
            a@
        } else {
            r.group_name@
        },
        None => r.group_name@,
    }
}

impl Room {
    /// Display name: alias if set, otherwise the group name.
    pub fn display_name(&self) -> (r: String)
        ensures
            r@ == room_display_name_spec(*self),
    {
        if let Some(alias) = &self.alias {
            if !alias.as_str().is_empty() {
                return owned(alias.as_str());
            }
        }
        owned(self.group_name.as_str())
    }
}

/// A single message for display.
#[derive(Debug, Clone)]
pub struct DisplayMessage {
    /// Sender's user ID; `None` for system messages.
    pub sender_id: Option<u128>,
    /// Fallback display name, used when the sender is not among the members.
    pub sender: String,
    pub content: String,
    pub timestamp: i64,
    /// Server-assigned sequence number within the group (`None` for
    /// local-only messages).
    pub sequence_num: Option<u64>,
    /// MLS epoch at the time the message was processed (`None` for
    /// local-only messages).
    pub epoch: Option<u64>,
    /// System messages (joins, parts, errors) are shown differently.
    pub is_system: bool,
}

/// The current time as seconds since the Unix epoch (`chrono::Utc::now`);
/// nothing is stated of the value.
#[verifier::external_body]
pub(crate) fn current_timestamp() -> (t: i64) {
    chrono::Utc::now().timestamp()
}

impl DisplayMessage {
    /// A message from a user.
    pub fn user(sender_id: u128, sender: &str, content: &str, timestamp: i64) -> (m: Self)
        ensures
            m.sender_id == Some(sender_id),
            m.sender@ == sender@,
            m.content@ == content@,
            m.timestamp == timestamp,
            m.sequence_num is None,
            m.epoch is None,
            !m.is_system,
    {
        DisplayMessage {
            sender_id: Some(sender_id),
            sender: owned(sender),
            content: owned(content),
            timestamp,
            sequence_num: None,
            epoch: None,
            is_system: false,
        }
    }

    /// A system message stamped with the current time.
    pub fn system(content: &str) -> (m: Self)
        ensures
            m.sender_id is None,
            m.sender@ == Seq::<char>::empty(),
            m.content@ == content@,
            m.sequence_num is None,
            m.epoch is None,
            m.is_system,
    {
        DisplayMessage {
            sender_id: None,
            sender: String::new(),
            content: owned(content),
            timestamp: current_timestamp(),
            sequence_num: None,
            epoch: None,
            is_system: true,
        }
    }
}

// ── Trust ─────────────────────────────────────────────────────────────

/// The trust level of a room with the given members: risky when any member's
/// key changed, verified when every member is verified, and unverified
/// otherwise (a member without a status counts as unverified).
pub open spec fn room_trust_spec(
    members: Seq<RoomMember>,
    status: Map<u128, VerificationStatus>,
) -> RoomTrustLevel {
    if exists|i: int|
        0 <= i < members.len() && status.contains_key(#[trigger] members[i].user_id)
            && status[members[i].user_id] == VerificationStatus::Changed {
        RoomTrustLevel::Risky
    } else if forall|i: int|
        0 <= i < members.len() ==> status.contains_key(#[trigger] members[i].user_id)
            && status[members[i].user_id] == VerificationStatus::Verified {
        RoomTrustLevel::Verified
    } else {
        RoomTrustLevel::Unverified
    }
}

/// Computes the aggregate trust level of a room from its members'
/// verification statuses: any `Changed` gives `Risky`, any other
/// non-`Verified` (or missing) gives `Unverified`, all `Verified` gives
/// `Verified`.
pub fn room_trust_level(
    members: &[RoomMember],
    verification_status: &HashMap<u128, VerificationStatus>,
) -> (r: RoomTrustLevel)
    ensures
        r == room_trust_spec(members@, verification_status@),
{
    let ghost st = verification_status@;
    let mut all_verified = true;
    let mut i: usize = 0;
    while i < members.len()
        invariant
            i <= members@.len(),
            st == verification_status@,
            forall|j: int|
                0 <= j < i ==> !(st.contains_key(#[trigger] members@[j].user_id)
                    && st[members@[j].user_id] == VerificationStatus::Changed),
            all_verified == forall|j: int|
                0 <= j < i ==> st.contains_key(#[trigger] members@[j].user_id)
                    && st[members@[j].user_id] == VerificationStatus::Verified,
        decreases members@.len() - i,
    {
        let id = members[i].user_id;
        match verification_status.get(&id) {
            Some(VerificationStatus::Changed) => {
                return RoomTrustLevel::Risky;
            },
            Some(VerificationStatus::Verified) => {},
            _ => {
                all_verified = false;
            },
        }
        i = i + 1;
    }
    if all_verified {
        RoomTrustLevel::Verified
    } else {
        RoomTrustLevel::Unverified
    }
}

/// A room whose members are all verified is trusted, one with a changed key
/// among its members is risky whatever the others are, and a room without
/// members is trusted.
pub proof fn lemma_room_trust_levels(
    members: Seq<RoomMember>,
    status: Map<u128, VerificationStatus>,
    i: int,
)
    ensures
        (0 <= i < members.len() && status.contains_key(members[i].user_id)
            && status[members[i].user_id] == VerificationStatus::Changed) ==> room_trust_spec(
            members,
            status,
        ) == RoomTrustLevel::Risky,
        members.len() == 0 ==> room_trust_spec(members, status) == RoomTrustLevel::Verified,
        (0 <= i < members.len() && !status.contains_key(members[i].user_id)) ==> room_trust_spec(
            members,
            status,
        ) != RoomTrustLevel::Verified,
{
}

// ── Names ─────────────────────────────────────────────────────────────

/// The name shown for the sender of a message: the display name of the
/// first member with the sender's ID, otherwise the stored sender name.
pub open spec fn sender_name_spec(msg: DisplayMessage, members: Seq<RoomMember>) -> Seq<char> {
    match msg.sender_id {
        Some(sid) => if exists|i: int| 0 <= i < members.len() && (#[trigger] members[i]).user_id == sid {
            member_display_name_spec(
                members[choose|i: int|
                    0 <= i < members.len() && (#[trigger] members[i]).user_id == sid
                        && forall|j: int| 0 <= j < i ==> (#[trigger] members[j]).user_id != sid],
            )
        } else {
            msg.sender@
        },
        None => msg.sender@,
    }
}

/// The index of the first member with the given ID, if any.
pub fn find_member(members: &[RoomMember], id: u128) -> (r: Option<usize>)
    ensures
        match r {
            Some(i) => i < members@.len() && members@[i as int].user_id == id && forall|j: int|
                0 <= j < i ==> (#[trigger] members@[j]).user_id != id,
            None => forall|j: int| 0 <= j < members@.len() ==> (#[trigger] members@[j]).user_id != id,
        },
{
    let mut i: usize = 0;
    while i < members.len()
        invariant
            i <= members@.len(),
            forall|j: int| 0 <= j < i ==> (#[trigger] members@[j]).user_id != id,
        decreases members@.len() - i,
    {
        if members[i].user_id == id {
            return Some(i);
        }
        i = i + 1;
    }
    None
}

/// The first member matching `id` is the one that `choose` picks.
pub proof fn lemma_first_member_unique(members: Seq<RoomMember>, id: u128, i: int)
    requires
        0 <= i < members.len(),
        members[i].user_id == id,
        forall|j: int| 0 <= j < i ==> (#[trigger] members[j]).user_id != id,
    ensures
        (choose|k: int|
            0 <= k < members.len() && (#[trigger] members[k]).user_id == id && forall|j: int|
                0 <= j < k ==> (#[trigger] members[j]).user_id != id) == i,
{
    let k = choose|k: int|
        0 <= k < members.len() && (#[trigger] members[k]).user_id == id && forall|j: int|
            0 <= j < k ==> (#[trigger] members[j]).user_id != id;
    assert(0 <= k < members.len() && members[k].user_id == id && forall|j: int|
        0 <= j < k ==> (#[trigger] members[j]).user_id != id);
    if k < i {
        assert(members[k].user_id != id);
    } else if k > i {
        assert(members[i].user_id != id);
    }
}

/// Resolves a message's sender display name from the room member list.
///
/// If the sender is found among the members, returns the member's display
/// name (alias if set, otherwise username). Falls back to the stored sender
/// name for system messages or when the sender is not a member.
pub fn resolve_sender_name(msg: &DisplayMessage, members: &[RoomMember]) -> (r: String)
    ensures
        r@ == sender_name_spec(*msg, members@),
{
    if let Some(sid) = msg.sender_id {
        if let Some(i) = find_member(members, sid) {
            proof {
                lemma_first_member_unique(members@, sid, i as int);
            }
            return owned(members[i].display_name());
        }
    }
    owned(msg.sender.as_str())
}

// ── Expiry ────────────────────────────────────────────────────────────

/// The messages that remain under an expiry cutoff: system messages and
/// messages at or after the cutoff, in order.
pub open spec fn retain_unexpired(msgs: Seq<DisplayMessage>, cutoff: i64) -> Seq<DisplayMessage>
    decreases msgs.len(),
{
    if msgs.len() == 0 {
        msgs
    } else {
        let rest = retain_unexpired(msgs.drop_last(), cutoff);
        if msgs.last().is_system || msgs.last().timestamp >= cutoff {
            rest.push(msgs.last())
        } else {
            rest
        }
    }
}

/// The cutoff of a room's expiry policy at time `now`: messages older than
/// it expire. Rooms without a positive expiry, and times at which the cutoff
/// is below the range of `i64`, have none.
pub open spec fn expiry_cutoff(room: Room, now: i64) -> Option<i64> {
    if room.message_expiry_seconds > 0 && now - room.message_expiry_seconds >= i64::MIN {
        Some((now - room.message_expiry_seconds) as i64)
    } else {
        None
    }
}

/// The message lists after expiring messages at time `now`: every list of a
/// room with a cutoff keeps only its unexpired messages; other lists are
/// unchanged.
pub open spec fn expire_messages_spec(
    rooms: Map<u128, Room>,
    msgs: Map<u128, Vec<DisplayMessage>>,
    now: i64,
) -> Map<u128, Seq<DisplayMessage>> {
    Map::new(
        |g: u128| msgs.contains_key(g),
        |g: u128|
            if rooms.contains_key(g) && expiry_cutoff(rooms[g], now) is Some {
                retain_unexpired(msgs[g]@, expiry_cutoff(rooms[g], now)->0)
            } else {
                msgs[g]@
            },
    )
}

/// The views of each message list.
pub open spec fn lists_view(m: Map<u128, Vec<DisplayMessage>>) -> Map<u128, Seq<DisplayMessage>> {
    Map::new(|g: u128| m.contains_key(g), |g: u128| m[g]@)
}

proof fn lemma_retain_len(msgs: Seq<DisplayMessage>, cutoff: i64)
    ensures
        retain_unexpired(msgs, cutoff).len() <= msgs.len(),
        retain_unexpired(msgs, cutoff).len() == msgs.len() ==> retain_unexpired(msgs, cutoff)
            == msgs,
    decreases msgs.len(),
{
    if msgs.len() > 0 {
        lemma_retain_len(msgs.drop_last(), cutoff);
        if retain_unexpired(msgs, cutoff).len() == msgs.len() {
            assert(msgs.drop_last().push(msgs.last()) =~= msgs);
        }
    }
}

/// The messages of `msgs` that remain under `cutoff`.
fn retain_messages(msgs: Vec<DisplayMessage>, cutoff: i64) -> (r: Vec<DisplayMessage>)
    ensures
        r@ == retain_unexpired(msgs@, cutoff),
{
    let mut out: Vec<DisplayMessage> = Vec::new();
    let ghost all = msgs@;
    proof {
        assert(all.take(0) =~= Seq::<DisplayMessage>::empty());
    }
    for msg in iter: msgs.into_iter()
        invariant
            iter.seq() == all,
            out@ == retain_unexpired(all.take(iter.index() as int), cutoff),
    {
        assert(all.take(iter.index() + 1).drop_last() =~= all.take(iter.index() as int));
        assert(all.take(iter.index() + 1).last() == msg);
        if msg.is_system || msg.timestamp >= cutoff {
            out.push(msg);
        }
    }
    assert(all.take(all.len() as int) =~= all);
    out
}

/// The group IDs of a map, each once.
pub(crate) fn keys_of<V>(m: &HashMap<u128, V>) -> (r: Vec<u128>)
    ensures
        r@.to_set() == m@.dom(),
        r@.no_duplicates(),
{
    let mut r: Vec<u128> = Vec::new();
    let ghost all = vstd::std_specs::hash::spec_keys_iter(m).remaining();
    for k in it: m.keys()
        invariant
            it.seq() == all,
            r@ == it.seq().take(it.index() as int).map_values(|x: &u128| *x),
    {
        let ghost before = r@;
        r.push(*k);
        assert(r@ =~= it.seq().take(it.index() + 1).map_values(|x: &u128| *x));
    }
    assert(all.take(all.len() as int) =~= all);
    assert(r@ =~= all.map_values(|x: &u128| *x));
    assert(r@ =~= all.unref());
    r
}

/// Removes expired messages at time `now` from each room's list, by that
/// room's expiry policy. Returns whether any message was removed.
pub fn remove_expired_messages_at(
    rooms: &HashMap<u128, Room>,
    room_messages: &mut HashMap<u128, Vec<DisplayMessage>>,
    now: i64,
) -> (removed: bool)
    ensures
        lists_view(final(room_messages)@) == expire_messages_spec(
            rooms@,
            old(room_messages)@,
            now,
        ),
        removed == exists|g: u128|
            #[trigger] old(room_messages)@.contains_key(g) && expire_messages_spec(
                rooms@,
                old(room_messages)@,
                now,
            )[g].len() < old(room_messages)@[g]@.len(),
{
    let ghost start = room_messages@;
    let ghost target = expire_messages_spec(rooms@, start, now);
    let keys = keys_of(rooms);
    let mut any_removed = false;
    let mut i: usize = 0;
    while i < keys.len()
        invariant
            i <= keys@.len(),
            keys@.to_set() == rooms@.dom(),
            keys@.no_duplicates(),
            target == expire_messages_spec(rooms@, start, now),
            room_messages@.dom() == start.dom(),
            forall|g: u128|
                #[trigger] start.contains_key(g) ==> {
                    if keys@.take(i as int).contains(g) {
                        room_messages@[g]@ == target[g]
                    } else {
                        room_messages@[g] == start[g]
                    }
                },
            any_removed == exists|g: u128|
                #[trigger] start.contains_key(g) && keys@.take(i as int).contains(g)
                    && target[g].len() < start[g]@.len(),
        decreases keys@.len() - i,
    {
        let g = keys[i];
        assert(keys@.take(i + 1) =~= keys@.take(i as int).push(g));
        assert(!keys@.take(i as int).contains(g)) by {
            if keys@.take(i as int).contains(g) {
                let k = choose|k: int| 0 <= k < i && #[trigger] keys@.take(i as int)[k] == g;
                assert(keys@[k] == keys@[i as int]);
            }
        }
        assert(rooms@.dom().contains(g)) by {
            assert(keys@.contains(g));
        }
        let ghost old_rm = room_messages@;
        let ghost old_any = any_removed;
        let room = rooms.get(&g).unwrap();
        assert(*room == rooms@[g]);
        let expiry = room.message_expiry_seconds;
        let cutoff_opt: Option<i64> = if expiry > 0 {
            now.checked_sub(expiry)
        } else {
            None
        };
        assert(cutoff_opt == expiry_cutoff(rooms@[g], now));
        if let Some(cutoff) = cutoff_opt {
            if room_messages.contains_key(&g) {
                let msgs = room_messages.remove(&g).unwrap();
                assert(msgs == start[g]);
                let ghost old_list = msgs@;
                let before = msgs.len();
                let kept = retain_messages(msgs, cutoff);
                proof {
                    lemma_retain_len(old_list, cutoff);
                }
                if kept.len() < before {
                    any_removed = true;
                }
                room_messages.insert(g, kept);
            }
        }
        proof {
            assert forall|h: u128| #[trigger] keys@.take(i + 1).contains(h) <==> (keys@.take(
                i as int,
            ).contains(h) || h == g) by {
                if keys@.take(i + 1).contains(h) && h != g {
                    let k = choose|k: int| 0 <= k < i + 1 && #[trigger] keys@.take(i + 1)[k] == h;
                    assert(keys@.take(i as int)[k] == h);
                }
                if keys@.take(i as int).contains(h) {
                    let k = choose|k: int| 0 <= k < i && #[trigger] keys@.take(i as int)[k] == h;
                    assert(keys@.take(i + 1)[k] == h);
                }
                if h == g {
                    assert(keys@.take(i + 1)[i as int] == g);
                }
            }
            assert(room_messages@.dom() =~= start.dom());
            assert forall|h: u128| #[trigger] start.contains_key(h) && h != g implies room_messages@[h] == old_rm[h] by {}
            if start.contains_key(g) {
                assert(room_messages@[g]@ == target[g]);
            }
            assert(any_removed == (old_any || (start.contains_key(g) && target[g].len()
                < start[g]@.len())));
            if any_removed && !old_any {
                assert(start.contains_key(g) && keys@.take(i + 1).contains(g) && target[g].len()
                    < start[g]@.len());
            }
        }
        i = i + 1;
    }
    proof {
        assert(keys@.take(keys@.len() as int) =~= keys@);
        assert forall|g: u128| #[trigger] start.contains_key(g) && !rooms@.contains_key(g) implies target[g] == start[g]@ by {}
        assert(lists_view(room_messages@) =~= target);
    }
    any_removed
}

/// Removes expired messages from each room's list by that room's expiry
/// policy, at the current time. Returns whether any message was removed.
pub fn remove_expired_messages(
    rooms: &HashMap<u128, Room>,
    room_messages: &mut HashMap<u128, Vec<DisplayMessage>>,
) -> (removed: bool)
    ensures
        exists|now: i64|
            {
                &&& lists_view(final(room_messages)@) == expire_messages_spec(
                    rooms@,
                    old(room_messages)@,
                    now,
                )
                &&& removed == exists|g: u128|
                    #[trigger] old(room_messages)@.contains_key(g) && expire_messages_spec(
                        rooms@,
                        old(room_messages)@,
                        now,
                    )[g].len() < old(room_messages)@[g]@.len()
            },
{
    let now = current_timestamp();
    remove_expired_messages_at(rooms, room_messages, now)
}

/// Whether some room has a positive message expiry, so that periodic expiry
/// cleanup is needed.
pub fn has_expiring_rooms(rooms: &HashMap<u128, Room>) -> (r: bool)
    ensures
        r == exists|g: u128|
            #[trigger] rooms@.contains_key(g) && rooms@[g].message_expiry_seconds > 0,
{
    let keys = keys_of(rooms);
    let mut i: usize = 0;
    while i < keys.len()
        invariant
            i <= keys@.len(),
            keys@.to_set() == rooms@.dom(),
            forall|j: int| 0 <= j < i ==> rooms@[#[trigger] keys@[j]].message_expiry_seconds <= 0,
        decreases keys@.len() - i,
    {
        let g = keys[i];
        assert(keys@.contains(g));
        let room = rooms.get(&g).unwrap();
        if room.message_expiry_seconds > 0 {
            return true;
        }
        i = i + 1;
    }
    assert forall|g: u128| #[trigger] rooms@.contains_key(g) implies rooms@[g].message_expiry_seconds
        <= 0 by {
        assert(keys@.to_set().contains(g));
        let j = choose|j: int| 0 <= j < keys@.len() && #[trigger] keys@[j] == g;
    }
    false
}

/// Expiry never touches system messages and never adds a message: every
/// list after expiry is the subsequence of the old list that keeps its
/// system messages.
pub proof fn lemma_expiry_keeps_system_messages(msgs: Seq<DisplayMessage>, cutoff: i64, i: int)
    requires
        0 <= i < msgs.len(),
        msgs[i].is_system || msgs[i].timestamp >= cutoff,
    ensures
        retain_unexpired(msgs, cutoff).contains(msgs[i]),
    decreases msgs.len(),
{
    let r = retain_unexpired(msgs, cutoff);
    if i == msgs.len() - 1 {
        assert(r[r.len() - 1] == msgs[i]);
    } else {
        assert(msgs.drop_last()[i] == msgs[i]);
        lemma_expiry_keeps_system_messages(msgs.drop_last(), cutoff, i);
        let rest = retain_unexpired(msgs.drop_last(), cutoff);
        let k = choose|k: int| 0 <= k < rest.len() && rest[k] == msgs[i];
        if msgs.last().is_system || msgs.last().timestamp >= cutoff {
            assert(r[k] == msgs[i]);
        }
    }
}

/// Expiry removes exactly the non-system messages older than the cutoff.
pub proof fn lemma_expiry_removes_only_old(msgs: Seq<DisplayMessage>, cutoff: i64)
    ensures
        forall|k: int|
            0 <= k < retain_unexpired(msgs, cutoff).len() ==> {
                let m = #[trigger] retain_unexpired(msgs, cutoff)[k];
                m.is_system || m.timestamp >= cutoff
            },
    decreases msgs.len(),
{
    if msgs.len() > 0 {
        lemma_expiry_removes_only_old(msgs.drop_last(), cutoff);
        let rest = retain_unexpired(msgs.drop_last(), cutoff);
        assert forall|k: int| 0 <= k < retain_unexpired(msgs, cutoff).len() implies {
            let m = #[trigger] retain_unexpired(msgs, cutoff)[k];
            m.is_system || m.timestamp >= cutoff
        } by {
            if k < rest.len() {
                assert(retain_unexpired(msgs, cutoff)[k] == rest[k]);
            }
        }
    }
}

// ── Stored history ────────────────────────────────────────────────────

/// A message as a row of the local history: the sender's ID as text (empty
/// for none), and zero for a missing sequence number or epoch.
pub struct StoredRow {
    pub sender: String,
    pub content: String,
    pub timestamp: i64,
    pub is_system: bool,
    pub sender_id: String,
    pub sequence_num: u64,
    pub epoch: u64,
}

/// The row that stores a message.
pub fn message_row(msg: &DisplayMessage) -> (r: StoredRow)
    ensures
        r.sender@ == msg.sender@,
        r.content@ == msg.content@,
        r.timestamp == msg.timestamp,
        r.is_system == msg.is_system,
        r.sender_id@ == match msg.sender_id {
            Some(id) => crate::ids::uuid_text_spec(id),
            None => Seq::<char>::empty(),
        },
        r.sequence_num == match msg.sequence_num {
            Some(n) => n,
            None => 0,
        },
        r.epoch == match msg.epoch {
            Some(n) => n,
            None => 0,
        },
{
    StoredRow {
        sender: owned(msg.sender.as_str()),
        content: owned(msg.content.as_str()),
        timestamp: msg.timestamp,
        is_system: msg.is_system,
        sender_id: match msg.sender_id {
            Some(id) => crate::ids::uuid_to_string(id),
            None => String::new(),
        },
        sequence_num: match msg.sequence_num {
            Some(n) => n,
            None => 0,
        },
        epoch: match msg.epoch {
            Some(n) => n,
            None => 0,
        },
    }
}

/// The message a stored row holds: an empty or unreadable sender ID is no
/// sender, and zero is no sequence number or epoch.
pub fn message_from_row(row: &StoredRow) -> (m: DisplayMessage)
    ensures
        m.sender@ == row.sender@,
        m.content@ == row.content@,
        m.timestamp == row.timestamp,
        m.is_system == row.is_system,
        m.sender_id == (if row.sender_id@.len() == 0 {
            None
        } else {
            crate::ids::uuid_parse_spec(row.sender_id@)
        }),
        m.sequence_num == (if row.sequence_num == 0 {
            None
        } else {
            Some(row.sequence_num)
        }),
        m.epoch == (if row.epoch == 0 {
            None
        } else {
            Some(row.epoch)
        }),
{
    DisplayMessage {
        sender_id: if row.sender_id.as_str().is_empty() {
            None
        } else {
            crate::ids::parse_uuid(row.sender_id.as_str())
        },
        sender: owned(row.sender.as_str()),
        content: owned(row.content.as_str()),
        timestamp: row.timestamp,
        sequence_num: if row.sequence_num == 0 {
            None
        } else {
            Some(row.sequence_num)
        },
        epoch: if row.epoch == 0 {
            None
        } else {
            Some(row.epoch)
        },
        is_system: row.is_system,
    }
}

/// Storing a message and reading it back gives the same message, except
/// that a sequence number or epoch of zero reads back as none.
pub proof fn lemma_row_roundtrip(msg: DisplayMessage, row: StoredRow, back: DisplayMessage)
    requires
        row.sender@ == msg.sender@,
        row.content@ == msg.content@,
        row.timestamp == msg.timestamp,
        row.is_system == msg.is_system,
        row.sender_id@ == match msg.sender_id {
            Some(id) => crate::ids::uuid_text_spec(id),
            None => Seq::<char>::empty(),
        },
        row.sequence_num == match msg.sequence_num {
            Some(n) => n,
            None => 0,
        },
        row.epoch == match msg.epoch {
            Some(n) => n,
            None => 0,
        },
        back.sender@ == row.sender@,
        back.content@ == row.content@,
        back.timestamp == row.timestamp,
        back.is_system == row.is_system,
        back.sender_id == (if row.sender_id@.len() == 0 {
            None
        } else {
            crate::ids::uuid_parse_spec(row.sender_id@)
        }),
        back.sequence_num == (if row.sequence_num == 0 {
            None
        } else {
            Some(row.sequence_num)
        }),
        back.epoch == (if row.epoch == 0 {
            None
        } else {
            Some(row.epoch)
        }),
        msg.sequence_num != Some(0u64),
        msg.epoch != Some(0u64),
    ensures
        back.sender_id == msg.sender_id,
        back.sender@ == msg.sender@,
        back.content@ == msg.content@,
        back.timestamp == msg.timestamp,
        back.is_system == msg.is_system,
        back.sequence_num == msg.sequence_num,
        back.epoch == msg.epoch,
{
    if let Some(id) = msg.sender_id {
        crate::ids::lemma_uuid_text_parses(id);
    }
}

/// Which stored messages of a room its expiry policy removes.
#[derive(Debug, Clone, Copy, PartialEq, Eq, Structural)]
pub enum CleanupRule {
    /// Nothing is removed.
    Keep,
    /// Every message that is not a system message is removed.
    AllUserMessages,
    /// Messages that are not system messages and are older than the
    /// cutoff are removed.
    OlderThan(i64),
}

/// The cleanup of a room's stored history at time `now`: fetch-then-delete
/// rooms keep no user message, rooms with a positive expiry keep those not
/// older than it, and other rooms keep everything.
pub fn local_cleanup_rule(expiry_seconds: i64, now: i64) -> (r: CleanupRule)
    requires
        expiry_seconds > 0 ==> now - expiry_seconds >= i64::MIN,
    ensures
        r == (if expiry_seconds == 0 {
            CleanupRule::AllUserMessages
        } else if expiry_seconds > 0 {
            CleanupRule::OlderThan((now - expiry_seconds) as i64)
        } else {
            CleanupRule::Keep
        }),
{
    if expiry_seconds == 0 {
        CleanupRule::AllUserMessages
    } else if expiry_seconds > 0 {
        CleanupRule::OlderThan(now - expiry_seconds)
    } else {
        CleanupRule::Keep
    }
}

} // verus!
