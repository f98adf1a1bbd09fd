//! Results of client operations against the server and the MLS layer, and
//! the classification of decrypted messages for display.

use std::collections::HashMap;

use vstd::prelude::*;

use crate::error::{error_message_spec, Error};
use crate::ids::{uuid_text_spec, uuid_to_string};
use crate::state::{
    find_member, member_display_name_spec, room_display_name_spec, RoomMember,
};
use crate::text::{chars_of, decimal_spec, owned, push_all, push_str, str_eq, string_from_chars, u64_to_chars};

verus! {

/// Information about a room loaded from the server.
#[derive(Debug, Clone)]
pub struct RoomInfo {
    pub group_id: u128,
    pub group_name: String,
    pub alias: Option<String>,
    pub members: Vec<MemberInfo>,
    pub mls_group_id: Option<String>,
    pub message_expiry_seconds: i64,
}

/// The name shown for a room: the alias when set and non-empty, otherwise
/// the group name.
pub open spec fn room_info_display_name_spec(r: RoomInfo) -> Seq<char> {
    match r.alias {
        Some(a) => if a@.len() > 0 {
            a@
        } else {
            r.group_name@
        },
        None => r.group_name@,
    }
}

impl RoomInfo {
    /// Display name: alias if set, otherwise the group name.
    pub fn display_name(&self) -> (r: String)
        ensures
            r@ == room_info_display_name_spec(*self),
    {
        if let Some(alias) = &self.alias {
            if !alias.as_str().is_empty() {
                return owned(alias.as_str());
            }
        }
        owned(self.group_name.as_str())
    }
}

/// Information about a group member from the server.
#[derive(Debug, Clone)]
pub struct MemberInfo {
    pub user_id: u128,
    pub username: String,
    pub alias: Option<String>,
    pub role: String,
    pub signing_key_fingerprint: Option<String>,
}

/// The name shown for a member: the alias when set and non-empty, otherwise
/// the username.
pub open spec fn member_info_display_name_spec(m: MemberInfo) -> Seq<char> {
    match m.alias {
        Some(a) => if a@.len() > 0 {
            a@
        } else {
            m.username@
        },
        None => m.username@,
    }
}

/// A copy of an optional string.
fn copy_opt(o: &Option<String>) -> (r: Option<String>)
    ensures
        match (*o, r) {
            (Some(a), Some(b)) => a@ == b@,
            (None, None) => true,
            _ => false,
        },
{
    match o {
        Some(s) => Some(owned(s.as_str())),
        None => None,
    }
}

impl MemberInfo {
    /// Display name: alias if set, otherwise the username.
    pub fn display_name(&self) -> (r: &str)
        ensures
            r@ == member_info_display_name_spec(*self),
    {
        match &self.alias {
            Some(a) => {
                if a.as_str().is_empty() {
                    self.username.as_str()
                } else {
                    a.as_str()
                }
            },
            None => self.username.as_str(),
        }
    }

    /// The room member with the same identity, names, role and fingerprint.
    pub fn to_room_member(&self) -> (m: RoomMember)
        ensures
            m.user_id == self.user_id,
            m.username@ == self.username@,
            m.role@ == self.role@,
            match (self.alias, m.alias) {
                (Some(a), Some(b)) => a@ == b@,
                (None, None) => true,
                _ => false,
            },
            match (self.signing_key_fingerprint, m.signing_key_fingerprint) {
                (Some(a), Some(b)) => a@ == b@,
                (None, None) => true,
                _ => false,
            },
            member_display_name_spec(m) == member_info_display_name_spec(*self),
    {
        RoomMember {
            user_id: self.user_id,
            username: owned(self.username.as_str()),
            alias: copy_opt(&self.alias),
            role: owned(self.role.as_str()),
            signing_key_fingerprint: copy_opt(&self.signing_key_fingerprint),
        }
    }
}

/// A decrypted and classified message ready for display.
#[derive(Debug, Clone)]
pub struct ProcessedMessage {
    /// Sender's user ID (`None` for system messages).
    pub sender_id: Option<u128>,
    /// Fallback display name (alias or username at fetch time).
    pub sender: String,
    pub content: String,
    pub timestamp: i64,
    pub sequence_num: u64,
    /// MLS epoch after processing this message.
    pub epoch: u64,
    pub is_system: bool,
}

impl ProcessedMessage {
    /// A system message with the given content, time, sequence number and
    /// epoch.
    pub fn system(content: String, timestamp: i64, sequence_num: u64, epoch: u64) -> (m: Self)
        ensures
            m.sender_id is None,
            m.sender@ == Seq::<char>::empty(),
            m.content == content,
            m.timestamp == timestamp,
            m.sequence_num == sequence_num,
            m.epoch == epoch,
            m.is_system,
    {
        ProcessedMessage {
            sender_id: None,
            sender: String::new(),
            content,
            timestamp,
            sequence_num,
            epoch,
            is_system: true,
        }
    }
}

/// Result of fetching and decrypting the messages of a group.
#[derive(Debug, Clone)]
pub struct FetchedMessages {
    pub group_id: u128,
    pub messages: Vec<ProcessedMessage>,
}

/// Result of creating a group.
#[derive(Debug, Clone)]
pub struct GroupCreatedResult {
    pub server_group_id: u128,
    pub mls_group_id: String,
}

/// Result of joining a group through an invitation.
#[derive(Debug, Clone)]
pub struct WelcomeJoinResult {
    pub group_id: u128,
    pub group_alias: Option<String>,
    pub mls_group_id: String,
}

/// Result of sending a message.
#[derive(Debug, Clone)]
pub struct MessageSentResult {
    pub group_id: u128,
    pub sequence_num: u64,
    /// MLS epoch at the time the message was sent.
    pub epoch: u64,
}

/// Result of an account reset.
#[derive(Debug, Clone)]
pub struct ResetResult {
    pub new_group_mapping: HashMap<u128, String>,
    pub rejoin_count: usize,
    pub total_groups: usize,
    pub errors: Vec<String>,
}

/// A server event received over the event stream.
#[derive(Debug, Clone)]
pub enum SseEvent {
    NewMessage { group_id: u128 },
    Welcome { group_id: u128, group_alias: String },
    GroupUpdate { group_id: u128, update_type: String },
    MemberRemoved { group_id: u128, removed_user_id: u128 },
    IdentityReset { group_id: u128, user_id: u128 },
    InviteReceived {
        invite_id: u128,
        group_id: u128,
        group_name: String,
        group_alias: String,
        inviter_id: u128,
    },
    InviteDeclined { group_id: u128, declined_user_id: u128 },
    InviteCancelled { group_id: u128 },
    GroupDeleted { group_id: u128 },
}

/// The name shown for a user: the display name of the first member with the
/// ID, `user#<uuid>` for an unknown ID, and `<unknown>` without an ID.
pub open spec fn user_display_name_spec(user_id: Option<u128>, members: Seq<RoomMember>) -> Seq<
    char,
> {
    match user_id {
        Some(uid) => if exists|i: int| 0 <= i < members.len() && (#[trigger] members[i]).user_id == uid {
            member_display_name_spec(
                members[choose|i: int|
                    0 <= i < members.len() && (#[trigger] members[i]).user_id == uid
                        && forall|j: int| 0 <= j < i ==> (#[trigger] members[j]).user_id != uid],
            )
        } else {
            "user#"@ + uuid_text_spec(uid)
        },
        None => "<unknown>"@,
    }
}

/// Resolves a user ID to a display name using the room member list, falling
/// back to the ID itself.
pub fn resolve_user_display_name(user_id: Option<u128>, members: &[RoomMember]) -> (r: String)
    ensures
        r@ == user_display_name_spec(user_id, members@),
{
    match user_id {
        Some(uid) => {
            if let Some(i) = find_member(members, uid) {
                proof {
                    crate::state::lemma_first_member_unique(members@, uid, i as int);
                }
                owned(members[i].display_name())
            } else {
                let mut out: Vec<char> = Vec::new();
                push_str(&mut out, "user#");
                let id = uuid_to_string(uid);
                push_str(&mut out, id.as_str());
                string_from_chars(out.as_slice())
            }
        },
        None => owned("<unknown>"),
    }
}

/// Roster changes of an MLS commit.
pub struct CommitInfo {
    pub members_added: Vec<String>,
    pub members_removed: Vec<String>,
    pub self_removed: bool,
}

/// What decrypting an incoming MLS message yields.
pub enum DecryptedMessage {
    /// An application message with its plaintext bytes.
    Application(Vec<u8>),
    /// A processed commit, with its roster changes.
    Commit(CommitInfo),
    /// Other MLS message types (proposals and the like) with no visible
    /// content.
    NoContent,
}

/// MLS group details for display.
pub struct GroupDetails {
    pub epoch: u64,
    pub cipher_suite: String,
    pub member_count: usize,
    pub own_index: u32,
    pub members: Vec<(u32, String)>,
}

/// The texts of the system messages that announce a commit: one per added
/// member, one per removed member, one when this user was removed, and a
/// key update notice when the commit changed nothing else.
pub open spec fn commit_texts_spec(
    added: Seq<Seq<char>>,
    removed: Seq<Seq<char>>,
    self_removed: bool,
) -> Seq<Seq<char>> {
    added.map_values(|n: Seq<char>| n + " joined the group"@) + removed.map_values(
        |n: Seq<char>| n + " was removed from the group"@,
    ) + (if self_removed {
        seq!["You were removed from this group"@]
    } else {
        Seq::<Seq<char>>::empty()
    }) + (if added.len() == 0 && removed.len() == 0 && !self_removed {
        seq!["Group keys updated"@]
    } else {
        Seq::<Seq<char>>::empty()
    })
}

/// The contents of messages.
pub open spec fn contents_view(m: Seq<ProcessedMessage>) -> Seq<Seq<char>> {
    m.map_values(|p: ProcessedMessage| p.content@)
}

/// Appends the system messages that announce a commit, all stamped with the
/// given time, sequence number and epoch.
pub fn process_commit_info(
    commit_info: &CommitInfo,
    timestamp: i64,
    sequence_num: u64,
    epoch: u64,
    messages: &mut Vec<ProcessedMessage>,
)
    ensures
        final(messages)@.len() >= old(messages)@.len(),
        final(messages)@.take(old(messages)@.len() as int) == old(messages)@,
        contents_view(final(messages)@.skip(old(messages)@.len() as int)) == commit_texts_spec(
            crate::command::strings_view(commit_info.members_added@),
            crate::command::strings_view(commit_info.members_removed@),
            commit_info.self_removed,
        ),
        forall|k: int|
            old(messages)@.len() <= k < final(messages)@.len() ==> {
                let m = #[trigger] final(messages)@[k];
                &&& m.is_system
                &&& m.sender_id is None
                &&& m.timestamp == timestamp
                &&& m.sequence_num == sequence_num
                &&& m.epoch == epoch
            },
{
    let ghost start = messages@;
    let ghost added = crate::command::strings_view(commit_info.members_added@);
    let ghost removed = crate::command::strings_view(commit_info.members_removed@);
    let ghost part1 = added.map_values(|n: Seq<char>| n + " joined the group"@);
    let ghost part2 = removed.map_values(|n: Seq<char>| n + " was removed from the group"@);
    let mut i: usize = 0;
    while i < commit_info.members_added.len()
        invariant
            i <= commit_info.members_added@.len(),
            added == crate::command::strings_view(commit_info.members_added@),
            part1 == added.map_values(|n: Seq<char>| n + " joined the group"@),
            messages@.len() == start.len() + i,
            messages@.take(start.len() as int) == start,
            contents_view(messages@.skip(start.len() as int)) == part1.take(i as int),
            forall|k: int|
                start.len() <= k < messages@.len() ==> {
                    let m = #[trigger] messages@[k];
                    &&& m.is_system
                    &&& m.sender_id is None
                    &&& m.timestamp == timestamp
                    &&& m.sequence_num == sequence_num
                    &&& m.epoch == epoch
                },
        decreases commit_info.members_added@.len() - i,
    {
        let mut t = chars_of(commit_info.members_added[i].as_str());
        push_str(&mut t, " joined the group");
        let ghost before = messages@;
        messages.push(ProcessedMessage::system(string_from_chars(t.as_slice()), timestamp, sequence_num, epoch));
        proof {
            assert(messages@.take(start.len() as int) =~= start);
            assert(messages@.skip(start.len() as int) =~= before.skip(start.len() as int).push(
                messages@.last(),
            ));
            assert(messages@.last().content@ == part1[i as int]);
            assert(contents_view(messages@.skip(start.len() as int)) =~= contents_view(
                before.skip(start.len() as int),
            ).push(part1[i as int]));
            assert(part1.take(i + 1) =~= part1.take(i as int).push(part1[i as int]));
        }
        i = i + 1;
    }
    assert(part1.take(part1.len() as int) =~= part1);
    let ghost after1 = messages@;
    let mut j: usize = 0;
    while j < commit_info.members_removed.len()
        invariant
            j <= commit_info.members_removed@.len(),
            removed == crate::command::strings_view(commit_info.members_removed@),
            part2 == removed.map_values(|n: Seq<char>| n + " was removed from the group"@),
            after1.len() == start.len() + part1.len(),
            contents_view(after1.skip(start.len() as int)) == part1,
            messages@.len() == after1.len() + j,
            messages@.take(after1.len() as int) == after1,
            after1.take(start.len() as int) == start,
            contents_view(messages@.skip(after1.len() as int)) == part2.take(j as int),
            forall|k: int|
                start.len() <= k < messages@.len() ==> {
                    let m = #[trigger] messages@[k];
                    &&& m.is_system
                    &&& m.sender_id is None
                    &&& m.timestamp == timestamp
                    &&& m.sequence_num == sequence_num
                    &&& m.epoch == epoch
                },
        decreases commit_info.members_removed@.len() - j,
    {
        let mut t = chars_of(commit_info.members_removed[j].as_str());
        push_str(&mut t, " was removed from the group");
        let ghost before = messages@;
        messages.push(ProcessedMessage::system(string_from_chars(t.as_slice()), timestamp, sequence_num, epoch));
        proof {
            assert(messages@.take(after1.len() as int) =~= after1);
            assert(messages@.skip(after1.len() as int) =~= before.skip(after1.len() as int).push(
                messages@.last(),
            ));
            assert(messages@.last().content@ == part2[j as int]);
            assert(contents_view(messages@.skip(after1.len() as int)) =~= contents_view(
                before.skip(after1.len() as int),
            ).push(part2[j as int]));
            assert(part2.take(j + 1) =~= part2.take(j as int).push(part2[j as int]));
        }
        j = j + 1;
    }
    assert(part2.take(part2.len() as int) =~= part2);
    let ghost after2 = messages@;
    if commit_info.self_removed {
        messages.push(
            ProcessedMessage::system(owned("You were removed from this group"), timestamp, sequence_num, epoch),
        );
    }
    let ghost after3 = messages@;
    if commit_info.members_added.len() == 0 && commit_info.members_removed.len() == 0
        && !commit_info.self_removed {
        messages.push(ProcessedMessage::system(owned("Group keys updated"), timestamp, sequence_num, epoch));
    }
    proof {
        let tail = messages@.skip(start.len() as int);
        assert(messages@.take(start.len() as int) =~= start) by {
            assert(messages@.take(start.len() as int) =~= after1.take(start.len() as int));
        }
        assert(after2.skip(start.len() as int) =~= after1.skip(start.len() as int) + after2.skip(
            after1.len() as int,
        ));
        assert(contents_view(after2.skip(start.len() as int)) =~= part1 + part2);
        assert(contents_view(tail) =~= commit_texts_spec(
            added,
            removed,
            commit_info.self_removed,
        ));
    }
}

/// What `String::from_utf8_lossy` makes of a byte sequence.
pub uninterp spec fn spec_utf8_lossy(bytes: Seq<u8>) -> Seq<char>;

/// `String::from_utf8_lossy`: the text of the bytes, with each invalid
/// sequence replaced by U+FFFD. Stated: valid UTF-8 decodes to its
/// characters; otherwise the result is the named lossy decoding.
#[verifier::external_body]
fn utf8_lossy(bytes: &[u8]) -> (r: String)
    ensures
        r@ == spec_utf8_lossy(bytes@),
        vstd::utf8::valid_utf8(bytes@) ==> r@ == vstd::utf8::decode_utf8(bytes@),
{
    String::from_utf8_lossy(bytes).to_string()
}

/// The text of a decrypted plaintext, as `String::from_utf8_lossy` gives it.
pub fn plaintext_text(bytes: &[u8]) -> (r: String)
    ensures
        r@ == spec_utf8_lossy(bytes@),
        vstd::utf8::valid_utf8(bytes@) ==> r@ == vstd::utf8::decode_utf8(bytes@),
{
    utf8_lossy(bytes)
}

/// The user name that a credential carries: the text of the identifier of a
/// basic credential, `<unknown>` for any other kind (`None`).
pub open spec fn credential_name(identifier: Option<Seq<u8>>) -> Seq<char> {
    match identifier {
        Some(b) => spec_utf8_lossy(b),
        None => "<unknown>"@,
    }
}

/// The identifier of a member's credential as a sequence of bytes.
pub open spec fn identifier_view(identifier: Option<Vec<u8>>) -> Option<Seq<u8>> {
    match identifier {
        Some(b) => Some(b@),
        None => None,
    }
}

/// The user name that a member's credential carries: the text of the
/// identifier of a basic credential (`None` for any other kind of
/// credential), or `<unknown>`.
pub fn username_from_identifier(identifier: Option<&[u8]>) -> (r: String)
    ensures
        match identifier {
            Some(b) => {
                &&& r@ == credential_name(Some(b@))
                &&& vstd::utf8::valid_utf8(b@) ==> r@ == vstd::utf8::decode_utf8(b@)
            },
            None => r@ == credential_name(None),
        },
{
    match identifier {
        Some(b) => utf8_lossy(b),
        None => owned("<unknown>"),
    }
}

/// A member of an MLS group's roster: their leaf index and the identifier
/// of their credential (`None` where it is not a basic credential).
pub struct RosterEntry {
    pub index: u32,
    pub identifier: Option<Vec<u8>>,
}

/// The name of a roster entry.
pub open spec fn entry_name(e: RosterEntry) -> Seq<char> {
    credential_name(identifier_view(e.identifier))
}

/// The name of a roster entry, computed.
fn entry_username(e: &RosterEntry) -> (r: String)
    ensures
        r@ == entry_name(*e),
{
    match &e.identifier {
        Some(b) => username_from_identifier(Some(b.as_slice())),
        None => username_from_identifier(None),
    }
}

/// The leaf index of the first member of the roster whose credential names
/// the given user, if any does.
pub fn member_index_by_name(roster: &[RosterEntry], username: &str) -> (r: Option<u32>)
    ensures
        match r {
            Some(i) => exists|k: int|
                0 <= k < roster@.len() && #[trigger] entry_name(roster@[k]) == username@
                    && roster@[k].index == i && forall|j: int|
                    0 <= j < k ==> entry_name(#[trigger] roster@[j]) != username@,
            None => forall|k: int|
                0 <= k < roster@.len() ==> entry_name(#[trigger] roster@[k]) != username@,
        },
{
    let mut k: usize = 0;
    while k < roster.len()
        invariant
            k <= roster@.len(),
            forall|j: int| 0 <= j < k ==> entry_name(#[trigger] roster@[j]) != username@,
        decreases roster@.len() - k,
    {
        let name = entry_username(&roster[k]);
        if str_eq(name.as_str(), username) {
            assert(entry_name(roster@[k as int]) == username@);
            return Some(roster[k].index);
        }
        k = k + 1;
    }
    None
}

/// The members of a roster with their names, in roster order.
pub open spec fn roster_members_spec(roster: Seq<RosterEntry>) -> Seq<(u32, Seq<char>)> {
    roster.map_values(|e: RosterEntry| (e.index, entry_name(e)))
}

/// The details of a group shown to the user: its epoch, cipher suite, this
/// member's leaf index, and each member of the roster with their name.
pub fn group_details(
    epoch: u64,
    cipher_suite: String,
    own_index: u32,
    roster: &[RosterEntry],
) -> (r: GroupDetails)
    ensures
        r.epoch == epoch,
        r.cipher_suite@ == cipher_suite@,
        r.own_index == own_index,
        r.member_count == roster@.len(),
        r.members@.len() == roster@.len(),
        forall|k: int|
            0 <= k < roster@.len() ==> (#[trigger] r.members@[k]).0 == roster@[k].index
                && r.members@[k].1@ == entry_name(roster@[k]),
{
    let mut members: Vec<(u32, String)> = Vec::new();
    let mut k: usize = 0;
    while k < roster.len()
        invariant
            k <= roster@.len(),
            members@.len() == k,
            forall|j: int|
                0 <= j < k ==> (#[trigger] members@[j]).0 == roster@[j].index
                    && members@[j].1@ == entry_name(roster@[j]),
        decreases roster@.len() - k,
    {
        let name = entry_username(&roster[k]);
        members.push((roster[k].index, name));
        k = k + 1;
    }
    GroupDetails { epoch, cipher_suite, member_count: members.len(), own_index, members }
}

/// What processing an incoming MLS message gave, as plain values: the data
/// of an application message, the effect and applied proposals of a commit,
/// or another kind of message.
pub enum Received {
    Application(Vec<u8>),
    Commit { effect: CommitEffectKind, proposals: Vec<AppliedProposal> },
    Other,
}

/// What a decrypted message shows, given what processing it gave: a message
/// that could not be processed (one from an earlier epoch, for instance) and
/// any kind other than an application message or a commit show nothing.
pub fn classify_received(r: Result<Received, ()>) -> (d: DecryptedMessage)
    ensures
        match r {
            Ok(Received::Application(data)) => d matches DecryptedMessage::Application(v) && v@
                == data@,
            Ok(Received::Commit { effect, proposals }) => d matches DecryptedMessage::Commit(c) && {
                &&& c.self_removed == (effect is Removed)
                &&& crate::command::strings_view(c.members_added@) == (if effect is Other {
                    Seq::<Seq<char>>::empty()
                } else {
                    added_names_spec(proposals@)
                })
                &&& crate::command::strings_view(c.members_removed@) == (if effect is Other {
                    Seq::<Seq<char>>::empty()
                } else {
                    removed_names_spec(proposals@)
                })
            },
            _ => d is NoContent,
        },
{
    match r {
        Ok(Received::Application(data)) => DecryptedMessage::Application(data),
        Ok(Received::Commit { effect, proposals }) => DecryptedMessage::Commit(
            commit_info(effect, proposals.as_slice()),
        ),
        _ => DecryptedMessage::NoContent,
    }
}

/// The welcome messages of a commit that added members, each paired with
/// the user it was made for: the members were added in the order given and
/// the commit yields one welcome per added member in that order; a member
/// without a welcome gets none.
pub fn pair_welcomes(usernames: &[String], welcomes: Vec<Vec<u8>>) -> (r: Vec<(String, Vec<u8>)>)
    ensures
        r@.len() == (if usernames@.len() <= welcomes@.len() {
            usernames@.len()
        } else {
            welcomes@.len()
        }),
        forall|i: int|
            0 <= i < r@.len() ==> (#[trigger] r@[i]).0@ == usernames@[i]@ && r@[i].1@
                == welcomes@[i]@,
{
    let mut out: Vec<(String, Vec<u8>)> = Vec::new();
    let mut i: usize = 0;
    while i < usernames.len() && i < welcomes.len()
        invariant
            i <= usernames@.len(),
            i <= welcomes@.len(),
            out@.len() == i,
            forall|j: int|
                0 <= j < i ==> (#[trigger] out@[j]).0@ == usernames@[j]@ && out@[j].1@
                    == welcomes@[j]@,
        decreases usernames@.len() - i,
    {
        let name = owned(usernames[i].as_str());
        let bytes = welcomes[i].clone();
        out.push((name, bytes));
        i = i + 1;
    }
    out
}

/// How a processed commit left this member: in a new epoch, removed from the
/// group (with the group's new epoch), or neither.
pub enum CommitEffectKind {
    NewEpoch,
    Removed,
    Other,
}

/// A proposal that a commit applied, as far as the roster goes: a member
/// added with the identifier of their credential, a leaf removed by index,
/// or any other kind.
pub enum AppliedProposal {
    Add(Option<Vec<u8>>),
    Remove(u32),
    Other,
}

/// The names of the members that the proposals add, in order.
pub open spec fn added_names_spec(p: Seq<AppliedProposal>) -> Seq<Seq<char>>
    decreases p.len(),
{
    if p.len() == 0 {
        Seq::empty()
    } else {
        added_names_spec(p.drop_last()) + match p.last() {
            AppliedProposal::Add(id) => seq![credential_name(identifier_view(id))],
            _ => Seq::empty(),
        }
    }
}

/// The removed leaves, each as `#` and its index, in order.
pub open spec fn removed_names_spec(p: Seq<AppliedProposal>) -> Seq<Seq<char>>
    decreases p.len(),
{
    if p.len() == 0 {
        Seq::empty()
    } else {
        removed_names_spec(p.drop_last()) + match p.last() {
            AppliedProposal::Remove(i) => seq!["#"@ + decimal_spec(i as nat)],
            _ => Seq::empty(),
        }
    }
}

/// The roster changes of a processed commit: the proposals it applied count
/// only where the commit led to a new epoch or removed this member.
pub fn commit_info(effect: CommitEffectKind, proposals: &[AppliedProposal]) -> (r: CommitInfo)
    ensures
        r.self_removed == (effect is Removed),
        crate::command::strings_view(r.members_added@) == (if effect is Other {
            Seq::<Seq<char>>::empty()
        } else {
            added_names_spec(proposals@)
        }),
        crate::command::strings_view(r.members_removed@) == (if effect is Other {
            Seq::<Seq<char>>::empty()
        } else {
            removed_names_spec(proposals@)
        }),
{
    let mut members_added: Vec<String> = Vec::new();
    let mut members_removed: Vec<String> = Vec::new();
    let self_removed = match effect {
        CommitEffectKind::Removed => true,
        _ => false,
    };
    let applies = match effect {
        CommitEffectKind::Other => false,
        _ => true,
    };
    if applies {
        let mut k: usize = 0;
        while k < proposals.len()
            invariant
                k <= proposals@.len(),
                crate::command::strings_view(members_added@) == added_names_spec(
                    proposals@.take(k as int),
                ),
                crate::command::strings_view(members_removed@) == removed_names_spec(
                    proposals@.take(k as int),
                ),
            decreases proposals@.len() - k,
        {
            proof {
                assert(proposals@.take(k + 1).drop_last() =~= proposals@.take(k as int));
            }
            match &proposals[k] {
                AppliedProposal::Add(id) => {
                    let name = match id {
                        Some(b) => username_from_identifier(Some(b.as_slice())),
                        None => username_from_identifier(None),
                    };
                    members_added.push(name);
                    assert(crate::command::strings_view(members_added@) =~= added_names_spec(
                        proposals@.take(k + 1),
                    ));
                    assert(crate::command::strings_view(members_removed@) =~= removed_names_spec(
                        proposals@.take(k + 1),
                    ));
                },
                AppliedProposal::Remove(i) => {
                    let mut out: Vec<char> = Vec::new();
                    push_str(&mut out, "#");
                    let digits = u64_to_chars(*i as u64);
                    push_all(&mut out, digits.as_slice());
                    members_removed.push(string_from_chars(out.as_slice()));
                    assert(crate::command::strings_view(members_added@) =~= added_names_spec(
                        proposals@.take(k + 1),
                    ));
                    assert(crate::command::strings_view(members_removed@) =~= removed_names_spec(
                        proposals@.take(k + 1),
                    ));
                },
                AppliedProposal::Other => {
                    assert(crate::command::strings_view(members_added@) =~= added_names_spec(
                        proposals@.take(k + 1),
                    ));
                    assert(crate::command::strings_view(members_removed@) =~= removed_names_spec(
                        proposals@.take(k + 1),
                    ));
                },
            }
            k = k + 1;
        }
        proof {
            assert(proposals@.take(proposals@.len() as int) =~= proposals@);
        }
    } else {
        assert(crate::command::strings_view(members_added@) =~= Seq::<Seq<char>>::empty());
        assert(crate::command::strings_view(members_removed@) =~= Seq::<Seq<char>>::empty());
    }
    CommitInfo { members_added, members_removed, self_removed }
}

/// The text of a message that could not be decrypted.
pub open spec fn decrypt_failure_text(sequence_num: u64, e: Error) -> Seq<char> {
    "Failed to decrypt message (seq "@ + decimal_spec(sequence_num as nat) + "): "@
        + error_message_spec(e)
}

/// Adds what a fetched message shows once decryption was tried: the
/// sender's text for an application message, the roster changes of a
/// commit, a notice for a message that failed to decrypt, and nothing for
/// other MLS messages.
pub fn record_decrypted(
    decrypted: &Result<DecryptedMessage, Error>,
    sender_id: Option<u128>,
    created_at: i64,
    sequence_num: u64,
    epoch: u64,
    members: &[RoomMember],
    messages: &mut Vec<ProcessedMessage>,
)
    ensures
        final(messages)@.take(old(messages)@.len() as int) == old(messages)@,
        match decrypted {
            Ok(DecryptedMessage::Application(plaintext)) => {
                &&& final(messages)@.len() == old(messages)@.len() + 1
                &&& final(messages)@.last().sender_id == sender_id
                &&& final(messages)@.last().sender@ == user_display_name_spec(sender_id, members@)
                &&& final(messages)@.last().content@ == spec_utf8_lossy(plaintext@)
                &&& final(messages)@.last().timestamp == created_at
                &&& final(messages)@.last().sequence_num == sequence_num
                &&& final(messages)@.last().epoch == epoch
                &&& !final(messages)@.last().is_system
            },
            Ok(DecryptedMessage::Commit(c)) => {
                &&& final(messages)@.len() >= old(messages)@.len()
                &&& contents_view(final(messages)@.skip(old(messages)@.len() as int))
                    == commit_texts_spec(
                    crate::command::strings_view(c.members_added@),
                    crate::command::strings_view(c.members_removed@),
                    c.self_removed,
                )
                &&& forall|k: int|
                    old(messages)@.len() <= k < final(messages)@.len() ==> {
                        let m = #[trigger] final(messages)@[k];
                        &&& m.is_system
                        &&& m.timestamp == created_at
                        &&& m.sequence_num == sequence_num
                        &&& m.epoch == epoch
                    }
            },
            Ok(DecryptedMessage::NoContent) => final(messages)@ == old(messages)@,
            Err(e) => {
                &&& final(messages)@.len() == old(messages)@.len() + 1
                &&& final(messages)@.last().is_system
                &&& final(messages)@.last().content@ == decrypt_failure_text(sequence_num, *e)
                &&& final(messages)@.last().timestamp == created_at
                &&& final(messages)@.last().sequence_num == sequence_num
                &&& final(messages)@.last().epoch == epoch
            },
        },
{
    let ghost start = messages@;
    match decrypted {
        Ok(DecryptedMessage::Application(plaintext)) => {
            let text = utf8_lossy(plaintext.as_slice());
            let sender = resolve_user_display_name(sender_id, members);
            messages.push(
                ProcessedMessage {
                    sender_id,
                    sender,
                    content: text,
                    timestamp: created_at,
                    sequence_num,
                    epoch,
                    is_system: false,
                },
            );
            assert(messages@.take(start.len() as int) =~= start);
        },
        Ok(DecryptedMessage::Commit(c)) => {
            process_commit_info(c, created_at, sequence_num, epoch, messages);
        },
        Ok(DecryptedMessage::NoContent) => {},
        Err(e) => {
            let mut out: Vec<char> = Vec::new();
            push_str(&mut out, "Failed to decrypt message (seq ");
            let digits = u64_to_chars(sequence_num);
            push_all(&mut out, digits.as_slice());
            push_str(&mut out, "): ");
            let reason = e.message();
            push_str(&mut out, reason.as_str());
            messages.push(
                ProcessedMessage::system(
                    string_from_chars(out.as_slice()),
                    created_at,
                    sequence_num,
                    epoch,
                ),
            );
            assert(messages@.take(start.len() as int) =~= start);
        },
    }
}

/// How rejoining one group after an account reset went.
pub enum RejoinOutcome {
    /// Rejoined; the group's new MLS group ID.
    Rejoined(String),
    /// The group's info could not be fetched.
    NoGroupInfo(Error),
    /// The external commit was built but the server refused it.
    JoinRefused(Error),
    /// The external commit could not be built.
    CommitFailed(Error),
}

/// The line reported for a group that could not be rejoined.
pub open spec fn rejoin_error_text(group_id: u128, outcome: RejoinOutcome) -> Seq<char> {
    match outcome {
        RejoinOutcome::NoGroupInfo(e) => "Failed to get group info for "@ + uuid_text_spec(group_id)
            + ": "@ + error_message_spec(e),
        RejoinOutcome::JoinRefused(e) => "Failed to rejoin "@ + uuid_text_spec(group_id) + ": "@
            + error_message_spec(e),
        RejoinOutcome::CommitFailed(e) => "Failed external commit for "@ + uuid_text_spec(group_id)
            + ": "@ + error_message_spec(e),
        RejoinOutcome::Rejoined(_) => Seq::empty(),
    }
}

impl ResetResult {
    /// A reset of `total_groups` groups before any was rejoined.
    pub fn start(total_groups: usize) -> (r: Self)
        ensures
            r.new_group_mapping@ == Map::<u128, String>::empty(),
            r.rejoin_count == 0,
            r.total_groups == total_groups,
            r.errors@ == Seq::<String>::empty(),
    {
        ResetResult {
            new_group_mapping: HashMap::new(),
            rejoin_count: 0,
            total_groups,
            errors: Vec::new(),
        }
    }

    /// Records how rejoining a group went: a rejoined group gets its new
    /// mapping and is counted; a failure adds its line to the errors.
    pub fn record(&mut self, group_id: u128, outcome: RejoinOutcome)
        requires
            old(self).rejoin_count < usize::MAX,
        ensures
            final(self).total_groups == old(self).total_groups,
            match outcome {
                RejoinOutcome::Rejoined(m) => {
                    &&& final(self).new_group_mapping@ == old(self).new_group_mapping@.insert(
                        group_id,
                        m,
                    )
                    &&& final(self).rejoin_count == old(self).rejoin_count + 1
                    &&& final(self).errors == old(self).errors
                },
                _ => {
                    &&& final(self).new_group_mapping == old(self).new_group_mapping
                    &&& final(self).rejoin_count == old(self).rejoin_count
                    &&& crate::command::strings_view(final(self).errors@) == crate::command::strings_view(
                        old(self).errors@,
                    ).push(rejoin_error_text(group_id, outcome))
                },
            },
    {
        broadcast use vstd::std_specs::hash::group_hash_axioms;

        let ghost outcome_view = outcome;
        let (lead, e) = match outcome {
            RejoinOutcome::Rejoined(m) => {
                self.new_group_mapping.insert(group_id, m);
                self.rejoin_count = self.rejoin_count + 1;
                return ;
            },
            RejoinOutcome::NoGroupInfo(e) => ("Failed to get group info for ", e),
            RejoinOutcome::JoinRefused(e) => ("Failed to rejoin ", e),
            RejoinOutcome::CommitFailed(e) => ("Failed external commit for ", e),
        };
        let mut out: Vec<char> = Vec::new();
        push_str(&mut out, lead);
        let id = uuid_to_string(group_id);
        push_str(&mut out, id.as_str());
        push_str(&mut out, ": ");
        let reason = e.message();
        push_str(&mut out, reason.as_str());
        let ghost before = self.errors@;
        self.errors.push(string_from_chars(out.as_slice()));
        assert(crate::command::strings_view(self.errors@) =~= crate::command::strings_view(before).push(
            out@,
        ));
    }
}

/// The closing line of an account reset.
pub fn reset_summary(result: &ResetResult) -> (r: String)
    ensures
        r@ == "Account reset complete. Rejoined "@ + decimal_spec(result.rejoin_count as nat) + "/"@
            + decimal_spec(result.total_groups as nat) + " groups."@,
{
    let mut out: Vec<char> = Vec::new();
    push_str(&mut out, "Account reset complete. Rejoined ");
    let a = u64_to_chars(result.rejoin_count as u64);
    push_all(&mut out, a.as_slice());
    push_str(&mut out, "/");
    let b = u64_to_chars(result.total_groups as u64);
    push_all(&mut out, b.as_slice());
    push_str(&mut out, " groups.");
    string_from_chars(out.as_slice())
}

} // verus!
