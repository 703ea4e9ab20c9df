//! The rooms of the process: each identifier stands for one multicast
//! channel of outward events. The rooms are kept in a `dashmap::DashMap`,
//! the channels are `tokio::sync::broadcast` channels, and identifiers are
//! drawn with `uuid`.

use vstd::prelude::*;
use dashmap::DashMap;
use tokio::sync::broadcast::{Receiver, Sender};
use crate::event::OutwardEvent;

verus! {

/// Messages that a room's channel holds for a slow viewer before the oldest
/// are dropped.
pub const ROOM_CAPACITY: usize = 256;

/// `dashmap::DashMap`, a concurrent hash map. Nothing inside it is seen
/// here; what it holds is named by `room_ids`.
#[verifier::external_type_specification]
#[verifier::external_body]
#[verifier::reject_recursive_types(K)]
#[verifier::reject_recursive_types(V)]
#[verifier::reject_recursive_types(S)]
pub struct ExDashMap<K, V, S>(DashMap<K, V, S>);

/// `tokio::sync::broadcast::Sender`, the sending half of a multicast
/// channel. Nothing inside it is seen here.
#[verifier::external_type_specification]
#[verifier::external_body]
#[verifier::reject_recursive_types(T)]
pub struct ExSender<T>(Sender<T>);

/// `tokio::sync::broadcast::Receiver`, one viewer's end of a multicast
/// channel. Nothing inside it is seen here.
#[verifier::external_type_specification]
#[verifier::external_body]
#[verifier::reject_recursive_types(T)]
pub struct ExReceiver<T>(Receiver<T>);

/// The identifiers that a map of rooms holds.
pub uninterp spec fn room_ids(rooms: DashMap<String, Sender<String>>) -> Set<Seq<char>>;

/// The channel that a map of rooms holds under the identifier `id`, as a
/// sender of it. It says nothing where the map does not hold `id`.
pub uninterp spec fn room_channel(rooms: DashMap<String, Sender<String>>, id: Seq<char>) -> Sender<
    String,
>;

/// Makes an empty map with `DashMap::new`.
#[verifier::external_body]
fn rooms_new() -> (rooms: DashMap<String, Sender<String>>)
    ensures
        room_ids(rooms) == Set::<Seq<char>>::empty(),
{
    DashMap::new()
}

/// Asks `DashMap::contains_key` whether the map holds the key `id`.
#[verifier::external_body]
fn rooms_contain(rooms: &DashMap<String, Sender<String>>, id: &str) -> (held: bool)
    ensures
        held == room_ids(*rooms).contains(id@),
{
    rooms.contains_key(id)
}

/// Puts a channel under the key `id` with `DashMap::insert`: the map then
/// holds that key besides those it held, with the given channel under it,
/// and every other key keeps its channel. A channel that stood under the
/// key before is replaced. The map asks that no reference into it is held
/// during the call; none ever leaves these functions.
#[verifier::external_body]
fn rooms_insert(rooms: &mut DashMap<String, Sender<String>>, id: String, channel: Sender<String>)
    ensures
        room_ids(*final(rooms)) == room_ids(*old(rooms)).insert(id@),
        room_channel(*final(rooms), id@) == channel,
        forall|other: Seq<char>|
            other != id@ ==> #[trigger] room_channel(*final(rooms), other) == room_channel(
                *old(rooms),
                other,
            ),
{
    rooms.insert(id, channel);
}

/// Reads the channel under the key `id` with `DashMap::get` and hands out a
/// clone of the sender: there is one exactly where the map holds the key,
/// and it is a sender of the channel that stands under the key.
#[verifier::external_body]
fn rooms_get(rooms: &DashMap<String, Sender<String>>, id: &str) -> (channel: Option<Sender<String>>)
    ensures
        channel.is_some() == room_ids(*rooms).contains(id@),
        channel matches Some(c) ==> c == room_channel(*rooms, id@),
{
    rooms.get(id).map(|entry| entry.value().clone())
}

/// Opens a channel with `tokio::sync::broadcast::channel` and keeps its
/// sender. The call panics on a capacity of zero or above half of
/// `usize::MAX`, which the precondition leaves out.
#[verifier::external_body]
fn open_channel(capacity: usize) -> (channel: Sender<String>)
    requires
        0 < capacity <= usize::MAX / 2,
{
    tokio::sync::broadcast::channel::<String>(capacity).0
}

/// Sends a message with `Sender::send`. The result is the number of
/// receivers that the channel had, `None` where it had none and the message
/// was dropped: a number that is given is therefore never zero. How many
/// receivers there are is not known here.
#[verifier::external_body]
fn channel_send(channel: &Sender<String>, message: String) -> (receivers: Option<usize>)
    ensures
        receivers matches Some(n) ==> n >= 1,
{
    channel.send(message).ok()
}

/// The channel that a receiver is attached to, as a sender of it.
pub uninterp spec fn receiver_channel(receiver: Receiver<String>) -> Sender<String>;

/// Attaches a receiver with `Sender::subscribe`: the receiver is made of
/// the sender's own shared state, so it is attached to the sender's channel.
#[verifier::external_body]
fn channel_subscribe(channel: &Sender<String>) -> (receiver: Receiver<String>)
    ensures
        receiver_channel(receiver) == *channel,
{
    channel.subscribe()
}

/// Draws a random identifier with `uuid::Uuid::new_v4` and writes it in the
/// hyphenated form. The text depends on the machine's random source, so
/// nothing is claimed of it.
#[verifier::external_body]
fn fresh_room_id() -> (id: String) {
    uuid::Uuid::new_v4().to_string()
}

/// The link under which viewers of the room `room_id` reach it.
pub open spec fn share_url_spec(base_url: Seq<char>, room_id: Seq<char>) -> Seq<char> {
    base_url + "/view?room="@ + room_id
}

/// The link under which viewers of the room `room_id` reach it.
pub fn share_url(base_url: &str, room_id: &str) -> (url: String)
    ensures
        url@ == share_url_spec(base_url@, room_id@),
{
    String::from_str(base_url).concat("/view?room=").concat(room_id)
}

/// The channel of a room, as a lookup hands it out.
pub struct RoomHandle {
    room: String,
    channel: Sender<String>,
}

impl RoomHandle {
    /// The identifier of the room that the handle belongs to.
    pub closed spec fn room_id(&self) -> Seq<char> {
        self.room@
    }

    /// The identifier of the room that the handle belongs to.
    pub fn room(&self) -> (id: &str)
        ensures
            id@ == self.room_id(),
    {
        self.room.as_str()
    }

    /// The sender of the room's channel.
    pub closed spec fn channel(&self) -> Sender<String> {
        self.channel
    }

    /// The sender of the room's channel.
    pub fn sender(&self) -> (sender: &Sender<String>)
        ensures
            *sender == self.channel(),
    {
        &self.channel
    }

    /// Sends the JSON text of `event` to the viewers that are attached now.
    /// The result is their number, which is at least one; it is `None` where
    /// there is no viewer and the event was dropped. Sending never waits for
    /// a viewer.
    pub fn publish(&self, event: &OutwardEvent) -> (receivers: Option<usize>)
        ensures
            receivers matches Some(n) ==> n >= 1,
    {
        let message = event.to_json();
        channel_send(&self.channel, message)
    }

    /// Attaches a viewer to the room's channel, who receives what is
    /// published from now on.
    pub fn subscribe(&self) -> (receiver: Receiver<String>)
        ensures
            receiver_channel(receiver) == self.channel(),
    {
        channel_subscribe(&self.channel)
    }
}

/// The rooms of the process. A room is never removed.
pub struct RoomRegistry {
    rooms: DashMap<String, Sender<String>>,
}

impl View for RoomRegistry {
    type V = Map<Seq<char>, Sender<String>>;

    /// The rooms: each identifier with its channel.
    closed spec fn view(&self) -> Map<Seq<char>, Sender<String>> {
        Map::new(
            |id: Seq<char>| room_ids(self.rooms).contains(id),
            |id: Seq<char>| room_channel(self.rooms, id),
        )
    }
}

/// The rooms after an attempt to create the room `id` with the channel
/// `channel`: a room that exists stays as it is, with its channel; a new
/// one is added.
pub open spec fn with_room(
    rooms: Map<Seq<char>, Sender<String>>,
    id: Seq<char>,
    channel: Sender<String>,
) -> Map<Seq<char>, Sender<String>> {
    if rooms.contains_key(id) {
        rooms
    } else {
        rooms.insert(id, channel)
    }
}

impl RoomRegistry {
    /// A registry without rooms.
    pub fn new() -> (registry: RoomRegistry)
        ensures
            registry@ == Map::<Seq<char>, Sender<String>>::empty(),
    {
        let registry = RoomRegistry { rooms: rooms_new() };
        assert(registry@ =~= Map::<Seq<char>, Sender<String>>::empty());
        registry
    }

    /// Whether the room `id` exists.
    pub fn contains(&self, id: &str) -> (held: bool)
        ensures
            held == self@.contains_key(id@),
    {
        rooms_contain(&self.rooms, id)
    }

    /// Creates the room `id` with a channel of its own, unless a room of
    /// that identifier exists: then nothing changes and the result is
    /// `false`. Every room that existed keeps its channel.
    pub fn create_with_id(&mut self, id: String) -> (created: bool)
        ensures
            created == !old(self)@.contains_key(id@),
            final(self)@ == with_room(old(self)@, id@, final(self)@[id@]),
    {
        if rooms_contain(&self.rooms, id.as_str()) {
            return false;
        }
        let ghost key = id@;
        let channel = open_channel(ROOM_CAPACITY);
        rooms_insert(&mut self.rooms, id, channel);
        assert(self@ =~= old(self)@.insert(key, self@[key]));
        true
    }

    /// Creates a room under a freshly drawn identifier and returns the
    /// identifier. Where the identifier drawn is taken already, nothing
    /// changes and the result is `None`: that can only be where some room
    /// exists, so a registry without rooms always gets its room. Every room
    /// that existed keeps its channel.
    pub fn create(&mut self) -> (id: Option<String>)
        ensures
            match id {
                Some(i) => !old(self)@.contains_key(i@) && final(self)@ == old(self)@.insert(
                    i@,
                    final(self)@[i@],
                ),
                None => final(self)@ == old(self)@,
            },
            id is None ==> exists|taken: Seq<char>| #[trigger] old(self)@.contains_key(taken),
            old(self)@ == Map::<Seq<char>, Sender<String>>::empty() ==> id is Some,
    {
        let id = fresh_room_id();
        let kept = id.clone();
        let ghost drawn = id@;
        if self.create_with_id(id) {
            Some(kept)
        } else {
            assert(old(self)@.contains_key(drawn));
            None
        }
    }

    /// The channel of the room `id`: there is one exactly where the room
    /// exists; the handle bears the room's identifier and holds the room's
    /// channel. A lookup makes no channel and changes no room.
    pub fn lookup(&self, id: &str) -> (found: Option<RoomHandle>)
        ensures
            found.is_some() == self@.contains_key(id@),
            found matches Some(h) ==> h.room_id() == id@ && h.channel() == self@[id@],
    {
        match rooms_get(&self.rooms, id) {
            Some(channel) => Some(RoomHandle { room: String::from_str(id), channel }),
            None => None,
        }
    }

    /// Sends `event` to the viewers of the room `id`. The result is `false`
    /// exactly where the room does not exist.
    pub fn publish(&self, id: &str, event: &OutwardEvent) -> (known: bool)
        ensures
            known == self@.contains_key(id@),
    {
        match self.lookup(id) {
            Some(handle) => {
                let _ = handle.publish(event);
                true
            },
            None => false,
        }
    }

    /// Attaches a viewer to the room `id`: there is a receiver exactly where
    /// the room exists, and it is attached to the room's channel.
    pub fn subscribe(&self, id: &str) -> (receiver: Option<Receiver<String>>)
        ensures
            receiver.is_some() == self@.contains_key(id@),
            receiver matches Some(r) ==> receiver_channel(r) == self@[id@],
    {
        match self.lookup(id) {
            Some(handle) => Some(handle.subscribe()),
            None => None,
        }
    }
}

/// The rooms after attempts to create rooms, in order: each attempt names
/// an identifier and the channel that was opened for it.
pub open spec fn rooms_after(
    rooms: Map<Seq<char>, Sender<String>>,
    attempts: Seq<(Seq<char>, Sender<String>)>,
) -> Map<Seq<char>, Sender<String>>
    decreases attempts.len(),
{
    if attempts.len() == 0 {
        rooms
    } else {
        with_room(rooms_after(rooms, attempts.drop_last()), attempts.last().0, attempts.last().1)
    }
}

/// A room, once created, is found by every later lookup and keeps its one
/// channel, whatever rooms are created or attempted after it: rooms are only
/// ever added, and none is replaced.
pub proof fn lemma_lookup_after_create(
    rooms: Map<Seq<char>, Sender<String>>,
    id: Seq<char>,
    later: Seq<(Seq<char>, Sender<String>)>,
)
    requires
        rooms.contains_key(id),
    ensures
        rooms_after(rooms, later).contains_key(id),
        rooms_after(rooms, later)[id] == rooms[id],
    decreases later.len(),
{
    if later.len() > 0 {
        lemma_lookup_after_create(rooms, id, later.drop_last());
    }
}

} // verus!
