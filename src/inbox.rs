//! The command inbox: a bounded single-producer/single-consumer queue of user
//! intents, consumed by the frame scheduler.
use vstd::prelude::*;
use crate::effects::{EffectType, effect_index_spec, effect_from_index_spec, effect_index_round_trip};

verus! {

#[verifier::external_type_specification]
#[verifier::external_body]
#[verifier::reject_recursive_types(T)]
pub struct ExQueue<T, const N: usize>(heapless::spsc::Queue<T, N>);

/// A command as it travels through the queue: a tag and three payload bytes.
pub type Packed = (u8, u8, u8, u8);

/// Slots of the underlying queue; one stays free, so it holds `INBOX_CAPACITY` commands.
pub const QUEUE_SLOTS: usize = 8;

/// Commands the inbox holds at most.
pub const INBOX_CAPACITY: usize = 7;

pub type RawQueue = heapless::spsc::Queue<Packed, QUEUE_SLOTS>;

/// What the queue holds, oldest first.
pub uninterp spec fn queued(q: heapless::spsc::Queue<(u8, u8, u8, u8), 8>) -> Seq<(u8, u8, u8, u8)>;

/// Relies on heapless::spsc::Queue::new: a new queue is empty.
#[verifier::external_body]
fn raw_new() -> (q: RawQueue)
    ensures
        queued(q).len() == 0,
{
    heapless::spsc::Queue::new()
}

/// Relies on heapless::spsc::Queue::enqueue: the item goes to the back unless
/// the queue already holds `N - 1` items, in which case it comes back and the
/// queue is unchanged.
#[verifier::external_body]
fn raw_enqueue(q: &mut RawQueue, item: Packed) -> (r: Result<(), Packed>)
    ensures
        r is Ok <==> queued(*old(q)).len() < INBOX_CAPACITY,
        r is Ok ==> queued(*final(q)) == queued(*old(q)).push(item),
        r is Err ==> r->Err_0 == item && queued(*final(q)) == queued(*old(q)),
{
    q.enqueue(item)
}

/// Relies on heapless::spsc::Queue::len: the number of items held.
#[verifier::external_body]
fn raw_len(q: &RawQueue) -> (n: usize)
    ensures
        n == queued(*q).len(),
{
    q.len()
}

/// Relies on heapless::spsc::Queue::dequeue: the oldest item leaves, or `None` when empty.
#[verifier::external_body]
fn raw_dequeue(q: &mut RawQueue) -> (r: Option<Packed>)
    ensures
        queued(*old(q)).len() == 0 ==> r is None && queued(*final(q)) == queued(*old(q)),
        queued(*old(q)).len() > 0 ==> r == Some(queued(*old(q))[0]) && queued(*final(q)) == queued(
            *old(q),
        ).drop_first(),
{
    q.dequeue()
}

/// A user or automation intent.
#[derive(Clone, Copy, Debug, PartialEq, Eq, Structural)]
pub enum Command {
    SetEffect(EffectType),
    /// Global brightness, 0 (off) to 255 (full).
    SetBrightness(u8),
    SetColor(u8, u8, u8),
    SetSpeed(u8),
    SetPower(bool),
}

pub open spec fn encode_spec(c: Command) -> Packed {
    match c {
        Command::SetEffect(e) => (0, effect_index_spec(e), 0, 0),
        Command::SetBrightness(l) => (1, l, 0, 0),
        Command::SetColor(r, g, b) => (2, r, g, b),
        Command::SetSpeed(s) => (3, s, 0, 0),
        Command::SetPower(on) => (4, if on { 1u8 } else { 0u8 }, 0, 0),
    }
}

pub open spec fn decode_spec(p: Packed) -> Option<Command> {
    if p.0 == 0 {
        match effect_from_index_spec(p.1) {
            Some(e) => Some(Command::SetEffect(e)),
            None => None,
        }
    } else if p.0 == 1 {
        Some(Command::SetBrightness(p.1))
    } else if p.0 == 2 {
        Some(Command::SetColor(p.1, p.2, p.3))
    } else if p.0 == 3 {
        Some(Command::SetSpeed(p.1))
    } else if p.0 == 4 {
        Some(Command::SetPower(p.1 != 0))
    } else {
        None
    }
}

/// Packing a command and reading it back gives the same command.
pub proof fn command_round_trip(c: Command)
    ensures
        decode_spec(encode_spec(c)) == Some(c),
{
    if let Command::SetEffect(e) = c {
        effect_index_round_trip(e);
    }
}

impl Command {
    pub fn encode(self) -> (p: Packed)
        ensures
            p == encode_spec(self),
    {
        match self {
            Command::SetEffect(e) => (0, e.index(), 0, 0),
            Command::SetBrightness(l) => (1, l, 0, 0),
            Command::SetColor(r, g, b) => (2, r, g, b),
            Command::SetSpeed(s) => (3, s, 0, 0),
            Command::SetPower(on) => (4, if on { 1 } else { 0 }, 0, 0),
        }
    }

    pub fn decode(p: Packed) -> (c: Option<Command>)
        ensures
            c == decode_spec(p),
    {
        if p.0 == 0 {
            match EffectType::from_index(p.1) {
                Some(e) => Some(Command::SetEffect(e)),
                None => None,
            }
        } else if p.0 == 1 {
            Some(Command::SetBrightness(p.1))
        } else if p.0 == 2 {
            Some(Command::SetColor(p.1, p.2, p.3))
        } else if p.0 == 3 {
            Some(Command::SetSpeed(p.1))
        } else if p.0 == 4 {
            Some(Command::SetPower(p.1 != 0))
        } else {
            None
        }
    }
}

/// Bounded queue of pending commands, oldest first. A full inbox rejects new
/// commands instead of blocking the producer.
pub struct CommandInbox {
    queue: RawQueue,
}

pub open spec fn unpack_all(s: Seq<Packed>) -> Seq<Command> {
    s.map_values(|p: Packed| decode_spec(p).unwrap())
}

impl CommandInbox {
    pub closed spec fn wf(&self) -> bool {
        &&& queued(self.queue).len() <= INBOX_CAPACITY
        &&& forall|i: int|
            0 <= i < queued(self.queue).len() ==> (#[trigger] decode_spec(queued(self.queue)[i])) is Some
    }

    /// The pending commands, oldest first.
    pub closed spec fn pending(&self) -> Seq<Command> {
        unpack_all(queued(self.queue))
    }

    pub fn new() -> (inbox: CommandInbox)
        ensures
            inbox.wf(),
            inbox.pending() == Seq::<Command>::empty(),
    {
        let q = raw_new();
        let inbox = CommandInbox { queue: q };
        assert(inbox.pending() =~= Seq::<Command>::empty());
        inbox
    }

    /// Queues `cmd` behind the pending commands; when the inbox already holds
    /// `INBOX_CAPACITY` commands it hands `cmd` back and changes nothing.
    pub fn enqueue(&mut self, cmd: Command) -> (r: Result<(), Command>)
        requires
            old(self).wf(),
        ensures
            final(self).wf(),
            r is Ok <==> old(self).pending().len() < INBOX_CAPACITY,
            r is Ok ==> final(self).pending() == old(self).pending().push(cmd),
            r is Err ==> r->Err_0 == cmd && final(self).pending() == old(self).pending(),
    {
        let ghost q0 = queued(self.queue);
        let p = cmd.encode();
        proof {
            command_round_trip(cmd);
        }
        match raw_enqueue(&mut self.queue, p) {
            Ok(()) => {
                assert(unpack_all(queued(self.queue)) =~= unpack_all(q0).push(cmd));
                Ok(())
            },
            Err(_) => Err(cmd),
        }
    }

    /// Number of pending commands.
    pub fn len(&self) -> (n: usize)
        requires
            self.wf(),
        ensures
            n == self.pending().len(),
    {
        raw_len(&self.queue)
    }

    /// Takes the oldest pending command, if any.
    pub fn dequeue(&mut self) -> (r: Option<Command>)
        requires
            old(self).wf(),
        ensures
            final(self).wf(),
            old(self).pending().len() == 0 ==> r is None && final(self).pending() == old(self).pending(),
            old(self).pending().len() > 0 ==> r == Some(old(self).pending()[0]),
            old(self).pending().len() > 0 ==> final(self).pending() == old(self).pending().drop_first(),
    {
        let ghost q0 = queued(self.queue);
        match raw_dequeue(&mut self.queue) {
            Some(p) => {
                assert(decode_spec(q0[0]) is Some);
                assert(unpack_all(queued(self.queue)) =~= unpack_all(q0).drop_first());
                Command::decode(p)
            },
            None => None,
        }
    }
}

} // verus!
