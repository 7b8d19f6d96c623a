//! The wait-for-file protocol as a state machine.
//!
//! A wait starts in `Waiting` and polls the native layer for one event at
//! a time. A file-added event or a timeout ends it; so does a failed poll.
//! Any other event leaves it waiting. Whatever an event is, its payload is
//! released before the machine is asked again: every transition returns
//! the token to release, so no branch can forget it.

use crate::error::{outcome, translate, Error, ErrorKind, GP_ERROR_CORRUPTED_DATA, GP_OK};
use crate::event::{class_of, classify, path_of, released, EventClass, EventReply, EventType};
use crate::file::CameraFile;
use vstd::prelude::*;

verus! {

/// The states of a wait.
#[derive(Clone, Copy, Debug, PartialEq, Eq)]
pub enum WaitState {
    /// No event of interest yet: poll again.
    Waiting,
    /// The device produced this file.
    FileAdded(CameraFile),
    /// The time allowed passed without an event.
    TimedOut,
    /// A poll failed, or a file-added event came without a path.
    Failed(Error),
}

/// The state that a waiting machine enters on `reply`.
///
/// A failed poll fails the wait with the translated status. A file-added
/// event ends it with the path from its payload; one without a path is
/// corrupted data.
pub open spec fn step(reply: EventReply) -> WaitState {
    match outcome(reply.status as int) {
        Err(e) => WaitState::Failed(e),
        Ok(_) => match class_of(reply.kind) {
            EventClass::Other => WaitState::Waiting,
            EventClass::Timeout => WaitState::TimedOut,
            EventClass::FileAdded => match path_of(reply) {
                Some(file) => WaitState::FileAdded(file),
                None => WaitState::Failed(
                    Error { kind: ErrorKind::CorruptedData, code: GP_ERROR_CORRUPTED_DATA },
                ),
            },
        },
    }
}

/// What a state means to the caller of the wait: nothing yet while
/// waiting, then a file, no file, or the error.
pub open spec fn result_of(state: WaitState) -> Option<Result<Option<CameraFile>, Error>> {
    match state {
        WaitState::Waiting => None,
        WaitState::FileAdded(file) => Some(Ok(Some(file))),
        WaitState::TimedOut => Some(Ok(None)),
        WaitState::Failed(e) => Some(Err(e)),
    }
}

/// The timeout handed to the native layer for a timeout in milliseconds:
/// the same 32 bits read as a signed number.
pub open spec fn native_timeout(timeout: u32) -> int {
    if timeout <= i32::MAX {
        timeout as int
    } else {
        timeout - 0x1_0000_0000
    }
}

/// An event that leaves a wait waiting: a successful poll that reported
/// neither a file nor a timeout.
pub open spec fn is_noise(reply: EventReply) -> bool {
    reply.status == GP_OK && class_of(reply.kind) == EventClass::Other
}

/// The token of the payload of `reply` as a sequence: one token, or none.
pub open spec fn token_of(reply: EventReply) -> Seq<usize> {
    match released(reply) {
        Some(token) => seq![token],
        None => Seq::empty(),
    }
}

/// The tokens of all payloads in `replies`, in the order they came.
pub open spec fn payload_tokens(replies: Seq<EventReply>) -> Seq<usize>
    decreases replies.len(),
{
    if replies.len() == 0 {
        Seq::empty()
    } else {
        token_of(replies[0]) + payload_tokens(replies.drop_first())
    }
}

/// Where a wait stands after it was fed a sequence of replies.
pub struct Trace {
    /// The state reached.
    pub state: WaitState,
    /// The tokens released, in order.
    pub released: Seq<usize>,
    /// How many replies were taken before the wait ended.
    pub polls: nat,
}

/// Runs a waiting machine over `replies`: each reply is taken, its payload
/// released, and the run stops at the first reply that ends the wait.
pub open spec fn run(replies: Seq<EventReply>) -> Trace
    decreases replies.len(),
{
    if replies.len() == 0 {
        Trace { state: WaitState::Waiting, released: Seq::empty(), polls: 0 }
    } else {
        if step(replies[0]) is Waiting {
            let rest = run(replies.drop_first());
            Trace {
                state: rest.state,
                released: token_of(replies[0]) + rest.released,
                polls: rest.polls + 1,
            }
        } else {
            Trace { state: step(replies[0]), released: token_of(replies[0]), polls: 1 }
        }
    }
}

/// Noise never ends a wait: after any run of noise the machine still
/// waits, has taken every reply and released every payload it saw, once
/// and in order.
pub proof fn wait_continues_on_noise(noise: Seq<EventReply>)
    requires
        forall|i: int| 0 <= i < noise.len() ==> is_noise(#[trigger] noise[i]),
    ensures
        run(noise).state is Waiting,
        run(noise).released == payload_tokens(noise),
        run(noise).polls == noise.len(),
    decreases noise.len(),
{
    if noise.len() > 0 {
        assert(is_noise(noise[0]));
        let rest = noise.drop_first();
        assert forall|i: int| 0 <= i < rest.len() implies is_noise(#[trigger] rest[i]) by {
            assert(rest[i] == noise[i + 1]);
        }
        wait_continues_on_noise(rest);
    }
}

/// A wait fed any run of noise and then one event that ends it returns
/// exactly the result of that last event: the file of a file-added event,
/// no file for a timeout. It takes every reply, and the payloads it
/// releases are those of the replies, each once and in the order they
/// came.
pub proof fn wait_ends_with_last_event(noise: Seq<EventReply>, last: EventReply)
    requires
        forall|i: int| 0 <= i < noise.len() ==> is_noise(#[trigger] noise[i]),
        !is_noise(last),
    ensures
        run(noise.push(last)).state == step(last),
        run(noise.push(last)).released == payload_tokens(noise.push(last)),
        run(noise.push(last)).polls == noise.len() + 1,
        result_of(run(noise.push(last)).state) is Some,
        last.status == GP_OK && last.kind == EventType::Timeout ==> result_of(
            run(noise.push(last)).state,
        ) == Some(Ok::<Option<CameraFile>, Error>(None)),
        last.status == GP_OK && last.kind == EventType::FileAdded && path_of(last) is Some
            ==> result_of(run(noise.push(last)).state) == Some(
            Ok::<Option<CameraFile>, Error>(path_of(last)),
        ),
    decreases noise.len(),
{
    let all = noise.push(last);
    if noise.len() == 0 {
        assert(all[0] == last);
        assert(all.drop_first() =~= Seq::<EventReply>::empty());
        assert(payload_tokens(all.drop_first()) =~= Seq::<usize>::empty());
        assert(run(all).released =~= payload_tokens(all));
    } else {
        assert(is_noise(noise[0]));
        assert(all[0] == noise[0]);
        let rest = noise.drop_first();
        assert forall|i: int| 0 <= i < rest.len() implies is_noise(#[trigger] rest[i]) by {
            assert(rest[i] == noise[i + 1]);
        }
        assert(all.drop_first() =~= rest.push(last));
        wait_ends_with_last_event(rest, last);
    }
}

/// One wait for a file: the timeout to poll with and the state reached.
#[derive(Clone, Copy, Debug, PartialEq, Eq)]
pub struct Wait {
    timeout: i32,
    state: WaitState,
}

impl Wait {
    /// The state of the wait.
    pub closed spec fn state(self) -> WaitState {
        self.state
    }

    /// The timeout that each poll hands to the native layer.
    pub closed spec fn timeout(self) -> i32 {
        self.timeout
    }

    /// Starts a wait that polls with `timeout` milliseconds each time.
    pub fn new(timeout: u32) -> (wait: Wait)
        ensures
            wait.state() is Waiting,
            wait.timeout() == native_timeout(timeout),
    {
        let native: i32 = if timeout <= 0x7fff_ffff {
            timeout as i32
        } else {
            ((timeout - 0x8000_0000) as i32) + i32::MIN
        };
        Wait { timeout: native, state: WaitState::Waiting }
    }

    /// The timeout to hand to the native layer with the next poll.
    pub fn poll_timeout(&self) -> (timeout: i32)
        ensures
            timeout == self.timeout(),
    {
        self.timeout
    }

    /// The state reached so far.
    pub fn current(&self) -> (state: WaitState)
        ensures
            state == self.state(),
    {
        self.state
    }

    /// The result of the wait, `None` while it has to poll again.
    pub fn result(&self) -> (r: Option<Result<Option<CameraFile>, Error>>)
        ensures
            r == result_of(self.state()),
            r is None <==> self.state() is Waiting,
    {
        match self.state {
            WaitState::Waiting => None,
            WaitState::FileAdded(file) => Some(Ok(Some(file))),
            WaitState::TimedOut => Some(Ok(None)),
            WaitState::Failed(e) => Some(Err(e)),
        }
    }

    /// Takes the reply of one poll and returns the payload to release.
    ///
    /// A waiting machine moves to the state that the reply calls for; one
    /// that has ended stays where it is. The payload of the reply is
    /// returned for release in every case, whatever the event was and
    /// whether or not the poll succeeded.
    pub fn on_event(&mut self, reply: &EventReply) -> (release: Option<usize>)
        ensures
            release == released(*reply),
            final(self).timeout() == old(self).timeout(),
            old(self).state() is Waiting ==> final(self).state() == step(*reply),
            !(old(self).state() is Waiting) ==> final(self).state() == old(self).state(),
    {
        if let WaitState::Waiting = self.state {
            self.state = next_state(reply);
        }
        reply.release()
    }

    /// Feeds recorded replies to the wait until it ends or they run out,
    /// and returns the tokens to release, in order.
    ///
    /// A wait that had ended takes no reply and releases nothing.
    pub fn replay(&mut self, replies: &Vec<EventReply>) -> (tokens: Vec<usize>)
        ensures
            final(self).timeout() == old(self).timeout(),
            old(self).state() is Waiting ==> final(self).state() == run(replies@).state
                && tokens@ == run(replies@).released,
            !(old(self).state() is Waiting) ==> final(self).state() == old(self).state()
                && tokens@.len() == 0,
    {
        let mut tokens: Vec<usize> = Vec::new();
        let mut i: usize = 0;
        let ghost start = *self;
        proof {
            assert(replies@.subrange(0, replies@.len() as int) =~= replies@);
            assert(tokens@ + run(replies@).released =~= run(replies@).released);
        }
        while i < replies.len() && self.result().is_none()
            invariant
                i <= replies@.len(),
                self.timeout() == start.timeout(),
                !(start.state() is Waiting) ==> self.state() == start.state() && tokens@.len() == 0,
                start.state() is Waiting && self.state() is Waiting ==> {
                    let rest = run(replies@.subrange(i as int, replies@.len() as int));
                    run(replies@).state == rest.state && run(replies@).released == tokens@
                        + rest.released
                },
                start.state() is Waiting && !(self.state() is Waiting) ==> run(replies@).state
                    == self.state() && run(replies@).released == tokens@,
            decreases replies@.len() - i,
        {
            let reply = replies[i];
            let ghost before = tokens@;
            let release = self.on_event(&reply);
            if let Some(token) = release {
                tokens.push(token);
            }
            proof {
                let tail = replies@.subrange(i as int, replies@.len() as int);
                let next = replies@.subrange(i as int + 1, replies@.len() as int);
                assert(tail[0] == reply);
                assert(tail.drop_first() =~= next);
                assert(tokens@ =~= before + token_of(reply));
                if step(reply) is Waiting {
                    assert(before + (token_of(reply) + run(next).released) =~= tokens@ + run(
                        next,
                    ).released);
                }
            }
            i += 1;
        }
        tokens
    }
}

/// The state that a waiting machine enters on `reply`.
pub fn next_state(reply: &EventReply) -> (state: WaitState)
    ensures
        state == step(*reply),
{
    match translate(reply.status) {
        Err(e) => WaitState::Failed(e),
        Ok(_) => match classify(reply.kind) {
            EventClass::Other => WaitState::Waiting,
            EventClass::Timeout => WaitState::TimedOut,
            EventClass::FileAdded => match reply.path() {
                Some(file) => WaitState::FileAdded(file),
                None => WaitState::Failed(Error::corrupted_data()),
            },
        },
    }
}

} // verus!
