//! The decisions of a connection's receive loop. The transport reads frames and
//! observes the cancellation flag; this machine says what to do with each.
use vstd::prelude::*;
use crate::stream::{combined_stream_address, joined, stream_address, views, ConnectError};

verus! {

/// One frame as the transport delivers it.
#[derive(Clone, Debug)]
pub enum Frame {
    Text(Vec<u8>),
    Binary(Vec<u8>),
    Ping(Vec<u8>),
    Pong(Vec<u8>),
    Close,
}

/// Where a receive loop stands.
#[derive(Clone, Copy, Debug, PartialEq, Eq, Structural)]
pub enum LoopState {
    /// Reading frames.
    Running,
    /// The cancellation flag was seen before a read.
    Cancelled,
    /// The callback asked to stop.
    Stopped,
    /// The peer closed the stream.
    Closed,
}

/// What the loop does with a frame it has read.
#[derive(Clone, Debug)]
pub enum Reaction {
    /// Echo this payload back in a pong.
    Reply(Vec<u8>),
    /// Nothing: read the next frame.
    Skip,
    /// Decode this payload and hand the result to the callback.
    Deliver(Vec<u8>),
    /// The loop is over.
    Finish,
}

/// The state after looking at the flag before a read.
pub open spec fn before_read(s: LoopState, cancelled: bool) -> LoopState {
    if s is Running && cancelled {
        LoopState::Cancelled
    } else {
        s
    }
}

/// The state after the callback has answered a delivered frame.
pub open spec fn after_verdict(ok: bool) -> LoopState {
    if ok {
        LoopState::Running
    } else {
        LoopState::Stopped
    }
}

/// The state after a frame read while running; `verdict` is the callback's answer
/// when the frame is delivered to it.
pub open spec fn after_frame(f: Frame, verdict: bool) -> LoopState {
    match f {
        Frame::Close => LoopState::Closed,
        Frame::Text(_) => after_verdict(verdict),
        _ => LoopState::Running,
    }
}

pub open spec fn flag_at(flags: Seq<bool>, i: int) -> bool {
    0 <= i < flags.len() && flags[i]
}

pub open spec fn verdict_at(verdicts: Seq<bool>, i: int) -> bool {
    !(0 <= i < verdicts.len()) || verdicts[i]
}

/// A loop in state `s` about to read frame `i`: `flags[i]` is the flag it sees
/// before that read and `verdicts[i]` the callback's answer to that frame. The
/// result is the final state and the number of frames read.
pub open spec fn run(s: LoopState, i: nat, flags: Seq<bool>, frames: Seq<Frame>, verdicts: Seq<bool>) -> (LoopState, nat)
    decreases frames.len() - i,
{
    if !(s is Running) || i >= frames.len() {
        (s, i)
    } else if flag_at(flags, i as int) {
        (LoopState::Cancelled, i)
    } else {
        run(after_frame(frames[i as int], verdict_at(verdicts, i as int)), i + 1, flags, frames, verdicts)
    }
}

/// The receive loop of one connection.
pub struct EventLoop {
    pub state: LoopState,
}

impl EventLoop {
    pub fn new() -> (r: EventLoop)
        ensures
            r.state == LoopState::Running,
    {
        EventLoop { state: LoopState::Running }
    }

    /// Looks at the cancellation flag before a read; true when the loop should read.
    pub fn should_read(&mut self, cancelled: bool) -> (r: bool)
        ensures
            final(self).state == before_read(old(self).state, cancelled),
            r == (final(self).state is Running),
    {
        if cancelled {
            if let LoopState::Running = self.state {
                self.state = LoopState::Cancelled;
            }
        }
        match self.state {
            LoopState::Running => true,
            _ => false,
        }
    }

    /// What to do with a frame that was read. A data frame leaves the state as it
    /// is until the callback has answered.
    pub fn on_frame(&mut self, frame: Frame) -> (r: Reaction)
        requires
            old(self).state is Running,
        ensures
            frame is Text ==> final(self).state is Running,
            !(frame is Text) ==> final(self).state == after_frame(frame, true),
            match frame {
                Frame::Text(p) => r == Reaction::Deliver(p),
                Frame::Ping(p) => r == Reaction::Reply(p),
                Frame::Close => r is Finish,
                _ => r is Skip,
            },
    {
        match frame {
            Frame::Text(p) => Reaction::Deliver(p),
            Frame::Ping(p) => Reaction::Reply(p),
            Frame::Close => {
                self.state = LoopState::Closed;
                Reaction::Finish
            },
            _ => Reaction::Skip,
        }
    }

    /// Takes the callback's answer to a delivered frame: a failure ends the loop.
    pub fn on_callback(&mut self, ok: bool) -> (r: bool)
        requires
            old(self).state is Running,
        ensures
            final(self).state == after_verdict(ok),
            r == ok,
    {
        if !ok {
            self.state = LoopState::Stopped;
        }
        ok
    }

    /// True once the loop has ended, for whichever reason.
    pub fn is_done(&self) -> (r: bool)
        ensures
            r == !(self.state is Running),
    {
        match self.state {
            LoopState::Running => false,
            _ => true,
        }
    }
}

/// A loop that sees the cancellation flag set before its first read ends
/// cancelled, having read no frame.
pub proof fn lemma_cancelled_before_first_read(flags: Seq<bool>, frames: Seq<Frame>, verdicts: Seq<bool>)
    requires
        flag_at(flags, 0),
    ensures
        run(LoopState::Running, 0, flags, frames, verdicts).1 == 0,
        frames.len() > 0 ==> run(LoopState::Running, 0, flags, frames, verdicts).0 == LoopState::Cancelled,
{
}

/// Frames before `i` that leave the loop running, with the flag clear throughout.
pub open spec fn runs_through(i: int, flags: Seq<bool>, frames: Seq<Frame>, verdicts: Seq<bool>) -> bool {
    &&& 0 <= i < frames.len()
    &&& forall|j: int| 0 <= j <= i ==> !#[trigger] flag_at(flags, j)
    &&& forall|j: int| 0 <= j < i ==> after_frame(#[trigger] frames[j], verdict_at(verdicts, j)) is Running
}

proof fn lemma_run_reaches(k: nat, i: int, flags: Seq<bool>, frames: Seq<Frame>, verdicts: Seq<bool>)
    requires
        runs_through(i, flags, frames, verdicts),
        k <= i,
    ensures
        run(LoopState::Running, k, flags, frames, verdicts)
            == run(after_frame(frames[i], verdict_at(verdicts, i)), (i + 1) as nat, flags, frames, verdicts),
    decreases i - k,
{
    assert(!flag_at(flags, k as int));
    if k < i {
        assert(after_frame(frames[k as int], verdict_at(verdicts, k as int)) is Running);
        lemma_run_reaches(k + 1, i, flags, frames, verdicts);
    }
}

/// The loop stops right after the first frame whose delivery the callback
/// refuses, whatever frames follow it.
pub proof fn lemma_stops_on_refusal(i: int, flags: Seq<bool>, frames: Seq<Frame>, verdicts: Seq<bool>)
    requires
        runs_through(i, flags, frames, verdicts),
        frames[i] is Text,
        !verdict_at(verdicts, i),
    ensures
        run(LoopState::Running, 0, flags, frames, verdicts) == (LoopState::Stopped, (i + 1) as nat),
{
    lemma_run_reaches(0, i, flags, frames, verdicts);
}

/// A close frame ends the loop right after it is read, though the flag says to
/// keep running and whatever frames follow it.
pub proof fn lemma_close_ends_loop(i: int, flags: Seq<bool>, frames: Seq<Frame>, verdicts: Seq<bool>)
    requires
        runs_through(i, flags, frames, verdicts),
        frames[i] is Close,
    ensures
        run(LoopState::Running, 0, flags, frames, verdicts) == (LoopState::Closed, (i + 1) as nat),
{
    lemma_run_reaches(0, i, flags, frames, verdicts);
}

/// Where a connection stands.
#[derive(Clone, Copy, Debug, PartialEq, Eq, Structural)]
pub enum ConnState {
    Idle,
    Connecting,
    Active,
    Closing,
    Closed,
}

/// What `disconnect` does: a close handshake is sent only while the transport is
/// open, and the connection ends closed in every case.
pub open spec fn disconnect_spec(s: ConnState) -> (ConnState, bool) {
    (ConnState::Closed, s is Connecting || s is Active)
}

pub fn disconnect_step(s: ConnState) -> (r: (ConnState, bool))
    ensures
        r == disconnect_spec(s),
{
    match s {
        ConnState::Connecting | ConnState::Active => (ConnState::Closed, true),
        _ => (ConnState::Closed, false),
    }
}

/// A connection's address and where it stands. The transport behind it is the
/// caller's; this records what was asked of it and what it reported.
pub struct Connection {
    pub state: ConnState,
    pub address: String,
    pub combined: bool,
}

impl Connection {
    /// Starts connecting to a single stream at `<base>/<name>`.
    pub fn connect(base: &str, name: &str) -> (r: Result<Connection, ConnectError>)
        ensures
            r is Err <==> name@.len() == 0,
            r matches Err(e) ==> e == ConnectError::InvalidTarget,
            r matches Ok(c) ==> c.state == ConnState::Connecting && !c.combined
                && c.address@ == base@ + "/"@ + name@,
    {
        match stream_address(base, name) {
            Ok(address) => Ok(Connection { state: ConnState::Connecting, address, combined: false }),
            Err(e) => Err(e),
        }
    }

    /// Starts connecting to several streams at once, over one combined address.
    pub fn connect_multiple(base: &str, names: &Vec<String>) -> (r: Result<Connection, ConnectError>)
        ensures
            r is Err <==> (names@.len() == 0 || exists|i: int| 0 <= i < names@.len() && (#[trigger] names@[i])@.len() == 0),
            r matches Err(e) ==> e == ConnectError::InvalidTarget,
            r matches Ok(c) ==> c.state == ConnState::Connecting && c.combined
                && c.address@ == base@ + "/stream?streams="@ + joined(views(names@)),
    {
        match combined_stream_address(base, names) {
            Ok(address) => Ok(Connection { state: ConnState::Connecting, address, combined: true }),
            Err(e) => Err(e),
        }
    }

    /// Takes the outcome of the transport's handshake.
    pub fn on_handshake(&mut self, ok: bool) -> (r: Result<(), ConnectError>)
        requires
            old(self).state == ConnState::Connecting,
        ensures
            ok ==> r is Ok && final(self).state == ConnState::Active,
            !ok ==> r == Err::<(), ConnectError>(ConnectError::Handshake) && final(self).state == ConnState::Closed,
            final(self).address == old(self).address,
            final(self).combined == old(self).combined,
    {
        if ok {
            self.state = ConnState::Active;
            Ok(())
        } else {
            self.state = ConnState::Closed;
            Err(ConnectError::Handshake)
        }
    }

    /// Tears the connection down; true when a close handshake must be sent.
    /// Safe to call on a connection that is already closed.
    pub fn disconnect(&mut self) -> (r: bool)
        ensures
            (final(self).state, r) == disconnect_spec(old(self).state),
            final(self).address == old(self).address,
            final(self).combined == old(self).combined,
    {
        let (next, send) = disconnect_step(self.state);
        self.state = next;
        send
    }
}

/// Disconnecting twice is the same as disconnecting once: the second sends nothing.
pub proof fn lemma_disconnect_idempotent(s: ConnState)
    ensures
        disconnect_spec(disconnect_spec(s).0) == (ConnState::Closed, false),
{
}

} // verus!
