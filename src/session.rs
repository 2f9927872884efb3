use vstd::prelude::*;

use crate::notification::{frame_of, SocketMessage};
use crate::registry::ConnectionRegistry;
use crate::text::{after_last, split_after_last};

verus! {

/// A frame received from the client.
pub enum Frame {
    Text(String),
    Binary(Vec<u8>),
    Ping(Vec<u8>),
    Pong(Vec<u8>),
    Close,
}

/// Where a connection stands.
#[derive(PartialEq, Eq, Structural, Clone, Copy, Debug)]
pub enum Phase {
    /// Waiting for the frame that names the session.
    Handshaking,
    /// Registered; relaying notifications.
    Active,
    /// Finished; nothing more happens.
    Closed,
}

/// One client connection: it learns its session id from the first text
/// frame, registers itself, relays what is queued for it, and deregisters
/// when it ends.
pub struct SocketSession {
    phase: Phase,
    owner: String,
}

/// The text frame sent, just before closing, to a connection whose session
/// already has a live one.
pub open spec fn duplicate_notice() -> Seq<char> {
    seq!['d', 'u', 'p', 'l', 'i', 'c', 'a', 't', 'e', '-', 'c', 'o', 'n', 'n', 'e', 'c', 't', 'i', 'o', 'n']
}

/// The session id that an identity frame names: what follows its last `;`,
/// or the whole text when it has none.
pub open spec fn session_id_of(t: Seq<char>) -> Seq<char> {
    after_last(t, ';')
}

/// The frames that relaying `q` puts on the wire, in order; pending
/// messages are skipped.
pub open spec fn frames_of(q: Seq<SocketMessage>) -> Seq<Seq<char>>
    decreases q.len(),
{
    if q.len() == 0 {
        Seq::empty()
    } else {
        let head = frames_of(q.drop_last());
        match frame_of(q.last()) {
            Some(f) => head.push(f),
            None => head,
        }
    }
}

/// Phase, owner, connection registry and frame to send after `frame`
/// arrives.
pub open spec fn frame_step(
    phase: Phase,
    owner: Seq<char>,
    conns: Map<Seq<char>, Seq<SocketMessage>>,
    frame: Frame,
) -> (Phase, Seq<char>, Map<Seq<char>, Seq<SocketMessage>>, Option<Seq<char>>) {
    match phase {
        Phase::Handshaking => match frame {
            Frame::Text(t) => {
                let id = session_id_of(t@);
                if conns.contains_key(id) {
                    (Phase::Closed, id, conns, Some(duplicate_notice()))
                } else {
                    (Phase::Active, id, conns.insert(id, Seq::empty()), None)
                }
            },
            Frame::Close => (Phase::Closed, owner, conns, None),
            _ => (phase, owner, conns, None),
        },
        Phase::Active => match frame {
            Frame::Close => (Phase::Closed, owner, conns.remove(owner), None),
            _ => (phase, owner, conns, None),
        },
        Phase::Closed => (phase, owner, conns, None),
    }
}

/// Connection registry and frames to send when an active connection relays
/// what is queued for it.
pub open spec fn relay_step(phase: Phase, owner: Seq<char>, conns: Map<Seq<char>, Seq<SocketMessage>>) -> (
    Map<Seq<char>, Seq<SocketMessage>>,
    Seq<Seq<char>>,
) {
    if phase == Phase::Active && conns.contains_key(owner) {
        (conns.insert(owner, Seq::empty()), frames_of(conns[owner]))
    } else {
        (conns, Seq::empty())
    }
}

/// Connection registry after the connection ends, by the transport closing
/// or a send failing.
pub open spec fn end_step(phase: Phase, owner: Seq<char>, conns: Map<Seq<char>, Seq<SocketMessage>>) -> Map<
    Seq<char>,
    Seq<SocketMessage>,
> {
    if phase == Phase::Active {
        conns.remove(owner)
    } else {
        conns
    }
}

/// The session id named by an identity frame's text.
pub fn parse_session_id(text: &String) -> (r: String)
    ensures
        r@ == session_id_of(text@),
{
    let (id, _) = split_after_last(text, ';');
    id
}

/// The frames for `q`, in order, leaving out pending messages.
pub fn render_frames(q: &Vec<SocketMessage>) -> (r: Vec<String>)
    ensures
        r.deep_view() == frames_of(q@),
{
    let mut out: Vec<String> = Vec::new();
    let mut i: usize = 0;
    assert(q@.subrange(0, 0) =~= Seq::<SocketMessage>::empty());
    while i < q.len()
        invariant
            i <= q@.len(),
            out.deep_view() == frames_of(q@.subrange(0, i as int)),
        decreases q@.len() - i,
    {
        let ghost before = out.deep_view();
        assert(q@.subrange(0, i + 1).drop_last() =~= q@.subrange(0, i as int));
        match q[i].to_frame() {
            Some(f) => {
                let ghost fv = f@;
                out.push(f);
                assert(out.deep_view() =~= before.push(fv));
            },
            None => {},
        }
        i = i + 1;
    }
    assert(q@.subrange(0, q@.len() as int) =~= q@);
    out
}

impl View for SocketSession {
    type V = (Phase, Seq<char>);

    closed spec fn view(&self) -> (Phase, Seq<char>) {
        (self.phase, self.owner@)
    }
}

impl SocketSession {
    /// A connection that has just been opened and waits for its identity.
    pub fn new() -> (r: SocketSession)
        ensures
            r@ == (Phase::Handshaking, Seq::<char>::empty()),
    {
        SocketSession { phase: Phase::Handshaking, owner: String::new() }
    }

    pub fn phase(&self) -> (r: Phase)
        ensures
            r == self@.0,
    {
        self.phase
    }

    /// The session id, once the identity frame has named it.
    pub fn owner(&self) -> (r: &String)
        ensures
            r@ == self@.1,
    {
        &self.owner
    }

    pub fn is_closed(&self) -> (r: bool)
        ensures
            r == (self@.0 == Phase::Closed),
    {
        self.phase == Phase::Closed
    }

    /// Handles a frame from the client. While handshaking, the first text
    /// frame names the session: it is registered, or, when it already has a
    /// live connection, this one is rejected and closed, and the returned
    /// frame must be sent before closing. A close frame ends the connection
    /// and deregisters it; every other frame is ignored.
    pub fn on_frame(&mut self, conns: &mut ConnectionRegistry, frame: Frame) -> (r: Option<String>)
        requires
            old(conns).wf(),
        ensures
            final(conns).wf(),
            ({
                let (p, o, c, out) = frame_step(old(self)@.0, old(self)@.1, old(conns)@, frame);
                &&& final(self)@ == (p, o)
                &&& final(conns)@ == c
                &&& match r {
                    Some(t) => out == Some(t@),
                    None => out is None,
                }
            }),
    {
        match self.phase {
            Phase::Handshaking => match frame {
                Frame::Text(t) => {
                    let id = parse_session_id(&t);
                    match conns.register(id.clone()) {
                        Ok(()) => {
                            self.phase = Phase::Active;
                            self.owner = id;
                            None
                        },
                        Err(_) => {
                            self.phase = Phase::Closed;
                            self.owner = id;
                            proof { reveal_strlit("duplicate-connection"); }
                            Some(String::from_str("duplicate-connection"))
                        },
                    }
                },
                Frame::Close => {
                    self.phase = Phase::Closed;
                    None
                },
                _ => None,
            },
            Phase::Active => match frame {
                Frame::Close => {
                    conns.remove(&self.owner);
                    self.phase = Phase::Closed;
                    None
                },
                _ => None,
            },
            Phase::Closed => None,
        }
    }

    /// Takes what is queued for this connection and returns the frames to
    /// send, in order. Only an active connection relays.
    pub fn relay(&self, conns: &mut ConnectionRegistry) -> (r: Vec<String>)
        requires
            old(conns).wf(),
        ensures
            final(conns).wf(),
            (final(conns)@, r.deep_view()) == relay_step(self@.0, self@.1, old(conns)@),
    {
        if self.phase == Phase::Active {
            let queued = conns.take_pending(&self.owner);
            let frames = render_frames(&queued);
            proof {
                if !old(conns)@.contains_key(self.owner@) {
                    assert(frames.deep_view() =~= Seq::<Seq<char>>::empty());
                }
            }
            frames
        } else {
            let frames: Vec<String> = Vec::new();
            assert(frames.deep_view() =~= Seq::<Seq<char>>::empty());
            frames
        }
    }

    /// The transport closed or a send failed: the connection ends and an
    /// active one is deregistered.
    pub fn end(&mut self, conns: &mut ConnectionRegistry)
        requires
            old(conns).wf(),
        ensures
            final(conns).wf(),
            final(self)@ == (Phase::Closed, old(self)@.1),
            final(conns)@ == end_step(old(self)@.0, old(self)@.1, old(conns)@),
    {
        if self.phase == Phase::Active {
            conns.remove(&self.owner);
        }
        self.phase = Phase::Closed;
    }
}

/// Of two connections that name the same session, the first registers and
/// stays active; the second is refused with the duplicate notice, and
/// neither its refusal nor its end disturbs the first, which still relays
/// what is queued for the session afterwards.
pub proof fn lemma_second_connection_refused(
    conns: Map<Seq<char>, Seq<SocketMessage>>,
    first: String,
    second: String,
    later: SocketMessage,
)
    requires
        session_id_of(first@) == session_id_of(second@),
        !conns.contains_key(session_id_of(first@)),
    ensures
        ({
            let id = session_id_of(first@);
            let (pa, oa, c1, out_a) = frame_step(Phase::Handshaking, Seq::empty(), conns, Frame::Text(first));
            let (pb, ob, c2, out_b) = frame_step(Phase::Handshaking, Seq::empty(), c1, Frame::Text(second));
            let c3 = end_step(pb, ob, c2);
            &&& pa == Phase::Active && oa == id && out_a is None
            &&& c1 == conns.insert(id, Seq::empty())
            &&& pb == Phase::Closed && out_b == Some(duplicate_notice())
            &&& c2 == c1
            &&& c3 == c1
            &&& relay_step(pa, oa, c3.insert(id, c3[id].push(later))).1 == frames_of(seq![later])
        }),
{
    let id = session_id_of(first@);
    assert(Seq::<SocketMessage>::empty().push(later) =~= seq![later]);
}

} // verus!
