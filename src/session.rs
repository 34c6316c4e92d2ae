//! The lifecycle of the single decode session: one at a time, and the old one
//! fully stopped before a new one is started.

use vstd::prelude::*;

verus! {

/// Opening of a decode pipeline description, up to the stream address.
pub const PIPELINE_HEAD: &'static str = "rtspsrc location=";

/// Rest of a decode pipeline description after the stream address: TCP
/// transport, no added latency, hardware H.264 decode, BGRA at the panel's
/// size, and a sink that keeps only the newest frame.
pub const PIPELINE_TAIL: &'static str = " latency=0 protocols=tcp ! rtph264depay ! h264parse ! v4l2h264dec ! videoconvert ! video/x-raw,format=BGRA,width=800,height=480 ! appsink name=sink drop=true max-buffers=1";

/// Name of the frame sink inside a pipeline description.
pub const SINK_NAME: &'static str = "sink";

/// Description of the decode pipeline for the stream at `url`.
pub fn pipeline_description(url: &str) -> (r: String)
    ensures
        r@ == PIPELINE_HEAD@ + url@ + PIPELINE_TAIL@,
{
    let mut d = String::from_str(PIPELINE_HEAD);
    d.append(url);
    d.append(PIPELINE_TAIL);
    d
}

/// Where the session stands.
#[derive(Clone, Copy, Debug, PartialEq, Eq, Structural)]
pub enum SessionState {
    /// Its decode resource is being built and activated.
    Starting,
    /// Its decode resource delivers frames.
    Playing,
    /// No decode resource is held.
    Stopped,
}

/// A lifecycle step asked for in the wrong state.
#[derive(Clone, Copy, Debug, PartialEq, Eq, Structural)]
pub enum SessionError {
    /// A start was asked for while a decode resource is still held.
    StillActive,
    /// The outcome of a start was reported while none was under way.
    NotStarting,
    /// A stop was asked for while no decode resource is held.
    NotActive,
}

/// State after a start is begun from `s`, if one may be.
pub open spec fn begin_start_next(s: SessionState) -> Option<SessionState> {
    if s == SessionState::Stopped {
        Some(SessionState::Starting)
    } else {
        None
    }
}

/// State after a stop from `s`, if one may be asked for.
pub open spec fn stop_next(s: SessionState) -> Option<SessionState> {
    if s == SessionState::Stopped {
        None
    } else {
        Some(SessionState::Stopped)
    }
}

/// Whether a decode resource is held in state `s`.
pub open spec fn holds_resource(s: SessionState) -> bool {
    s != SessionState::Stopped
}

/// The slot of the one current session, and the camera it belongs to.
pub struct SessionSlot {
    state: SessionState,
    camera: usize,
}

impl SessionSlot {
    pub closed spec fn state_of(&self) -> SessionState {
        self.state
    }

    pub closed spec fn camera_of(&self) -> nat {
        self.camera as nat
    }

    /// An empty slot.
    pub fn new() -> (r: SessionSlot)
        ensures
            r.state_of() == SessionState::Stopped,
            r.camera_of() == 0,
    {
        SessionSlot { state: SessionState::Stopped, camera: 0 }
    }

    pub fn state(&self) -> (r: SessionState)
        ensures
            r == self.state_of(),
    {
        self.state
    }

    /// Camera of the current or last session.
    pub fn camera(&self) -> (r: usize)
        ensures
            r == self.camera_of(),
    {
        self.camera
    }

    /// Begins a session for `camera`; refused while the previous one still
    /// holds its decode resource.
    pub fn begin_start(&mut self, camera: usize) -> (r: Result<(), SessionError>)
        ensures
            r is Ok <==> begin_start_next(old(self).state_of()) is Some,
            r matches Ok(_) ==> final(self).state_of() == SessionState::Starting
                && final(self).camera_of() == camera,
            r matches Err(e) ==> e == SessionError::StillActive && *final(self) == *old(self),
    {
        match self.state {
            SessionState::Stopped => {
                self.state = SessionState::Starting;
                self.camera = camera;
                Ok(())
            },
            _ => Err(SessionError::StillActive),
        }
    }

    /// Records that the session's decode resource was built and activated.
    pub fn started(&mut self) -> (r: Result<(), SessionError>)
        ensures
            r is Ok <==> old(self).state_of() == SessionState::Starting,
            r matches Ok(_) ==> final(self).state_of() == SessionState::Playing
                && final(self).camera_of() == old(self).camera_of(),
            r matches Err(e) ==> e == SessionError::NotStarting && *final(self) == *old(self),
    {
        match self.state {
            SessionState::Starting => {
                self.state = SessionState::Playing;
                Ok(())
            },
            _ => Err(SessionError::NotStarting),
        }
    }

    /// Records that building the session's decode resource failed: nothing
    /// is held any more.
    pub fn start_failed(&mut self) -> (r: Result<(), SessionError>)
        ensures
            r is Ok <==> old(self).state_of() == SessionState::Starting,
            r matches Ok(_) ==> final(self).state_of() == SessionState::Stopped
                && final(self).camera_of() == old(self).camera_of(),
            r matches Err(e) ==> e == SessionError::NotStarting && *final(self) == *old(self),
    {
        match self.state {
            SessionState::Starting => {
                self.state = SessionState::Stopped;
                Ok(())
            },
            _ => Err(SessionError::NotStarting),
        }
    }

    /// Records that the session's decode resource was released; a second
    /// stop of the same session is refused.
    pub fn stop(&mut self) -> (r: Result<(), SessionError>)
        ensures
            r is Ok <==> stop_next(old(self).state_of()) is Some,
            r matches Ok(_) ==> final(self).state_of() == SessionState::Stopped
                && final(self).camera_of() == old(self).camera_of(),
            r matches Err(e) ==> e == SessionError::NotActive && *final(self) == *old(self),
    {
        match self.state {
            SessionState::Stopped => Err(SessionError::NotActive),
            _ => {
                self.state = SessionState::Stopped;
                Ok(())
            },
        }
    }
}

/// A start is only ever begun when no decode resource is held, and a stop
/// always leaves the slot in a state from which a start may begin: two decode
/// resources never exist at once.
pub proof fn lemma_stop_before_start(s: SessionState)
    ensures
        begin_start_next(s) is Some ==> !holds_resource(s),
        holds_resource(s) ==> begin_start_next(s) is None,
        stop_next(s) matches Some(t) ==> !holds_resource(t) && begin_start_next(t) is Some,
{
}

} // verus!
