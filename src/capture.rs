//! The capture-session negotiation, as a state machine.
//!
//! Each broker interaction is a step: the manager hands out the options of the
//! next call, and is then given the correlated reply of that call.
use crate::screencast::{
    CreateSessionOptions, CreateSessionResponse, CursorMode, PersistMode, SelectSourcesOptions,
    SourceType, StartCastOptions, StartCastResponse, Stream,
};
use crate::session_request::{is_object_path, is_valid_object_path, path_view, CorrelationError};
use crate::unique_token::UniqueToken;
use vstd::prelude::*;

verus! {

/// Why a negotiation step failed.
#[derive(Debug, Clone, Copy, PartialEq, Eq, Structural)]
pub enum Error {
    /// A negotiation is already under way or a session is live.
    AlreadyStarted,
    /// There is no restore token to store.
    FailedTokenOperation,
    /// A broker request failed.
    Broker(CorrelationError),
    /// A successful create-session reply did not name the session.
    MissingSessionHandle,
    /// The session named by the create-session reply is not an object path.
    InvalidSessionHandle,
}

/// Where the negotiation stands.
#[derive(Debug, Clone, Copy, PartialEq, Eq, Structural)]
pub enum CaptureState {
    /// No session and no negotiation under way.
    Idle,
    /// The create-session call is out.
    AwaitingSession,
    /// A session exists; the select-sources call is out.
    SessionCreated,
    /// Sources are chosen; the start-cast call is out.
    SourcesSelected,
    /// The cast runs.
    Streaming,
}

/// One capturable source, as exposed to clients.
#[derive(Debug, Clone)]
pub struct Desktop {
    /// The broker's identifier of the source.
    pub id: String,
    /// Sequential index among the retained sources.
    pub loded_id: u64,
    /// The pipewire node of the source.
    pub pipewire_path: u32,
    pub width: i32,
    pub height: i32,
    /// The port its encoder streams to, once one runs.
    pub port: Option<u16>,
}

pub struct DesktopView {
    pub id: Seq<char>,
    pub loded_id: u64,
    pub pipewire_path: u32,
    pub width: i32,
    pub height: i32,
    pub port: Option<u16>,
}

impl View for Desktop {
    type V = DesktopView;

    open spec fn view(&self) -> DesktopView {
        DesktopView {
            id: self.id@,
            loded_id: self.loded_id,
            pipewire_path: self.pipewire_path,
            width: self.width,
            height: self.height,
            port: self.port,
        }
    }
}

pub open spec fn desktops_view(ds: Seq<Desktop>) -> Seq<DesktopView> {
    ds.map_values(|d: Desktop| d@)
}

/// A raw source record is usable when it has both a size and an identifier.
pub open spec fn viable(s: Stream) -> bool {
    s.1.size is Some && s.1.id is Some
}

pub open spec fn viable_streams(streams: Seq<Stream>) -> Seq<Stream> {
    streams.filter(|s: Stream| viable(s))
}

/// The desktop made of a usable record, with the given index.
pub open spec fn desktop_of(s: Stream, index: int) -> DesktopView {
    DesktopView {
        id: match s.1.id {
            Some(id) => id@,
            None => Seq::empty(),
        },
        loded_id: index as u64,
        pipewire_path: s.0,
        width: match s.1.size {
            Some(sz) => sz.0,
            None => 0,
        },
        height: match s.1.size {
            Some(sz) => sz.1,
            None => 0,
        },
        port: None,
    }
}

/// The usable records, in order, indexed from zero.
pub open spec fn filtered_desktops(streams: Seq<Stream>) -> Seq<DesktopView> {
    let f = viable_streams(streams);
    Seq::new(f.len(), |j: int| desktop_of(f[j], j))
}

/// The desktops whose encoder started, each with its port.
pub open spec fn with_ports(ds: Seq<DesktopView>, ports: Seq<Option<u16>>) -> Seq<DesktopView>
    decreases ds.len(),
{
    if ds.len() == 0 || ports.len() == 0 {
        Seq::empty()
    } else {
        let prev = with_ports(ds.drop_last(), ports.drop_last());
        match ports.last() {
            Some(p) => prev.push(DesktopView { port: Some(p), ..ds.last() }),
            None => prev,
        }
    }
}

/// The manager's state: the restore token it holds, the live session and
/// the negotiation step.
pub struct CaptureView {
    pub token: Option<Seq<char>>,
    pub session: Option<Seq<char>>,
    pub state: CaptureState,
}

pub open spec fn idle_view() -> CaptureView {
    CaptureView { token: None, session: None, state: CaptureState::Idle }
}

/// A negotiation starts with the token that was read from storage.
pub open spec fn begun(stored: Option<Seq<char>>) -> CaptureView {
    CaptureView { token: stored, session: None, state: CaptureState::AwaitingSession }
}

/// After a failed step: the session is released, the token kept.
pub open spec fn released(v: CaptureView) -> CaptureView {
    CaptureView { token: v.token, session: None, state: CaptureState::Idle }
}

pub open spec fn session_opened(v: CaptureView, path: Seq<char>) -> CaptureView {
    CaptureView { token: v.token, session: Some(path), state: CaptureState::SessionCreated }
}

pub open spec fn sources_chosen(v: CaptureView) -> CaptureView {
    CaptureView { token: v.token, session: v.session, state: CaptureState::SourcesSelected }
}

/// The cast runs; the token granted by the broker replaces the old one.
pub open spec fn streaming(v: CaptureView, granted: Option<Seq<char>>) -> CaptureView {
    CaptureView { token: granted, session: v.session, state: CaptureState::Streaming }
}

/// Options of the select-sources call: monitors, several at once, the
/// cursor drawn in, the held restore token, consent kept until revoked.
pub open spec fn select_options_ok(o: SelectSourcesOptions, token: Option<Seq<char>>) -> bool {
    &&& o.handle_token.wf()
    &&& o.types == Some(SourceType(1))
    &&& o.multiple == Some(true)
    &&& o.cursor_mode == Some(CursorMode(2))
    &&& path_view(o.restore_token) == token
    &&& o.persist_mode == Some(PersistMode::ExplicitlyRevoked)
}

/// Drives one capture negotiation against the broker.
pub struct CaptureManager {
    token: Option<String>,
    session: Option<String>,
    state: CaptureState,
}

impl View for CaptureManager {
    type V = CaptureView;

    closed spec fn view(&self) -> CaptureView {
        CaptureView {
            token: path_view(self.token),
            session: path_view(self.session),
            state: self.state,
        }
    }
}

impl CaptureManager {
    /// A session exists exactly in the states after its creation.
    pub open spec fn wf(&self) -> bool {
        (self@.session is Some) <==> (self@.state == CaptureState::SessionCreated || self@.state
            == CaptureState::SourcesSelected || self@.state == CaptureState::Streaming)
    }

    pub fn new() -> (r: Self)
        ensures
            r@ == idle_view(),
            r.wf(),
    {
        CaptureManager { token: None, session: None, state: CaptureState::Idle }
    }

    pub fn state(&self) -> (r: CaptureState)
        ensures
            r == self@.state,
    {
        self.state
    }

    /// The path of the live session, if any.
    pub fn session(&self) -> (r: Option<String>)
        ensures
            path_view(r) == self@.session,
    {
        match &self.session {
            Some(s) => Some(s.clone()),
            None => None,
        }
    }

    /// The restore token held, if any.
    pub fn token(&self) -> (r: Option<String>)
        ensures
            path_view(r) == self@.token,
    {
        match &self.token {
            Some(s) => Some(s.clone()),
            None => None,
        }
    }

    fn release(&mut self)
        ensures
            final(self)@ == released(old(self)@),
    {
        self.session = None;
        self.state = CaptureState::Idle;
    }

    /// Starts a negotiation with the restore token read from storage (`None`
    /// when absent or unreadable), and hands out the create-session options.
    /// Refused while a negotiation is under way or a session is live.
    pub fn begin_capture(&mut self, stored_token: Option<String>) -> (r: Result<
        CreateSessionOptions,
        Error,
    >)
        requires
            old(self).wf(),
        ensures
            final(self).wf(),
            old(self)@.state != CaptureState::Idle ==> r == Err::<CreateSessionOptions, Error>(
                Error::AlreadyStarted,
            ) && final(self)@ == old(self)@,
            old(self)@.state == CaptureState::Idle ==> r is Ok && final(self)@ == begun(
                path_view(stored_token),
            ),
            r matches Ok(o) ==> o.handle_token.wf() && o.session_handle_token.wf(),
    {
        if self.state != CaptureState::Idle {
            return Err(Error::AlreadyStarted);
        }
        self.token = stored_token;
        self.session = None;
        self.state = CaptureState::AwaitingSession;
        Ok(CreateSessionOptions::new())
    }

    /// Takes the create-session reply; on success hands out the
    /// select-sources options.
    pub fn session_created(&mut self, reply: Result<CreateSessionResponse, CorrelationError>) -> (r:
        Result<SelectSourcesOptions, Error>)
        requires
            old(self).wf(),
            old(self)@.state == CaptureState::AwaitingSession,
        ensures
            final(self).wf(),
            reply matches Err(e) ==> r == Err::<SelectSourcesOptions, Error>(Error::Broker(e))
                && final(self)@ == released(old(self)@),
            reply matches Ok(c) ==> (c.session_handle is None ==> r == Err::<
                SelectSourcesOptions,
                Error,
            >(Error::MissingSessionHandle) && final(self)@ == released(old(self)@)),
            reply matches Ok(c) ==> (c.session_handle matches Some(p) ==> !is_object_path(p@) ==> r
                == Err::<SelectSourcesOptions, Error>(Error::InvalidSessionHandle) && final(self)@
                == released(old(self)@)),
            reply matches Ok(c) ==> (c.session_handle matches Some(p) ==> is_object_path(p@) ==> r
                is Ok && final(self)@ == session_opened(old(self)@, p@)),
            r matches Ok(o) ==> select_options_ok(o, old(self)@.token),
    {
        match reply {
            Err(e) => {
                self.release();
                Err(Error::Broker(e))
            },
            Ok(c) => match c.session_handle {
                None => {
                    self.release();
                    Err(Error::MissingSessionHandle)
                },
                Some(path) => {
                    if !is_valid_object_path(path.as_str()) {
                        self.release();
                        return Err(Error::InvalidSessionHandle);
                    }
                    self.session = Some(path);
                    self.state = CaptureState::SessionCreated;
                    let restore_token = match &self.token {
                        Some(t) => Some(t.clone()),
                        None => None,
                    };
                    Ok(
                        SelectSourcesOptions {
                            handle_token: UniqueToken::new(),
                            types: Some(SourceType::monitor()),
                            multiple: Some(true),
                            cursor_mode: Some(CursorMode::embedded()),
                            restore_token,
                            persist_mode: Some(PersistMode::ExplicitlyRevoked),
                        },
                    )
                },
            },
        }
    }

    /// Takes the select-sources reply; on success hands out the start-cast
    /// options.
    pub fn sources_selected(&mut self, reply: Result<(), CorrelationError>) -> (r: Result<
        StartCastOptions,
        Error,
    >)
        requires
            old(self).wf(),
            old(self)@.state == CaptureState::SessionCreated,
        ensures
            final(self).wf(),
            reply matches Err(e) ==> r == Err::<StartCastOptions, Error>(Error::Broker(e))
                && final(self)@ == released(old(self)@),
            reply is Ok ==> r is Ok && final(self)@ == sources_chosen(old(self)@),
            r matches Ok(o) ==> o.handle_token.wf(),
    {
        match reply {
            Err(e) => {
                self.release();
                Err(Error::Broker(e))
            },
            Ok(()) => {
                self.state = CaptureState::SourcesSelected;
                let handle = UniqueToken::new();
                Ok(StartCastOptions::new_from(&handle))
            },
        }
    }

    /// Takes the start-cast reply; on success keeps the granted restore token
    /// and returns the usable sources, indexed from zero, without ports.
    pub fn cast_started(&mut self, reply: Result<StartCastResponse, CorrelationError>) -> (r:
        Result<Vec<Desktop>, Error>)
        requires
            old(self).wf(),
            old(self)@.state == CaptureState::SourcesSelected,
        ensures
            final(self).wf(),
            reply matches Err(e) ==> r == Err::<Vec<Desktop>, Error>(Error::Broker(e))
                && final(self)@ == released(old(self)@),
            reply matches Ok(c) ==> final(self)@ == streaming(
                old(self)@,
                path_view(c.restore_token),
            ) && (r matches Ok(ds) && desktops_view(ds@) == filtered_desktops(c.streams@)),
    {
        match reply {
            Err(e) => {
                self.release();
                Err(Error::Broker(e))
            },
            Ok(c) => {
                self.token = c.restore_token;
                self.state = CaptureState::Streaming;
                Ok(filter_desktops(&c.streams))
            },
        }
    }

    /// The restore token to store, or `FailedTokenOperation` when none is held.
    pub fn token_to_write(&self) -> (r: Result<String, Error>)
        ensures
            self@.token matches Some(t) ==> r matches Ok(s) && s@ == t,
            self@.token is None ==> r == Err::<String, Error>(Error::FailedTokenOperation),
    {
        match &self.token {
            Some(t) => Ok(t.clone()),
            None => Err(Error::FailedTokenOperation),
        }
    }
}

/// The usable records of a raw source list, in order, indexed from zero.
pub fn filter_desktops(streams: &Vec<Stream>) -> (r: Vec<Desktop>)
    ensures
        desktops_view(r@) == filtered_desktops(streams@),
{
    let n = streams.len();
    let mut out: Vec<Desktop> = Vec::new();
    let mut i: usize = 0;
    assert(streams@.subrange(0, 0).filter(|s: Stream| viable(s)) =~= Seq::<Stream>::empty()) by {
        reveal(Seq::filter);
    }
    while i < n
        invariant
            n == streams@.len(),
            0 <= i <= n,
            out@.len() == viable_streams(streams@.subrange(0, i as int)).len(),
            out@.len() <= i,
            forall|j: int|
                0 <= j < out@.len() ==> #[trigger] out@[j]@ == desktop_of(
                    viable_streams(streams@.subrange(0, i as int))[j],
                    j,
                ),
        decreases n - i,
    {
        let ghost prev = streams@.subrange(0, i as int);
        let ghost next = streams@.subrange(0, i + 1);
        assert(next.drop_last() =~= prev);
        assert(next.last() == streams@[i as int]);
        assert(viable_streams(next) == if viable(streams@[i as int]) {
            viable_streams(prev).push(streams@[i as int])
        } else {
            viable_streams(prev)
        }) by {
            reveal(Seq::filter);
        }
        let s = &streams[i];
        match (&s.1.size, &s.1.id) {
            (Some(size), Some(id)) => {
                let d = Desktop {
                    id: id.clone(),
                    loded_id: out.len() as u64,
                    pipewire_path: s.0,
                    width: size.0,
                    height: size.1,
                    port: None,
                };
                out.push(d);
            },
            _ => {},
        }
        i += 1;
    }
    assert(streams@.subrange(0, n as int) =~= streams@);
    assert(desktops_view(out@) =~= filtered_desktops(streams@));
    out
}

/// Keeps the desktops whose encoder started (`Some` port), each with its port.
pub fn attach_ports(desktops: Vec<Desktop>, ports: Vec<Option<u16>>) -> (r: Vec<Desktop>)
    requires
        desktops@.len() == ports@.len(),
    ensures
        desktops_view(r@) == with_ports(desktops_view(desktops@), ports@),
{
    let n = desktops.len();
    let mut out: Vec<Desktop> = Vec::new();
    let mut i: usize = 0;
    let ghost dv = desktops_view(desktops@);
    while i < n
        invariant
            n == desktops@.len(),
            n == ports@.len(),
            dv == desktops_view(desktops@),
            0 <= i <= n,
            desktops_view(out@) == with_ports(dv.subrange(0, i as int), ports@.subrange(0, i as int)),
        decreases n - i,
    {
        let ghost before = out@;
        assert(dv.subrange(0, i + 1).drop_last() =~= dv.subrange(0, i as int));
        assert(ports@.subrange(0, i + 1).drop_last() =~= ports@.subrange(0, i as int));
        match ports[i] {
            Some(p) => {
                let d = &desktops[i];
                out.push(
                    Desktop {
                        id: d.id.clone(),
                        loded_id: d.loded_id,
                        pipewire_path: d.pipewire_path,
                        width: d.width,
                        height: d.height,
                        port: Some(p),
                    },
                );
                assert(desktops_view(out@) =~= desktops_view(before).push(
                    DesktopView { port: Some(p), ..dv[i as int] },
                ));
            },
            None => {},
        }
        i += 1;
    }
    assert(dv.subrange(0, n as int) =~= dv);
    assert(ports@.subrange(0, n as int) =~= ports@);
    out
}

/// Of a raw source list, exactly the records with both an identifier and a
/// size become desktops, in their order, with indices `0..K`.
pub proof fn lemma_partial_filtering(streams: Seq<Stream>)
    requires
        streams.len() <= usize::MAX,
    ensures
        filtered_desktops(streams).len() == viable_streams(streams).len(),
        viable_streams(streams).len() <= streams.len(),
        forall|j: int|
            0 <= j < filtered_desktops(streams).len() ==> {
                &&& #[trigger] filtered_desktops(streams)[j].loded_id == j
                &&& filtered_desktops(streams)[j] == desktop_of(viable_streams(streams)[j], j)
                &&& viable(viable_streams(streams)[j])
            },
{
    broadcast use vstd::seq_lib::group_filter_ensures;

    let f = viable_streams(streams);
    assert forall|j: int| 0 <= j < filtered_desktops(streams).len() implies {
        &&& #[trigger] filtered_desktops(streams)[j].loded_id == j
        &&& filtered_desktops(streams)[j] == desktop_of(f[j], j)
        &&& viable(f[j])
    } by {
        streams.lemma_filter_pred(|s: Stream| viable(s), j);
    }
}

/// The token granted by start-cast is the one stored, and a later negotiation
/// that reads it back offers it in its select-sources call.
pub proof fn lemma_restore_token_round_trip(
    v: CaptureView,
    granted: Seq<char>,
    path: Seq<char>,
    o: SelectSourcesOptions,
)
    requires
        select_options_ok(o, session_opened(begun(streaming(v, Some(granted)).token), path).token),
    ensures
        streaming(v, Some(granted)).token == Some(granted),
        path_view(o.restore_token) == Some(granted),
{
}

} // verus!
