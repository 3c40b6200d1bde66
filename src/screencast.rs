//! The values exchanged with the screen-cast broker.
use crate::unique_token::UniqueToken;
use vstd::prelude::*;

verus! {

/// A set of source kinds, as a bit mask.
#[derive(Debug, Clone, Copy, PartialEq, Eq, Structural)]
pub struct SourceType(pub u32);

impl SourceType {
    /// Whole monitors.
    pub fn monitor() -> (r: Self)
        ensures
            r.0 == 1,
    {
        SourceType(1)
    }

    /// Single windows.
    pub fn window() -> (r: Self)
        ensures
            r.0 == 2,
    {
        SourceType(2)
    }

    /// Virtual desktops.
    pub fn virtual_desktop() -> (r: Self)
        ensures
            r.0 == 4,
    {
        SourceType(4)
    }

    /// The union of two sets of source kinds.
    pub fn bitor(self, rhs: Self) -> (r: Self)
        ensures
            r.0 == self.0 | rhs.0,
    {
        SourceType(self.0 | rhs.0)
    }
}

/// How the cursor appears in the stream, as a bit mask.
#[derive(Debug, Clone, Copy, PartialEq, Eq, Structural)]
pub struct CursorMode(pub u32);

impl CursorMode {
    /// The cursor is not shown.
    pub fn hidden() -> (r: Self)
        ensures
            r.0 == 1,
    {
        CursorMode(1)
    }

    /// The cursor is drawn into the stream.
    pub fn embedded() -> (r: Self)
        ensures
            r.0 == 2,
    {
        CursorMode(2)
    }

    /// The cursor position is sent beside the stream.
    pub fn metadata() -> (r: Self)
        ensures
            r.0 == 4,
    {
        CursorMode(4)
    }

    /// The union of two cursor modes.
    pub fn bitor(self, rhs: Self) -> (r: Self)
        ensures
            r.0 == self.0 | rhs.0,
    {
        CursorMode(self.0 | rhs.0)
    }
}

/// How long the broker keeps a consent decision.
#[derive(Debug, Clone, Copy, PartialEq, Eq, Structural)]
pub enum PersistMode {
    /// Not at all.
    DoNot,
    /// While the application runs.
    Application,
    /// Until the user revokes it.
    ExplicitlyRevoked,
}

impl PersistMode {
    pub open spec fn spec_code(self) -> u32 {
        match self {
            PersistMode::DoNot => 0,
            PersistMode::Application => 1,
            PersistMode::ExplicitlyRevoked => 2,
        }
    }

    /// The numeric value sent to the broker.
    pub fn code(&self) -> (r: u32)
        ensures
            r == self.spec_code(),
    {
        match self {
            PersistMode::DoNot => 0,
            PersistMode::Application => 1,
            PersistMode::ExplicitlyRevoked => 2,
        }
    }
}

/// Options of the create-session call.
#[derive(Debug)]
pub struct CreateSessionOptions {
    pub handle_token: UniqueToken,
    pub session_handle_token: UniqueToken,
}

impl CreateSessionOptions {
    /// Options with two fresh tokens.
    pub fn new() -> (r: Self)
        ensures
            r.handle_token.wf(),
            r.session_handle_token.wf(),
    {
        CreateSessionOptions {
            handle_token: UniqueToken::new(),
            session_handle_token: UniqueToken::new(),
        }
    }
}

impl Default for CreateSessionOptions {
    fn default() -> (r: Self)
        ensures
            r.handle_token.wf(),
            r.session_handle_token.wf(),
    {
        CreateSessionOptions::new()
    }
}

/// Reply body of the create-session call.
#[derive(Debug)]
pub struct CreateSessionResponse {
    pub session_handle: Option<String>,
}

/// Options of the select-sources call.
#[derive(Debug)]
pub struct SelectSourcesOptions {
    pub handle_token: UniqueToken,
    pub types: Option<SourceType>,
    pub multiple: Option<bool>,
    pub cursor_mode: Option<CursorMode>,
    pub restore_token: Option<String>,
    pub persist_mode: Option<PersistMode>,
}

/// Options of the start-cast call.
#[derive(Debug)]
pub struct StartCastOptions {
    pub handle_token: UniqueToken,
}

impl StartCastOptions {
    pub fn new_from(token: &UniqueToken) -> (r: Self)
        ensures
            r.handle_token@ == token@,
            token.wf() ==> r.handle_token.wf(),
    {
        StartCastOptions { handle_token: token.clone() }
    }
}

/// Properties the broker reports for one stream.
#[derive(Debug, Clone)]
pub struct StreamProperties {
    pub id: Option<String>,
    pub position: Option<(i32, i32)>,
    pub size: Option<(i32, i32)>,
    pub source_type: Option<SourceType>,
}

impl StreamProperties {
    pub fn new(
        id: Option<String>,
        position: Option<(i32, i32)>,
        size: Option<(i32, i32)>,
        source_type: Option<SourceType>,
    ) -> (r: Self)
        ensures
            r.id == id,
            r.position == position,
            r.size == size,
            r.source_type == source_type,
    {
        StreamProperties { id, position, size, source_type }
    }

    /// The broker's identifier of the stream.
    pub fn id(&self) -> (r: Option<String>)
        ensures
            r == self.id,
    {
        match &self.id {
            Some(s) => Some(s.clone()),
            None => None,
        }
    }

    /// The position, as `(x, y)`.
    pub fn position(&self) -> (r: Option<(i32, i32)>)
        ensures
            r == self.position,
    {
        self.position
    }

    /// The size, as `(width, height)`.
    pub fn size(&self) -> (r: Option<(i32, i32)>)
        ensures
            r == self.size,
    {
        self.size
    }

    pub fn source_type(&self) -> (r: Option<SourceType>)
        ensures
            r == self.source_type,
    {
        self.source_type
    }
}

/// One raw source record: its pipewire node and its properties.
#[derive(Debug, Clone)]
pub struct Stream(pub u32, pub StreamProperties);

impl Stream {
    pub fn new(pipewire_path: u32, properties: StreamProperties) -> (r: Self)
        ensures
            r.0 == pipewire_path,
            r.1 == properties,
    {
        Stream(pipewire_path, properties)
    }

    /// The pipewire node of the stream.
    pub fn pipewire_path(&self) -> (r: u32)
        ensures
            r == self.0,
    {
        self.0
    }

    pub fn properties(&self) -> (r: &StreamProperties)
        ensures
            *r == self.1,
    {
        &self.1
    }
}

/// Reply body of the start-cast call.
#[derive(Debug)]
pub struct StartCastResponse {
    pub streams: Vec<Stream>,
    pub restore_token: Option<String>,
}

} // verus!
