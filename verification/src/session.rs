use vstd::prelude::*;

use crate::json::{entries_view, JsonField, JsonFieldView};

verus! {

/// Lifecycle of a realtime voice-conversion session.
#[derive(Debug, Clone, Copy, PartialEq, Eq, Structural)]
pub enum RealtimeSessionStatus {
    Idle,
    Connecting,
    Running,
    Stopping,
    Stopped,
    Failed,
}

/// Named conversion parameters (speech rate, pitch, prompt, ...) as JSON values.
#[derive(Debug, Clone, PartialEq, Eq)]
pub struct RuntimeParams {
    pub values: Vec<(String, JsonField)>,
}

impl View for RuntimeParams {
    type V = Seq<(Seq<char>, JsonFieldView)>;

    open spec fn view(&self) -> Seq<(Seq<char>, JsonFieldView)> {
        entries_view(self.values@)
    }
}

impl RuntimeParams {
    /// A copy of these parameters.
    pub fn duplicate(&self) -> (r: RuntimeParams)
        ensures
            r@ == self@,
    {
        let mut values: Vec<(String, JsonField)> = Vec::new();
        let mut i: usize = 0;
        while i < self.values.len()
            invariant
                i <= self.values.len(),
                entries_view(values@) == entries_view(self.values@.take(i as int)),
            decreases self.values.len() - i,
        {
            let (k, v) = &self.values[i];
            let ghost before = values@;
            values.push((k.clone(), v.duplicate()));
            assert(entries_view(values@) =~= entries_view(before).push((k@, v@)));
            assert(self.values@.take(i as int + 1) =~= self.values@.take(i as int).push(self.values@[i as int]));
            assert(entries_view(self.values@.take(i as int + 1)) =~= entries_view(self.values@.take(i as int)).push(
                (k@, v@),
            ));
            i += 1;
        }
        assert(self.values@.take(self.values.len() as int) =~= self.values@);
        RuntimeParams { values }
    }

    /// No parameters.
    pub fn empty() -> (p: RuntimeParams)
        ensures
            p@.len() == 0,
    {
        let p = RuntimeParams { values: Vec::new() };
        assert(p@ =~= Seq::empty());
        p
    }
}

/// A realtime voice-conversion session. Times are milliseconds since the Unix epoch.
#[derive(Debug, Clone, PartialEq, Eq)]
pub struct RealtimeSession {
    pub session_id: String,
    pub trace_id: String,
    pub voice_name: String,
    pub runtime_params: RuntimeParams,
    pub status: RealtimeSessionStatus,
    pub websocket_url: String,
    pub error_summary: Option<String>,
    pub created_at: i64,
    pub updated_at: i64,
}

pub struct RealtimeSessionView {
    pub session_id: Seq<char>,
    pub trace_id: Seq<char>,
    pub voice_name: Seq<char>,
    pub runtime_params: Seq<(Seq<char>, JsonFieldView)>,
    pub status: RealtimeSessionStatus,
    pub websocket_url: Seq<char>,
    pub error_summary: Option<Seq<char>>,
    pub created_at: i64,
    pub updated_at: i64,
}

impl View for RealtimeSession {
    type V = RealtimeSessionView;

    open spec fn view(&self) -> RealtimeSessionView {
        RealtimeSessionView {
            session_id: self.session_id@,
            trace_id: self.trace_id@,
            voice_name: self.voice_name@,
            runtime_params: self.runtime_params@,
            status: self.status,
            websocket_url: self.websocket_url@,
            error_summary: crate::settings::opt_str(self.error_summary),
            created_at: self.created_at,
            updated_at: self.updated_at,
        }
    }
}

impl RealtimeSession {
    /// A copy of this session.
    pub fn duplicate(&self) -> (r: RealtimeSession)
        ensures
            r@ == self@,
    {
        RealtimeSession {
            session_id: self.session_id.clone(),
            trace_id: self.trace_id.clone(),
            voice_name: self.voice_name.clone(),
            runtime_params: self.runtime_params.duplicate(),
            status: self.status,
            websocket_url: self.websocket_url.clone(),
            error_summary: crate::settings::clone_opt_string(&self.error_summary),
            created_at: self.created_at,
            updated_at: self.updated_at,
        }
    }
}

} // verus!
