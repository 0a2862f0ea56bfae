//! The session manager: at most one live session is active at a time,
//! enforced by single ownership of the session snapshot, not by a lock.
//!
//! The manager is a state machine over plain values. The surrounding
//! application performs the REST call and the socket work and feeds the
//! results back in; every decision is taken here.

use vstd::prelude::*;

use crate::config::BilibiliLiveConfig;
use crate::errors::LiveError;
use crate::sign::now_unix_secs;

verus! {

/// Immutable snapshot of one started session. `started_at` is a Unix
/// timestamp in seconds.
#[derive(Debug, Clone)]
pub struct LiveSessionInfo {
    pub game_id: String,
    pub room_id: i64,
    pub anchor_name: String,
    pub anchor_open_id: Option<String>,
    pub started_at: i64,
}

/// The payload of a successful session-start response, as plain values.
#[derive(Debug, Clone)]
pub struct StartData {
    pub game_id: String,
    pub auth_body: String,
    pub wss_links: Vec<String>,
    pub room_id: Option<i64>,
    pub uname: Option<String>,
    pub open_id: Option<String>,
}

/// Owns the one optional session snapshot and the connection settings.
#[derive(Debug)]
pub struct LiveManager {
    pub config: BilibiliLiveConfig,
    pub session: Option<LiveSessionInfo>,
}

/// Whether `info` is the snapshot that `data` and the clock value `now`
/// give rise to: the missing room id falls back to zero and the missing
/// anchor name to "Unknown".
pub open spec fn spec_info_matches(info: LiveSessionInfo, data: StartData, now: int) -> bool {
    &&& info.game_id@ == data.game_id@
    &&& info.room_id == (match data.room_id {
        Some(r) => r,
        None => 0,
    })
    &&& info.anchor_name@ == (match data.uname {
        Some(u) => u@,
        None => "Unknown"@,
    })
    &&& (match (info.anchor_open_id, data.open_id) {
        (Some(a), Some(b)) => a@ == b@,
        (None, None) => true,
        _ => false,
    })
    &&& info.started_at == now
}

/// The start transition: from `m0` with response `data` at clock `now`,
/// the manager moved to `m1` and answered `r`. Starting fails on an
/// active session and on an empty socket-URL list, and succeeds otherwise.
pub open spec fn spec_start_step(
    m0: LiveManager,
    m1: LiveManager,
    data: StartData,
    now: int,
    r: Result<LiveSessionInfo, LiveError>,
) -> bool {
    &&& m1.config == m0.config
    &&& (if m0.session is Some {
        r == Err::<LiveSessionInfo, LiveError>(LiveError::AlreadyActive) && m1 == m0
    } else if data.wss_links@.len() == 0 {
        r == Err::<LiveSessionInfo, LiveError>(LiveError::NoSocketUrl) && m1 == m0
    } else {
        &&& r matches Ok(info)
        &&& spec_info_matches(info, data, now)
        &&& m1.session == Some(info)
    })
}

/// The stop transition: the session slot is emptied and whatever was in
/// it is answered; with no active session the answer is `None`, which is
/// "no session", not an error.
pub open spec fn spec_stop_step(
    m0: LiveManager,
    m1: LiveManager,
    r: Option<LiveSessionInfo>,
) -> bool {
    &&& m1.config == m0.config
    &&& m1.session is None
    &&& r == m0.session
}

impl LiveManager {
    /// A manager with no active session.
    pub fn new(config: BilibiliLiveConfig) -> (r: Self)
        ensures
            r.session is None,
            r.config == config,
    {
        LiveManager { config, session: None }
    }

    /// The first gate of `start`: refuses while a session is active, and
    /// requires a configured identity code; otherwise hands it out for
    /// the REST start call.
    pub fn begin_start(&self) -> (r: Result<String, LiveError>)
        ensures
            self.session is Some ==> r == Err::<String, LiveError>(LiveError::AlreadyActive),
            self.session is None && self.config.id_code is None ==> (r matches Err(e)
                && e matches LiveError::Config(_)),
            self.session is None ==> (self.config.id_code matches Some(code) ==> (r matches Ok(c)
                && c@ == code@)),
    {
        if self.session.is_some() {
            return Err(LiveError::AlreadyActive);
        }
        match &self.config.id_code {
            Some(code) => Ok(code.clone()),
            None => Err(LiveError::Config("identity code is not configured".to_owned())),
        }
    }

    /// The second half of `start`: takes the parsed start response and
    /// the clock, and either records the new session or refuses without
    /// changing anything.
    pub fn complete_start(&mut self, data: &StartData, now: i64) -> (r: Result<
        LiveSessionInfo,
        LiveError,
    >)
        ensures
            spec_start_step(*old(self), *final(self), *data, now as int, r),
    {
        if self.session.is_some() {
            return Err(LiveError::AlreadyActive);
        }
        if data.wss_links.len() == 0 {
            return Err(LiveError::NoSocketUrl);
        }
        let room_id = match &data.room_id {
            Some(r) => *r,
            None => 0,
        };
        let anchor_name = match &data.uname {
            Some(u) => u.clone(),
            None => "Unknown".to_owned(),
        };
        let anchor_open_id = match &data.open_id {
            Some(o) => Some(o.clone()),
            None => None,
        };
        let info = LiveSessionInfo {
            game_id: data.game_id.clone(),
            room_id,
            anchor_name,
            anchor_open_id,
            started_at: now,
        };
        let out = LiveSessionInfo {
            game_id: info.game_id.clone(),
            room_id: info.room_id,
            anchor_name: info.anchor_name.clone(),
            anchor_open_id: match &info.anchor_open_id {
                Some(o) => Some(o.clone()),
                None => None,
            },
            started_at: info.started_at,
        };
        self.session = Some(info);
        Ok(out)
    }

    /// As `complete_start`, with the session clocked at the current time.
    /// Whatever the clock answered, the recorded snapshot and the result
    /// agree on it.
    pub fn start_session(&mut self, data: &StartData) -> (r: Result<LiveSessionInfo, LiveError>)
        ensures
            exists|now: int| spec_start_step(*old(self), *final(self), *data, now, r),
    {
        let now = now_unix_secs();
        let r = self.complete_start(data, now);
        proof {
            assert(spec_start_step(*old(self), *final(self), *data, now as int, r));
        }
        r
    }

    /// Stops the session: empties the slot and returns what was in it;
    /// `None` means "no session" and is not an error. Idempotent.
    pub fn stop(&mut self) -> (r: Option<LiveSessionInfo>)
        ensures
            spec_stop_step(*old(self), *final(self), r),
    {
        let s = self.session.take();
        s
    }

    /// Pure, non-blocking read of the current session snapshot.
    pub fn status(&self) -> (r: Option<&LiveSessionInfo>)
        ensures
            self.session is Some <==> r is Some,
            r matches Some(i) ==> self.session == Some(*i),
    {
        match &self.session {
            Some(info) => Some(info),
            None => None,
        }
    }
}

/// The socket endpoint a new session connects to: the first entry of
/// the start response's URL list.
pub fn chosen_socket_url(data: &StartData) -> (r: Result<String, LiveError>)
    ensures
        data.wss_links@.len() == 0 ==> r == Err::<String, LiveError>(LiveError::NoSocketUrl),
        data.wss_links@.len() > 0 ==> (r matches Ok(u) && u@ == data.wss_links@[0]@),
{
    if data.wss_links.len() == 0 {
        return Err(LiveError::NoSocketUrl);
    }
    Ok(data.wss_links[0].clone())
}

/// At most one active session: after a start step that succeeded, any
/// further start step, whatever response data and clock it carries, is
/// answered `AlreadyActive` and leaves the manager — and so the first
/// session — untouched.
pub proof fn lemma_second_start_refused(
    m0: LiveManager,
    m1: LiveManager,
    m2: LiveManager,
    d1: StartData,
    d2: StartData,
    n1: int,
    n2: int,
    r1: Result<LiveSessionInfo, LiveError>,
    r2: Result<LiveSessionInfo, LiveError>,
)
    requires
        spec_start_step(m0, m1, d1, n1, r1),
        r1 is Ok,
        spec_start_step(m1, m2, d2, n2, r2),
    ensures
        r2 == Err::<LiveSessionInfo, LiveError>(LiveError::AlreadyActive),
        m2 == m1,
        m1.session is Some,
{
}

/// Stopping with no active session answers "no session" (`None`), not an
/// error, and leaves the manager without a session.
pub proof fn lemma_stop_without_session(
    m0: LiveManager,
    m1: LiveManager,
    r: Option<LiveSessionInfo>,
)
    requires
        spec_stop_step(m0, m1, r),
        m0.session is None,
    ensures
        r is None,
        m1.session is None,
        m1.config == m0.config,
{
}

} // verus!
