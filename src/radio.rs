//! The radio stream session: its single state record, the metadata probe that
//! a start runs, and the address check offered before playback.
//!
//! A start is a run of steps: `RadioStreamState::start` opens it, and
//! `RadioStreamState::advance` takes each event in turn. Each step names the
//! one action that the caller performs next (a notice, the grace wait, a
//! request) and whose outcome it hands back as the next event.
use crate::headers::{first_value, header_value, text_view, RawHeader};
use vstd::prelude::*;
use vstd::string::StringExecFns;

verus! {

/// Whether the text parses as a well-formed absolute URL.
pub uninterp spec fn url_parses(s: Seq<char>) -> bool;

/// Relies on url::Url::parse: success exactly on well-formed absolute URLs
/// (decided by the text alone), and the parser's description of the fault.
#[verifier::external_body]
fn parse_url(s: &str) -> (r: Result<(), String>)
    ensures
        r is Ok <==> url_parses(s@),
{
    url::Url::parse(s).map(|_| ()).map_err(|e| e.to_string())
}

/// What is known of a live stream.
#[derive(Clone, Debug, PartialEq, Eq)]
pub struct RadioStreamInfo {
    pub title: Option<String>,
    pub name: Option<String>,
    pub description: Option<String>,
    pub genre: Option<String>,
    pub bitrate: Option<String>,
    pub sample_rate: Option<String>,
    pub content_type: String,
    pub url: String,
}

/// The status and headers of a reply to a probe.
#[derive(Clone, Debug)]
pub struct ProbeReply {
    pub status: u16,
    pub headers: Vec<RawHeader>,
}

#[derive(Clone, Debug, PartialEq, Eq)]
pub enum ProbeFailure {
    /// The full request was answered with a status outside the success class.
    Status(u16),
    /// The full request failed on its way, for the cause given.
    Transport(String),
}

#[derive(Clone, Debug, PartialEq, Eq)]
pub enum RadioError {
    /// The address is not a well-formed absolute URL.
    InvalidUrl(String),
    /// Neither probe found the stream.
    StreamUnreachable(ProbeFailure),
}

/// The content type that the headers give, or the generic audio type.
pub open spec fn content_type_of(hs: Seq<RawHeader>) -> Seq<char> {
    match first_value(hs, "content-type"@) {
        Some(v) => v,
        None => "audio/mpeg"@,
    }
}

pub open spec fn bitrate_of(hs: Seq<RawHeader>) -> Option<Seq<char>> {
    match first_value(hs, "icy-br"@) {
        Some(v) => Some(v + " kbps"@),
        None => None,
    }
}

/// The snapshot that a header-only probe of `url` gives from its reply headers.
pub open spec fn head_info(i: RadioStreamInfo, url: Seq<char>, hs: Seq<RawHeader>) -> bool {
    &&& i.title is None
    &&& i.sample_rate is None
    &&& text_view(i.name) == first_value(hs, "icy-name"@)
    &&& text_view(i.genre) == first_value(hs, "icy-genre"@)
    &&& text_view(i.description) == first_value(hs, "icy-description"@)
    &&& text_view(i.bitrate) == bitrate_of(hs)
    &&& i.content_type@ == content_type_of(hs)
    &&& i.url@ == url
}

/// The snapshot that a full request to `url` gives from its reply headers.
pub open spec fn fallback_info(i: RadioStreamInfo, url: Seq<char>, hs: Seq<RawHeader>) -> bool {
    &&& i.title is None
    &&& i.sample_rate is None
    &&& text_view(i.name) == Some("Live Stream"@)
    &&& i.genre is None
    &&& i.description is None
    &&& i.bitrate is None
    &&& i.content_type@ == content_type_of(hs)
    &&& i.url@ == url
}

pub open spec fn is_success(status: u16) -> bool {
    200 <= status <= 299
}


/// The user-agent that the probe presents: many stream servers turn away
/// clients they do not recognise.
pub const PROBE_USER_AGENT: &'static str = "Mozilla/5.0 (Windows NT 10.0; Win64; x64) AppleWebKit/537.36 (KHTML, like Gecko) Chrome/120.0.0.0 Safari/537.36";

/// The bound, in seconds, on each probe request.
pub const PROBE_TIMEOUT_SECS: u64 = 10;

/// The pause, in milliseconds, between stopping one stream and probing the next.
pub const GRACE_MILLIS: u64 = 100;

/// How the header-only probe's outcome is judged: a success-class reply is
/// the stream's snapshot, a failure on the way calls for the full request
/// (`Ok(None)`), and any other status leaves the stream unreachable.
pub open spec fn head_step(url: Seq<char>, outcome: Result<ProbeReply, String>, r: Result<
    Option<RadioStreamInfo>,
    RadioError,
>) -> bool {
    match outcome {
        Ok(p) => if is_success(p.status) {
            match r {
                Ok(Some(i)) => head_info(i, url, p.headers@),
                _ => false,
            }
        } else {
            r == Err::<Option<RadioStreamInfo>, RadioError>(
                RadioError::StreamUnreachable(ProbeFailure::Status(p.status)),
            )
        },
        Err(_) => r == Ok::<Option<RadioStreamInfo>, RadioError>(None),
    }
}

/// How the full request's outcome is judged.
pub open spec fn get_step(url: Seq<char>, outcome: Result<ProbeReply, String>, r: Result<
    RadioStreamInfo,
    RadioError,
>) -> bool {
    match outcome {
        Ok(p) => if is_success(p.status) {
            match r {
                Ok(i) => fallback_info(i, url, p.headers@),
                Err(_) => false,
            }
        } else {
            r == Err::<RadioStreamInfo, RadioError>(
                RadioError::StreamUnreachable(ProbeFailure::Status(p.status)),
            )
        },
        Err(e) => r == Err::<RadioStreamInfo, RadioError>(
            RadioError::StreamUnreachable(ProbeFailure::Transport(e)),
        ),
    }
}

fn copy_text(o: &Option<String>) -> (r: Option<String>)
    ensures
        r == *o,
{
    match o {
        Some(s) => Some(s.clone()),
        None => None,
    }
}

impl RadioStreamInfo {
    /// A copy of this snapshot.
    pub fn snapshot(&self) -> (r: RadioStreamInfo)
        ensures
            r == *self,
    {
        RadioStreamInfo {
            title: copy_text(&self.title),
            name: copy_text(&self.name),
            description: copy_text(&self.description),
            genre: copy_text(&self.genre),
            bitrate: copy_text(&self.bitrate),
            sample_rate: copy_text(&self.sample_rate),
            content_type: self.content_type.clone(),
            url: self.url.clone(),
        }
    }
}

/// Reads a header-only probe's reply headers into a snapshot of `url`.
pub fn head_probe_info(url: &String, hs: &Vec<RawHeader>) -> (r: RadioStreamInfo)
    ensures
        head_info(r, url@, hs@),
{
    let content_type = match header_value(hs, "content-type") {
        Some(v) => v,
        None => String::from_str("audio/mpeg"),
    };
    let bitrate = match header_value(hs, "icy-br") {
        Some(v) => Some(v.concat(" kbps")),
        None => None,
    };
    RadioStreamInfo {
        title: None,
        name: header_value(hs, "icy-name"),
        description: header_value(hs, "icy-description"),
        genre: header_value(hs, "icy-genre"),
        bitrate,
        sample_rate: None,
        content_type,
        url: url.clone(),
    }
}

/// Judges the header-only probe: a success-class reply gives the snapshot; a
/// failure on the way gives `Ok(None)`, and the full request is to be tried;
/// a reply of any other status is a failure, with no fallback.
pub fn after_head(url: &String, outcome: Result<ProbeReply, String>) -> (r: Result<
    Option<RadioStreamInfo>,
    RadioError,
>)
    ensures
        head_step(url@, outcome, r),
{
    match outcome {
        Ok(p) => {
            if 200 <= p.status && p.status <= 299 {
                Ok(Some(head_probe_info(url, &p.headers)))
            } else {
                Err(RadioError::StreamUnreachable(ProbeFailure::Status(p.status)))
            }
        },
        Err(_) => Ok(None),
    }
}

/// Judges the full request: a success-class reply gives a generic snapshot
/// with its content type; any other outcome leaves the stream unreachable.
pub fn after_get(url: &String, outcome: Result<ProbeReply, String>) -> (r: Result<
    RadioStreamInfo,
    RadioError,
>)
    ensures
        get_step(url@, outcome, r),
{
    match outcome {
        Ok(p) => {
            if 200 <= p.status && p.status <= 299 {
                let content_type = match header_value(&p.headers, "content-type") {
                    Some(v) => v,
                    None => String::from_str("audio/mpeg"),
                };
                Ok(
                    RadioStreamInfo {
                        title: None,
                        name: Some(String::from_str("Live Stream")),
                        description: None,
                        genre: None,
                        bitrate: None,
                        sample_rate: None,
                        content_type,
                        url: url.clone(),
                    },
                )
            } else {
                Err(RadioError::StreamUnreachable(ProbeFailure::Status(p.status)))
            }
        },
        Err(e) => Err(RadioError::StreamUnreachable(ProbeFailure::Transport(e))),
    }
}

/// Checks that a stream address is a well-formed absolute URL.
pub fn check_stream_url(url: &str) -> (r: Result<(), RadioError>)
    ensures
        r is Ok <==> url_parses(url@),
        r is Err ==> r->Err_0 is InvalidUrl,
{
    match parse_url(url) {
        Ok(()) => Ok(()),
        Err(e) => Err(RadioError::InvalidUrl(e)),
    }
}

/// Gives back the address unchanged once it has been checked, for the host's
/// own playback.
pub fn get_stream_proxy_url(url: String) -> (r: Result<String, RadioError>)
    ensures
        url_parses(url@) ==> r == Ok::<String, RadioError>(url),
        !url_parses(url@) ==> r is Err && r->Err_0 is InvalidUrl,
{
    match check_stream_url(url.as_str()) {
        Ok(()) => Ok(url),
        Err(e) => Err(e),
    }
}

/// The one session record.
#[derive(Clone, Debug)]
pub struct RadioStreamState {
    pub is_streaming: bool,
    pub current_url: Option<String>,
    pub stream_info: Option<RadioStreamInfo>,
}

/// Where a start stands: what it waits for next.
#[derive(Clone, Copy, Debug, PartialEq, Eq, Structural)]
pub enum StartStage {
    /// The stop notice and grace interval of the stream that was active.
    Grace,
    /// The reply to the header-only probe.
    Head,
    /// The reply to the full request.
    Full,
    /// Nothing: the start has succeeded or failed.
    Finished,
}

/// A start in progress, for one address.
#[derive(Clone, Debug)]
pub struct StreamStart {
    pub url: String,
    pub stage: StartStage,
}

/// What the caller hands back to a start.
#[derive(Debug)]
pub enum StartEvent {
    /// The grace interval has passed.
    GraceElapsed,
    /// The header-only probe's reply, or the cause of its failure on the way.
    HeadReply(Result<ProbeReply, String>),
    /// The full request's reply, or the cause of its failure on the way.
    FullReply(Result<ProbeReply, String>),
}

/// What the caller does next for a start.
#[derive(Clone, Debug, PartialEq, Eq)]
pub enum StartAction {
    /// Emit `stream-stopped`, wait the grace interval, then hand back `GraceElapsed`.
    NotifyStoppedAndWait,
    /// Send the header-only probe to the address.
    SendHead,
    /// Send the full request to the address.
    SendFull,
    /// The start succeeded: emit `stream-started` with this snapshot and return it.
    Started(RadioStreamInfo),
    /// The start failed with this error.
    Failed(RadioError),
}

/// Whether a start at `stage` takes this event.
pub open spec fn takes(stage: StartStage, ev: StartEvent) -> bool {
    match ev {
        StartEvent::GraceElapsed => stage == StartStage::Grace,
        StartEvent::HeadReply(_) => stage == StartStage::Head,
        StartEvent::FullReply(_) => stage == StartStage::Full,
    }
}

/// The address checked: the header-only probe is next, or the start fails.
pub open spec fn checked(url: String, run: StreamStart, a: StartAction) -> bool {
    &&& run.url == url
    &&& if url_parses(url@) {
        run.stage == StartStage::Head && a == StartAction::SendHead
    } else {
        run.stage == StartStage::Finished && a is Failed && a->Failed_0 is InvalidUrl
    }
}

/// A start ends: on success the record holds the address and its snapshot,
/// which goes out with the notice; on failure the record stays as it was.
pub open spec fn ends(
    s: RadioStreamState,
    url: String,
    found: Option<RadioStreamInfo>,
    err: Option<RadioError>,
    s2: RadioStreamState,
    run: StreamStart,
    a: StartAction,
) -> bool {
    &&& run.url == url
    &&& run.stage == StartStage::Finished
    &&& match found {
        Some(i) => s2 == RadioStreamState::active(url, i) && a == StartAction::Started(i),
        None => s2 == s && err is Some && a == StartAction::Failed(err->0),
    }
}

/// One step of a start: the record and the start before and after the event,
/// and the action that comes out.
pub open spec fn start_step(
    s: RadioStreamState,
    run: StreamStart,
    ev: StartEvent,
    s2: RadioStreamState,
    run2: StreamStart,
    a: StartAction,
) -> bool {
    match ev {
        StartEvent::GraceElapsed => s2 == s && checked(run.url, run2, a),
        StartEvent::HeadReply(o) => match o {
            Err(_) => s2 == s && run2.url == run.url && run2.stage == StartStage::Full && a
                == StartAction::SendFull,
            Ok(p) => if is_success(p.status) {
                a is Started && head_info(a->Started_0, run.url@, p.headers@) && ends(
                    s,
                    run.url,
                    Some(a->Started_0),
                    None,
                    s2,
                    run2,
                    a,
                )
            } else {
                ends(
                    s,
                    run.url,
                    None,
                    Some(RadioError::StreamUnreachable(ProbeFailure::Status(p.status))),
                    s2,
                    run2,
                    a,
                )
            },
        },
        StartEvent::FullReply(o) => match o {
            Err(e) => ends(
                s,
                run.url,
                None,
                Some(RadioError::StreamUnreachable(ProbeFailure::Transport(e))),
                s2,
                run2,
                a,
            ),
            Ok(p) => if is_success(p.status) {
                a is Started && fallback_info(a->Started_0, run.url@, p.headers@) && ends(
                    s,
                    run.url,
                    Some(a->Started_0),
                    None,
                    s2,
                    run2,
                    a,
                )
            } else {
                ends(
                    s,
                    run.url,
                    None,
                    Some(RadioError::StreamUnreachable(ProbeFailure::Status(p.status))),
                    s2,
                    run2,
                    a,
                )
            },
        },
    }
}

/// How a start opens: an active stream is stopped first and its notice and
/// grace interval come next; on an idle record the address is checked at once.
pub open spec fn start_opens(
    s: RadioStreamState,
    url: String,
    s2: RadioStreamState,
    run: StreamStart,
    a: StartAction,
) -> bool {
    &&& s2 == RadioStreamState::idle()
    &&& if s.is_streaming {
        run.url == url && run.stage == StartStage::Grace && a == StartAction::NotifyStoppedAndWait
    } else {
        checked(url, run, a)
    }
}

impl RadioStreamState {
    /// A stream is active exactly when both its address and its snapshot are
    /// held, and the snapshot is of that address; an idle record holds neither.
    pub open spec fn wf(&self) -> bool {
        if self.is_streaming {
            &&& self.current_url is Some
            &&& self.stream_info is Some
            &&& self.stream_info->0.url@ == self.current_url->0@
        } else {
            self.current_url is None && self.stream_info is None
        }
    }

    pub open spec fn idle() -> RadioStreamState {
        RadioStreamState { is_streaming: false, current_url: None, stream_info: None }
    }

    pub open spec fn active(url: String, info: RadioStreamInfo) -> RadioStreamState {
        RadioStreamState { is_streaming: true, current_url: Some(url), stream_info: Some(info) }
    }

    /// The record as it stands at start: no stream.
    pub fn new() -> (r: RadioStreamState)
        ensures
            r == RadioStreamState::idle(),
            r.wf(),
    {
        RadioStreamState { is_streaming: false, current_url: None, stream_info: None }
    }

    /// The snapshot of the active stream, or nothing when idle. Changes nothing.
    pub fn status(&self) -> (r: Option<RadioStreamInfo>)
        ensures
            r == self.stream_info,
    {
        match &self.stream_info {
            Some(i) => Some(i.snapshot()),
            None => None,
        }
    }

    /// Clears the record. Returns whether a stream was active, that is,
    /// whether a `stream-stopped` notice is owed; on an idle record nothing
    /// changes and no notice is owed.
    pub fn stop(&mut self) -> (notify: bool)
        requires
            old(self).wf(),
        ensures
            notify == old(self).is_streaming,
            *final(self) == RadioStreamState::idle(),
            !notify ==> *final(self) == *old(self),
    {
        let was = self.is_streaming;
        self.is_streaming = false;
        self.current_url = None;
        self.stream_info = None;
        was
    }

    /// Records a start whose probe succeeded, and returns the snapshot that
    /// goes with the `stream-started` notice.
    pub fn commit(&mut self, url: String, info: RadioStreamInfo) -> (r: RadioStreamInfo)
        requires
            info.url@ == url@,
        ensures
            *final(self) == RadioStreamState::active(url, info),
            final(self).wf(),
            r == info,
    {
        let snap = info.snapshot();
        self.is_streaming = true;
        self.current_url = Some(url);
        self.stream_info = Some(info);
        snap
    }

    /// Opens a start for `url`: stops an active stream first (its notice and
    /// the grace interval are the next action), else checks the address.
    pub fn start(&mut self, url: String) -> (r: (StreamStart, StartAction))
        requires
            old(self).wf(),
        ensures
            start_opens(*old(self), url, *final(self), r.0, r.1),
            final(self).wf(),
    {
        if self.stop() {
            (StreamStart { url, stage: StartStage::Grace }, StartAction::NotifyStoppedAndWait)
        } else {
            check_start(url)
        }
    }

    /// Takes the next event of a start and gives the action that follows.
    /// The record changes only when the start succeeds.
    pub fn advance(&mut self, run: &mut StreamStart, ev: StartEvent) -> (a: StartAction)
        requires
            old(self).wf(),
            takes(old(run).stage, ev),
        ensures
            start_step(*old(self), *old(run), ev, *final(self), *final(run), a),
            final(self).wf(),
    {
        match ev {
            StartEvent::GraceElapsed => {
                let (next, a) = check_start(run.url.clone());
                *run = next;
                a
            },
            StartEvent::HeadReply(o) => match after_head(&run.url, o) {
                Ok(None) => {
                    run.stage = StartStage::Full;
                    StartAction::SendFull
                },
                Ok(Some(info)) => {
                    run.stage = StartStage::Finished;
                    StartAction::Started(self.commit(run.url.clone(), info))
                },
                Err(e) => {
                    run.stage = StartStage::Finished;
                    StartAction::Failed(e)
                },
            },
            StartEvent::FullReply(o) => match after_get(&run.url, o) {
                Ok(info) => {
                    run.stage = StartStage::Finished;
                    StartAction::Started(self.commit(run.url.clone(), info))
                },
                Err(e) => {
                    run.stage = StartStage::Finished;
                    StartAction::Failed(e)
                },
            },
        }
    }
}

/// Whether a start at `stage` takes `ev`.
pub fn start_takes(stage: StartStage, ev: &StartEvent) -> (r: bool)
    ensures
        r == takes(stage, *ev),
{
    match ev {
        StartEvent::GraceElapsed => stage == StartStage::Grace,
        StartEvent::HeadReply(_) => stage == StartStage::Head,
        StartEvent::FullReply(_) => stage == StartStage::Full,
    }
}

fn check_start(url: String) -> (r: (StreamStart, StartAction))
    ensures
        checked(url, r.0, r.1),
{
    match check_stream_url(url.as_str()) {
        Ok(()) => (StreamStart { url, stage: StartStage::Head }, StartAction::SendHead),
        Err(e) => (StreamStart { url, stage: StartStage::Finished }, StartAction::Failed(e)),
    }
}

/// The status is absent on a fresh record, is the committed snapshot while a
/// stream is active, and is absent again once the stream is stopped; each of
/// these records is well formed.
pub proof fn status_follows_lifecycle(url: String, info: RadioStreamInfo)
    requires
        info.url@ == url@,
    ensures
        RadioStreamState::idle().wf(),
        RadioStreamState::idle().stream_info is None,
        RadioStreamState::active(url, info).wf(),
        RadioStreamState::active(url, info).stream_info == Some(info),
{
}

/// Stopping an idle record owes no notice and leaves it as it was.
pub proof fn stop_on_idle_is_silent(s: RadioStreamState)
    requires
        s.wf(),
        !s.is_streaming,
    ensures
        s == RadioStreamState::idle(),
{
}

/// A start while another stream is active, on a well-formed address whose
/// header-only probe succeeds: the first action is the one stop notice with
/// its grace interval, the header-only probe comes only after the grace
/// interval, and the start then ends with the one started notice, whose
/// snapshot is of the new address and is what the status now holds.
pub proof fn restart_replaces_session(
    s0: RadioStreamState,
    url: String,
    s1: RadioStreamState,
    r1: StreamStart,
    a1: StartAction,
    s2: RadioStreamState,
    r2: StreamStart,
    a2: StartAction,
    reply: ProbeReply,
    s3: RadioStreamState,
    r3: StreamStart,
    a3: StartAction,
)
    requires
        s0.wf(),
        s0.is_streaming,
        url_parses(url@),
        is_success(reply.status),
        start_opens(s0, url, s1, r1, a1),
        start_step(s1, r1, StartEvent::GraceElapsed, s2, r2, a2),
        start_step(s2, r2, StartEvent::HeadReply(Ok(reply)), s3, r3, a3),
    ensures
        a1 == StartAction::NotifyStoppedAndWait,
        s1 == RadioStreamState::idle(),
        r1.stage == StartStage::Grace,
        a2 == StartAction::SendHead,
        a3 is Started,
        a3->Started_0.url@ == url@,
        head_info(a3->Started_0, url@, reply.headers@),
        s3 == RadioStreamState::active(url, a3->Started_0),
        s3.stream_info == Some(a3->Started_0),
        r3.stage == StartStage::Finished,
{
}

/// When the header-only probe and the full request both fail on their way,
/// the start fails as unreachable with the second cause, and the idle record
/// stays idle.
pub proof fn probe_total_failure(
    s: RadioStreamState,
    run: StreamStart,
    head_cause: String,
    get_cause: String,
    s1: RadioStreamState,
    r1: StreamStart,
    a1: StartAction,
    s2: RadioStreamState,
    r2: StreamStart,
    a2: StartAction,
)
    requires
        s == RadioStreamState::idle(),
        start_step(s, run, StartEvent::HeadReply(Err(head_cause)), s1, r1, a1),
        start_step(s1, r1, StartEvent::FullReply(Err(get_cause)), s2, r2, a2),
    ensures
        a1 == StartAction::SendFull,
        a2 == StartAction::Failed(
            RadioError::StreamUnreachable(ProbeFailure::Transport(get_cause)),
        ),
        s2 == RadioStreamState::idle(),
        r2.stage == StartStage::Finished,
{
}

/// A non-success status on the header-only probe ends the start at once, with
/// that status and no fallback, and leaves the record as it was.
pub proof fn head_failing_status_is_final(
    s: RadioStreamState,
    run: StreamStart,
    reply: ProbeReply,
    s1: RadioStreamState,
    r1: StreamStart,
    a1: StartAction,
)
    requires
        !is_success(reply.status),
        start_step(s, run, StartEvent::HeadReply(Ok(reply)), s1, r1, a1),
    ensures
        a1 == StartAction::Failed(RadioError::StreamUnreachable(ProbeFailure::Status(reply.status))),
        s1 == s,
        r1.stage == StartStage::Finished,
{
}

/// A non-success status on the full request is a failure carrying that
/// status, never a snapshot, and leaves the record as it was.
pub proof fn failing_status_is_unreachable(
    s: RadioStreamState,
    run: StreamStart,
    reply: ProbeReply,
    s1: RadioStreamState,
    r1: StreamStart,
    a1: StartAction,
)
    requires
        !is_success(reply.status),
        start_step(s, run, StartEvent::FullReply(Ok(reply)), s1, r1, a1),
    ensures
        a1 == StartAction::Failed(RadioError::StreamUnreachable(ProbeFailure::Status(reply.status))),
        s1 == s,
{
}

} // verus!
