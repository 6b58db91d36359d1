//! The Tsubaki AI engine's job protocol.
//!
//! The API works by jobs: `POST /tts` gives a `job_id`; `GET /jobs/{job_id}`
//! is polled until its `status` settles; a completed job's `audio_url`
//! (relative or absolute) gives the WAV. The polling itself is the bot's
//! part; what each answer means is decided here.

use vstd::prelude::*;

use crate::application::rules::occurs_at;
use crate::domain::model::{Speaker, SpeakerId};
use crate::error::TtsError;
use crate::infrastructure::tts::aivoice::single_style_speaker;
use crate::text::{chars_of, concat, slice_chars, starts_with, string_of};

verus! {

/// The interval between two polls, in milliseconds.
pub const POLL_INTERVAL_MS: u64 = 300;

/// How long a job may take, in seconds.
pub const POLL_TIMEOUT_SECS: u64 = 60;

/// The speakers of Tsubaki AI: one speaker, 椿 美沙, with the style 標準 (0).
pub fn tsubaki_speakers() -> (r: Vec<Speaker>)
    ensures
        r@.len() == 1,
        r@[0].name@ == "椿 美沙"@,
        r@[0].styles@.len() == 1,
        r@[0].styles@[0].name@ == "標準"@,
        r@[0].styles@[0].id == SpeakerId(0),
{
    let mut v = Vec::new();
    v.push(single_style_speaker("椿 美沙", "標準", 0));
    v
}

/// Where a job stands, by its `status`. Only `completed`, `failed` and
/// `error` are final; the service documents no other value.
#[derive(Debug, Clone, Copy, PartialEq, Eq, Structural)]
pub enum JobState {
    /// `completed`.
    Completed,
    /// `failed` or `error`.
    Failed,
    /// Any other status: still running.
    Pending,
}

/// The state a `status` text stands for.
pub open spec fn job_state(status: Seq<char>) -> JobState {
    if status == "completed"@ {
        JobState::Completed
    } else if status == "failed"@ || status == "error"@ {
        JobState::Failed
    } else {
        JobState::Pending
    }
}

/// Classifies a job's `status`.
pub fn classify_job_status(status: &str) -> (r: JobState)
    ensures
        r == job_state(status@),
{
    let s = status.to_owned();
    if s == "completed".to_owned() {
        JobState::Completed
    } else if s == "failed".to_owned() || s == "error".to_owned() {
        JobState::Failed
    } else {
        JobState::Pending
    }
}

/// The URL of a job's audio: an absolute `http://` or `https://` URL as it
/// is; otherwise relative to `base_url`, joined with one `/` (a leading `/`
/// of the relative path is dropped).
pub open spec fn audio_location(base_url: Seq<char>, audio_url: Seq<char>) -> Seq<char> {
    if occurs_at(audio_url, 0, "http://"@) || occurs_at(audio_url, 0, "https://"@) {
        audio_url
    } else if audio_url.len() > 0 && audio_url[0] == '/' {
        base_url + "/"@ + audio_url.drop_first()
    } else {
        base_url + "/"@ + audio_url
    }
}

/// Resolves a job's `audio_url` against the engine's base URL.
pub fn resolve_audio_url(base_url: &str, audio_url: &str) -> (r: String)
    ensures
        r@ == audio_location(base_url@, audio_url@),
{
    let u = chars_of(audio_url);
    let http = chars_of("http://");
    let https = chars_of("https://");
    if starts_with(&u, &http) || starts_with(&u, &https) {
        return audio_url.to_owned();
    }
    let prefix = concat(base_url, "/");
    if u.len() > 0 && u[0] == '/' {
        let rest = slice_chars(&u, 1, u.len());
        assert(rest@ == u@.drop_first());
        concat(prefix.as_str(), string_of(&rest).as_str())
    } else {
        concat(prefix.as_str(), audio_url)
    }
}

/// What the bot does after a poll.
pub enum PollStep {
    /// The job completed: fetch the audio at this URL.
    Fetch(String),
    /// The job failed or did not finish in time: give up with this error.
    Fail(TtsError),
    /// The job is still running: wait `POLL_INTERVAL_MS` and poll again.
    Wait,
}

/// The error body for a failed job without an error message.
pub open spec fn failed_text(status: Seq<char>) -> Seq<char> {
    "Tsubaki ジョブが失敗しました (status="@ + status + ")"@
}

/// The error body for a job that did not finish in time.
pub open spec fn timeout_text(job_id: Seq<char>, status: Seq<char>) -> Seq<char> {
    "Tsubaki ジョブが 60 秒以内に完了しませんでした (job_id="@ + job_id + ", status="@ + status
        + ")"@
}

/// Decides the step after a poll that answered `status`, `audio_url` and
/// `error`; `timed_out` tells whether the deadline has passed.
pub fn next_poll_step(
    base_url: &str,
    job_id: &str,
    status: &str,
    audio_url: Option<String>,
    error: Option<String>,
    timed_out: bool,
) -> (r: PollStep)
    ensures
        job_state(status@) == JobState::Completed ==> match audio_url {
            Some(u) => (r matches PollStep::Fetch(url) && url@ == audio_location(base_url@, u@)),
            None => (r matches PollStep::Fail(TtsError::Decode(m)) && m@
                == "ジョブが完了したが audio_url が返らなかった"@),
        },
        job_state(status@) == JobState::Failed ==> (r matches PollStep::Fail(
            TtsError::BadResponse { status: code, body },
        ) && code == 500 && body@ == match error {
            Some(e) => e@,
            None => failed_text(status@),
        }),
        job_state(status@) == JobState::Pending && timed_out ==> (r matches PollStep::Fail(
            TtsError::BadResponse { status: code, body },
        ) && code == 504 && body@ == timeout_text(job_id@, status@)),
        job_state(status@) == JobState::Pending && !timed_out ==> r is Wait,
{
    match classify_job_status(status) {
        JobState::Completed => match audio_url {
            Some(u) => PollStep::Fetch(resolve_audio_url(base_url, u.as_str())),
            None => PollStep::Fail(
                TtsError::Decode("ジョブが完了したが audio_url が返らなかった".to_owned()),
            ),
        },
        JobState::Failed => {
            let body = match error {
                Some(e) => e,
                None => {
                    let a = concat("Tsubaki ジョブが失敗しました (status=", status);
                    concat(a.as_str(), ")")
                },
            };
            PollStep::Fail(TtsError::BadResponse { status: 500, body })
        },
        JobState::Pending => if timed_out {
            let a = concat("Tsubaki ジョブが 60 秒以内に完了しませんでした (job_id=", job_id);
            let b = concat(a.as_str(), ", status=");
            let c = concat(b.as_str(), status);
            PollStep::Fail(TtsError::BadResponse { status: 504, body: concat(c.as_str(), ")") })
        } else {
            PollStep::Wait
        },
    }
}

} // verus!
