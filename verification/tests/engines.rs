use yomiage::domain::model::SpeakerId;
use yomiage::error::TtsError;
use yomiage::infrastructure::tts::aivoice::{aivoice_speakers, speaker_config};
use yomiage::infrastructure::tts::http::{bytes_or_error, ensure_success};
use yomiage::infrastructure::tts::tsubaki::{
    classify_job_status, next_poll_step, resolve_audio_url, tsubaki_speakers, JobState, PollStep,
};

#[test]
fn aivoice_speaker_mapping() {
    assert_eq!(speaker_config(SpeakerId(1)), ("aoi", "平静"));
    assert_eq!(speaker_config(SpeakerId(0)), ("akane", "平静"));
    assert_eq!(speaker_config(SpeakerId(1001)), ("akane", "平静"));
    let list = aivoice_speakers();
    assert_eq!(list.len(), 2);
    assert_eq!(list[1].name, "琴葉葵");
    assert_eq!(list[1].styles[0].id, SpeakerId(1));
    assert_eq!(tsubaki_speakers()[0].name, "椿 美沙");
}

#[test]
fn response_statuses() {
    assert_eq!(bytes_or_error(200, vec![1, 2]).unwrap(), vec![1, 2]);
    assert_eq!(bytes_or_error(299, vec![]).unwrap(), Vec::<u8>::new());
    match bytes_or_error(404, b"not \xffhere".to_vec()) {
        Err(TtsError::BadResponse { status, body }) => {
            assert_eq!(status, 404);
            assert_eq!(body, "not \u{FFFD}here");
        }
        _ => panic!(),
    }
    assert!(ensure_success(204, vec![]).is_ok());
    assert!(ensure_success(500, vec![]).is_err());
}

#[test]
fn job_states() {
    assert_eq!(classify_job_status("completed"), JobState::Completed);
    for s in ["failed", "error"] {
        assert_eq!(classify_job_status(s), JobState::Failed);
    }
    for s in ["success", "succeeded", "done", "cancelled", "canceled"] {
        assert_eq!(classify_job_status(s), JobState::Pending);
    }
    assert_eq!(classify_job_status("queued"), JobState::Pending);
    assert_eq!(classify_job_status("Completed"), JobState::Pending);
}

#[test]
fn audio_urls() {
    assert_eq!(resolve_audio_url("http://t", "/a/b.wav"), "http://t/a/b.wav");
    assert_eq!(resolve_audio_url("http://t", "a.wav"), "http://t/a.wav");
    assert_eq!(resolve_audio_url("http://t", "https://cdn/x.wav"), "https://cdn/x.wav");
}

#[test]
fn poll_steps() {
    match next_poll_step("http://t", "j1", "completed", Some("/w.wav".to_owned()), None, false) {
        PollStep::Fetch(u) => assert_eq!(u, "http://t/w.wav"),
        _ => panic!(),
    }
    assert!(matches!(
        next_poll_step("http://t", "j1", "done", Some("/w.wav".to_owned()), None, false),
        PollStep::Wait
    ));
    match next_poll_step("http://t", "j1", "completed", None, None, false) {
        PollStep::Fail(TtsError::Decode(m)) => assert_eq!(m, "ジョブが完了したが audio_url が返らなかった"),
        _ => panic!(),
    }
    match next_poll_step("http://t", "j1", "failed", None, None, false) {
        PollStep::Fail(TtsError::BadResponse { status, body }) => {
            assert_eq!(status, 500);
            assert_eq!(body, "Tsubaki ジョブが失敗しました (status=failed)");
        }
        _ => panic!(),
    }
    match next_poll_step("http://t", "j1", "error", None, Some("gpu".to_owned()), false) {
        PollStep::Fail(TtsError::BadResponse { body, .. }) => assert_eq!(body, "gpu"),
        _ => panic!(),
    }
    assert!(matches!(next_poll_step("http://t", "j1", "running", None, None, false), PollStep::Wait));
    match next_poll_step("http://t", "j1", "running", None, None, true) {
        PollStep::Fail(TtsError::BadResponse { status, body }) => {
            assert_eq!(status, 504);
            assert_eq!(body, "Tsubaki ジョブが 60 秒以内に完了しませんでした (job_id=j1, status=running)");
        }
        _ => panic!(),
    }
}
