use arcgis::error::Error;
use arcgis::geoprocessing::client::{GeoprocessingServiceClient, JobPoller, PollStep};
use arcgis::geoprocessing::parameters::{GPDate, GPLong, GPRasterDataLayer, GPString};
use arcgis::geoprocessing::types::GPJobStatus;
use arcgis::http::{HttpMethod, RequestBody};

fn pairs(v: &[(&str, &str)]) -> Vec<(String, String)> {
    v.iter().map(|(k, x)| (k.to_string(), x.to_string())).collect()
}

#[test]
fn job_status_terminal_and_running_are_disjoint() {
    let all = [
        GPJobStatus::New,
        GPJobStatus::Submitted,
        GPJobStatus::Submitting,
        GPJobStatus::Waiting,
        GPJobStatus::Executing,
        GPJobStatus::Succeeded,
        GPJobStatus::Failed,
        GPJobStatus::TimedOut,
        GPJobStatus::Cancelling,
        GPJobStatus::Cancelled,
        GPJobStatus::Deleting,
        GPJobStatus::Deleted,
    ];
    for s in all.iter() {
        assert!(!(s.is_terminal() && s.is_running()));
    }
    assert!(GPJobStatus::Succeeded.is_terminal());
    assert!(GPJobStatus::Executing.is_running());
    assert!(!GPJobStatus::Cancelling.is_terminal());
    assert!(!GPJobStatus::Cancelling.is_running());
    assert!(!GPJobStatus::Deleting.is_running());
}

#[test]
fn poller_doubles_delay_up_to_cap_and_stops_on_final_state() {
    let mut p = JobPoller::new(1000, 5000, Some(10_000));
    assert_eq!(p.after_status(GPJobStatus::Submitted), PollStep::Wait(1000));
    assert_eq!(p.delay_ms, 2000);
    assert_eq!(p.after_status(GPJobStatus::Executing), PollStep::Wait(2000));
    assert_eq!(p.after_status(GPJobStatus::Executing), PollStep::Wait(4000));
    assert_eq!(p.delay_ms, 5000);
    assert_eq!(p.after_status(GPJobStatus::Waiting), PollStep::Wait(5000));
    assert_eq!(p.delay_ms, 5000);
    assert_eq!(p.after_status(GPJobStatus::Succeeded), PollStep::Done);
    assert_eq!(p.delay_ms, 5000);
}

#[test]
fn poller_caps_huge_delays_without_overflow() {
    let start = u64::MAX / 2 + 5;
    let mut p = JobPoller::new(start, u64::MAX, None);
    assert_eq!(p.after_status(GPJobStatus::Executing), PollStep::Wait(start));
    assert_eq!(p.delay_ms, u64::MAX);
    let mut q = JobPoller::new(7000, 5000, None);
    assert_eq!(q.after_status(GPJobStatus::New), PollStep::Wait(7000));
    assert_eq!(q.delay_ms, 5000);
}

#[test]
fn poller_times_out_only_past_the_limit() {
    let p = JobPoller::new(10, 100, Some(10_000));
    assert!(p.check_timeout(10_000).is_ok());
    match p.check_timeout(10_001) {
        Err(Error::Builder { message }) => {
            assert_eq!(message, "Job polling timed out after 10000ms")
        }
        other => panic!("unexpected {:?}", other),
    }
    let q = JobPoller::new(10, 100, None);
    assert!(q.check_timeout(u128::MAX).is_ok());
}

#[test]
fn task_requests_have_expected_urls_and_forms() {
    let c = GeoprocessingServiceClient::new("https://h/GPServer/Task".to_string());
    let r = c.execute_request(&pairs(&[("Input", "{\"a\":1}")]));
    assert_eq!(r.method, HttpMethod::Post);
    assert_eq!(r.url, "https://h/GPServer/Task/execute");
    match r.body {
        RequestBody::Form(f) => assert_eq!(f, pairs(&[("f", "json"), ("Input", "{\"a\":1}")])),
        _ => panic!("expected a form"),
    }
    let s = c.job_status_request("j42");
    assert_eq!(s.method, HttpMethod::Get);
    assert_eq!(s.url, "https://h/GPServer/Task/jobs/j42");
    assert_eq!(s.query, pairs(&[("f", "json")]));
    assert_eq!(c.cancel_job_request("j42").url, "https://h/GPServer/Task/jobs/j42/cancel");
    assert_eq!(c.job_messages_request("j42").url, "https://h/GPServer/Task/jobs/j42/messages");
    assert_eq!(c.submit_job_request(&Vec::new()).url, "https://h/GPServer/Task/submitJob");
}

#[test]
fn parameter_values_keep_their_inputs() {
    assert_eq!(GPDate::from_millis(1700000000000).0, 1700000000000);
    assert_eq!(GPLong::from(7i32), GPLong(7));
    assert_eq!(GPString::from("x".to_string()).0, "x");
    let r = GPRasterDataLayer::new("u".to_string()).with_format("tif".to_string());
    assert_eq!(r.url, "u");
    assert_eq!(r.format, Some("tif".to_string()));
}
