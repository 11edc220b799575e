//! Requests of a geoprocessing task and the polling schedule of its jobs.

use vstd::prelude::*;
use crate::error::Error;
use crate::geoprocessing::types::GPJobStatus;
use crate::http::{ApiRequest, f_json, form_post, get_request, push_pair};
use crate::text::{concat2, concat3, dec_digits, u64_text};

verus! {

/// Client for one geoprocessing task, identified by its URL.
#[derive(Debug, Clone)]
pub struct GeoprocessingServiceClient {
    url: String,
}

/// The form `f=json` followed by the given parameters in order.
pub open spec fn task_form(params: Seq<(Seq<char>, Seq<char>)>) -> Seq<(Seq<char>, Seq<char>)> {
    f_json() + params
}

fn json_form() -> (r: Vec<(String, String)>)
    ensures
        r.deep_view() == f_json(),
{
    let mut form: Vec<(String, String)> = Vec::new();
    proof {
        assert(form.deep_view() =~= Seq::<(Seq<char>, Seq<char>)>::empty());
    }
    push_pair(&mut form, "f", "json");
    proof {
        assert(form.deep_view() =~= f_json());
    }
    form
}

fn task_form_of(params: &Vec<(String, String)>) -> (r: Vec<(String, String)>)
    ensures
        r.deep_view() == task_form(params.deep_view()),
{
    let mut form = json_form();
    let ghost start = form.deep_view();
    let mut i: usize = 0;
    while i < params.len()
        invariant
            i <= params@.len(),
            start == f_json(),
            form.deep_view() == start + params.deep_view().take(i as int),
        decreases params@.len() - i,
    {
        push_pair(&mut form, params[i].0.as_str(), params[i].1.as_str());
        proof {
            assert(params.deep_view().take(i + 1) =~= params.deep_view().take(i as int) + seq![
                params.deep_view()[i as int],
            ]);
        }
        i = i + 1;
    }
    proof {
        assert(params.deep_view().take(params@.len() as int) =~= params.deep_view());
    }
    form
}

impl GeoprocessingServiceClient {
    /// URL of the task.
    pub closed spec fn task_url(&self) -> Seq<char> {
        self.url@
    }

    /// A client for the task at `url`.
    pub fn new(url: String) -> (r: GeoprocessingServiceClient)
        ensures
            r.task_url() == url@,
    {
        GeoprocessingServiceClient { url }
    }

    /// The synchronous `execute` request: a form with `f=json` and each
    /// parameter, whose value is the parameter's JSON text.
    pub fn execute_request(&self, params: &Vec<(String, String)>) -> (r: ApiRequest)
        ensures
            r.is_form_post(self.task_url() + "/execute"@, task_form(params.deep_view())),
    {
        let url = concat2(self.url.as_str(), "/execute");
        proof {
            reveal_strlit("/execute");
        }
        form_post(url, task_form_of(params))
    }

    /// The `submitJob` request of an asynchronous task, with the same form
    /// as `execute_request`.
    pub fn submit_job_request(&self, params: &Vec<(String, String)>) -> (r: ApiRequest)
        ensures
            r.is_form_post(self.task_url() + "/submitJob"@, task_form(params.deep_view())),
    {
        let url = concat2(self.url.as_str(), "/submitJob");
        proof {
            reveal_strlit("/submitJob");
        }
        form_post(url, task_form_of(params))
    }

    /// The job status request: `GET <task>/jobs/<id>?f=json`. Fetching a
    /// job's result sends the same request.
    pub fn job_status_request(&self, job_id: &str) -> (r: ApiRequest)
        ensures
            r.is_get(self.task_url() + "/jobs/"@ + job_id@, f_json()),
    {
        let url = concat3(self.url.as_str(), "/jobs/", job_id);
        proof {
            reveal_strlit("/jobs/");
        }
        get_request(url, json_form())
    }

    /// The cancel request: `POST <task>/jobs/<id>/cancel` with `f=json`.
    pub fn cancel_job_request(&self, job_id: &str) -> (r: ApiRequest)
        ensures
            r.is_form_post(self.task_url() + "/jobs/"@ + job_id@ + "/cancel"@, f_json()),
    {
        let base = concat3(self.url.as_str(), "/jobs/", job_id);
        let url = concat2(base.as_str(), "/cancel");
        proof {
            reveal_strlit("/jobs/");
            reveal_strlit("/cancel");
        }
        form_post(url, json_form())
    }

    /// The job messages request: `GET <task>/jobs/<id>/messages?f=json`.
    pub fn job_messages_request(&self, job_id: &str) -> (r: ApiRequest)
        ensures
            r.is_get(self.task_url() + "/jobs/"@ + job_id@ + "/messages"@, f_json()),
    {
        let base = concat3(self.url.as_str(), "/jobs/", job_id);
        let url = concat2(base.as_str(), "/messages");
        proof {
            reveal_strlit("/jobs/");
            reveal_strlit("/messages");
        }
        get_request(url, json_form())
    }
}

/// The next wait of the exponential backoff: twice the last, capped at the
/// maximum.
pub open spec fn backoff(delay_ms: u64, max_delay_ms: u64) -> int {
    if 2 * delay_ms <= max_delay_ms {
        2 * delay_ms
    } else {
        max_delay_ms as int
    }
}

/// Message of the error returned when polling exceeds its timeout.
pub open spec fn poll_timeout_message(timeout_ms: u64) -> Seq<char> {
    "Job polling timed out after "@ + dec_digits(timeout_ms as nat) + "ms"@
}

/// What the poller does after a status check.
#[derive(Debug, Clone, Copy, PartialEq, Eq, Structural)]
pub enum PollStep {
    /// The job reached a final state: stop polling.
    Done,
    /// Sleep this many milliseconds, then check again.
    Wait(u64),
}

/// State of the polling loop of an asynchronous job: the wait before the
/// next check, its cap, and the overall timeout.
#[derive(Debug, Clone, Copy, PartialEq, Eq, Structural)]
pub struct JobPoller {
    pub delay_ms: u64,
    pub max_delay_ms: u64,
    pub timeout_ms: Option<u64>,
}

impl JobPoller {
    /// A poller that first waits `initial_delay_ms`.
    pub fn new(initial_delay_ms: u64, max_delay_ms: u64, timeout_ms: Option<u64>) -> (r: JobPoller)
        ensures
            r == (JobPoller { delay_ms: initial_delay_ms, max_delay_ms, timeout_ms }),
    {
        JobPoller { delay_ms: initial_delay_ms, max_delay_ms, timeout_ms }
    }

    /// Check made before each status request: fails exactly when a timeout
    /// is set and more than that many milliseconds have elapsed.
    pub fn check_timeout(&self, elapsed_ms: u128) -> (r: Result<(), Error>)
        ensures
            r is Err <==> (self.timeout_ms matches Some(t) && elapsed_ms > t),
            r matches Err(e) ==> e.builder_message() == Some(
                poll_timeout_message(self.timeout_ms->0),
            ),
    {
        match self.timeout_ms {
            Some(t) => {
                if elapsed_ms > t as u128 {
                    let digits = u64_text(t);
                    let message = concat3("Job polling timed out after ", digits.as_str(), "ms");
                    proof {
                        reveal_strlit("Job polling timed out after ");
                        reveal_strlit("ms");
                    }
                    Err(Error::Builder { message })
                } else {
                    Ok(())
                }
            },
            None => Ok(()),
        }
    }

    /// Decision after a status check: stop on a final status; otherwise wait
    /// the current delay and double the next one, up to the cap.
    pub fn after_status(&mut self, status: GPJobStatus) -> (r: PollStep)
        ensures
            status.terminal() ==> r == PollStep::Done && *final(self) == *old(self),
            (status == GPJobStatus::Succeeded || status == GPJobStatus::Failed || status
                == GPJobStatus::TimedOut || status == GPJobStatus::Cancelled || status
                == GPJobStatus::Deleted) ==> r == PollStep::Done,
            (status == GPJobStatus::New || status == GPJobStatus::Submitted || status
                == GPJobStatus::Submitting || status == GPJobStatus::Waiting || status
                == GPJobStatus::Executing || status == GPJobStatus::Cancelling || status
                == GPJobStatus::Deleting) ==> r == PollStep::Wait(old(self).delay_ms),
            !status.terminal() ==> r == PollStep::Wait(old(self).delay_ms),
            !status.terminal() ==> final(self).delay_ms == backoff(
                old(self).delay_ms,
                old(self).max_delay_ms,
            ),
            final(self).max_delay_ms == old(self).max_delay_ms,
            final(self).timeout_ms == old(self).timeout_ms,
    {
        if status.is_terminal() {
            PollStep::Done
        } else {
            let wait = self.delay_ms;
            self.delay_ms = if wait <= self.max_delay_ms && wait <= self.max_delay_ms - wait {
                wait + wait
            } else {
                self.max_delay_ms
            };
            PollStep::Wait(wait)
        }
    }
}

/// After any wait, the next wait never exceeds the cap, and it never
/// shrinks while the current wait is within the cap.
pub proof fn lemma_backoff_bounded(delay_ms: u64, max_delay_ms: u64)
    ensures
        backoff(delay_ms, max_delay_ms) <= max_delay_ms,
        delay_ms <= max_delay_ms ==> delay_ms <= backoff(delay_ms, max_delay_ms),
{
}

} // verus!
