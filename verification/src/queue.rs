use vstd::prelude::*;
use vstd::string::StrSliceExecFns;
use vstd::string::StringExecFns;

use crate::event::Event;
use crate::event::NewEvent;

verus! {

/// The idle-timer duration the builder starts from, in milliseconds.
pub const DEFAULT_TICK_MS: u64 = 2000;

/// How long a base URL stays once its trailing slashes are gone.
pub open spec fn trimmed_len(s: Seq<char>) -> int
    decreases s.len(),
{
    if s.len() > 0 && s.last() == '/' {
        trimmed_len(s.drop_last())
    } else {
        s.len() as int
    }
}

/// A base URL with its trailing slashes removed.
pub open spec fn trim_trailing_slashes(s: Seq<char>) -> Seq<char> {
    s.take(trimmed_len(s))
}

proof fn lemma_trimmed_len_bounds(s: Seq<char>)
    ensures
        0 <= trimmed_len(s) <= s.len(),
    decreases s.len(),
{
    if s.len() > 0 && s.last() == '/' {
        lemma_trimmed_len_bounds(s.drop_last());
    }
}

/// Collects the configuration of one dispatcher before it starts: the idle
/// timer, the API key, the ingestion base URL and the user agent.
pub struct PostHogBuilder {
    pub tick_ms: u64,
    pub api_key: String,
    pub base_url: String,
    pub user_agent: String,
}

impl Default for PostHogBuilder {
    /// Two-second idle timer, no key, no base URL, the library's own user
    /// agent. Key and base URL must be set before the configuration builds.
    fn default() -> (s: Self)
        ensures
            s.tick_ms == DEFAULT_TICK_MS,
            s.api_key@ == Seq::<char>::empty(),
            s.base_url@ == Seq::<char>::empty(),
            s.user_agent@ == "sanglier/0.1.0"@,
    {
        PostHogBuilder {
            tick_ms: DEFAULT_TICK_MS,
            api_key: String::new(),
            base_url: String::new(),
            user_agent: String::from_str("sanglier/0.1.0"),
        }
    }
}

impl PostHogBuilder {
    /// Sets the idle-timer duration, in milliseconds: how long the dispatcher
    /// waits between flush cycles when nothing wakes it early.
    pub fn batch_delay(self, tick_ms: u64) -> (s: Self)
        ensures
            s.tick_ms == tick_ms,
            s.api_key == self.api_key,
            s.base_url == self.base_url,
            s.user_agent == self.user_agent,
    {
        PostHogBuilder { tick_ms, ..self }
    }

    /// Points the dispatcher at the official US ingestion endpoint.
    pub fn in_official_us_region(self) -> (s: Self)
        ensures
            s.base_url@ == "https://us.i.posthog.com"@,
            s.tick_ms == self.tick_ms,
            s.api_key == self.api_key,
            s.user_agent == self.user_agent,
    {
        PostHogBuilder { base_url: String::from_str("https://us.i.posthog.com"), ..self }
    }

    /// Points the dispatcher at the official EU ingestion endpoint.
    pub fn in_official_eu_region(self) -> (s: Self)
        ensures
            s.base_url@ == "https://eu.i.posthog.com"@,
            s.tick_ms == self.tick_ms,
            s.api_key == self.api_key,
            s.user_agent == self.user_agent,
    {
        PostHogBuilder { base_url: String::from_str("https://eu.i.posthog.com"), ..self }
    }

    /// Sets the ingestion base URL, dropping any trailing slashes so that the
    /// batch path can always be appended with a single one.
    pub fn with_base_url(self, url: &str) -> (s: Self)
        ensures
            s.base_url@ == trim_trailing_slashes(url@),
            s.tick_ms == self.tick_ms,
            s.api_key == self.api_key,
            s.user_agent == self.user_agent,
    {
        let n = url.unicode_len();
        let mut end: usize = n;
        proof {
            assert(url@.take(n as int) =~= url@);
        }
        while end > 0 && url.get_char(end - 1) == '/'
            invariant
                end <= n,
                n == url@.len(),
                trimmed_len(url@) == trimmed_len(url@.take(end as int)),
            decreases end,
        {
            proof {
                assert(url@.take(end as int).last() == url@[end as int - 1]);
                assert(url@.take(end as int).drop_last() =~= url@.take(end as int - 1));
            }
            end = end - 1;
        }
        proof {
            lemma_trimmed_len_bounds(url@.take(end as int));
            if end > 0 {
                assert(url@.take(end as int).last() == url@[end as int - 1]);
            }
            assert(trimmed_len(url@.take(end as int)) == end as int);
            assert(url@.subrange(0, end as int) =~= trim_trailing_slashes(url@));
        }
        let trimmed = url.substring_char(0, end);
        PostHogBuilder { base_url: String::from_str(trimmed), ..self }
    }

    /// Sets the project API key that every batch body carries.
    pub fn with_api_key(self, api_key: &str) -> (s: Self)
        ensures
            s.api_key@ == api_key@,
            s.tick_ms == self.tick_ms,
            s.base_url == self.base_url,
            s.user_agent == self.user_agent,
    {
        PostHogBuilder { api_key: String::from_str(api_key), ..self }
    }

    /// Sets the user agent the HTTP client presents.
    pub fn with_user_agent(self, user_agent: &str) -> (s: Self)
        ensures
            s.user_agent@ == user_agent@,
            s.tick_ms == self.tick_ms,
            s.api_key == self.api_key,
            s.base_url == self.base_url,
    {
        PostHogBuilder { user_agent: String::from_str(user_agent), ..self }
    }

    /// The setup-time validation that precedes starting the dispatcher:
    /// succeeds exactly when both the API key and the base URL were set, and
    /// hands the checked values over; a missing key is reported before a
    /// missing URL. Never recoverable at runtime: the caller stops on it.
    pub fn build_config(self) -> (r: Result<Config, BuildError>)
        ensures
            r is Ok <==> (self.api_key@.len() > 0 && self.base_url@.len() > 0),
            r is Ok ==> r->Ok_0 == (Config {
                tick_ms: self.tick_ms,
                api_key: self.api_key,
                base_url: self.base_url,
                user_agent: self.user_agent,
            }),
            r is Err ==> r->Err_0 == (if self.api_key@.len() == 0 {
                BuildError::MissingApiKey
            } else {
                BuildError::MissingBaseUrl
            }),
    {
        if self.api_key.as_str().unicode_len() == 0 {
            Err(BuildError::MissingApiKey)
        } else if self.base_url.as_str().unicode_len() == 0 {
            Err(BuildError::MissingBaseUrl)
        } else {
            Ok(Config {
                tick_ms: self.tick_ms,
                api_key: self.api_key,
                base_url: self.base_url,
                user_agent: self.user_agent,
            })
        }
    }
}

/// What stops a dispatcher from being set up at all.
#[derive(PartialEq, Eq, Structural, Debug, Clone, Copy)]
pub enum BuildError {
    /// No API key was given.
    MissingApiKey,
    /// No base URL was given.
    MissingBaseUrl,
}

/// A checked configuration: what the dispatcher runs with.
pub struct Config {
    pub tick_ms: u64,
    pub api_key: String,
    pub base_url: String,
    pub user_agent: String,
}

impl Config {
    /// The endpoint every batch is POSTed to: the batch path under the base
    /// URL.
    pub fn batch_endpoint(&self) -> (r: String)
        ensures
            r@ == self.base_url@ + "/batch"@,
    {
        let mut r = self.base_url.clone();
        r.append("/batch");
        r
    }
}

#[verifier::external_type_specification]
#[verifier::external_body]
#[verifier::reject_recursive_types(T)]
pub struct ExUnboundedSender<T>(tokio::sync::mpsc::UnboundedSender<T>);

#[verifier::external_type_specification]
#[verifier::external_body]
pub struct ExSemaphore(tokio::sync::Semaphore);

/// Relies on tokio's UnboundedSender::clone: another handle to the same
/// channel. The channel itself is not modelled, so nothing is promised of the
/// result.
pub assume_specification<T>[ <tokio::sync::mpsc::UnboundedSender<T> as Clone>::clone ](
    sender: &tokio::sync::mpsc::UnboundedSender<T>,
) -> tokio::sync::mpsc::UnboundedSender<T>;

/// Relies on tokio's UnboundedSender::send: queues the record without
/// blocking; when the receiver is gone the record is silently dropped, which
/// the producer never observes.
#[verifier::external_body]
fn chan_send(sender: &tokio::sync::mpsc::UnboundedSender<Event>, event: Event) {
    let _ = sender.send(event);
}

/// Relies on tokio's Semaphore::available_permits: the number of permits at
/// the instant of the call; concurrent tasks may change it at any time, so
/// nothing more is promised of the result.
#[verifier::external_body]
fn wake_permits(sem: &std::sync::Arc<tokio::sync::Semaphore>) -> usize {
    sem.available_permits()
}

/// Relies on tokio's Semaphore::add_permits: makes one permit available to
/// the waiting dispatcher. The coalescing caller adds one only when it saw
/// none, keeping the outstanding permits far below the semaphore's ceiling.
#[verifier::external_body]
fn wake_add_permit(sem: &std::sync::Arc<tokio::sync::Semaphore>) {
    sem.add_permits(1)
}

/// The producer-facing handle: hands records to the ingress channel and wake
/// requests to the dispatcher. Cheap to clone and safe to share across
/// producer tasks; every operation returns at once.
#[derive(Clone)]
pub struct PostHog {
    send: tokio::sync::mpsc::UnboundedSender<Event>,
    wakeup: std::sync::Arc<tokio::sync::Semaphore>,
}

impl PostHog {
    /// The sender this handle feeds its records into.
    pub closed spec fn sender_spec(&self) -> tokio::sync::mpsc::UnboundedSender<Event> {
        self.send
    }

    /// The semaphore this handle signals wake requests on.
    pub closed spec fn wakeup_spec(&self) -> std::sync::Arc<tokio::sync::Semaphore> {
        self.wakeup
    }

    /// Wraps the dispatcher's ingress side: the channel the records go into
    /// and the semaphore that carries wake requests.
    pub fn new(
        send: tokio::sync::mpsc::UnboundedSender<Event>,
        wakeup: std::sync::Arc<tokio::sync::Semaphore>,
    ) -> (r: Self)
        ensures
            r.sender_spec() == send,
            r.wakeup_spec() == wakeup,
    {
        PostHog { send, wakeup }
    }

    /// Begins one event: named, anonymous so far, no payload yet.
    pub fn capture(&self, name: &str) -> (n: NewEvent)
        ensures
            n.event.name@ == name@,
            n.event.distinct_id@ == Seq::<char>::empty(),
            n.event.properties is None,
            n.hog == self,
    {
        NewEvent {
            event: Event {
                name: String::from_str(name),
                distinct_id: String::new(),
                properties: Option::None,
            },
            hog: self,
        }
    }

    /// Asks the dispatcher to cut its next idle wait short. Requests
    /// coalesce: a permit is added only when none is outstanding, so repeated
    /// calls leave at most one pending wake.
    pub fn force_process(&self) {
        if wake_permits(&self.wakeup) == 0 {
            wake_add_permit(&self.wakeup);
        }
    }

    /// Hands one finished record to the ingress channel; fire-and-forget.
    pub(crate) fn send(&self, event: Event) {
        chan_send(&self.send, event);
    }
}

} // verus!
