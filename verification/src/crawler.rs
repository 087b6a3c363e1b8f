//! The crawl pipeline: one crawler bound to one content owner, with the
//! resolved authentication and destination parameters, and the owned task
//! executor.
//!
//! The network, the file system and the credential store stay with the
//! caller. This module holds everything the pipeline decides: how inputs
//! are normalised, which URLs the stages call, which headers a fetch
//! carries, where each file goes, and how submissions move the executor.

use vstd::prelude::*;

use crate::executor::{
    init_state, progress_spec, step, ExecEvent, ExecState, ExecutorShutDown, TaskMng,
};
use crate::text::{
    join_path, join_path_spec, trim_spec, trim_str,
};

verus! {

/// The abstract value of a [`Crawler`]: the owner identifier, the
/// credential cookie, the run's destination directory, the network route
/// override (`None` when the caller gave none), and the executor state.
#[verifier::ext_equal]
pub struct CrawlerView {
    pub uuid: Seq<char>,
    pub cookie: Seq<char>,
    pub path: Seq<char>,
    pub proxy: Option<Seq<char>>,
    pub exec_state: ExecState,
}

/// One HTTP header a fetch carries: a name and a value.
pub struct Header {
    pub name: String,
    pub value: String,
}

/// Everything one submitted per-item job needs: the URL that expands the
/// item into its resource URLs, the headers and route of its fetches, and
/// the directory its files go under.
pub struct JobSpec {
    pub url: String,
    pub headers: Vec<Header>,
    pub path: String,
    pub proxy: Option<String>,
}

/// The base directory of a run: the caller's path when it holds more
/// than whitespace, else the given default.
pub open spec fn base_dir_spec(path: Seq<char>, default_dir: Seq<char>) -> Seq<char> {
    if trim_spec(path).len() == 0 {
        default_dir
    } else {
        trim_spec(path)
    }
}

/// The network route override: `None` when the caller's value holds
/// nothing but whitespace.
pub open spec fn proxy_spec(proxy: Seq<char>) -> Option<Seq<char>> {
    if trim_spec(proxy).len() == 0 {
        None
    } else {
        Some(trim_spec(proxy))
    }
}

/// The view of a stored route override.
pub open spec fn proxy_field_view(p: Option<String>) -> Option<Seq<char>> {
    match p {
        Some(s) => Some(s@),
        None => None,
    }
}

/// The state a fresh crawler starts in, for the given inputs.
pub open spec fn new_crawler_spec(
    uuid: Seq<char>,
    cookie: Seq<char>,
    path: Seq<char>,
    proxy: Seq<char>,
    default_dir: Seq<char>,
) -> CrawlerView {
    CrawlerView {
        uuid: trim_spec(uuid),
        cookie: trim_spec(cookie),
        path: join_path_spec(base_dir_spec(path, default_dir), trim_spec(uuid)),
        proxy: proxy_spec(proxy),
        exec_state: init_state(),
    }
}

/// The stage-1 URL: lists the owner's items.
pub open spec fn user_ajax_spec(uuid: Seq<char>) -> Seq<char> {
    "https://www.pixiv.net/ajax/user/"@ + uuid + "/profile/all?lang=zh"@
}

/// The stage-2 URL: expands one item into its resource URLs.
pub open spec fn illu_ajax_spec(illu_id: Seq<char>) -> Seq<char> {
    "https://www.pixiv.net/ajax/illust/"@ + illu_id + "/pages?lang=zh"@
}

/// The referer a fetch of one item's resources carries.
pub open spec fn referer_spec(illu_id: Seq<char>) -> Seq<char> {
    "https://www.pixiv.net/artworks/"@ + illu_id
}

/// The browser identity every fetch carries.
pub open spec fn user_agent_spec() -> Seq<char> {
    "Mozilla/5.0 (Macintosh; Intel Mac OS X 10_15_7) AppleWebKit/605.1.15 (KHTML, like Gecko) Version/16.2 Safari/605.1.15"@
}

/// The three headers of a fetch for one item: the credential cookie, the
/// item's referer, and the browser identity, in that order.
pub open spec fn headers_match(hs: Seq<Header>, cookie: Seq<char>, illu_id: Seq<char>) -> bool {
    &&& hs.len() == 3
    &&& hs[0].name@ == "cookie"@
    &&& hs[0].value@ == cookie
    &&& hs[1].name@ == "referer"@
    &&& hs[1].value@ == referer_spec(illu_id)
    &&& hs[2].name@ == "user-agent"@
    &&& hs[2].value@ == user_agent_spec()
}

/// What the job submitted for one item must hold, given the crawler that
/// submits it.
pub open spec fn job_is_for(j: JobSpec, c: CrawlerView, illu_id: Seq<char>) -> bool {
    &&& j.url@ == illu_ajax_spec(illu_id)
    &&& headers_match(j.headers@, c.cookie, illu_id)
    &&& j.path@ == c.path
    &&& proxy_field_view(j.proxy) == c.proxy
}

/// One crawl pipeline run: the owner identifier, the resolved
/// authentication and network parameters, the destination directory, and
/// the owned task executor. Immutable but for the executor's counters.
pub struct Crawler {
    uuid: String,
    cookie: String,
    path: String,
    proxy: Option<String>,
    tk_mng: TaskMng,
}

impl View for Crawler {
    type V = CrawlerView;

    closed spec fn view(&self) -> CrawlerView {
        CrawlerView {
            uuid: self.uuid@,
            cookie: self.cookie@,
            path: self.path@,
            proxy: proxy_field_view(self.proxy),
            exec_state: self.tk_mng@,
        }
    }
}

impl Crawler {
    /// Binds a new pipeline to one owner. Inputs are trimmed; an empty
    /// destination falls back to `default_dir`; the files of the run go
    /// under `<base>/<owner>`; an empty route override means none.
    pub fn new(uuid: &str, cookie: &str, path: &str, proxy: &str, default_dir: &str) -> (r:
        Crawler)
        ensures
            r@ == new_crawler_spec(uuid@, cookie@, path@, proxy@, default_dir@),
    {
        let uuid_t = trim_str(uuid);
        let cookie_t = trim_str(cookie);
        let path_t = trim_str(path);
        let proxy_t = trim_str(proxy);
        let base = if path_t.as_str().unicode_len() == 0 {
            String::from_str(default_dir)
        } else {
            path_t
        };
        let dest = join_path(base.as_str(), uuid_t.as_str());
        let proxy_field = if proxy_t.as_str().unicode_len() == 0 {
            None
        } else {
            Some(proxy_t)
        };
        Crawler {
            uuid: uuid_t,
            cookie: cookie_t,
            path: dest,
            proxy: proxy_field,
            tk_mng: TaskMng::new(),
        }
    }

    /// A builder that collects the same four inputs step by step.
    pub fn builder() -> (r: CrawlerBuilder)
        ensures
            r@ == (BuilderView { uuid: None, cookie: None, path: None, proxy: None }),
    {
        CrawlerBuilder::new()
    }

    /// Submits one job per resolved item: stage 1 is done when the item
    /// list is in hand, and this issues the per-item work of stages 2
    /// and 3. It returns once every job is submitted and counted - it
    /// does not wait for any to finish. Submitting after shutdown is
    /// fatal: it fails on the first item and no job of this call runs.
    pub fn run(&mut self, illu_ids: &Vec<String>) -> (r: Result<Vec<JobSpec>, ExecutorShutDown>)
        requires
            old(self)@.exec_state.submitted + illu_ids@.len() <= u64::MAX,
        ensures
            r is Ok <==> (old(self)@.exec_state.running || illu_ids@.len() == 0),
            r matches Ok(jobs) ==> {
                &&& jobs@.len() == illu_ids@.len()
                &&& forall|i: int|
                    0 <= i < illu_ids@.len() ==> job_is_for(
                        #[trigger] jobs@[i],
                        old(self)@,
                        illu_ids@[i]@,
                    )
                &&& final(self)@ == (CrawlerView {
                    exec_state: ExecState {
                        submitted: old(self)@.exec_state.submitted + illu_ids@.len(),
                        completed: old(self)@.exec_state.completed,
                        running: old(self)@.exec_state.running,
                    },
                    ..old(self)@
                })
            },
            r is Err ==> final(self)@ == old(self)@,
    {
        let ghost pre = self@;
        let mut jobs: Vec<JobSpec> = Vec::new();
        let n = illu_ids.len();
        let mut i: usize = 0;
        while i < n
            invariant
                pre == old(self)@,
                0 <= i <= n,
                n == illu_ids@.len(),
                pre.exec_state.submitted + n <= u64::MAX,
                jobs@.len() == i,
                forall|k: int| 0 <= k < i ==> job_is_for(#[trigger] jobs@[k], pre, illu_ids@[k]@),
                pre.exec_state.running || i == 0,
                self@.uuid == pre.uuid,
                self@.cookie == pre.cookie,
                self@.path == pre.path,
                self@.proxy == pre.proxy,
                self@.exec_state.submitted == pre.exec_state.submitted + i,
                self@.exec_state.completed == pre.exec_state.completed,
                self@.exec_state.running == pre.exec_state.running,
            decreases n - i,
        {
            match self.tk_mng.spawn_task() {
                Ok(()) => {},
                Err(e) => {
                    proof {
                        assert(!pre.exec_state.running);
                        assert(self@.exec_state =~= pre.exec_state);
                        assert(self@ =~= pre);
                    }
                    return Err(e);
                },
            }
            let job = self.prepare_job(illu_ids[i].as_str());
            proof {
                assert(job_is_for(job, pre, illu_ids@[i as int]@));
            }
            jobs.push(job);
            i = i + 1;
        }
        proof {
            assert(self@ =~= (CrawlerView {
                exec_state: (ExecState {
                    submitted: pre.exec_state.submitted + illu_ids@.len(),
                    completed: pre.exec_state.completed,
                    running: pre.exec_state.running,
                }),
                ..pre
            }));
        }
        Ok(jobs)
    }

    /// The stage-1 URL of this run: lists the owner's items.
    pub fn user_ajax(&self) -> (r: String)
        ensures
            r@ == user_ajax_spec(self@.uuid),
    {
        String::from_str("https://www.pixiv.net/ajax/user/").concat(self.uuid.as_str()).concat(
            "/profile/all?lang=zh",
        )
    }

    /// The stage-2 URL of one item: expands it into its resource URLs.
    pub fn illu_ajax(&self, illu_id: &str) -> (r: String)
        ensures
            r@ == illu_ajax_spec(illu_id@),
    {
        String::from_str("https://www.pixiv.net/ajax/illust/").concat(illu_id).concat(
            "/pages?lang=zh",
        )
    }

    /// The headers a fetch of one item's resources carries: cookie,
    /// referer, browser identity.
    pub fn headers(&self, illu_id: &str) -> (r: Vec<Header>)
        ensures
            headers_match(r@, self@.cookie, illu_id@),
    {
        let referer = String::from_str("https://www.pixiv.net/artworks/").concat(illu_id);
        let agent =
            "Mozilla/5.0 (Macintosh; Intel Mac OS X 10_15_7) AppleWebKit/605.1.15 (KHTML, like Gecko) Version/16.2 Safari/605.1.15";
        let mut r: Vec<Header> = Vec::new();
        r.push(Header { name: String::from_str("cookie"), value: self.cookie.clone() });
        r.push(Header { name: String::from_str("referer"), value: referer });
        r.push(Header { name: String::from_str("user-agent"), value: String::from_str(agent) });
        r
    }

    /// Everything the job of one item needs, bound to this run's
    /// parameters.
    pub fn prepare_job(&self, illu_id: &str) -> (j: JobSpec)
        ensures
            job_is_for(j, self@, illu_id@),
    {
        let url = self.illu_ajax(illu_id);
        let headers = self.headers(illu_id);
        let proxy = match &self.proxy {
            Some(p) => Some(p.clone()),
            None => None,
        };
        JobSpec { url, headers, path: self.path.clone(), proxy }
    }

    /// Closes the executor's intake; a pass-through to the owned task
    /// executor.
    pub fn shutdown(&mut self)
        ensures
            final(self)@ == (CrawlerView { exec_state: step(old(self)@.exec_state, ExecEvent::Shutdown), ..old(
                self,
            )@ }),
    {
        self.tk_mng.shutdown();
    }

    /// The progress snapshot `"<completed>/<submitted>"`; a pass-through
    /// to the owned task executor.
    pub fn process(&self) -> (r: String)
        ensures
            r@ == progress_spec(self@.exec_state),
    {
        self.tk_mng.process()
    }

    /// Records the outcome one finished job reported; a pass-through to
    /// the owned task executor.
    pub fn task_finished(&mut self, success: bool)
        requires
            success && old(self)@.exec_state.running ==> old(self)@.exec_state.completed < old(
                self,
            )@.exec_state.submitted,
        ensures
            final(self)@ == (CrawlerView {
                exec_state: step(old(self)@.exec_state, (ExecEvent::Finish { success })),
                ..old(self)@
            }),
    {
        self.tk_mng.task_finished(success);
    }

    /// The directory this run writes under.
    pub fn save_path(&self) -> (r: String)
        ensures
            r@ == self@.path,
    {
        self.path.clone()
    }

    /// The owner identifier this run is bound to.
    pub fn uuid(&self) -> (r: String)
        ensures
            r@ == self@.uuid,
    {
        self.uuid.clone()
    }

    /// The credential cookie of this run.
    pub fn cookie(&self) -> (r: String)
        ensures
            r@ == self@.cookie,
    {
        self.cookie.clone()
    }

    /// The network route override of this run, if any.
    pub fn proxy(&self) -> (r: Option<String>)
        ensures
            proxy_field_view(r) == self@.proxy,
    {
        match &self.proxy {
            Some(p) => Some(p.clone()),
            None => None,
        }
    }
}

/// The abstract value of a [`CrawlerBuilder`]: which of the four inputs
/// have been given, and as what.
#[verifier::ext_equal]
pub struct BuilderView {
    pub uuid: Option<Seq<char>>,
    pub cookie: Option<Seq<char>>,
    pub path: Option<Seq<char>>,
    pub proxy: Option<Seq<char>>,
}

/// Collects the four inputs of a crawler one at a time; `build` turns
/// them into a bound pipeline. The owner identifier and the cookie must
/// be given; the destination and the route override may stay empty.
#[derive(Debug)]
pub struct CrawlerBuilder {
    uuid: Option<String>,
    cookie: Option<String>,
    path: Option<String>,
    proxy: Option<String>,
}

impl View for CrawlerBuilder {
    type V = BuilderView;

    closed spec fn view(&self) -> BuilderView {
        BuilderView {
            uuid: proxy_field_view(self.uuid),
            cookie: proxy_field_view(self.cookie),
            path: proxy_field_view(self.path),
            proxy: proxy_field_view(self.proxy),
        }
    }
}

impl CrawlerBuilder {
    /// A builder with nothing given yet.
    pub fn new() -> (r: CrawlerBuilder)
        ensures
            r@ == (BuilderView { uuid: None, cookie: None, path: None, proxy: None }),
    {
        CrawlerBuilder { uuid: None, cookie: None, path: None, proxy: None }
    }

    /// Turns the collected inputs into a crawler, exactly as
    /// [`Crawler::new`] would read them. The destination and route
    /// override default to empty - so to the default directory and to no
    /// override.
    pub fn build(self, default_dir: &str) -> (r: Crawler)
        requires
            self@.uuid is Some,
            self@.cookie is Some,
        ensures
            r@ == new_crawler_spec(
                self@.uuid->0,
                self@.cookie->0,
                match self@.path {
                    Some(p) => p,
                    None => Seq::<char>::empty(),
                },
                match self@.proxy {
                    Some(p) => p,
                    None => Seq::<char>::empty(),
                },
                default_dir@,
            ),
    {
        let uuid = match self.uuid {
            Some(u) => u,
            None => String::new(),
        };
        let cookie = match self.cookie {
            Some(c) => c,
            None => String::new(),
        };
        let path = match self.path {
            Some(p) => p,
            None => String::new(),
        };
        let proxy = match self.proxy {
            Some(p) => p,
            None => String::new(),
        };
        Crawler::new(uuid.as_str(), cookie.as_str(), path.as_str(), proxy.as_str(), default_dir)
    }

    /// Gives the owner identifier, trimmed.
    pub fn uuid(self, uuid: &str) -> (r: Self)
        ensures
            r@ == (BuilderView { uuid: Some(trim_spec(uuid@)), ..self@ }),
    {
        let t = trim_str(uuid);
        CrawlerBuilder { uuid: Some(t), cookie: self.cookie, path: self.path, proxy: self.proxy }
    }

    /// Gives the credential cookie, trimmed.
    pub fn cookie(self, cookie: &str) -> (r: Self)
        ensures
            r@ == (BuilderView { cookie: Some(trim_spec(cookie@)), ..self@ }),
    {
        let t = trim_str(cookie);
        CrawlerBuilder { uuid: self.uuid, cookie: Some(t), path: self.path, proxy: self.proxy }
    }

    /// Gives the destination directory, trimmed. An empty value keeps
    /// the meaning "use the default directory": `build` resolves it.
    pub fn path(self, path: &str) -> (r: Self)
        ensures
            r@ == (BuilderView { path: Some(trim_spec(path@)), ..self@ }),
    {
        let t = trim_str(path);
        CrawlerBuilder { uuid: self.uuid, cookie: self.cookie, path: Some(t), proxy: self.proxy }
    }

    /// Gives the network route override, trimmed. An empty value means
    /// none.
    pub fn proxy(self, proxy: &str) -> (r: Self)
        ensures
            r@ == (BuilderView { proxy: Some(trim_spec(proxy@)), ..self@ }),
    {
        let t = trim_str(proxy);
        CrawlerBuilder { uuid: self.uuid, cookie: self.cookie, path: self.path, proxy: Some(t) }
    }
}

} // verus!
