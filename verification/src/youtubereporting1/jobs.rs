//! The methods on jobs and on the reports of a job.

use vstd::prelude::*;
use crate::client::{Error, HubView, Method, MethodInfo};
use crate::exchange::{begun, start, Exchange};
use crate::params::{
    distinct_names, inserted, maybe, one, option_text, pairs_text, push_all, push_one,
    push_some, Pairs, Params,
};
use crate::request::{
    all_params, expanded, lemma_own_values_come_first, lemma_path_values_leave, names_of, Route,
    RouteView,
};
use crate::scopes::{ascending, with_scope, ScopeSet};
use crate::text::{option_bool_string, option_bool_text, option_i32_text, option_int_text, replaced};
use super::schemas::Job;
use super::{Scope, YouTubeReporting};

verus! {

/// The builders of the methods on jobs. A hub hands them out.
pub struct JobMethods<'a> {
    hub: &'a YouTubeReporting,
}

impl<'a> View for JobMethods<'a> {
    type V = HubView;

    closed spec fn view(&self) -> HubView {
        self.hub@
    }
}

impl<'a> JobMethods<'a> {
    pub(super) fn of(hub: &'a YouTubeReporting) -> (r: JobMethods<'a>)
        ensures
            r@ == hub@,
    {
        JobMethods { hub }
    }

    /// Builds the call that gets the metadata of a specific report.
    ///
    /// * `job_id` - the ID of the job.
    /// * `report_id` - the ID of the report to retrieve.
    pub fn reports_get(&self, job_id: &str, report_id: &str) -> (r: JobReportGetCall<'a>)
        ensures
            r@ == (JobReportGetCallView {
                hub: self@,
                job_id: job_id@,
                report_id: report_id@,
                on_behalf_of_content_owner: None,
                additional_params: Pairs::empty(),
                scopes: Seq::empty(),
            }),
    {
        JobReportGetCall {
            hub: self.hub,
            _job_id: job_id.to_owned(),
            _report_id: report_id.to_owned(),
            _on_behalf_of_content_owner: None,
            _additional_params: Params::new(),
            _scopes: ScopeSet::new(),
        }
    }

    /// Builds the call that lists the reports that a job created.
    ///
    /// * `job_id` - the ID of the job.
    pub fn reports_list(&self, job_id: &str) -> (r: JobReportListCall<'a>)
        ensures
            r@ == (JobReportListCallView {
                hub: self@,
                job_id: job_id@,
                start_time_before: None,
                start_time_at_or_after: None,
                page_token: None,
                page_size: None,
                on_behalf_of_content_owner: None,
                created_after: None,
                additional_params: Pairs::empty(),
                scopes: Seq::empty(),
            }),
    {
        JobReportListCall {
            hub: self.hub,
            _job_id: job_id.to_owned(),
            _start_time_before: None,
            _start_time_at_or_after: None,
            _page_token: None,
            _page_size: None,
            _on_behalf_of_content_owner: None,
            _created_after: None,
            _additional_params: Params::new(),
            _scopes: ScopeSet::new(),
        }
    }

    /// Builds the call that creates a job and returns it.
    ///
    /// * `request` - the value whose JSON text becomes the body.
    pub fn create(&self, request: Job) -> (r: JobCreateCall<'a>)
        ensures
            r@ == (JobCreateCallView {
                hub: self@,
                request,
                on_behalf_of_content_owner: None,
                additional_params: Pairs::empty(),
                scopes: Seq::empty(),
            }),
    {
        JobCreateCall {
            hub: self.hub,
            _request: request,
            _on_behalf_of_content_owner: None,
            _additional_params: Params::new(),
            _scopes: ScopeSet::new(),
        }
    }

    /// Builds the call that deletes a job.
    ///
    /// * `job_id` - the ID of the job to delete.
    pub fn delete(&self, job_id: &str) -> (r: JobDeleteCall<'a>)
        ensures
            r@ == (JobDeleteCallView {
                hub: self@,
                job_id: job_id@,
                on_behalf_of_content_owner: None,
                additional_params: Pairs::empty(),
                scopes: Seq::empty(),
            }),
    {
        JobDeleteCall {
            hub: self.hub,
            _job_id: job_id.to_owned(),
            _on_behalf_of_content_owner: None,
            _additional_params: Params::new(),
            _scopes: ScopeSet::new(),
        }
    }

    /// Builds the call that gets a job.
    ///
    /// * `job_id` - the ID of the job to retrieve.
    pub fn get(&self, job_id: &str) -> (r: JobGetCall<'a>)
        ensures
            r@ == (JobGetCallView {
                hub: self@,
                job_id: job_id@,
                on_behalf_of_content_owner: None,
                additional_params: Pairs::empty(),
                scopes: Seq::empty(),
            }),
    {
        JobGetCall {
            hub: self.hub,
            _job_id: job_id.to_owned(),
            _on_behalf_of_content_owner: None,
            _additional_params: Params::new(),
            _scopes: ScopeSet::new(),
        }
    }

    /// Builds the call that lists jobs.
    pub fn list(&self) -> (r: JobListCall<'a>)
        ensures
            r@ == (JobListCallView {
                hub: self@,
                page_token: None,
                page_size: None,
                on_behalf_of_content_owner: None,
                include_system_managed: None,
                additional_params: Pairs::empty(),
                scopes: Seq::empty(),
            }),
    {
        JobListCall {
            hub: self.hub,
            _page_token: None,
            _page_size: None,
            _on_behalf_of_content_owner: None,
            _include_system_managed: None,
            _additional_params: Params::new(),
            _scopes: ScopeSet::new(),
        }
    }
}

/// Gets the metadata of a specific report: the method `reports.get` of a job.
pub struct JobReportGetCall<'a> {
    hub: &'a YouTubeReporting,
    _job_id: String,
    _report_id: String,
    _on_behalf_of_content_owner: Option<String>,
    _additional_params: Params,
    _scopes: ScopeSet,
}

/// The model of a `JobReportGetCall`.
pub struct JobReportGetCallView {
    pub hub: HubView,
    pub job_id: Seq<char>,
    pub report_id: Seq<char>,
    pub on_behalf_of_content_owner: Option<Seq<char>>,
    pub additional_params: Pairs,
    pub scopes: Seq<Seq<char>>,
}

impl<'a> View for JobReportGetCall<'a> {
    type V = JobReportGetCallView;

    closed spec fn view(&self) -> JobReportGetCallView {
        JobReportGetCallView {
            hub: self.hub@,
            job_id: self._job_id@,
            report_id: self._report_id@,
            on_behalf_of_content_owner: option_text(self._on_behalf_of_content_owner),
            additional_params: self._additional_params@,
            scopes: self._scopes@,
        }
    }
}

impl<'a> JobReportGetCall<'a> {
    /// What is fixed for the method.
    pub open spec fn route() -> RouteView {
        RouteView {
            id: "youtubereporting.jobs.reports.get"@,
            method: Method::Get,
            path: "v1/jobs/{jobId}/reports/{reportId}"@,
            reserved: seq!["alt"@, "jobId"@, "reportId"@, "onBehalfOfContentOwner"@],
            markers: seq![("{jobId}"@, "jobId"@), ("{reportId}"@, "reportId"@)],
            dropped: seq!["reportId"@, "jobId"@],
            serves_media: false,
        }
    }

    /// The values that go into the path, under the names of their markers.
    pub open spec fn path_values(v: JobReportGetCallView) -> Pairs {
        seq![("jobId"@, v.job_id), ("reportId"@, v.report_id)]
    }

    /// The parameters of the query that were set, in the order of the method.
    pub open spec fn settings(v: JobReportGetCallView) -> Pairs {
        maybe("onBehalfOfContentOwner"@, v.on_behalf_of_content_owner)
    }

    /// The address of the request: the base URL and the path, with each marker
    /// replaced by its value.
    pub open spec fn address(v: JobReportGetCallView) -> Seq<char> {
        replaced(
            replaced(
                v.hub.base_url + Self::route().path,
                "{jobId}"@,
                v.job_id,
            ),
            "{reportId}"@,
            v.report_id,
        )
    }

    /// The query of the request: the parameters that were set, the additional
    /// parameters, and `alt=json`.
    pub open spec fn query(v: JobReportGetCallView) -> Pairs {
        Self::settings(v) + v.additional_params + one("alt"@, "json"@)
    }

    /// Calls to mind what holds of every builder: the additional parameters
    /// have distinct names, and the scopes ascend.
    pub fn well_formed(&self)
        ensures
            distinct_names(self@.additional_params),
            ascending(self@.scopes),
    {
        self._additional_params.well_formed();
        self._scopes.well_formed();
    }

    /// What a delegate is told when the call begins.
    pub fn method_info(&self) -> (r: MethodInfo)
        ensures
            r.id@ == Self::route().id,
            r.http_method == Self::route().method,
    {
        MethodInfo { id: "youtubereporting.jobs.reports.get", http_method: Method::Get }
    }

    /// Prepares the request that was built so far and opens the exchange that
    /// carries it out. Fails with a clash where an additional parameter has a
    /// name that the call sets itself: the first such name in the order of
    /// `route().reserved`. Fails with `UrlTooLong` where address and query are
    /// longer than a URL may be, and with `InvalidUrl` where they make no
    /// absolute URL.
    pub fn doit(self) -> (r: Result<Exchange, Error>)
        ensures
            begun(
                r,
                Self::route().reserved,
                self@.additional_params,
                Self::route().method,
                Self::address(self@),
                Self::query(self@),
                true,
                self@.hub.user_agent,
                self@.scopes,
                Scope::YtAnalyticMonetaryReadonly.text(),
                None,
            ),
            distinct_names(self@.additional_params),
            ascending(self@.scopes),
    {
        self.well_formed();
        let route = Route {
            id: "youtubereporting.jobs.reports.get",
            method: Method::Get,
            path: "v1/jobs/{jobId}/reports/{reportId}",
            reserved: vec!["alt", "jobId", "reportId", "onBehalfOfContentOwner"],
            markers: vec![("{jobId}", "jobId"), ("{reportId}", "reportId")],
            dropped: vec!["reportId", "jobId"],
            serves_media: false,
        };
        assert(route@.reserved =~= Self::route().reserved);
        assert(route@.markers =~= Self::route().markers);
        assert(route@.dropped =~= Self::route().dropped);
        let mut named: Vec<(String, String)> = Vec::new();
        push_one(&mut named, "jobId", self._job_id);
        push_one(&mut named, "reportId", self._report_id);
        assert(pairs_text(named@) =~= Self::path_values(self@));
        let mut settings: Vec<(String, String)> = Vec::new();
        push_some(&mut settings, "onBehalfOfContentOwner", self._on_behalf_of_content_owner);
        assert(pairs_text(settings@) =~= Self::settings(self@));
        push_all(&mut named, settings);
        let r = start(
            &route,
            self.hub._base_url.as_str(),
            self.hub._user_agent.as_str(),
            named,
            &self._additional_params,
            self._scopes,
            Scope::YtAnalyticMonetaryReadonly.as_ref(),
            None,
        );
        proof {
            let v = self@;
            let heads = Self::path_values(v);
            let tail = Self::query(v);
            reveal_strlit("{jobId}");
            reveal_strlit("{reportId}");
            reveal_strlit("jobId");
            reveal_strlit("reportId");
            let params = all_params(heads + Self::settings(v), v.additional_params, false);
            assert(params =~= heads + tail);
            assert("jobId"@.len() == 5 && "reportId"@.len() == 8);
            assert(distinct_names(heads));
            lemma_own_values_come_first(heads, tail, 0);
            lemma_own_values_come_first(heads, tail, 1);
            reveal_with_fuel(expanded, 3);
            assert(expanded(v.hub.base_url + Self::route().path, params, Self::route().markers)
                == Self::address(v));
            assert(Self::route().dropped =~= names_of(heads).reverse());
            lemma_path_values_leave(heads, tail, Self::route().dropped);
        }
        r
    }

    /// Sets the ID of the job.
    pub fn job_id(self, new_value: &str) -> (r: JobReportGetCall<'a>)
        ensures
            r@ == (JobReportGetCallView { job_id: new_value@, ..self@ }),
    {
        let mut call = self;
        call._job_id = new_value.to_owned();
        call
    }

    /// Sets the ID of the report to retrieve.
    pub fn report_id(self, new_value: &str) -> (r: JobReportGetCall<'a>)
        ensures
            r@ == (JobReportGetCallView { report_id: new_value@, ..self@ }),
    {
        let mut call = self;
        call._report_id = new_value.to_owned();
        call
    }

    /// Sets the external ID of the content owner on whose behalf the user acts.
    /// Where it is not set, the user acts for their own channel.
    pub fn on_behalf_of_content_owner(self, new_value: &str) -> (r: JobReportGetCall<'a>)
        ensures
            r@ == (JobReportGetCallView { on_behalf_of_content_owner: Some(new_value@), ..self@ }),
    {
        let mut call = self;
        call._on_behalf_of_content_owner = Some(new_value.to_owned());
        call
    }

    /// Gives an additional parameter of the query a value. A name that is given
    /// a second value keeps the last. A name that the call sets itself makes
    /// `doit` fail with a clash.
    pub fn param(self, name: &str, value: &str) -> (r: JobReportGetCall<'a>)
        ensures
            r@ == (JobReportGetCallView {
                additional_params: inserted(self@.additional_params, name@, value@),
                ..self@
            }),
    {
        let mut call = self;
        call._additional_params = call._additional_params.insert(name, value);
        call
    }

    /// Adds a scope to those for which a token is asked; `None` adds nothing. A
    /// call that was given no scope asks for
    /// `Scope::YtAnalyticMonetaryReadonly`.
    pub fn add_scope(self, scope: Option<&str>) -> (r: JobReportGetCall<'a>)
        ensures
            r@ == (JobReportGetCallView {
                scopes: match scope {
                    Some(s) => with_scope(self@.scopes, s@),
                    None => self@.scopes,
                },
                ..self@
            }),
    {
        let mut call = self;
        match scope {
            Some(s) => {
                call._scopes = call._scopes.insert(s);
            },
            None => {},
        }
        call
    }
}

/// Lists the reports that a job created: the method `reports.list` of a job.
/// The server answers `NOT_FOUND` where the job does not exist.
pub struct JobReportListCall<'a> {
    hub: &'a YouTubeReporting,
    _job_id: String,
    _start_time_before: Option<String>,
    _start_time_at_or_after: Option<String>,
    _page_token: Option<String>,
    _page_size: Option<i32>,
    _on_behalf_of_content_owner: Option<String>,
    _created_after: Option<String>,
    _additional_params: Params,
    _scopes: ScopeSet,
}

/// The model of a `JobReportListCall`.
pub struct JobReportListCallView {
    pub hub: HubView,
    pub job_id: Seq<char>,
    pub start_time_before: Option<Seq<char>>,
    pub start_time_at_or_after: Option<Seq<char>>,
    pub page_token: Option<Seq<char>>,
    pub page_size: Option<i32>,
    pub on_behalf_of_content_owner: Option<Seq<char>>,
    pub created_after: Option<Seq<char>>,
    pub additional_params: Pairs,
    pub scopes: Seq<Seq<char>>,
}

impl<'a> View for JobReportListCall<'a> {
    type V = JobReportListCallView;

    closed spec fn view(&self) -> JobReportListCallView {
        JobReportListCallView {
            hub: self.hub@,
            job_id: self._job_id@,
            start_time_before: option_text(self._start_time_before),
            start_time_at_or_after: option_text(self._start_time_at_or_after),
            page_token: option_text(self._page_token),
            page_size: self._page_size,
            on_behalf_of_content_owner: option_text(self._on_behalf_of_content_owner),
            created_after: option_text(self._created_after),
            additional_params: self._additional_params@,
            scopes: self._scopes@,
        }
    }
}

impl<'a> JobReportListCall<'a> {
    /// What is fixed for the method.
    pub open spec fn route() -> RouteView {
        RouteView {
            id: "youtubereporting.jobs.reports.list"@,
            method: Method::Get,
            path: "v1/jobs/{jobId}/reports"@,
            reserved: seq![
                "alt"@, "jobId"@, "startTimeBefore"@, "startTimeAtOrAfter"@, "pageToken"@,
                "pageSize"@, "onBehalfOfContentOwner"@, "createdAfter"@,
            ],
            markers: seq![("{jobId}"@, "jobId"@)],
            dropped: seq!["jobId"@],
            serves_media: false,
        }
    }

    /// The values that go into the path, under the names of their markers.
    pub open spec fn path_values(v: JobReportListCallView) -> Pairs {
        seq![("jobId"@, v.job_id)]
    }

    /// The parameters of the query that were set, in the order of the method.
    pub open spec fn settings(v: JobReportListCallView) -> Pairs {
        maybe("startTimeBefore"@, v.start_time_before)
            + maybe("startTimeAtOrAfter"@, v.start_time_at_or_after)
            + maybe("pageToken"@, v.page_token)
            + maybe("pageSize"@, option_int_text(v.page_size))
            + maybe("onBehalfOfContentOwner"@, v.on_behalf_of_content_owner)
            + maybe("createdAfter"@, v.created_after)
    }

    /// The address of the request: the base URL and the path, with its marker
    /// replaced by its value.
    pub open spec fn address(v: JobReportListCallView) -> Seq<char> {
        replaced(v.hub.base_url + Self::route().path, "{jobId}"@, v.job_id)
    }

    /// The query of the request: the parameters that were set, the additional
    /// parameters, and `alt=json`.
    pub open spec fn query(v: JobReportListCallView) -> Pairs {
        Self::settings(v) + v.additional_params + one("alt"@, "json"@)
    }

    /// Calls to mind what holds of every builder: the additional parameters
    /// have distinct names, and the scopes ascend.
    pub fn well_formed(&self)
        ensures
            distinct_names(self@.additional_params),
            ascending(self@.scopes),
    {
        self._additional_params.well_formed();
        self._scopes.well_formed();
    }

    /// What a delegate is told when the call begins.
    pub fn method_info(&self) -> (r: MethodInfo)
        ensures
            r.id@ == Self::route().id,
            r.http_method == Self::route().method,
    {
        MethodInfo { id: "youtubereporting.jobs.reports.list", http_method: Method::Get }
    }

    /// Prepares the request that was built so far and opens the exchange that
    /// carries it out. Fails with a clash where an additional parameter has a
    /// name that the call sets itself: the first such name in the order of
    /// `route().reserved`. Fails with `UrlTooLong` where address and query are
    /// longer than a URL may be, and with `InvalidUrl` where they make no
    /// absolute URL.
    pub fn doit(self) -> (r: Result<Exchange, Error>)
        ensures
            begun(
                r,
                Self::route().reserved,
                self@.additional_params,
                Self::route().method,
                Self::address(self@),
                Self::query(self@),
                true,
                self@.hub.user_agent,
                self@.scopes,
                Scope::YtAnalyticMonetaryReadonly.text(),
                None,
            ),
            distinct_names(self@.additional_params),
            ascending(self@.scopes),
    {
        self.well_formed();
        let route = Route {
            id: "youtubereporting.jobs.reports.list",
            method: Method::Get,
            path: "v1/jobs/{jobId}/reports",
            reserved: vec![
                "alt", "jobId", "startTimeBefore", "startTimeAtOrAfter", "pageToken", "pageSize",
                "onBehalfOfContentOwner", "createdAfter",
            ],
            markers: vec![("{jobId}", "jobId")],
            dropped: vec!["jobId"],
            serves_media: false,
        };
        assert(route@.reserved =~= Self::route().reserved);
        assert(route@.markers =~= Self::route().markers);
        assert(route@.dropped =~= Self::route().dropped);
        let mut named: Vec<(String, String)> = Vec::new();
        push_one(&mut named, "jobId", self._job_id);
        assert(pairs_text(named@) =~= Self::path_values(self@));
        let mut settings: Vec<(String, String)> = Vec::new();
        push_some(&mut settings, "startTimeBefore", self._start_time_before);
        push_some(&mut settings, "startTimeAtOrAfter", self._start_time_at_or_after);
        push_some(&mut settings, "pageToken", self._page_token);
        push_some(&mut settings, "pageSize", option_i32_text(self._page_size));
        push_some(&mut settings, "onBehalfOfContentOwner", self._on_behalf_of_content_owner);
        push_some(&mut settings, "createdAfter", self._created_after);
        assert(pairs_text(settings@) =~= Self::settings(self@));
        push_all(&mut named, settings);
        let r = start(
            &route,
            self.hub._base_url.as_str(),
            self.hub._user_agent.as_str(),
            named,
            &self._additional_params,
            self._scopes,
            Scope::YtAnalyticMonetaryReadonly.as_ref(),
            None,
        );
        proof {
            let v = self@;
            let heads = Self::path_values(v);
            let tail = Self::query(v);
            reveal_strlit("{jobId}");
            let params = all_params(heads + Self::settings(v), v.additional_params, false);
            assert(params =~= heads + tail);
            assert(distinct_names(heads));
            lemma_own_values_come_first(heads, tail, 0);
            reveal_with_fuel(expanded, 2);
            assert(expanded(v.hub.base_url + Self::route().path, params, Self::route().markers)
                == Self::address(v));
            assert(Self::route().dropped =~= names_of(heads).reverse());
            lemma_path_values_leave(heads, tail, Self::route().dropped);
        }
        r
    }

    /// Sets the ID of the job.
    pub fn job_id(self, new_value: &str) -> (r: JobReportListCall<'a>)
        ensures
            r@ == (JobReportListCallView { job_id: new_value@, ..self@ }),
    {
        let mut call = self;
        call._job_id = new_value.to_owned();
        call
    }

    /// Asks only for reports whose start time is before the given date and
    /// time.
    pub fn start_time_before(self, new_value: &str) -> (r: JobReportListCall<'a>)
        ensures
            r@ == (JobReportListCallView { start_time_before: Some(new_value@), ..self@ }),
    {
        let mut call = self;
        call._start_time_before = Some(new_value.to_owned());
        call
    }

    /// Asks only for reports whose start time is the given date and time or
    /// later.
    pub fn start_time_at_or_after(self, new_value: &str) -> (r: JobReportListCall<'a>)
        ensures
            r@ == (JobReportListCallView { start_time_at_or_after: Some(new_value@), ..self@ }),
    {
        let mut call = self;
        call._start_time_at_or_after = Some(new_value.to_owned());
        call
    }

    /// Sets the token of the page of results to return: as a rule the
    /// `next_page_token` of the answer to the call before.
    pub fn page_token(self, new_value: &str) -> (r: JobReportListCall<'a>)
        ensures
            r@ == (JobReportListCallView { page_token: Some(new_value@), ..self@ }),
    {
        let mut call = self;
        call._page_token = Some(new_value.to_owned());
        call
    }

    /// Sets the number of reports asked for in one page. The server may return
    /// fewer; where it is not set, the server picks a number.
    pub fn page_size(self, new_value: i32) -> (r: JobReportListCall<'a>)
        ensures
            r@ == (JobReportListCallView { page_size: Some(new_value), ..self@ }),
    {
        let mut call = self;
        call._page_size = Some(new_value);
        call
    }

    /// Sets the external ID of the content owner on whose behalf the user acts.
    /// Where it is not set, the user acts for their own channel.
    pub fn on_behalf_of_content_owner(self, new_value: &str) -> (r: JobReportListCall<'a>)
        ensures
            r@ == (JobReportListCallView { on_behalf_of_content_owner: Some(new_value@), ..self@ }),
    {
        let mut call = self;
        call._on_behalf_of_content_owner = Some(new_value.to_owned());
        call
    }

    /// Asks only for reports created after the given date and time.
    pub fn created_after(self, new_value: &str) -> (r: JobReportListCall<'a>)
        ensures
            r@ == (JobReportListCallView { created_after: Some(new_value@), ..self@ }),
    {
        let mut call = self;
        call._created_after = Some(new_value.to_owned());
        call
    }

    /// Gives an additional parameter of the query a value. A name that is given
    /// a second value keeps the last. A name that the call sets itself makes
    /// `doit` fail with a clash.
    pub fn param(self, name: &str, value: &str) -> (r: JobReportListCall<'a>)
        ensures
            r@ == (JobReportListCallView {
                additional_params: inserted(self@.additional_params, name@, value@),
                ..self@
            }),
    {
        let mut call = self;
        call._additional_params = call._additional_params.insert(name, value);
        call
    }

    /// Adds a scope to those for which a token is asked; `None` adds nothing. A
    /// call that was given no scope asks for
    /// `Scope::YtAnalyticMonetaryReadonly`.
    pub fn add_scope(self, scope: Option<&str>) -> (r: JobReportListCall<'a>)
        ensures
            r@ == (JobReportListCallView {
                scopes: match scope {
                    Some(s) => with_scope(self@.scopes, s@),
                    None => self@.scopes,
                },
                ..self@
            }),
    {
        let mut call = self;
        match scope {
            Some(s) => {
                call._scopes = call._scopes.insert(s);
            },
            None => {},
        }
        call
    }
}

/// Creates a job and returns it: the method `create` of a job.
pub struct JobCreateCall<'a> {
    hub: &'a YouTubeReporting,
    _request: Job,
    _on_behalf_of_content_owner: Option<String>,
    _additional_params: Params,
    _scopes: ScopeSet,
}

/// The model of a `JobCreateCall`.
pub struct JobCreateCallView {
    pub hub: HubView,
    pub request: Job,
    pub on_behalf_of_content_owner: Option<Seq<char>>,
    pub additional_params: Pairs,
    pub scopes: Seq<Seq<char>>,
}

impl<'a> View for JobCreateCall<'a> {
    type V = JobCreateCallView;

    closed spec fn view(&self) -> JobCreateCallView {
        JobCreateCallView {
            hub: self.hub@,
            request: self._request,
            on_behalf_of_content_owner: option_text(self._on_behalf_of_content_owner),
            additional_params: self._additional_params@,
            scopes: self._scopes@,
        }
    }
}

impl<'a> JobCreateCall<'a> {
    /// What is fixed for the method.
    pub open spec fn route() -> RouteView {
        RouteView {
            id: "youtubereporting.jobs.create"@,
            method: Method::Post,
            path: "v1/jobs"@,
            reserved: seq!["alt"@, "onBehalfOfContentOwner"@],
            markers: seq![],
            dropped: seq![],
            serves_media: false,
        }
    }

    /// The parameters of the query that were set, in the order of the method.
    pub open spec fn settings(v: JobCreateCallView) -> Pairs {
        maybe("onBehalfOfContentOwner"@, v.on_behalf_of_content_owner)
    }

    /// The address of the request: the base URL and the path.
    pub open spec fn address(v: JobCreateCallView) -> Seq<char> {
        v.hub.base_url + Self::route().path
    }

    /// The query of the request: the parameters that were set, the additional
    /// parameters, and `alt=json`.
    pub open spec fn query(v: JobCreateCallView) -> Pairs {
        Self::settings(v) + v.additional_params + one("alt"@, "json"@)
    }

    /// Calls to mind what holds of every builder: the additional parameters
    /// have distinct names, and the scopes ascend.
    pub fn well_formed(&self)
        ensures
            distinct_names(self@.additional_params),
            ascending(self@.scopes),
    {
        self._additional_params.well_formed();
        self._scopes.well_formed();
    }

    /// What a delegate is told when the call begins.
    pub fn method_info(&self) -> (r: MethodInfo)
        ensures
            r.id@ == Self::route().id,
            r.http_method == Self::route().method,
    {
        MethodInfo { id: "youtubereporting.jobs.create", http_method: Method::Post }
    }

    /// Prepares the request that was built so far, with `body` as the JSON text
    /// of the request value, and opens the exchange that carries it out. Fails
    /// with a clash where an additional parameter has a name that the call sets
    /// itself: the first such name in the order of `route().reserved`. Fails
    /// with `UrlTooLong` where address and query are longer than a URL may be,
    /// and with `InvalidUrl` where they make no absolute URL.
    pub fn doit(self, body: Vec<u8>) -> (r: Result<Exchange, Error>)
        ensures
            begun(
                r,
                Self::route().reserved,
                self@.additional_params,
                Self::route().method,
                Self::address(self@),
                Self::query(self@),
                true,
                self@.hub.user_agent,
                self@.scopes,
                Scope::YtAnalyticMonetaryReadonly.text(),
                Some(body@),
            ),
            distinct_names(self@.additional_params),
            ascending(self@.scopes),
    {
        self.well_formed();
        let route = Route {
            id: "youtubereporting.jobs.create",
            method: Method::Post,
            path: "v1/jobs",
            reserved: vec!["alt", "onBehalfOfContentOwner"],
            markers: Vec::new(),
            dropped: Vec::new(),
            serves_media: false,
        };
        assert(route@.reserved =~= Self::route().reserved);
        assert(route@.markers =~= Self::route().markers);
        assert(route@.dropped =~= Self::route().dropped);
        let mut named: Vec<(String, String)> = Vec::new();
        push_some(&mut named, "onBehalfOfContentOwner", self._on_behalf_of_content_owner);
        assert(pairs_text(named@) =~= Self::settings(self@));
        let r = start(
            &route,
            self.hub._base_url.as_str(),
            self.hub._user_agent.as_str(),
            named,
            &self._additional_params,
            self._scopes,
            Scope::YtAnalyticMonetaryReadonly.as_ref(),
            Some(body),
        );
        proof {
            let v = self@;
            let params = all_params(Self::settings(v), v.additional_params, false);
            assert(params =~= Self::query(v));
        }
        r
    }

    /// Sets the request value.
    pub fn request(self, new_value: Job) -> (r: JobCreateCall<'a>)
        ensures
            r@ == (JobCreateCallView { request: new_value, ..self@ }),
    {
        let mut call = self;
        call._request = new_value;
        call
    }

    /// The request value, whose JSON text is the body of the request.
    pub fn request_value(&self) -> (r: &Job)
        ensures
            *r == self@.request,
    {
        &self._request
    }

    /// Sets the external ID of the content owner on whose behalf the user acts.
    /// Where it is not set, the user acts for their own channel.
    pub fn on_behalf_of_content_owner(self, new_value: &str) -> (r: JobCreateCall<'a>)
        ensures
            r@ == (JobCreateCallView { on_behalf_of_content_owner: Some(new_value@), ..self@ }),
    {
        let mut call = self;
        call._on_behalf_of_content_owner = Some(new_value.to_owned());
        call
    }

    /// Gives an additional parameter of the query a value. A name that is given
    /// a second value keeps the last. A name that the call sets itself makes
    /// `doit` fail with a clash.
    pub fn param(self, name: &str, value: &str) -> (r: JobCreateCall<'a>)
        ensures
            r@ == (JobCreateCallView {
                additional_params: inserted(self@.additional_params, name@, value@),
                ..self@
            }),
    {
        let mut call = self;
        call._additional_params = call._additional_params.insert(name, value);
        call
    }

    /// Adds a scope to those for which a token is asked; `None` adds nothing. A
    /// call that was given no scope asks for
    /// `Scope::YtAnalyticMonetaryReadonly`.
    pub fn add_scope(self, scope: Option<&str>) -> (r: JobCreateCall<'a>)
        ensures
            r@ == (JobCreateCallView {
                scopes: match scope {
                    Some(s) => with_scope(self@.scopes, s@),
                    None => self@.scopes,
                },
                ..self@
            }),
    {
        let mut call = self;
        match scope {
            Some(s) => {
                call._scopes = call._scopes.insert(s);
            },
            None => {},
        }
        call
    }
}

/// Deletes a job: the method `delete` of a job.
pub struct JobDeleteCall<'a> {
    hub: &'a YouTubeReporting,
    _job_id: String,
    _on_behalf_of_content_owner: Option<String>,
    _additional_params: Params,
    _scopes: ScopeSet,
}

/// The model of a `JobDeleteCall`.
pub struct JobDeleteCallView {
    pub hub: HubView,
    pub job_id: Seq<char>,
    pub on_behalf_of_content_owner: Option<Seq<char>>,
    pub additional_params: Pairs,
    pub scopes: Seq<Seq<char>>,
}

impl<'a> View for JobDeleteCall<'a> {
    type V = JobDeleteCallView;

    closed spec fn view(&self) -> JobDeleteCallView {
        JobDeleteCallView {
            hub: self.hub@,
            job_id: self._job_id@,
            on_behalf_of_content_owner: option_text(self._on_behalf_of_content_owner),
            additional_params: self._additional_params@,
            scopes: self._scopes@,
        }
    }
}

impl<'a> JobDeleteCall<'a> {
    /// What is fixed for the method.
    pub open spec fn route() -> RouteView {
        RouteView {
            id: "youtubereporting.jobs.delete"@,
            method: Method::Delete,
            path: "v1/jobs/{jobId}"@,
            reserved: seq!["alt"@, "jobId"@, "onBehalfOfContentOwner"@],
            markers: seq![("{jobId}"@, "jobId"@)],
            dropped: seq!["jobId"@],
            serves_media: false,
        }
    }

    /// The values that go into the path, under the names of their markers.
    pub open spec fn path_values(v: JobDeleteCallView) -> Pairs {
        seq![("jobId"@, v.job_id)]
    }

    /// The parameters of the query that were set, in the order of the method.
    pub open spec fn settings(v: JobDeleteCallView) -> Pairs {
        maybe("onBehalfOfContentOwner"@, v.on_behalf_of_content_owner)
    }

    /// The address of the request: the base URL and the path, with its marker
    /// replaced by its value.
    pub open spec fn address(v: JobDeleteCallView) -> Seq<char> {
        replaced(v.hub.base_url + Self::route().path, "{jobId}"@, v.job_id)
    }

    /// The query of the request: the parameters that were set, the additional
    /// parameters, and `alt=json`.
    pub open spec fn query(v: JobDeleteCallView) -> Pairs {
        Self::settings(v) + v.additional_params + one("alt"@, "json"@)
    }

    /// Calls to mind what holds of every builder: the additional parameters
    /// have distinct names, and the scopes ascend.
    pub fn well_formed(&self)
        ensures
            distinct_names(self@.additional_params),
            ascending(self@.scopes),
    {
        self._additional_params.well_formed();
        self._scopes.well_formed();
    }

    /// What a delegate is told when the call begins.
    pub fn method_info(&self) -> (r: MethodInfo)
        ensures
            r.id@ == Self::route().id,
            r.http_method == Self::route().method,
    {
        MethodInfo { id: "youtubereporting.jobs.delete", http_method: Method::Delete }
    }

    /// Prepares the request that was built so far and opens the exchange that
    /// carries it out. Fails with a clash where an additional parameter has a
    /// name that the call sets itself: the first such name in the order of
    /// `route().reserved`. Fails with `UrlTooLong` where address and query are
    /// longer than a URL may be, and with `InvalidUrl` where they make no
    /// absolute URL.
    pub fn doit(self) -> (r: Result<Exchange, Error>)
        ensures
            begun(
                r,
                Self::route().reserved,
                self@.additional_params,
                Self::route().method,
                Self::address(self@),
                Self::query(self@),
                true,
                self@.hub.user_agent,
                self@.scopes,
                Scope::YtAnalyticMonetaryReadonly.text(),
                None,
            ),
            distinct_names(self@.additional_params),
            ascending(self@.scopes),
    {
        self.well_formed();
        let route = Route {
            id: "youtubereporting.jobs.delete",
            method: Method::Delete,
            path: "v1/jobs/{jobId}",
            reserved: vec!["alt", "jobId", "onBehalfOfContentOwner"],
            markers: vec![("{jobId}", "jobId")],
            dropped: vec!["jobId"],
            serves_media: false,
        };
        assert(route@.reserved =~= Self::route().reserved);
        assert(route@.markers =~= Self::route().markers);
        assert(route@.dropped =~= Self::route().dropped);
        let mut named: Vec<(String, String)> = Vec::new();
        push_one(&mut named, "jobId", self._job_id);
        assert(pairs_text(named@) =~= Self::path_values(self@));
        let mut settings: Vec<(String, String)> = Vec::new();
        push_some(&mut settings, "onBehalfOfContentOwner", self._on_behalf_of_content_owner);
        assert(pairs_text(settings@) =~= Self::settings(self@));
        push_all(&mut named, settings);
        let r = start(
            &route,
            self.hub._base_url.as_str(),
            self.hub._user_agent.as_str(),
            named,
            &self._additional_params,
            self._scopes,
            Scope::YtAnalyticMonetaryReadonly.as_ref(),
            None,
        );
        proof {
            let v = self@;
            let heads = Self::path_values(v);
            let tail = Self::query(v);
            reveal_strlit("{jobId}");
            let params = all_params(heads + Self::settings(v), v.additional_params, false);
            assert(params =~= heads + tail);
            assert(distinct_names(heads));
            lemma_own_values_come_first(heads, tail, 0);
            reveal_with_fuel(expanded, 2);
            assert(expanded(v.hub.base_url + Self::route().path, params, Self::route().markers)
                == Self::address(v));
            assert(Self::route().dropped =~= names_of(heads).reverse());
            lemma_path_values_leave(heads, tail, Self::route().dropped);
        }
        r
    }

    /// Sets the ID of the job to delete.
    pub fn job_id(self, new_value: &str) -> (r: JobDeleteCall<'a>)
        ensures
            r@ == (JobDeleteCallView { job_id: new_value@, ..self@ }),
    {
        let mut call = self;
        call._job_id = new_value.to_owned();
        call
    }

    /// Sets the external ID of the content owner on whose behalf the user acts.
    /// Where it is not set, the user acts for their own channel.
    pub fn on_behalf_of_content_owner(self, new_value: &str) -> (r: JobDeleteCall<'a>)
        ensures
            r@ == (JobDeleteCallView { on_behalf_of_content_owner: Some(new_value@), ..self@ }),
    {
        let mut call = self;
        call._on_behalf_of_content_owner = Some(new_value.to_owned());
        call
    }

    /// Gives an additional parameter of the query a value. A name that is given
    /// a second value keeps the last. A name that the call sets itself makes
    /// `doit` fail with a clash.
    pub fn param(self, name: &str, value: &str) -> (r: JobDeleteCall<'a>)
        ensures
            r@ == (JobDeleteCallView {
                additional_params: inserted(self@.additional_params, name@, value@),
                ..self@
            }),
    {
        let mut call = self;
        call._additional_params = call._additional_params.insert(name, value);
        call
    }

    /// Adds a scope to those for which a token is asked; `None` adds nothing. A
    /// call that was given no scope asks for
    /// `Scope::YtAnalyticMonetaryReadonly`.
    pub fn add_scope(self, scope: Option<&str>) -> (r: JobDeleteCall<'a>)
        ensures
            r@ == (JobDeleteCallView {
                scopes: match scope {
                    Some(s) => with_scope(self@.scopes, s@),
                    None => self@.scopes,
                },
                ..self@
            }),
    {
        let mut call = self;
        match scope {
            Some(s) => {
                call._scopes = call._scopes.insert(s);
            },
            None => {},
        }
        call
    }
}

/// Gets a job: the method `get` of a job.
pub struct JobGetCall<'a> {
    hub: &'a YouTubeReporting,
    _job_id: String,
    _on_behalf_of_content_owner: Option<String>,
    _additional_params: Params,
    _scopes: ScopeSet,
}

/// The model of a `JobGetCall`.
pub struct JobGetCallView {
    pub hub: HubView,
    pub job_id: Seq<char>,
    pub on_behalf_of_content_owner: Option<Seq<char>>,
    pub additional_params: Pairs,
    pub scopes: Seq<Seq<char>>,
}

impl<'a> View for JobGetCall<'a> {
    type V = JobGetCallView;

    closed spec fn view(&self) -> JobGetCallView {
        JobGetCallView {
            hub: self.hub@,
            job_id: self._job_id@,
            on_behalf_of_content_owner: option_text(self._on_behalf_of_content_owner),
            additional_params: self._additional_params@,
            scopes: self._scopes@,
        }
    }
}

impl<'a> JobGetCall<'a> {
    /// What is fixed for the method.
    pub open spec fn route() -> RouteView {
        RouteView {
            id: "youtubereporting.jobs.get"@,
            method: Method::Get,
            path: "v1/jobs/{jobId}"@,
            reserved: seq!["alt"@, "jobId"@, "onBehalfOfContentOwner"@],
            markers: seq![("{jobId}"@, "jobId"@)],
            dropped: seq!["jobId"@],
            serves_media: false,
        }
    }

    /// The values that go into the path, under the names of their markers.
    pub open spec fn path_values(v: JobGetCallView) -> Pairs {
        seq![("jobId"@, v.job_id)]
    }

    /// The parameters of the query that were set, in the order of the method.
    pub open spec fn settings(v: JobGetCallView) -> Pairs {
        maybe("onBehalfOfContentOwner"@, v.on_behalf_of_content_owner)
    }

    /// The address of the request: the base URL and the path, with its marker
    /// replaced by its value.
    pub open spec fn address(v: JobGetCallView) -> Seq<char> {
        replaced(v.hub.base_url + Self::route().path, "{jobId}"@, v.job_id)
    }

    /// The query of the request: the parameters that were set, the additional
    /// parameters, and `alt=json`.
    pub open spec fn query(v: JobGetCallView) -> Pairs {
        Self::settings(v) + v.additional_params + one("alt"@, "json"@)
    }

    /// Calls to mind what holds of every builder: the additional parameters
    /// have distinct names, and the scopes ascend.
    pub fn well_formed(&self)
        ensures
            distinct_names(self@.additional_params),
            ascending(self@.scopes),
    {
        self._additional_params.well_formed();
        self._scopes.well_formed();
    }

    /// What a delegate is told when the call begins.
    pub fn method_info(&self) -> (r: MethodInfo)
        ensures
            r.id@ == Self::route().id,
            r.http_method == Self::route().method,
    {
        MethodInfo { id: "youtubereporting.jobs.get", http_method: Method::Get }
    }

    /// Prepares the request that was built so far and opens the exchange that
    /// carries it out. Fails with a clash where an additional parameter has a
    /// name that the call sets itself: the first such name in the order of
    /// `route().reserved`. Fails with `UrlTooLong` where address and query are
    /// longer than a URL may be, and with `InvalidUrl` where they make no
    /// absolute URL.
    pub fn doit(self) -> (r: Result<Exchange, Error>)
        ensures
            begun(
                r,
                Self::route().reserved,
                self@.additional_params,
                Self::route().method,
                Self::address(self@),
                Self::query(self@),
                true,
                self@.hub.user_agent,
                self@.scopes,
                Scope::YtAnalyticMonetaryReadonly.text(),
                None,
            ),
            distinct_names(self@.additional_params),
            ascending(self@.scopes),
    {
        self.well_formed();
        let route = Route {
            id: "youtubereporting.jobs.get",
            method: Method::Get,
            path: "v1/jobs/{jobId}",
            reserved: vec!["alt", "jobId", "onBehalfOfContentOwner"],
            markers: vec![("{jobId}", "jobId")],
            dropped: vec!["jobId"],
            serves_media: false,
        };
        assert(route@.reserved =~= Self::route().reserved);
        assert(route@.markers =~= Self::route().markers);
        assert(route@.dropped =~= Self::route().dropped);
        let mut named: Vec<(String, String)> = Vec::new();
        push_one(&mut named, "jobId", self._job_id);
        assert(pairs_text(named@) =~= Self::path_values(self@));
        let mut settings: Vec<(String, String)> = Vec::new();
        push_some(&mut settings, "onBehalfOfContentOwner", self._on_behalf_of_content_owner);
        assert(pairs_text(settings@) =~= Self::settings(self@));
        push_all(&mut named, settings);
        let r = start(
            &route,
            self.hub._base_url.as_str(),
            self.hub._user_agent.as_str(),
            named,
            &self._additional_params,
            self._scopes,
            Scope::YtAnalyticMonetaryReadonly.as_ref(),
            None,
        );
        proof {
            let v = self@;
            let heads = Self::path_values(v);
            let tail = Self::query(v);
            reveal_strlit("{jobId}");
            let params = all_params(heads + Self::settings(v), v.additional_params, false);
            assert(params =~= heads + tail);
            assert(distinct_names(heads));
            lemma_own_values_come_first(heads, tail, 0);
            reveal_with_fuel(expanded, 2);
            assert(expanded(v.hub.base_url + Self::route().path, params, Self::route().markers)
                == Self::address(v));
            assert(Self::route().dropped =~= names_of(heads).reverse());
            lemma_path_values_leave(heads, tail, Self::route().dropped);
        }
        r
    }

    /// Sets the ID of the job to retrieve.
    pub fn job_id(self, new_value: &str) -> (r: JobGetCall<'a>)
        ensures
            r@ == (JobGetCallView { job_id: new_value@, ..self@ }),
    {
        let mut call = self;
        call._job_id = new_value.to_owned();
        call
    }

    /// Sets the external ID of the content owner on whose behalf the user acts.
    /// Where it is not set, the user acts for their own channel.
    pub fn on_behalf_of_content_owner(self, new_value: &str) -> (r: JobGetCall<'a>)
        ensures
            r@ == (JobGetCallView { on_behalf_of_content_owner: Some(new_value@), ..self@ }),
    {
        let mut call = self;
        call._on_behalf_of_content_owner = Some(new_value.to_owned());
        call
    }

    /// Gives an additional parameter of the query a value. A name that is given
    /// a second value keeps the last. A name that the call sets itself makes
    /// `doit` fail with a clash.
    pub fn param(self, name: &str, value: &str) -> (r: JobGetCall<'a>)
        ensures
            r@ == (JobGetCallView {
                additional_params: inserted(self@.additional_params, name@, value@),
                ..self@
            }),
    {
        let mut call = self;
        call._additional_params = call._additional_params.insert(name, value);
        call
    }

    /// Adds a scope to those for which a token is asked; `None` adds nothing. A
    /// call that was given no scope asks for
    /// `Scope::YtAnalyticMonetaryReadonly`.
    pub fn add_scope(self, scope: Option<&str>) -> (r: JobGetCall<'a>)
        ensures
            r@ == (JobGetCallView {
                scopes: match scope {
                    Some(s) => with_scope(self@.scopes, s@),
                    None => self@.scopes,
                },
                ..self@
            }),
    {
        let mut call = self;
        match scope {
            Some(s) => {
                call._scopes = call._scopes.insert(s);
            },
            None => {},
        }
        call
    }
}

/// Lists jobs: the method `list` of a job.
pub struct JobListCall<'a> {
    hub: &'a YouTubeReporting,
    _page_token: Option<String>,
    _page_size: Option<i32>,
    _on_behalf_of_content_owner: Option<String>,
    _include_system_managed: Option<bool>,
    _additional_params: Params,
    _scopes: ScopeSet,
}

/// The model of a `JobListCall`.
pub struct JobListCallView {
    pub hub: HubView,
    pub page_token: Option<Seq<char>>,
    pub page_size: Option<i32>,
    pub on_behalf_of_content_owner: Option<Seq<char>>,
    pub include_system_managed: Option<bool>,
    pub additional_params: Pairs,
    pub scopes: Seq<Seq<char>>,
}

impl<'a> View for JobListCall<'a> {
    type V = JobListCallView;

    closed spec fn view(&self) -> JobListCallView {
        JobListCallView {
            hub: self.hub@,
            page_token: option_text(self._page_token),
            page_size: self._page_size,
            on_behalf_of_content_owner: option_text(self._on_behalf_of_content_owner),
            include_system_managed: self._include_system_managed,
            additional_params: self._additional_params@,
            scopes: self._scopes@,
        }
    }
}

impl<'a> JobListCall<'a> {
    /// What is fixed for the method.
    pub open spec fn route() -> RouteView {
        RouteView {
            id: "youtubereporting.jobs.list"@,
            method: Method::Get,
            path: "v1/jobs"@,
            reserved: seq![
                "alt"@, "pageToken"@, "pageSize"@, "onBehalfOfContentOwner"@,
                "includeSystemManaged"@,
            ],
            markers: seq![],
            dropped: seq![],
            serves_media: false,
        }
    }

    /// The parameters of the query that were set, in the order of the method.
    pub open spec fn settings(v: JobListCallView) -> Pairs {
        maybe("pageToken"@, v.page_token)
            + maybe("pageSize"@, option_int_text(v.page_size))
            + maybe("onBehalfOfContentOwner"@, v.on_behalf_of_content_owner)
            + maybe("includeSystemManaged"@, option_bool_text(v.include_system_managed))
    }

    /// The address of the request: the base URL and the path.
    pub open spec fn address(v: JobListCallView) -> Seq<char> {
        v.hub.base_url + Self::route().path
    }

    /// The query of the request: the parameters that were set, the additional
    /// parameters, and `alt=json`.
    pub open spec fn query(v: JobListCallView) -> Pairs {
        Self::settings(v) + v.additional_params + one("alt"@, "json"@)
    }

    /// Calls to mind what holds of every builder: the additional parameters
    /// have distinct names, and the scopes ascend.
    pub fn well_formed(&self)
        ensures
            distinct_names(self@.additional_params),
            ascending(self@.scopes),
    {
        self._additional_params.well_formed();
        self._scopes.well_formed();
    }

    /// What a delegate is told when the call begins.
    pub fn method_info(&self) -> (r: MethodInfo)
        ensures
            r.id@ == Self::route().id,
            r.http_method == Self::route().method,
    {
        MethodInfo { id: "youtubereporting.jobs.list", http_method: Method::Get }
    }

    /// Prepares the request that was built so far and opens the exchange that
    /// carries it out. Fails with a clash where an additional parameter has a
    /// name that the call sets itself: the first such name in the order of
    /// `route().reserved`. Fails with `UrlTooLong` where address and query are
    /// longer than a URL may be, and with `InvalidUrl` where they make no
    /// absolute URL.
    pub fn doit(self) -> (r: Result<Exchange, Error>)
        ensures
            begun(
                r,
                Self::route().reserved,
                self@.additional_params,
                Self::route().method,
                Self::address(self@),
                Self::query(self@),
                true,
                self@.hub.user_agent,
                self@.scopes,
                Scope::YtAnalyticMonetaryReadonly.text(),
                None,
            ),
            distinct_names(self@.additional_params),
            ascending(self@.scopes),
    {
        self.well_formed();
        let route = Route {
            id: "youtubereporting.jobs.list",
            method: Method::Get,
            path: "v1/jobs",
            reserved: vec![
                "alt", "pageToken", "pageSize", "onBehalfOfContentOwner", "includeSystemManaged",
            ],
            markers: Vec::new(),
            dropped: Vec::new(),
            serves_media: false,
        };
        assert(route@.reserved =~= Self::route().reserved);
        assert(route@.markers =~= Self::route().markers);
        assert(route@.dropped =~= Self::route().dropped);
        let mut named: Vec<(String, String)> = Vec::new();
        push_some(&mut named, "pageToken", self._page_token);
        push_some(&mut named, "pageSize", option_i32_text(self._page_size));
        push_some(&mut named, "onBehalfOfContentOwner", self._on_behalf_of_content_owner);
        push_some(
            &mut named,
            "includeSystemManaged",
            option_bool_string(self._include_system_managed),
        );
        assert(pairs_text(named@) =~= Self::settings(self@));
        let r = start(
            &route,
            self.hub._base_url.as_str(),
            self.hub._user_agent.as_str(),
            named,
            &self._additional_params,
            self._scopes,
            Scope::YtAnalyticMonetaryReadonly.as_ref(),
            None,
        );
        proof {
            let v = self@;
            let params = all_params(Self::settings(v), v.additional_params, false);
            assert(params =~= Self::query(v));
        }
        r
    }

    /// Sets the token of the page of results to return: as a rule the
    /// `next_page_token` of the answer to the call before.
    pub fn page_token(self, new_value: &str) -> (r: JobListCall<'a>)
        ensures
            r@ == (JobListCallView { page_token: Some(new_value@), ..self@ }),
    {
        let mut call = self;
        call._page_token = Some(new_value.to_owned());
        call
    }

    /// Sets the number of jobs asked for in one page. The server may return
    /// fewer; where it is not set, the server picks a number.
    pub fn page_size(self, new_value: i32) -> (r: JobListCall<'a>)
        ensures
            r@ == (JobListCallView { page_size: Some(new_value), ..self@ }),
    {
        let mut call = self;
        call._page_size = Some(new_value);
        call
    }

    /// Sets the external ID of the content owner on whose behalf the user acts.
    /// Where it is not set, the user acts for their own channel.
    pub fn on_behalf_of_content_owner(self, new_value: &str) -> (r: JobListCall<'a>)
        ensures
            r@ == (JobListCallView { on_behalf_of_content_owner: Some(new_value@), ..self@ }),
    {
        let mut call = self;
        call._on_behalf_of_content_owner = Some(new_value.to_owned());
        call
    }

    /// Says whether jobs that the system manages are listed beside those that
    /// users created. Such jobs can be neither changed nor deleted.
    pub fn include_system_managed(self, new_value: bool) -> (r: JobListCall<'a>)
        ensures
            r@ == (JobListCallView { include_system_managed: Some(new_value), ..self@ }),
    {
        let mut call = self;
        call._include_system_managed = Some(new_value);
        call
    }

    /// Gives an additional parameter of the query a value. A name that is given
    /// a second value keeps the last. A name that the call sets itself makes
    /// `doit` fail with a clash.
    pub fn param(self, name: &str, value: &str) -> (r: JobListCall<'a>)
        ensures
            r@ == (JobListCallView {
                additional_params: inserted(self@.additional_params, name@, value@),
                ..self@
            }),
    {
        let mut call = self;
        call._additional_params = call._additional_params.insert(name, value);
        call
    }

    /// Adds a scope to those for which a token is asked; `None` adds nothing. A
    /// call that was given no scope asks for
    /// `Scope::YtAnalyticMonetaryReadonly`.
    pub fn add_scope(self, scope: Option<&str>) -> (r: JobListCall<'a>)
        ensures
            r@ == (JobListCallView {
                scopes: match scope {
                    Some(s) => with_scope(self@.scopes, s@),
                    None => self@.scopes,
                },
                ..self@
            }),
    {
        let mut call = self;
        match scope {
            Some(s) => {
                call._scopes = call._scopes.insert(s);
            },
            None => {},
        }
        call
    }
}

} // verus!
