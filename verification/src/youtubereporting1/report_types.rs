//! The listing of the types of report.

use vstd::prelude::*;
use crate::client::{Error, HubView, Method, MethodInfo};
use crate::exchange::{begun, start, Exchange};
use crate::params::{
    distinct_names, inserted, maybe, one, option_text, pairs_text, push_some, Pairs, Params,
};
use crate::request::{all_params, Route, RouteView};
use crate::scopes::{ascending, with_scope, ScopeSet};
use crate::text::{option_bool_string, option_bool_text, option_i32_text, option_int_text};
use super::{Scope, YouTubeReporting};

verus! {

/// The builders of the methods on report types. A hub hands them out.
pub struct ReportTypeMethods<'a> {
    hub: &'a YouTubeReporting,
}

impl<'a> View for ReportTypeMethods<'a> {
    type V = HubView;

    closed spec fn view(&self) -> HubView {
        self.hub@
    }
}

impl<'a> ReportTypeMethods<'a> {
    pub(super) fn of(hub: &'a YouTubeReporting) -> (r: ReportTypeMethods<'a>)
        ensures
            r@ == hub@,
    {
        ReportTypeMethods { hub }
    }

    /// Builds the call that lists report types.
    pub fn list(&self) -> (r: ReportTypeListCall<'a>)
        ensures
            r@ == (ReportTypeListCallView {
                hub: self@,
                page_token: None,
                page_size: None,
                on_behalf_of_content_owner: None,
                include_system_managed: None,
                additional_params: Pairs::empty(),
                scopes: Seq::empty(),
            }),
    {
        ReportTypeListCall {
            hub: self.hub,
            _page_token: None,
            _page_size: None,
            _on_behalf_of_content_owner: None,
            _include_system_managed: None,
            _additional_params: Params::new(),
            _scopes: ScopeSet::new(),
        }
    }
}

/// Lists report types: the method `list` of a report type.
pub struct ReportTypeListCall<'a> {
    hub: &'a YouTubeReporting,
    _page_token: Option<String>,
    _page_size: Option<i32>,
    _on_behalf_of_content_owner: Option<String>,
    _include_system_managed: Option<bool>,
    _additional_params: Params,
    _scopes: ScopeSet,
}

/// The model of a `ReportTypeListCall`.
pub struct ReportTypeListCallView {
    pub hub: HubView,
    pub page_token: Option<Seq<char>>,
    pub page_size: Option<i32>,
    pub on_behalf_of_content_owner: Option<Seq<char>>,
    pub include_system_managed: Option<bool>,
    pub additional_params: Pairs,
    pub scopes: Seq<Seq<char>>,
}

impl<'a> View for ReportTypeListCall<'a> {
    type V = ReportTypeListCallView;

    closed spec fn view(&self) -> ReportTypeListCallView {
        ReportTypeListCallView {
            hub: self.hub@,
            page_token: option_text(self._page_token),
            page_size: self._page_size,
            on_behalf_of_content_owner: option_text(self._on_behalf_of_content_owner),
            include_system_managed: self._include_system_managed,
            additional_params: self._additional_params@,
            scopes: self._scopes@,
        }
    }
}

impl<'a> ReportTypeListCall<'a> {
    /// What is fixed for the method.
    pub open spec fn route() -> RouteView {
        RouteView {
            id: "youtubereporting.reportTypes.list"@,
            method: Method::Get,
            path: "v1/reportTypes"@,
            reserved: seq![
                "alt"@, "pageToken"@, "pageSize"@, "onBehalfOfContentOwner"@,
                "includeSystemManaged"@,
            ],
            markers: seq![],
            dropped: seq![],
            serves_media: false,
        }
    }

    /// The parameters of the query that were set, in the order of the method.
    pub open spec fn settings(v: ReportTypeListCallView) -> Pairs {
        maybe("pageToken"@, v.page_token)
            + maybe("pageSize"@, option_int_text(v.page_size))
            + maybe("onBehalfOfContentOwner"@, v.on_behalf_of_content_owner)
            + maybe("includeSystemManaged"@, option_bool_text(v.include_system_managed))
    }

    /// The address of the request: the base URL and the path.
    pub open spec fn address(v: ReportTypeListCallView) -> Seq<char> {
        v.hub.base_url + Self::route().path
    }

    /// The query of the request: the parameters that were set, the additional
    /// parameters, and `alt=json`.
    pub open spec fn query(v: ReportTypeListCallView) -> Pairs {
        Self::settings(v) + v.additional_params + one("alt"@, "json"@)
    }

    /// Calls to mind what holds of every builder: the additional parameters
    /// have distinct names, and the scopes ascend.
    pub fn well_formed(&self)
        ensures
            distinct_names(self@.additional_params),
            ascending(self@.scopes),
    {
        self._additional_params.well_formed();
        self._scopes.well_formed();
    }

    /// What a delegate is told when the call begins.
    pub fn method_info(&self) -> (r: MethodInfo)
        ensures
            r.id@ == Self::route().id,
            r.http_method == Self::route().method,
    {
        MethodInfo { id: "youtubereporting.reportTypes.list", http_method: Method::Get }
    }

    /// Prepares the request that was built so far and opens the exchange that
    /// carries it out. Fails with a clash where an additional parameter has a
    /// name that the call sets itself: the first such name in the order of
    /// `route().reserved`. Fails with `UrlTooLong` where address and query are
    /// longer than a URL may be, and with `InvalidUrl` where they make no
    /// absolute URL.
    pub fn doit(self) -> (r: Result<Exchange, Error>)
        ensures
            begun(
                r,
                Self::route().reserved,
                self@.additional_params,
                Self::route().method,
                Self::address(self@),
                Self::query(self@),
                true,
                self@.hub.user_agent,
                self@.scopes,
                Scope::YtAnalyticMonetaryReadonly.text(),
                None,
            ),
            distinct_names(self@.additional_params),
            ascending(self@.scopes),
    {
        self.well_formed();
        let route = Route {
            id: "youtubereporting.reportTypes.list",
            method: Method::Get,
            path: "v1/reportTypes",
            reserved: vec![
                "alt", "pageToken", "pageSize", "onBehalfOfContentOwner", "includeSystemManaged",
            ],
            markers: Vec::new(),
            dropped: Vec::new(),
            serves_media: false,
        };
        assert(route@.reserved =~= Self::route().reserved);
        assert(route@.markers =~= Self::route().markers);
        assert(route@.dropped =~= Self::route().dropped);
        let mut named: Vec<(String, String)> = Vec::new();
        push_some(&mut named, "pageToken", self._page_token);
        push_some(&mut named, "pageSize", option_i32_text(self._page_size));
        push_some(&mut named, "onBehalfOfContentOwner", self._on_behalf_of_content_owner);
        push_some(
            &mut named,
            "includeSystemManaged",
            option_bool_string(self._include_system_managed),
        );
        assert(pairs_text(named@) =~= Self::settings(self@));
        let r = start(
            &route,
            self.hub._base_url.as_str(),
            self.hub._user_agent.as_str(),
            named,
            &self._additional_params,
            self._scopes,
            Scope::YtAnalyticMonetaryReadonly.as_ref(),
            None,
        );
        proof {
            let v = self@;
            let params = all_params(Self::settings(v), v.additional_params, false);
            assert(params =~= Self::query(v));
        }
        r
    }

    /// Sets the token of the page of results to return: as a rule the
    /// `next_page_token` of the answer to the call before.
    pub fn page_token(self, new_value: &str) -> (r: ReportTypeListCall<'a>)
        ensures
            r@ == (ReportTypeListCallView { page_token: Some(new_value@), ..self@ }),
    {
        let mut call = self;
        call._page_token = Some(new_value.to_owned());
        call
    }

    /// Sets the number of report types asked for in one page. The server may
    /// return fewer; where it is not set, the server picks a number.
    pub fn page_size(self, new_value: i32) -> (r: ReportTypeListCall<'a>)
        ensures
            r@ == (ReportTypeListCallView { page_size: Some(new_value), ..self@ }),
    {
        let mut call = self;
        call._page_size = Some(new_value);
        call
    }

    /// Sets the external ID of the content owner on whose behalf the user acts.
    /// Where it is not set, the user acts for their own channel.
    pub fn on_behalf_of_content_owner(self, new_value: &str) -> (r: ReportTypeListCall<'a>)
        ensures
            r@ == (ReportTypeListCallView {
                on_behalf_of_content_owner: Some(new_value@),
                ..self@
            }),
    {
        let mut call = self;
        call._on_behalf_of_content_owner = Some(new_value.to_owned());
        call
    }

    /// Says whether report types that the system manages are listed beside
    /// those for which a job can be created.
    pub fn include_system_managed(self, new_value: bool) -> (r: ReportTypeListCall<'a>)
        ensures
            r@ == (ReportTypeListCallView { include_system_managed: Some(new_value), ..self@ }),
    {
        let mut call = self;
        call._include_system_managed = Some(new_value);
        call
    }

    /// Gives an additional parameter of the query a value. A name that is given
    /// a second value keeps the last. A name that the call sets itself makes
    /// `doit` fail with a clash.
    pub fn param(self, name: &str, value: &str) -> (r: ReportTypeListCall<'a>)
        ensures
            r@ == (ReportTypeListCallView {
                additional_params: inserted(self@.additional_params, name@, value@),
                ..self@
            }),
    {
        let mut call = self;
        call._additional_params = call._additional_params.insert(name, value);
        call
    }

    /// Adds a scope to those for which a token is asked; `None` adds nothing. A
    /// call that was given no scope asks for
    /// `Scope::YtAnalyticMonetaryReadonly`.
    pub fn add_scope(self, scope: Option<&str>) -> (r: ReportTypeListCall<'a>)
        ensures
            r@ == (ReportTypeListCallView {
                scopes: match scope {
                    Some(s) => with_scope(self@.scopes, s@),
                    None => self@.scopes,
                },
                ..self@
            }),
    {
        let mut call = self;
        match scope {
            Some(s) => {
                call._scopes = call._scopes.insert(s);
            },
            None => {},
        }
        call
    }
}

} // verus!
