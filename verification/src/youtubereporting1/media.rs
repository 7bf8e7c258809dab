//! The download of report media.

use vstd::prelude::*;
use vstd::utf8::encode_utf8;
use crate::client::{Error, HubView, Method, MethodInfo};
use crate::exchange::{begun, start, Exchange};
use crate::params::{
    distinct_names, has_name, inserted, one, pairs_text, push_one, value_of, Pairs, Params,
};
use crate::request::{
    all_params, expanded, lemma_other_names_come_behind, lemma_own_values_come_first,
    lemma_path_values_leave, names_of, Route, RouteView,
};
use crate::scopes::{ascending, with_scope, ScopeSet};
use crate::text::replaced;
use crate::web::percent_encoded;
use super::{Scope, YouTubeReporting};

verus! {

/// The builders of the methods on media. A hub hands them out.
pub struct MediaMethods<'a> {
    hub: &'a YouTubeReporting,
}

impl<'a> View for MediaMethods<'a> {
    type V = HubView;

    closed spec fn view(&self) -> HubView {
        self.hub@
    }
}

impl<'a> MediaMethods<'a> {
    pub(super) fn of(hub: &'a YouTubeReporting) -> (r: MediaMethods<'a>)
        ensures
            r@ == hub@,
    {
        MediaMethods { hub }
    }

    /// Builds the call that downloads media.
    ///
    /// * `resource_name` - the name of the media to download.
    pub fn download(&self, resource_name: &str) -> (r: MediaDownloadCall<'a>)
        ensures
            r@ == (MediaDownloadCallView {
                hub: self@,
                resource_name: resource_name@,
                additional_params: Pairs::empty(),
                scopes: Seq::empty(),
            }),
    {
        MediaDownloadCall {
            hub: self.hub,
            _resource_name: resource_name.to_owned(),
            _additional_params: Params::new(),
            _scopes: ScopeSet::new(),
        }
    }
}

/// Downloads media: the method `download` of media. With the additional
/// parameter `alt=media` the answer holds the data itself, and its body is not
/// decoded.
pub struct MediaDownloadCall<'a> {
    hub: &'a YouTubeReporting,
    _resource_name: String,
    _additional_params: Params,
    _scopes: ScopeSet,
}

/// The model of a `MediaDownloadCall`.
pub struct MediaDownloadCallView {
    pub hub: HubView,
    pub resource_name: Seq<char>,
    pub additional_params: Pairs,
    pub scopes: Seq<Seq<char>>,
}

impl<'a> View for MediaDownloadCall<'a> {
    type V = MediaDownloadCallView;

    closed spec fn view(&self) -> MediaDownloadCallView {
        MediaDownloadCallView {
            hub: self.hub@,
            resource_name: self._resource_name@,
            additional_params: self._additional_params@,
            scopes: self._scopes@,
        }
    }
}

impl<'a> MediaDownloadCall<'a> {
    /// What is fixed for the method.
    pub open spec fn route() -> RouteView {
        RouteView {
            id: "youtubereporting.media.download"@,
            method: Method::Get,
            path: "v1/media/{+resourceName}"@,
            reserved: seq!["resourceName"@],
            markers: seq![("{+resourceName}"@, "resourceName"@)],
            dropped: seq!["resourceName"@],
            serves_media: true,
        }
    }

    /// The values that go into the path, under the names of their markers.
    pub open spec fn path_values(v: MediaDownloadCallView) -> Pairs {
        seq![("resourceName"@, v.resource_name)]
    }

    /// The address of the request: the base URL and the path, with its marker
    /// replaced by its value, escaped.
    pub open spec fn address(v: MediaDownloadCallView) -> Seq<char> {
        replaced(
            v.hub.base_url + Self::route().path,
            "{+resourceName}"@,
            percent_encoded(encode_utf8(v.resource_name)),
        )
    }

    /// The query of the request: the additional parameters, and `alt=json`
    /// behind them unless `alt` is one of them.
    pub open spec fn query(v: MediaDownloadCallView) -> Pairs {
        if has_name(v.additional_params, "alt"@) {
            v.additional_params
        } else {
            v.additional_params + one("alt"@, "json"@)
        }
    }

    /// Whether the body of the answer is decoded: it is unless the additional
    /// parameter `alt` asks for another format than JSON.
    pub open spec fn decodes_body(v: MediaDownloadCallView) -> bool {
        has_name(v.additional_params, "alt"@) ==> value_of(v.additional_params, "alt"@) == "json"@
    }

    /// Calls to mind what holds of every builder: the additional parameters
    /// have distinct names, and the scopes ascend.
    pub fn well_formed(&self)
        ensures
            distinct_names(self@.additional_params),
            ascending(self@.scopes),
    {
        self._additional_params.well_formed();
        self._scopes.well_formed();
    }

    /// What a delegate is told when the call begins.
    pub fn method_info(&self) -> (r: MethodInfo)
        ensures
            r.id@ == Self::route().id,
            r.http_method == Self::route().method,
    {
        MethodInfo { id: "youtubereporting.media.download", http_method: Method::Get }
    }

    /// Prepares the request that was built so far and opens the exchange that
    /// carries it out. Fails with a clash where an additional parameter has a
    /// name that the call sets itself: the first such name in the order of
    /// `route().reserved`. Fails with `UrlTooLong` where address and query are
    /// longer than a URL may be, and with `InvalidUrl` where they make no
    /// absolute URL.
    pub fn doit(self) -> (r: Result<Exchange, Error>)
        ensures
            begun(
                r,
                Self::route().reserved,
                self@.additional_params,
                Self::route().method,
                Self::address(self@),
                Self::query(self@),
                Self::decodes_body(self@),
                self@.hub.user_agent,
                self@.scopes,
                Scope::YtAnalyticMonetaryReadonly.text(),
                None,
            ),
            distinct_names(self@.additional_params),
            ascending(self@.scopes),
    {
        self.well_formed();
        let route = Route {
            id: "youtubereporting.media.download",
            method: Method::Get,
            path: "v1/media/{+resourceName}",
            reserved: vec!["resourceName"],
            markers: vec![("{+resourceName}", "resourceName")],
            dropped: vec!["resourceName"],
            serves_media: true,
        };
        assert(route@.reserved =~= Self::route().reserved);
        assert(route@.markers =~= Self::route().markers);
        assert(route@.dropped =~= Self::route().dropped);
        let mut named: Vec<(String, String)> = Vec::new();
        push_one(&mut named, "resourceName", self._resource_name);
        assert(pairs_text(named@) =~= Self::path_values(self@));
        let r = start(
            &route,
            self.hub._base_url.as_str(),
            self.hub._user_agent.as_str(),
            named,
            &self._additional_params,
            self._scopes,
            Scope::YtAnalyticMonetaryReadonly.as_ref(),
            None,
        );
        proof {
            let v = self@;
            let heads = Self::path_values(v);
            let tail = Self::query(v);
            reveal_strlit("{+resourceName}");
            reveal_strlit("resourceName");
            reveal_strlit("alt");
            assert("resourceName"@.len() == 12 && "alt"@.len() == 3);
            assert(!has_name(heads, "alt"@));
            lemma_other_names_come_behind(heads, v.additional_params, "alt"@);
            let params = all_params(heads, v.additional_params, true);
            assert(params =~= heads + tail);
            assert(distinct_names(heads));
            lemma_own_values_come_first(heads, tail, 0);
            reveal_with_fuel(expanded, 2);
            assert(expanded(v.hub.base_url + Self::route().path, params, Self::route().markers)
                == Self::address(v));
            assert(Self::route().dropped =~= names_of(heads).reverse());
            lemma_path_values_leave(heads, tail, Self::route().dropped);
        }
        r
    }

    /// Sets the name of the media to download.
    pub fn resource_name(self, new_value: &str) -> (r: MediaDownloadCall<'a>)
        ensures
            r@ == (MediaDownloadCallView { resource_name: new_value@, ..self@ }),
    {
        let mut call = self;
        call._resource_name = new_value.to_owned();
        call
    }

    /// Gives an additional parameter of the query a value. A name that is given
    /// a second value keeps the last. A name that the call sets itself makes
    /// `doit` fail with a clash.
    pub fn param(self, name: &str, value: &str) -> (r: MediaDownloadCall<'a>)
        ensures
            r@ == (MediaDownloadCallView {
                additional_params: inserted(self@.additional_params, name@, value@),
                ..self@
            }),
    {
        let mut call = self;
        call._additional_params = call._additional_params.insert(name, value);
        call
    }

    /// Adds a scope to those for which a token is asked; `None` adds nothing. A
    /// call that was given no scope asks for
    /// `Scope::YtAnalyticMonetaryReadonly`.
    pub fn add_scope(self, scope: Option<&str>) -> (r: MediaDownloadCall<'a>)
        ensures
            r@ == (MediaDownloadCallView {
                scopes: match scope {
                    Some(s) => with_scope(self@.scopes, s@),
                    None => self@.scopes,
                },
                ..self@
            }),
    {
        let mut call = self;
        match scope {
            Some(s) => {
                call._scopes = call._scopes.insert(s);
            },
            None => {},
        }
        call
    }
}

} // verus!
