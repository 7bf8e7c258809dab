//! The methods on projects: processing one document or many, and asking for the
//! state of a long-running operation.

use vstd::prelude::*;
use vstd::utf8::encode_utf8;
use crate::client::{Error, HubView, Method, MethodInfo};
use crate::exchange::{begun, start, Exchange};
use crate::params::{distinct_names, inserted, one, pairs_text, push_one, Pairs, Params};
use crate::request::{
    all_params, expanded, lemma_own_values_come_first, lemma_path_values_leave, names_of, Route,
    RouteView,
};
use crate::scopes::{ascending, with_scope, ScopeSet};
use crate::text::replaced;
use crate::web::percent_encoded;
use super::{Document, Scope};

verus! {

/// The builders of the methods on projects. A hub hands them out.
pub struct ProjectMethods<'a> {
    hub: &'a Document,
}

impl<'a> View for ProjectMethods<'a> {
    type V = HubView;

    closed spec fn view(&self) -> HubView {
        self.hub@
    }
}

impl<'a> ProjectMethods<'a> {
    pub(super) fn of(hub: &'a Document) -> (r: ProjectMethods<'a>)
        ensures
            r@ == hub@,
    {
        ProjectMethods { hub }
    }

    /// Builds the call that processes many documents as one long-running
    /// operation.
    ///
    /// * `request` - the value whose JSON text becomes the body.
    /// * `parent` - the project and location of the call, in the form
    /// `projects/{project-id}/locations/{location-id}`. Without a location the
    /// service picks a region.
    pub fn documents_batch_process<R>(
        &self,
        request: R,
        parent: &str,
    ) -> (r: ProjectDocumentBatchProcesCall<'a, R>)
        ensures
            r@ == (ProjectDocumentBatchProcesCallView {
                hub: self@,
                request,
                parent: parent@,
                additional_params: Pairs::empty(),
                scopes: Seq::empty(),
            }),
    {
        ProjectDocumentBatchProcesCall {
            hub: self.hub,
            _request: request,
            _parent: parent.to_owned(),
            _additional_params: Params::new(),
            _scopes: ScopeSet::new(),
        }
    }

    /// Builds the call that processes a single document.
    ///
    /// * `request` - the value whose JSON text becomes the body.
    /// * `parent` - the project and location of the call, in the form
    /// `projects/{project-id}/locations/{location-id}`. Without a location the
    /// service picks a region.
    pub fn documents_process<R>(
        &self,
        request: R,
        parent: &str,
    ) -> (r: ProjectDocumentProcesCall<'a, R>)
        ensures
            r@ == (ProjectDocumentProcesCallView {
                hub: self@,
                request,
                parent: parent@,
                additional_params: Pairs::empty(),
                scopes: Seq::empty(),
            }),
    {
        ProjectDocumentProcesCall {
            hub: self.hub,
            _request: request,
            _parent: parent.to_owned(),
            _additional_params: Params::new(),
            _scopes: ScopeSet::new(),
        }
    }

    /// Builds the call that processes many documents of a location as one
    /// long-running operation.
    ///
    /// * `request` - the value whose JSON text becomes the body.
    /// * `parent` - the project and location of the call, in the form
    /// `projects/{project-id}/locations/{location-id}`. Without a location the
    /// service picks a region.
    pub fn locations_documents_batch_process<R>(
        &self,
        request: R,
        parent: &str,
    ) -> (r: ProjectLocationDocumentBatchProcesCall<'a, R>)
        ensures
            r@ == (ProjectLocationDocumentBatchProcesCallView {
                hub: self@,
                request,
                parent: parent@,
                additional_params: Pairs::empty(),
                scopes: Seq::empty(),
            }),
    {
        ProjectLocationDocumentBatchProcesCall {
            hub: self.hub,
            _request: request,
            _parent: parent.to_owned(),
            _additional_params: Params::new(),
            _scopes: ScopeSet::new(),
        }
    }

    /// Builds the call that processes a single document of a location.
    ///
    /// * `request` - the value whose JSON text becomes the body.
    /// * `parent` - the project and location of the call, in the form
    /// `projects/{project-id}/locations/{location-id}`. Without a location the
    /// service picks a region.
    pub fn locations_documents_process<R>(
        &self,
        request: R,
        parent: &str,
    ) -> (r: ProjectLocationDocumentProcesCall<'a, R>)
        ensures
            r@ == (ProjectLocationDocumentProcesCallView {
                hub: self@,
                request,
                parent: parent@,
                additional_params: Pairs::empty(),
                scopes: Seq::empty(),
            }),
    {
        ProjectLocationDocumentProcesCall {
            hub: self.hub,
            _request: request,
            _parent: parent.to_owned(),
            _additional_params: Params::new(),
            _scopes: ScopeSet::new(),
        }
    }

    /// Builds the call that gets the latest state of a long-running operation
    /// of a location.
    ///
    /// * `name` - the name of the operation resource.
    pub fn locations_operations_get(&self, name: &str) -> (r: ProjectLocationOperationGetCall<'a>)
        ensures
            r@ == (ProjectLocationOperationGetCallView {
                hub: self@,
                name: name@,
                additional_params: Pairs::empty(),
                scopes: Seq::empty(),
            }),
    {
        ProjectLocationOperationGetCall {
            hub: self.hub,
            _name: name.to_owned(),
            _additional_params: Params::new(),
            _scopes: ScopeSet::new(),
        }
    }

    /// Builds the call that gets the latest state of a long-running operation.
    ///
    /// * `name` - the name of the operation resource.
    pub fn operations_get(&self, name: &str) -> (r: ProjectOperationGetCall<'a>)
        ensures
            r@ == (ProjectOperationGetCallView {
                hub: self@,
                name: name@,
                additional_params: Pairs::empty(),
                scopes: Seq::empty(),
            }),
    {
        ProjectOperationGetCall {
            hub: self.hub,
            _name: name.to_owned(),
            _additional_params: Params::new(),
            _scopes: ScopeSet::new(),
        }
    }
}

/// Processes many documents as one long-running operation, whose output goes to
/// Cloud Storage: the method `documents.batchProcess` of a project.
pub struct ProjectDocumentBatchProcesCall<'a, R> {
    hub: &'a Document,
    _request: R,
    _parent: String,
    _additional_params: Params,
    _scopes: ScopeSet,
}

/// The model of a `ProjectDocumentBatchProcesCall`.
pub struct ProjectDocumentBatchProcesCallView<R> {
    pub hub: HubView,
    pub request: R,
    pub parent: Seq<char>,
    pub additional_params: Pairs,
    pub scopes: Seq<Seq<char>>,
}

impl<'a, R> View for ProjectDocumentBatchProcesCall<'a, R> {
    type V = ProjectDocumentBatchProcesCallView<R>;

    closed spec fn view(&self) -> ProjectDocumentBatchProcesCallView<R> {
        ProjectDocumentBatchProcesCallView {
            hub: self.hub@,
            request: self._request,
            parent: self._parent@,
            additional_params: self._additional_params@,
            scopes: self._scopes@,
        }
    }
}

impl<'a, R> ProjectDocumentBatchProcesCall<'a, R> {
    /// What is fixed for the method.
    pub open spec fn route() -> RouteView {
        RouteView {
            id: "documentai.projects.documents.batchProcess"@,
            method: Method::Post,
            path: "v1beta2/{+parent}/documents:batchProcess"@,
            reserved: seq!["alt"@, "parent"@],
            markers: seq![("{+parent}"@, "parent"@)],
            dropped: seq!["parent"@],
            serves_media: false,
        }
    }

    /// The values that go into the path, under the names of their markers.
    pub open spec fn path_values(v: ProjectDocumentBatchProcesCallView<R>) -> Pairs {
        seq![("parent"@, v.parent)]
    }

    /// The address of the request: the base URL and the path, with its marker
    /// replaced by its value, escaped.
    pub open spec fn address(v: ProjectDocumentBatchProcesCallView<R>) -> Seq<char> {
        replaced(
            v.hub.base_url + Self::route().path,
            "{+parent}"@,
            percent_encoded(encode_utf8(v.parent)),
        )
    }

    /// The query of the request: the additional parameters, and `alt=json`.
    pub open spec fn query(v: ProjectDocumentBatchProcesCallView<R>) -> Pairs {
        v.additional_params + one("alt"@, "json"@)
    }

    /// Calls to mind what holds of every builder: the additional parameters
    /// have distinct names, and the scopes ascend.
    pub fn well_formed(&self)
        ensures
            distinct_names(self@.additional_params),
            ascending(self@.scopes),
    {
        self._additional_params.well_formed();
        self._scopes.well_formed();
    }

    /// What a delegate is told when the call begins.
    pub fn method_info(&self) -> (r: MethodInfo)
        ensures
            r.id@ == Self::route().id,
            r.http_method == Self::route().method,
    {
        MethodInfo { id: "documentai.projects.documents.batchProcess", http_method: Method::Post }
    }

    /// Prepares the request that was built so far, with `body` as the JSON text
    /// of the request value, and opens the exchange that carries it out. Fails
    /// with a clash where an additional parameter has a name that the call sets
    /// itself: the first such name in the order of `route().reserved`. Fails
    /// with `UrlTooLong` where address and query are longer than a URL may be,
    /// and with `InvalidUrl` where they make no absolute URL.
    pub fn doit(self, body: Vec<u8>) -> (r: Result<Exchange, Error>)
        ensures
            begun(
                r,
                Self::route().reserved,
                self@.additional_params,
                Self::route().method,
                Self::address(self@),
                Self::query(self@),
                true,
                self@.hub.user_agent,
                self@.scopes,
                Scope::CloudPlatform.text(),
                Some(body@),
            ),
            distinct_names(self@.additional_params),
            ascending(self@.scopes),
    {
        self.well_formed();
        let route = Route {
            id: "documentai.projects.documents.batchProcess",
            method: Method::Post,
            path: "v1beta2/{+parent}/documents:batchProcess",
            reserved: vec!["alt", "parent"],
            markers: vec![("{+parent}", "parent")],
            dropped: vec!["parent"],
            serves_media: false,
        };
        assert(route@.reserved =~= Self::route().reserved);
        assert(route@.markers =~= Self::route().markers);
        assert(route@.dropped =~= Self::route().dropped);
        let mut named: Vec<(String, String)> = Vec::new();
        push_one(&mut named, "parent", self._parent);
        assert(pairs_text(named@) =~= Self::path_values(self@));
        let r = start(
            &route,
            self.hub._base_url.as_str(),
            self.hub._user_agent.as_str(),
            named,
            &self._additional_params,
            self._scopes,
            Scope::CloudPlatform.as_ref(),
            Some(body),
        );
        proof {
            let v = self@;
            let heads = Self::path_values(v);
            let tail = Self::query(v);
            reveal_strlit("{+parent}");
            let params = all_params(heads, v.additional_params, false);
            assert(params =~= heads + tail);
            assert(distinct_names(heads));
            lemma_own_values_come_first(heads, tail, 0);
            reveal_with_fuel(expanded, 2);
            assert(expanded(v.hub.base_url + Self::route().path, params, Self::route().markers)
                == Self::address(v));
            assert(Self::route().dropped =~= names_of(heads).reverse());
            lemma_path_values_leave(heads, tail, Self::route().dropped);
        }
        r
    }

    /// Sets the request value.
    pub fn request(self, new_value: R) -> (r: ProjectDocumentBatchProcesCall<'a, R>)
        ensures
            r@ == (ProjectDocumentBatchProcesCallView { request: new_value, ..self@ }),
    {
        let mut call = self;
        call._request = new_value;
        call
    }

    /// The request value, whose JSON text is the body of the request.
    pub fn request_value(&self) -> (r: &R)
        ensures
            *r == self@.request,
    {
        &self._request
    }

    /// Sets the project and location of the call, in the form
    /// `projects/{project-id}/locations/{location-id}`.
    pub fn parent(self, new_value: &str) -> (r: ProjectDocumentBatchProcesCall<'a, R>)
        ensures
            r@ == (ProjectDocumentBatchProcesCallView { parent: new_value@, ..self@ }),
    {
        let mut call = self;
        call._parent = new_value.to_owned();
        call
    }

    /// Gives an additional parameter of the query a value. A name that is given
    /// a second value keeps the last. A name that the call sets itself makes
    /// `doit` fail with a clash.
    pub fn param(self, name: &str, value: &str) -> (r: ProjectDocumentBatchProcesCall<'a, R>)
        ensures
            r@ == (ProjectDocumentBatchProcesCallView {
                additional_params: inserted(self@.additional_params, name@, value@),
                ..self@
            }),
    {
        let mut call = self;
        call._additional_params = call._additional_params.insert(name, value);
        call
    }

    /// Adds a scope to those for which a token is asked; `None` adds nothing. A
    /// call that was given no scope asks for `Scope::CloudPlatform`.
    pub fn add_scope(self, scope: Option<&str>) -> (r: ProjectDocumentBatchProcesCall<'a, R>)
        ensures
            r@ == (ProjectDocumentBatchProcesCallView {
                scopes: match scope {
                    Some(s) => with_scope(self@.scopes, s@),
                    None => self@.scopes,
                },
                ..self@
            }),
    {
        let mut call = self;
        match scope {
            Some(s) => {
                call._scopes = call._scopes.insert(s);
            },
            None => {},
        }
        call
    }
}

/// Processes a single document: the method `documents.process` of a project.
pub struct ProjectDocumentProcesCall<'a, R> {
    hub: &'a Document,
    _request: R,
    _parent: String,
    _additional_params: Params,
    _scopes: ScopeSet,
}

/// The model of a `ProjectDocumentProcesCall`.
pub struct ProjectDocumentProcesCallView<R> {
    pub hub: HubView,
    pub request: R,
    pub parent: Seq<char>,
    pub additional_params: Pairs,
    pub scopes: Seq<Seq<char>>,
}

impl<'a, R> View for ProjectDocumentProcesCall<'a, R> {
    type V = ProjectDocumentProcesCallView<R>;

    closed spec fn view(&self) -> ProjectDocumentProcesCallView<R> {
        ProjectDocumentProcesCallView {
            hub: self.hub@,
            request: self._request,
            parent: self._parent@,
            additional_params: self._additional_params@,
            scopes: self._scopes@,
        }
    }
}

impl<'a, R> ProjectDocumentProcesCall<'a, R> {
    /// What is fixed for the method.
    pub open spec fn route() -> RouteView {
        RouteView {
            id: "documentai.projects.documents.process"@,
            method: Method::Post,
            path: "v1beta2/{+parent}/documents:process"@,
            reserved: seq!["alt"@, "parent"@],
            markers: seq![("{+parent}"@, "parent"@)],
            dropped: seq!["parent"@],
            serves_media: false,
        }
    }

    /// The values that go into the path, under the names of their markers.
    pub open spec fn path_values(v: ProjectDocumentProcesCallView<R>) -> Pairs {
        seq![("parent"@, v.parent)]
    }

    /// The address of the request: the base URL and the path, with its marker
    /// replaced by its value, escaped.
    pub open spec fn address(v: ProjectDocumentProcesCallView<R>) -> Seq<char> {
        replaced(
            v.hub.base_url + Self::route().path,
            "{+parent}"@,
            percent_encoded(encode_utf8(v.parent)),
        )
    }

    /// The query of the request: the additional parameters, and `alt=json`.
    pub open spec fn query(v: ProjectDocumentProcesCallView<R>) -> Pairs {
        v.additional_params + one("alt"@, "json"@)
    }

    /// Calls to mind what holds of every builder: the additional parameters
    /// have distinct names, and the scopes ascend.
    pub fn well_formed(&self)
        ensures
            distinct_names(self@.additional_params),
            ascending(self@.scopes),
    {
        self._additional_params.well_formed();
        self._scopes.well_formed();
    }

    /// What a delegate is told when the call begins.
    pub fn method_info(&self) -> (r: MethodInfo)
        ensures
            r.id@ == Self::route().id,
            r.http_method == Self::route().method,
    {
        MethodInfo { id: "documentai.projects.documents.process", http_method: Method::Post }
    }

    /// Prepares the request that was built so far, with `body` as the JSON text
    /// of the request value, and opens the exchange that carries it out. Fails
    /// with a clash where an additional parameter has a name that the call sets
    /// itself: the first such name in the order of `route().reserved`. Fails
    /// with `UrlTooLong` where address and query are longer than a URL may be,
    /// and with `InvalidUrl` where they make no absolute URL.
    pub fn doit(self, body: Vec<u8>) -> (r: Result<Exchange, Error>)
        ensures
            begun(
                r,
                Self::route().reserved,
                self@.additional_params,
                Self::route().method,
                Self::address(self@),
                Self::query(self@),
                true,
                self@.hub.user_agent,
                self@.scopes,
                Scope::CloudPlatform.text(),
                Some(body@),
            ),
            distinct_names(self@.additional_params),
            ascending(self@.scopes),
    {
        self.well_formed();
        let route = Route {
            id: "documentai.projects.documents.process",
            method: Method::Post,
            path: "v1beta2/{+parent}/documents:process",
            reserved: vec!["alt", "parent"],
            markers: vec![("{+parent}", "parent")],
            dropped: vec!["parent"],
            serves_media: false,
        };
        assert(route@.reserved =~= Self::route().reserved);
        assert(route@.markers =~= Self::route().markers);
        assert(route@.dropped =~= Self::route().dropped);
        let mut named: Vec<(String, String)> = Vec::new();
        push_one(&mut named, "parent", self._parent);
        assert(pairs_text(named@) =~= Self::path_values(self@));
        let r = start(
            &route,
            self.hub._base_url.as_str(),
            self.hub._user_agent.as_str(),
            named,
            &self._additional_params,
            self._scopes,
            Scope::CloudPlatform.as_ref(),
            Some(body),
        );
        proof {
            let v = self@;
            let heads = Self::path_values(v);
            let tail = Self::query(v);
            reveal_strlit("{+parent}");
            let params = all_params(heads, v.additional_params, false);
            assert(params =~= heads + tail);
            assert(distinct_names(heads));
            lemma_own_values_come_first(heads, tail, 0);
            reveal_with_fuel(expanded, 2);
            assert(expanded(v.hub.base_url + Self::route().path, params, Self::route().markers)
                == Self::address(v));
            assert(Self::route().dropped =~= names_of(heads).reverse());
            lemma_path_values_leave(heads, tail, Self::route().dropped);
        }
        r
    }

    /// Sets the request value.
    pub fn request(self, new_value: R) -> (r: ProjectDocumentProcesCall<'a, R>)
        ensures
            r@ == (ProjectDocumentProcesCallView { request: new_value, ..self@ }),
    {
        let mut call = self;
        call._request = new_value;
        call
    }

    /// The request value, whose JSON text is the body of the request.
    pub fn request_value(&self) -> (r: &R)
        ensures
            *r == self@.request,
    {
        &self._request
    }

    /// Sets the project and location of the call, in the form
    /// `projects/{project-id}/locations/{location-id}`.
    pub fn parent(self, new_value: &str) -> (r: ProjectDocumentProcesCall<'a, R>)
        ensures
            r@ == (ProjectDocumentProcesCallView { parent: new_value@, ..self@ }),
    {
        let mut call = self;
        call._parent = new_value.to_owned();
        call
    }

    /// Gives an additional parameter of the query a value. A name that is given
    /// a second value keeps the last. A name that the call sets itself makes
    /// `doit` fail with a clash.
    pub fn param(self, name: &str, value: &str) -> (r: ProjectDocumentProcesCall<'a, R>)
        ensures
            r@ == (ProjectDocumentProcesCallView {
                additional_params: inserted(self@.additional_params, name@, value@),
                ..self@
            }),
    {
        let mut call = self;
        call._additional_params = call._additional_params.insert(name, value);
        call
    }

    /// Adds a scope to those for which a token is asked; `None` adds nothing. A
    /// call that was given no scope asks for `Scope::CloudPlatform`.
    pub fn add_scope(self, scope: Option<&str>) -> (r: ProjectDocumentProcesCall<'a, R>)
        ensures
            r@ == (ProjectDocumentProcesCallView {
                scopes: match scope {
                    Some(s) => with_scope(self@.scopes, s@),
                    None => self@.scopes,
                },
                ..self@
            }),
    {
        let mut call = self;
        match scope {
            Some(s) => {
                call._scopes = call._scopes.insert(s);
            },
            None => {},
        }
        call
    }
}

/// Processes many documents as one long-running operation, whose output goes to
/// Cloud Storage: the method `locations.documents.batchProcess` of a project.
pub struct ProjectLocationDocumentBatchProcesCall<'a, R> {
    hub: &'a Document,
    _request: R,
    _parent: String,
    _additional_params: Params,
    _scopes: ScopeSet,
}

/// The model of a `ProjectLocationDocumentBatchProcesCall`.
pub struct ProjectLocationDocumentBatchProcesCallView<R> {
    pub hub: HubView,
    pub request: R,
    pub parent: Seq<char>,
    pub additional_params: Pairs,
    pub scopes: Seq<Seq<char>>,
}

impl<'a, R> View for ProjectLocationDocumentBatchProcesCall<'a, R> {
    type V = ProjectLocationDocumentBatchProcesCallView<R>;

    closed spec fn view(&self) -> ProjectLocationDocumentBatchProcesCallView<R> {
        ProjectLocationDocumentBatchProcesCallView {
            hub: self.hub@,
            request: self._request,
            parent: self._parent@,
            additional_params: self._additional_params@,
            scopes: self._scopes@,
        }
    }
}

impl<'a, R> ProjectLocationDocumentBatchProcesCall<'a, R> {
    /// What is fixed for the method.
    pub open spec fn route() -> RouteView {
        RouteView {
            id: "documentai.projects.locations.documents.batchProcess"@,
            method: Method::Post,
            path: "v1beta2/{+parent}/documents:batchProcess"@,
            reserved: seq!["alt"@, "parent"@],
            markers: seq![("{+parent}"@, "parent"@)],
            dropped: seq!["parent"@],
            serves_media: false,
        }
    }

    /// The values that go into the path, under the names of their markers.
    pub open spec fn path_values(v: ProjectLocationDocumentBatchProcesCallView<R>) -> Pairs {
        seq![("parent"@, v.parent)]
    }

    /// The address of the request: the base URL and the path, with its marker
    /// replaced by its value, escaped.
    pub open spec fn address(v: ProjectLocationDocumentBatchProcesCallView<R>) -> Seq<char> {
        replaced(
            v.hub.base_url + Self::route().path,
            "{+parent}"@,
            percent_encoded(encode_utf8(v.parent)),
        )
    }

    /// The query of the request: the additional parameters, and `alt=json`.
    pub open spec fn query(v: ProjectLocationDocumentBatchProcesCallView<R>) -> Pairs {
        v.additional_params + one("alt"@, "json"@)
    }

    /// Calls to mind what holds of every builder: the additional parameters
    /// have distinct names, and the scopes ascend.
    pub fn well_formed(&self)
        ensures
            distinct_names(self@.additional_params),
            ascending(self@.scopes),
    {
        self._additional_params.well_formed();
        self._scopes.well_formed();
    }

    /// What a delegate is told when the call begins.
    pub fn method_info(&self) -> (r: MethodInfo)
        ensures
            r.id@ == Self::route().id,
            r.http_method == Self::route().method,
    {
        MethodInfo {
            id: "documentai.projects.locations.documents.batchProcess",
            http_method: Method::Post,
        }
    }

    /// Prepares the request that was built so far, with `body` as the JSON text
    /// of the request value, and opens the exchange that carries it out. Fails
    /// with a clash where an additional parameter has a name that the call sets
    /// itself: the first such name in the order of `route().reserved`. Fails
    /// with `UrlTooLong` where address and query are longer than a URL may be,
    /// and with `InvalidUrl` where they make no absolute URL.
    pub fn doit(self, body: Vec<u8>) -> (r: Result<Exchange, Error>)
        ensures
            begun(
                r,
                Self::route().reserved,
                self@.additional_params,
                Self::route().method,
                Self::address(self@),
                Self::query(self@),
                true,
                self@.hub.user_agent,
                self@.scopes,
                Scope::CloudPlatform.text(),
                Some(body@),
            ),
            distinct_names(self@.additional_params),
            ascending(self@.scopes),
    {
        self.well_formed();
        let route = Route {
            id: "documentai.projects.locations.documents.batchProcess",
            method: Method::Post,
            path: "v1beta2/{+parent}/documents:batchProcess",
            reserved: vec!["alt", "parent"],
            markers: vec![("{+parent}", "parent")],
            dropped: vec!["parent"],
            serves_media: false,
        };
        assert(route@.reserved =~= Self::route().reserved);
        assert(route@.markers =~= Self::route().markers);
        assert(route@.dropped =~= Self::route().dropped);
        let mut named: Vec<(String, String)> = Vec::new();
        push_one(&mut named, "parent", self._parent);
        assert(pairs_text(named@) =~= Self::path_values(self@));
        let r = start(
            &route,
            self.hub._base_url.as_str(),
            self.hub._user_agent.as_str(),
            named,
            &self._additional_params,
            self._scopes,
            Scope::CloudPlatform.as_ref(),
            Some(body),
        );
        proof {
            let v = self@;
            let heads = Self::path_values(v);
            let tail = Self::query(v);
            reveal_strlit("{+parent}");
            let params = all_params(heads, v.additional_params, false);
            assert(params =~= heads + tail);
            assert(distinct_names(heads));
            lemma_own_values_come_first(heads, tail, 0);
            reveal_with_fuel(expanded, 2);
            assert(expanded(v.hub.base_url + Self::route().path, params, Self::route().markers)
                == Self::address(v));
            assert(Self::route().dropped =~= names_of(heads).reverse());
            lemma_path_values_leave(heads, tail, Self::route().dropped);
        }
        r
    }

    /// Sets the request value.
    pub fn request(self, new_value: R) -> (r: ProjectLocationDocumentBatchProcesCall<'a, R>)
        ensures
            r@ == (ProjectLocationDocumentBatchProcesCallView { request: new_value, ..self@ }),
    {
        let mut call = self;
        call._request = new_value;
        call
    }

    /// The request value, whose JSON text is the body of the request.
    pub fn request_value(&self) -> (r: &R)
        ensures
            *r == self@.request,
    {
        &self._request
    }

    /// Sets the project and location of the call, in the form
    /// `projects/{project-id}/locations/{location-id}`.
    pub fn parent(self, new_value: &str) -> (r: ProjectLocationDocumentBatchProcesCall<'a, R>)
        ensures
            r@ == (ProjectLocationDocumentBatchProcesCallView { parent: new_value@, ..self@ }),
    {
        let mut call = self;
        call._parent = new_value.to_owned();
        call
    }

    /// Gives an additional parameter of the query a value. A name that is given
    /// a second value keeps the last. A name that the call sets itself makes
    /// `doit` fail with a clash.
    pub fn param(self, name: &str, value: &str) -> (r:
        ProjectLocationDocumentBatchProcesCall<'a, R>)
        ensures
            r@ == (ProjectLocationDocumentBatchProcesCallView {
                additional_params: inserted(self@.additional_params, name@, value@),
                ..self@
            }),
    {
        let mut call = self;
        call._additional_params = call._additional_params.insert(name, value);
        call
    }

    /// Adds a scope to those for which a token is asked; `None` adds nothing. A
    /// call that was given no scope asks for `Scope::CloudPlatform`.
    pub fn add_scope(self, scope: Option<&str>) -> (r:
        ProjectLocationDocumentBatchProcesCall<'a, R>)
        ensures
            r@ == (ProjectLocationDocumentBatchProcesCallView {
                scopes: match scope {
                    Some(s) => with_scope(self@.scopes, s@),
                    None => self@.scopes,
                },
                ..self@
            }),
    {
        let mut call = self;
        match scope {
            Some(s) => {
                call._scopes = call._scopes.insert(s);
            },
            None => {},
        }
        call
    }
}

/// Processes a single document: the method `locations.documents.process` of a
/// project.
pub struct ProjectLocationDocumentProcesCall<'a, R> {
    hub: &'a Document,
    _request: R,
    _parent: String,
    _additional_params: Params,
    _scopes: ScopeSet,
}

/// The model of a `ProjectLocationDocumentProcesCall`.
pub struct ProjectLocationDocumentProcesCallView<R> {
    pub hub: HubView,
    pub request: R,
    pub parent: Seq<char>,
    pub additional_params: Pairs,
    pub scopes: Seq<Seq<char>>,
}

impl<'a, R> View for ProjectLocationDocumentProcesCall<'a, R> {
    type V = ProjectLocationDocumentProcesCallView<R>;

    closed spec fn view(&self) -> ProjectLocationDocumentProcesCallView<R> {
        ProjectLocationDocumentProcesCallView {
            hub: self.hub@,
            request: self._request,
            parent: self._parent@,
            additional_params: self._additional_params@,
            scopes: self._scopes@,
        }
    }
}

impl<'a, R> ProjectLocationDocumentProcesCall<'a, R> {
    /// What is fixed for the method.
    pub open spec fn route() -> RouteView {
        RouteView {
            id: "documentai.projects.locations.documents.process"@,
            method: Method::Post,
            path: "v1beta2/{+parent}/documents:process"@,
            reserved: seq!["alt"@, "parent"@],
            markers: seq![("{+parent}"@, "parent"@)],
            dropped: seq!["parent"@],
            serves_media: false,
        }
    }

    /// The values that go into the path, under the names of their markers.
    pub open spec fn path_values(v: ProjectLocationDocumentProcesCallView<R>) -> Pairs {
        seq![("parent"@, v.parent)]
    }

    /// The address of the request: the base URL and the path, with its marker
    /// replaced by its value, escaped.
    pub open spec fn address(v: ProjectLocationDocumentProcesCallView<R>) -> Seq<char> {
        replaced(
            v.hub.base_url + Self::route().path,
            "{+parent}"@,
            percent_encoded(encode_utf8(v.parent)),
        )
    }

    /// The query of the request: the additional parameters, and `alt=json`.
    pub open spec fn query(v: ProjectLocationDocumentProcesCallView<R>) -> Pairs {
        v.additional_params + one("alt"@, "json"@)
    }

    /// Calls to mind what holds of every builder: the additional parameters
    /// have distinct names, and the scopes ascend.
    pub fn well_formed(&self)
        ensures
            distinct_names(self@.additional_params),
            ascending(self@.scopes),
    {
        self._additional_params.well_formed();
        self._scopes.well_formed();
    }

    /// What a delegate is told when the call begins.
    pub fn method_info(&self) -> (r: MethodInfo)
        ensures
            r.id@ == Self::route().id,
            r.http_method == Self::route().method,
    {
        MethodInfo {
            id: "documentai.projects.locations.documents.process",
            http_method: Method::Post,
        }
    }

    /// Prepares the request that was built so far, with `body` as the JSON text
    /// of the request value, and opens the exchange that carries it out. Fails
    /// with a clash where an additional parameter has a name that the call sets
    /// itself: the first such name in the order of `route().reserved`. Fails
    /// with `UrlTooLong` where address and query are longer than a URL may be,
    /// and with `InvalidUrl` where they make no absolute URL.
    pub fn doit(self, body: Vec<u8>) -> (r: Result<Exchange, Error>)
        ensures
            begun(
                r,
                Self::route().reserved,
                self@.additional_params,
                Self::route().method,
                Self::address(self@),
                Self::query(self@),
                true,
                self@.hub.user_agent,
                self@.scopes,
                Scope::CloudPlatform.text(),
                Some(body@),
            ),
            distinct_names(self@.additional_params),
            ascending(self@.scopes),
    {
        self.well_formed();
        let route = Route {
            id: "documentai.projects.locations.documents.process",
            method: Method::Post,
            path: "v1beta2/{+parent}/documents:process",
            reserved: vec!["alt", "parent"],
            markers: vec![("{+parent}", "parent")],
            dropped: vec!["parent"],
            serves_media: false,
        };
        assert(route@.reserved =~= Self::route().reserved);
        assert(route@.markers =~= Self::route().markers);
        assert(route@.dropped =~= Self::route().dropped);
        let mut named: Vec<(String, String)> = Vec::new();
        push_one(&mut named, "parent", self._parent);
        assert(pairs_text(named@) =~= Self::path_values(self@));
        let r = start(
            &route,
            self.hub._base_url.as_str(),
            self.hub._user_agent.as_str(),
            named,
            &self._additional_params,
            self._scopes,
            Scope::CloudPlatform.as_ref(),
            Some(body),
        );
        proof {
            let v = self@;
            let heads = Self::path_values(v);
            let tail = Self::query(v);
            reveal_strlit("{+parent}");
            let params = all_params(heads, v.additional_params, false);
            assert(params =~= heads + tail);
            assert(distinct_names(heads));
            lemma_own_values_come_first(heads, tail, 0);
            reveal_with_fuel(expanded, 2);
            assert(expanded(v.hub.base_url + Self::route().path, params, Self::route().markers)
                == Self::address(v));
            assert(Self::route().dropped =~= names_of(heads).reverse());
            lemma_path_values_leave(heads, tail, Self::route().dropped);
        }
        r
    }

    /// Sets the request value.
    pub fn request(self, new_value: R) -> (r: ProjectLocationDocumentProcesCall<'a, R>)
        ensures
            r@ == (ProjectLocationDocumentProcesCallView { request: new_value, ..self@ }),
    {
        let mut call = self;
        call._request = new_value;
        call
    }

    /// The request value, whose JSON text is the body of the request.
    pub fn request_value(&self) -> (r: &R)
        ensures
            *r == self@.request,
    {
        &self._request
    }

    /// Sets the project and location of the call, in the form
    /// `projects/{project-id}/locations/{location-id}`.
    pub fn parent(self, new_value: &str) -> (r: ProjectLocationDocumentProcesCall<'a, R>)
        ensures
            r@ == (ProjectLocationDocumentProcesCallView { parent: new_value@, ..self@ }),
    {
        let mut call = self;
        call._parent = new_value.to_owned();
        call
    }

    /// Gives an additional parameter of the query a value. A name that is given
    /// a second value keeps the last. A name that the call sets itself makes
    /// `doit` fail with a clash.
    pub fn param(self, name: &str, value: &str) -> (r: ProjectLocationDocumentProcesCall<'a, R>)
        ensures
            r@ == (ProjectLocationDocumentProcesCallView {
                additional_params: inserted(self@.additional_params, name@, value@),
                ..self@
            }),
    {
        let mut call = self;
        call._additional_params = call._additional_params.insert(name, value);
        call
    }

    /// Adds a scope to those for which a token is asked; `None` adds nothing. A
    /// call that was given no scope asks for `Scope::CloudPlatform`.
    pub fn add_scope(self, scope: Option<&str>) -> (r: ProjectLocationDocumentProcesCall<'a, R>)
        ensures
            r@ == (ProjectLocationDocumentProcesCallView {
                scopes: match scope {
                    Some(s) => with_scope(self@.scopes, s@),
                    None => self@.scopes,
                },
                ..self@
            }),
    {
        let mut call = self;
        match scope {
            Some(s) => {
                call._scopes = call._scopes.insert(s);
            },
            None => {},
        }
        call
    }
}

/// Gets the latest state of a long-running operation, for clients that poll its
/// result: the method `locations.operations.get` of a project.
pub struct ProjectLocationOperationGetCall<'a> {
    hub: &'a Document,
    _name: String,
    _additional_params: Params,
    _scopes: ScopeSet,
}

/// The model of a `ProjectLocationOperationGetCall`.
pub struct ProjectLocationOperationGetCallView {
    pub hub: HubView,
    pub name: Seq<char>,
    pub additional_params: Pairs,
    pub scopes: Seq<Seq<char>>,
}

impl<'a> View for ProjectLocationOperationGetCall<'a> {
    type V = ProjectLocationOperationGetCallView;

    closed spec fn view(&self) -> ProjectLocationOperationGetCallView {
        ProjectLocationOperationGetCallView {
            hub: self.hub@,
            name: self._name@,
            additional_params: self._additional_params@,
            scopes: self._scopes@,
        }
    }
}

impl<'a> ProjectLocationOperationGetCall<'a> {
    /// What is fixed for the method.
    pub open spec fn route() -> RouteView {
        RouteView {
            id: "documentai.projects.locations.operations.get"@,
            method: Method::Get,
            path: "v1beta2/{+name}"@,
            reserved: seq!["alt"@, "name"@],
            markers: seq![("{+name}"@, "name"@)],
            dropped: seq!["name"@],
            serves_media: false,
        }
    }

    /// The values that go into the path, under the names of their markers.
    pub open spec fn path_values(v: ProjectLocationOperationGetCallView) -> Pairs {
        seq![("name"@, v.name)]
    }

    /// The address of the request: the base URL and the path, with its marker
    /// replaced by its value, escaped.
    pub open spec fn address(v: ProjectLocationOperationGetCallView) -> Seq<char> {
        replaced(
            v.hub.base_url + Self::route().path,
            "{+name}"@,
            percent_encoded(encode_utf8(v.name)),
        )
    }

    /// The query of the request: the additional parameters, and `alt=json`.
    pub open spec fn query(v: ProjectLocationOperationGetCallView) -> Pairs {
        v.additional_params + one("alt"@, "json"@)
    }

    /// Calls to mind what holds of every builder: the additional parameters
    /// have distinct names, and the scopes ascend.
    pub fn well_formed(&self)
        ensures
            distinct_names(self@.additional_params),
            ascending(self@.scopes),
    {
        self._additional_params.well_formed();
        self._scopes.well_formed();
    }

    /// What a delegate is told when the call begins.
    pub fn method_info(&self) -> (r: MethodInfo)
        ensures
            r.id@ == Self::route().id,
            r.http_method == Self::route().method,
    {
        MethodInfo { id: "documentai.projects.locations.operations.get", http_method: Method::Get }
    }

    /// Prepares the request that was built so far and opens the exchange that
    /// carries it out. Fails with a clash where an additional parameter has a
    /// name that the call sets itself: the first such name in the order of
    /// `route().reserved`. Fails with `UrlTooLong` where address and query are
    /// longer than a URL may be, and with `InvalidUrl` where they make no
    /// absolute URL.
    pub fn doit(self) -> (r: Result<Exchange, Error>)
        ensures
            begun(
                r,
                Self::route().reserved,
                self@.additional_params,
                Self::route().method,
                Self::address(self@),
                Self::query(self@),
                true,
                self@.hub.user_agent,
                self@.scopes,
                Scope::CloudPlatform.text(),
                None,
            ),
            distinct_names(self@.additional_params),
            ascending(self@.scopes),
    {
        self.well_formed();
        let route = Route {
            id: "documentai.projects.locations.operations.get",
            method: Method::Get,
            path: "v1beta2/{+name}",
            reserved: vec!["alt", "name"],
            markers: vec![("{+name}", "name")],
            dropped: vec!["name"],
            serves_media: false,
        };
        assert(route@.reserved =~= Self::route().reserved);
        assert(route@.markers =~= Self::route().markers);
        assert(route@.dropped =~= Self::route().dropped);
        let mut named: Vec<(String, String)> = Vec::new();
        push_one(&mut named, "name", self._name);
        assert(pairs_text(named@) =~= Self::path_values(self@));
        let r = start(
            &route,
            self.hub._base_url.as_str(),
            self.hub._user_agent.as_str(),
            named,
            &self._additional_params,
            self._scopes,
            Scope::CloudPlatform.as_ref(),
            None,
        );
        proof {
            let v = self@;
            let heads = Self::path_values(v);
            let tail = Self::query(v);
            reveal_strlit("{+name}");
            let params = all_params(heads, v.additional_params, false);
            assert(params =~= heads + tail);
            assert(distinct_names(heads));
            lemma_own_values_come_first(heads, tail, 0);
            reveal_with_fuel(expanded, 2);
            assert(expanded(v.hub.base_url + Self::route().path, params, Self::route().markers)
                == Self::address(v));
            assert(Self::route().dropped =~= names_of(heads).reverse());
            lemma_path_values_leave(heads, tail, Self::route().dropped);
        }
        r
    }

    /// Sets the name of the operation resource.
    pub fn name(self, new_value: &str) -> (r: ProjectLocationOperationGetCall<'a>)
        ensures
            r@ == (ProjectLocationOperationGetCallView { name: new_value@, ..self@ }),
    {
        let mut call = self;
        call._name = new_value.to_owned();
        call
    }

    /// Gives an additional parameter of the query a value. A name that is given
    /// a second value keeps the last. A name that the call sets itself makes
    /// `doit` fail with a clash.
    pub fn param(self, name: &str, value: &str) -> (r: ProjectLocationOperationGetCall<'a>)
        ensures
            r@ == (ProjectLocationOperationGetCallView {
                additional_params: inserted(self@.additional_params, name@, value@),
                ..self@
            }),
    {
        let mut call = self;
        call._additional_params = call._additional_params.insert(name, value);
        call
    }

    /// Adds a scope to those for which a token is asked; `None` adds nothing. A
    /// call that was given no scope asks for `Scope::CloudPlatform`.
    pub fn add_scope(self, scope: Option<&str>) -> (r: ProjectLocationOperationGetCall<'a>)
        ensures
            r@ == (ProjectLocationOperationGetCallView {
                scopes: match scope {
                    Some(s) => with_scope(self@.scopes, s@),
                    None => self@.scopes,
                },
                ..self@
            }),
    {
        let mut call = self;
        match scope {
            Some(s) => {
                call._scopes = call._scopes.insert(s);
            },
            None => {},
        }
        call
    }
}

/// Gets the latest state of a long-running operation, for clients that poll its
/// result: the method `operations.get` of a project.
pub struct ProjectOperationGetCall<'a> {
    hub: &'a Document,
    _name: String,
    _additional_params: Params,
    _scopes: ScopeSet,
}

/// The model of a `ProjectOperationGetCall`.
pub struct ProjectOperationGetCallView {
    pub hub: HubView,
    pub name: Seq<char>,
    pub additional_params: Pairs,
    pub scopes: Seq<Seq<char>>,
}

impl<'a> View for ProjectOperationGetCall<'a> {
    type V = ProjectOperationGetCallView;

    closed spec fn view(&self) -> ProjectOperationGetCallView {
        ProjectOperationGetCallView {
            hub: self.hub@,
            name: self._name@,
            additional_params: self._additional_params@,
            scopes: self._scopes@,
        }
    }
}

impl<'a> ProjectOperationGetCall<'a> {
    /// What is fixed for the method.
    pub open spec fn route() -> RouteView {
        RouteView {
            id: "documentai.projects.operations.get"@,
            method: Method::Get,
            path: "v1beta2/{+name}"@,
            reserved: seq!["alt"@, "name"@],
            markers: seq![("{+name}"@, "name"@)],
            dropped: seq!["name"@],
            serves_media: false,
        }
    }

    /// The values that go into the path, under the names of their markers.
    pub open spec fn path_values(v: ProjectOperationGetCallView) -> Pairs {
        seq![("name"@, v.name)]
    }

    /// The address of the request: the base URL and the path, with its marker
    /// replaced by its value, escaped.
    pub open spec fn address(v: ProjectOperationGetCallView) -> Seq<char> {
        replaced(
            v.hub.base_url + Self::route().path,
            "{+name}"@,
            percent_encoded(encode_utf8(v.name)),
        )
    }

    /// The query of the request: the additional parameters, and `alt=json`.
    pub open spec fn query(v: ProjectOperationGetCallView) -> Pairs {
        v.additional_params + one("alt"@, "json"@)
    }

    /// Calls to mind what holds of every builder: the additional parameters
    /// have distinct names, and the scopes ascend.
    pub fn well_formed(&self)
        ensures
            distinct_names(self@.additional_params),
            ascending(self@.scopes),
    {
        self._additional_params.well_formed();
        self._scopes.well_formed();
    }

    /// What a delegate is told when the call begins.
    pub fn method_info(&self) -> (r: MethodInfo)
        ensures
            r.id@ == Self::route().id,
            r.http_method == Self::route().method,
    {
        MethodInfo { id: "documentai.projects.operations.get", http_method: Method::Get }
    }

    /// Prepares the request that was built so far and opens the exchange that
    /// carries it out. Fails with a clash where an additional parameter has a
    /// name that the call sets itself: the first such name in the order of
    /// `route().reserved`. Fails with `UrlTooLong` where address and query are
    /// longer than a URL may be, and with `InvalidUrl` where they make no
    /// absolute URL.
    pub fn doit(self) -> (r: Result<Exchange, Error>)
        ensures
            begun(
                r,
                Self::route().reserved,
                self@.additional_params,
                Self::route().method,
                Self::address(self@),
                Self::query(self@),
                true,
                self@.hub.user_agent,
                self@.scopes,
                Scope::CloudPlatform.text(),
                None,
            ),
            distinct_names(self@.additional_params),
            ascending(self@.scopes),
    {
        self.well_formed();
        let route = Route {
            id: "documentai.projects.operations.get",
            method: Method::Get,
            path: "v1beta2/{+name}",
            reserved: vec!["alt", "name"],
            markers: vec![("{+name}", "name")],
            dropped: vec!["name"],
            serves_media: false,
        };
        assert(route@.reserved =~= Self::route().reserved);
        assert(route@.markers =~= Self::route().markers);
        assert(route@.dropped =~= Self::route().dropped);
        let mut named: Vec<(String, String)> = Vec::new();
        push_one(&mut named, "name", self._name);
        assert(pairs_text(named@) =~= Self::path_values(self@));
        let r = start(
            &route,
            self.hub._base_url.as_str(),
            self.hub._user_agent.as_str(),
            named,
            &self._additional_params,
            self._scopes,
            Scope::CloudPlatform.as_ref(),
            None,
        );
        proof {
            let v = self@;
            let heads = Self::path_values(v);
            let tail = Self::query(v);
            reveal_strlit("{+name}");
            let params = all_params(heads, v.additional_params, false);
            assert(params =~= heads + tail);
            assert(distinct_names(heads));
            lemma_own_values_come_first(heads, tail, 0);
            reveal_with_fuel(expanded, 2);
            assert(expanded(v.hub.base_url + Self::route().path, params, Self::route().markers)
                == Self::address(v));
            assert(Self::route().dropped =~= names_of(heads).reverse());
            lemma_path_values_leave(heads, tail, Self::route().dropped);
        }
        r
    }

    /// Sets the name of the operation resource.
    pub fn name(self, new_value: &str) -> (r: ProjectOperationGetCall<'a>)
        ensures
            r@ == (ProjectOperationGetCallView { name: new_value@, ..self@ }),
    {
        let mut call = self;
        call._name = new_value.to_owned();
        call
    }

    /// Gives an additional parameter of the query a value. A name that is given
    /// a second value keeps the last. A name that the call sets itself makes
    /// `doit` fail with a clash.
    pub fn param(self, name: &str, value: &str) -> (r: ProjectOperationGetCall<'a>)
        ensures
            r@ == (ProjectOperationGetCallView {
                additional_params: inserted(self@.additional_params, name@, value@),
                ..self@
            }),
    {
        let mut call = self;
        call._additional_params = call._additional_params.insert(name, value);
        call
    }

    /// Adds a scope to those for which a token is asked; `None` adds nothing. A
    /// call that was given no scope asks for `Scope::CloudPlatform`.
    pub fn add_scope(self, scope: Option<&str>) -> (r: ProjectOperationGetCall<'a>)
        ensures
            r@ == (ProjectOperationGetCallView {
                scopes: match scope {
                    Some(s) => with_scope(self@.scopes, s@),
                    None => self@.scopes,
                },
                ..self@
            }),
    {
        let mut call = self;
        match scope {
            Some(s) => {
                call._scopes = call._scopes.insert(s);
            },
            None => {},
        }
        call
    }
}

} // verus!
