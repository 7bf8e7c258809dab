//! The Cloud Document AI API, version 1 beta 2: processing documents, one
//! at a time or many in one long-running operation, and asking how such an
//! operation stands.

pub mod projects;
pub mod schemas;

pub use self::projects::{
    ProjectDocumentBatchProcesCall, ProjectDocumentProcesCall,
    ProjectLocationDocumentBatchProcesCall, ProjectLocationDocumentProcesCall,
    ProjectLocationOperationGetCall, ProjectMethods, ProjectOperationGetCall,
};
pub use self::schemas::{
    GoogleCloudDocumentaiV1beta2AutoMlParams, GoogleCloudDocumentaiV1beta2DocumentEntityRelation,
    GoogleCloudDocumentaiV1beta2DocumentPageTokenDetectedBreak,
    GoogleCloudDocumentaiV1beta2DocumentShardInfo, GoogleCloudDocumentaiV1beta2DocumentTextAnchor,
    GoogleCloudDocumentaiV1beta2DocumentTextAnchorTextSegment,
    GoogleCloudDocumentaiV1beta2DocumentTranslation,
    GoogleCloudDocumentaiV1beta2EntityExtractionParams,
    GoogleCloudDocumentaiV1beta2FormExtractionParams, GoogleCloudDocumentaiV1beta2GcsDestination,
    GoogleCloudDocumentaiV1beta2GcsSource, GoogleCloudDocumentaiV1beta2InputConfig,
    GoogleCloudDocumentaiV1beta2KeyValuePairHint, GoogleCloudDocumentaiV1beta2OcrParams,
    GoogleCloudDocumentaiV1beta2OutputConfig, GoogleCloudDocumentaiV1beta2Vertex,
    GoogleLongrunningOperation, GoogleRpcStatus,
};

use vstd::prelude::*;
use crate::client::HubView;

verus! {

/// An OAuth2 authorization scope of the service.
#[derive(Clone, Copy, Debug, PartialEq, Eq, Hash, Structural)]
pub enum Scope {
    /// View and manage your data across Google Cloud Platform services.
    CloudPlatform,
}

impl Scope {
    /// The URL that names the scope.
    pub open spec fn text(self) -> Seq<char> {
        match self {
            Scope::CloudPlatform => "https://www.googleapis.com/auth/cloud-platform"@,
        }
    }
}

impl AsRef<str> for Scope {
    /// The URL that names the scope.
    fn as_ref(&self) -> (r: &str)
        ensures
            r@ == self.text(),
    {
        match self {
            Scope::CloudPlatform => "https://www.googleapis.com/auth/cloud-platform",
        }
    }
}

impl Default for Scope {
    /// The scope that a call asks for where it was given none.
    fn default() -> (r: Scope)
        ensures
            r == Scope::CloudPlatform,
    {
        Scope::CloudPlatform
    }
}

/// The entry point to the service: it holds what all calls share, and hands
/// out the builders of the methods of each resource.
pub struct Document {
    _user_agent: String,
    _base_url: String,
    _root_url: String,
}

impl View for Document {
    type V = HubView;

    closed spec fn view(&self) -> HubView {
        HubView {
            user_agent: self._user_agent@,
            base_url: self._base_url@,
            root_url: self._root_url@,
        }
    }
}

impl Document {
    /// A hub with the user agent of this library and the URLs of the service.
    pub fn new() -> (r: Document)
        ensures
            r@ == (HubView {
                user_agent: "google-api-rust-client/1.0.14"@,
                base_url: "https://documentai.googleapis.com/"@,
                root_url: "https://documentai.googleapis.com/"@,
            }),
    {
        Document {
            _user_agent: String::from_str("google-api-rust-client/1.0.14"),
            _base_url: String::from_str("https://documentai.googleapis.com/"),
            _root_url: String::from_str("https://documentai.googleapis.com/"),
        }
    }

    /// The methods on projects.
    pub fn projects(&self) -> (r: ProjectMethods<'_>)
        ensures
            r@ == self@,
    {
        ProjectMethods::of(self)
    }

    /// Sets the user agent of all requests, and returns the one that was
    /// set before.
    pub fn user_agent(&mut self, agent_name: String) -> (r: String)
        ensures
            r@ == old(self)@.user_agent,
            final(self)@ == (HubView { user_agent: agent_name@, ..old(self)@ }),
    {
        let mut name = agent_name;
        std::mem::swap(&mut self._user_agent, &mut name);
        name
    }

    /// Sets the base URL of all requests, and returns the one that was set
    /// before.
    pub fn base_url(&mut self, new_base_url: String) -> (r: String)
        ensures
            r@ == old(self)@.base_url,
            final(self)@ == (HubView { base_url: new_base_url@, ..old(self)@ }),
    {
        let mut url = new_base_url;
        std::mem::swap(&mut self._base_url, &mut url);
        url
    }

    /// Sets the root URL of the service, and returns the one that was set
    /// before.
    pub fn root_url(&mut self, new_root_url: String) -> (r: String)
        ensures
            r@ == old(self)@.root_url,
            final(self)@ == (HubView { root_url: new_root_url@, ..old(self)@ }),
    {
        let mut url = new_root_url;
        std::mem::swap(&mut self._root_url, &mut url);
        url
    }
}

} // verus!
