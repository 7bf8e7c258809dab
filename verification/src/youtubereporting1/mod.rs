//! The YouTube Reporting API, version 1: jobs that produce reports, the
//! reports of a job, the types of report, and the download of report media.

pub mod jobs;
pub mod media;
pub mod report_types;
pub mod schemas;

pub use self::jobs::{
    JobCreateCall, JobDeleteCall, JobGetCall, JobListCall, JobMethods, JobReportGetCall,
    JobReportListCall,
};
pub use self::media::{MediaDownloadCall, MediaMethods};
pub use self::report_types::{ReportTypeListCall, ReportTypeMethods};
pub use self::schemas::{
    Empty, GdataBlobstore2Info, GdataCompositeMedia, GdataContentTypeInfo,
    GdataDiffChecksumsResponse, GdataDiffDownloadResponse, GdataDiffUploadRequest,
    GdataDiffUploadResponse, GdataDiffVersionResponse, GdataDownloadParameters, GdataMedia,
    GdataObjectId, Job, ListJobsResponse, ListReportTypesResponse, ListReportsResponse, Report,
    ReportType,
};

use vstd::prelude::*;
use crate::client::HubView;

verus! {

/// An OAuth2 authorization scope of the service.
#[derive(Clone, Copy, Debug, PartialEq, Eq, Hash, Structural)]
pub enum Scope {
    /// View monetary and non-monetary YouTube Analytics reports for your
    /// YouTube content.
    YtAnalyticMonetaryReadonly,
    /// View YouTube Analytics reports for your YouTube content.
    YtAnalyticReadonly,
}

impl Scope {
    /// The URL that names the scope.
    pub open spec fn text(self) -> Seq<char> {
        match self {
            Scope::YtAnalyticMonetaryReadonly => {
                "https://www.googleapis.com/auth/yt-analytics-monetary.readonly"@
            },
            Scope::YtAnalyticReadonly => "https://www.googleapis.com/auth/yt-analytics.readonly"@,
        }
    }
}

impl AsRef<str> for Scope {
    /// The URL that names the scope.
    fn as_ref(&self) -> (r: &str)
        ensures
            r@ == self.text(),
    {
        match self {
            Scope::YtAnalyticMonetaryReadonly => {
                "https://www.googleapis.com/auth/yt-analytics-monetary.readonly"
            },
            Scope::YtAnalyticReadonly => "https://www.googleapis.com/auth/yt-analytics.readonly",
        }
    }
}

impl Default for Scope {
    /// The scope that a call asks for where it was given none.
    fn default() -> (r: Scope)
        ensures
            r == Scope::YtAnalyticMonetaryReadonly,
    {
        Scope::YtAnalyticMonetaryReadonly
    }
}

/// The entry point to the service: it holds what all calls share, and hands
/// out the builders of the methods of each resource.
pub struct YouTubeReporting {
    _user_agent: String,
    _base_url: String,
    _root_url: String,
}

impl View for YouTubeReporting {
    type V = HubView;

    closed spec fn view(&self) -> HubView {
        HubView {
            user_agent: self._user_agent@,
            base_url: self._base_url@,
            root_url: self._root_url@,
        }
    }
}

impl YouTubeReporting {
    /// A hub with the user agent of this library and the URLs of the service.
    pub fn new() -> (r: YouTubeReporting)
        ensures
            r@ == (HubView {
                user_agent: "google-api-rust-client/1.0.14"@,
                base_url: "https://youtubereporting.googleapis.com/"@,
                root_url: "https://youtubereporting.googleapis.com/"@,
            }),
    {
        YouTubeReporting {
            _user_agent: String::from_str("google-api-rust-client/1.0.14"),
            _base_url: String::from_str("https://youtubereporting.googleapis.com/"),
            _root_url: String::from_str("https://youtubereporting.googleapis.com/"),
        }
    }

    /// The methods on jobs and on their reports.
    pub fn jobs(&self) -> (r: JobMethods<'_>)
        ensures
            r@ == self@,
    {
        JobMethods::of(self)
    }

    /// The methods on media.
    pub fn media(&self) -> (r: MediaMethods<'_>)
        ensures
            r@ == self@,
    {
        MediaMethods::of(self)
    }

    /// The methods on report types.
    pub fn report_types(&self) -> (r: ReportTypeMethods<'_>)
        ensures
            r@ == self@,
    {
        ReportTypeMethods::of(self)
    }

    /// Sets the user agent of all requests, and returns the one that was
    /// set before.
    pub fn user_agent(&mut self, agent_name: String) -> (r: String)
        ensures
            r@ == old(self)@.user_agent,
            final(self)@ == (HubView { user_agent: agent_name@, ..old(self)@ }),
    {
        let mut name = agent_name;
        std::mem::swap(&mut self._user_agent, &mut name);
        name
    }

    /// Sets the base URL of all requests, and returns the one that was set
    /// before.
    pub fn base_url(&mut self, new_base_url: String) -> (r: String)
        ensures
            r@ == old(self)@.base_url,
            final(self)@ == (HubView { base_url: new_base_url@, ..old(self)@ }),
    {
        let mut url = new_base_url;
        std::mem::swap(&mut self._base_url, &mut url);
        url
    }

    /// Sets the root URL of the service, and returns the one that was set
    /// before.
    pub fn root_url(&mut self, new_root_url: String) -> (r: String)
        ensures
            r@ == old(self)@.root_url,
            final(self)@ == (HubView { root_url: new_root_url@, ..old(self)@ }),
    {
        let mut url = new_root_url;
        std::mem::swap(&mut self._root_url, &mut url);
        url
    }
}

} // verus!
