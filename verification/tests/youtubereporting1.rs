use google_apis::client::{Error, Method};
use google_apis::exchange::{Action, Event, Exchange, Phase, Success};
use google_apis::youtubereporting1::{Job, ListJobsResponse, Report, Scope, YouTubeReporting};

fn url_of(x: &Exchange) -> &str {
    x.request().url.as_str()
}

fn scopes_of(x: &Exchange) -> Vec<String> {
    x.scopes().names().clone()
}

#[test]
fn youtube_scopes_are_urls() {
    assert_eq!(
        Scope::YtAnalyticMonetaryReadonly.as_ref(),
        "https://www.googleapis.com/auth/yt-analytics-monetary.readonly"
    );
    assert_eq!(Scope::YtAnalyticReadonly.as_ref(), "https://www.googleapis.com/auth/yt-analytics.readonly");
    assert_eq!(Scope::default(), Scope::YtAnalyticMonetaryReadonly);
}

#[test]
fn youtube_hub_starts_with_the_urls_of_the_service() {
    let mut hub = YouTubeReporting::new();
    assert_eq!(hub.user_agent("me/2".to_string()), "google-api-rust-client/1.0.14");
    assert_eq!(hub.user_agent("me/3".to_string()), "me/2");
    assert_eq!(hub.base_url("https://b/".to_string()), "https://youtubereporting.googleapis.com/");
    assert_eq!(hub.base_url("https://c/".to_string()), "https://b/");
    assert_eq!(hub.root_url("https://r/".to_string()), "https://youtubereporting.googleapis.com/");
    assert_eq!(hub.root_url("https://s/".to_string()), "https://r/");
    let x = hub.jobs().list().doit().unwrap();
    assert_eq!(url_of(&x), "https://c/v1/jobs?alt=json");
    assert_eq!(x.request().user_agent, "me/3");
}

#[test]
fn reports_get_puts_both_ids_into_the_path() {
    let hub = YouTubeReporting::new();
    let call = hub.jobs().reports_get("jobId", "reportId").on_behalf_of_content_owner("ipsum");
    let info = call.method_info();
    assert_eq!(info.id, "youtubereporting.jobs.reports.get");
    assert_eq!(info.http_method, Method::Get);
    let x = call.doit().unwrap();
    assert_eq!(
        url_of(&x),
        "https://youtubereporting.googleapis.com/v1/jobs/jobId/reports/reportId?onBehalfOfContentOwner=ipsum&alt=json"
    );
    assert_eq!(x.request().method, Method::Get);
    assert_eq!(x.request().user_agent, "google-api-rust-client/1.0.14");
    assert_eq!(x.request().content, None);
    assert!(x.decode());
    assert_eq!(x.phase(), Phase::Ready);
    assert_eq!(scopes_of(&x), vec![Scope::YtAnalyticMonetaryReadonly.as_ref().to_string()]);
}

#[test]
fn reports_get_setters_replace_the_ids() {
    let hub = YouTubeReporting::new();
    let x = hub.jobs().reports_get("a", "b").job_id("j2").report_id("r2").doit().unwrap();
    assert_eq!(url_of(&x), "https://youtubereporting.googleapis.com/v1/jobs/j2/reports/r2?alt=json");
}

#[test]
fn reports_get_clashes_in_the_order_of_its_parameters() {
    let hub = YouTubeReporting::new();
    let c = hub.jobs().reports_get("j", "r").param("onBehalfOfContentOwner", "x").param("reportId", "y");
    assert_eq!(c.doit().err(), Some(Error::FieldClash("reportId")));
    let c = hub.jobs().reports_get("j", "r").param("onBehalfOfContentOwner", "x");
    assert_eq!(c.doit().err(), Some(Error::FieldClash("onBehalfOfContentOwner")));
    let c = hub.jobs().reports_get("j", "r").param("jobId", "x").param("alt", "media");
    assert_eq!(c.doit().err(), Some(Error::FieldClash("alt")));
}

#[test]
fn reports_list_sends_what_was_set_in_the_order_of_the_method() {
    let hub = YouTubeReporting::new();
    let call = hub
        .jobs()
        .reports_list("jobId")
        .created_after("invidunt")
        .on_behalf_of_content_owner("ipsum")
        .page_size(-17)
        .page_token("dolor")
        .start_time_at_or_after("eos")
        .start_time_before("gubergren");
    assert_eq!(call.method_info().id, "youtubereporting.jobs.reports.list");
    let x = call.doit().unwrap();
    assert_eq!(
        url_of(&x),
        "https://youtubereporting.googleapis.com/v1/jobs/jobId/reports?startTimeBefore=gubergren&startTimeAtOrAfter=eos&pageToken=dolor&pageSize=-17&onBehalfOfContentOwner=ipsum&createdAfter=invidunt&alt=json"
    );
}

#[test]
fn reports_list_with_only_the_job() {
    let hub = YouTubeReporting::new();
    let x = hub.jobs().reports_list("j").job_id("k").doit().unwrap();
    assert_eq!(url_of(&x), "https://youtubereporting.googleapis.com/v1/jobs/k/reports?alt=json");
}

#[test]
fn reports_list_clashes_on_each_of_its_names() {
    let hub = YouTubeReporting::new();
    for name in [
        "alt",
        "jobId",
        "startTimeBefore",
        "startTimeAtOrAfter",
        "pageToken",
        "pageSize",
        "onBehalfOfContentOwner",
        "createdAfter",
    ] {
        let r = hub.jobs().reports_list("j").param(name, "v").doit();
        assert_eq!(r.err(), Some(Error::FieldClash(name)));
    }
}

#[test]
fn create_is_a_post_with_the_body() {
    let hub = YouTubeReporting::new();
    let mut job = Job::default();
    job.name = Some("weekly".to_string());
    let call = hub.jobs().create(job.clone()).on_behalf_of_content_owner("owner");
    assert_eq!(call.request_value(), &job);
    let info = call.method_info();
    assert_eq!(info.id, "youtubereporting.jobs.create");
    assert_eq!(info.http_method, Method::Post);
    let x = call.doit(b"{\"name\":\"weekly\"}".to_vec()).unwrap();
    assert_eq!(
        url_of(&x),
        "https://youtubereporting.googleapis.com/v1/jobs?onBehalfOfContentOwner=owner&alt=json"
    );
    assert_eq!(x.request().method, Method::Post);
    let content = x.request().content.as_ref().unwrap();
    assert_eq!(content.media_type, "application/json");
    assert_eq!(content.bytes, b"{\"name\":\"weekly\"}".to_vec());
}

#[test]
fn create_takes_a_new_request() {
    let hub = YouTubeReporting::new();
    let mut other = Job::default();
    other.report_type_id = Some("channel_basic_a2".to_string());
    let call = hub.jobs().create(Job::default()).request(other.clone());
    assert_eq!(call.request_value(), &other);
    assert_eq!(
        hub.jobs().create(Job::default()).param("alt", "x").doit(Vec::new()).err(),
        Some(Error::FieldClash("alt"))
    );
}

#[test]
fn delete_is_a_delete() {
    let hub = YouTubeReporting::new();
    let call = hub.jobs().delete("j").job_id("gone").on_behalf_of_content_owner("o");
    let info = call.method_info();
    assert_eq!(info.id, "youtubereporting.jobs.delete");
    assert_eq!(info.http_method, Method::Delete);
    let x = call.doit().unwrap();
    assert_eq!(x.request().method, Method::Delete);
    assert_eq!(
        url_of(&x),
        "https://youtubereporting.googleapis.com/v1/jobs/gone?onBehalfOfContentOwner=o&alt=json"
    );
    assert_eq!(hub.jobs().delete("j").param("jobId", "k").doit().err(), Some(Error::FieldClash("jobId")));
}

#[test]
fn get_asks_for_one_job() {
    let hub = YouTubeReporting::new();
    let call = hub.jobs().get("j1");
    assert_eq!(call.method_info().id, "youtubereporting.jobs.get");
    let x = call.param("fields", "id").doit().unwrap();
    assert_eq!(url_of(&x), "https://youtubereporting.googleapis.com/v1/jobs/j1?fields=id&alt=json");
    let x = hub.jobs().get("j1").job_id("j2").on_behalf_of_content_owner("o").doit().unwrap();
    assert_eq!(
        url_of(&x),
        "https://youtubereporting.googleapis.com/v1/jobs/j2?onBehalfOfContentOwner=o&alt=json"
    );
}

#[test]
fn list_jobs_with_all_settings() {
    let hub = YouTubeReporting::new();
    let call = hub
        .jobs()
        .list()
        .include_system_managed(true)
        .on_behalf_of_content_owner("o")
        .page_size(25)
        .page_token("next");
    assert_eq!(call.method_info().id, "youtubereporting.jobs.list");
    let x = call.doit().unwrap();
    assert_eq!(
        url_of(&x),
        "https://youtubereporting.googleapis.com/v1/jobs?pageToken=next&pageSize=25&onBehalfOfContentOwner=o&includeSystemManaged=true&alt=json"
    );
    let x = hub.jobs().list().include_system_managed(false).doit().unwrap();
    assert_eq!(url_of(&x), "https://youtubereporting.googleapis.com/v1/jobs?includeSystemManaged=false&alt=json");
    assert_eq!(
        hub.jobs().list().param("includeSystemManaged", "x").doit().err(),
        Some(Error::FieldClash("includeSystemManaged"))
    );
}

#[test]
fn list_report_types_with_all_settings() {
    let hub = YouTubeReporting::new();
    let call = hub
        .report_types()
        .list()
        .page_token("t")
        .page_size(i32::MIN)
        .on_behalf_of_content_owner("o")
        .include_system_managed(true);
    assert_eq!(call.method_info().id, "youtubereporting.reportTypes.list");
    let x = call.doit().unwrap();
    assert_eq!(
        url_of(&x),
        "https://youtubereporting.googleapis.com/v1/reportTypes?pageToken=t&pageSize=-2147483648&onBehalfOfContentOwner=o&includeSystemManaged=true&alt=json"
    );
    assert_eq!(
        hub.report_types().list().param("pageToken", "x").param("pageSize", "1").doit().err(),
        Some(Error::FieldClash("pageToken"))
    );
}

#[test]
fn download_escapes_the_name_and_decodes_json() {
    let hub = YouTubeReporting::new();
    let call = hub.media().download("resourceName").resource_name("CHANNEL/a b/report?1");
    let info = call.method_info();
    assert_eq!(info.id, "youtubereporting.media.download");
    assert_eq!(info.http_method, Method::Get);
    let x = call.doit().unwrap();
    assert_eq!(url_of(&x), "https://youtubereporting.googleapis.com/v1/media/CHANNEL/a%20b/report%3F1?alt=json");
    assert!(x.decode());
}

#[test]
fn download_of_the_data_itself_is_not_decoded() {
    let hub = YouTubeReporting::new();
    let mut x = hub.media().download("r").param("alt", "media").doit().unwrap();
    assert_eq!(url_of(&x), "https://youtubereporting.googleapis.com/v1/media/r?alt=media");
    assert!(!x.decode());
    x.step(Event::Begin);
    x.step(Event::TokenGranted("t".to_string()));
    assert_eq!(x.step(Event::Responded(200)), Some(Action::Finish(Ok(Success::Undecoded))));
}

#[test]
fn download_clashes_only_on_the_name_of_the_media() {
    let hub = YouTubeReporting::new();
    assert_eq!(
        hub.media().download("r").param("resourceName", "s").doit().err(),
        Some(Error::FieldClash("resourceName"))
    );
    assert!(hub.media().download("r").param("alt", "json").doit().is_ok());
}

#[test]
fn scopes_of_a_call_are_a_set_in_order() {
    let hub = YouTubeReporting::new();
    let x = hub
        .jobs()
        .list()
        .add_scope(Some(Scope::YtAnalyticReadonly.as_ref()))
        .add_scope(None)
        .add_scope(Some(Scope::YtAnalyticMonetaryReadonly.as_ref()))
        .add_scope(Some(Scope::YtAnalyticReadonly.as_ref()))
        .doit()
        .unwrap();
    assert_eq!(
        scopes_of(&x),
        vec![
            "https://www.googleapis.com/auth/yt-analytics-monetary.readonly".to_string(),
            "https://www.googleapis.com/auth/yt-analytics.readonly".to_string(),
        ]
    );
    let x = hub.jobs().list().add_scope(Some(Scope::YtAnalyticReadonly.as_ref())).doit().unwrap();
    assert_eq!(scopes_of(&x), vec!["https://www.googleapis.com/auth/yt-analytics.readonly".to_string()]);
    let x = hub.jobs().list().add_scope(None).doit().unwrap();
    assert_eq!(scopes_of(&x), vec!["https://www.googleapis.com/auth/yt-analytics-monetary.readonly".to_string()]);
}

#[test]
fn additional_parameters_go_between_the_settings_and_alt() {
    let hub = YouTubeReporting::new();
    let x = hub
        .jobs()
        .list()
        .page_size(5)
        .param("key", "k")
        .param("prettyPrint", "true")
        .param("key", "k2")
        .doit()
        .unwrap();
    assert_eq!(
        url_of(&x),
        "https://youtubereporting.googleapis.com/v1/jobs?pageSize=5&key=k2&prettyPrint=true&alt=json"
    );
}

#[test]
fn a_base_url_that_is_not_absolute_is_an_error() {
    let mut hub = YouTubeReporting::new();
    hub.base_url("youtubereporting.googleapis.com/".to_string());
    assert_eq!(hub.jobs().list().doit().err(), Some(Error::InvalidUrl));
    assert_eq!(hub.jobs().get("j").doit().err(), Some(Error::InvalidUrl));
    // the clash is found before the URL is looked at
    assert_eq!(hub.jobs().list().param("alt", "x").doit().err(), Some(Error::FieldClash("alt")));
}

#[test]
fn records_start_empty() {
    let job = Job::default();
    assert_eq!(job.id, None);
    assert_eq!(job.system_managed, None);
    let report = Report::default();
    assert_eq!(report.download_url, None);
    let list = ListJobsResponse::default();
    assert_eq!(list.jobs, None);
    assert_eq!(list.next_page_token, None);
    let mut filled = ListJobsResponse::default();
    filled.jobs = Some(vec![job.clone()]);
    assert_eq!(filled.clone().jobs.unwrap().len(), 1);
}

#[test]
fn values_of_the_query_are_form_encoded() {
    let hub = YouTubeReporting::new();
    let x = hub
        .jobs()
        .list()
        .page_token("a b+c/d")
        .on_behalf_of_content_owner("é=ü&")
        .param("quotaUser", "50%")
        .doit()
        .unwrap();
    assert_eq!(
        url_of(&x),
        "https://youtubereporting.googleapis.com/v1/jobs?pageToken=a+b%2Bc%2Fd&onBehalfOfContentOwner=%C3%A9%3D%C3%BC%26&quotaUser=50%25&alt=json"
    );
}

#[test]
fn a_call_that_is_too_long_for_a_url_is_an_error() {
    let hub = YouTubeReporting::new();
    let long = "x".repeat(1_048_576);
    assert_eq!(hub.jobs().get(&long).doit().err(), Some(Error::UrlTooLong));
    assert_eq!(hub.jobs().list().page_token(&long).doit().err(), Some(Error::UrlTooLong));
    assert_eq!(hub.jobs().list().param("key", &long).doit().err(), Some(Error::UrlTooLong));
    assert_eq!(hub.media().download(&long).doit().err(), Some(Error::UrlTooLong));
    assert_eq!(hub.jobs().create(Job::default()).param(&long, "v").doit(Vec::new()).err(), Some(Error::UrlTooLong));
    // the body does not count
    assert!(hub.jobs().create(Job::default()).doit(vec![b' '; 2_000_000]).is_ok());
    // what is a little shorter goes through
    let shorter = "x".repeat(1_000_000);
    assert!(hub.jobs().get(&shorter).doit().is_ok());
    let mut hub = YouTubeReporting::new();
    hub.base_url("https://host/".to_string() + &long + "/");
    assert_eq!(hub.jobs().list().doit().err(), Some(Error::UrlTooLong));
}

#[test]
fn builders_can_be_asked_to_call_their_invariants_to_mind() {
    let hub = YouTubeReporting::new();
    let call = hub.jobs().list().param("a", "1").param("a", "2").add_scope(Some("s")).add_scope(Some("r"));
    call.well_formed();
    let x = call.doit().unwrap();
    assert_eq!(x.request().url, "https://youtubereporting.googleapis.com/v1/jobs?a=2&alt=json");
    assert_eq!(x.scopes().names(), &vec!["r".to_string(), "s".to_string()]);
    hub.media().download("r").well_formed();
    hub.report_types().list().well_formed();
    hub.jobs().get("j").well_formed();
}
