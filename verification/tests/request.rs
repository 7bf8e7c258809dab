use google_apis::client::{Error, Method};
use google_apis::params::Params;
use google_apis::request::{draft, Route};

fn pair(name: &str, value: &str) -> (String, String) {
    (name.to_string(), value.to_string())
}

fn report_route() -> Route {
    Route {
        id: "youtubereporting.jobs.reports.get",
        method: Method::Get,
        path: "v1/jobs/{jobId}/reports/{reportId}",
        reserved: vec!["alt", "jobId", "reportId", "onBehalfOfContentOwner"],
        markers: vec![("{jobId}", "jobId"), ("{reportId}", "reportId")],
        dropped: vec!["reportId", "jobId"],
        serves_media: false,
    }
}

fn parent_route() -> Route {
    Route {
        id: "documentai.projects.documents.process",
        method: Method::Post,
        path: "v1beta2/{+parent}/documents:process",
        reserved: vec!["alt", "parent"],
        markers: vec![("{+parent}", "parent")],
        dropped: vec!["parent"],
        serves_media: false,
    }
}

#[test]
fn draft_fills_the_path_and_keeps_the_rest_in_the_query() {
    let named = vec![pair("jobId", "j1"), pair("reportId", "r1"), pair("onBehalfOfContentOwner", "me")];
    let extra = Params::new().insert("key", "secret");
    let d = draft(&report_route(), "https://host/", named, &extra).unwrap();
    assert_eq!(d.address, "https://host/v1/jobs/j1/reports/r1");
    assert_eq!(
        d.query,
        vec![pair("onBehalfOfContentOwner", "me"), pair("key", "secret"), pair("alt", "json")]
    );
    assert!(d.decode);
}

#[test]
fn draft_reports_the_first_reserved_name_that_clashes() {
    let named = vec![pair("jobId", "j1"), pair("reportId", "r1")];
    let extra = Params::new().insert("reportId", "x").insert("alt", "media").insert("jobId", "y");
    match draft(&report_route(), "https://host/", named, &extra) {
        Err(e) => assert_eq!(e, Error::FieldClash("alt")),
        Ok(_) => panic!("a clash was expected"),
    }
    let named = vec![pair("jobId", "j1"), pair("reportId", "r1")];
    let extra = Params::new().insert("reportId", "x").insert("jobId", "y");
    match draft(&report_route(), "https://host/", named, &extra) {
        Err(e) => assert_eq!(e, Error::FieldClash("jobId")),
        Ok(_) => panic!("a clash was expected"),
    }
}

#[test]
fn draft_escapes_the_value_of_a_plus_marker() {
    let named = vec![pair("parent", "projects/my project/locations/us?x{y}")];
    let d = draft(&parent_route(), "https://documentai.googleapis.com/", named, &Params::new()).unwrap();
    assert_eq!(
        d.address,
        "https://documentai.googleapis.com/v1beta2/projects/my%20project/locations/us%3Fx%7By%7D/documents:process"
    );
    assert_eq!(d.query, vec![pair("alt", "json")]);
}

#[test]
fn draft_escapes_bytes_beyond_ascii_and_controls() {
    let named = vec![pair("parent", "é\n\"#<>`~")];
    let d = draft(&parent_route(), "b/", named, &Params::new()).unwrap();
    assert_eq!(d.address, "b/v1beta2/%C3%A9%0A%22%23%3C%3E%60~/documents:process");
}

#[test]
fn draft_does_not_escape_for_a_plain_marker() {
    let named = vec![pair("jobId", "a b"), pair("reportId", "c?d")];
    let d = draft(&report_route(), "", named, &Params::new()).unwrap();
    assert_eq!(d.address, "v1/jobs/a b/reports/c?d");
}

#[test]
fn draft_replaces_every_occurrence_of_a_marker() {
    let route = Route {
        id: "x",
        method: Method::Get,
        path: "{a}/{a}{a}/{b}",
        reserved: vec![],
        markers: vec![("{a}", "a"), ("{b}", "b")],
        dropped: vec!["a"],
        serves_media: false,
    };
    let named = vec![pair("a", "1"), pair("a", "2"), pair("c", "3")];
    let d = draft(&route, "", named, &Params::new()).unwrap();
    // the first `a` fills the markers and leaves the query; `b` has no value
    assert_eq!(d.address, "1/11/");
    assert_eq!(d.query, vec![pair("a", "2"), pair("c", "3"), pair("alt", "json")]);
}

#[test]
fn draft_leaves_an_alt_of_the_caller_alone() {
    let route = Route {
        id: "youtubereporting.media.download",
        method: Method::Get,
        path: "v1/media/{+resourceName}",
        reserved: vec!["resourceName"],
        markers: vec![("{+resourceName}", "resourceName")],
        dropped: vec!["resourceName"],
        serves_media: true,
    };
    let extra = Params::new().insert("alt", "media");
    let d = draft(&route, "h/", vec![pair("resourceName", "r")], &extra).unwrap();
    assert_eq!(d.query, vec![pair("alt", "media")]);
    assert!(!d.decode);
    let extra = Params::new().insert("alt", "json");
    let d = draft(&route, "h/", vec![pair("resourceName", "r")], &extra).unwrap();
    assert_eq!(d.query, vec![pair("alt", "json")]);
    assert!(d.decode);
}

#[test]
fn only_a_method_that_serves_media_looks_for_alt() {
    let route = Route {
        id: "x",
        method: Method::Get,
        path: "p",
        reserved: vec![],
        markers: vec![],
        dropped: vec![],
        serves_media: false,
    };
    let extra = Params::new().insert("alt", "media");
    let d = draft(&route, "h/", vec![], &extra).unwrap();
    assert_eq!(d.query, vec![pair("alt", "media"), pair("alt", "json")]);
    assert!(d.decode);
}

#[test]
fn a_value_that_holds_a_later_marker_is_expanded_again() {
    let named = vec![pair("jobId", "{reportId}"), pair("reportId", "r")];
    let d = draft(&report_route(), "", named, &Params::new()).unwrap();
    assert_eq!(d.address, "v1/jobs/r/reports/r");
}
