use google_apis::client::{Error, Method};
use google_apis::documentai1_beta2::{
    Document, GoogleCloudDocumentaiV1beta2InputConfig, GoogleLongrunningOperation, GoogleRpcStatus, Scope,
};
use google_apis::exchange::{Action, Event, Exchange, Header, HeaderName};

fn url_of(x: &Exchange) -> &str {
    x.request().url.as_str()
}

#[test]
fn documentai_scope_is_the_cloud_platform() {
    assert_eq!(Scope::CloudPlatform.as_ref(), "https://www.googleapis.com/auth/cloud-platform");
    assert_eq!(Scope::default(), Scope::CloudPlatform);
}

#[test]
fn documentai_hub_starts_with_the_urls_of_the_service() {
    let mut hub = Document::new();
    assert_eq!(hub.user_agent("x".to_string()), "google-api-rust-client/1.0.14");
    assert_eq!(hub.base_url("https://eu-documentai.googleapis.com/".to_string()), "https://documentai.googleapis.com/");
    assert_eq!(hub.root_url("r".to_string()), "https://documentai.googleapis.com/");
    assert_eq!(hub.root_url("s".to_string()), "r");
    let x = hub.projects().operations_get("projects/p/operations/o").doit().unwrap();
    assert_eq!(url_of(&x), "https://eu-documentai.googleapis.com/v1beta2/projects/p/operations/o?alt=json");
    assert_eq!(x.request().user_agent, "x");
}

#[test]
fn documents_process_posts_to_the_parent() {
    let hub = Document::new();
    let call = hub.projects().documents_process("the request", "projects/p/locations/us");
    assert_eq!(call.request_value(), &"the request");
    let info = call.method_info();
    assert_eq!(info.id, "documentai.projects.documents.process");
    assert_eq!(info.http_method, Method::Post);
    let mut x = call.doit(b"{\"a\":1}".to_vec()).unwrap();
    assert_eq!(
        url_of(&x),
        "https://documentai.googleapis.com/v1beta2/projects/p/locations/us/documents:process?alt=json"
    );
    assert_eq!(x.request().method, Method::Post);
    assert_eq!(x.scopes().names(), &vec!["https://www.googleapis.com/auth/cloud-platform".to_string()]);
    x.step(Event::Begin);
    assert_eq!(
        x.step(Event::TokenGranted("ya29".to_string())),
        Some(Action::Send(vec![
            Header { name: HeaderName::UserAgent, value: "google-api-rust-client/1.0.14".to_string() },
            Header { name: HeaderName::Authorization, value: "Bearer ya29".to_string() },
            Header { name: HeaderName::ContentType, value: "application/json".to_string() },
            Header { name: HeaderName::ContentLength, value: "7".to_string() },
        ]))
    );
}

#[test]
fn documents_process_escapes_the_parent() {
    let hub = Document::new();
    let x = hub
        .projects()
        .documents_process((), "p")
        .parent("projects/my project/locations/{eu}")
        .request(())
        .doit(Vec::new())
        .unwrap();
    assert_eq!(
        url_of(&x),
        "https://documentai.googleapis.com/v1beta2/projects/my%20project/locations/%7Beu%7D/documents:process?alt=json"
    );
}

#[test]
fn documents_batch_process_posts_to_the_parent() {
    let hub = Document::new();
    let call = hub.projects().documents_batch_process(vec![1u8, 2], "projects/p");
    assert_eq!(call.method_info().id, "documentai.projects.documents.batchProcess");
    assert_eq!(call.method_info().http_method, Method::Post);
    let call = call.request(vec![3u8]).parent("projects/q").param("key", "k");
    assert_eq!(call.request_value(), &vec![3u8]);
    let x = call.doit(b"[]".to_vec()).unwrap();
    assert_eq!(
        url_of(&x),
        "https://documentai.googleapis.com/v1beta2/projects/q/documents:batchProcess?key=k&alt=json"
    );
    assert_eq!(x.request().content.as_ref().unwrap().bytes, b"[]".to_vec());
}

#[test]
fn locations_documents_batch_process_posts_to_the_parent() {
    let hub = Document::new();
    let call = hub.projects().locations_documents_batch_process(0u8, "projects/p/locations/eu");
    assert_eq!(call.method_info().id, "documentai.projects.locations.documents.batchProcess");
    let x = call.request(1u8).doit(b"{}".to_vec()).unwrap();
    assert_eq!(
        url_of(&x),
        "https://documentai.googleapis.com/v1beta2/projects/p/locations/eu/documents:batchProcess?alt=json"
    );
    assert_eq!(x.request().method, Method::Post);
    let r = hub.projects().locations_documents_batch_process(0u8, "p").parent("q").param("parent", "r").doit(Vec::new());
    assert_eq!(r.err(), Some(Error::FieldClash("parent")));
}

#[test]
fn locations_documents_process_posts_to_the_parent() {
    let hub = Document::new();
    let call = hub.projects().locations_documents_process("r", "projects/p/locations/eu");
    assert_eq!(call.method_info().id, "documentai.projects.locations.documents.process");
    assert_eq!(call.method_info().http_method, Method::Post);
    let x = call.request("s").parent("projects/p/locations/us").doit(b"{}".to_vec()).unwrap();
    assert_eq!(
        url_of(&x),
        "https://documentai.googleapis.com/v1beta2/projects/p/locations/us/documents:process?alt=json"
    );
    let r = hub.projects().locations_documents_process("r", "p").param("alt", "proto").doit(Vec::new());
    assert_eq!(r.err(), Some(Error::FieldClash("alt")));
}

#[test]
fn operations_get_asks_for_the_operation_by_name() {
    let hub = Document::new();
    let call = hub.projects().operations_get("projects/p/operations/1");
    let info = call.method_info();
    assert_eq!(info.id, "documentai.projects.operations.get");
    assert_eq!(info.http_method, Method::Get);
    let x = call.name("projects/p/operations/2").doit().unwrap();
    assert_eq!(url_of(&x), "https://documentai.googleapis.com/v1beta2/projects/p/operations/2?alt=json");
    assert_eq!(x.request().content, None);
    let r = hub.projects().operations_get("o").param("name", "x").param("alt", "y").doit();
    assert_eq!(r.err(), Some(Error::FieldClash("alt")));
    let r = hub.projects().operations_get("o").param("name", "x").doit();
    assert_eq!(r.err(), Some(Error::FieldClash("name")));
}

#[test]
fn locations_operations_get_asks_for_the_operation_by_name() {
    let hub = Document::new();
    let call = hub.projects().locations_operations_get("projects/p/locations/eu/operations/1");
    assert_eq!(call.method_info().id, "documentai.projects.locations.operations.get");
    assert_eq!(call.method_info().http_method, Method::Get);
    let x = call
        .name("projects/p/locations/eu/operations/é")
        .add_scope(Some("https://www.googleapis.com/auth/other"))
        .add_scope(Some(Scope::CloudPlatform.as_ref()))
        .param("fields", "done")
        .doit()
        .unwrap();
    assert_eq!(
        url_of(&x),
        "https://documentai.googleapis.com/v1beta2/projects/p/locations/eu/operations/%C3%A9?fields=done&alt=json"
    );
    assert_eq!(
        x.scopes().names(),
        &vec![
            "https://www.googleapis.com/auth/cloud-platform".to_string(),
            "https://www.googleapis.com/auth/other".to_string(),
        ]
    );
}

#[test]
fn documentai_base_url_that_is_not_absolute_is_an_error() {
    let mut hub = Document::new();
    hub.base_url(String::new());
    assert_eq!(hub.projects().operations_get("o").doit().err(), Some(Error::InvalidUrl));
    assert_eq!(hub.projects().documents_process((), "p").doit(Vec::new()).err(), Some(Error::InvalidUrl));
}

#[test]
fn documentai_records_start_empty() {
    let op = GoogleLongrunningOperation::default();
    assert_eq!(op.done, None);
    assert_eq!(op.error, None);
    assert_eq!(op.metadata, None);
    let mut status = GoogleRpcStatus::default();
    status.code = Some(5);
    status.message = Some("not found".to_string());
    let mut failed = GoogleLongrunningOperation::default();
    failed.error = Some(status.clone());
    assert_eq!(failed.clone().error, Some(status));
    let input = GoogleCloudDocumentaiV1beta2InputConfig::default();
    assert_eq!(input.mime_type, None);
    assert_eq!(input.gcs_source, None);
}

#[test]
fn documentai_call_that_is_too_long_for_a_url_is_an_error() {
    let hub = Document::new();
    let long = "p".repeat(1_048_576);
    assert_eq!(hub.projects().operations_get(&long).doit().err(), Some(Error::UrlTooLong));
    assert_eq!(hub.projects().documents_process((), &long).doit(Vec::new()).err(), Some(Error::UrlTooLong));
    // the escaped value counts: a third of the limit in spaces is too long
    let spaces = " ".repeat(400_000);
    assert_eq!(hub.projects().operations_get(&spaces).doit().err(), Some(Error::UrlTooLong));
    assert!(hub.projects().operations_get(&" ".repeat(300_000)).doit().is_ok());
    let call = hub.projects().locations_operations_get("n").param("k", "v");
    call.well_formed();
    assert!(call.doit().is_ok());
}
