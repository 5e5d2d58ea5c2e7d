use cloudflare::framework::{async_api, auth::Credentials, Environment, HttpApiClientConfig};
use kuso_subdomain_adder::label::LabelError;
use kuso_subdomain_adder::provider::{CloudflareClient, ProviderClient, ProviderFailure};
use kuso_subdomain_adder::record::{RecordData, RecordError};
use kuso_subdomain_adder::site::{public_url, Data, Output};
use kuso_subdomain_adder::subdomain::{
    match_listing, AddError, DeleteAction, DeleteOutcome, DeleteStage, ListVerdict,
    Subdomain, PARENT_DOMAIN, REDIRECT_HOST, TXT_PREFIX,
};

fn http_failure() -> ProviderFailure {
    ProviderFailure::Http { status: 400, body: "bad request".to_string() }
}

#[test]
fn add_issues_cname_then_txt() {
    let mut w = kuso_subdomain_adder::subdomain::add("test", "https://example.com").unwrap();
    assert_eq!(w.label, "test");

    let first = w.next_record().unwrap().clone();
    assert_eq!(first.owner, "test");
    assert_eq!(first.ttl, 0);
    assert_eq!(first.data, RecordData::Cname { target: "redirect.kuso.domains".to_string() });
    w.record_outcome(Ok(()));
    assert!(!w.is_finished());

    let second = w.next_record().unwrap().clone();
    assert_eq!(second.owner, "_kuso-domains-to.test");
    assert_eq!(second.data, RecordData::Txt { text: "https://example.com".to_string() });
    w.record_outcome(Ok(()));

    assert!(w.is_finished());
    assert!(w.next_record().is_none());
    assert_eq!(w.outcomes, vec![Ok(()), Ok(())]);
}

#[test]
fn add_non_ascii_label_uses_encoded_name() {
    let w = kuso_subdomain_adder::subdomain::add("日本語", "https://example.com").unwrap();
    assert!(w.label.starts_with("xn--"));
    assert_eq!(w.label, "xn--wgv71a119e");
    assert_eq!(w.cname.owner, "xn--wgv71a119e");
    assert_eq!(w.txt.owner, "_kuso-domains-to.xn--wgv71a119e");
}

#[test]
fn failed_cname_create_still_attempts_txt() {
    let mut w = kuso_subdomain_adder::subdomain::add("test", "https://example.com").unwrap();
    w.record_outcome(Err(ProviderFailure::Transport { message: "connection refused".to_string() }));
    let next = w.next_record().unwrap();
    assert_eq!(next.owner, "_kuso-domains-to.test");
    w.record_outcome(Err(http_failure()));
    assert!(w.is_finished());
    assert_eq!(w.outcomes.len(), 2);
    assert!(w.outcomes.iter().all(|o| o.is_err()));
}

#[test]
fn add_ignores_reports_after_finishing() {
    let mut w = kuso_subdomain_adder::subdomain::add("x", "u").unwrap();
    w.record_outcome(Ok(()));
    w.record_outcome(Ok(()));
    w.record_outcome(Err(http_failure()));
    assert_eq!(w.outcomes, vec![Ok(()), Ok(())]);
}

#[test]
fn add_accepts_any_url_text() {
    let w = kuso_subdomain_adder::subdomain::add("x", "not a url at all").unwrap();
    assert_eq!(w.txt.data, RecordData::Txt { text: "not a url at all".to_string() });
}

#[test]
fn add_rejects_unencodable_label() {
    let long = "é".repeat(1001);
    let r = kuso_subdomain_adder::subdomain::add(&long, "https://example.com");
    assert_eq!(r.err(), Some(AddError::Label(LabelError::Unencodable)));
}

#[test]
fn add_rejects_overlong_target() {
    let url = "a".repeat(70000);
    let r = kuso_subdomain_adder::subdomain::add("test", &url);
    assert_eq!(r.err(), Some(AddError::Record(RecordError::TxtTooLong)));
}

#[test]
fn constants() {
    assert_eq!(REDIRECT_HOST, "redirect.kuso.domains");
    assert_eq!(TXT_PREFIX, "_kuso-domains-to.");
    assert_eq!(PARENT_DOMAIN, "teleka.su");
}

#[test]
fn listing_verdicts() {
    assert_eq!(match_listing(&vec![]), ListVerdict::Absent);
    assert_eq!(match_listing(&vec!["id1".to_string()]), ListVerdict::Single("id1".to_string()));
    assert_eq!(
        match_listing(&vec!["id1".to_string(), "id2".to_string(), "id3".to_string()]),
        ListVerdict::Ambiguous(3)
    );
}

#[test]
fn delete_names_cname_then_txt() {
    let w = kuso_subdomain_adder::subdomain::delete("test").unwrap();
    assert_eq!(w.names, vec!["test.teleka.su".to_string(), "_kuso-domains-to.test.teleka.su".to_string()]);
    assert_eq!(w.next_action(), DeleteAction::List("test.teleka.su".to_string()));
}

#[test]
fn delete_removes_single_matches() {
    let mut w = kuso_subdomain_adder::subdomain::delete("test").unwrap();
    w.record_listing(Ok(vec!["c1".to_string()]));
    assert_eq!(
        w.next_action(),
        DeleteAction::Remove { name: "test.teleka.su".to_string(), id: "c1".to_string() }
    );
    w.record_removal(Ok(()));
    assert_eq!(w.next_action(), DeleteAction::List("_kuso-domains-to.test.teleka.su".to_string()));
    w.record_listing(Ok(vec!["t1".to_string()]));
    assert_eq!(
        w.next_action(),
        DeleteAction::Remove { name: "_kuso-domains-to.test.teleka.su".to_string(), id: "t1".to_string() }
    );
    w.record_removal(Err(http_failure()));
    assert_eq!(w.next_action(), DeleteAction::Finish);
    assert!(w.is_finished());
    assert_eq!(w.outcomes, vec![DeleteOutcome::Deleted, DeleteOutcome::DeleteFailed(http_failure())]);
}

#[test]
fn delete_with_no_matches_never_removes() {
    let mut w = kuso_subdomain_adder::subdomain::delete("gone").unwrap();
    w.record_listing(Ok(vec![]));
    assert_eq!(w.next_action(), DeleteAction::List("_kuso-domains-to.gone.teleka.su".to_string()));
    w.record_listing(Ok(vec![]));
    assert_eq!(w.next_action(), DeleteAction::Finish);
    assert_eq!(w.outcomes, vec![DeleteOutcome::Absent, DeleteOutcome::Absent]);
}

#[test]
fn delete_with_duplicate_records_halts() {
    let mut w = kuso_subdomain_adder::subdomain::delete("dup").unwrap();
    w.record_listing(Ok(vec!["a".to_string(), "b".to_string()]));
    assert_eq!(w.stage, DeleteStage::Halted);
    assert_eq!(w.next_action(), DeleteAction::Finish);
    assert_eq!(w.outcomes, vec![DeleteOutcome::Ambiguous(2)]);
    w.record_removal(Ok(()));
    w.record_listing(Ok(vec!["a".to_string()]));
    assert_eq!(w.next_action(), DeleteAction::Finish);
    assert_eq!(w.outcomes, vec![DeleteOutcome::Ambiguous(2)]);
}

#[test]
fn delete_continues_after_listing_failure() {
    let mut w = kuso_subdomain_adder::subdomain::delete("test").unwrap();
    w.record_listing(Err(ProviderFailure::Transport { message: "timeout".to_string() }));
    assert_eq!(w.next_action(), DeleteAction::List("_kuso-domains-to.test.teleka.su".to_string()));
    assert_eq!(
        w.outcomes,
        vec![DeleteOutcome::ListFailed(ProviderFailure::Transport { message: "timeout".to_string() })]
    );
}

#[test]
fn delete_ignores_out_of_turn_reports() {
    let mut w = kuso_subdomain_adder::subdomain::delete("test").unwrap();
    w.record_removal(Ok(()));
    assert_eq!(w.current, 0);
    assert_eq!(w.stage, DeleteStage::Listing);
    assert!(w.outcomes.is_empty());
}

#[test]
fn delete_non_ascii_label_uses_encoded_name() {
    let w = kuso_subdomain_adder::subdomain::delete("日本語").unwrap();
    assert_eq!(w.names[0], "xn--wgv71a119e.teleka.su");
    assert_eq!(w.names[1], "_kuso-domains-to.xn--wgv71a119e.teleka.su");
}

#[test]
fn delete_rejects_unencodable_label() {
    let long = "é".repeat(1001);
    assert_eq!(kuso_subdomain_adder::subdomain::delete(&long).err(), Some(LabelError::Unencodable));
}

#[test]
fn public_urls() {
    assert_eq!(public_url("test"), "http://test.teleka.su");
    let out = Output::new("xn--wgv71a119e", "日本語");
    assert_eq!(out.url, "http://xn--wgv71a119e.teleka.su");
    assert_eq!(out.url_visual, "http://日本語.teleka.su");
}

#[test]
fn data_keeps_last_result() {
    let client = async_api::Client::new(
        Credentials::UserAuthToken { token: "t".to_string() },
        HttpApiClientConfig::default(),
        Environment::Production,
    )
    .unwrap();
    let mut data = Data::new(ProviderClient::Cloudflare(CloudflareClient {
        client,
        zone_identifier: "zone".to_string(),
    }));
    assert!(data.subdomain.is_none());
    assert!(data.output.is_none());

    let request = Subdomain { subdomain: "日本語".to_string(), url: "https://example.com".to_string() };
    data.record_result(request.clone(), "xn--wgv71a119e");
    assert_eq!(data.subdomain, Some(request));
    assert_eq!(
        data.output,
        Some(Output {
            url: "http://xn--wgv71a119e.teleka.su".to_string(),
            url_visual: "http://日本語.teleka.su".to_string(),
        })
    );
}
