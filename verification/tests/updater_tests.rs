use cf_ddns::config::{Config, ConfigError, Variable};
use cf_ddns::messages::Message;
use cf_ddns::records::{DnsRecord, DnsRecordsListResponse, IpifyResponse, UpdateDnsRecord};
use cf_ddns::status::HttpStatus;
use cf_ddns::protocol::{Action, Event, PatchRequest, Step};
use cf_ddns::updater::{check_subdomain, Updater};

fn some(text: &str) -> Option<String> {
    Some(text.to_string())
}

fn record(id: &str, name: &str, content: &str, ttl: u32, proxied: bool) -> DnsRecord {
    DnsRecord {
        content: content.to_string(),
        id: id.to_string(),
        name: name.to_string(),
        ttl,
        proxied,
    }
}

fn status(code: u16) -> Event {
    Event::Responded(HttpStatus::new(code).unwrap())
}

fn resolved(ip: &str) -> Event {
    Event::IpResolved(IpifyResponse { ip: ip.to_string() })
}

fn listed(records: Vec<DnsRecord>) -> Event {
    Event::RecordsListed(DnsRecordsListResponse { result: records })
}

fn checking(domain: &str) -> Message {
    Message::CheckingDomain { domain: domain.to_string() }
}

fn patch(id: &str, name: &str, content: &str, ttl: u32, proxied: bool) -> Action {
    Action::Patch(PatchRequest {
        url: format!("https://api.cloudflare.com/client/v4/zones/zone/dns_records/{}", id),
        token: "token".to_string(),
        payload: UpdateDnsRecord {
            record_type: "A".to_string(),
            name: name.to_string(),
            content: content.to_string(),
            ttl,
            proxied,
        },
    })
}

/// Runs the machine up to the listing of `records`, and gives the step that
/// answers the listing.
fn run_to_checks(names: &str, ip: &str, records: Vec<DnsRecord>) -> (Updater, Step) {
    let (updater, step) =
        Updater::start(some("token"), some("zone"), some("example.com"), some(names)).unwrap();
    assert_eq!(step.messages, vec![Message::ConfigLoaded]);
    assert_eq!(step.action, Action::GetIp { url: "https://api.ipify.org?format=json".to_string() });
    let (updater, step) = updater.advance(status(200));
    assert_eq!(step, Step { messages: vec![], action: Action::ReadIp });
    let (updater, step) = updater.advance(resolved(ip));
    assert_eq!(step.messages, vec![Message::CurrentIp { ip: ip.to_string() }]);
    assert_eq!(
        step.action,
        Action::ListRecords {
            url: "https://api.cloudflare.com/client/v4/zones/zone/dns_records/?type=A"
                .to_string(),
            token: "token".to_string(),
        }
    );
    let (updater, step) = updater.advance(status(200));
    assert_eq!(step, Step { messages: vec![], action: Action::ReadRecords });
    updater.advance(listed(records))
}

#[test]
fn one_record_differs_and_one_is_current() {
    let records = vec![
        record("r1", "www.example.com", "1.2.3.3", 300, false),
        record("r2", "*.example.com", "1.2.3.4", 300, true),
    ];
    let (updater, step) = run_to_checks("www,*", "1.2.3.4", records);
    assert_eq!(
        step.messages,
        vec![
            Message::CheckingSubdomains { count: 2 },
            checking("www.example.com"),
            Message::IpChanged { domain: "www.example.com".to_string() },
        ]
    );
    assert_eq!(step.action, patch("r1", "www.example.com", "1.2.3.4", 300, false));
    assert!(!updater.is_over());

    let (updater, step) = updater.advance(status(200));
    assert_eq!(
        step.messages,
        vec![
            Message::Updated { domain: "www.example.com".to_string(), ip: "1.2.3.4".to_string() },
            checking("*.example.com"),
            Message::NoChange { domain: "*.example.com".to_string() },
        ]
    );
    assert_eq!(step.action, Action::Finish);
    assert_eq!(step.action.exit_code(), Some(0));
    assert!(updater.is_over());
}

#[test]
fn no_record_of_that_name() {
    let records = vec![record("r1", "www.example.com", "1.2.3.4", 300, false)];
    let (updater, step) = run_to_checks("api", "1.2.3.4", records);
    assert_eq!(
        step.messages,
        vec![
            Message::CheckingSubdomains { count: 1 },
            checking("api.example.com"),
            Message::NoRecord { domain: "api.example.com".to_string() },
        ]
    );
    assert_eq!(step.messages.iter().filter(|m| m.is_warning()).count(), 1);
    assert_eq!(step.action, Action::Finish);
    assert_eq!(step.action.exit_code(), Some(0));
    assert!(updater.is_over());
}

#[test]
fn no_record_in_an_empty_zone() {
    let (_, step) = run_to_checks("api,www", "1.2.3.4", Vec::new());
    assert_eq!(
        step.messages,
        vec![
            Message::CheckingSubdomains { count: 2 },
            checking("api.example.com"),
            Message::NoRecord { domain: "api.example.com".to_string() },
            checking("www.example.com"),
            Message::NoRecord { domain: "www.example.com".to_string() },
        ]
    );
    assert_eq!(step.action, Action::Finish);
}

#[test]
fn refused_update_does_not_stop_the_run() {
    let records = vec![
        record("r1", "a.example.com", "9.9.9.9", 60, true),
        record("r2", "b.example.com", "9.9.9.9", 120, false),
    ];
    let (updater, step) = run_to_checks("a,b", "1.2.3.4", records);
    assert_eq!(step.action, patch("r1", "a.example.com", "1.2.3.4", 60, true));

    let (updater, step) = updater.advance(status(500));
    assert_eq!(step, Step { messages: vec![], action: Action::ReadBody });

    let (updater, step) = updater.advance(Event::BodyRead("oops".to_string()));
    assert_eq!(
        step.messages,
        vec![
            Message::UpdateFailed {
                domain: "a.example.com".to_string(),
                status: HttpStatus::new(500).unwrap(),
                body: "oops".to_string(),
            },
            checking("b.example.com"),
            Message::IpChanged { domain: "b.example.com".to_string() },
        ]
    );
    assert_eq!(step.action, patch("r2", "b.example.com", "1.2.3.4", 120, false));

    let (updater, step) = updater.advance(status(200));
    assert_eq!(
        step.messages,
        vec![Message::Updated { domain: "b.example.com".to_string(), ip: "1.2.3.4".to_string() }]
    );
    assert_eq!(step.action, Action::Finish);
    assert_eq!(step.action.exit_code(), Some(0));
    assert!(updater.is_over());
}

#[test]
fn only_200_counts_as_accepted() {
    let records = vec![record("r1", "a.example.com", "9.9.9.9", 60, true)];
    let (updater, _) = run_to_checks("a", "1.2.3.4", records);
    let (updater, step) = updater.advance(status(204));
    assert_eq!(step, Step { messages: vec![], action: Action::ReadBody });
    let (_, step) = updater.advance(Event::BodyRead(String::new()));
    assert_eq!(
        step.messages,
        vec![Message::UpdateFailed {
            domain: "a.example.com".to_string(),
            status: HttpStatus::new(204).unwrap(),
            body: String::new(),
        }]
    );
    assert_eq!(step.messages[0].text(), "Update failed for a.example.com (204 No Content): ");
    assert_eq!(step.action, Action::Finish);
}

#[test]
fn first_of_two_records_of_one_name_decides() {
    let records = vec![
        record("r1", "www.example.com", "1.2.3.4", 60, false),
        record("r2", "www.example.com", "9.9.9.9", 60, false),
    ];
    let (_, step) = run_to_checks("www", "1.2.3.4", records);
    assert_eq!(
        step.messages,
        vec![
            Message::CheckingSubdomains { count: 1 },
            checking("www.example.com"),
            Message::NoChange { domain: "www.example.com".to_string() },
        ]
    );
    assert_eq!(step.action, Action::Finish);
}

#[test]
fn repeated_label_is_checked_each_time() {
    let records = vec![record("r1", "www.example.com", "9.9.9.9", 60, false)];
    let (updater, step) = run_to_checks("www,www", "1.2.3.4", records);
    assert_eq!(step.action, patch("r1", "www.example.com", "1.2.3.4", 60, false));
    let (_, step) = updater.advance(status(200));
    assert_eq!(step.action, patch("r1", "www.example.com", "1.2.3.4", 60, false));
}

#[test]
fn missing_variable_gives_no_run() {
    let result = Updater::start(some("token"), some("zone"), None, some("www"));
    assert_eq!(result, Err(ConfigError::Missing(Variable::Domain)));
    let result = Updater::start(None, some("zone"), some("example.com"), some("www"));
    assert_eq!(result, Err(ConfigError::Missing(Variable::ApiToken)));
    let result = Updater::start(some("token"), None, some("example.com"), some("www"));
    assert_eq!(result, Err(ConfigError::Missing(Variable::ZoneId)));
    let result = Updater::start(some("token"), some("zone"), some("example.com"), None);
    assert_eq!(result, Err(ConfigError::Missing(Variable::RecordsNames)));
}

#[test]
fn new_begins_with_the_lookup() {
    let config = Config::load(some("t"), some("z"), some("example.com"), some("www")).unwrap();
    let (updater, step) = Updater::new(config);
    assert_eq!(step.messages, vec![Message::ConfigLoaded]);
    assert_eq!(step.action, Action::GetIp { url: "https://api.ipify.org?format=json".to_string() });
    assert_eq!(step.action.exit_code(), None);
    assert!(!updater.is_over());
}

#[test]
fn failed_lookup_aborts() {
    let (updater, _) =
        Updater::start(some("token"), some("zone"), some("example.com"), some("www")).unwrap();
    let (updater, step) = updater.advance(Event::Failed);
    assert_eq!(step, Step { messages: vec![], action: Action::Abort });
    assert_eq!(step.action.exit_code(), Some(1));
    assert!(updater.is_over());
    let (_, step) = updater.advance(status(200));
    assert_eq!(step, Step { messages: vec![], action: Action::Abort });
}

#[test]
fn lookup_answered_without_success_aborts() {
    for code in [100u16, 199, 300, 404, 500, 999] {
        let (updater, _) =
            Updater::start(some("token"), some("zone"), some("example.com"), some("www")).unwrap();
        let (updater, step) = updater.advance(status(code));
        assert_eq!(step, Step { messages: vec![], action: Action::Abort });
        assert!(updater.is_over());
    }
}

#[test]
fn malformed_lookup_body_aborts() {
    let (updater, _) =
        Updater::start(some("token"), some("zone"), some("example.com"), some("www")).unwrap();
    let (updater, _) = updater.advance(status(200));
    let (updater, step) = updater.advance(Event::Failed);
    assert_eq!(step, Step { messages: vec![], action: Action::Abort });
    assert!(updater.is_over());
}

#[test]
fn failed_listing_aborts_before_any_update() {
    let (updater, _) =
        Updater::start(some("token"), some("zone"), some("example.com"), some("www")).unwrap();
    let (updater, _) = updater.advance(status(200));
    let (updater, _) = updater.advance(resolved("1.2.3.4"));
    let (updater, step) = updater.advance(status(403));
    assert_eq!(step, Step { messages: vec![], action: Action::Abort });
    assert!(updater.is_over());
    let records = vec![record("r1", "www.example.com", "9.9.9.9", 60, false)];
    let (_, step) = updater.advance(listed(records));
    assert_eq!(step, Step { messages: vec![], action: Action::Abort });
}

#[test]
fn failed_update_call_aborts() {
    let records = vec![
        record("r1", "a.example.com", "9.9.9.9", 60, true),
        record("r2", "b.example.com", "9.9.9.9", 120, false),
    ];
    let (updater, _) = run_to_checks("a,b", "1.2.3.4", records);
    let (updater, step) = updater.advance(Event::Failed);
    assert_eq!(step, Step { messages: vec![], action: Action::Abort });
    assert_eq!(step.action.exit_code(), Some(1));
    assert!(updater.is_over());
}

#[test]
fn event_out_of_turn_aborts() {
    let (updater, _) =
        Updater::start(some("token"), some("zone"), some("example.com"), some("www")).unwrap();
    let (updater, step) = updater.advance(resolved("1.2.3.4"));
    assert_eq!(step, Step { messages: vec![], action: Action::Abort });
    assert!(updater.is_over());
}

#[test]
fn finished_run_stays_finished() {
    let (updater, step) = run_to_checks("www", "1.2.3.4", Vec::new());
    assert_eq!(step.action, Action::Finish);
    let (updater, step) = updater.advance(Event::Failed);
    assert_eq!(step, Step { messages: vec![], action: Action::Finish });
    let (updater, step) = updater.advance(status(200));
    assert_eq!(step, Step { messages: vec![], action: Action::Finish });
    assert!(updater.is_over());
}

#[test]
fn check_subdomain_without_a_record() {
    let config = Config::load(some("token"), some("zone"), some("example.com"), some("x")).unwrap();
    let records = vec![record("r1", "www.example.com", "1.2.3.3", 300, false)];
    let (messages, request) = check_subdomain(&config, "1.2.3.4", &records, "api");
    assert_eq!(
        messages,
        vec![
            checking("api.example.com"),
            Message::NoRecord { domain: "api.example.com".to_string() }
        ]
    );
    assert_eq!(request, None);
}

#[test]
fn check_subdomain_with_a_current_record() {
    let config = Config::load(some("token"), some("zone"), some("example.com"), some("x")).unwrap();
    let records = vec![record("r2", "*.example.com", "1.2.3.4", 300, true)];
    let (messages, request) = check_subdomain(&config, "1.2.3.4", &records, "*");
    assert_eq!(
        messages,
        vec![checking("*.example.com"), Message::NoChange { domain: "*.example.com".to_string() }]
    );
    assert_eq!(request, None);
}

#[test]
fn check_subdomain_with_a_stale_record() {
    let config = Config::load(some("token"), some("zone"), some("example.com"), some("x")).unwrap();
    let records = vec![record("r1", "www.example.com", "1.2.3.3", 300, false)];
    let (messages, request) = check_subdomain(&config, "1.2.3.4", &records, "www");
    assert_eq!(
        messages,
        vec![
            checking("www.example.com"),
            Message::IpChanged { domain: "www.example.com".to_string() }
        ]
    );
    assert_eq!(
        request,
        Some(PatchRequest {
            url: "https://api.cloudflare.com/client/v4/zones/zone/dns_records/r1".to_string(),
            token: "token".to_string(),
            payload: UpdateDnsRecord {
                record_type: "A".to_string(),
                name: "www.example.com".to_string(),
                content: "1.2.3.4".to_string(),
                ttl: 300,
                proxied: false,
            },
        })
    );
}

#[test]
fn every_subdomain_is_checked_in_order() {
    let records = vec![
        record("r1", "stale.example.com", "9.9.9.9", 60, true),
        record("r2", "current.example.com", "1.2.3.4", 120, false),
        record("r3", "*.example.com", "8.8.8.8", 1, false),
    ];
    let (mut updater, mut step) =
        run_to_checks("missing, stale, current, *", "1.2.3.4", records);
    let mut answers = vec![status(429), status(200)].into_iter();
    let mut printed: Vec<String> = Vec::new();
    let mut sent: Vec<String> = Vec::new();
    loop {
        for message in &step.messages {
            printed.push(message.text());
        }
        let event = match step.action {
            Action::Patch(request) => {
                assert_eq!(request.payload.content, "1.2.3.4");
                sent.push(request.payload.name);
                answers.next().unwrap()
            }
            Action::ReadBody => Event::BodyRead("slow down".to_string()),
            Action::Finish => break,
            other => panic!("unexpected action {:?}", other),
        };
        (updater, step) = updater.advance(event);
    }
    assert!(updater.is_over());
    assert_eq!(sent, vec!["stale.example.com".to_string(), "*.example.com".to_string()]);
    assert_eq!(
        printed,
        vec![
            "Checking 4 subdomains...".to_string(),
            "Checking domain: missing.example.com".to_string(),
            "Warning: No A record found for missing.example.com".to_string(),
            "Checking domain: stale.example.com".to_string(),
            "IP changed for stale.example.com: updating record...".to_string(),
            "Update failed for stale.example.com (429 Too Many Requests): slow down".to_string(),
            "Checking domain: current.example.com".to_string(),
            "No IP change needed for current.example.com".to_string(),
            "Checking domain: *.example.com".to_string(),
            "IP changed for *.example.com: updating record...".to_string(),
            "Successfully updated DNS record for *.example.com to 1.2.3.4".to_string(),
        ]
    );
}
