use acme_azure_function::acme::account::ResponseWithNewNonce;
use acme_azure_function::acme::order::{
    IgnoredAny, Order, OrderObjPending, OrderPending, OrderResponse, PlaceOrder,
};
use acme_azure_function::acme::{proto, EcCurve};
use acme_azure_function::azure::auth::Auth;
use acme_azure_function::azure::key_vault::certificate::{Certificate, CreateCsrKeyType};
use acme_azure_function::azure::key_vault::key::{EcKty, Key, KeyResponse};
use acme_azure_function::azure::{key_vault, management, Call, Url};
use acme_azure_function::error::Error;
use acme_azure_function::http_common::{HeaderValue, ResponseWithLocation, Uri};
use acme_azure_function::renew_cert::{
    self, Event, Placed, Procedure, Renewal, RenewCert, Settings, RENEWAL_PERIOD,
};
use acme_azure_function::time2::Duration;

const NOW: i128 = 1_704_164_645_000_000_000;

const CHAIN: &str = "-----BEGIN CERTIFICATE-----\nAAAA\n-----END CERTIFICATE-----\n";

type Machine = RenewCert<&'static str, &'static str, &'static str>;
type MachineEvent = Event<&'static str, &'static str, &'static str>;

fn settings(domain: &str) -> Settings {
    Settings {
        acme_directory_url: Uri::from_text("https://acme.example/directory").unwrap(),
        acme_contact_url: "mailto:admin@example.com".to_owned(),
        azure_resource_group_name: "group".to_owned(),
        azure_key_vault_name: "vault".to_owned(),
        azure_key_vault_acme_account_key_name: "key".to_owned(),
        azure_key_vault_acme_account_key_type: (EcKty::Ec, EcCurve::P384),
        azure_key_vault_certificate_name: "cert".to_owned(),
        azure_key_vault_certificate_key_type: CreateCsrKeyType::RsaHsm { num_bits: 4096 },
        top_level_domain_name: domain.to_owned(),
    }
}

fn certificate(not_after: i128, ari_id: Option<&str>) -> MachineEvent {
    Event::Certificate {
        certificate: Some(Certificate {
            version: "v1".to_owned(),
            ari_id: ari_id.map(ToOwned::to_owned),
            not_before: 0,
            not_before_offset: 0,
            not_after,
            not_after_offset: 0,
        }),
        now: NOW,
    }
}

fn no_certificate() -> MachineEvent {
    Event::Certificate { certificate: None, now: NOW }
}

/// A renewal after some events, and what it reported.
fn run(procedure: Procedure, events: Vec<MachineEvent>) -> (Vec<String>, Machine) {
    let mut machine = Machine::new(procedure, &settings("example.com"));
    let mut lines = vec![];
    for event in events {
        let (reports, next) = machine.step(event);
        lines.extend(reports.iter().map(|report| report.debug_text()));
        machine = next;
    }
    (lines, machine)
}

/// The events up to a pending order.
fn to_pending_order() -> Vec<MachineEvent> {
    vec![
        no_certificate(),
        Event::AccountKey { found: true },
        Event::AccountOpened,
        Event::OrderPlaced(Placed::Pending("pending")),
    ]
}

#[test]
fn a_certificate_is_renewed_step_by_step() {
    let mut events = to_pending_order();
    events.extend([
        Event::TxtRecordsCreated,
        Event::NameServers,
        Event::TxtRecords { found: true },
        Event::Authorized("ready"),
        Event::TxtRecordsDeleted,
        Event::Csr("csr".to_owned()),
        Event::Finalized("valid"),
        Event::CertificateChain(CHAIN.to_owned()),
        Event::Merged,
        Event::NewCertificate { found: true },
    ]);
    let (lines, machine) = run(Procedure::full(), events);
    assert!(matches!(machine.state(), Renewal::Renewed));
    assert_eq!(
        lines,
        ["ObjectState { object_type: azure/key_vault/certificate, object_id: vault/cert, state: renewed }"]
    );
}

#[test]
fn the_plain_procedure_leaves_some_steps_out() {
    let mut events = to_pending_order();
    events.push(Event::TxtRecordsCreated);
    let (_, machine) = run(Procedure::plain(), events);
    assert!(matches!(machine.state(), Renewal::CompleteAuthorization { order: "pending" }));
    let (_, machine) = machine.step(Event::Authorized("ready"));
    let (_, machine) = machine.step(Event::TxtRecordsDeleted);
    assert!(matches!(machine.state(), Renewal::CreateCsr { order: "ready" }));
    let (_, machine) = machine.step(Event::Csr("csr".to_owned()));
    assert!(matches!(machine.state(), Renewal::FinalizeOrder { csr, .. } if csr == "csr"));
    let (_, machine) = machine.step(Event::Finalized("valid"));
    let (_, machine) = machine.step(Event::CertificateChain(CHAIN.to_owned()));
    assert!(matches!(
        machine.state(),
        Renewal::MergeCertificates { certificates } if *certificates == ["AAAA"]
    ));
    let (_, machine) = machine.step(Event::Merged);
    assert!(matches!(machine.state(), Renewal::Renewed));
}

#[test]
fn a_certificate_that_lasts_is_left_alone() {
    for procedure in [Procedure::full(), Procedure::plain()] {
        let (lines, machine) = run(procedure, vec![certificate(NOW + RENEWAL_PERIOD + 1, None)]);
        assert!(matches!(machine.state(), Renewal::NotDue));
        assert_eq!(
            lines,
            ["ObjectState { object_type: azure/key_vault/certificate, object_id: vault/cert, state: does not need to be renewed }"]
        );
        let (_, machine) = run(procedure, vec![certificate(NOW + RENEWAL_PERIOD - 1, None)]);
        assert!(matches!(machine.state(), Renewal::GetAccountKey));
    }
    let exactly = || vec![certificate(NOW + RENEWAL_PERIOD, None)];
    assert!(matches!(run(Procedure::full(), exactly()).1.state(), Renewal::GetAccountKey));
    assert!(matches!(run(Procedure::plain(), exactly()).1.state(), Renewal::NotDue));
    assert_eq!(RENEWAL_PERIOD, 30 * 24 * 60 * 60 * 1_000_000_000);
}

#[test]
fn the_server_suggests_when_to_renew() {
    let ask = |not_after: i128, start: Option<i128>| {
        let (_, machine) = run(Procedure::full(), vec![certificate(not_after, Some("a.b"))]);
        assert!(matches!(
            machine.state(),
            Renewal::GetRenewalInfo { ari_id, .. } if ari_id == "a.b"
        ));
        machine.step(Event::RenewalInfo(start)).1
    };
    assert!(matches!(ask(NOW, Some(NOW + 1)).state(), Renewal::NotDue));
    assert!(matches!(ask(i128::MAX, Some(NOW)).state(), Renewal::GetAccountKey));
    assert!(matches!(ask(NOW, None).state(), Renewal::GetAccountKey));
    assert!(matches!(ask(i128::MAX, None).state(), Renewal::NotDue));
    let (_, machine) = run(Procedure::plain(), vec![certificate(i128::MAX, Some("a.b"))]);
    assert!(matches!(machine.state(), Renewal::NotDue));
}

#[test]
fn an_account_key_is_created_where_there_is_none() {
    let (_, machine) = run(Procedure::full(), vec![no_certificate(), Event::AccountKey { found: false }]);
    assert!(matches!(machine.state(), Renewal::CreateAccountKey));
    let (_, machine) = machine.step(Event::AccountKeyCreated);
    assert!(matches!(machine.state(), Renewal::OpenAccount));
    let (_, machine) = machine.step(Event::Failed(Error::new("oh")));
    assert!(matches!(
        machine.state(),
        Renewal::Failed(err) if err.chain == ["could not initialize ACME API client", "oh"]
    ));
}

#[test]
fn an_order_may_be_further_on() {
    let mut events = to_pending_order();
    events.pop();
    events.push(Event::OrderPlaced(Placed::Ready("ready")));
    let (_, machine) = run(Procedure::full(), events);
    assert!(matches!(machine.state(), Renewal::CreateCsr { order: "ready" }));
    let mut events = to_pending_order();
    events.pop();
    events.push(Event::OrderPlaced(Placed::Valid("valid")));
    let (_, machine) = run(Procedure::full(), events);
    assert!(matches!(machine.state(), Renewal::DownloadCertificate { order: "valid" }));
}

#[test]
fn the_name_servers_are_asked_again_and_again() {
    let mut events = to_pending_order();
    events.extend([Event::TxtRecordsCreated, Event::NameServers]);
    let (_, mut machine) = run(Procedure::full(), events);
    let mut delays = vec![];
    for _ in 0..5 {
        let (_, next) = machine.step(Event::TxtRecords { found: false });
        match next.state() {
            Renewal::Sleep { name, retry_delay, .. } => {
                assert_eq!(name, "_acme-challenge.example.com.");
                delays.push(*retry_delay);
            },
            _ => panic!("the renewal does not wait"),
        }
        machine = next.step(Event::Slept).1;
    }
    assert_eq!(delays, [100, 200, 400, 500, 500].map(Duration::from_millis));
}

#[test]
fn a_domain_name_may_be_too_long() {
    let domain = format!("{}.com", "a".repeat(64));
    let mut machine = Machine::new(Procedure::full(), &settings(&domain));
    for event in to_pending_order() {
        machine = machine.step(event).1;
    }
    let (_, machine) = machine.step(Event::TxtRecordsCreated);
    let (_, machine) = machine.step(Event::NameServers);
    assert!(matches!(machine.state(), Renewal::DeleteTxtRecords { outcome: Err(_) }));
}

#[test]
fn txt_records_are_deleted_before_a_failure() {
    let mut events = to_pending_order();
    events.extend([
        Event::TxtRecordsCreated,
        Event::NameServers,
        Event::TxtRecords { found: true },
        Event::Failed(Error::new("oh")),
    ]);
    let (_, machine) = run(Procedure::full(), events);
    assert!(matches!(machine.state(), Renewal::DeleteTxtRecords { outcome: Err(_) }));
    let (_, machine) = machine.step(Event::TxtRecordsDeleted);
    assert!(matches!(machine.state(), Renewal::Failed(err) if err.chain == ["oh"]));
}

#[test]
fn the_end_stays_the_end() {
    let (_, machine) = run(Procedure::full(), vec![certificate(i128::MAX, None)]);
    let (reports, machine) = machine.step(Event::Failed(Error::new("oh")));
    assert!(reports.is_empty());
    assert!(matches!(machine.state(), Renewal::NotDue));
    let (_, machine) = machine.step(Event::Merged);
    assert!(matches!(machine.state(), Renewal::NotDue));
}

#[test]
fn a_renewal_may_fail_late() {
    let mut events = to_pending_order();
    events.pop();
    events.push(Event::OrderPlaced(Placed::Valid("valid")));
    let (_, machine) = run(Procedure::full(), events);
    let (_, machine) = machine.step(Event::CertificateChain("AAAA".to_owned()));
    assert!(matches!(
        machine.state(),
        Renewal::Failed(err) if err.chain == ["malformed PEM: does not start with BEGIN CERTIFICATE"]
    ));
    let mut events = to_pending_order();
    events.pop();
    events.extend([
        Event::OrderPlaced(Placed::Valid("valid")),
        Event::CertificateChain(CHAIN.to_owned()),
        Event::Merged,
        Event::NewCertificate { found: false },
    ]);
    let (_, machine) = run(Procedure::full(), events);
    assert!(matches!(
        machine.state(),
        Renewal::Failed(err) if err.chain == ["newly-created certificate does not exist"]
    ));
}

#[test]
fn key_types_are_parsed() {
    assert_eq!(renew_cert::parse_account_key_type("ec:p256"), Some((EcKty::Ec, EcCurve::P256)));
    assert_eq!(renew_cert::parse_account_key_type("ec-hsm:p384"), Some((EcKty::EcHsm, EcCurve::P384)));
    assert_eq!(renew_cert::parse_account_key_type("ec-hsm:p521"), Some((EcKty::EcHsm, EcCurve::P521)));
    assert_eq!(renew_cert::parse_account_key_type("rsa:2048"), None);
    let parse = renew_cert::parse_certificate_key_type;
    assert_eq!(
        parse("rsa:2048"),
        Some(CreateCsrKeyType::Rsa { num_bits: 2048, exportable: false })
    );
    assert_eq!(
        parse("rsa:4096:exportable"),
        Some(CreateCsrKeyType::Rsa { num_bits: 4096, exportable: true })
    );
    assert_eq!(parse("rsa-hsm:4096"), Some(CreateCsrKeyType::RsaHsm { num_bits: 4096 }));
    assert_eq!(
        parse("ec:p384:exportable"),
        Some(CreateCsrKeyType::Ec { curve: EcCurve::P384, exportable: true })
    );
    assert_eq!(parse("ec-hsm:p521"), Some(CreateCsrKeyType::EcHsm { curve: EcCurve::P521 }));
    assert_eq!(parse("rsa:1024"), None);
    assert_eq!(parse(""), None);
}

fn auth() -> Auth {
    Auth::ManagedIdentity {
        endpoint: "http://localhost".to_owned(),
        secret: HeaderValue::from_static("s"),
    }
}

fn path(call: Option<Call>) -> Option<String> {
    call.map(|call| match call.url {
        Url::PathAndQuery(path) => path,
        Url::Uri(_) => panic!("the URL is absolute"),
    })
}

#[test]
fn the_key_vault_is_asked_for_what_the_settings_name() {
    let auth = auth();
    let client = key_vault::Client::new("vault", &auth, HeaderValue::from_static("me")).unwrap();
    let settings = settings("example.com");
    let mut machine = Machine::new(Procedure::full(), &settings);
    let mut paths = vec![path(machine.key_vault_call(&settings, &client))];
    for event in [
        no_certificate(),
        Event::AccountKey { found: false },
        Event::AccountKeyCreated,
        Event::AccountOpened,
        Event::OrderPlaced(Placed::Ready("ready")),
        Event::Csr("csr".to_owned()),
        Event::Finalized("valid"),
        Event::CertificateChain(CHAIN.to_owned()),
        Event::Merged,
        Event::NewCertificate { found: true },
    ] {
        machine = machine.step(event).1;
        paths.push(path(machine.key_vault_call(&settings, &client)));
    }
    let expected = [
        Some("/certificates/cert?api-version=7.4"),
        Some("/keys/key?api-version=7.4"),
        Some("/keys/key/create?api-version=7.4"),
        None,
        None,
        Some("/certificates/cert/create?api-version=7.4"),
        None,
        None,
        Some("/certificates/cert/pending/merge?api-version=7.4"),
        Some("/certificates/cert?api-version=7.4"),
        None,
    ];
    assert_eq!(paths, expected.map(|path| path.map(ToOwned::to_owned)));
}

#[test]
fn the_ordered_name_depends_on_the_procedure() {
    let settings = settings("example.com");
    assert_eq!(Machine::new(Procedure::full(), &settings).order_name(), "example.com");
    assert_eq!(Machine::new(Procedure::plain(), &settings).order_name(), "*.example.com");
}

#[test]
fn the_dns_zone_is_asked_for_the_same_records() {
    let auth = auth();
    let client = management::Client::new("sub", "group", &auth, HeaderValue::from_static("me"));
    let placed: Result<ResponseWithLocation<OrderResponse<OrderObjPending, IgnoredAny>>, Error> =
        Ok(ResponseWithLocation {
            body: OrderResponse::Pending(OrderObjPending { authorization_urls: vec![] }),
            location: Uri::from_text("https://acme.example/order/1").unwrap(),
        });
    let PlaceOrder::Done(Order::Pending(order)) = PlaceOrder::placed(placed).unwrap().next else {
        panic!("the order is not pending");
    };
    let mut machine =
        RenewCert::<OrderPending, &str, &str>::new(Procedure::full(), &settings("example.com"));
    assert!(machine.dns_call(&client).is_none());
    for event in [
        Event::Certificate { certificate: None, now: NOW },
        Event::AccountKey { found: true },
        Event::AccountOpened,
        Event::OrderPlaced(Placed::Pending(order)),
    ] {
        machine = machine.step(event).1;
    }
    let create = machine.dns_call(&client).unwrap();
    assert_eq!(create.body.as_deref(), Some(r#"{"properties":{"TTL":1,"TXTRecords":[]}}"#));
    let machine = machine.step(Event::TxtRecordsCreated).1;
    assert_eq!(
        path(machine.dns_call(&client)).as_deref(),
        Some("/providers/Microsoft.Network/dnsZones/example.com?api-version=2018-05-01")
    );
    let machine = machine.step(Event::NameServers).1;
    assert!(machine.dns_call(&client).is_none());
    let scope = machine.lookup_scope().unwrap();
    assert_eq!(scope.object_type, "dns/lookup");
    assert_eq!(scope.object_id, "_acme-challenge.example.com.");
    let machine = machine.step(Event::Failed(Error::new("oh"))).1;
    assert!(machine.lookup_scope().is_none());
    assert_eq!(path(machine.dns_call(&client)), path(Some(create)));
}

#[test]
fn the_answer_to_a_single_challenge_is_a_record() {
    let auth = auth();
    let client = management::Client::new("sub", "group", &auth, HeaderValue::from_static("me"));
    let key = Key::new(KeyResponse {
        crv: EcCurve::P256,
        kid: "https://vault.vault.azure.net/keys/key/1".to_owned(),
        kty: EcKty::Ec,
        x: "MKBCTNIcKUSDii11ySs3526iDZ8AiTo7Tu6KPAqv7D4".to_owned(),
        y: "4Etl6SRW2YiLUrN5vfvVHuhp7x8PxltmWWlbbM4IFyM".to_owned(),
    })
    .unwrap();
    let nonce = || HeaderValue::from_text("n-1").ok();
    let directory = proto::DirectoryResponse {
        new_account_url: "https://acme.example/new-account".to_owned(),
        new_nonce_url: "https://acme.example/new-nonce".to_owned(),
        new_order_url: "https://acme.example/new-order".to_owned(),
    };
    let account = proto::OpeningAccount::directory_received(
        "mailto:admin@example.com",
        &key,
        Ok(ResponseWithNewNonce { body: directory, new_nonce: nonce() }),
    )
    .unwrap()
    .account_received(Ok(ResponseWithNewNonce {
        body: ResponseWithLocation {
            body: proto::NewAccountResponse { status: "valid".to_owned() },
            location: Uri::from_text("https://acme.example/acct/1").unwrap(),
        },
        new_nonce: nonce(),
    }))
    .unwrap();
    let placed = account.order_placed(Ok(ResponseWithLocation {
        body: proto::OrderResponse::Invalid { body: String::new() },
        location: Uri::from_text("https://acme.example/order/1").unwrap(),
    }));
    let Ok(proto::PlaceOrder::Poll(poll)) = placed else {
        panic!("the order is not looked at");
    };
    let polled =
        poll.received(Ok(proto::OrderResponse::Pending { authorization_urls: vec!["a".to_owned()] }));
    let Ok(proto::PlaceOrder::Authorize(authorizing)) = polled else {
        panic!("the authorization is not looked at");
    };
    let response = proto::AuthorizationResponse::Pending {
        challenges: vec![proto::ChallengeObject::Pending {
            token: "evaGxfADs6pSRb2LAv9IZf17Dt3juxGJ-PCt92wr-oA".to_owned(),
            kind: "dns-01".to_owned(),
            url: "c".to_owned(),
        }],
        retry_after: Duration::from_secs(1),
    };
    let received = authorizing.received(&account, Ok(response));
    let Ok(proto::PlaceOrder::Done(proto::Order::Pending(order))) = received else {
        panic!("the order is not pending");
    };
    let mut machine =
        RenewCert::<proto::OrderPending, &str, &str>::new(Procedure::plain(), &settings("example.com"));
    for event in [
        Event::Certificate { certificate: None, now: NOW },
        Event::AccountKey { found: true },
        Event::AccountOpened,
        Event::OrderPlaced(Placed::Pending(order)),
    ] {
        machine = machine.step(event).1;
    }
    assert_eq!(
        machine.dns_call(&client).unwrap().body.as_deref(),
        Some(r#"{"properties":{"TTL":1,"TXTRecords":[{"value":["1fCS1lh6WLuBWbvkmdEhdymEvTR8MuI63XqlRVleM9Q"]}]}}"#)
    );
}

#[test]
fn a_renewal_is_concluded() {
    let (_, machine) = run(Procedure::plain(), vec![]);
    assert_eq!(machine.conclusion(), None);
    assert_eq!(machine.announcement(), None);
    let (_, machine) = machine.step(certificate(i128::MAX, None));
    assert_eq!(machine.conclusion(), Some("certificate does not need to be renewed"));
    assert_eq!(machine.announcement(), Some("Certificate does not need to be renewed"));
    let mut events = to_pending_order();
    events.pop();
    events.extend([
        Event::OrderPlaced(Placed::Valid("valid")),
        Event::CertificateChain(CHAIN.to_owned()),
        Event::Merged,
    ]);
    let (_, machine) = run(Procedure::plain(), events);
    assert_eq!(machine.conclusion(), Some("certificate has been renewed"));
    assert_eq!(machine.announcement(), Some("Certificate has been renewed"));
}

#[test]
fn keys_have_usual_kinds() {
    assert_eq!(
        renew_cert::parse_account_key_type("ec:p384"),
        Some(renew_cert::default_account_key_type())
    );
    assert_eq!(
        renew_cert::parse_certificate_key_type("rsa:4096"),
        Some(renew_cert::default_certificate_key_type())
    );
}
