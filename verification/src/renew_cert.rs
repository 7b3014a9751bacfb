//! The renewal of a certificate: what is done, in which order, and what is done when something fails.

use vstd::prelude::*;

use crate::acme::order;
use crate::acme::proto;
use crate::acme::EcCurve;
use crate::azure::key_vault;
use crate::azure::key_vault::certificate;
use crate::azure::key_vault::certificate::CertificateView;
use crate::azure::key_vault::key;
use crate::azure::key_vault::{Certificate, CreateCsrKeyType, EcKty};
use crate::azure::management;
use crate::azure::management::dns;
use crate::azure::{Call, CallView};
use crate::error;
use crate::error::Error;
use crate::http_common::Uri;
use crate::log2;
use crate::log2::object_id;
use crate::log2::{ObjectId, Report, Scope, ScopeView, ScopedObjectOperation};
use crate::pem;
use crate::text;
use crate::time2::Duration;

verus! {

/// The name below the domain whose TXT records answer the challenges.
pub const CHALLENGE_LABEL: &'static str = "_acme-challenge";

/// Whether this function serves a path.
pub fn handles(path: &str) -> (r: bool)
    ensures
        r == (path@ == "renew-cert"@),
{
    text::str_eq(path, "renew-cert")
}

/// The settings of the renewal.
#[derive(Debug)]
pub struct Settings {
    /// The directory URL of the ACME server.
    pub acme_directory_url: Uri,
    /// The contact URL of the ACME account.
    pub acme_contact_url: String,
    /// The name of the Azure resource group.
    pub azure_resource_group_name: String,
    /// The name of the Azure KeyVault.
    pub azure_key_vault_name: String,
    /// The name of the KeyVault key that is the ACME account key. A key is created if there is none
    /// with this name.
    pub azure_key_vault_acme_account_key_name: String,
    /// What the ACME account key is like if it has to be created.
    pub azure_key_vault_acme_account_key_type: (EcKty, EcCurve),
    /// The name of the certificate in the KeyVault.
    pub azure_key_vault_certificate_name: String,
    /// What the private key of the new certificate is like.
    pub azure_key_vault_certificate_key_type: CreateCsrKeyType,
    /// The domain that the certificate is for.
    pub top_level_domain_name: String,
}

/// The kind of ACME account key that a setting stands for.
pub open spec fn account_key_type(s: Seq<char>) -> Option<(EcKty, EcCurve)> {
    if s == "ec:p256"@ {
        Some((EcKty::Ec, EcCurve::P256))
    } else if s == "ec-hsm:p256"@ {
        Some((EcKty::EcHsm, EcCurve::P256))
    } else if s == "ec:p384"@ {
        Some((EcKty::Ec, EcCurve::P384))
    } else if s == "ec-hsm:p384"@ {
        Some((EcKty::EcHsm, EcCurve::P384))
    } else if s == "ec:p521"@ {
        Some((EcKty::Ec, EcCurve::P521))
    } else if s == "ec-hsm:p521"@ {
        Some((EcKty::EcHsm, EcCurve::P521))
    } else {
        None
    }
}

/// What a setting for the kind of ACME account key may be, as an error message says it.
pub const ACCOUNT_KEY_TYPES: &'static str = "one of \"ec:p256\", \"ec-hsm:p256\", \"ec:p384\", \"ec-hsm:p384\", \"ec:p521\", \"ec-hsm:p521\"";

/// The kind of ACME account key that a setting stands for.
pub fn parse_account_key_type(s: &str) -> (r: Option<(EcKty, EcCurve)>)
    ensures
        r == account_key_type(s@),
{
    if text::str_eq(s, "ec:p256") {
        Some((EcKty::Ec, EcCurve::P256))
    } else if text::str_eq(s, "ec-hsm:p256") {
        Some((EcKty::EcHsm, EcCurve::P256))
    } else if text::str_eq(s, "ec:p384") {
        Some((EcKty::Ec, EcCurve::P384))
    } else if text::str_eq(s, "ec-hsm:p384") {
        Some((EcKty::EcHsm, EcCurve::P384))
    } else if text::str_eq(s, "ec:p521") {
        Some((EcKty::Ec, EcCurve::P521))
    } else if text::str_eq(s, "ec-hsm:p521") {
        Some((EcKty::EcHsm, EcCurve::P521))
    } else {
        None
    }
}

/// The kind of ACME account key where no setting says otherwise: an elliptic one on the curve P-384.
pub fn default_account_key_type() -> (r: (EcKty, EcCurve))
    ensures
        r == (EcKty::Ec, EcCurve::P384),
{
    (EcKty::Ec, EcCurve::P384)
}

/// The kind of private key of a certificate where no setting says otherwise: an RSA key of 4096 bits.
pub fn default_certificate_key_type() -> (r: CreateCsrKeyType)
    ensures
        r == (CreateCsrKeyType::Rsa { num_bits: 4096, exportable: false }),
{
    CreateCsrKeyType::Rsa { num_bits: 4096, exportable: false }
}

/// The kind of private key of a certificate that a setting stands for.
pub open spec fn certificate_key_type(s: Seq<char>) -> Option<CreateCsrKeyType> {
    if s == "rsa:2048"@ {
        Some(CreateCsrKeyType::Rsa { num_bits: 2048, exportable: false })
    } else if s == "rsa:2048:exportable"@ || s == "rsa-2048:exportable"@ {
        Some(CreateCsrKeyType::Rsa { num_bits: 2048, exportable: true })
    } else if s == "rsa-hsm:2048"@ {
        Some(CreateCsrKeyType::RsaHsm { num_bits: 2048 })
    } else if s == "rsa:4096"@ {
        Some(CreateCsrKeyType::Rsa { num_bits: 4096, exportable: false })
    } else if s == "rsa:4096:exportable"@ || s == "rsa-4096:exportable"@ {
        Some(CreateCsrKeyType::Rsa { num_bits: 4096, exportable: true })
    } else if s == "rsa-hsm:4096"@ {
        Some(CreateCsrKeyType::RsaHsm { num_bits: 4096 })
    } else if s == "ec:p256"@ {
        Some(CreateCsrKeyType::Ec { curve: EcCurve::P256, exportable: false })
    } else if s == "ec:p256:exportable"@ {
        Some(CreateCsrKeyType::Ec { curve: EcCurve::P256, exportable: true })
    } else if s == "ec-hsm:p256"@ {
        Some(CreateCsrKeyType::EcHsm { curve: EcCurve::P256 })
    } else if s == "ec:p384"@ {
        Some(CreateCsrKeyType::Ec { curve: EcCurve::P384, exportable: false })
    } else if s == "ec:p384:exportable"@ {
        Some(CreateCsrKeyType::Ec { curve: EcCurve::P384, exportable: true })
    } else if s == "ec-hsm:p384"@ {
        Some(CreateCsrKeyType::EcHsm { curve: EcCurve::P384 })
    } else if s == "ec:p521"@ {
        Some(CreateCsrKeyType::Ec { curve: EcCurve::P521, exportable: false })
    } else if s == "ec:p521:exportable"@ {
        Some(CreateCsrKeyType::Ec { curve: EcCurve::P521, exportable: true })
    } else if s == "ec-hsm:p521"@ {
        Some(CreateCsrKeyType::EcHsm { curve: EcCurve::P521 })
    } else {
        None
    }
}

/// What a setting for the private key of a certificate may be, as an error message says it.
pub const CERTIFICATE_KEY_TYPES: &'static str = "one of \"rsa:2048\", \"rsa:2048:exportable\", \"rsa-hsm:2048\", \"rsa:4096\", \"rsa:4096:exportable\", \"rsa-hsm:4096\", \"ec:p256\", \"ec:p256:exportable\", \"ec-hsm:p256\", \"ec:p384\", \"ec:p384:exportable\", \"ec-hsm:p384\", \"ec:p521\", \"ec:p521:exportable\", \"ec-hsm:p521\"";

/// The kind of private key of a certificate that a setting stands for.
pub fn parse_certificate_key_type(s: &str) -> (r: Option<CreateCsrKeyType>)
    ensures
        r == certificate_key_type(s@),
{
    if text::str_eq(s, "rsa:2048") {
        Some(CreateCsrKeyType::Rsa { num_bits: 2048, exportable: false })
    } else if text::str_eq(s, "rsa:2048:exportable") || text::str_eq(s, "rsa-2048:exportable") {
        Some(CreateCsrKeyType::Rsa { num_bits: 2048, exportable: true })
    } else if text::str_eq(s, "rsa-hsm:2048") {
        Some(CreateCsrKeyType::RsaHsm { num_bits: 2048 })
    } else if text::str_eq(s, "rsa:4096") {
        Some(CreateCsrKeyType::Rsa { num_bits: 4096, exportable: false })
    } else if text::str_eq(s, "rsa:4096:exportable") || text::str_eq(s, "rsa-4096:exportable") {
        Some(CreateCsrKeyType::Rsa { num_bits: 4096, exportable: true })
    } else if text::str_eq(s, "rsa-hsm:4096") {
        Some(CreateCsrKeyType::RsaHsm { num_bits: 4096 })
    } else if text::str_eq(s, "ec:p256") {
        Some(CreateCsrKeyType::Ec { curve: EcCurve::P256, exportable: false })
    } else if text::str_eq(s, "ec:p256:exportable") {
        Some(CreateCsrKeyType::Ec { curve: EcCurve::P256, exportable: true })
    } else if text::str_eq(s, "ec-hsm:p256") {
        Some(CreateCsrKeyType::EcHsm { curve: EcCurve::P256 })
    } else if text::str_eq(s, "ec:p384") {
        Some(CreateCsrKeyType::Ec { curve: EcCurve::P384, exportable: false })
    } else if text::str_eq(s, "ec:p384:exportable") {
        Some(CreateCsrKeyType::Ec { curve: EcCurve::P384, exportable: true })
    } else if text::str_eq(s, "ec-hsm:p384") {
        Some(CreateCsrKeyType::EcHsm { curve: EcCurve::P384 })
    } else if text::str_eq(s, "ec:p521") {
        Some(CreateCsrKeyType::Ec { curve: EcCurve::P521, exportable: false })
    } else if text::str_eq(s, "ec:p521:exportable") {
        Some(CreateCsrKeyType::Ec { curve: EcCurve::P521, exportable: true })
    } else if text::str_eq(s, "ec-hsm:p521") {
        Some(CreateCsrKeyType::EcHsm { curve: EcCurve::P521 })
    } else {
        None
    }
}

/// The fully qualified name of a label below a domain, or what is wrong with the two.
pub uninterp spec fn name_below(label: Seq<char>, domain: Seq<char>) -> Result<
    Seq<char>,
    Seq<char>,
>;

/// `hickory_resolver::Name::append_domain`, on the names that a label and a domain are, with the name
/// in its `to_utf8` form and the errors as texts.
#[verifier::external_body]
fn append_domain(label: &str, domain: &str) -> (r: Result<String, String>)
    ensures
        match r {
            Ok(name) => name_below(label@, domain@) == Ok::<Seq<char>, Seq<char>>(name@),
            Err(err) => name_below(label@, domain@) == Err::<Seq<char>, Seq<char>>(err@),
        },
{
    let label = label.parse::<hickory_resolver::Name>().map_err(|err| err.to_string())?;
    let domain = domain.parse::<hickory_resolver::Name>().map_err(|err| err.to_string())?;
    label.append_domain(&domain).map(|name| name.to_utf8()).map_err(|err| err.to_string())
}

/// The nanoseconds of the thirty days before its end in which a certificate is renewed.
pub const RENEWAL_PERIOD: i128 = 2_592_000_000_000_000;

/// Whether a certificate ends after more than thirty days from `now`.
fn ends_later(not_after: i128, now: i128) -> (r: bool)
    ensures
        r == (not_after > now + RENEWAL_PERIOD),
{
    now <= i128::MAX - RENEWAL_PERIOD && not_after > now + RENEWAL_PERIOD
}

/// Whether a certificate ends before thirty days from `now` are over.
fn ends_sooner(not_after: i128, now: i128) -> (r: bool)
    ensures
        r == (not_after < now + RENEWAL_PERIOD),
{
    now > i128::MAX - RENEWAL_PERIOD || not_after < now + RENEWAL_PERIOD
}

/// An order, in one of its states.
#[derive(Debug)]
pub enum Placed<P, R, V> {
    Pending(P),
    Ready(R),
    Valid(V),
}

/// What belongs to a renewal besides what always does.
#[derive(Clone, Copy, Debug, PartialEq, Eq, Structural)]
pub struct Procedure {
    /// The ACME server is asked when it suggests to renew the certificate. Without it, a certificate
    /// that ends in exactly thirty days is not due yet.
    pub renewal_info: bool,
    /// The TXT records have to show up before the challenges are met.
    pub await_txt_records: bool,
    /// The new certificate is looked at.
    pub check_result: bool,
    /// The name that is ordered is the domain itself, which brings the names below it with it. Without
    /// it, only the names below the domain are ordered.
    pub whole_domain: bool,
}

impl Procedure {
    /// All of it.
    pub fn full() -> (r: Procedure)
        ensures
            r == (Procedure {
                renewal_info: true,
                await_txt_records: true,
                check_result: true,
                whole_domain: true,
            }),
    {
        Procedure {
            renewal_info: true,
            await_txt_records: true,
            check_result: true,
            whole_domain: true,
        }
    }

    /// Nothing more than what always belongs to a renewal.
    pub fn plain() -> (r: Procedure)
        ensures
            r == (Procedure {
                renewal_info: false,
                await_txt_records: false,
                check_result: false,
                whole_domain: false,
            }),
    {
        Procedure {
            renewal_info: false,
            await_txt_records: false,
            check_result: false,
            whole_domain: false,
        }
    }
}

/// What has to be done next to renew a certificate. The types are those of the orders that are pending,
/// ready and valid.
#[derive(Debug)]
pub enum Renewal<P, R, V> {
    /// Look at the certificate.
    GetCertificate,
    /// Ask the ACME server when it suggests to renew the certificate.
    GetRenewalInfo { ari_id: String, not_after: i128, now: i128 },
    /// Look for the key of the ACME account.
    GetAccountKey,
    /// Create the key of the ACME account.
    CreateAccountKey,
    /// Open the ACME account.
    OpenAccount,
    /// Place an order.
    PlaceOrder,
    /// Create the TXT records that answer the challenges of the order.
    CreateTxtRecords { order: P },
    /// Look at the name servers of the domain.
    GetNameServers { order: P },
    /// Ask the name servers for the TXT records.
    LookUpTxtRecords { order: P, name: String, retry_delay: Duration },
    /// Wait before the name servers are asked again.
    Sleep { order: P, name: String, retry_delay: Duration },
    /// Meet the challenges of the order.
    CompleteAuthorization { order: P },
    /// Delete the TXT records, whether or not the challenges have been met.
    DeleteTxtRecords { outcome: Result<R, Error> },
    /// Create a certificate signing request.
    CreateCsr { order: R },
    /// Finalize the order.
    FinalizeOrder { order: R, csr: String },
    /// Fetch the certificate chain.
    DownloadCertificate { order: V },
    /// Put the certificates into the KeyVault.
    MergeCertificates { certificates: Vec<String> },
    /// Look at the new certificate.
    GetNewCertificate,
    /// Nothing: the certificate does not need to be renewed.
    NotDue,
    /// Nothing: the certificate has been renewed.
    Renewed,
    /// Nothing: the renewal has failed.
    Failed(Error),
}

/// What has to be done next to renew a certificate.
pub enum RenewalView<P, R, V> {
    GetCertificate,
    GetRenewalInfo { ari_id: Seq<char>, not_after: i128, now: i128 },
    GetAccountKey,
    CreateAccountKey,
    OpenAccount,
    PlaceOrder,
    CreateTxtRecords { order: P },
    GetNameServers { order: P },
    LookUpTxtRecords { order: P, name: Seq<char>, retry_delay: nat },
    Sleep { order: P, name: Seq<char>, retry_delay: nat },
    CompleteAuthorization { order: P },
    DeleteTxtRecords { outcome: Result<R, Seq<Seq<char>>> },
    CreateCsr { order: R },
    FinalizeOrder { order: R, csr: Seq<char> },
    DownloadCertificate { order: V },
    MergeCertificates { certificates: Seq<Seq<char>> },
    GetNewCertificate,
    NotDue,
    Renewed,
    Failed(Seq<Seq<char>>),
}

impl<P, R, V> View for Renewal<P, R, V> {
    type V = RenewalView<P, R, V>;

    open spec fn view(&self) -> RenewalView<P, R, V> {
        match *self {
            Renewal::GetCertificate => RenewalView::GetCertificate,
            Renewal::GetRenewalInfo { ari_id, not_after, now } => RenewalView::GetRenewalInfo {
                ari_id: ari_id@,
                not_after,
                now,
            },
            Renewal::GetAccountKey => RenewalView::GetAccountKey,
            Renewal::CreateAccountKey => RenewalView::CreateAccountKey,
            Renewal::OpenAccount => RenewalView::OpenAccount,
            Renewal::PlaceOrder => RenewalView::PlaceOrder,
            Renewal::CreateTxtRecords { order } => RenewalView::CreateTxtRecords { order },
            Renewal::GetNameServers { order } => RenewalView::GetNameServers { order },
            Renewal::LookUpTxtRecords { order, name, retry_delay } =>
                RenewalView::LookUpTxtRecords { order, name: name@, retry_delay: retry_delay@ },
            Renewal::Sleep { order, name, retry_delay } => RenewalView::Sleep {
                order,
                name: name@,
                retry_delay: retry_delay@,
            },
            Renewal::CompleteAuthorization { order } => RenewalView::CompleteAuthorization { order },
            Renewal::DeleteTxtRecords { outcome } => RenewalView::DeleteTxtRecords {
                outcome: match outcome {
                    Ok(order) => Ok(order),
                    Err(err) => Err(err@),
                },
            },
            Renewal::CreateCsr { order } => RenewalView::CreateCsr { order },
            Renewal::FinalizeOrder { order, csr } => RenewalView::FinalizeOrder { order, csr: csr@ },
            Renewal::DownloadCertificate { order } => RenewalView::DownloadCertificate { order },
            Renewal::MergeCertificates { certificates } => RenewalView::MergeCertificates {
                certificates: text::texts(certificates@),
            },
            Renewal::GetNewCertificate => RenewalView::GetNewCertificate,
            Renewal::NotDue => RenewalView::NotDue,
            Renewal::Renewed => RenewalView::Renewed,
            Renewal::Failed(err) => RenewalView::Failed(err@),
        }
    }
}

/// What has come of what had to be done.
#[derive(Debug)]
pub enum Event<P, R, V> {
    /// There is a certificate, or there is none.
    Certificate { certificate: Option<Certificate>, now: i128 },
    /// The start of the window that the server suggests, where it suggests one.
    RenewalInfo(Option<i128>),
    /// There is a key, or there is none.
    AccountKey { found: bool },
    AccountKeyCreated,
    AccountOpened,
    OrderPlaced(Placed<P, R, V>),
    TxtRecordsCreated,
    NameServers,
    /// The name servers know the TXT records, or do not.
    TxtRecords { found: bool },
    Slept,
    Authorized(R),
    TxtRecordsDeleted,
    Csr(String),
    Finalized(V),
    CertificateChain(String),
    Merged,
    /// There is a new certificate, or there is none.
    NewCertificate { found: bool },
    /// It has failed.
    Failed(Error),
}

/// How long to wait at first before the name servers are asked again, in nanoseconds.
pub open spec fn first_retry_delay() -> nat {
    100_000_000
}

/// How long to wait at most before the name servers are asked again, in nanoseconds.
pub open spec fn max_retry_delay() -> nat {
    500_000_000
}

/// How long to wait the next time: twice as long, but not longer than the limit.
pub open spec fn next_retry_delay(retry_delay: nat) -> nat {
    if 2 * retry_delay < max_retry_delay() {
        2 * retry_delay
    } else {
        max_retry_delay()
    }
}

/// What a renewal does about a certificate that the server has nothing to say about.
pub open spec fn expiry_decides<P, R, V>(
    procedure: Procedure,
    not_after: i128,
    now: i128,
) -> RenewalView<P, R, V> {
    let due = if procedure.renewal_info {
        !(not_after > now + RENEWAL_PERIOD)
    } else {
        not_after < now + RENEWAL_PERIOD
    };
    if due {
        RenewalView::GetAccountKey
    } else {
        RenewalView::NotDue
    }
}

/// What a renewal does about the certificate that there is.
pub open spec fn certificate_decides<P, R, V>(
    procedure: Procedure,
    certificate: Option<CertificateView>,
    now: i128,
) -> RenewalView<P, R, V> {
    match certificate {
        None => RenewalView::GetAccountKey,
        Some(certificate) => match certificate.ari_id {
            Some(ari_id) if procedure.renewal_info => RenewalView::GetRenewalInfo {
                ari_id,
                not_after: certificate.not_after,
                now,
            },
            _ => expiry_decides(procedure, certificate.not_after, now),
        },
    }
}

/// What a renewal does with an order.
pub open spec fn order_decides<P, R, V>(order: Placed<P, R, V>) -> RenewalView<P, R, V> {
    match order {
        Placed::Pending(order) => RenewalView::CreateTxtRecords { order },
        Placed::Ready(order) => RenewalView::CreateCsr { order },
        Placed::Valid(order) => RenewalView::DownloadCertificate { order },
    }
}

/// What a renewal does when something fails. Where there may be TXT records, they are deleted first.
pub open spec fn failure_decides<P, R, V>(
    state: RenewalView<P, R, V>,
    err: Seq<Seq<char>>,
) -> RenewalView<P, R, V> {
    match state {
        RenewalView::GetNameServers { .. } => RenewalView::DeleteTxtRecords { outcome: Err(err) },
        RenewalView::LookUpTxtRecords { .. } => RenewalView::DeleteTxtRecords { outcome: Err(err) },
        RenewalView::Sleep { .. } => RenewalView::DeleteTxtRecords { outcome: Err(err) },
        RenewalView::CompleteAuthorization { .. } => RenewalView::DeleteTxtRecords {
            outcome: Err(err),
        },
        RenewalView::OpenAccount => RenewalView::Failed(
            error::in_context("could not initialize ACME API client"@, err),
        ),
        RenewalView::NotDue => state,
        RenewalView::Renewed => state,
        RenewalView::Failed(_) => state,
        _ => RenewalView::Failed(err),
    }
}

/// What has to be done after something has come of what had to be done. Nothing else counts.
pub open spec fn advanced<P, R, V>(
    procedure: Procedure,
    domain: Seq<char>,
    state: RenewalView<P, R, V>,
    event: Event<P, R, V>,
) -> RenewalView<P, R, V> {
    match (state, event) {
        (_, Event::Failed(err)) => failure_decides(state, err@),
        (RenewalView::GetCertificate, Event::Certificate { certificate, now }) =>
            certificate_decides(
            procedure,
            match certificate {
                Some(certificate) => Some(certificate@),
                None => None,
            },
            now,
        ),
        (RenewalView::GetRenewalInfo { not_after, now, .. }, Event::RenewalInfo(start)) =>
            match start {
            Some(start) => if start > now {
                RenewalView::NotDue
            } else {
                RenewalView::GetAccountKey
            },
            None => expiry_decides(procedure, not_after, now),
        },
        (RenewalView::GetAccountKey, Event::AccountKey { found }) => if found {
            RenewalView::OpenAccount
        } else {
            RenewalView::CreateAccountKey
        },
        (RenewalView::CreateAccountKey, Event::AccountKeyCreated) => RenewalView::OpenAccount,
        (RenewalView::OpenAccount, Event::AccountOpened) => RenewalView::PlaceOrder,
        (RenewalView::PlaceOrder, Event::OrderPlaced(order)) => order_decides(order),
        (RenewalView::CreateTxtRecords { order }, Event::TxtRecordsCreated) =>
            if procedure.await_txt_records {
            RenewalView::GetNameServers { order }
        } else {
            RenewalView::CompleteAuthorization { order }
        },
        (RenewalView::GetNameServers { order }, Event::NameServers) => match name_below(
            CHALLENGE_LABEL@,
            domain,
        ) {
            Ok(name) => RenewalView::LookUpTxtRecords {
                order,
                name,
                retry_delay: first_retry_delay(),
            },
            Err(err) => RenewalView::DeleteTxtRecords { outcome: Err(error::message(err)) },
        },
        (
            RenewalView::LookUpTxtRecords { order, name, retry_delay },
            Event::TxtRecords { found },
        ) => if found {
            RenewalView::CompleteAuthorization { order }
        } else {
            RenewalView::Sleep { order, name, retry_delay }
        },
        (RenewalView::Sleep { order, name, retry_delay }, Event::Slept) =>
            RenewalView::LookUpTxtRecords {
            order,
            name,
            retry_delay: next_retry_delay(retry_delay),
        },
        (RenewalView::CompleteAuthorization { .. }, Event::Authorized(order)) =>
            RenewalView::DeleteTxtRecords { outcome: Ok(order) },
        (RenewalView::DeleteTxtRecords { outcome }, Event::TxtRecordsDeleted) => match outcome {
            Ok(order) => RenewalView::CreateCsr { order },
            Err(err) => RenewalView::Failed(err),
        },
        (RenewalView::CreateCsr { order }, Event::Csr(csr)) => RenewalView::FinalizeOrder {
            order,
            csr: csr@,
        },
        (RenewalView::FinalizeOrder { .. }, Event::Finalized(order)) =>
            RenewalView::DownloadCertificate { order },
        (RenewalView::DownloadCertificate { .. }, Event::CertificateChain(chain)) =>
            match pem::certificates(chain@) {
            Ok(certificates) => RenewalView::MergeCertificates { certificates },
            Err(err) => RenewalView::Failed(err),
        },
        (RenewalView::MergeCertificates { .. }, Event::Merged) => if procedure.check_result {
            RenewalView::GetNewCertificate
        } else {
            RenewalView::Renewed
        },
        (RenewalView::GetNewCertificate, Event::NewCertificate { found }) => if found {
            RenewalView::Renewed
        } else {
            RenewalView::Failed(error::message("newly-created certificate does not exist"@))
        },
        _ => state,
    }
}

/// What is reported when `before` becomes `after`: that the certificate need not be renewed, or that it
/// has been.
pub open spec fn announced<P, R, V>(
    key_vault_name: Seq<char>,
    certificate_name: Seq<char>,
    before: RenewalView<P, R, V>,
    after: RenewalView<P, R, V>,
) -> Seq<Report<Seq<char>>> {
    let object_type = "azure/key_vault/certificate"@;
    let object_id = object_id::path2(key_vault_name, certificate_name);
    if after is NotDue && !(before is NotDue) {
        seq![
            Report::ObjectState { object_type, object_id, state: "does not need to be renewed"@ },
        ]
    } else if before is MergeCertificates && (after is GetNewCertificate || after is Renewed) {
        seq![Report::ObjectState { object_type, object_id, state: "renewed"@ }]
    } else {
        seq![]
    }
}

/// What a renewal does about a certificate that the server has nothing to say about.
fn decide_by_expiry<P, R, V>(procedure: Procedure, not_after: i128, now: i128) -> (r: Renewal<
    P,
    R,
    V,
>)
    ensures
        r@ == expiry_decides::<P, R, V>(procedure, not_after, now),
{
    let due = if procedure.renewal_info {
        !ends_later(not_after, now)
    } else {
        ends_sooner(not_after, now)
    };
    if due {
        Renewal::GetAccountKey
    } else {
        Renewal::NotDue
    }
}

/// What a renewal does about the certificate that there is.
fn decide_by_certificate<P, R, V>(
    procedure: Procedure,
    certificate: Option<Certificate>,
    now: i128,
) -> (r: Renewal<P, R, V>)
    ensures
        r@ == certificate_decides::<P, R, V>(
            procedure,
            match certificate {
                Some(certificate) => Some(certificate@),
                None => None,
            },
            now,
        ),
{
    match certificate {
        None => Renewal::GetAccountKey,
        Some(certificate) => match certificate.ari_id {
            Some(ari_id) => {
                if procedure.renewal_info {
                    Renewal::GetRenewalInfo { ari_id, not_after: certificate.not_after, now }
                } else {
                    decide_by_expiry(procedure, certificate.not_after, now)
                }
            },
            None => decide_by_expiry(procedure, certificate.not_after, now),
        },
    }
}

impl<P, R, V> Renewal<P, R, V> {
    /// What a renewal does when something fails.
    fn fail(self, err: Error) -> (r: Renewal<P, R, V>)
        ensures
            r@ == failure_decides(self@, err@),
    {
        match self {
            Renewal::GetNameServers { .. } => Renewal::DeleteTxtRecords { outcome: Err(err) },
            Renewal::LookUpTxtRecords { .. } => Renewal::DeleteTxtRecords { outcome: Err(err) },
            Renewal::Sleep { .. } => Renewal::DeleteTxtRecords { outcome: Err(err) },
            Renewal::CompleteAuthorization { .. } => Renewal::DeleteTxtRecords {
                outcome: Err(err),
            },
            Renewal::OpenAccount => Renewal::Failed(
                err.context("could not initialize ACME API client"),
            ),
            Renewal::NotDue => Renewal::NotDue,
            Renewal::Renewed => Renewal::Renewed,
            Renewal::Failed(first) => Renewal::Failed(first),
            _ => Renewal::Failed(err),
        }
    }

    /// What has to be done after something has come of what had to be done.
    fn next(self, procedure: Procedure, domain: &str, event: Event<P, R, V>) -> (r: Renewal<
        P,
        R,
        V,
    >)
        requires
            self@ matches RenewalView::Sleep { retry_delay, .. } ==> retry_delay
                <= max_retry_delay(),
        ensures
            r@ == advanced(procedure, domain@, self@, event),
    {
        match (self, event) {
            (state, Event::Failed(err)) => state.fail(err),
            (Renewal::GetCertificate, Event::Certificate { certificate, now }) =>
                decide_by_certificate(procedure, certificate, now),
            (Renewal::GetRenewalInfo { not_after, now, .. }, Event::RenewalInfo(start)) =>
                match start {
                Some(start) => {
                    if start > now {
                        Renewal::NotDue
                    } else {
                        Renewal::GetAccountKey
                    }
                },
                None => decide_by_expiry(procedure, not_after, now),
            },
            (Renewal::GetAccountKey, Event::AccountKey { found }) => {
                if found {
                    Renewal::OpenAccount
                } else {
                    Renewal::CreateAccountKey
                }
            },
            (Renewal::CreateAccountKey, Event::AccountKeyCreated) => Renewal::OpenAccount,
            (Renewal::OpenAccount, Event::AccountOpened) => Renewal::PlaceOrder,
            (Renewal::PlaceOrder, Event::OrderPlaced(order)) => match order {
                Placed::Pending(order) => Renewal::CreateTxtRecords { order },
                Placed::Ready(order) => Renewal::CreateCsr { order },
                Placed::Valid(order) => Renewal::DownloadCertificate { order },
            },
            (Renewal::CreateTxtRecords { order }, Event::TxtRecordsCreated) => {
                if procedure.await_txt_records {
                    Renewal::GetNameServers { order }
                } else {
                    Renewal::CompleteAuthorization { order }
                }
            },
            (Renewal::GetNameServers { order }, Event::NameServers) => match append_domain(
                CHALLENGE_LABEL,
                domain,
            ) {
                Ok(name) => Renewal::LookUpTxtRecords {
                    order,
                    name,
                    retry_delay: Duration::from_millis(100),
                },
                Err(err) => Renewal::DeleteTxtRecords { outcome: Err(Error::new(err.as_str())) },
            },
            (
                Renewal::LookUpTxtRecords { order, name, retry_delay },
                Event::TxtRecords { found },
            ) => {
                if found {
                    Renewal::CompleteAuthorization { order }
                } else {
                    Renewal::Sleep { order, name, retry_delay }
                }
            },
            (Renewal::Sleep { order, name, retry_delay }, Event::Slept) =>
                Renewal::LookUpTxtRecords {
                order,
                name,
                retry_delay: Duration::from_millis(500).min(retry_delay.double()),
            },
            (Renewal::CompleteAuthorization { .. }, Event::Authorized(order)) =>
                Renewal::DeleteTxtRecords { outcome: Ok(order) },
            (Renewal::DeleteTxtRecords { outcome }, Event::TxtRecordsDeleted) => match outcome {
                Ok(order) => Renewal::CreateCsr { order },
                Err(err) => Renewal::Failed(err),
            },
            (Renewal::CreateCsr { order }, Event::Csr(csr)) => Renewal::FinalizeOrder { order, csr },
            (Renewal::FinalizeOrder { .. }, Event::Finalized(order)) =>
                Renewal::DownloadCertificate { order },
            (Renewal::DownloadCertificate { .. }, Event::CertificateChain(chain)) =>
                match pem::split(chain.as_str()) {
                Ok(certificates) => Renewal::MergeCertificates { certificates },
                Err(err) => Renewal::Failed(err),
            },
            (Renewal::MergeCertificates { .. }, Event::Merged) => {
                if procedure.check_result {
                    Renewal::GetNewCertificate
                } else {
                    Renewal::Renewed
                }
            },
            (Renewal::GetNewCertificate, Event::NewCertificate { found }) => {
                if found {
                    Renewal::Renewed
                } else {
                    Renewal::Failed(Error::new("newly-created certificate does not exist"))
                }
            },
            (state, _) => state,
        }
    }
}

/// Whether the name servers are asked again at the right pace.
pub open spec fn is_paced<P, R, V>(state: RenewalView<P, R, V>) -> bool {
    match state {
        RenewalView::LookUpTxtRecords { retry_delay, .. } => first_retry_delay() <= retry_delay
            <= max_retry_delay(),
        RenewalView::Sleep { retry_delay, .. } => first_retry_delay() <= retry_delay
            <= max_retry_delay(),
        _ => true,
    }
}

/// The renewal of a certificate.
#[derive(Debug)]
pub struct RenewCert<P, R, V> {
    procedure: Procedure,
    key_vault_name: String,
    certificate_name: String,
    domain: String,
    state: Renewal<P, R, V>,
}

/// The renewal of a certificate.
pub struct RenewCertView<P, R, V> {
    pub procedure: Procedure,
    pub key_vault_name: Seq<char>,
    pub certificate_name: Seq<char>,
    pub domain: Seq<char>,
    pub state: RenewalView<P, R, V>,
}

impl<P, R, V> View for RenewCert<P, R, V> {
    type V = RenewCertView<P, R, V>;

    closed spec fn view(&self) -> RenewCertView<P, R, V> {
        RenewCertView {
            procedure: self.procedure,
            key_vault_name: self.key_vault_name@,
            certificate_name: self.certificate_name@,
            domain: self.domain@,
            state: self.state@,
        }
    }
}

/// A renewal after something has come of what had to be done.
pub open spec fn renewal_advanced<P, R, V>(
    renewal: RenewCertView<P, R, V>,
    event: Event<P, R, V>,
) -> RenewCertView<P, R, V> {
    RenewCertView {
        state: advanced(renewal.procedure, renewal.domain, renewal.state, event),
        ..renewal
    }
}

impl<P, R, V> RenewCert<P, R, V> {
    #[verifier::type_invariant]
    spec fn paced(self) -> bool {
        is_paced(self.state@)
    }

    /// Starts the renewal of a certificate.
    pub fn new(procedure: Procedure, settings: &Settings) -> (r: RenewCert<P, R, V>)
        ensures
            r@ == (RenewCertView::<P, R, V> {
                procedure,
                key_vault_name: settings.azure_key_vault_name@,
                certificate_name: settings.azure_key_vault_certificate_name@,
                domain: settings.top_level_domain_name@,
                state: RenewalView::GetCertificate,
            }),
    {
        RenewCert {
            procedure,
            key_vault_name: settings.azure_key_vault_name.clone(),
            certificate_name: settings.azure_key_vault_certificate_name.clone(),
            domain: settings.top_level_domain_name.clone(),
            state: Renewal::GetCertificate,
        }
    }

    /// What has to be done next.
    pub fn state(&self) -> (r: &Renewal<P, R, V>)
        ensures
            r@ == self@.state,
            is_paced(r@),
    {
        proof {
            use_type_invariant(self);
        }
        &self.state
    }

    /// Goes on after something has come of what had to be done. The first result is what has to be
    /// reported.
    pub fn step(self, event: Event<P, R, V>) -> (r: (Vec<Report<String>>, RenewCert<P, R, V>))
        ensures
            r.1@ == renewal_advanced(self@, event),
            log2::reports_view(r.0@) == announced(
                self@.key_vault_name,
                self@.certificate_name,
                self@.state,
                r.1@.state,
            ),
    {
        proof {
            use_type_invariant(&self);
        }
        let ghost before = self@;
        let was_done = match &self.state {
            Renewal::NotDue => true,
            _ => false,
        };
        let merging = match &self.state {
            Renewal::MergeCertificates { .. } => true,
            _ => false,
        };
        let state = self.state.next(self.procedure, self.domain.as_str(), event);
        let mut reports: Vec<Report<String>> = Vec::new();
        let object_id = ObjectId(
            (self.key_vault_name.as_str(), self.certificate_name.as_str()),
        ).text();
        let announcement = match &state {
            Renewal::NotDue => {
                if was_done {
                    None
                } else {
                    Some("does not need to be renewed")
                }
            },
            Renewal::GetNewCertificate => {
                if merging {
                    Some("renewed")
                } else {
                    None
                }
            },
            Renewal::Renewed => {
                if merging {
                    Some("renewed")
                } else {
                    None
                }
            },
            _ => None,
        };
        if let Some(announcement) = announcement {
            reports.push(
                log2::state_report(
                    "azure/key_vault/certificate",
                    object_id.as_str(),
                    announcement.to_owned(),
                ),
            );
        }
        assert(log2::reports_view(reports@) =~= announced(
            before.key_vault_name,
            before.certificate_name,
            before.state,
            state@,
        ));
        let renewal = RenewCert {
            procedure: self.procedure,
            key_vault_name: self.key_vault_name,
            certificate_name: self.certificate_name,
            domain: self.domain,
            state,
        };
        (reports, renewal)
    }

    /// What a renewal that has come to its end says, unless it has failed.
    pub fn conclusion(&self) -> (r: Option<&'static str>)
        ensures
            match self@.state {
                RenewalView::NotDue => r matches Some(s) && s@
                    == "certificate does not need to be renewed"@,
                RenewalView::Renewed => r matches Some(s) && s@ == "certificate has been renewed"@,
                _ => r is None,
            },
            r matches Some(s) ==> concluded(self@.state) == Some(s@),
            r is None ==> concluded(self@.state) is None,
    {
        match &self.state {
            Renewal::NotDue => Some("certificate does not need to be renewed"),
            Renewal::Renewed => Some("certificate has been renewed"),
            _ => None,
        }
    }

    /// What a person who watches is told when a renewal has come to its end, unless it has failed.
    pub fn announcement(&self) -> (r: Option<&'static str>)
        ensures
            match self@.state {
                RenewalView::NotDue => r matches Some(s) && s@
                    == "Certificate does not need to be renewed"@,
                RenewalView::Renewed => r matches Some(s) && s@ == "Certificate has been renewed"@,
                _ => r is None,
            },
    {
        match &self.state {
            Renewal::NotDue => Some("Certificate does not need to be renewed"),
            Renewal::Renewed => Some("Certificate has been renewed"),
            _ => None,
        }
    }
}

/// What a renewal that has come to its end says, unless it has failed.
pub open spec fn concluded<P, R, V>(state: RenewalView<P, R, V>) -> Option<Seq<char>> {
    match state {
        RenewalView::NotDue => Some("certificate does not need to be renewed"@),
        RenewalView::Renewed => Some("certificate has been renewed"@),
        _ => None,
    }
}

/// The name that a certificate is ordered for.
pub open spec fn ordered_name(procedure: Procedure, domain: Seq<char>) -> Seq<char> {
    if procedure.whole_domain {
        domain
    } else {
        "*."@ + domain
    }
}

/// What is asked of the KeyVault next.
pub open spec fn key_vault_work<P, R, V>(
    renewal: RenewCertView<P, R, V>,
    settings: Settings,
    key_vault_name: Seq<char>,
) -> Option<CallView> {
    match renewal.state {
        RenewalView::GetCertificate => Some(
            certificate::certificate_get_call(key_vault_name, renewal.certificate_name),
        ),
        RenewalView::GetAccountKey => Some(
            key::key_get_call(key_vault_name, settings.azure_key_vault_acme_account_key_name@),
        ),
        RenewalView::CreateAccountKey => Some(
            key::key_create_call(
                key_vault_name,
                settings.azure_key_vault_acme_account_key_name@,
                settings.azure_key_vault_acme_account_key_type.0,
                settings.azure_key_vault_acme_account_key_type.1,
            ),
        ),
        RenewalView::CreateCsr { .. } => Some(
            certificate::csr_create_call(
                key_vault_name,
                renewal.certificate_name,
                ordered_name(renewal.procedure, renewal.domain),
                settings.azure_key_vault_certificate_key_type,
            ),
        ),
        RenewalView::MergeCertificates { certificates } => Some(
            certificate::certificate_merge_call(
                key_vault_name,
                renewal.certificate_name,
                certificates,
            ),
        ),
        RenewalView::GetNewCertificate => Some(
            certificate::certificate_get_call(key_vault_name, renewal.certificate_name),
        ),
        _ => None,
    }
}

/// A pending order, which TXT records can answer.
pub trait Challenged {
    /// What the TXT records have to hold.
    spec fn challenge_answers(&self) -> Seq<Seq<char>>;

    /// What the TXT records have to hold.
    fn answers(&self) -> (r: Vec<String>)
        ensures
            text::texts(r@) == self.challenge_answers(),
    ;
}

impl Challenged for order::OrderPending {
    open spec fn challenge_answers(&self) -> Seq<Seq<char>> {
        order::answers(self@.authorizations)
    }

    fn answers(&self) -> (r: Vec<String>) {
        self.dns_txt_record_contents()
    }
}

impl Challenged for proto::OrderPending {
    open spec fn challenge_answers(&self) -> Seq<Seq<char>> {
        seq![self@.dns_txt_record_content]
    }

    fn answers(&self) -> (r: Vec<String>) {
        let r = vec![self.content()];
        assert(text::texts(r@) =~= seq![self@.dns_txt_record_content]);
        r
    }
}

/// What is asked of the DNS zone next.
pub open spec fn dns_work<P: Challenged, R, V>(renewal: RenewCertView<P, R, V>) -> Option<
    CallView,
> {
    match renewal.state {
        RenewalView::CreateTxtRecords { order } => Some(
            dns::txt_create_call(renewal.domain, CHALLENGE_LABEL@, order.challenge_answers()),
        ),
        RenewalView::GetNameServers { .. } => Some(dns::name_servers_call(renewal.domain)),
        RenewalView::DeleteTxtRecords { .. } => Some(
            dns::txt_delete_call(renewal.domain, CHALLENGE_LABEL@),
        ),
        _ => None,
    }
}

/// The view of an optional call.
pub open spec fn optional_call(call: Option<Call>) -> Option<CallView> {
    match call {
        Some(call) => Some(call@),
        None => None,
    }
}

impl<P, R, V> RenewCert<P, R, V> {
    /// The name that the certificate is ordered for.
    pub fn order_name(&self) -> (r: String)
        ensures
            r@ == ordered_name(self@.procedure, self@.domain),
    {
        if self.procedure.whole_domain {
            self.domain.clone()
        } else {
            let mut name = "*.".to_owned();
            name.append(self.domain.as_str());
            name
        }
    }

    /// What is asked of the KeyVault next, if that is what has to be done.
    pub fn key_vault_call(&self, settings: &Settings, client: &key_vault::Client<'_>) -> (r: Option<
        Call,
    >)
        ensures
            optional_call(r) == key_vault_work(self@, *settings, client@.key_vault_name),
    {
        let name = self.certificate_name.as_str();
        match &self.state {
            Renewal::GetCertificate => Some(client.certificate_get(name)),
            Renewal::GetAccountKey => Some(
                client.key_get(settings.azure_key_vault_acme_account_key_name.as_str()),
            ),
            Renewal::CreateAccountKey => {
                let (kty, crv) = settings.azure_key_vault_acme_account_key_type;
                Some(
                    client.key_create(
                        settings.azure_key_vault_acme_account_key_name.as_str(),
                        kty,
                        crv,
                    ),
                )
            },
            Renewal::CreateCsr { .. } => Some(
                client.csr_create(
                    name,
                    self.order_name().as_str(),
                    settings.azure_key_vault_certificate_key_type,
                ),
            ),
            Renewal::MergeCertificates { certificates } => Some(
                client.certificate_merge(name, certificates),
            ),
            Renewal::GetNewCertificate => Some(client.certificate_get(name)),
            _ => None,
        }
    }

    /// The operation that asking the name servers is reported as, if that is what has to be done.
    pub fn lookup_scope(&self) -> (r: Option<Scope>)
        ensures
            match self@.state {
                RenewalView::LookUpTxtRecords { name, .. } => r matches Some(scope) && scope@ == (
                ScopeView {
                    object_type: "dns/lookup"@,
                    object_id: name,
                    operation: ScopedObjectOperation::Get,
                }),
                _ => r is None,
            },
    {
        match &self.state {
            Renewal::LookUpTxtRecords { name, .. } => Some(Scope::get("dns/lookup", name.clone())),
            _ => None,
        }
    }
}

impl<P: Challenged, R, V> RenewCert<P, R, V> {
    /// What is asked of the DNS zone next, if that is what has to be done.
    pub fn dns_call(&self, client: &management::Client<'_>) -> (r: Option<Call>)
        ensures
            optional_call(r) == dns_work(self@),
    {
        let zone = self.domain.as_str();
        match &self.state {
            Renewal::CreateTxtRecords { order } => {
                let contents = order.answers();
                Some(client.dns_txt_record_create(zone, CHALLENGE_LABEL, &contents))
            },
            Renewal::GetNameServers { .. } => Some(client.dns_zone_name_servers_get(zone)),
            Renewal::DeleteTxtRecords { .. } => Some(
                client.dns_txt_record_delete(zone, CHALLENGE_LABEL),
            ),
            _ => None,
        }
    }
}

/// The TXT records that are deleted are the ones that were created: whatever the order and its outcome,
/// the two requests are about the same records of the same zone.
pub proof fn the_created_records_are_deleted<P: Challenged, R, V>(
    renewal: RenewCertView<P, R, V>,
    order: P,
    outcome: Result<R, Seq<Seq<char>>>,
)
    ensures
        ({
            let creating = RenewCertView {
                state: RenewalView::CreateTxtRecords { order },
                ..renewal
            };
            let deleting = RenewCertView {
                state: RenewalView::DeleteTxtRecords { outcome },
                ..renewal
            };
            &&& dns_work(creating) matches Some(create)
            &&& dns_work(deleting) matches Some(delete)
            &&& create.url == delete.url
            &&& create.scope.object_id == delete.scope.object_id
        }),
{
}

/// Whether there may be TXT records that have to be deleted still.
pub open spec fn may_have_records<P, R, V>(state: RenewalView<P, R, V>) -> bool {
    state is GetNameServers || state is LookUpTxtRecords || state is Sleep
        || state is CompleteAuthorization
}

/// Whether a renewal has come to its end.
pub open spec fn is_over<P, R, V>(state: RenewalView<P, R, V>) -> bool {
    state is NotDue || state is Renewed || state is Failed
}

/// The states of a renewal, from its start on.
pub open spec fn states<P, R, V>(
    procedure: Procedure,
    domain: Seq<char>,
    events: Seq<Event<P, R, V>>,
) -> Seq<RenewalView<P, R, V>>
    decreases events.len(),
{
    if events.len() == 0 {
        seq![RenewalView::GetCertificate]
    } else {
        let before = states(procedure, domain, events.drop_last());
        before.push(advanced(procedure, domain, before.last(), events.last()))
    }
}

/// There is a state before and after each event.
proof fn lemma_states_len<P, R, V>(
    procedure: Procedure,
    domain: Seq<char>,
    events: Seq<Event<P, R, V>>,
)
    ensures
        states(procedure, domain, events).len() == events.len() + 1,
    decreases events.len(),
{
    if events.len() > 0 {
        lemma_states_len(procedure, domain, events.drop_last());
    }
}

/// TXT records do not stay behind: whatever happens after they may have been created, a renewal gets
/// nowhere else, neither to its end nor to the rest of its work, without being told to delete them.
pub proof fn txt_records_are_deleted<P, R, V>(
    procedure: Procedure,
    domain: Seq<char>,
    events: Seq<Event<P, R, V>>,
    from: int,
    to: int,
)
    requires
        0 <= from < to <= events.len(),
        may_have_records(states(procedure, domain, events)[from]),
        !may_have_records(states(procedure, domain, events)[to]),
    ensures
        exists|i: int|
            from < i <= to && #[trigger] states(procedure, domain, events)[i] is DeleteTxtRecords,
    decreases events.len(),
{
    let all = states(procedure, domain, events);
    let before = states(procedure, domain, events.drop_last());
    lemma_states_len(procedure, domain, events);
    lemma_states_len(procedure, domain, events.drop_last());
    assert(all == before.push(advanced(procedure, domain, before.last(), events.last())));
    if to < events.len() {
        assert(before[from] == all[from] && before[to] == all[to]);
        txt_records_are_deleted(procedure, domain, events.drop_last(), from, to);
        let i = choose|i: int| from < i <= to && #[trigger] before[i] is DeleteTxtRecords;
        assert(all[i] is DeleteTxtRecords);
    } else {
        assert(all[to] == advanced(procedure, domain, before.last(), events.last()));
        assert(before.last() == all[to - 1]);
        if may_have_records(all[to - 1]) {
            assert(all[to] is DeleteTxtRecords);
        } else {
            assert(from < to - 1);
            assert(before[from] == all[from] && before[to - 1] == all[to - 1]);
            txt_records_are_deleted(procedure, domain, events.drop_last(), from, to - 1);
            let i = choose|i: int| from < i <= to - 1 && #[trigger] before[i] is DeleteTxtRecords;
            assert(all[i] is DeleteTxtRecords);
        }
    }
}

/// Once TXT records have been created, a renewal knows that it may have records.
pub proof fn created_records_are_known<P, R, V>(procedure: Procedure, domain: Seq<char>, order: P)
    ensures
        may_have_records(
            advanced::<P, R, V>(
                procedure,
                domain,
                RenewalView::CreateTxtRecords { order },
                Event::TxtRecordsCreated,
            ),
        ),
{
}

/// A renewal that is over stays as it is.
pub proof fn the_end_is_final<P, R, V>(
    procedure: Procedure,
    domain: Seq<char>,
    state: RenewalView<P, R, V>,
    event: Event<P, R, V>,
)
    requires
        is_over(state),
    ensures
        advanced(procedure, domain, state, event) == state,
{
}

/// A certificate that is not due costs nothing: where there is nothing but its end to go by, and that is
/// more than thirty days away, a renewal is over at once.
pub proof fn nothing_is_done_too_early<P, R, V>(
    procedure: Procedure,
    domain: Seq<char>,
    certificate: Certificate,
    now: i128,
)
    requires
        certificate.ari_id is None || !procedure.renewal_info,
        certificate.not_after > now + RENEWAL_PERIOD,
    ensures
        advanced::<P, R, V>(
            procedure,
            domain,
            RenewalView::GetCertificate,
            Event::Certificate { certificate: Some(certificate), now },
        ) is NotDue,
{
}

/// A certificate that ends within less than thirty days is renewed, where there is nothing but its end to
/// go by.
pub proof fn a_due_certificate_is_renewed<P, R, V>(
    procedure: Procedure,
    domain: Seq<char>,
    certificate: Certificate,
    now: i128,
)
    requires
        certificate.ari_id is None || !procedure.renewal_info,
        certificate.not_after < now + RENEWAL_PERIOD,
    ensures
        advanced::<P, R, V>(
            procedure,
            domain,
            RenewalView::GetCertificate,
            Event::Certificate { certificate: Some(certificate), now },
        ) is GetAccountKey,
{
}

/// Where the server suggests when to renew a certificate, this alone decides: before the start of the
/// window that it suggests, nothing is done, and from then on the certificate is renewed, whenever it
/// ends.
pub proof fn the_suggestion_decides<P, R, V>(
    procedure: Procedure,
    domain: Seq<char>,
    certificate: Certificate,
    now: i128,
    start: i128,
)
    requires
        procedure.renewal_info,
        certificate@.ari_id is Some,
    ensures
        ({
            let asking = advanced::<P, R, V>(
                procedure,
                domain,
                RenewalView::GetCertificate,
                Event::Certificate { certificate: Some(certificate), now },
            );
            &&& asking is GetRenewalInfo
            &&& advanced(procedure, domain, asking, Event::RenewalInfo(Some(start))) == if start
                > now {
                RenewalView::<P, R, V>::NotDue
            } else {
                RenewalView::GetAccountKey
            }
        }),
{
}

/// A renewal ends well only after the certificates have been put into the KeyVault, and, where the new
/// certificate is looked at, only if it is there.
pub proof fn renewed_means_merged<P, R, V>(
    procedure: Procedure,
    domain: Seq<char>,
    state: RenewalView<P, R, V>,
    event: Event<P, R, V>,
)
    ensures
        ({
            let next = advanced(procedure, domain, state, event);
            let merged = state is MergeCertificates && event is Merged;
            &&& next is Renewed && !(state is Renewed) ==> (merged && !procedure.check_result) || (
            state is GetNewCertificate && event == Event::<P, R, V>::NewCertificate {
                found: true,
            })
            &&& next is GetNewCertificate && !(state is GetNewCertificate) ==> merged
                && procedure.check_result
        }),
{
}

/// The name servers are asked again after growing spans, which stay between a tenth of a second and half
/// a second.
pub proof fn retry_delays_grow(retry_delay: nat)
    requires
        first_retry_delay() <= retry_delay <= max_retry_delay(),
    ensures
        retry_delay <= next_retry_delay(retry_delay) <= max_retry_delay(),
{
}

/// The certificates that are put into the KeyVault are those of the chain that the ACME server has issued,
/// all of them and in its order: a renewal that fetches a chain goes on to merge as many certificates as
/// the chain was written from, each the text between its start and its end, and the request for that
/// carries exactly these.
pub proof fn the_whole_chain_is_merged<P, R, V>(
    renewal: RenewCertView<P, R, V>,
    order: V,
    bodies: Seq<Seq<Seq<char>>>,
    chain: String,
    settings: Settings,
    key_vault_name: Seq<char>,
)
    requires
        renewal.state == (RenewalView::<P, R, V>::DownloadCertificate { order }),
        bodies.len() > 0,
        forall|i: int, j: int|
            0 <= i < bodies.len() && 0 <= j < bodies[i].len() ==> pem::is_body_line(
                #[trigger] bodies[i][j],
            ),
        chain@ == pem::text_of_lines(pem::chain_lines(bodies)),
    ensures
        ({
            let next = renewal_advanced(renewal, Event::CertificateChain(chain));
            let certificates = Seq::new(bodies.len(), |i: int| pem::joined(bodies[i]));
            &&& next.state == (RenewalView::<P, R, V>::MergeCertificates { certificates })
            &&& key_vault_work(next, settings, key_vault_name) matches Some(call) && call.method
                == crate::http_common::Method::Post && call.url == crate::azure::UrlView::PathAndQuery(
                "/certificates/"@ + renewal.certificate_name + "/pending/merge?api-version=7.4"@,
            ) && call.body == Some(
                seq!['{'] + crate::json::json_string("x5c"@) + seq![':'] + crate::json::json_array(
                    Seq::new(bodies.len(), |i: int| crate::json::json_string(pem::joined(bodies[i]))),
                ) + seq!['}'],
            )
        }),
{
    pem::splitting_undoes_writing(bodies);
    let certificates = Seq::new(bodies.len(), |i: int| pem::joined(bodies[i]));
    assert(bodies.map_values(|body: Seq<Seq<char>>| pem::joined(body)) =~= certificates);
    certificate::a_merge_carries_all_certificates(
        key_vault_name,
        renewal.certificate_name,
        certificates,
    );
    assert(Seq::new(certificates.len(), |i: int| crate::json::json_string(certificates[i])) =~= Seq::new(
        bodies.len(),
        |i: int| crate::json::json_string(pem::joined(bodies[i])),
    ));
}

/// The certificates that are split off a chain are merged, all of them and in their order, whatever the
/// chain is; a chain that cannot be split ends the renewal with the reason.
pub proof fn what_is_fetched_is_merged<P, R, V>(
    procedure: Procedure,
    domain: Seq<char>,
    order: V,
    chain: String,
)
    ensures
        ({
            let next = advanced::<P, R, V>(
                procedure,
                domain,
                RenewalView::DownloadCertificate { order },
                Event::CertificateChain(chain),
            );
            match pem::certificates(chain@) {
                Ok(split) => next matches RenewalView::MergeCertificates { certificates }
                    && certificates.len() == split.len() && forall|i: int|
                    0 <= i < split.len() ==> #[trigger] certificates[i] == split[i],
                Err(err) => next matches RenewalView::Failed(failure) && failure == err,
            }
        }),
{
}

/// The request that creates the TXT records of a pending order has exactly one record for each pending
/// authorization of the order, and that record holds the answer to the challenge of that authorization.
pub proof fn each_authorization_gets_its_record<R, V>(
    renewal: RenewCertView<order::OrderPending, R, V>,
    order: order::OrderPending,
)
    requires
        renewal.state == (RenewalView::<order::OrderPending, R, V>::CreateTxtRecords { order }),
    ensures
        ({
            let records = Seq::new(
                order@.authorizations.len(),
                |i: int|
                    seq!['{'] + crate::json::json_string("value"@) + seq![':'] + (seq!['[']
                        + crate::json::json_string(order@.authorizations[i].dns_txt_record_content)
                        + seq![']']) + seq!['}'],
            );
            &&& dns_work(renewal) matches Some(call) && call.method == crate::http_common::Method::Put
                && call.url == crate::azure::UrlView::PathAndQuery(
                "/providers/Microsoft.Network/dnsZones/"@ + renewal.domain + "/TXT/"@
                    + "_acme-challenge"@ + "?api-version=2018-05-01"@,
            ) && call.body == Some(
                seq!['{'] + crate::json::json_string("properties"@) + seq![':'] + (seq!['{']
                    + crate::json::json_string("TTL"@) + seq![':'] + seq!['1'] + seq![',']
                    + crate::json::json_string("TXTRecords"@) + seq![':'] + crate::json::json_array(records)
                    + seq!['}']) + seq!['}'],
            )
        }),
{
    let contents = order.challenge_answers();
    order::there_is_one_answer_for_each_authorization(order@.authorizations);
    dns::each_content_gets_its_record(renewal.domain, CHALLENGE_LABEL@, contents);
    assert(Seq::new(
        contents.len(),
        |i: int|
            seq!['{'] + crate::json::json_string("value"@) + seq![':'] + (seq!['[']
                + crate::json::json_string(contents[i]) + seq![']']) + seq!['}'],
    ) =~= Seq::new(
        order@.authorizations.len(),
        |i: int|
            seq!['{'] + crate::json::json_string("value"@) + seq![':'] + (seq!['[']
                + crate::json::json_string(order@.authorizations[i].dns_txt_record_content) + seq![']'])
                + seq!['}'],
    ));
}

/// Whatever kind of order is pending, the request that creates its TXT records is the one for all of the
/// answers that it asks for; an order with one authorization asks for the one answer to it.
pub proof fn all_answers_are_asked_for<P: Challenged, R, V>(
    renewal: RenewCertView<P, R, V>,
    order: P,
    single: proto::OrderPending,
)
    requires
        renewal.state == (RenewalView::<P, R, V>::CreateTxtRecords { order }),
    ensures
        dns_work(renewal) matches Some(call) && call == dns::txt_create_call(
            renewal.domain,
            "_acme-challenge"@,
            order.challenge_answers(),
        ),
        single.challenge_answers().len() == 1,
        single.challenge_answers()[0] == single@.dns_txt_record_content,
{
}

/// What is asked of the DNS zone is asked of the zone of the domain, about the records that answer the
/// challenges, and only where that is what has to be done.
pub proof fn the_zone_is_asked_about_its_challenges<P: Challenged, R, V>(
    renewal: RenewCertView<P, R, V>,
)
    ensures
        dns_work(renewal) is Some <==> renewal.state is CreateTxtRecords || renewal.state is GetNameServers
            || renewal.state is DeleteTxtRecords,
        renewal.state is GetNameServers ==> dns_work(renewal) == Some(
            dns::name_servers_call(renewal.domain),
        ),
        renewal.state is DeleteTxtRecords ==> dns_work(renewal) == Some(
            dns::txt_delete_call(renewal.domain, "_acme-challenge"@),
        ),
{
}

/// What is asked of the KeyVault is about the certificate of the renewal and about the account key of the
/// settings, with the kinds of keys that the settings ask for, and only where that is what has to be done.
pub proof fn the_key_vault_is_asked_for_what_the_settings_say<P, R, V>(
    renewal: RenewCertView<P, R, V>,
    settings: Settings,
    key_vault_name: Seq<char>,
)
    ensures
        ({
            let call = key_vault_work(renewal, settings, key_vault_name);
            let certificate_name = renewal.certificate_name;
            let account_key = settings.azure_key_vault_acme_account_key_name@;
            &&& call is Some <==> renewal.state is GetCertificate || renewal.state is GetAccountKey
                || renewal.state is CreateAccountKey || renewal.state is CreateCsr
                || renewal.state is MergeCertificates || renewal.state is GetNewCertificate
            &&& renewal.state is GetCertificate || renewal.state is GetNewCertificate ==> call == Some(
                certificate::certificate_get_call(key_vault_name, certificate_name),
            )
            &&& renewal.state is GetAccountKey ==> call == Some(
                key::key_get_call(key_vault_name, account_key),
            )
            &&& renewal.state is CreateAccountKey ==> call == Some(
                key::key_create_call(
                    key_vault_name,
                    account_key,
                    settings.azure_key_vault_acme_account_key_type.0,
                    settings.azure_key_vault_acme_account_key_type.1,
                ),
            )
            &&& renewal.state is CreateCsr ==> call == Some(
                certificate::csr_create_call(
                    key_vault_name,
                    certificate_name,
                    if renewal.procedure.whole_domain {
                        renewal.domain
                    } else {
                        seq!['*', '.'] + renewal.domain
                    },
                    settings.azure_key_vault_certificate_key_type,
                ),
            )
        }),
{
    reveal_strlit("*.");
    assert("*."@ =~= seq!['*', '.']);
}

/// A renewal in which nothing fails goes through all of its steps, and each of them gets what the ones
/// before it have come to: the order that was placed is the one whose records are created and whose
/// challenges are met, the one that has been authorized is finalized with the signing request that was
/// created, and the certificate of the one that has been finalized is fetched.
pub proof fn a_renewal_goes_through_its_steps<P, R, V>(
    procedure: Procedure,
    domain: Seq<char>,
    now: i128,
    found: bool,
    pending: P,
    ready: R,
    valid: V,
    csr: String,
)
    ensures
        advanced::<P, R, V>(
            procedure,
            domain,
            RenewalView::GetCertificate,
            Event::Certificate { certificate: None, now },
        ) is GetAccountKey,
        advanced::<P, R, V>(
            procedure,
            domain,
            RenewalView::GetAccountKey,
            Event::AccountKey { found },
        ) == if found {
            RenewalView::<P, R, V>::OpenAccount
        } else {
            RenewalView::CreateAccountKey
        },
        advanced::<P, R, V>(
            procedure,
            domain,
            RenewalView::CreateAccountKey,
            Event::AccountKeyCreated,
        ) is OpenAccount,
        advanced::<P, R, V>(procedure, domain, RenewalView::OpenAccount, Event::AccountOpened) is PlaceOrder,
        advanced::<P, R, V>(
            procedure,
            domain,
            RenewalView::PlaceOrder,
            Event::OrderPlaced(Placed::Pending(pending)),
        ) == (RenewalView::<P, R, V>::CreateTxtRecords { order: pending }),
        advanced::<P, R, V>(
            procedure,
            domain,
            RenewalView::PlaceOrder,
            Event::OrderPlaced(Placed::Ready(ready)),
        ) == (RenewalView::<P, R, V>::CreateCsr { order: ready }),
        advanced::<P, R, V>(
            procedure,
            domain,
            RenewalView::PlaceOrder,
            Event::OrderPlaced(Placed::Valid(valid)),
        ) == (RenewalView::<P, R, V>::DownloadCertificate { order: valid }),
        advanced::<P, R, V>(
            procedure,
            domain,
            RenewalView::CreateTxtRecords { order: pending },
            Event::TxtRecordsCreated,
        ) == if procedure.await_txt_records {
            RenewalView::<P, R, V>::GetNameServers { order: pending }
        } else {
            RenewalView::CompleteAuthorization { order: pending }
        },
        advanced::<P, R, V>(
            procedure,
            domain,
            RenewalView::CompleteAuthorization { order: pending },
            Event::Authorized(ready),
        ) == (RenewalView::<P, R, V>::DeleteTxtRecords { outcome: Ok(ready) }),
        advanced::<P, R, V>(
            procedure,
            domain,
            RenewalView::DeleteTxtRecords { outcome: Ok(ready) },
            Event::TxtRecordsDeleted,
        ) == (RenewalView::<P, R, V>::CreateCsr { order: ready }),
        advanced::<P, R, V>(
            procedure,
            domain,
            RenewalView::CreateCsr { order: ready },
            Event::Csr(csr),
        ) == (RenewalView::<P, R, V>::FinalizeOrder { order: ready, csr: csr@ }),
        advanced::<P, R, V>(
            procedure,
            domain,
            RenewalView::FinalizeOrder { order: ready, csr: csr@ },
            Event::Finalized(valid),
        ) == (RenewalView::<P, R, V>::DownloadCertificate { order: valid }),
        forall|certificates: Seq<Seq<char>>|
            #[trigger] advanced::<P, R, V>(
                procedure,
                domain,
                RenewalView::MergeCertificates { certificates },
                Event::Merged,
            ) == if procedure.check_result {
                RenewalView::<P, R, V>::GetNewCertificate
            } else {
                RenewalView::Renewed
            },
        advanced::<P, R, V>(
            procedure,
            domain,
            RenewalView::GetNewCertificate,
            Event::NewCertificate { found },
        ) == if found {
            RenewalView::<P, R, V>::Renewed
        } else {
            RenewalView::Failed(seq!["newly-created certificate does not exist"@])
        },
{
}

/// The name servers are asked for the records of the challenge label below the domain, for one order and
/// one name, until they know them: first after a tenth of a second, then after two tenths, then after four,
/// and from then on after half a second. Once they know them, the challenges of that order are met.
pub proof fn the_name_servers_are_asked_until_they_know<P, R, V>(
    procedure: Procedure,
    domain: Seq<char>,
    order: P,
    name: Seq<char>,
    retry_delay: nat,
)
    ensures
        match name_below("_acme-challenge"@, domain) {
            Ok(name) => advanced::<P, R, V>(
                procedure,
                domain,
                RenewalView::GetNameServers { order },
                Event::NameServers,
            ) == (RenewalView::<P, R, V>::LookUpTxtRecords { order, name, retry_delay: 100_000_000 }),
            Err(err) => advanced::<P, R, V>(
                procedure,
                domain,
                RenewalView::GetNameServers { order },
                Event::NameServers,
            ) == (RenewalView::<P, R, V>::DeleteTxtRecords { outcome: Err(seq![err]) }),
        },
        advanced::<P, R, V>(
            procedure,
            domain,
            RenewalView::LookUpTxtRecords { order, name, retry_delay },
            Event::TxtRecords { found: true },
        ) == (RenewalView::<P, R, V>::CompleteAuthorization { order }),
        advanced::<P, R, V>(
            procedure,
            domain,
            RenewalView::LookUpTxtRecords { order, name, retry_delay },
            Event::TxtRecords { found: false },
        ) == (RenewalView::<P, R, V>::Sleep { order, name, retry_delay }),
        advanced::<P, R, V>(
            procedure,
            domain,
            RenewalView::Sleep { order, name, retry_delay },
            Event::Slept,
        ) == (RenewalView::<P, R, V>::LookUpTxtRecords {
            order,
            name,
            retry_delay: if retry_delay >= 250_000_000 {
                500_000_000
            } else {
                retry_delay + retry_delay
            },
        }),
{
}

/// What goes wrong ends a renewal with the reason, as it was given. Only where there may be TXT records are
/// these deleted first, and the reason is kept until then; and where the ACME account could not be opened,
/// the reason says so.
pub proof fn a_failure_ends_a_renewal<P, R, V>(
    procedure: Procedure,
    domain: Seq<char>,
    state: RenewalView<P, R, V>,
    err: Error,
)
    requires
        !is_over(state),
    ensures
        ({
            let next = advanced(procedure, domain, state, Event::Failed(err));
            if state is GetNameServers || state is LookUpTxtRecords || state is Sleep
                || state is CompleteAuthorization {
                &&& next == (RenewalView::<P, R, V>::DeleteTxtRecords { outcome: Err(err@) })
                &&& advanced(procedure, domain, next, Event::TxtRecordsDeleted) == RenewalView::<
                    P,
                    R,
                    V,
                >::Failed(err@)
            } else if state is OpenAccount {
                next == RenewalView::<P, R, V>::Failed(
                    seq!["could not initialize ACME API client"@] + err@,
                )
            } else {
                next == RenewalView::<P, R, V>::Failed(err@)
            }
        }),
{
}

/// Only what was asked for counts: anything else leaves a renewal as it is.
pub proof fn nothing_else_counts<P, R, V>(
    procedure: Procedure,
    domain: Seq<char>,
    state: RenewalView<P, R, V>,
    event: Event<P, R, V>,
)
    requires
        !(event is Failed),
        event is Certificate ==> !(state is GetCertificate),
        event is RenewalInfo ==> !(state is GetRenewalInfo),
        event is AccountKey ==> !(state is GetAccountKey),
        event is AccountKeyCreated ==> !(state is CreateAccountKey),
        event is AccountOpened ==> !(state is OpenAccount),
        event is OrderPlaced ==> !(state is PlaceOrder),
        event is TxtRecordsCreated ==> !(state is CreateTxtRecords),
        event is NameServers ==> !(state is GetNameServers),
        event is TxtRecords ==> !(state is LookUpTxtRecords),
        event is Slept ==> !(state is Sleep),
        event is Authorized ==> !(state is CompleteAuthorization),
        event is TxtRecordsDeleted ==> !(state is DeleteTxtRecords),
        event is Csr ==> !(state is CreateCsr),
        event is Finalized ==> !(state is FinalizeOrder),
        event is CertificateChain ==> !(state is DownloadCertificate),
        event is Merged ==> !(state is MergeCertificates),
        event is NewCertificate ==> !(state is GetNewCertificate),
    ensures
        advanced(procedure, domain, state, event) == state,
{
}

/// The end of a certificate decides where there is nothing else to go by: with more than thirty days left
/// it is not due, with less it is. With exactly thirty days left it is due only where the server is asked
/// for suggestions, and just has none. Where it is asked, it is told of the certificate itself.
pub proof fn thirty_days_decide<P, R, V>(
    procedure: Procedure,
    domain: Seq<char>,
    certificate: Certificate,
    now: i128,
)
    ensures
        ({
            let first = advanced::<P, R, V>(
                procedure,
                domain,
                RenewalView::GetCertificate,
                Event::Certificate { certificate: Some(certificate), now },
            );
            let left = certificate.not_after - now;
            let days = 30 * 24 * 60 * 60 * 1_000_000_000int;
            let decided = if left > days || (left == days && !procedure.renewal_info) {
                RenewalView::<P, R, V>::NotDue
            } else {
                RenewalView::GetAccountKey
            };
            match certificate.ari_id {
                Some(ari_id) if procedure.renewal_info => first == (RenewalView::<
                    P,
                    R,
                    V,
                >::GetRenewalInfo { ari_id: ari_id@, not_after: certificate.not_after, now })
                    && advanced(procedure, domain, first, Event::RenewalInfo(None)) == decided,
                _ => first == decided,
            }
        }),
{
}

/// What is reported of a renewal: that the certificate does not need to be renewed, once, and that it has
/// been renewed, when it has been merged. Nothing else is.
pub proof fn the_outcome_is_reported<P, R, V>(
    key_vault_name: Seq<char>,
    certificate_name: Seq<char>,
    before: RenewalView<P, R, V>,
    after: RenewalView<P, R, V>,
)
    ensures
        ({
            let reports = announced(key_vault_name, certificate_name, before, after);
            let said = |state: Seq<char>|
                seq![
                    Report::<Seq<char>>::ObjectState {
                        object_type: "azure/key_vault/certificate"@,
                        object_id: key_vault_name + seq!['/'] + certificate_name,
                        state,
                    },
                ];
            &&& after is NotDue && !(before is NotDue) ==> reports == said(
                "does not need to be renewed"@,
            )
            &&& before is MergeCertificates && (after is Renewed || after is GetNewCertificate) ==> reports
                == said("renewed"@)
            &&& (before is NotDue || !(after is NotDue)) && (!(before is MergeCertificates) || !(
            after is Renewed || after is GetNewCertificate)) ==> reports.len() == 0
        }),
{
    object_id::parts_are_separated_by_slashes(key_vault_name, certificate_name, seq![]);
}

/// A step changes what has to be done next, and nothing else of a renewal.
pub proof fn a_step_keeps_the_renewal<P, R, V>(renewal: RenewCertView<P, R, V>, event: Event<P, R, V>)
    ensures
        ({
            let next = renewal_advanced(renewal, event);
            &&& next.procedure == renewal.procedure
            &&& next.key_vault_name == renewal.key_vault_name
            &&& next.certificate_name == renewal.certificate_name
            &&& next.domain == renewal.domain
            &&& next.state == advanced(renewal.procedure, renewal.domain, renewal.state, event)
        }),
{
}

/// The name that is ordered is the domain itself, or stands for all the names below it.
pub proof fn the_domain_is_ordered(procedure: Procedure, domain: Seq<char>)
    ensures
        ordered_name(procedure, domain) == if procedure.whole_domain {
            domain
        } else {
            seq!['*', '.'] + domain
        },
{
    reveal_strlit("*.");
    assert("*."@ =~= seq!['*', '.']);
}

/// A setting for the key of the ACME account says where the key is kept and on which curve it is: each
/// kind of key has one setting, and no other setting stands for a key.
pub proof fn each_account_key_has_one_setting(s: Seq<char>, kty: EcKty, crv: EcCurve)
    ensures
        account_key_type(s) == Some((kty, crv)) <==> s == match kty {
            EcKty::Ec => "ec:"@,
            EcKty::EcHsm => "ec-hsm:"@,
        } + match crv {
            EcCurve::P256 => "p256"@,
            EcCurve::P384 => "p384"@,
            EcCurve::P521 => "p521"@,
        },
{
    reveal_strlit("ec:");
    reveal_strlit("ec-hsm:");
    reveal_strlit("p256");
    reveal_strlit("p384");
    reveal_strlit("p521");
    reveal_strlit("ec:p256");
    reveal_strlit("ec-hsm:p256");
    reveal_strlit("ec:p384");
    reveal_strlit("ec-hsm:p384");
    reveal_strlit("ec:p521");
    reveal_strlit("ec-hsm:p521");
    assert("ec:p256"@ =~= "ec:"@ + "p256"@);
    assert("ec:p384"@ =~= "ec:"@ + "p384"@);
    assert("ec:p521"@ =~= "ec:"@ + "p521"@);
    assert("ec-hsm:p256"@ =~= "ec-hsm:"@ + "p256"@);
    assert("ec-hsm:p384"@ =~= "ec-hsm:"@ + "p384"@);
    assert("ec-hsm:p521"@ =~= "ec-hsm:"@ + "p521"@);
    assert("ec:p256"@.len() == 7 && "ec:p384"@.len() == 7 && "ec:p521"@.len() == 7);
    assert("ec-hsm:p256"@.len() == 11 && "ec-hsm:p384"@.len() == 11 && "ec-hsm:p521"@.len() == 11);
    assert("ec:p256"@[4] == '2' && "ec:p384"@[4] == '3' && "ec:p521"@[4] == '5');
    assert("ec-hsm:p256"@[8] == '2' && "ec-hsm:p384"@[8] == '3' && "ec-hsm:p521"@[8] == '5');
}

/// A setting for the private key of a certificate says what kind of key it is, how large it is or on which
/// curve, and whether it can be exported: each key that the KeyVault offers has its setting, an exportable
/// RSA key may also be written with a hyphen, and no other setting stands for a key.
pub proof fn each_certificate_key_has_its_setting(s: Seq<char>, key: CreateCsrKeyType)
    ensures
        certificate_key_type(s) == Some(key) <==> match key {
            CreateCsrKeyType::Ec { curve, exportable } => {
                let curve = match curve {
                    EcCurve::P256 => "p256"@,
                    EcCurve::P384 => "p384"@,
                    EcCurve::P521 => "p521"@,
                };
                if exportable {
                    s == "ec:"@ + curve + ":exportable"@
                } else {
                    s == "ec:"@ + curve
                }
            },
            CreateCsrKeyType::EcHsm { curve } => s == "ec-hsm:"@ + match curve {
                EcCurve::P256 => "p256"@,
                EcCurve::P384 => "p384"@,
                EcCurve::P521 => "p521"@,
            },
            CreateCsrKeyType::Rsa { num_bits, exportable } => {
                let bits = if num_bits == 2048 {
                    "2048"@
                } else {
                    "4096"@
                };
                (num_bits == 2048 || num_bits == 4096) && if exportable {
                    s == "rsa:"@ + bits + ":exportable"@ || s == "rsa-"@ + bits + ":exportable"@
                } else {
                    s == "rsa:"@ + bits
                }
            },
            CreateCsrKeyType::RsaHsm { num_bits } => (num_bits == 2048 && s == "rsa-hsm:"@ + "2048"@) || (
            num_bits == 4096 && s == "rsa-hsm:"@ + "4096"@),
        },
{
    reveal_strlit("ec:");
    reveal_strlit("ec-hsm:");
    reveal_strlit("rsa:");
    reveal_strlit("rsa-");
    reveal_strlit("rsa-hsm:");
    reveal_strlit(":exportable");
    reveal_strlit("p256");
    reveal_strlit("p384");
    reveal_strlit("p521");
    reveal_strlit("2048");
    reveal_strlit("4096");
    reveal_strlit("ec:p256");
    reveal_strlit("ec:p256:exportable");
    reveal_strlit("ec-hsm:p256");
    reveal_strlit("ec:p384");
    reveal_strlit("ec:p384:exportable");
    reveal_strlit("ec-hsm:p384");
    reveal_strlit("ec:p521");
    reveal_strlit("ec:p521:exportable");
    reveal_strlit("ec-hsm:p521");
    reveal_strlit("rsa:2048");
    reveal_strlit("rsa:2048:exportable");
    reveal_strlit("rsa-2048:exportable");
    reveal_strlit("rsa-hsm:2048");
    reveal_strlit("rsa:4096");
    reveal_strlit("rsa:4096:exportable");
    reveal_strlit("rsa-4096:exportable");
    reveal_strlit("rsa-hsm:4096");
    assert("ec:p256"@ =~= "ec:"@ + "p256"@);
    assert("ec:p256"@.len() == 7 && "ec:p256"@[4] == '2');
    assert("ec:p256:exportable"@ =~= "ec:"@ + "p256"@ + ":exportable"@);
    assert("ec:p256:exportable"@.len() == 18 && "ec:p256:exportable"@[4] == '2');
    assert("ec-hsm:p256"@ =~= "ec-hsm:"@ + "p256"@);
    assert("ec-hsm:p256"@.len() == 11 && "ec-hsm:p256"@[8] == '2');
    assert("ec:p384"@ =~= "ec:"@ + "p384"@);
    assert("ec:p384"@.len() == 7 && "ec:p384"@[4] == '3');
    assert("ec:p384:exportable"@ =~= "ec:"@ + "p384"@ + ":exportable"@);
    assert("ec:p384:exportable"@.len() == 18 && "ec:p384:exportable"@[4] == '3');
    assert("ec-hsm:p384"@ =~= "ec-hsm:"@ + "p384"@);
    assert("ec-hsm:p384"@.len() == 11 && "ec-hsm:p384"@[8] == '3');
    assert("ec:p521"@ =~= "ec:"@ + "p521"@);
    assert("ec:p521"@.len() == 7 && "ec:p521"@[4] == '5');
    assert("ec:p521:exportable"@ =~= "ec:"@ + "p521"@ + ":exportable"@);
    assert("ec:p521:exportable"@.len() == 18 && "ec:p521:exportable"@[4] == '5');
    assert("ec-hsm:p521"@ =~= "ec-hsm:"@ + "p521"@);
    assert("ec-hsm:p521"@.len() == 11 && "ec-hsm:p521"@[8] == '5');
    assert("rsa:2048"@ =~= "rsa:"@ + "2048"@);
    assert("rsa:2048"@.len() == 8 && "rsa:2048"@[4] == '2');
    assert("rsa:2048:exportable"@ =~= "rsa:"@ + "2048"@ + ":exportable"@);
    assert("rsa:2048:exportable"@.len() == 19 && "rsa:2048:exportable"@[4] == '2' && "rsa:2048:exportable"@[3] == ':');
    assert("rsa-2048:exportable"@ =~= "rsa-"@ + "2048"@ + ":exportable"@);
    assert("rsa-2048:exportable"@.len() == 19 && "rsa-2048:exportable"@[4] == '2' && "rsa-2048:exportable"@[3] == '-');
    assert("rsa-hsm:2048"@ =~= "rsa-hsm:"@ + "2048"@);
    assert("rsa-hsm:2048"@.len() == 12 && "rsa-hsm:2048"@[8] == '2');
    assert("rsa:4096"@ =~= "rsa:"@ + "4096"@);
    assert("rsa:4096"@.len() == 8 && "rsa:4096"@[4] == '4');
    assert("rsa:4096:exportable"@ =~= "rsa:"@ + "4096"@ + ":exportable"@);
    assert("rsa:4096:exportable"@.len() == 19 && "rsa:4096:exportable"@[4] == '4' && "rsa:4096:exportable"@[3] == ':');
    assert("rsa-4096:exportable"@ =~= "rsa-"@ + "4096"@ + ":exportable"@);
    assert("rsa-4096:exportable"@.len() == 19 && "rsa-4096:exportable"@[4] == '4' && "rsa-4096:exportable"@[3] == '-');
    assert("rsa-hsm:4096"@ =~= "rsa-hsm:"@ + "4096"@);
    assert("rsa-hsm:4096"@.len() == 12 && "rsa-hsm:4096"@[8] == '4');
}

/// A renewal says at its end whether the certificate has been renewed or did not need to be, and says nothing
/// before that, or if it has failed.
pub proof fn the_end_is_told<P, R, V>(state: RenewalView<P, R, V>)
    ensures
        concluded(state) is Some <==> is_over(state) && !(state is Failed),
        concluded(state) == Some("certificate has been renewed"@) <==> state is Renewed,
        concluded(state) == Some("certificate does not need to be renewed"@) <==> state is NotDue,
{
    reveal_strlit("certificate has been renewed");
    reveal_strlit("certificate does not need to be renewed");
    assert("certificate has been renewed"@.len() != "certificate does not need to be renewed"@.len());
}

/// A renewal that has looked for records waits for at least a tenth of a second and for at most half a
/// second.
pub proof fn the_pace_is_kept<P, R, V>(order: P, name: Seq<char>, retry_delay: nat)
    ensures
        is_paced(RenewalView::<P, R, V>::Sleep { order, name, retry_delay }) <==> 100_000_000 <= retry_delay
            <= 500_000_000,
        is_paced(RenewalView::<P, R, V>::LookUpTxtRecords { order, name, retry_delay })
            <==> 100_000_000 <= retry_delay <= 500_000_000,
{
}

} // verus!
