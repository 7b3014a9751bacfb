//! Certificates in a KeyVault, and the signing requests that they start as.

use vstd::prelude::*;
use x509_parser::extensions::ParsedExtension;
use x509_parser::oid_registry::OID_X509_EXT_AUTHORITY_KEY_IDENTIFIER;

use crate::acme;
use crate::acme::EcCurve;
use crate::azure::key_vault::Client;
use crate::azure::{Call, CallView, Url, UrlView};
use crate::encoding;
use crate::error;
use crate::error::Error;
use crate::http_common;
use crate::http_common::{
    FromResponse, HeaderValue, Method, ResponseBody, ResponseHeaders, StatusCode,
};
use crate::json;
use crate::log2;
use crate::log2::object_id;
use crate::log2::{ObjectId, Scope, ScopeView, ScopedObjectOperation, Shown};
use crate::text;
use crate::time2;

verus! {

/// The key of a certificate that is to be created.
#[derive(Clone, Copy, Debug, PartialEq, Eq, Structural)]
pub enum CreateCsrKeyType {
    Ec { curve: EcCurve, exportable: bool },
    EcHsm { curve: EcCurve },
    Rsa { num_bits: u16, exportable: bool },
    RsaHsm { num_bits: u16 },
}

/// The members of a policy that describe a key.
pub open spec fn key_type_members(key_type: CreateCsrKeyType) -> Seq<(Seq<char>, Seq<char>)> {
    match key_type {
        CreateCsrKeyType::Ec { curve, exportable } => seq![
            ("kty"@, json::json_string("EC"@)),
            ("crv"@, json::json_string(acme::curve_name(curve))),
            ("exportable"@, json::json_bool(exportable)),
        ],
        CreateCsrKeyType::EcHsm { curve } => seq![
            ("kty"@, json::json_string("EC-HSM"@)),
            ("crv"@, json::json_string(acme::curve_name(curve))),
            ("exportable"@, json::json_bool(false)),
        ],
        CreateCsrKeyType::Rsa { num_bits, exportable } => seq![
            ("kty"@, json::json_string("RSA"@)),
            ("key_size"@, text::decimal(num_bits as nat)),
            ("exportable"@, json::json_bool(exportable)),
        ],
        CreateCsrKeyType::RsaHsm { num_bits } => seq![
            ("kty"@, json::json_string("RSA-HSM"@)),
            ("key_size"@, text::decimal(num_bits as nat)),
            ("exportable"@, json::json_bool(false)),
        ],
    }
}

/// The `Debug` form of the key of a certificate.
pub open spec fn key_type_shown(key_type: CreateCsrKeyType) -> Seq<char> {
    match key_type {
        CreateCsrKeyType::Ec { curve, exportable } => "Ec { curve: "@ + acme::curve_shown(curve)
            + ", exportable: "@ + json::json_bool(exportable) + " }"@,
        CreateCsrKeyType::EcHsm { curve } => "EcHsm { curve: "@ + acme::curve_shown(curve) + " }"@,
        CreateCsrKeyType::Rsa { num_bits, exportable } => "Rsa { num_bits: "@ + text::decimal(
            num_bits as nat,
        ) + ", exportable: "@ + json::json_bool(exportable) + " }"@,
        CreateCsrKeyType::RsaHsm { num_bits } => "RsaHsm { num_bits: "@ + text::decimal(
            num_bits as nat,
        ) + " }"@,
    }
}

impl CreateCsrKeyType {
    /// The members of a policy that describe the key.
    pub fn serialize(self) -> (r: Vec<(&'static str, String)>)
        ensures
            json::members(r@) == key_type_members(self),
    {
        let r: Vec<(&'static str, String)> = match self {
            CreateCsrKeyType::Ec { curve, exportable } => vec![
                ("kty", json::string("EC")),
                ("crv", json::string(curve.name())),
                ("exportable", json::boolean(exportable)),
            ],
            CreateCsrKeyType::EcHsm { curve } => vec![
                ("kty", json::string("EC-HSM")),
                ("crv", json::string(curve.name())),
                ("exportable", json::boolean(false)),
            ],
            CreateCsrKeyType::Rsa { num_bits, exportable } => vec![
                ("kty", json::string("RSA")),
                ("key_size", text::to_decimal(num_bits as u64)),
                ("exportable", json::boolean(exportable)),
            ],
            CreateCsrKeyType::RsaHsm { num_bits } => vec![
                ("kty", json::string("RSA-HSM")),
                ("key_size", text::to_decimal(num_bits as u64)),
                ("exportable", json::boolean(false)),
            ],
        };
        assert(json::members(r@) =~= key_type_members(self));
        r
    }

    /// The `Debug` form of the key.
    pub fn debug_text(self) -> (r: String)
        ensures
            r@ == key_type_shown(self),
    {
        match self {
            CreateCsrKeyType::Ec { curve, exportable } => {
                let mut r = "Ec { curve: ".to_owned();
                r.append(curve.debug_text());
                r.append(", exportable: ");
                r.append(json::boolean(exportable).as_str());
                r.append(" }");
                r
            },
            CreateCsrKeyType::EcHsm { curve } => {
                let mut r = "EcHsm { curve: ".to_owned();
                r.append(curve.debug_text());
                r.append(" }");
                r
            },
            CreateCsrKeyType::Rsa { num_bits, exportable } => {
                let mut r = "Rsa { num_bits: ".to_owned();
                r.append(text::to_decimal(num_bits as u64).as_str());
                r.append(", exportable: ");
                r.append(json::boolean(exportable).as_str());
                r.append(" }");
                r
            },
            CreateCsrKeyType::RsaHsm { num_bits } => {
                let mut r = "RsaHsm { num_bits: ".to_owned();
                r.append(text::to_decimal(num_bits as u64).as_str());
                r.append(" }");
                r
            },
        }
    }
}

/// Who issues a certificate: nobody that the KeyVault knows.
pub open spec fn issuer_json() -> Seq<char> {
    json::json_object(
        seq![
            ("cert_transparency"@, json::json_bool(false)),
            ("name"@, json::json_string("Unknown"@)),
        ],
    )
}

/// The key of a certificate, which is not used again.
pub open spec fn key_props_json(key_type: CreateCsrKeyType) -> Seq<char> {
    json::json_object(key_type_members(key_type).push(("reuse_key"@, json::json_bool(false))))
}

/// What a certificate is for: a domain, and all the names below it.
pub open spec fn x509_props_json(common_name: Seq<char>) -> Seq<char> {
    json::json_object(
        seq![
            (
                "sans"@,
                json::json_object(
                    seq![
                        (
                            "dns_names"@,
                            json::json_array(
                                json::json_strings(acme::order::domain_names(common_name)),
                            ),
                        ),
                    ],
                ),
            ),
            ("subject"@, json::json_string("CN="@ + common_name)),
        ],
    )
}

/// What creates a certificate signing request.
pub open spec fn create_csr_json(common_name: Seq<char>, key_type: CreateCsrKeyType) -> Seq<char> {
    json::json_object(
        seq![
            (
                "policy"@,
                json::json_object(
                    seq![
                        ("issuer"@, issuer_json()),
                        ("key_props"@, key_props_json(key_type)),
                        ("x509_props"@, x509_props_json(common_name)),
                    ],
                ),
            ),
        ],
    )
}

/// The creation of a certificate signing request.
pub open spec fn csr_create_call(
    key_vault_name: Seq<char>,
    certificate_name: Seq<char>,
    common_name: Seq<char>,
    key_type: CreateCsrKeyType,
) -> CallView {
    CallView {
        scope: ScopeView {
            object_type: "azure/key_vault/csr"@,
            object_id: object_id::path2(key_vault_name, certificate_name),
            operation: ScopedObjectOperation::Create {
                value: "("@ + text::quoted(common_name) + ", "@ + key_type_shown(key_type) + ")"@,
            },
        },
        method: Method::Post,
        url: UrlView::PathAndQuery(
            "/certificates/"@ + certificate_name + "/create?api-version=7.4"@,
        ),
        body: Some(create_csr_json(common_name, key_type)),
    }
}

/// A look at a certificate.
pub open spec fn certificate_get_call(
    key_vault_name: Seq<char>,
    certificate_name: Seq<char>,
) -> CallView {
    CallView {
        scope: ScopeView {
            object_type: "azure/key_vault/certificate"@,
            object_id: object_id::path2(key_vault_name, certificate_name),
            operation: ScopedObjectOperation::Get,
        },
        method: Method::Get,
        url: UrlView::PathAndQuery("/certificates/"@ + certificate_name + "?api-version=7.4"@),
        body: None,
    }
}

/// The `Debug` forms of some texts.
pub open spec fn all_quoted(items: Seq<Seq<char>>) -> Seq<Seq<char>> {
    items.map_values(|s: Seq<char>| text::quoted(s))
}

/// The merge of issued certificates with the certificate that was waiting for them.
pub open spec fn certificate_merge_call(
    key_vault_name: Seq<char>,
    certificate_name: Seq<char>,
    certificates: Seq<Seq<char>>,
) -> CallView {
    CallView {
        scope: ScopeView {
            object_type: "azure/key_vault/certificate"@,
            object_id: object_id::path2(key_vault_name, certificate_name),
            operation: ScopedObjectOperation::Create {
                value: "["@ + acme::order::listed(all_quoted(certificates)) + "]"@,
            },
        },
        method: Method::Post,
        url: UrlView::PathAndQuery(
            "/certificates/"@ + certificate_name + "/pending/merge?api-version=7.4"@,
        ),
        body: Some(
            json::json_object(
                seq![("x5c"@, json::json_array(json::json_strings(certificates)))],
            ),
        ),
    }
}

/// Writes who issues a certificate.
fn write_issuer() -> (r: String)
    ensures
        r@ == issuer_json(),
{
    let fields = vec![
        ("cert_transparency", json::boolean(false)),
        ("name", json::string("Unknown")),
    ];
    assert(json::members(fields@) =~= seq![
        ("cert_transparency"@, json::json_bool(false)),
        ("name"@, json::json_string("Unknown"@)),
    ]);
    json::object(&fields)
}

/// Writes the key of a certificate.
fn write_key_props(key_type: CreateCsrKeyType) -> (r: String)
    ensures
        r@ == key_props_json(key_type),
{
    let mut fields = key_type.serialize();
    let ghost before = fields@;
    fields.push(("reuse_key", json::boolean(false)));
    assert(json::members(fields@) =~= json::members(before).push(
        ("reuse_key"@, json::json_bool(false)),
    ));
    json::object(&fields)
}

/// Writes what a certificate is for.
fn write_x509_props(common_name: &str) -> (r: String)
    ensures
        r@ == x509_props_json(common_name@),
{
    let mut wildcard = "*.".to_owned();
    wildcard.append(common_name);
    let mut subject = "CN=".to_owned();
    subject.append(common_name);
    let dns_names = vec![common_name.to_owned(), wildcard];
    assert(text::texts(dns_names@) =~= acme::order::domain_names(common_name@));
    let sans = vec![("dns_names", json::string_array(&dns_names))];
    let ghost names = json::json_array(
        json::json_strings(acme::order::domain_names(common_name@)),
    );
    assert(json::members(sans@) =~= seq![("dns_names"@, names)]);
    let fields = vec![
        ("sans", json::object(&sans)),
        ("subject", json::string(subject.as_str())),
    ];
    assert(json::members(fields@) =~= seq![
        ("sans"@, json::json_object(seq![("dns_names"@, names)])),
        ("subject"@, json::json_string(subject@)),
    ]);
    json::object(&fields)
}

/// The path of something about a certificate.
fn certificate_path(certificate_name: &str, rest: &str) -> (r: String)
    ensures
        r@ == "/certificates/"@ + certificate_name@ + rest@,
{
    let mut r = "/certificates/".to_owned();
    r.append(certificate_name);
    r.append(rest);
    r
}

/// Lists some texts in their `Debug` form.
pub fn list_quoted(items: &Vec<String>) -> (r: String)
    ensures
        r@ == acme::order::listed(all_quoted(text::texts(items@))),
{
    let ghost all = all_quoted(text::texts(items@));
    let mut r = String::new();
    for i in 0..items.len()
        invariant
            all == all_quoted(text::texts(items@)),
            r@ == acme::order::listed(all.take(i as int)),
    {
        let ghost after = all.take(i + 1);
        assert(after.drop_last() =~= all.take(i as int));
        assert(after.last() == text::quoted(items@[i as int]@));
        if i > 0 {
            r.append(", ");
        }
        r.append(text::quote(items[i].as_str()).as_str());
        assert(i == 0 ==> r@ =~= text::quoted(items@[0]@));
    }
    assert(all.take(items@.len() as int) =~= all);
    r
}

impl<'a> Client<'a> {
    /// Creates a certificate signing request.
    pub fn csr_create(
        &self,
        certificate_name: &str,
        common_name: &str,
        key_type: CreateCsrKeyType,
    ) -> (r: Call)
        ensures
            r@ == csr_create_call(
                self@.key_vault_name,
                certificate_name@,
                common_name@,
                key_type,
            ),
    {
        let mut value = "(".to_owned();
        value.append(text::quote(common_name).as_str());
        value.append(", ");
        value.append(key_type.debug_text().as_str());
        value.append(")");
        let policy = vec![
            ("issuer", write_issuer()),
            ("key_props", write_key_props(key_type)),
            ("x509_props", write_x509_props(common_name)),
        ];
        let ghost expected = seq![
            ("issuer"@, issuer_json()),
            ("key_props"@, key_props_json(key_type)),
            ("x509_props"@, x509_props_json(common_name@)),
        ];
        assert(json::members(policy@) =~= expected);
        let fields = vec![("policy", json::object(&policy))];
        assert(json::members(fields@) =~= seq![("policy"@, json::json_object(expected))]);
        Call {
            scope: Scope::create(
                "azure/key_vault/csr",
                ObjectId((self.key_vault_name(), certificate_name)).text(),
                value,
            ),
            method: Method::Post,
            url: Url::PathAndQuery(
                certificate_path(certificate_name, "/create?api-version=7.4"),
            ),
            body: Some(json::object(&fields)),
        }
    }

    /// Looks at a certificate.
    pub fn certificate_get(&self, certificate_name: &str) -> (r: Call)
        ensures
            r@ == certificate_get_call(self@.key_vault_name, certificate_name@),
    {
        Call {
            scope: Scope::get(
                "azure/key_vault/certificate",
                ObjectId((self.key_vault_name(), certificate_name)).text(),
            ),
            method: Method::Get,
            url: Url::PathAndQuery(certificate_path(certificate_name, "?api-version=7.4")),
            body: None,
        }
    }

    /// Merges issued certificates with the certificate that was waiting for them.
    pub fn certificate_merge(&self, certificate_name: &str, certificates: &Vec<String>) -> (r: Call)
        ensures
            r@ == certificate_merge_call(
                self@.key_vault_name,
                certificate_name@,
                text::texts(certificates@),
            ),
    {
        let mut value = "[".to_owned();
        value.append(list_quoted(certificates).as_str());
        value.append("]");
        let fields = vec![("x5c", json::string_array(certificates))];
        assert(json::members(fields@) =~= seq![
            ("x5c"@, json::json_array(json::json_strings(text::texts(certificates@)))),
        ]);
        Call {
            scope: Scope::create(
                "azure/key_vault/certificate",
                ObjectId((self.key_vault_name(), certificate_name)).text(),
                value,
            ),
            method: Method::Post,
            url: Url::PathAndQuery(
                certificate_path(certificate_name, "/pending/merge?api-version=7.4"),
            ),
            body: Some(json::object(&fields)),
        }
    }
}

/// A certificate signing request.
#[derive(Debug)]
pub struct CsrResponse {
    pub csr: String,
}

impl View for CsrResponse {
    type V = Seq<char>;

    open spec fn view(&self) -> Seq<char> {
        self.csr@
    }
}

impl FromResponse for CsrResponse {
    type Content = Result<CsrResponse, String>;

    open spec fn interpreted(
        status: u16,
        body: Option<ResponseBody<Result<CsrResponse, String>>>,
        headers: ResponseHeaders,
        now: int,
    ) -> Result<Option<Seq<char>>, Seq<Seq<char>>> {
        http_common::viewed(http_common::json_if(status == 202, body))
    }

    fn from_response(
        status: StatusCode,
        body: Option<ResponseBody<Result<CsrResponse, String>>>,
        headers: &ResponseHeaders,
        now: i128,
    ) -> (r: Result<Option<CsrResponse>, Error>) {
        http_common::expect_json(status.as_u16() == 202, body)
    }

    open spec fn reads(status: u16, content_type: Seq<u8>, headers: ResponseHeaders) -> bool {
        status == 202 && http_common::is_json(content_type)
    }

    fn reads_body(
        status: StatusCode,
        content_type: &HeaderValue,
        headers: &ResponseHeaders,
    ) -> (r: bool) {
        status.as_u16() == 202 && http_common::has_json_type(content_type)
    }

    proof fn unread_does_not_matter(
        status: u16,
        content_type: HeaderValue,
        in_one_piece: bool,
        one: Result<CsrResponse, String>,
        other: Result<CsrResponse, String>,
        headers: ResponseHeaders,
        now: int,
    ) {
    }
}

impl Shown for CsrResponse {
    /// Nothing: the end of a creation shows no value.
    open spec fn shown(value: Self::V) -> Seq<char> {
        ""@
    }

    fn show(&self) -> (r: String) {
        "".to_owned()
    }
}

/// A response that says that certificates have been merged.
#[derive(Debug)]
pub struct MergeResponse;

impl View for MergeResponse {
    type V = ();

    open spec fn view(&self) -> () {
        ()
    }
}

impl FromResponse for MergeResponse {
    type Content = ();

    open spec fn interpreted(
        status: u16,
        body: Option<ResponseBody<()>>,
        headers: ResponseHeaders,
        now: int,
    ) -> Result<Option<()>, Seq<Seq<char>>> {
        Ok(
            if status == 201 {
                Some(())
            } else {
                None
            },
        )
    }

    fn from_response(
        status: StatusCode,
        body: Option<ResponseBody<()>>,
        headers: &ResponseHeaders,
        now: i128,
    ) -> (r: Result<Option<MergeResponse>, Error>) {
        if status.as_u16() == 201 {
            Ok(Some(MergeResponse))
        } else {
            Ok(None)
        }
    }

    open spec fn reads(status: u16, content_type: Seq<u8>, headers: ResponseHeaders) -> bool {
        false
    }

    fn reads_body(
        status: StatusCode,
        content_type: &HeaderValue,
        headers: &ResponseHeaders,
    ) -> (r: bool) {
        false
    }

    proof fn unread_does_not_matter(
        status: u16,
        content_type: HeaderValue,
        in_one_piece: bool,
        one: (),
        other: (),
        headers: ResponseHeaders,
        now: int,
    ) {
    }
}

impl Shown for MergeResponse {
    /// Nothing: the end of a creation shows no value.
    open spec fn shown(value: Self::V) -> Seq<char> {
        ""@
    }

    fn show(&self) -> (r: String) {
        "".to_owned()
    }
}

/// What is read of an X.509 certificate.
#[derive(Debug)]
pub struct X509 {
    /// What stands behind the certificate.
    pub rest: Vec<u8>,
    /// A point in time, and the seconds that its zone is ahead of UTC.
    pub not_before: (i128, i32),
    /// A point in time, and the seconds that its zone is ahead of UTC.
    pub not_after: (i128, i32),
    /// The identifier of the key of the issuer, where the certificate has one, or what is wrong with
    /// the extensions of the certificate.
    pub authority_key_identifier: Result<Option<Vec<u8>>, String>,
    pub serial: Vec<u8>,
}

/// What is read of an X.509 certificate.
#[verifier::ext_equal]
pub struct X509View {
    pub rest: Seq<u8>,
    pub not_before: (i128, i32),
    pub not_after: (i128, i32),
    pub authority_key_identifier: Result<Option<Seq<u8>>, Seq<char>>,
    pub serial: Seq<u8>,
}

impl View for X509 {
    type V = X509View;

    open spec fn view(&self) -> X509View {
        X509View {
            rest: self.rest@,
            not_before: self.not_before,
            not_after: self.not_after,
            authority_key_identifier: match self.authority_key_identifier {
                Ok(Some(id)) => Ok(Some(id@)),
                Ok(None) => Ok(None),
                Err(err) => Err(err@),
            },
            serial: self.serial@,
        }
    }
}

/// What parsing an X.509 certificate gives: its fields, or what is wrong with it.
pub uninterp spec fn x509(der: Seq<u8>) -> Result<X509View, Seq<char>>;

/// `x509_parser::parse_x509_certificate`, with the fields of the certificate as plain values, its
/// times in nanoseconds since the Unix epoch with the offsets of their zones, and the errors as texts. The identifier of the key of
/// the issuer is that of the `AuthorityKeyIdentifier` extension, which may occur once.
#[verifier::external_body]
fn parse_x509(der: &[u8]) -> (r: Result<X509, String>)
    ensures
        match r {
            Ok(certificate) => x509(der@) == Ok::<X509View, Seq<char>>(certificate@),
            Err(err) => x509(der@) == Err::<X509View, Seq<char>>(err@),
        },
{
    let (rest, cer) = x509_parser::parse_x509_certificate(der).map_err(|err| err.to_string())?;
    let aki = cer.get_extension_unique(&OID_X509_EXT_AUTHORITY_KEY_IDENTIFIER);
    let plain = |time: time::OffsetDateTime|
        (time.unix_timestamp_nanos(), time.offset().whole_seconds());
    Ok(X509 {
        rest: rest.to_vec(),
        not_before: plain(cer.validity().not_before.to_datetime()),
        not_after: plain(cer.validity().not_after.to_datetime()),
        authority_key_identifier: aki.map_err(|err| err.to_string()).map(|aki|
            match aki?.parsed_extension() {
                ParsedExtension::AuthorityKeyIdentifier(aki) => Some(aki.key_identifier.as_ref()?.0.to_vec()),
                _ => None,
            }),
        serial: cer.raw_serial().to_vec(),
    })
}

/// A certificate in a KeyVault.
#[derive(Debug)]
pub struct Certificate {
    pub version: String,
    /// What the ACME server knows the certificate by.
    pub ari_id: Option<String>,
    pub not_before: i128,
    /// The seconds that the zone of `not_before` is ahead of UTC.
    pub not_before_offset: i32,
    pub not_after: i128,
    /// The seconds that the zone of `not_after` is ahead of UTC.
    pub not_after_offset: i32,
}

/// A certificate in a KeyVault.
#[verifier::ext_equal]
pub struct CertificateView {
    pub version: Seq<char>,
    pub ari_id: Option<Seq<char>>,
    pub not_before: i128,
    pub not_before_offset: i32,
    pub not_after: i128,
    pub not_after_offset: i32,
}

impl View for Certificate {
    type V = CertificateView;

    open spec fn view(&self) -> CertificateView {
        CertificateView {
            version: self.version@,
            ari_id: text::optional(self.ari_id),
            not_before: self.not_before,
            not_before_offset: self.not_before_offset,
            not_after: self.not_after,
            not_after_offset: self.not_after_offset,
        }
    }
}

impl Shown for Certificate {
    open spec fn shown(value: CertificateView) -> Seq<char> {
        "Certificate { version: "@ + text::quoted(value.version) + ", ari_id: "@
            + log2::optional_shown(
            match value.ari_id {
                Some(ari_id) => Some(text::quoted(ari_id)),
                None => None,
            },
        ) + ", not_before: "@ + time2::time_shown(value.not_before, value.not_before_offset)
            + ", not_after: "@ + time2::time_shown(value.not_after, value.not_after_offset) + " }"@
    }

    fn show(&self) -> (r: String) {
        let mut r = "Certificate { version: ".to_owned();
        r.append(text::quote(self.version.as_str()).as_str());
        r.append(", ari_id: ");
        let ari_id = match &self.ari_id {
            Some(ari_id) => Some(text::quote(ari_id.as_str())),
            None => None,
        };
        r.append(log2::show_optional(ari_id).as_str());
        r.append(", not_before: ");
        r.append(time2::show_time(self.not_before, self.not_before_offset).as_str());
        r.append(", not_after: ");
        r.append(time2::show_time(self.not_after, self.not_after_offset).as_str());
        r.append(" }");
        r
    }
}

/// What the ACME server knows a certificate by: the key of its issuer and its serial number. There is
/// no such thing without the one, or where the other is not positive.
pub open spec fn ari_id(authority_key_identifier: Option<Seq<u8>>, serial: Seq<u8>) -> Option<
    Seq<char>,
> {
    match authority_key_identifier {
        Some(id) if !(serial.len() > 0 && serial[0] >= 128) => Some(
            encoding::base64url(id) + "."@ + encoding::base64url(serial),
        ),
        _ => None,
    }
}

/// Finds what the ACME server knows a certificate by.
pub fn make_ari_id(authority_key_identifier: Option<Vec<u8>>, serial: &Vec<u8>) -> (r: Option<
    String,
>)
    ensures
        text::optional(r) == ari_id(
            match authority_key_identifier {
                Some(id) => Some(id@),
                None => None,
            },
            serial@,
        ),
{
    match authority_key_identifier {
        Some(id) => {
            if serial.len() > 0 && serial[0] >= 128 {
                return None;
            }
            let mut r = encoding::base64url_encode(id.as_slice());
            r.append(".");
            r.append(encoding::base64url_encode(serial.as_slice()).as_str());
            Some(r)
        },
        None => None,
    }
}

/// The certificate that a KeyVault holds under an ID, where parsing it gave `certificate`. Its version
/// is the last part of its ID.
pub open spec fn certificate_of(id: Seq<char>, certificate: X509View) -> Result<
    CertificateView,
    Seq<Seq<char>>,
> {
    if certificate.rest.len() > 0 {
        Err(error::message("cert has trailing garbage"@))
    } else {
        match certificate.authority_key_identifier {
            Err(err) => Err(error::message(err)),
            Ok(authority_key_identifier) => Ok(
                CertificateView {
                    version: text::after_last(id, '/'),
                    ari_id: ari_id(authority_key_identifier, certificate.serial),
                    not_before: certificate.not_before.0,
                    not_before_offset: certificate.not_before.1,
                    not_after: certificate.not_after.0,
                    not_after_offset: certificate.not_after.1,
                },
            ),
        }
    }
}

impl Certificate {
    /// The certificate that a KeyVault holds under an ID, where parsing it gave `certificate`.
    pub fn from_x509(id: &str, certificate: X509) -> (r: Result<Certificate, Error>)
        ensures
            error::result_view(r) == certificate_of(id@, certificate@),
    {
        if certificate.rest.len() > 0 {
            return Err(Error::new("cert has trailing garbage"));
        }
        match certificate.authority_key_identifier {
            Err(err) => Err(Error::new(err.as_str())),
            Ok(authority_key_identifier) => Ok(
                Certificate {
                    version: text::take_after_last(id, '/'),
                    ari_id: make_ari_id(authority_key_identifier, &certificate.serial),
                    not_before: certificate.not_before.0,
                    not_before_offset: certificate.not_before.1,
                    not_after: certificate.not_after.0,
                    not_after_offset: certificate.not_after.1,
                },
            ),
        }
    }
}

/// A certificate, as the KeyVault describes it.
#[derive(Debug)]
pub struct CertificateObject {
    /// The certificate, in base64.
    pub cer: String,
    pub id: String,
}

/// What a certificate is, as the KeyVault describes it.
pub open spec fn certificate_described(cer: Seq<char>, id: Seq<char>) -> Result<
    CertificateView,
    Seq<Seq<char>>,
> {
    match encoding::base64_standard_decoded(cer) {
        Err(err) => Err(error::message(err)),
        Ok(der) => match x509(der) {
            Err(err) => Err(error::message(err)),
            Ok(certificate) => certificate_of(id, certificate),
        },
    }
}

impl CertificateObject {
    /// What the certificate is.
    pub fn parse(&self) -> (r: Result<Certificate, Error>)
        ensures
            error::result_view(r) == certificate_described(self.cer@, self.id@),
    {
        match encoding::decode_base64(self.cer.as_str()) {
            Err(err) => Err(err),
            Ok(der) => match parse_x509(der.as_slice()) {
                Err(err) => Err(Error::new(err.as_str())),
                Ok(certificate) => Certificate::from_x509(self.id.as_str(), certificate),
            },
        }
    }
}

/// A certificate that has been looked for.
#[derive(Debug)]
pub struct CertificateGetResponse {
    pub certificate: Option<Certificate>,
}

impl View for CertificateGetResponse {
    type V = Option<CertificateView>;

    open spec fn view(&self) -> Option<CertificateView> {
        match self.certificate {
            Some(certificate) => Some(certificate@),
            None => None,
        }
    }
}

impl Shown for CertificateGetResponse {
    open spec fn shown(value: Option<CertificateView>) -> Seq<char> {
        log2::optional_shown(
            match value {
                Some(certificate) => Some(<Certificate as Shown>::shown(certificate)),
                None => None,
            },
        )
    }

    fn show(&self) -> (r: String) {
        let certificate = match &self.certificate {
            Some(certificate) => Some(certificate.show()),
            None => None,
        };
        log2::show_optional(certificate)
    }
}

impl FromResponse for CertificateGetResponse {
    type Content = Result<CertificateObject, String>;

    open spec fn interpreted(
        status: u16,
        body: Option<ResponseBody<Result<CertificateObject, String>>>,
        headers: ResponseHeaders,
        now: int,
    ) -> Result<Option<Option<CertificateView>>, Seq<Seq<char>>> {
        if status == 404 {
            Ok(Some(None))
        } else {
            match http_common::json_if(status == 200, body) {
                Ok(Some(object)) => match certificate_described(object.cer@, object.id@) {
                    Ok(certificate) => Ok(Some(Some(certificate))),
                    Err(err) => Err(err),
                },
                Ok(None) => Ok(None),
                Err(err) => Err(err),
            }
        }
    }

    fn from_response(
        status: StatusCode,
        body: Option<ResponseBody<Result<CertificateObject, String>>>,
        headers: &ResponseHeaders,
        now: i128,
    ) -> (r: Result<Option<CertificateGetResponse>, Error>) {
        if status.as_u16() == 404 {
            return Ok(Some(CertificateGetResponse { certificate: None }));
        }
        match http_common::expect_json(status.as_u16() == 200, body) {
            Ok(Some(object)) => match object.parse() {
                Ok(certificate) => Ok(
                    Some(CertificateGetResponse { certificate: Some(certificate) }),
                ),
                Err(err) => Err(err),
            },
            Ok(None) => Ok(None),
            Err(err) => Err(err),
        }
    }

    open spec fn reads(status: u16, content_type: Seq<u8>, headers: ResponseHeaders) -> bool {
        status == 200 && http_common::is_json(content_type)
    }

    fn reads_body(
        status: StatusCode,
        content_type: &HeaderValue,
        headers: &ResponseHeaders,
    ) -> (r: bool) {
        status.as_u16() == 200 && http_common::has_json_type(content_type)
    }

    proof fn unread_does_not_matter(
        status: u16,
        content_type: HeaderValue,
        in_one_piece: bool,
        one: Result<CertificateObject, String>,
        other: Result<CertificateObject, String>,
        headers: ResponseHeaders,
        now: int,
    ) {
    }
}

/// The request that merges certificates with the one that is waiting for them carries all of them, as many
/// and in the same order.
pub proof fn a_merge_carries_all_certificates(
    key_vault_name: Seq<char>,
    certificate_name: Seq<char>,
    certificates: Seq<Seq<char>>,
)
    ensures
        ({
            let call = certificate_merge_call(key_vault_name, certificate_name, certificates);
            &&& call.method == Method::Post
            &&& call.url == UrlView::PathAndQuery(
                "/certificates/"@ + certificate_name + "/pending/merge?api-version=7.4"@,
            )
            &&& call.body == Some(
                seq!['{'] + json::json_string("x5c"@) + seq![':'] + json::json_array(
                    Seq::new(certificates.len(), |i: int| json::json_string(certificates[i])),
                ) + seq!['}'],
            )
            &&& call.scope.object_type == "azure/key_vault/certificate"@
            &&& call.scope.object_id == key_vault_name + seq!['/'] + certificate_name
            &&& call.scope.operation == (ScopedObjectOperation::<Seq<char>>::Create {
                value: "["@ + acme::order::listed(
                    Seq::new(certificates.len(), |i: int| text::quoted(certificates[i])),
                ) + "]"@,
            })
        }),
{
    object_id::parts_are_separated_by_slashes(key_vault_name, certificate_name, seq![]);
    let items = json::json_strings(certificates);
    assert(items =~= Seq::new(certificates.len(), |i: int| json::json_string(certificates[i])));
    assert(all_quoted(certificates) =~= Seq::new(
        certificates.len(),
        |i: int| text::quoted(certificates[i]),
    ));
    json::an_object_grows_by_its_members(seq![], "x5c"@, json::json_array(items));
}

/// A look at a certificate asks for it by its name, and changes nothing.
pub proof fn a_look_at_a_certificate_asks_by_name(
    key_vault_name: Seq<char>,
    certificate_name: Seq<char>,
)
    ensures
        ({
            let call = certificate_get_call(key_vault_name, certificate_name);
            &&& call.method == Method::Get
            &&& call.url == UrlView::PathAndQuery(
                "/certificates/"@ + certificate_name + "?api-version=7.4"@,
            )
            &&& call.body is None
            &&& call.scope.object_type == "azure/key_vault/certificate"@
            &&& call.scope.object_id == key_vault_name + seq!['/'] + certificate_name
            &&& call.scope.operation is Get
        }),
{
    object_id::parts_are_separated_by_slashes(key_vault_name, certificate_name, seq![]);
}

/// A request for a signing request asks for a key of the given kind, which is not used again, and for a
/// certificate of no known issuer for the domain and all the names below it. A key in hardware is never
/// exportable.
pub proof fn a_signing_request_is_for_its_domain_and_its_key(
    key_vault_name: Seq<char>,
    certificate_name: Seq<char>,
    common_name: Seq<char>,
    key_type: CreateCsrKeyType,
)
    ensures
        ({
            let call = csr_create_call(key_vault_name, certificate_name, common_name, key_type);
            let (kty, detail, exportable) = match key_type {
                CreateCsrKeyType::Ec { curve, exportable } => (
                    "EC"@,
                    ("crv"@, json::json_string(acme::curve_name(curve))),
                    exportable,
                ),
                CreateCsrKeyType::EcHsm { curve } => (
                    "EC-HSM"@,
                    ("crv"@, json::json_string(acme::curve_name(curve))),
                    false,
                ),
                CreateCsrKeyType::Rsa { num_bits, exportable } => (
                    "RSA"@,
                    ("key_size"@, text::decimal(num_bits as nat)),
                    exportable,
                ),
                CreateCsrKeyType::RsaHsm { num_bits } => (
                    "RSA-HSM"@,
                    ("key_size"@, text::decimal(num_bits as nat)),
                    false,
                ),
            };
            let issuer = json::json_object(
                seq![
                    ("cert_transparency"@, seq!['f', 'a', 'l', 's', 'e']),
                    ("name"@, json::json_string("Unknown"@)),
                ],
            );
            let key_props = json::json_object(
                seq![
                    ("kty"@, json::json_string(kty)),
                    detail,
                    ("exportable"@, json::json_bool(exportable)),
                    ("reuse_key"@, seq!['f', 'a', 'l', 's', 'e']),
                ],
            );
            let names = json::json_array(
                seq![
                    json::json_string(common_name),
                    json::json_string(seq!['*', '.'] + common_name),
                ],
            );
            let x509_props = json::json_object(
                seq![
                    ("sans"@, json::json_object(seq![("dns_names"@, names)])),
                    ("subject"@, json::json_string("CN="@ + common_name)),
                ],
            );
            let policy = json::json_object(
                seq![("issuer"@, issuer), ("key_props"@, key_props), ("x509_props"@, x509_props)],
            );
            &&& call.method == Method::Post
            &&& call.url == UrlView::PathAndQuery(
                "/certificates/"@ + certificate_name + "/create?api-version=7.4"@,
            )
            &&& call.body == Some(json::json_object(seq![("policy"@, policy)]))
            &&& call.scope.object_type == "azure/key_vault/csr"@
            &&& call.scope.object_id == key_vault_name + seq!['/'] + certificate_name
        }),
{
    object_id::parts_are_separated_by_slashes(key_vault_name, certificate_name, seq![]);
    json::a_truth_value_is_a_word(false);
    acme::order::an_order_names_all_of_its_domains(seq![], common_name);
    let names = acme::order::domain_names(common_name);
    assert(json::json_strings(names) =~= seq![
        json::json_string(common_name),
        json::json_string(seq!['*', '.'] + common_name),
    ]);
    let reuse = ("reuse_key"@, json::json_bool(false));
    let members = key_type_members(key_type);
    assert(members.push(reuse) =~= seq![members[0], members[1], members[2], reuse]);
}

/// A certificate is known to the ACME server by the key of its issuer and by its serial number, with a dot
/// between them, unless it names no such key, or its serial number is negative.
pub proof fn a_certificate_is_known_by_its_issuer_and_its_number(
    issuer: Option<Seq<u8>>,
    serial: Seq<u8>,
)
    ensures
        match issuer {
            Some(issuer) => ari_id(Some(issuer), serial) == if serial.len() == 0 || serial[0] <= 127 {
                Some(encoding::base64url(issuer) + seq!['.'] + encoding::base64url(serial))
            } else {
                None
            },
            None => ari_id(None, serial) is None,
        },
{
    reveal_strlit(".");
    assert("."@ =~= seq!['.']);
}

/// A certificate has the times and the identifiers that stand in it, and its version is the last part of
/// the path that its ID is. One with something behind it is refused, and so is one that cannot be decoded
/// or parsed.
pub proof fn a_certificate_is_what_stands_in_it(
    cer: Seq<char>,
    path: Seq<char>,
    version: Seq<char>,
)
    requires
        !version.contains('/'),
    ensures
        ({
            let described = certificate_described(cer, path + seq!['/'] + version);
            match encoding::base64_standard_decoded(cer) {
                Err(err) => described == Err::<CertificateView, Seq<Seq<char>>>(seq![err]),
                Ok(der) => match x509(der) {
                    Err(err) => described == Err::<CertificateView, Seq<Seq<char>>>(seq![err]),
                    Ok(x509) => if x509.rest.len() > 0 {
                        described == Err::<CertificateView, Seq<Seq<char>>>(
                            seq!["cert has trailing garbage"@],
                        )
                    } else {
                        match x509.authority_key_identifier {
                            Err(err) => described == Err::<CertificateView, Seq<Seq<char>>>(seq![err]),
                            Ok(issuer) => described matches Ok(certificate) && certificate.version
                                == version && certificate.ari_id == ari_id(issuer, x509.serial) && (
                            certificate.not_before,
                            certificate.not_before_offset,
                        ) == x509.not_before && (certificate.not_after, certificate.not_after_offset)
                                == x509.not_after,
                        }
                    },
                },
            }
        }),
{
    text::what_stands_last_is_taken(path, version, '/');
}

/// A certificate that does not exist is none, and one that does is described by a response with the status
/// 200. A signing request comes with the status 202, and certificates have been merged if the status is 201.
/// Anything else is no answer.
pub proof fn the_status_tells_what_became_of_a_certificate(
    status: u16,
    found: Option<ResponseBody<Result<CertificateObject, String>>>,
    csr: Option<ResponseBody<Result<CsrResponse, String>>>,
    merged: Option<ResponseBody<()>>,
    headers: ResponseHeaders,
    now: int,
)
    ensures
        status == 404 ==> CertificateGetResponse::interpreted(status, found, headers, now) == Ok::<
            Option<Option<CertificateView>>,
            Seq<Seq<char>>,
        >(Some(None)),
        status != 404 && status != 200 ==> CertificateGetResponse::interpreted(status, found, headers, now)
            == Ok::<Option<Option<CertificateView>>, Seq<Seq<char>>>(None),
        status == 200 ==> match http_common::json_if(true, found) {
            Ok(Some(object)) => match certificate_described(object.cer@, object.id@) {
                Ok(certificate) => CertificateGetResponse::interpreted(status, found, headers, now) == Ok::<
                    Option<Option<CertificateView>>,
                    Seq<Seq<char>>,
                >(Some(Some(certificate))),
                Err(err) => CertificateGetResponse::interpreted(status, found, headers, now) == Err::<
                    Option<Option<CertificateView>>,
                    Seq<Seq<char>>,
                >(err),
            },
            Ok(None) => CertificateGetResponse::interpreted(status, found, headers, now) == Ok::<
                Option<Option<CertificateView>>,
                Seq<Seq<char>>,
            >(None),
            Err(err) => CertificateGetResponse::interpreted(status, found, headers, now) == Err::<
                Option<Option<CertificateView>>,
                Seq<Seq<char>>,
            >(err),
        },
        CsrResponse::interpreted(status, csr, headers, now) == if status == 202 {
            http_common::viewed(http_common::json_if(true, csr))
        } else {
            Ok(None)
        },
        MergeResponse::interpreted(status, merged, headers, now) == Ok::<Option<()>, Seq<Seq<char>>>(
            if status == 201 {
                Some(())
            } else {
                None
            },
        ),
{
}

/// A certificate is shown with all that is known of it, and so is the key that one is asked for with.
pub proof fn a_certificate_is_shown_whole(certificate: CertificateView, key_type: CreateCsrKeyType)
    ensures
        ({
            let shown = "Certificate { version: "@ + text::quoted(certificate.version) + ", ari_id: "@
                + match certificate.ari_id {
                Some(ari_id) => "Some("@ + text::quoted(ari_id) + ")"@,
                None => "None"@,
            } + ", not_before: "@ + time2::time_shown(
                certificate.not_before,
                certificate.not_before_offset,
            ) + ", not_after: "@ + time2::time_shown(certificate.not_after, certificate.not_after_offset)
                + " }"@;
            &&& <Certificate as Shown>::shown(certificate) == shown
            &&& <CertificateGetResponse as Shown>::shown(Some(certificate)) == "Some("@ + shown + ")"@
            &&& <CertificateGetResponse as Shown>::shown(None) == "None"@
            &&& <CsrResponse as Shown>::shown(certificate.version) == ""@
            &&& <MergeResponse as Shown>::shown(()) == ""@
        }),
        key_type_shown(key_type) == match key_type {
            CreateCsrKeyType::Ec { curve, exportable } => "Ec { curve: "@ + acme::curve_shown(curve)
                + ", exportable: "@ + json::json_bool(exportable) + " }"@,
            CreateCsrKeyType::EcHsm { curve } => "EcHsm { curve: "@ + acme::curve_shown(curve) + " }"@,
            CreateCsrKeyType::Rsa { num_bits, exportable } => "Rsa { num_bits: "@ + text::decimal(
                num_bits as nat,
            ) + ", exportable: "@ + json::json_bool(exportable) + " }"@,
            CreateCsrKeyType::RsaHsm { num_bits } => "RsaHsm { num_bits: "@ + text::decimal(
                num_bits as nat,
            ) + " }"@,
        },
        forall|key_vault_name: Seq<char>, certificate_name: Seq<char>, common_name: Seq<char>|
            (#[trigger] csr_create_call(key_vault_name, certificate_name, common_name, key_type)).scope.operation
                == (ScopedObjectOperation::<Seq<char>>::Create {
                value: "("@ + text::quoted(common_name) + ", "@ + key_type_shown(key_type) + ")"@,
            }),
{
}

/// The body of a response counts where its status and its media type are the expected ones.
pub proof fn bodies_count_where_they_are_expected(status: u16, content_type: Seq<u8>, headers: ResponseHeaders)
    ensures
        <CsrResponse as FromResponse>::reads(status, content_type, headers)
            <==> status == 202 && http_common::is_json(content_type),
        <MergeResponse as FromResponse>::reads(status, content_type, headers) <==> false,
        <CertificateGetResponse as FromResponse>::reads(status, content_type, headers)
            <==> status == 200 && http_common::is_json(content_type),
{
}

} // verus!
