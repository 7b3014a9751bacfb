//! DNS zones and the TXT records in them.

use vstd::prelude::*;

use crate::acme::order;
use crate::azure::key_vault::certificate;
use crate::azure::management::Client;
use crate::azure::{Call, CallView, Url, UrlView};
use crate::error::Error;
use crate::http_common;
use crate::http_common::{
    FromResponse, HeaderValue, Method, ResponseBody, ResponseHeaders, StatusCode,
};
use crate::json;
use crate::log2::object_id;
use crate::log2::{ObjectId, Scope, ScopeView, ScopedObjectOperation, Shown};
use crate::text;

verus! {

/// One TXT record.
pub open spec fn txt_record_json(content: Seq<char>) -> Seq<char> {
    json::json_object(seq![("value"@, json::json_array(json::json_strings(seq![content])))])
}

/// What creates TXT records, one for each of `contents`, that live for a second.
pub open spec fn txt_records_json(contents: Seq<Seq<char>>) -> Seq<char> {
    json::json_object(
        seq![
            (
                "properties"@,
                json::json_object(
                    seq![
                        ("TTL"@, text::decimal(1)),
                        (
                            "TXTRecords"@,
                            json::json_array(
                                contents.map_values(|content: Seq<char>| txt_record_json(content)),
                            ),
                        ),
                    ],
                ),
            ),
        ],
    )
}

/// Writes what creates TXT records.
pub fn write_txt_records(contents: &Vec<String>) -> (r: String)
    ensures
        r@ == txt_records_json(text::texts(contents@)),
{
    let mut records: Vec<String> = Vec::new();
    for i in 0..contents.len()
        invariant
            records@.len() == i,
            forall|j: int|
                0 <= j < i ==> #[trigger] records@[j]@ == txt_record_json(contents@[j]@),
    {
        let value = vec![contents[i].clone()];
        assert(text::texts(value@) =~= seq![contents@[i as int]@]);
        let fields = vec![("value", json::string_array(&value))];
        assert(json::members(fields@) =~= seq![
            ("value"@, json::json_array(json::json_strings(seq![contents@[i as int]@]))),
        ]);
        records.push(json::object(&fields));
    }
    let ghost objects = text::texts(contents@).map_values(
        |content: Seq<char>| txt_record_json(content),
    );
    assert(text::texts(records@) =~= objects);
    let properties = vec![("TTL", text::to_decimal(1)), ("TXTRecords", json::array(&records))];
    let ghost expected = seq![
        ("TTL"@, text::decimal(1)),
        ("TXTRecords"@, json::json_array(objects)),
    ];
    assert(json::members(properties@) =~= expected);
    let fields = vec![("properties", json::object(&properties))];
    assert(json::members(fields@) =~= seq![("properties"@, json::json_object(expected))]);
    json::object(&fields)
}

/// The path of the TXT records of a name in a DNS zone.
pub open spec fn txt_path(dns_zone_name: Seq<char>, name: Seq<char>) -> Seq<char> {
    "/providers/Microsoft.Network/dnsZones/"@ + dns_zone_name + "/TXT/"@ + name
        + "?api-version=2018-05-01"@
}

/// Writes the path of the TXT records of a name in a DNS zone.
pub fn write_txt_path(dns_zone_name: &str, name: &str) -> (r: String)
    ensures
        r@ == txt_path(dns_zone_name@, name@),
{
    let mut r = "/providers/Microsoft.Network/dnsZones/".to_owned();
    r.append(dns_zone_name);
    r.append("/TXT/");
    r.append(name);
    r.append("?api-version=2018-05-01");
    r
}

/// The creation of TXT records. The log does not show what they hold.
pub open spec fn txt_create_call(
    dns_zone_name: Seq<char>,
    name: Seq<char>,
    contents: Seq<Seq<char>>,
) -> CallView {
    CallView {
        scope: ScopeView {
            object_type: "azure/dns/txtrecord"@,
            object_id: object_id::path2(dns_zone_name, name),
            operation: ScopedObjectOperation::Create { value: "******"@ },
        },
        method: Method::Put,
        url: UrlView::PathAndQuery(txt_path(dns_zone_name, name)),
        body: Some(txt_records_json(contents)),
    }
}

/// The deletion of TXT records.
pub open spec fn txt_delete_call(dns_zone_name: Seq<char>, name: Seq<char>) -> CallView {
    CallView {
        scope: ScopeView {
            object_type: "azure/dns/txtrecord"@,
            object_id: object_id::path2(dns_zone_name, name),
            operation: ScopedObjectOperation::Delete,
        },
        method: Method::Delete,
        url: UrlView::PathAndQuery(txt_path(dns_zone_name, name)),
        body: None,
    }
}

/// A look at the name servers of a DNS zone.
pub open spec fn name_servers_call(dns_zone_name: Seq<char>) -> CallView {
    CallView {
        scope: ScopeView {
            object_type: "azure/dns/zone/name_servers"@,
            object_id: dns_zone_name,
            operation: ScopedObjectOperation::Get,
        },
        method: Method::Get,
        url: UrlView::PathAndQuery(
            "/providers/Microsoft.Network/dnsZones/"@ + dns_zone_name + "?api-version=2018-05-01"@,
        ),
        body: None,
    }
}

/// Creates TXT records for a name in a DNS zone.
pub fn create_txt(dns_zone_name: &str, name: &str, contents: &Vec<String>) -> (r: Call)
    ensures
        r@ == txt_create_call(dns_zone_name@, name@, text::texts(contents@)),
{
    Call {
        scope: Scope::create(
            "azure/dns/txtrecord",
            ObjectId((dns_zone_name, name)).text(),
            "******".to_owned(),
        ),
        method: Method::Put,
        url: Url::PathAndQuery(write_txt_path(dns_zone_name, name)),
        body: Some(write_txt_records(contents)),
    }
}

/// Deletes the TXT records of a name in a DNS zone.
pub fn delete_txt(dns_zone_name: &str, name: &str) -> (r: Call)
    ensures
        r@ == txt_delete_call(dns_zone_name@, name@),
{
    Call {
        scope: Scope::delete("azure/dns/txtrecord", ObjectId((dns_zone_name, name)).text()),
        method: Method::Delete,
        url: Url::PathAndQuery(write_txt_path(dns_zone_name, name)),
        body: None,
    }
}

impl<'a> Client<'a> {
    /// Creates TXT records for a name in a DNS zone, one for each of `contents`.
    pub fn dns_txt_record_create(
        &self,
        dns_zone_name: &str,
        name: &str,
        contents: &Vec<String>,
    ) -> (r: Call)
        ensures
            r@ == txt_create_call(dns_zone_name@, name@, text::texts(contents@)),
    {
        create_txt(dns_zone_name, name, contents)
    }

    /// Deletes the TXT records of a name in a DNS zone.
    pub fn dns_txt_record_delete(&self, dns_zone_name: &str, name: &str) -> (r: Call)
        ensures
            r@ == txt_delete_call(dns_zone_name@, name@),
    {
        delete_txt(dns_zone_name, name)
    }

    /// Looks at the name servers of a DNS zone.
    pub fn dns_zone_name_servers_get(&self, dns_zone_name: &str) -> (r: Call)
        ensures
            r@ == name_servers_call(dns_zone_name@),
    {
        let mut path = "/providers/Microsoft.Network/dnsZones/".to_owned();
        path.append(dns_zone_name);
        path.append("?api-version=2018-05-01");
        Call {
            scope: Scope::get("azure/dns/zone/name_servers", dns_zone_name.to_owned()),
            method: Method::Get,
            url: Url::PathAndQuery(path),
            body: None,
        }
    }
}

/// A response that says that TXT records have been created.
#[derive(Debug)]
pub struct TxtRecordCreated;

impl View for TxtRecordCreated {
    type V = ();

    open spec fn view(&self) -> () {
        ()
    }
}

impl FromResponse for TxtRecordCreated {
    type Content = ();

    open spec fn interpreted(
        status: u16,
        body: Option<ResponseBody<()>>,
        headers: ResponseHeaders,
        now: int,
    ) -> Result<Option<()>, Seq<Seq<char>>> {
        Ok(
            if status == 200 || status == 201 {
                Some(())
            } else {
                None
            },
        )
    }

    fn from_response(
        status: StatusCode,
        body: Option<ResponseBody<()>>,
        headers: &ResponseHeaders,
        now: i128,
    ) -> (r: Result<Option<TxtRecordCreated>, Error>) {
        let code: u16 = status.as_u16();
        if code == 200 || code == 201 {
            Ok(Some(TxtRecordCreated))
        } else {
            Ok(None)
        }
    }

    open spec fn reads(status: u16, content_type: Seq<u8>, headers: ResponseHeaders) -> bool {
        false
    }

    fn reads_body(
        status: StatusCode,
        content_type: &HeaderValue,
        headers: &ResponseHeaders,
    ) -> (r: bool) {
        false
    }

    proof fn unread_does_not_matter(
        status: u16,
        content_type: HeaderValue,
        in_one_piece: bool,
        one: (),
        other: (),
        headers: ResponseHeaders,
        now: int,
    ) {
    }
}

impl Shown for TxtRecordCreated {
    /// Nothing: the end of a creation shows no value.
    open spec fn shown(value: Self::V) -> Seq<char> {
        ""@
    }

    fn show(&self) -> (r: String) {
        "".to_owned()
    }
}

/// A response that says that TXT records have been deleted, or are being deleted, or that there were
/// none.
#[derive(Debug)]
pub struct TxtRecordDeleted;

impl View for TxtRecordDeleted {
    type V = ();

    open spec fn view(&self) -> () {
        ()
    }
}

impl FromResponse for TxtRecordDeleted {
    type Content = ();

    open spec fn interpreted(
        status: u16,
        body: Option<ResponseBody<()>>,
        headers: ResponseHeaders,
        now: int,
    ) -> Result<Option<()>, Seq<Seq<char>>> {
        Ok(
            if status == 202 || status == 404 || status == 200 {
                Some(())
            } else {
                None
            },
        )
    }

    fn from_response(
        status: StatusCode,
        body: Option<ResponseBody<()>>,
        headers: &ResponseHeaders,
        now: i128,
    ) -> (r: Result<Option<TxtRecordDeleted>, Error>) {
        let code: u16 = status.as_u16();
        if code == 202 || code == 404 || code == 200 {
            Ok(Some(TxtRecordDeleted))
        } else {
            Ok(None)
        }
    }

    open spec fn reads(status: u16, content_type: Seq<u8>, headers: ResponseHeaders) -> bool {
        false
    }

    fn reads_body(
        status: StatusCode,
        content_type: &HeaderValue,
        headers: &ResponseHeaders,
    ) -> (r: bool) {
        false
    }

    proof fn unread_does_not_matter(
        status: u16,
        content_type: HeaderValue,
        in_one_piece: bool,
        one: (),
        other: (),
        headers: ResponseHeaders,
        now: int,
    ) {
    }
}

impl Shown for TxtRecordDeleted {
    /// Nothing: the end of a deletion shows no value.
    open spec fn shown(value: Self::V) -> Seq<char> {
        ""@
    }

    fn show(&self) -> (r: String) {
        "".to_owned()
    }
}

/// The name servers of a DNS zone.
#[derive(Debug)]
pub struct NameServers {
    pub name_servers: Vec<String>,
}

impl View for NameServers {
    type V = Seq<Seq<char>>;

    open spec fn view(&self) -> Seq<Seq<char>> {
        text::texts(self.name_servers@)
    }
}

impl FromResponse for NameServers {
    type Content = Result<NameServers, String>;

    open spec fn interpreted(
        status: u16,
        body: Option<ResponseBody<Result<NameServers, String>>>,
        headers: ResponseHeaders,
        now: int,
    ) -> Result<Option<Seq<Seq<char>>>, Seq<Seq<char>>> {
        http_common::viewed(http_common::json_if(status == 200, body))
    }

    fn from_response(
        status: StatusCode,
        body: Option<ResponseBody<Result<NameServers, String>>>,
        headers: &ResponseHeaders,
        now: i128,
    ) -> (r: Result<Option<NameServers>, Error>) {
        http_common::expect_json(status.as_u16() == 200, body)
    }

    open spec fn reads(status: u16, content_type: Seq<u8>, headers: ResponseHeaders) -> bool {
        status == 200 && http_common::is_json(content_type)
    }

    fn reads_body(
        status: StatusCode,
        content_type: &HeaderValue,
        headers: &ResponseHeaders,
    ) -> (r: bool) {
        status.as_u16() == 200 && http_common::has_json_type(content_type)
    }

    proof fn unread_does_not_matter(
        status: u16,
        content_type: HeaderValue,
        in_one_piece: bool,
        one: Result<NameServers, String>,
        other: Result<NameServers, String>,
        headers: ResponseHeaders,
        now: int,
    ) {
    }
}

impl Shown for NameServers {
    open spec fn shown(value: Seq<Seq<char>>) -> Seq<char> {
        "["@ + order::listed(certificate::all_quoted(value)) + "]"@
    }

    fn show(&self) -> (r: String) {
        let mut r = "[".to_owned();
        r.append(certificate::list_quoted(&self.name_servers).as_str());
        r.append("]");
        r
    }
}

/// The request that creates TXT records has exactly one record for each content, at its place, and each
/// holds that content alone. It goes to the records of the name in the zone, and its log does not show what
/// they hold.
pub proof fn each_content_gets_its_record(
    dns_zone_name: Seq<char>,
    name: Seq<char>,
    contents: Seq<Seq<char>>,
)
    ensures
        ({
            let call = txt_create_call(dns_zone_name, name, contents);
            let records = Seq::new(
                contents.len(),
                |i: int|
                    seq!['{'] + json::json_string("value"@) + seq![':'] + (seq!['['] + json::json_string(
                        contents[i],
                    ) + seq![']']) + seq!['}'],
            );
            &&& call.method == Method::Put
            &&& call.url == UrlView::PathAndQuery(
                "/providers/Microsoft.Network/dnsZones/"@ + dns_zone_name + "/TXT/"@ + name
                    + "?api-version=2018-05-01"@,
            )
            &&& call.body == Some(
                seq!['{'] + json::json_string("properties"@) + seq![':'] + (seq!['{'] + json::json_string(
                    "TTL"@,
                ) + seq![':'] + seq!['1'] + seq![','] + json::json_string("TXTRecords"@) + seq![':']
                    + json::json_array(records) + seq!['}']) + seq!['}'],
            )
            &&& call.scope.object_type == "azure/dns/txtrecord"@
            &&& call.scope.operation == (ScopedObjectOperation::<Seq<char>>::Create {
                value: "******"@,
            })
        }),
{
    let objects = contents.map_values(|content: Seq<char>| txt_record_json(content));
    let records = Seq::new(
        contents.len(),
        |i: int|
            seq!['{'] + json::json_string("value"@) + seq![':'] + (seq!['['] + json::json_string(
                contents[i],
            ) + seq![']']) + seq!['}'],
    );
    assert forall|i: int| 0 <= i < contents.len() implies objects[i] == records[i] by {
        let items = json::json_strings(seq![contents[i]]);
        assert(items =~= seq![json::json_string(contents[i])]);
        json::an_array_grows_by_its_items(seq![], json::json_string(contents[i]));
        json::an_object_grows_by_its_members(seq![], "value"@, json::json_array(items));
    }
    assert(objects =~= records);
    text::a_number_is_its_digits(0, 1);
    assert(text::decimal(1) =~= seq!['1']);
    json::lemma_object_of_two("TTL"@, text::decimal(1), "TXTRecords"@, json::json_array(records));
    let properties = json::json_object(
        seq![("TTL"@, text::decimal(1)), ("TXTRecords"@, json::json_array(records))],
    );
    json::an_object_grows_by_its_members(seq![], "properties"@, properties);
}

/// What deletes TXT records is about the records that a creation is about, of the same name in the same
/// zone, and a zone is asked for its name servers by its own path.
pub proof fn records_are_deleted_where_they_were_created(
    dns_zone_name: Seq<char>,
    name: Seq<char>,
    contents: Seq<Seq<char>>,
)
    ensures
        ({
            let create = txt_create_call(dns_zone_name, name, contents);
            let delete = txt_delete_call(dns_zone_name, name);
            let look = name_servers_call(dns_zone_name);
            &&& delete.method == Method::Delete
            &&& delete.url == create.url
            &&& delete.body is None
            &&& delete.scope.object_type == create.scope.object_type
            &&& delete.scope.object_id == create.scope.object_id
            &&& delete.scope.operation is Delete
            &&& create.scope.object_id == dns_zone_name + seq!['/'] + name
            &&& look.method == Method::Get
            &&& look.body is None
            &&& look.url == UrlView::PathAndQuery(
                "/providers/Microsoft.Network/dnsZones/"@ + dns_zone_name + "?api-version=2018-05-01"@,
            )
            &&& look.scope.object_type == "azure/dns/zone/name_servers"@
            &&& look.scope.object_id == dns_zone_name
            &&& look.scope.operation is Get
        }),
{
    object_id::parts_are_separated_by_slashes(dns_zone_name, name, seq![]);
}

/// TXT records have been created if the status is 200 or 201, and deleted if it is 200, 202 or 404; name
/// servers are taken from a response with the status 200 alone. Anything else is no answer.
pub proof fn the_status_tells_what_became_of_records(
    status: u16,
    created: Option<ResponseBody<()>>,
    servers: Option<ResponseBody<Result<NameServers, String>>>,
    headers: ResponseHeaders,
    now: int,
)
    ensures
        TxtRecordCreated::interpreted(status, created, headers, now) == Ok::<Option<()>, Seq<Seq<char>>>(
            if status == 200 || status == 201 {
                Some(())
            } else {
                None
            },
        ),
        TxtRecordDeleted::interpreted(status, created, headers, now) == Ok::<Option<()>, Seq<Seq<char>>>(
            if status == 200 || status == 202 || status == 404 {
                Some(())
            } else {
                None
            },
        ),
        NameServers::interpreted(status, servers, headers, now) == if status == 200 {
            http_common::viewed(http_common::json_if(true, servers))
        } else {
            Ok(None)
        },
{
}

/// Name servers are shown in their order, and what became of records shows nothing.
pub proof fn name_servers_are_shown_in_order(servers: Seq<Seq<char>>)
    ensures
        <NameServers as Shown>::shown(servers) == "["@ + order::listed(
            Seq::new(servers.len(), |i: int| text::quoted(servers[i])),
        ) + "]"@,
        <TxtRecordCreated as Shown>::shown(()) == ""@,
        <TxtRecordDeleted as Shown>::shown(()) == ""@,
{
    assert(certificate::all_quoted(servers) =~= Seq::new(
        servers.len(),
        |i: int| text::quoted(servers[i]),
    ));
}

/// The body of a response counts where its status and its media type are the expected ones.
pub proof fn bodies_count_where_they_are_expected(status: u16, content_type: Seq<u8>, headers: ResponseHeaders)
    ensures
        <TxtRecordCreated as FromResponse>::reads(status, content_type, headers) <==> false,
        <TxtRecordDeleted as FromResponse>::reads(status, content_type, headers) <==> false,
        <NameServers as FromResponse>::reads(status, content_type, headers)
            <==> status == 200 && http_common::is_json(content_type),
{
}

} // verus!
