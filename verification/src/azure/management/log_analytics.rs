//! How the key of a Log Analytics workspace is obtained.

use vstd::prelude::*;
use vstd::utf8;

use crate::azure::log_analytics;
use crate::azure::log_analytics::LogSender;
use crate::azure::management::Client;
use crate::azure::{Call, CallView, Url, UrlView};
use crate::encoding;
use crate::error;
use crate::error::Error;
use crate::http_common;
use crate::http_common::{
    FromResponse, HeaderValue, Method, ResponseBody, ResponseHeaders, StatusCode,
};
use crate::log2;
use crate::log2::{ObjectOperation, Report, Scope, ScopeView, ScopedObjectOperation, Shown};
use crate::text;

verus! {

/// The path of a workspace.
pub open spec fn workspace_path(workspace_name: Seq<char>, rest: Seq<char>) -> Seq<char> {
    "/providers/Microsoft.OperationalInsights/workspaces/"@ + workspace_name + rest
}

/// A look at a workspace.
pub open spec fn workspace_call(workspace_name: Seq<char>) -> CallView {
    CallView {
        scope: ScopeView {
            object_type: "azure/log_analytics/workspace"@,
            object_id: workspace_name,
            operation: ScopedObjectOperation::Get,
        },
        method: Method::Get,
        url: UrlView::PathAndQuery(workspace_path(workspace_name, "?api-version=2022-10-01"@)),
        body: None,
    }
}

/// A look at the keys of a workspace.
pub open spec fn shared_keys_call(workspace_name: Seq<char>) -> CallView {
    CallView {
        scope: ScopeView {
            object_type: "azure/log_analytics/workspace/shared_access_keys"@,
            object_id: workspace_name,
            operation: ScopedObjectOperation::Get,
        },
        method: Method::Post,
        url: UrlView::PathAndQuery(
            workspace_path(workspace_name, "/sharedKeys?api-version=2022-10-01"@),
        ),
        body: None,
    }
}

/// Writes the path of a workspace.
fn write_workspace_path(workspace_name: &str, rest: &str) -> (r: String)
    ensures
        r@ == workspace_path(workspace_name@, rest@),
{
    let mut r = "/providers/Microsoft.OperationalInsights/workspaces/".to_owned();
    r.append(workspace_name);
    r.append(rest);
    r
}

impl<'a> Client<'a> {
    /// Asks for what it takes to send the log to a workspace: its ID, and its key. The responses go to
    /// [`log_sender_received`].
    pub fn log_analytics_log_sender(&self, workspace_name: &str) -> (r: (Call, Call))
        ensures
            r.0@ == workspace_call(workspace_name@),
            r.1@ == shared_keys_call(workspace_name@),
    {
        let workspace = Call {
            scope: Scope::get("azure/log_analytics/workspace", workspace_name.to_owned()),
            method: Method::Get,
            url: Url::PathAndQuery(
                write_workspace_path(workspace_name, "?api-version=2022-10-01"),
            ),
            body: None,
        };
        let shared_keys = Call {
            scope: Scope::get(
                "azure/log_analytics/workspace/shared_access_keys",
                workspace_name.to_owned(),
            ),
            method: Method::Post,
            url: Url::PathAndQuery(
                write_workspace_path(workspace_name, "/sharedKeys?api-version=2022-10-01"),
            ),
            body: None,
        };
        (workspace, shared_keys)
    }
}

/// A workspace.
#[derive(Debug)]
pub struct WorkspaceResponse {
    pub customer_id: String,
}

impl View for WorkspaceResponse {
    type V = Seq<char>;

    open spec fn view(&self) -> Seq<char> {
        self.customer_id@
    }
}

impl FromResponse for WorkspaceResponse {
    type Content = Result<WorkspaceResponse, String>;

    open spec fn interpreted(
        status: u16,
        body: Option<ResponseBody<Result<WorkspaceResponse, String>>>,
        headers: ResponseHeaders,
        now: int,
    ) -> Result<Option<Seq<char>>, Seq<Seq<char>>> {
        http_common::viewed(http_common::json_if(status == 200, body))
    }

    fn from_response(
        status: StatusCode,
        body: Option<ResponseBody<Result<WorkspaceResponse, String>>>,
        headers: &ResponseHeaders,
        now: i128,
    ) -> (r: Result<Option<WorkspaceResponse>, Error>) {
        http_common::expect_json(status.as_u16() == 200, body)
    }

    open spec fn reads(status: u16, content_type: Seq<u8>, headers: ResponseHeaders) -> bool {
        status == 200 && http_common::is_json(content_type)
    }

    fn reads_body(
        status: StatusCode,
        content_type: &HeaderValue,
        headers: &ResponseHeaders,
    ) -> (r: bool) {
        status.as_u16() == 200 && http_common::has_json_type(content_type)
    }

    proof fn unread_does_not_matter(
        status: u16,
        content_type: HeaderValue,
        in_one_piece: bool,
        one: Result<WorkspaceResponse, String>,
        other: Result<WorkspaceResponse, String>,
        headers: ResponseHeaders,
        now: int,
    ) {
    }
}

impl Shown for WorkspaceResponse {
    /// The ID of the workspace.
    open spec fn shown(value: Seq<char>) -> Seq<char> {
        text::quoted(value)
    }

    fn show(&self) -> (r: String) {
        text::quote(self.customer_id.as_str())
    }
}

/// The keys of a workspace, as the API describes them.
#[derive(Debug)]
pub struct SharedKeysObject {
    /// A key, in base64.
    pub primary_shared_key: String,
}

/// The key of a workspace.
#[derive(Debug)]
pub struct SharedKeysResponse {
    pub primary_shared_key: Vec<u8>,
}

impl View for SharedKeysResponse {
    type V = Seq<u8>;

    open spec fn view(&self) -> Seq<u8> {
        self.primary_shared_key@
    }
}

impl FromResponse for SharedKeysResponse {
    type Content = Result<SharedKeysObject, String>;

    open spec fn interpreted(
        status: u16,
        body: Option<ResponseBody<Result<SharedKeysObject, String>>>,
        headers: ResponseHeaders,
        now: int,
    ) -> Result<Option<Seq<u8>>, Seq<Seq<char>>> {
        match http_common::json_if(status == 200, body) {
            Ok(Some(keys)) => match encoding::base64_standard_decoded(keys.primary_shared_key@) {
                Ok(key) => Ok(Some(key)),
                Err(err) => Err(error::message(err)),
            },
            Ok(None) => Ok(None),
            Err(err) => Err(err),
        }
    }

    fn from_response(
        status: StatusCode,
        body: Option<ResponseBody<Result<SharedKeysObject, String>>>,
        headers: &ResponseHeaders,
        now: i128,
    ) -> (r: Result<Option<SharedKeysResponse>, Error>) {
        match http_common::expect_json(status.as_u16() == 200, body) {
            Ok(Some(keys)) => match encoding::decode_base64(keys.primary_shared_key.as_str()) {
                Ok(primary_shared_key) => Ok(Some(SharedKeysResponse { primary_shared_key })),
                Err(err) => Err(err),
            },
            Ok(None) => Ok(None),
            Err(err) => Err(err),
        }
    }

    open spec fn reads(status: u16, content_type: Seq<u8>, headers: ResponseHeaders) -> bool {
        status == 200 && http_common::is_json(content_type)
    }

    fn reads_body(
        status: StatusCode,
        content_type: &HeaderValue,
        headers: &ResponseHeaders,
    ) -> (r: bool) {
        status.as_u16() == 200 && http_common::has_json_type(content_type)
    }

    proof fn unread_does_not_matter(
        status: u16,
        content_type: HeaderValue,
        in_one_piece: bool,
        one: Result<SharedKeysObject, String>,
        other: Result<SharedKeysObject, String>,
        headers: ResponseHeaders,
        now: int,
    ) {
    }
}

impl Shown for SharedKeysResponse {
    /// The key is a secret: the form is the same for all keys.
    open spec fn shown(value: Seq<u8>) -> Seq<char> {
        "******"@
    }

    fn show(&self) -> (r: String) {
        "******".to_owned()
    }
}

/// The key of a workspace does not get into the log: whatever it is, what is reported at the end of the
/// call that asks for it is the same.
pub proof fn the_shared_key_is_not_shown(workspace_name: Seq<char>, key: Seq<u8>)
    ensures
        log2::end_report(
            shared_keys_call(workspace_name).scope,
            <SharedKeysResponse as Shown>::shown(key),
        ) == (Report::ObjectOperation {
            object_type: "azure/log_analytics/workspace/shared_access_keys"@,
            object_id: workspace_name,
            operation: ObjectOperation::GetEnd { value: "******"@ },
        }),
{
}

/// What sends the log to a workspace, once its ID and its key have been obtained.
pub fn log_sender_received(response: Result<(WorkspaceResponse, SharedKeysResponse), Error>) -> (r:
    Result<LogSender, Error>)
    ensures
        match response {
            Ok((workspace, keys)) => match http_common::uri_text(
                utf8::encode_utf8(log_analytics::collector_uri(workspace@)),
            ) {
                Ok(uri) => r matches Ok(sender) && sender@ == (log_analytics::LogSenderView {
                    customer_id: workspace@,
                    uri,
                    signer: keys@,
                }),
                Err(err) => r matches Err(e) && e@ == error::in_context(
                    "could not construct Log Analytics Data Collector API URI"@,
                    error::message(err),
                ),
            },
            Err(err) => r matches Err(e) && e@ == err@,
        },
{
    match response {
        Ok((workspace, keys)) => LogSender::new(workspace.customer_id, keys.primary_shared_key),
        Err(err) => Err(err),
    }
}

/// A workspace is looked at by its name, and so are its keys, which have to be asked for by POST.
pub proof fn a_workspace_is_asked_by_name(workspace_name: Seq<char>)
    ensures
        ({
            let workspace = workspace_call(workspace_name);
            let keys = shared_keys_call(workspace_name);
            &&& workspace.method == Method::Get
            &&& workspace.url == UrlView::PathAndQuery(
                "/providers/Microsoft.OperationalInsights/workspaces/"@ + workspace_name
                    + "?api-version=2022-10-01"@,
            )
            &&& workspace.body is None
            &&& workspace.scope.object_type == "azure/log_analytics/workspace"@
            &&& workspace.scope.object_id == workspace_name
            &&& workspace.scope.operation is Get
            &&& keys.method == Method::Post
            &&& keys.url == UrlView::PathAndQuery(
                "/providers/Microsoft.OperationalInsights/workspaces/"@ + workspace_name
                    + "/sharedKeys?api-version=2022-10-01"@,
            )
            &&& keys.body is None
            &&& keys.scope.object_type == "azure/log_analytics/workspace/shared_access_keys"@
            &&& keys.scope.object_id == workspace_name
            &&& keys.scope.operation is Get
        }),
{
}

/// The ID of a workspace comes as it is, and its key is what its base64 text encodes, each from a response
/// with the status 200 alone.
pub proof fn a_key_is_what_its_text_encodes(
    status: u16,
    workspace: Option<ResponseBody<Result<WorkspaceResponse, String>>>,
    keys: ResponseBody<Result<SharedKeysObject, String>>,
    headers: ResponseHeaders,
    now: int,
)
    requires
        http_common::is_json(keys.content_type@),
    ensures
        WorkspaceResponse::interpreted(status, workspace, headers, now) == if status == 200 {
            http_common::viewed(http_common::json_if(true, workspace))
        } else {
            Ok(None)
        },
        ({
            let read = SharedKeysResponse::interpreted(status, Some(keys), headers, now);
            if status == 200 {
                match keys.content {
                    Ok(object) => match encoding::base64_standard_decoded(object.primary_shared_key@) {
                        Ok(key) => read == Ok::<Option<Seq<u8>>, Seq<Seq<char>>>(Some(key)),
                        Err(err) => read == Err::<Option<Seq<u8>>, Seq<Seq<char>>>(seq![err]),
                    },
                    Err(err) => read == Err::<Option<Seq<u8>>, Seq<Seq<char>>>(seq![err@]),
                }
            } else {
                read == Ok::<Option<Seq<u8>>, Seq<Seq<char>>>(None)
            }
        }),
{
}

/// The body of a response counts where its status and its media type are the expected ones.
pub proof fn bodies_count_where_they_are_expected(status: u16, content_type: Seq<u8>, headers: ResponseHeaders)
    ensures
        <WorkspaceResponse as FromResponse>::reads(status, content_type, headers)
            <==> status == 200 && http_common::is_json(content_type),
        <SharedKeysResponse as FromResponse>::reads(status, content_type, headers)
            <==> status == 200 && http_common::is_json(content_type),
{
}

} // verus!
