//! The server that runs one of several functions for each request.

use vstd::prelude::*;
use vstd::utf8;

use crate::error;
use crate::error::Error;
use crate::function_worker;
use crate::http_common;
use crate::http_common::{HeaderValue, StatusCode};
use crate::text;

verus! {

/// An answer.
#[derive(Debug)]
pub struct Response {
    pub status: StatusCode,
    pub content_type: Option<HeaderValue>,
    pub body: Vec<u8>,
}

/// An answer.
#[verifier::ext_equal]
pub struct ResponseView {
    pub status: u16,
    pub content_type: Option<Seq<u8>>,
    pub body: Seq<u8>,
}

impl View for Response {
    type V = ResponseView;

    open spec fn view(&self) -> ResponseView {
        ResponseView {
            status: self.status@,
            content_type: http_common::header_view(self.content_type),
            body: self.body@,
        }
    }
}

/// What is done about a request.
#[derive(Debug)]
pub enum Dispatch {
    /// The function with this index is run.
    Run(usize),
    /// The request is answered without running a function.
    Answer(Response),
}

/// An answer that is nothing but a status.
pub open spec fn bare_answer(status: u16) -> ResponseView {
    ResponseView { status, content_type: None, body: Seq::empty() }
}

/// The place of the first of the paths of the functions that is `path`.
pub open spec fn place_of(paths: Seq<Seq<char>>, path: Seq<char>) -> Option<int>
    decreases paths.len(),
{
    if paths.len() == 0 {
        None
    } else {
        match place_of(paths.drop_last(), path) {
            Some(place) => Some(place),
            None => if paths.last() == path {
                Some(paths.len() - 1)
            } else {
                None
            },
        }
    }
}

/// What is done about a request.
pub enum DispatchView {
    Run(int),
    Answer(ResponseView),
}

impl View for Dispatch {
    type V = DispatchView;

    open spec fn view(&self) -> DispatchView {
        match self {
            Dispatch::Run(place) => DispatchView::Run(*place as int),
            Dispatch::Answer(response) => DispatchView::Answer(response@),
        }
    }
}

/// What is done about a request for a path.
pub open spec fn dispatched(paths: Seq<Seq<char>>, path: Seq<char>, is_post: bool) -> DispatchView {
    match place_of(paths, path) {
        None => DispatchView::Answer(bare_answer(404)),
        Some(place) => if is_post {
            DispatchView::Run(place)
        } else {
            DispatchView::Answer(bare_answer(405))
        },
    }
}

/// An answer that is nothing but a status.
fn answer(status: u16) -> (r: Response)
    requires
        100 <= status <= 999,
    ensures
        r@ == bare_answer(status),
{
    match StatusCode::from_u16(status) {
        Some(status) => Response { status, content_type: None, body: Vec::new() },
        None => vstd::pervasive::unreached(),
    }
}

/// Finds out what is to be done about a request, where the functions have certain paths.
pub fn dispatch(paths: &Vec<String>, path: &str, is_post: bool) -> (r: Dispatch)
    ensures
        r@ == dispatched(text::texts(paths@), path@, is_post),
        r matches Dispatch::Run(place) ==> place < paths@.len() && paths@[place as int]@ == path@,
{
    let ghost all = text::texts(paths@);
    for i in 0..paths.len()
        invariant
            all == text::texts(paths@),
            place_of(all.take(i as int), path@) is None,
    {
        assert(all.take(i + 1).drop_last() =~= all.take(i as int));
        assert(all.take(i + 1).last() == paths@[i as int]@);
        if text::str_eq(paths[i].as_str(), path) {
            proof {
                lemma_place_of(all, path@, i + 1);
            }
            return if is_post {
                Dispatch::Run(i)
            } else {
                Dispatch::Answer(answer(405))
            };
        }
    }
    assert(all.take(all.len() as int) =~= all);
    Dispatch::Answer(answer(404))
}

/// What is found among the first paths is found among all of them.
proof fn lemma_place_of(paths: Seq<Seq<char>>, path: Seq<char>, n: int)
    requires
        0 <= n <= paths.len(),
        place_of(paths.take(n), path) is Some,
    ensures
        place_of(paths, path) == place_of(paths.take(n), path),
    decreases paths.len() - n,
{
    if n == paths.len() {
        assert(paths.take(n) =~= paths);
    } else {
        assert(paths.take(n + 1).drop_last() =~= paths.take(n));
        lemma_place_of(paths, path, n + 1);
    }
}

/// The error of a function that has failed.
pub fn failure(err: Error) -> (r: Error)
    ensures
        r@ == error::in_context("function failed"@, err@),
{
    err.context("function failed")
}

/// The answer after a function has run, or has failed with an error that is given in its `Debug`
/// form.
pub open spec fn concluded(result: Result<(), Seq<char>>) -> ResponseView {
    match result {
        Ok(()) => ResponseView {
            status: 200,
            content_type: Some(utf8::encode_utf8("application/json"@)),
            body: utf8::encode_utf8(
                function_worker::response_body(function_worker::ResponseView::Done),
            ),
        },
        Err(err) => ResponseView { status: 500, content_type: None, body: utf8::encode_utf8(err) },
    }
}

/// The answer after a function has run, or has failed with an error that is given in its `Debug`
/// form.
pub fn conclude(result: Result<(), String>) -> (r: Response)
    ensures
        r@ == concluded(
            match result {
                Ok(()) => Ok(()),
                Err(err) => Err(err@),
            },
        ),
{
    match result {
        Ok(()) => {
            proof {
                reveal_strlit("application/json");
            }
            let bare = answer(200);
            Response {
                status: bare.status,
                content_type: Some(HeaderValue::from_static("application/json")),
                body: text::bytes_of("{\"Outputs\":{\"\":\"\"},\"Logs\":null,\"ReturnValue\":\"\"}"),
            }
        },
        Err(err) => {
            let bare = answer(500);
            Response {
                status: bare.status,
                content_type: None,
                body: text::bytes_of(err.as_str()),
            }
        },
    }
}

/// A function is run for a request if and only if it has the path of the request and the request is a
/// `POST`.
pub proof fn only_a_post_to_a_known_path_runs(
    paths: Seq<Seq<char>>,
    path: Seq<char>,
    is_post: bool,
)
    ensures
        dispatched(paths, path, is_post) is Run <==> is_post && paths.contains(path),
        dispatched(paths, path, is_post) matches DispatchView::Run(place) ==> 0 <= place
            < paths.len() && paths[place] == path,
    decreases paths.len(),
{
    if paths.len() > 0 {
        let fewer = paths.drop_last();
        only_a_post_to_a_known_path_runs(fewer, path, is_post);
        only_a_post_to_a_known_path_runs(fewer, path, true);
        if fewer.contains(path) {
            let i = choose|i: int| 0 <= i < fewer.len() && fewer[i] == path;
            assert(paths[i] == path);
        }
        if paths.contains(path) && paths.last() != path {
            let i = choose|i: int| 0 <= i < paths.len() && paths[i] == path;
            assert(fewer[i] == path);
        }
        if paths.last() == path {
            assert(paths[paths.len() - 1] == path);
        }
    }
}

/// The function that is run is the first one that has the path of the request. A path that no function has
/// is answered with the status 404, and a request for a known path that is no `POST` with 405, both with
/// nothing else.
pub proof fn the_first_function_with_the_path_runs(
    paths: Seq<Seq<char>>,
    path: Seq<char>,
    place: int,
)
    requires
        0 <= place <= paths.len(),
        forall|i: int| 0 <= i < place ==> #[trigger] paths[i] != path,
        place < paths.len() ==> paths[place] == path,
    ensures
        place < paths.len() ==> dispatched(paths, path, true) == DispatchView::Run(place),
        place < paths.len() ==> dispatched(paths, path, false) == DispatchView::Answer(
            ResponseView { status: 405, content_type: None, body: seq![] },
        ),
        place == paths.len() ==> dispatched(paths, path, true) == DispatchView::Answer(
            ResponseView { status: 404, content_type: None, body: seq![] },
        ),
        place == paths.len() ==> dispatched(paths, path, false) == DispatchView::Answer(
            ResponseView { status: 404, content_type: None, body: seq![] },
        ),
    decreases paths.len(),
{
    if paths.len() > 0 {
        let fewer = paths.drop_last();
        if place < paths.len() {
            if place < fewer.len() {
                assert(fewer[place] == path);
                the_first_function_with_the_path_runs(fewer, path, place);
            } else {
                the_first_function_with_the_path_runs(fewer, path, fewer.len() as int);
            }
        } else {
            the_first_function_with_the_path_runs(fewer, path, fewer.len() as int);
            assert(paths[paths.len() - 1] != path);
        }
    }
}

/// A function that has run is answered with the status 200 and an empty result, as JSON, and one that has
/// failed with 500 and its error.
pub proof fn the_answer_tells_how_it_ended(err: Seq<char>)
    ensures
        concluded(Ok(())) == (ResponseView {
            status: 200,
            content_type: Some(utf8::encode_utf8("application/json"@)),
            body: utf8::encode_utf8("{\"Outputs\":{\"\":\"\"},\"Logs\":null,\"ReturnValue\":\"\"}"@),
        }),
        concluded(Err(err)) == (ResponseView {
            status: 500,
            content_type: None,
            body: utf8::encode_utf8(err),
        }),
{
}

} // verus!
