//! What a person who watches is told while an account of [`proto`](crate::acme::proto) is at work.

use vstd::prelude::*;

use crate::acme::account::ResponseWithNewNonce;
use crate::acme::order;
use crate::acme::proto::{
    AuthorizationResponse, AuthorizationState, ChallengeObject, ChallengeResponse, ChallengeState,
    NewAccountResponse, OrderResponse, OrderState,
};
use crate::azure::key_vault::certificate;
use crate::error::Error;
use crate::http_common::ResponseWithLocation;
use crate::log2::Shown;
use crate::text;
use crate::time2;
use crate::time2::Duration;

verus! {

/// Said when the nonce has come that was asked for.
pub const GOT_NONCE: &'static str = "Got initial nonce";

/// Said before the account is opened.
pub const OPENING_ACCOUNT: &'static str = "Creating / getting account corresponding to account key...";

/// Something about something, such as `Getting directory https://example.com/ ...`.
pub open spec fn about(before: Seq<char>, what: Seq<char>, after: Seq<char>) -> Seq<char> {
    before + what + after
}

/// Says something about something.
pub fn say(before: &str, what: &str, after: &str) -> (r: String)
    ensures
        r@ == about(before@, what@, after@),
{
    let mut r = before.to_owned();
    r.append(what);
    r.append(after);
    r
}

/// What is said before the directory of a server is asked for.
pub fn getting_directory(acme_directory_url: &str) -> (r: String)
    ensures
        r@ == about("Getting directory "@, acme_directory_url@, " ..."@),
{
    say("Getting directory ", acme_directory_url, " ...")
}

/// What is said when the directory of a server has come.
pub fn got_directory(acme_directory_url: &str) -> (r: String)
    ensures
        r@ == about("Got directory "@, acme_directory_url@, ""@),
{
    say("Got directory ", acme_directory_url, "")
}

/// What is said before an order is placed.
pub fn creating_order(domain_name: &str) -> (r: String)
    ensures
        r@ == about("Creating order for "@, domain_name@, " ..."@),
{
    say("Creating order for ", domain_name, " ...")
}

/// What something is found to be, such as `Order https://example.com/ is Ready`.
pub open spec fn found(before: Seq<char>, url: Seq<char>, shown: Seq<char>) -> Seq<char> {
    before + url + " is "@ + shown
}

/// Says what something is found to be.
pub fn say_found(before: &str, url: &str, shown: &str) -> (r: String)
    ensures
        r@ == found(before@, url@, shown@),
{
    let mut r = before.to_owned();
    r.append(url);
    r.append(" is ");
    r.append(shown);
    r
}

/// What is said before a wait, if there is one.
pub open spec fn waiting(retry_after: Option<nat>, after: Seq<char>) -> Option<Seq<char>> {
    match retry_after {
        Some(retry_after) => Some(about("Waiting for "@, time2::shown(retry_after), after)),
        None => None,
    }
}

/// Says something before a wait, if there is one.
pub fn say_waiting(retry_after: Option<Duration>, after: &str) -> (r: Option<String>)
    ensures
        text::optional(r) == waiting(crate::acme::completion::optional_span(retry_after), after@),
{
    match retry_after {
        Some(retry_after) => Some(say("Waiting for ", retry_after.text().as_str(), after)),
        None => None,
    }
}

/// What is said about an account that has been opened. Nothing is said of a response without a nonce.
pub open spec fn account_found(
    response: Result<((Seq<char>, Seq<char>), Option<Seq<u8>>), Seq<Seq<char>>>,
) -> Option<Seq<char>> {
    match response {
        Ok(((status, account_url), Some(_))) => Some(
            "Created / got account "@ + account_url + " with status "@ + status,
        ),
        _ => None,
    }
}

/// Says something about an account that has been opened.
pub fn say_account_found(
    response: &Result<ResponseWithNewNonce<ResponseWithLocation<NewAccountResponse>>, Error>,
) -> (r: Option<String>)
    ensures
        text::optional(r) == account_found(crate::error::result_view(*response)),
{
    match response {
        Ok(response) => {
            if response.new_nonce.is_none() {
                return None;
            }
            let mut r = "Created / got account ".to_owned();
            r.append(response.body.location.as_str());
            r.append(" with status ");
            r.append(response.body.body.status.as_str());
            Some(r)
        },
        Err(_) => None,
    }
}

impl Shown for OrderResponse {
    open spec fn shown(value: OrderState) -> Seq<char> {
        match value {
            OrderState::Invalid { body } => order::with_field("Invalid { body: "@, body),
            OrderState::Pending { authorization_urls } => order::with_field(
                "Pending { authorization_urls: ["@,
                order::listed(certificate::all_quoted(authorization_urls)) + "]"@,
            ),
            OrderState::Processing { retry_after } => order::with_field(
                "Processing { retry_after: "@,
                time2::shown(retry_after),
            ),
            OrderState::Ready { finalize_url } => order::with_field(
                "Ready { finalize_url: "@,
                text::quoted(finalize_url),
            ),
            OrderState::Valid { certificate_url } => order::with_field(
                "Valid { certificate_url: "@,
                text::quoted(certificate_url),
            ),
        }
    }

    fn show(&self) -> (r: String) {
        match self {
            OrderResponse::Invalid { body } => order::show_field("Invalid { body: ", body.as_str()),
            OrderResponse::Pending { authorization_urls } => {
                let mut urls = certificate::list_quoted(authorization_urls);
                urls.append("]");
                order::show_field("Pending { authorization_urls: [", urls.as_str())
            },
            OrderResponse::Processing { retry_after } => order::show_field(
                "Processing { retry_after: ",
                retry_after.text().as_str(),
            ),
            OrderResponse::Ready { finalize_url } => order::show_field(
                "Ready { finalize_url: ",
                text::quote(finalize_url.as_str()).as_str(),
            ),
            OrderResponse::Valid { certificate_url } => order::show_field(
                "Valid { certificate_url: ",
                text::quote(certificate_url.as_str()).as_str(),
            ),
        }
    }
}

/// The form of a challenge.
pub open spec fn challenge_shown(challenge: ChallengeState) -> Seq<char> {
    match challenge {
        ChallengeState::Invalid { body } => order::with_field("Invalid { body: "@, body),
        ChallengeState::Pending { token, kind, url } => "Pending { token: "@ + text::quoted(token)
            + ", type: "@ + text::quoted(kind) + ", url: "@ + text::quoted(url) + " }"@,
        ChallengeState::Processing { retry_after } => order::with_field(
            "Processing { retry_after: "@,
            time2::shown(retry_after),
        ),
        ChallengeState::Valid => "Valid"@,
    }
}

/// Shows a challenge that is pending.
fn show_pending(token: &str, kind: &str, url: &str) -> (r: String)
    ensures
        r@ == challenge_shown(ChallengeState::Pending { token: token@, kind: kind@, url: url@ }),
{
    let mut r = "Pending { token: ".to_owned();
    r.append(text::quote(token).as_str());
    r.append(", type: ");
    r.append(text::quote(kind).as_str());
    r.append(", url: ");
    r.append(text::quote(url).as_str());
    r.append(" }");
    r
}

impl Shown for ChallengeResponse {
    open spec fn shown(value: ChallengeState) -> Seq<char> {
        challenge_shown(value)
    }

    fn show(&self) -> (r: String) {
        match self {
            ChallengeResponse::Invalid { body } => order::show_field(
                "Invalid { body: ",
                body.as_str(),
            ),
            ChallengeResponse::Pending { token, kind, url } => show_pending(
                token.as_str(),
                kind.as_str(),
                url.as_str(),
            ),
            ChallengeResponse::Processing { retry_after } => order::show_field(
                "Processing { retry_after: ",
                retry_after.text().as_str(),
            ),
            ChallengeResponse::Valid => "Valid".to_owned(),
        }
    }
}

impl Shown for ChallengeObject {
    open spec fn shown(value: ChallengeState) -> Seq<char> {
        challenge_shown(value)
    }

    fn show(&self) -> (r: String) {
        match self {
            ChallengeObject::Invalid { body } => order::show_field(
                "Invalid { body: ",
                body.as_str(),
            ),
            ChallengeObject::Pending { token, kind, url } => show_pending(
                token.as_str(),
                kind.as_str(),
                url.as_str(),
            ),
            ChallengeObject::Processing => order::show_field(
                "Processing { retry_after: ",
                Duration::from_secs(0).text().as_str(),
            ),
            ChallengeObject::Valid => "Valid".to_owned(),
        }
    }
}

/// The forms of some challenges.
pub open spec fn challenges_shown(challenges: Seq<ChallengeObject>) -> Seq<Seq<char>> {
    challenges.map_values(|challenge: ChallengeObject| challenge_shown(challenge@))
}

/// Lists some challenges.
fn list_challenges(challenges: &Vec<ChallengeObject>) -> (r: String)
    ensures
        r@ == order::listed(challenges_shown(challenges@)),
{
    let ghost all = challenges_shown(challenges@);
    let mut r = String::new();
    for i in 0..challenges.len()
        invariant
            all == challenges_shown(challenges@),
            r@ == order::listed(all.take(i as int)),
    {
        let ghost after = all.take(i + 1);
        assert(after.drop_last() =~= all.take(i as int));
        assert(after.last() == challenge_shown(challenges@[i as int]@));
        if i > 0 {
            r.append(", ");
        }
        r.append(challenges[i].show().as_str());
        assert(i == 0 ==> r@ =~= challenge_shown(challenges@[0]@));
    }
    assert(all.take(challenges@.len() as int) =~= all);
    r
}

impl Shown for AuthorizationResponse {
    open spec fn shown(value: AuthorizationState) -> Seq<char> {
        match value {
            AuthorizationState::Deactivated => "Deactivated"@,
            AuthorizationState::Expired => "Expired"@,
            AuthorizationState::Invalid => "Invalid"@,
            AuthorizationState::Pending { challenges, retry_after } => "Pending { challenges: ["@
                + order::listed(challenges_shown(challenges)) + "], retry_after: "@ + time2::shown(
                retry_after,
            ) + " }"@,
            AuthorizationState::Revoked => "Revoked"@,
            AuthorizationState::Valid => "Valid"@,
        }
    }

    fn show(&self) -> (r: String) {
        match self {
            AuthorizationResponse::Deactivated => "Deactivated".to_owned(),
            AuthorizationResponse::Expired => "Expired".to_owned(),
            AuthorizationResponse::Invalid => "Invalid".to_owned(),
            AuthorizationResponse::Pending { challenges, retry_after } => {
                let mut r = "Pending { challenges: [".to_owned();
                r.append(list_challenges(challenges).as_str());
                r.append("], retry_after: ");
                r.append(retry_after.text().as_str());
                r.append(" }");
                r
            },
            AuthorizationResponse::Revoked => "Revoked".to_owned(),
            AuthorizationResponse::Valid => "Valid".to_owned(),
        }
    }
}

/// What a response is found to be, where there is one.
pub open spec fn response_found<T: Shown>(
    before: Seq<char>,
    url: Seq<char>,
    response: Result<T, Error>,
) -> Option<Seq<char>> {
    match response {
        Ok(value) => Some(found(before, url, T::shown(value@))),
        Err(_) => None,
    }
}

/// Says what a response is found to be, where there is one.
pub fn say_response_found<T: Shown>(before: &str, url: &str, response: &Result<T, Error>) -> (r:
    Option<String>)
    ensures
        text::optional(r) == response_found(before@, url@, *response),
{
    match response {
        Ok(value) => Some(say_found(before, url, value.show().as_str())),
        Err(_) => None,
    }
}

/// What is said about something tells what it is about, and what it was found to be, in this order.
pub proof fn a_message_tells_what_it_is_about(
    before: Seq<char>,
    what: Seq<char>,
    after: Seq<char>,
    retry_after: Option<nat>,
    status: Seq<char>,
    nonce: Option<Seq<u8>>,
    err: Seq<Seq<char>>,
)
    ensures
        about(before, what, after) == before + what + after,
        found(before, what, after) == before + what + " is "@ + after,
        waiting(retry_after, after) == match retry_after {
            Some(nanos) => Some("Waiting for "@ + time2::shown(nanos) + after),
            None => None,
        },
        account_found(Ok(((status, what), nonce))) == match nonce {
            Some(_) => Some("Created / got account "@ + what + " with status "@ + status),
            None => None,
        },
        account_found(Err(err)) is None,
{
}

/// A state is shown with its name and with what it carries.
pub proof fn states_are_shown_with_what_they_carry(
    order: OrderState,
    challenge: ChallengeState,
    authorization: AuthorizationState,
)
    ensures
        <OrderResponse as Shown>::shown(order) == match order {
            OrderState::Invalid { body } => "Invalid { body: "@ + body + " }"@,
            OrderState::Pending { authorization_urls } => "Pending { authorization_urls: ["@ + (
            order::listed(
                Seq::new(authorization_urls.len(), |i: int| text::quoted(authorization_urls[i])),
            ) + "]"@) + " }"@,
            OrderState::Processing { retry_after } => "Processing { retry_after: "@ + time2::shown(
                retry_after,
            ) + " }"@,
            OrderState::Ready { finalize_url } => "Ready { finalize_url: "@ + text::quoted(finalize_url)
                + " }"@,
            OrderState::Valid { certificate_url } => "Valid { certificate_url: "@ + text::quoted(
                certificate_url,
            ) + " }"@,
        },
        <ChallengeResponse as Shown>::shown(challenge) == match challenge {
            ChallengeState::Invalid { body } => "Invalid { body: "@ + body + " }"@,
            ChallengeState::Pending { token, kind, url } => "Pending { token: "@ + text::quoted(token)
                + ", type: "@ + text::quoted(kind) + ", url: "@ + text::quoted(url) + " }"@,
            ChallengeState::Processing { retry_after } => "Processing { retry_after: "@ + time2::shown(
                retry_after,
            ) + " }"@,
            ChallengeState::Valid => "Valid"@,
        },
        <AuthorizationResponse as Shown>::shown(authorization) == match authorization {
            AuthorizationState::Deactivated => "Deactivated"@,
            AuthorizationState::Expired => "Expired"@,
            AuthorizationState::Invalid => "Invalid"@,
            AuthorizationState::Pending { challenges, retry_after } => "Pending { challenges: ["@
                + order::listed(
                Seq::new(
                    challenges.len(),
                    |i: int| <ChallengeObject as Shown>::shown(challenges[i]@),
                ),
            ) + "], retry_after: "@ + time2::shown(retry_after) + " }"@,
            AuthorizationState::Revoked => "Revoked"@,
            AuthorizationState::Valid => "Valid"@,
        },
{
    if let OrderState::Pending { authorization_urls } = order {
        assert(certificate::all_quoted(authorization_urls) =~= Seq::new(
            authorization_urls.len(),
            |i: int| text::quoted(authorization_urls[i]),
        ));
    }
    if let AuthorizationState::Pending { challenges, .. } = authorization {
        assert(challenges_shown(challenges) =~= Seq::new(
            challenges.len(),
            |i: int| <ChallengeObject as Shown>::shown(challenges[i]@),
        ));
    }
}

/// What a response is found to be is said where there is one, and nothing where there is an error.
pub proof fn only_what_is_found_is_said<T: Shown>(before: Seq<char>, url: Seq<char>, value: T, err: Error)
    ensures
        response_found::<T>(before, url, Ok(value)) == Some(
            before + url + " is "@ + T::shown(value@),
        ),
        response_found::<T>(before, url, Err(err)) is None,
{
}

} // verus!
