//! Vaults: the resource-layer calls that list vaults and fetch one vault's
//! details, classifying service-level failures by their structure.

use vstd::prelude::*;
use vstd::string::*;
use vstd::utf8::{encode_utf8, valid_utf8};
use crate::client::{drove_one_request, Client, Transport};
use crate::decode::{
    decode_post, decode_succeeds, decodes_to, resp_json, resp_text, status_success, FromJson,
    HttpResponse,
};
use crate::error::{classify_failure, spec_body_message, spec_classify, strs_view, Error, Kind};
use crate::json::json_of;
use crate::models::vault::VaultData;
use crate::request::{header_value_ok, lemma_method_names, lemma_single_empty_pair_query, Method};

verus! {

/// What a resource-layer call leaves behind when it fails: a recognized
/// service-level condition with one of the expected messages, or an
/// internal error wrapping the pipeline's own message.
pub open spec fn classified_err(e: Error, messages: Seq<Seq<char>>) -> bool {
    match e.kind {
        Kind::VaultError(ve) => exists|i: int| 0 <= i < messages.len() && ve.message@ == messages[i],
        Kind::InternalError => e.cause is Some,
        _ => false,
    }
}

/// The decoder reported this response as an unsuccessful status: the body
/// was read, its bytes are text, the text parses, and the status is not a
/// success.
pub open spec fn response_is_unsuccessful(resp: HttpResponse) -> bool {
    &&& resp.body is Ok
    &&& (resp.body->Ok_0@.len() == 0 || valid_utf8(resp.body->Ok_0@))
    &&& resp_json(resp.body->Ok_0@) is Some
    &&& !status_success(resp.status)
}

/// The `message` member the response's body carries, when it is a JSON
/// object carrying one.
pub open spec fn response_message(resp: HttpResponse) -> Option<Seq<char>> {
    spec_body_message(json_of(resp_text(resp.body->Ok_0@)))
}

/// How a resource call reports a failure, given the response the last send
/// returned: an unsuccessful status whose body names a recognized message
/// is the service-level error with that status and message; every other
/// failure is the internal kind wrapping a cause.
pub open spec fn classified_failure(
    resp: HttpResponse,
    e: Error,
    messages: Seq<Seq<char>>,
) -> bool {
    if response_is_unsuccessful(resp) && response_message(resp) is Some && messages.contains(
        response_message(resp)->Some_0,
    ) {
        &&& e.kind is VaultError
        &&& e.kind->VaultError_0.status == resp.status
        &&& Some(e.kind->VaultError_0.message@) == response_message(resp)
        &&& e.cause is None
    } else {
        &&& e.kind is InternalError
        &&& e.cause is Some
    }
}

/// The whole outcome of a resource call, as a function of what the
/// transport did: with a token no header can carry, nothing is sent and
/// the failure is internal with the fixed fail-fast message; when the
/// transport never yielded a response, internal wrapping the exhaustion;
/// when it did, success exactly when that response decodes, and otherwise
/// the classified failure.
pub open spec fn resource_outcome<T: Transport, D: FromJson, R>(
    pre: Client<T>,
    post: Client<T>,
    r: Result<R, Error>,
    messages: Seq<Seq<char>>,
) -> bool {
    &&& !header_value_ok(encode_utf8("Bearer "@ + pre.api_key@)) ==> {
        &&& r is Err
        &&& r->Err_0.kind is InternalError
        &&& r->Err_0.cause is Some
        &&& r->Err_0.cause->Some_0@ == "invalid header value"@
    }
    &&& header_value_ok(encode_utf8("Bearer "@ + pre.api_key@)) ==> {
        &&& post.transport.log().len() > pre.transport.log().len()
        &&& match post.transport.log().last().1 {
            Ok(resp) => {
                &&& (r is Ok <==> decode_succeeds::<D>(resp))
                &&& r is Err ==> classified_failure(resp, r->Err_0, messages)
            },
            Err(msg) => {
                &&& r is Err
                &&& r->Err_0.kind is InternalError
                &&& r->Err_0.cause is Some
                &&& r->Err_0.cause->Some_0@ == "retry error"@ + ": "@ + msg@
            },
        }
    }
}

/// Derives a resource call's whole outcome from the executor's guarantees:
/// the result mirrors the pipeline result, whose failure was classified
/// against the recognized messages.
pub proof fn lemma_resource_outcome<T: Transport, D: FromJson, R>(
    pre: Client<T>,
    post: Client<T>,
    r0: Result<(D, serde_json::Value), Error>,
    r: Result<R, Error>,
    messages: Seq<Seq<char>>,
)
    requires
        r is Ok <==> r0 is Ok,
        r0 is Err ==> r is Err && spec_classify(r0->Err_0, messages, r->Err_0),
        post.api_key == pre.api_key,
        !header_value_ok(encode_utf8("Bearer "@ + pre.api_key@)) <==> (r0 is Err
            && r0->Err_0.kind is InvalidHeaderValue),
        r0 is Err && r0->Err_0.kind is InvalidHeaderValue ==> post.transport.log()
            == pre.transport.log() && r0->Err_0.cause is None,
        header_value_ok(encode_utf8("Bearer "@ + pre.api_key@)) ==> pre.transport.log().len()
            < post.transport.log().len(),
        r0 is Err && r0->Err_0.kind is RetryError ==> {
            &&& post.transport.log().len() == pre.transport.log().len() + 2
            &&& forall|i: int|
                pre.transport.log().len() <= i < post.transport.log().len()
                    ==> (#[trigger] post.transport.log()[i]).1 is Err
            &&& r0->Err_0.cause == Some(post.transport.log().last().1->Err_0)
        },
        (r0 is Ok || (r0 is Err && !(r0->Err_0.kind is InvalidHeaderValue) && !(
        r0->Err_0.kind is RetryError))) ==> {
            &&& post.transport.log().len() > pre.transport.log().len()
            &&& post.transport.log().last().1 is Ok
            &&& decode_post::<D>(post.transport.log().last().1->Ok_0, r0)
        },
    ensures
        resource_outcome::<T, D, R>(pre, post, r, messages),
{
    if header_value_ok(encode_utf8("Bearer "@ + pre.api_key@)) {
        let lg = post.transport.log();
        match lg.last().1 {
            Ok(resp) => {
                assert(!(r0 is Err && r0->Err_0.kind is RetryError)) by {
                    if r0 is Err && r0->Err_0.kind is RetryError {
                        assert(lg[lg.len() - 1].1 is Err);
                    }
                }
                assert(decode_post::<D>(resp, r0));
                if r0 is Ok {
                    assert(decode_succeeds::<D>(resp));
                } else {
                    assert(!decode_succeeds::<D>(resp));
                    assert(classified_failure(resp, r->Err_0, messages));
                }
            },
            Err(msg) => {
                assert(!(r0 is Ok));
                assert(r0->Err_0.kind is RetryError);
            },
        }
    }
}

/// Get all known vaults: one GET of `v1/vaults` with the placeholder pair
/// and no body; success exactly when the last response decodes as a vault
/// list, the pair passed through unchanged; a recognized credential
/// failure classifies as the service-level error, everything else as
/// internal.
pub fn all<T: Transport>(client: &mut Client<T>) -> (r: Result<
    (Vec<VaultData>, serde_json::Value),
    Error,
>)
    ensures
        drove_one_request(
            *old(client),
            *final(client),
            Method::Get,
            old(client).server_url@ + "/"@ + "v1/vaults"@ + "?"@ + seq!['=', '&'],
            None,
        ),
        resource_outcome::<T, Vec<VaultData>, (Vec<VaultData>, serde_json::Value)>(
            *old(client),
            *final(client),
            r,
            seq!["Invalid bearer token"@],
        ),
        r is Err ==> classified_err(r->Err_0, seq!["Invalid bearer token"@]),
        r is Ok ==> {
            &&& final(client).transport.log().last().1 is Ok
            &&& decode_post::<Vec<VaultData>>(final(client).transport.log().last().1->Ok_0, r)
            &&& decodes_to::<Vec<VaultData>>(r->Ok_0.0, r->Ok_0.1)
        },
{
    let mut params: Vec<(&str, &str)> = Vec::new();
    params.push(("", ""));
    proof {
        reveal_strlit("");
        lemma_method_names();
        lemma_single_empty_pair_query(params@);
    }
    let r0 = client.send_request::<Vec<VaultData>>("GET", "v1/vaults", params.as_slice(), None);
    let ghost g0 = r0;
    match r0 {
        Ok(value) => {
            proof {
                lemma_resource_outcome::<T, Vec<VaultData>, (Vec<VaultData>, serde_json::Value)>(
                    *old(client),
                    *client,
                    g0,
                    Ok(value),
                    seq!["Invalid bearer token"@],
                );
            }
            Ok(value)
        },
        Err(err) => {
            let expected: [&str; 1] = ["Invalid bearer token"];
            proof {
                assert(strs_view(expected@) =~= seq!["Invalid bearer token"@]);
            }
            let c = classify_failure(err, &expected);
            proof {
                lemma_resource_outcome::<T, Vec<VaultData>, (Vec<VaultData>, serde_json::Value)>(
                    *old(client),
                    *client,
                    g0,
                    Err(c),
                    seq!["Invalid bearer token"@],
                );
            }
            Err(c)
        },
    }
}

/// Get vault details: one GET of `v1/vaults/{id}` with the placeholder
/// pair and no body; success exactly when the last response decodes as a
/// vault record; the two recognized failure messages classify as
/// service-level errors, everything else as internal.
pub fn get<T: Transport>(client: &mut Client<T>, id: &str) -> (r: Result<
    (VaultData, serde_json::Value),
    Error,
>)
    ensures
        drove_one_request(
            *old(client),
            *final(client),
            Method::Get,
            old(client).server_url@ + "/"@ + "v1/vaults/"@ + id@ + "?"@ + seq!['=', '&'],
            None,
        ),
        resource_outcome::<T, VaultData, (VaultData, serde_json::Value)>(
            *old(client),
            *final(client),
            r,
            seq!["Invalid bearer token"@, "Invalid Vault UUID"@],
        ),
        r is Err ==> classified_err(
            r->Err_0,
            seq!["Invalid bearer token"@, "Invalid Vault UUID"@],
        ),
        r is Ok ==> {
            &&& final(client).transport.log().last().1 is Ok
            &&& decode_post::<VaultData>(final(client).transport.log().last().1->Ok_0, r)
            &&& decodes_to::<VaultData>(r->Ok_0.0, r->Ok_0.1)
        },
{
    let mut params: Vec<(&str, &str)> = Vec::new();
    params.push(("", ""));
    let mut path = String::from_str("v1/vaults/");
    path.append(id);
    proof {
        reveal_strlit("");
        lemma_method_names();
        lemma_single_empty_pair_query(params@);
    }
    let r0 = client.send_request::<VaultData>("GET", path.as_str(), params.as_slice(), None);
    proof {
        assert(old(client).server_url@ + "/"@ + "v1/vaults/"@ + id@ + "?"@ + seq!['=', '&']
            =~= old(client).server_url@ + "/"@ + path@ + "?"@ + seq!['=', '&']);
    }
    let ghost g0 = r0;
    match r0 {
        Ok(value) => {
            proof {
                lemma_resource_outcome::<T, VaultData, (VaultData, serde_json::Value)>(
                    *old(client),
                    *client,
                    g0,
                    Ok(value),
                    seq!["Invalid bearer token"@, "Invalid Vault UUID"@],
                );
            }
            Ok(value)
        },
        Err(err) => {
            let expected: [&str; 2] = ["Invalid bearer token", "Invalid Vault UUID"];
            proof {
                assert(strs_view(expected@) =~= seq![
                    "Invalid bearer token"@,
                    "Invalid Vault UUID"@,
                ]);
            }
            let c = classify_failure(err, &expected);
            proof {
                lemma_resource_outcome::<T, VaultData, (VaultData, serde_json::Value)>(
                    *old(client),
                    *client,
                    g0,
                    Err(c),
                    seq!["Invalid bearer token"@, "Invalid Vault UUID"@],
                );
            }
            Err(c)
        },
    }
}

} // verus!
