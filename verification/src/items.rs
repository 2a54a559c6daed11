//! Vault items: the resource-layer calls that list, fetch, add and remove
//! items, classifying service-level failures by their structure.

use vstd::prelude::*;
use vstd::string::*;
use crate::client::{drove_one_request, Client, Transport};
use crate::decode::{decode_post, decodes_to, FromJson};
use crate::error::{classify_failure, strs_view, Error};
use crate::json::Json;
use crate::models::item::{spec_full_item_json, FullItem, ItemData};
use crate::request::{lemma_method_names, lemma_single_empty_pair_query, Method};
use crate::vaults::{classified_err, lemma_resource_outcome, resource_outcome};

verus! {

/// What a delete call decodes its response into: any JSON object, with
/// nothing read out of it.
pub struct DeleteReturnType {}

impl DeepView for DeleteReturnType {
    type V = bool;

    open spec fn deep_view(&self) -> bool {
        true
    }
}

impl FromJson for DeleteReturnType {
    open spec fn of_json(j: Json) -> Option<bool> {
        if j is Obj {
            Some(true)
        } else {
            None
        }
    }

    fn from_value(v: &serde_json::Value) -> (r: Result<Self, Error>) {
        if crate::json::value_is_object(v) {
            Ok(DeleteReturnType {  })
        } else {
            Err(Error::new_parsing_error(String::from_str("a JSON object was expected")))
        }
    }
}

/// Get all items of a vault: one GET of `v1/vaults/{id}/items` with the
/// placeholder pair and no body; success exactly when the last response
/// decodes as an item list; a recognized credential failure classifies as
/// the service-level error, everything else as internal.
pub fn all<T: Transport>(client: &mut Client<T>, id: &str) -> (r: Result<
    (Vec<ItemData>, serde_json::Value),
    Error,
>)
    ensures
        drove_one_request(
            *old(client),
            *final(client),
            Method::Get,
            old(client).server_url@ + "/"@ + "v1/vaults/"@ + id@ + "/items"@ + "?"@ + seq![
                '=',
                '&',
            ],
            None,
        ),
        resource_outcome::<T, Vec<ItemData>, (Vec<ItemData>, serde_json::Value)>(
            *old(client),
            *final(client),
            r,
            seq!["Invalid bearer token"@],
        ),
        r is Err ==> classified_err(r->Err_0, seq!["Invalid bearer token"@]),
        r is Ok ==> {
            &&& final(client).transport.log().last().1 is Ok
            &&& decode_post::<Vec<ItemData>>(final(client).transport.log().last().1->Ok_0, r)
            &&& decodes_to::<Vec<ItemData>>(r->Ok_0.0, r->Ok_0.1)
        },
{
    let mut params: Vec<(&str, &str)> = Vec::new();
    params.push(("", ""));
    let mut path = String::from_str("v1/vaults/");
    path.append(id);
    path.append("/items");
    proof {
        reveal_strlit("");
        lemma_method_names();
        lemma_single_empty_pair_query(params@);
    }
    let r0 = client.send_request::<Vec<ItemData>>("GET", path.as_str(), params.as_slice(), None);
    proof {
        assert(old(client).server_url@ + "/"@ + "v1/vaults/"@ + id@ + "/items"@ + "?"@ + seq![
            '=',
            '&',
        ] =~= old(client).server_url@ + "/"@ + path@ + "?"@ + seq!['=', '&']);
    }
    let ghost g0 = r0;
    match r0 {
        Ok(value) => {
            proof {
                lemma_resource_outcome::<T, Vec<ItemData>, (Vec<ItemData>, serde_json::Value)>(
                    *old(client),
                    *client,
                    g0,
                    Ok(value),
                    seq!["Invalid bearer token"@],
                );
            }
            Ok(value)
        },
        Err(err) => {
            let c = classify_credential(err);
            proof {
                lemma_resource_outcome::<T, Vec<ItemData>, (Vec<ItemData>, serde_json::Value)>(
                    *old(client),
                    *client,
                    g0,
                    Err(c),
                    seq!["Invalid bearer token"@],
                );
            }
            Err(c)
        },
    }
}

/// Get item details: one GET of `v1/vaults/{vault_id}/items/{item_id}`
/// with the placeholder pair and no body; success exactly when the last
/// response decodes as a full item; failures classify as in the other
/// item calls.
pub fn get<T: Transport>(client: &mut Client<T>, vault_id: &str, item_id: &str) -> (r: Result<
    (FullItem, serde_json::Value),
    Error,
>)
    ensures
        drove_one_request(
            *old(client),
            *final(client),
            Method::Get,
            old(client).server_url@ + "/"@ + "v1/vaults/"@ + vault_id@ + "/items/"@ + item_id@
                + "?"@ + seq!['=', '&'],
            None,
        ),
        resource_outcome::<T, FullItem, (FullItem, serde_json::Value)>(
            *old(client),
            *final(client),
            r,
            seq!["Invalid bearer token"@],
        ),
        r is Err ==> classified_err(r->Err_0, seq!["Invalid bearer token"@]),
        r is Ok ==> {
            &&& final(client).transport.log().last().1 is Ok
            &&& decode_post::<FullItem>(final(client).transport.log().last().1->Ok_0, r)
            &&& decodes_to::<FullItem>(r->Ok_0.0, r->Ok_0.1)
        },
{
    let mut params: Vec<(&str, &str)> = Vec::new();
    params.push(("", ""));
    let mut path = String::from_str("v1/vaults/");
    path.append(vault_id);
    path.append("/items/");
    path.append(item_id);
    proof {
        reveal_strlit("");
        lemma_method_names();
        lemma_single_empty_pair_query(params@);
    }
    let body: Option<String> = None;
    let r0 = client.send_request::<FullItem>("GET", path.as_str(), params.as_slice(), body);
    proof {
        assert(old(client).server_url@ + "/"@ + "v1/vaults/"@ + vault_id@ + "/items/"@ + item_id@
            + "?"@ + seq!['=', '&'] =~= old(client).server_url@ + "/"@ + path@ + "?"@ + seq![
            '=',
            '&',
        ]);
    }
    let ghost g0 = r0;
    match r0 {
        Ok(value) => {
            proof {
                lemma_resource_outcome::<T, FullItem, (FullItem, serde_json::Value)>(
                    *old(client),
                    *client,
                    g0,
                    Ok(value),
                    seq!["Invalid bearer token"@],
                );
            }
            Ok(value)
        },
        Err(err) => {
            let c = classify_credential(err);
            proof {
                lemma_resource_outcome::<T, FullItem, (FullItem, serde_json::Value)>(
                    *old(client),
                    *client,
                    g0,
                    Err(c),
                    seq!["Invalid bearer token"@],
                );
            }
            Err(c)
        },
    }
}

/// Add an item: one POST of `v1/vaults/{item.vault.id}/items` with the
/// placeholder pair, whose body is exactly the item's serialized JSON;
/// success exactly when the last response decodes as an item record;
/// failures classify as in the other item calls.
pub fn add<T: Transport>(client: &mut Client<T>, item: FullItem) -> (r: Result<
    (ItemData, serde_json::Value),
    Error,
>)
    ensures
        drove_one_request(
            *old(client),
            *final(client),
            Method::Post,
            old(client).server_url@ + "/"@ + "v1/vaults/"@ + item.vault.id@ + "/items"@ + "?"@
                + seq!['=', '&'],
            Some(spec_full_item_json(item.deep_view())),
        ),
        resource_outcome::<T, ItemData, (ItemData, serde_json::Value)>(
            *old(client),
            *final(client),
            r,
            seq!["Invalid bearer token"@],
        ),
        r is Err ==> classified_err(r->Err_0, seq!["Invalid bearer token"@]),
        r is Ok ==> {
            &&& final(client).transport.log().last().1 is Ok
            &&& decode_post::<ItemData>(final(client).transport.log().last().1->Ok_0, r)
            &&& decodes_to::<ItemData>(r->Ok_0.0, r->Ok_0.1)
        },
{
    let mut params: Vec<(&str, &str)> = Vec::new();
    params.push(("", ""));
    let mut path = String::from_str("v1/vaults/");
    path.append(item.vault.id.as_str());
    path.append("/items");
    proof {
        reveal_strlit("");
        lemma_method_names();
        lemma_single_empty_pair_query(params@);
    }
    let body = Some(item.to_json());
    let r0 = client.send_request::<ItemData>("POST", path.as_str(), params.as_slice(), body);
    proof {
        assert(old(client).server_url@ + "/"@ + "v1/vaults/"@ + item.vault.id@ + "/items"@ + "?"@
            + seq!['=', '&'] =~= old(client).server_url@ + "/"@ + path@ + "?"@ + seq!['=', '&']);
    }
    let ghost g0 = r0;
    match r0 {
        Ok(value) => {
            proof {
                lemma_resource_outcome::<T, ItemData, (ItemData, serde_json::Value)>(
                    *old(client),
                    *client,
                    g0,
                    Ok(value),
                    seq!["Invalid bearer token"@],
                );
            }
            Ok(value)
        },
        Err(err) => {
            let c = classify_credential(err);
            proof {
                lemma_resource_outcome::<T, ItemData, (ItemData, serde_json::Value)>(
                    *old(client),
                    *client,
                    g0,
                    Err(c),
                    seq!["Invalid bearer token"@],
                );
            }
            Err(c)
        },
    }
}

/// Delete an item: one DELETE of `v1/vaults/{id}/items/{item_id}` with the
/// placeholder pair and no body; success exactly when the last response
/// decodes as an (otherwise discarded) JSON object, answered with the unit
/// value; failures classify as in the other item calls.
pub fn remove<T: Transport>(client: &mut Client<T>, id: &str, item_id: &str) -> (r: Result<
    (),
    Error,
>)
    ensures
        drove_one_request(
            *old(client),
            *final(client),
            Method::Delete,
            old(client).server_url@ + "/"@ + "v1/vaults/"@ + id@ + "/items/"@ + item_id@ + "?"@
                + seq!['=', '&'],
            None,
        ),
        resource_outcome::<T, DeleteReturnType, ()>(
            *old(client),
            *final(client),
            r,
            seq!["Invalid bearer token"@],
        ),
        r is Err ==> classified_err(r->Err_0, seq!["Invalid bearer token"@]),
        r is Ok ==> final(client).transport.log().last().1 is Ok,
{
    let mut params: Vec<(&str, &str)> = Vec::new();
    params.push(("", ""));
    let mut path = String::from_str("v1/vaults/");
    path.append(id);
    path.append("/items/");
    path.append(item_id);
    proof {
        reveal_strlit("");
        lemma_method_names();
        lemma_single_empty_pair_query(params@);
    }
    let body: Option<String> = None;
    let r0 = client.send_request::<DeleteReturnType>(
        "DELETE",
        path.as_str(),
        params.as_slice(),
        body,
    );
    proof {
        assert(old(client).server_url@ + "/"@ + "v1/vaults/"@ + id@ + "/items/"@ + item_id@ + "?"@
            + seq!['=', '&'] =~= old(client).server_url@ + "/"@ + path@ + "?"@ + seq!['=', '&']);
    }
    let ghost g0 = r0;
    match r0 {
        Ok(_) => {
            proof {
                lemma_resource_outcome::<T, DeleteReturnType, ()>(
                    *old(client),
                    *client,
                    g0,
                    Ok(()),
                    seq!["Invalid bearer token"@],
                );
            }
            Ok(())
        },
        Err(err) => {
            let c = classify_credential(err);
            proof {
                lemma_resource_outcome::<T, DeleteReturnType, ()>(
                    *old(client),
                    *client,
                    g0,
                    Err(c),
                    seq!["Invalid bearer token"@],
                );
            }
            Err(c)
        },
    }
}

/// Classifies an item call's pipeline failure against the one message the
/// item calls recognize.
fn classify_credential(err: Error) -> (r: Error)
    ensures
        crate::error::spec_classify(err, seq!["Invalid bearer token"@], r),
{
    let expected: [&str; 1] = ["Invalid bearer token"];
    proof {
        assert(strs_view(expected@) =~= seq!["Invalid bearer token"@]);
    }
    classify_failure(err, &expected)
}

} // verus!
