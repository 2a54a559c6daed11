//! Response decoding: a response's bytes become both a typed value and the
//! raw JSON tree, with the empty body read as the empty object, and a
//! non-success status taking precedence over a typed-decode failure.

use vstd::prelude::*;
use vstd::string::*;
use vstd::utf8::{decode_utf8, valid_utf8};
use crate::error::{Error, Kind, RequestNotSuccessful};
use crate::json::{
    json_of, parse_json, value_as_array, value_as_bool, value_as_str, value_as_u64, value_get,
    value_is_null, value_is_object, value_rep, Json,
};
use crate::models::item::{
    FieldObject, FieldObjectView, FullItem, FullItemView, ItemData, ItemDataView, SectionID,
    SectionIDView, SectionObject, SectionObjectView, UrlObject, UrlObjectView, VaultID,
    VaultIDView,
};
use crate::models::vault::{VaultData, VaultDataView};

verus! {

/// A decode strategy: how a JSON tree becomes a typed value of this shape.
pub trait FromJson: Sized + DeepView {
    /// How a JSON tree decodes into this shape; `None` when it cannot.
    spec fn of_json(j: Json) -> Option<Self::V>;

    /// Decodes a parsed JSON value into this shape.
    fn from_value(v: &serde_json::Value) -> (r: Result<Self, Error>)
        ensures
            match r {
                Ok(t) => Self::of_json(value_rep(*v)) == Some(t.deep_view()),
                Err(e) => Self::of_json(value_rep(*v)) is None && e.kind is ParsingError
                    && e.cause is Some,
            },
    ;
}

fn parse_refused(what: &str) -> (r: Error)
    ensures
        r.kind is ParsingError,
        r.cause is Some,
{
    let mut m = String::from_str("the body does not fit the expected shape at: ");
    m.append(what);
    Error::new_parsing_error(m)
}

impl FromJson for String {
    open spec fn of_json(j: Json) -> Option<Seq<char>> {
        if j is Str {
            Some(j->Str_0)
        } else {
            None
        }
    }

    fn from_value(v: &serde_json::Value) -> (r: Result<Self, Error>) {
        match value_as_str(v) {
            Some(s) => Ok(s.to_owned()),
            None => Err(parse_refused("a JSON string")),
        }
    }
}

impl FromJson for bool {
    open spec fn of_json(j: Json) -> Option<bool> {
        if j is Bool {
            Some(j->Bool_0)
        } else {
            None
        }
    }

    fn from_value(v: &serde_json::Value) -> (r: Result<Self, Error>) {
        match value_as_bool(v) {
            Some(b) => Ok(b),
            None => Err(parse_refused("a JSON boolean")),
        }
    }
}

impl FromJson for u32 {
    open spec fn of_json(j: Json) -> Option<u32> {
        if j is UInt && j->UInt_0 <= u32::MAX {
            Some(j->UInt_0 as u32)
        } else {
            None
        }
    }

    fn from_value(v: &serde_json::Value) -> (r: Result<Self, Error>) {
        match value_as_u64(v) {
            Some(n) => {
                if n <= 0xffff_ffff {
                    Ok(n as u32)
                } else {
                    Err(parse_refused("a number within the unsigned 32-bit range"))
                }
            },
            None => Err(parse_refused("an unsigned whole number")),
        }
    }
}

/// How a sequence of JSON trees decodes element by element; `None` when any
/// element cannot.
pub open spec fn seq_of_json<T: FromJson>(s: Seq<Json>) -> Option<Seq<T::V>>
    decreases s.len(),
{
    if s.len() == 0 {
        Some(Seq::empty())
    } else {
        match T::of_json(s[0]) {
            Some(h) => match seq_of_json::<T>(s.drop_first()) {
                Some(t) => Some(Seq::empty().push(h) + t),
                None => None,
            },
            None => None,
        }
    }
}

proof fn lemma_seq_of_json_push<T: FromJson>(s: Seq<Json>, x: Json)
    ensures
        seq_of_json::<T>(s.push(x)) == (match (seq_of_json::<T>(s), T::of_json(x)) {
            (Some(t), Some(h)) => Some(t.push(h)),
            _ => None::<Seq<T::V>>,
        }),
    decreases s.len(),
{
    if s.len() == 0 {
        assert(s.push(x)[0] == x);
        assert(s.push(x).drop_first() =~= Seq::<Json>::empty());
        assert(seq_of_json::<T>(Seq::<Json>::empty()) == Some(Seq::<T::V>::empty()));
        match T::of_json(x) {
            Some(h) => {
                assert(Seq::<T::V>::empty().push(h) + Seq::<T::V>::empty()
                    =~= Seq::<T::V>::empty().push(h));
                assert(seq_of_json::<T>(s) == Some(Seq::<T::V>::empty()));
            },
            None => {},
        }
    } else {
        lemma_seq_of_json_push::<T>(s.drop_first(), x);
        assert(s.push(x)[0] == s[0]);
        assert(s.push(x).drop_first() =~= s.drop_first().push(x));
        match (T::of_json(s[0]), seq_of_json::<T>(s.drop_first()), T::of_json(x)) {
            (Some(h), Some(t), Some(hx)) => {
                assert(Seq::<T::V>::empty().push(h) + t.push(hx) =~= (Seq::<T::V>::empty().push(h)
                    + t).push(hx));
            },
            _ => {},
        }
    }
}

proof fn lemma_seq_of_json_none<T: FromJson>(s: Seq<Json>, i: int)
    requires
        0 <= i < s.len(),
        T::of_json(s[i]) is None,
    ensures
        seq_of_json::<T>(s) is None,
    decreases s.len(),
{
    if i > 0 {
        lemma_seq_of_json_none::<T>(s.drop_first(), i - 1);
    }
}

impl<T: FromJson> FromJson for Vec<T> {
    open spec fn of_json(j: Json) -> Option<Seq<T::V>> {
        if j is Arr {
            seq_of_json::<T>(j->Arr_0)
        } else {
            None
        }
    }

    fn from_value(v: &serde_json::Value) -> (r: Result<Self, Error>) {
        match value_as_array(v) {
            Some(a) => {
                let ghost js = value_rep(*v)->Arr_0;
                let mut out: Vec<T> = Vec::new();
                let mut i: usize = 0;
                while i < a.len()
                    invariant
                        i <= a@.len(),
                        value_rep(*v) is Arr,
                        js == value_rep(*v)->Arr_0,
                        a@.len() == js.len(),
                        forall|k: int| 0 <= k < a@.len() ==> value_rep(#[trigger] a@[k]) == js[k],
                        out@.len() == i as nat,
                        seq_of_json::<T>(js.take(i as int)) == Some(out.deep_view()),
                    decreases a@.len() - i,
                {
                    match T::from_value(&a[i]) {
                        Ok(t) => {
                            proof {
                                lemma_seq_of_json_push::<T>(js.take(i as int), js[i as int]);
                                assert(js.take(i + 1 as int) =~= js.take(i as int).push(
                                    js[i as int],
                                ));
                            }
                            let ghost prev_dv = out.deep_view();
                            let ghost tv = t.deep_view();
                            out.push(t);
                            proof {
                                assert(out.deep_view() =~= prev_dv.push(tv));
                            }
                        },
                        Err(e) => {
                            proof {
                                lemma_seq_of_json_none::<T>(js, i as int);
                            }
                            return Err(e);
                        },
                    }
                    i += 1;
                }
                proof {
                    assert(js.take(js.len() as int) =~= js);
                }
                Ok(out)
            },
            None => Err(parse_refused("a JSON array")),
        }
    }
}

/// A required member of a JSON object: present and of the right shape.
pub open spec fn jobj_req<T: FromJson>(m: Map<Seq<char>, Json>, k: Seq<char>) -> Option<T::V> {
    if m.dom().contains(k) {
        T::of_json(m[k])
    } else {
        None
    }
}

/// An optional member of a JSON object: absent or `null` reads as `None`;
/// present with the wrong shape is a decode failure.
pub open spec fn jobj_opt<T: FromJson>(m: Map<Seq<char>, Json>, k: Seq<char>) -> Option<
    Option<T::V>,
> {
    if !m.dom().contains(k) || m[k] is Null {
        Some(None)
    } else {
        match T::of_json(m[k]) {
            Some(x) => Some(Some(x)),
            None => None,
        }
    }
}

fn get_req<T: FromJson>(v: &serde_json::Value, key: &str) -> (r: Result<T, Error>)
    ensures
        match r {
            Ok(t) => value_rep(*v) is Obj && jobj_req::<T>(value_rep(*v)->Obj_0, key@) == Some(
                t.deep_view(),
            ),
            Err(e) => e.kind is ParsingError && e.cause is Some && (value_rep(*v) is Obj
                ==> jobj_req::<T>(value_rep(*v)->Obj_0, key@) is None),
        },
{
    match value_get(v, key) {
        Some(f) => T::from_value(f),
        None => Err(parse_refused(key)),
    }
}

fn get_opt<T: FromJson>(v: &serde_json::Value, key: &str) -> (r: Result<Option<T>, Error>)
    ensures
        match r {
            Ok(o) => value_rep(*v) is Obj && jobj_opt::<T>(value_rep(*v)->Obj_0, key@) == Some(
                o.deep_view(),
            ),
            Err(e) => e.kind is ParsingError && e.cause is Some && (value_rep(*v) is Obj
                ==> jobj_opt::<T>(value_rep(*v)->Obj_0, key@) is None),
        },
{
    if !value_is_object(v) {
        return Err(parse_refused("a JSON object"));
    }
    match value_get(v, key) {
        Some(f) => {
            if value_is_null(f) {
                Ok(None)
            } else {
                match T::from_value(f) {
                    Ok(t) => Ok(Some(t)),
                    Err(e) => Err(e),
                }
            }
        },
        None => Ok(None),
    }
}

impl FromJson for VaultID {
    open spec fn of_json(j: Json) -> Option<VaultIDView> {
        if j is Obj && jobj_req::<String>(j->Obj_0, "id"@) is Some {
            Some(VaultIDView { id: jobj_req::<String>(j->Obj_0, "id"@)->Some_0 })
        } else {
            None
        }
    }

    fn from_value(v: &serde_json::Value) -> (r: Result<Self, Error>) {
        let id: String = match get_req::<String>(v, "id") {
            Ok(s) => s,
            Err(e) => {
                return Err(e);
            },
        };
        Ok(VaultID { id })
    }
}

impl FromJson for UrlObject {
    open spec fn of_json(j: Json) -> Option<UrlObjectView> {
        if j is Obj && jobj_req::<String>(j->Obj_0, "url"@) is Some && jobj_req::<bool>(
            j->Obj_0,
            "primary"@,
        ) is Some {
            Some(
                UrlObjectView {
                    url: jobj_req::<String>(j->Obj_0, "url"@)->Some_0,
                    primary: jobj_req::<bool>(j->Obj_0, "primary"@)->Some_0,
                },
            )
        } else {
            None
        }
    }

    fn from_value(v: &serde_json::Value) -> (r: Result<Self, Error>) {
        let url: String = match get_req::<String>(v, "url") {
            Ok(s) => s,
            Err(e) => {
                return Err(e);
            },
        };
        let primary: bool = match get_req::<bool>(v, "primary") {
            Ok(b) => b,
            Err(e) => {
                return Err(e);
            },
        };
        Ok(UrlObject { url, primary })
    }
}

impl FromJson for SectionID {
    open spec fn of_json(j: Json) -> Option<SectionIDView> {
        if j is Obj && jobj_req::<String>(j->Obj_0, "id"@) is Some {
            Some(SectionIDView { id: jobj_req::<String>(j->Obj_0, "id"@)->Some_0 })
        } else {
            None
        }
    }

    fn from_value(v: &serde_json::Value) -> (r: Result<Self, Error>) {
        let id: String = match get_req::<String>(v, "id") {
            Ok(s) => s,
            Err(e) => {
                return Err(e);
            },
        };
        Ok(SectionID { id })
    }
}

impl FromJson for SectionObject {
    open spec fn of_json(j: Json) -> Option<SectionObjectView> {
        if j is Obj && jobj_req::<String>(j->Obj_0, "id"@) is Some && jobj_opt::<String>(
            j->Obj_0,
            "label"@,
        ) is Some {
            Some(
                SectionObjectView {
                    id: jobj_req::<String>(j->Obj_0, "id"@)->Some_0,
                    label: jobj_opt::<String>(j->Obj_0, "label"@)->Some_0,
                },
            )
        } else {
            None
        }
    }

    fn from_value(v: &serde_json::Value) -> (r: Result<Self, Error>) {
        let id: String = match get_req::<String>(v, "id") {
            Ok(s) => s,
            Err(e) => {
                return Err(e);
            },
        };
        let label: Option<String> = match get_opt::<String>(v, "label") {
            Ok(o) => o,
            Err(e) => {
                return Err(e);
            },
        };
        Ok(SectionObject { id, label })
    }
}

impl FromJson for FieldObject {
    open spec fn of_json(j: Json) -> Option<FieldObjectView> {
        if j is Obj && jobj_opt::<SectionID>(j->Obj_0, "section"@) is Some && jobj_opt::<String>(
            j->Obj_0,
            "purpose"@,
        ) is Some && jobj_opt::<String>(j->Obj_0, "type"@) is Some && jobj_opt::<String>(
            j->Obj_0,
            "value"@,
        ) is Some && jobj_opt::<bool>(j->Obj_0, "generate"@) is Some && jobj_opt::<String>(
            j->Obj_0,
            "label"@,
        ) is Some {
            Some(
                FieldObjectView {
                    section: jobj_opt::<SectionID>(j->Obj_0, "section"@)->Some_0,
                    purpose: jobj_opt::<String>(j->Obj_0, "purpose"@)->Some_0,
                    field_type: jobj_opt::<String>(j->Obj_0, "type"@)->Some_0,
                    value: jobj_opt::<String>(j->Obj_0, "value"@)->Some_0,
                    generate: jobj_opt::<bool>(j->Obj_0, "generate"@)->Some_0,
                    label: jobj_opt::<String>(j->Obj_0, "label"@)->Some_0,
                },
            )
        } else {
            None
        }
    }

    fn from_value(v: &serde_json::Value) -> (r: Result<Self, Error>) {
        let section: Option<SectionID> = match get_opt::<SectionID>(v, "section") {
            Ok(o) => o,
            Err(e) => {
                return Err(e);
            },
        };
        let purpose: Option<String> = match get_opt::<String>(v, "purpose") {
            Ok(o) => o,
            Err(e) => {
                return Err(e);
            },
        };
        let field_type: Option<String> = match get_opt::<String>(v, "type") {
            Ok(o) => o,
            Err(e) => {
                return Err(e);
            },
        };
        let value: Option<String> = match get_opt::<String>(v, "value") {
            Ok(o) => o,
            Err(e) => {
                return Err(e);
            },
        };
        let generate: Option<bool> = match get_opt::<bool>(v, "generate") {
            Ok(o) => o,
            Err(e) => {
                return Err(e);
            },
        };
        let label: Option<String> = match get_opt::<String>(v, "label") {
            Ok(o) => o,
            Err(e) => {
                return Err(e);
            },
        };
        Ok(FieldObject { section, purpose, field_type, value, generate, label })
    }
}

impl FromJson for VaultData {
    open spec fn of_json(j: Json) -> Option<VaultDataView> {
        if j is Obj && jobj_req::<String>(j->Obj_0, "id"@) is Some && jobj_req::<String>(
            j->Obj_0,
            "name"@,
        ) is Some && jobj_opt::<String>(j->Obj_0, "description"@) is Some && jobj_req::<u32>(
            j->Obj_0,
            "attribute_version"@,
        ) is Some && jobj_req::<u32>(j->Obj_0, "content_version"@) is Some && jobj_req::<String>(
            j->Obj_0,
            "type"@,
        ) is Some && jobj_opt::<String>(j->Obj_0, "created_at"@) is Some && jobj_opt::<String>(
            j->Obj_0,
            "updated_at"@,
        ) is Some {
            Some(
                VaultDataView {
                    id: jobj_req::<String>(j->Obj_0, "id"@)->Some_0,
                    name: jobj_req::<String>(j->Obj_0, "name"@)->Some_0,
                    description: jobj_opt::<String>(j->Obj_0, "description"@)->Some_0,
                    attribute_version: jobj_req::<u32>(j->Obj_0, "attribute_version"@)->Some_0,
                    content_version: jobj_req::<u32>(j->Obj_0, "content_version"@)->Some_0,
                    vault_type: jobj_req::<String>(j->Obj_0, "type"@)->Some_0,
                    created_at: jobj_opt::<String>(j->Obj_0, "created_at"@)->Some_0,
                    updated_at: jobj_opt::<String>(j->Obj_0, "updated_at"@)->Some_0,
                },
            )
        } else {
            None
        }
    }

    fn from_value(v: &serde_json::Value) -> (r: Result<Self, Error>) {
        let id: String = match get_req::<String>(v, "id") {
            Ok(s) => s,
            Err(e) => {
                return Err(e);
            },
        };
        let name: String = match get_req::<String>(v, "name") {
            Ok(s) => s,
            Err(e) => {
                return Err(e);
            },
        };
        let description: Option<String> = match get_opt::<String>(v, "description") {
            Ok(o) => o,
            Err(e) => {
                return Err(e);
            },
        };
        let attribute_version: u32 = match get_req::<u32>(v, "attribute_version") {
            Ok(n) => n,
            Err(e) => {
                return Err(e);
            },
        };
        let content_version: u32 = match get_req::<u32>(v, "content_version") {
            Ok(n) => n,
            Err(e) => {
                return Err(e);
            },
        };
        let vault_type: String = match get_req::<String>(v, "type") {
            Ok(s) => s,
            Err(e) => {
                return Err(e);
            },
        };
        let created_at: Option<String> = match get_opt::<String>(v, "created_at") {
            Ok(o) => o,
            Err(e) => {
                return Err(e);
            },
        };
        let updated_at: Option<String> = match get_opt::<String>(v, "updated_at") {
            Ok(o) => o,
            Err(e) => {
                return Err(e);
            },
        };
        Ok(
            VaultData {
                id,
                name,
                description,
                attribute_version,
                content_version,
                vault_type,
                created_at,
                updated_at,
            },
        )
    }
}

impl FromJson for ItemData {
    open spec fn of_json(j: Json) -> Option<ItemDataView> {
        if j is Obj && jobj_req::<String>(j->Obj_0, "id"@) is Some && jobj_req::<String>(
            j->Obj_0,
            "title"@,
        ) is Some && jobj_req::<VaultID>(j->Obj_0, "vault"@) is Some && jobj_opt::<String>(
            j->Obj_0,
            "category"@,
        ) is Some && jobj_opt::<Vec<UrlObject>>(j->Obj_0, "urls"@) is Some && jobj_opt::<bool>(
            j->Obj_0,
            "favorite"@,
        ) is Some && jobj_opt::<Vec<String>>(j->Obj_0, "tags"@) is Some && jobj_opt::<String>(
            j->Obj_0,
            "state"@,
        ) is Some && jobj_opt::<String>(j->Obj_0, "created_at"@) is Some && jobj_opt::<String>(
            j->Obj_0,
            "updated_at"@,
        ) is Some {
            Some(
                ItemDataView {
                    id: jobj_req::<String>(j->Obj_0, "id"@)->Some_0,
                    title: jobj_req::<String>(j->Obj_0, "title"@)->Some_0,
                    vault: jobj_req::<VaultID>(j->Obj_0, "vault"@)->Some_0,
                    category: jobj_opt::<String>(j->Obj_0, "category"@)->Some_0,
                    urls: jobj_opt::<Vec<UrlObject>>(j->Obj_0, "urls"@)->Some_0,
                    favorite: jobj_opt::<bool>(j->Obj_0, "favorite"@)->Some_0,
                    tags: jobj_opt::<Vec<String>>(j->Obj_0, "tags"@)->Some_0,
                    state: jobj_opt::<String>(j->Obj_0, "state"@)->Some_0,
                    created_at: jobj_opt::<String>(j->Obj_0, "created_at"@)->Some_0,
                    updated_at: jobj_opt::<String>(j->Obj_0, "updated_at"@)->Some_0,
                },
            )
        } else {
            None
        }
    }

    fn from_value(v: &serde_json::Value) -> (r: Result<Self, Error>) {
        let id: String = match get_req::<String>(v, "id") {
            Ok(s) => s,
            Err(e) => {
                return Err(e);
            },
        };
        let title: String = match get_req::<String>(v, "title") {
            Ok(s) => s,
            Err(e) => {
                return Err(e);
            },
        };
        let vault: VaultID = match get_req::<VaultID>(v, "vault") {
            Ok(x) => x,
            Err(e) => {
                return Err(e);
            },
        };
        let category: Option<String> = match get_opt::<String>(v, "category") {
            Ok(o) => o,
            Err(e) => {
                return Err(e);
            },
        };
        let urls: Option<Vec<UrlObject>> = match get_opt::<Vec<UrlObject>>(v, "urls") {
            Ok(o) => o,
            Err(e) => {
                return Err(e);
            },
        };
        let favorite: Option<bool> = match get_opt::<bool>(v, "favorite") {
            Ok(o) => o,
            Err(e) => {
                return Err(e);
            },
        };
        let tags: Option<Vec<String>> = match get_opt::<Vec<String>>(v, "tags") {
            Ok(o) => o,
            Err(e) => {
                return Err(e);
            },
        };
        let state: Option<String> = match get_opt::<String>(v, "state") {
            Ok(o) => o,
            Err(e) => {
                return Err(e);
            },
        };
        let created_at: Option<String> = match get_opt::<String>(v, "created_at") {
            Ok(o) => o,
            Err(e) => {
                return Err(e);
            },
        };
        let updated_at: Option<String> = match get_opt::<String>(v, "updated_at") {
            Ok(o) => o,
            Err(e) => {
                return Err(e);
            },
        };
        Ok(
            ItemData {
                id,
                title,
                vault,
                category,
                urls,
                favorite,
                tags,
                state,
                created_at,
                updated_at,
            },
        )
    }
}

impl FromJson for FullItem {
    open spec fn of_json(j: Json) -> Option<FullItemView> {
        if j is Obj && jobj_req::<String>(j->Obj_0, "title"@) is Some && jobj_req::<VaultID>(
            j->Obj_0,
            "vault"@,
        ) is Some && jobj_opt::<String>(j->Obj_0, "category"@) is Some && jobj_opt::<
            Vec<UrlObject>,
        >(j->Obj_0, "urls"@) is Some && jobj_opt::<bool>(j->Obj_0, "favorite"@) is Some
            && jobj_opt::<Vec<String>>(j->Obj_0, "tags"@) is Some && jobj_req::<Vec<FieldObject>>(
            j->Obj_0,
            "fields"@,
        ) is Some && jobj_req::<Vec<SectionObject>>(j->Obj_0, "sections"@) is Some {
            Some(
                FullItemView {
                    title: jobj_req::<String>(j->Obj_0, "title"@)->Some_0,
                    vault: jobj_req::<VaultID>(j->Obj_0, "vault"@)->Some_0,
                    category: jobj_opt::<String>(j->Obj_0, "category"@)->Some_0,
                    urls: jobj_opt::<Vec<UrlObject>>(j->Obj_0, "urls"@)->Some_0,
                    favorite: jobj_opt::<bool>(j->Obj_0, "favorite"@)->Some_0,
                    tags: jobj_opt::<Vec<String>>(j->Obj_0, "tags"@)->Some_0,
                    fields: jobj_req::<Vec<FieldObject>>(j->Obj_0, "fields"@)->Some_0,
                    sections: jobj_req::<Vec<SectionObject>>(j->Obj_0, "sections"@)->Some_0,
                },
            )
        } else {
            None
        }
    }

    fn from_value(v: &serde_json::Value) -> (r: Result<Self, Error>) {
        let title: String = match get_req::<String>(v, "title") {
            Ok(s) => s,
            Err(e) => {
                return Err(e);
            },
        };
        let vault: VaultID = match get_req::<VaultID>(v, "vault") {
            Ok(x) => x,
            Err(e) => {
                return Err(e);
            },
        };
        let category: Option<String> = match get_opt::<String>(v, "category") {
            Ok(o) => o,
            Err(e) => {
                return Err(e);
            },
        };
        let urls: Option<Vec<UrlObject>> = match get_opt::<Vec<UrlObject>>(v, "urls") {
            Ok(o) => o,
            Err(e) => {
                return Err(e);
            },
        };
        let favorite: Option<bool> = match get_opt::<bool>(v, "favorite") {
            Ok(o) => o,
            Err(e) => {
                return Err(e);
            },
        };
        let tags: Option<Vec<String>> = match get_opt::<Vec<String>>(v, "tags") {
            Ok(o) => o,
            Err(e) => {
                return Err(e);
            },
        };
        let fields: Vec<FieldObject> = match get_req::<Vec<FieldObject>>(v, "fields") {
            Ok(x) => x,
            Err(e) => {
                return Err(e);
            },
        };
        let sections: Vec<SectionObject> = match get_req::<Vec<SectionObject>>(v, "sections") {
            Ok(x) => x,
            Err(e) => {
                return Err(e);
            },
        };
        Ok(FullItem { title, vault, category, urls, favorite, tags, fields, sections })
    }
}

/// A transport-level response: the status code, and the body bytes or the
/// message of the failure that interrupted reading them.
pub struct HttpResponse {
    /// The status code of the response.
    pub status: u16,
    /// The body read in full, or the read failure's message.
    pub body: Result<Vec<u8>, String>,
}

/// The status codes treated as success: OK and No-Content.
pub open spec fn status_success(status: u16) -> bool {
    status == 200 || status == 204
}

/// The text a body's bytes decode as: an empty body reads as the empty
/// object's text.
pub open spec fn resp_text(bytes: Seq<u8>) -> Seq<char> {
    if bytes.len() == 0 {
        "{}"@
    } else {
        decode_utf8(bytes)
    }
}

/// The JSON tree a body parses as: an empty body reads as the empty object.
pub open spec fn resp_json(bytes: Seq<u8>) -> Option<Json> {
    if bytes.len() == 0 {
        Some(Json::Obj(Map::<Seq<char>, Json>::empty()))
    } else {
        json_of(decode_utf8(bytes))
    }
}

/// When decoding succeeds: the body was read, its bytes are text, the
/// text parses as JSON, the status is a success, and the tree fits the
/// typed shape. `decode_post` returns `Ok` exactly on these conditions.
pub open spec fn decode_succeeds<T: FromJson>(resp: HttpResponse) -> bool {
    &&& resp.body is Ok
    &&& (resp.body->Ok_0@.len() == 0 || valid_utf8(resp.body->Ok_0@))
    &&& resp_json(resp.body->Ok_0@) is Some
    &&& status_success(resp.status)
    &&& T::of_json(resp_json(resp.body->Ok_0@)->Some_0) is Some
}

/// The two halves of a decoded pair carry the same payload: the typed
/// value is exactly what the raw tree decodes to.
pub open spec fn decodes_to<T: FromJson>(t: T, raw: serde_json::Value) -> bool {
    T::of_json(value_rep(raw)) == Some(t.deep_view())
}

/// Everything `decode_response` promises of its result: each failure kind
/// comes on exactly one condition, and success pins both halves of the pair.
pub open spec fn decode_post<T: FromJson>(
    resp: HttpResponse,
    r: Result<(T, serde_json::Value), Error>,
) -> bool {
    match resp.body {
        Err(msg) => r is Err && r->Err_0.kind is NetworkError && r->Err_0.cause == Some(msg),
        Ok(b) => {
            let bytes = b@;
            if bytes.len() > 0 && !valid_utf8(bytes) {
                r is Err && r->Err_0.kind is Utf8Error && r->Err_0.cause is Some
            } else if resp_json(bytes) is None {
                r is Err && r->Err_0.kind is ParsingError && r->Err_0.cause is Some
            } else if !status_success(resp.status) {
                &&& r is Err
                &&& r->Err_0.kind is RequestNotSuccessful
                &&& r->Err_0.kind->RequestNotSuccessful_0.status == resp.status
                &&& r->Err_0.kind->RequestNotSuccessful_0.body@ == resp_text(bytes)
            } else {
                match T::of_json(resp_json(bytes)->Some_0) {
                    Some(m) => {
                        &&& r is Ok
                        &&& r->Ok_0.0.deep_view() == m
                        &&& value_rep(r->Ok_0.1) == resp_json(bytes)->Some_0
                    },
                    None => r is Err && r->Err_0.kind is ParsingError && r->Err_0.cause
                        is Some,
                }
            }
        },
    }
}

/// Relies on std::str::from_utf8: `Ok` exactly on well-formed UTF-8, the
/// text being the decoding of those bytes; the failure's message on the rest.
#[verifier::external_body]
fn utf8_to_str(b: &[u8]) -> (r: Result<&str, String>)
    ensures
        r is Ok <==> valid_utf8(b@),
        r is Ok ==> r->Ok_0@ == decode_utf8(b@),
{
    match std::str::from_utf8(b) {
        Ok(s) => Ok(s),
        Err(e) => Err(format!("{}", e)),
    }
}

/// The step after the body has parsed: the typed decode is attempted first
/// and held back; a non-success status takes precedence over its failure,
/// and only after the status check does a typed failure surface.
pub fn decode_parsed<T: FromJson>(status: u16, text: String, raw: serde_json::Value) -> (r: Result<
    (T, serde_json::Value),
    Error,
>)
    ensures
        !status_success(status) ==> {
            &&& r is Err
            &&& r->Err_0.kind is RequestNotSuccessful
            &&& r->Err_0.kind->RequestNotSuccessful_0.status == status
            &&& r->Err_0.kind->RequestNotSuccessful_0.body@ == text@
            &&& r->Err_0.cause is None
        },
        status_success(status) ==> match T::of_json(value_rep(raw)) {
            Some(m) => r is Ok && r->Ok_0.0.deep_view() == m && r->Ok_0.1 == raw,
            None => r is Err && r->Err_0.kind is ParsingError && r->Err_0.cause is Some,
        },
{
    let typed: Result<T, Error> = T::from_value(&raw);
    if !(status == 200 || status == 204) {
        return Err(Error::new(Kind::RequestNotSuccessful(RequestNotSuccessful::new(status, text))));
    }
    match typed {
        Ok(t) => Ok((t, raw)),
        Err(e) => Err(e),
    }
}

/// Turns a raw response into a typed value and the raw JSON tree, or the
/// one structured error its condition calls for.
pub fn decode_response<T: FromJson>(resp: HttpResponse) -> (r: Result<
    (T, serde_json::Value),
    Error,
>)
    ensures
        decode_post::<T>(resp, r),
{
    let status = resp.status;
    match resp.body {
        Err(msg) => Err(Error::new_network_error(msg)),
        Ok(bytes) => {
            let text: String = if bytes.len() == 0 {
                String::from_str("{}")
            } else {
                match utf8_to_str(bytes.as_slice()) {
                    Ok(s) => s.to_owned(),
                    Err(m) => {
                        return Err(Error::new(Kind::Utf8Error).with(m));
                    },
                }
            };
            let raw = match parse_json(text.as_str()) {
                Ok(v) => v,
                Err(msg) => {
                    return Err(Error::new_parsing_error(msg));
                },
            };
            decode_parsed::<T>(status, text, raw)
        },
    }
}

/// Decoding is a function of the response alone: the same status and the
/// same body bytes yield the same typed value, the same raw tree, and the
/// same failure, run as often as one likes.
pub proof fn lemma_decode_idempotent<T: FromJson>(
    resp1: HttpResponse,
    resp2: HttpResponse,
    r1: Result<(T, serde_json::Value), Error>,
    r2: Result<(T, serde_json::Value), Error>,
)
    requires
        decode_post::<T>(resp1, r1),
        decode_post::<T>(resp2, r2),
        resp1.status == resp2.status,
        resp1.body is Ok,
        resp2.body is Ok,
        resp1.body->Ok_0@ == resp2.body->Ok_0@,
    ensures
        r1 is Ok <==> r2 is Ok,
        r1 is Ok ==> r1->Ok_0.0.deep_view() == r2->Ok_0.0.deep_view(),
        r1 is Ok ==> value_rep(r1->Ok_0.1) == value_rep(r2->Ok_0.1),
        r1 is Err ==> r1->Err_0.spec_description() == r2->Err_0.spec_description(),
{
}

/// A zero-length body decodes exactly as the empty object does: never a
/// text or raw-parse failure; on a success status the outcome is what the
/// typed shape makes of the empty object, and the raw tree is that object.
pub proof fn lemma_empty_body_decodes_as_empty_object<T: FromJson>(
    resp: HttpResponse,
    r: Result<(T, serde_json::Value), Error>,
)
    requires
        decode_post::<T>(resp, r),
        resp.body is Ok,
        resp.body->Ok_0@.len() == 0,
    ensures
        !(r is Err && r->Err_0.kind is Utf8Error),
        status_success(resp.status) ==> match T::of_json(
            Json::Obj(Map::<Seq<char>, Json>::empty()),
        ) {
            Some(m) => r is Ok && r->Ok_0.0.deep_view() == m && value_rep(r->Ok_0.1) == Json::Obj(
                Map::<Seq<char>, Json>::empty(),
            ),
            None => r is Err && r->Err_0.kind is ParsingError,
        },
        !status_success(resp.status) ==> r is Err && r->Err_0.kind is RequestNotSuccessful
            && r->Err_0.kind->RequestNotSuccessful_0.body@ == "{}"@,
{
}

/// A non-success status takes precedence: whenever the body parses as JSON
/// at all, a failing status reports the unsuccessful-status error with that
/// status and the body's text, whatever the typed decode would have said.
pub proof fn lemma_status_precedence<T: FromJson>(
    resp: HttpResponse,
    r: Result<(T, serde_json::Value), Error>,
)
    requires
        decode_post::<T>(resp, r),
        resp.body is Ok,
        resp.body->Ok_0@.len() == 0 || valid_utf8(resp.body->Ok_0@),
        resp_json(resp.body->Ok_0@) is Some,
        !status_success(resp.status),
    ensures
        r is Err,
        r->Err_0.kind is RequestNotSuccessful,
        r->Err_0.kind->RequestNotSuccessful_0.status == resp.status,
        r->Err_0.kind->RequestNotSuccessful_0.body@ == resp_text(resp.body->Ok_0@),
{
}

} // verus!
