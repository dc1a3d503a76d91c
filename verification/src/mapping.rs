use vstd::prelude::*;
use vstd::string::StringExecFns;
use crate::errors::Error;
use crate::json::{
    Json, JsonModel, arr_model, entries_model, field_entry, get_opt_u128, get_opt_u32,
    get_req_bool, get_req_str, get_req_u128, get_req_u64, lemma_arr_model, lemma_entries_model,
    lemma_field_entry_get, lemma_obj_get_concat, obj_get, opt_num128, opt_num32, opt_u128_field,
    opt_u32_field, push_entry, push_opt_u128, push_opt_u32, req_bool_field, req_str_field,
    req_u128_field, req_u64_field,
};

verus! {

broadcast use vstd::string::group_string_axioms;

/// One catalogue entry of the mapping endpoint. The alch values and the shop
/// value are wide (128-bit) quantities; the trade limit is 32-bit; optional
/// fields stay absent when the wire omits them.
#[derive(Debug, PartialEq)]
#[verifier::ext_equal]
pub struct Item {
    pub examine: String,
    pub id: u64,
    pub members: bool,
    pub lowalch: Option<u128>,
    pub limit: Option<u32>,
    pub value: u128,
    pub highalch: Option<u128>,
    pub icon: String,
    pub name: String,
}

/// The mathematical shape of a catalogue entry.
pub struct ItemModel {
    pub examine: Seq<char>,
    pub id: u64,
    pub members: bool,
    pub lowalch: Option<u128>,
    pub limit: Option<u32>,
    pub value: u128,
    pub highalch: Option<u128>,
    pub icon: Seq<char>,
    pub name: Seq<char>,
}

impl Item {
    /// The abstraction of this catalogue entry.
    pub open spec fn model(self) -> ItemModel {
        ItemModel {
            examine: self.examine@,
            id: self.id,
            members: self.members,
            lowalch: self.lowalch,
            limit: self.limit,
            value: self.value,
            highalch: self.highalch,
            icon: self.icon@,
            name: self.name@,
        }
    }
}

/// The catalogue entry a document denotes, if it has the right shape.
pub open spec fn item_of(m: JsonModel) -> Option<ItemModel> {
    match m {
        JsonModel::Obj(es) => {
            if req_str_field(es, "examine"@) is Some && req_u64_field(es, "id"@) is Some
                && req_bool_field(es, "members"@) is Some && opt_u128_field(es, "lowalch"@)
                is Some && opt_u32_field(es, "limit"@) is Some && req_u128_field(es, "value"@)
                is Some && opt_u128_field(es, "highalch"@) is Some && req_str_field(es, "icon"@)
                is Some && req_str_field(es, "name"@) is Some {
                Some(
                    ItemModel {
                        examine: req_str_field(es, "examine"@)->0,
                        id: req_u64_field(es, "id"@)->0,
                        members: req_bool_field(es, "members"@)->0,
                        lowalch: opt_u128_field(es, "lowalch"@)->0,
                        limit: opt_u32_field(es, "limit"@)->0,
                        value: req_u128_field(es, "value"@)->0,
                        highalch: opt_u128_field(es, "highalch"@)->0,
                        icon: req_str_field(es, "icon"@)->0,
                        name: req_str_field(es, "name"@)->0,
                    },
                )
            } else {
                None
            }
        },
        _ => None,
    }
}

/// The entries of an encoded catalogue entry: present fields only, in wire
/// order.
pub open spec fn item_entries(im: ItemModel) -> Seq<(Seq<char>, JsonModel)> {
    field_entry("examine"@, Some(JsonModel::Str(im.examine))) + (field_entry("id"@, Some(JsonModel::UInt(im.id as u128))) + (field_entry("members"@, Some(JsonModel::Bool(im.members))) + (field_entry("lowalch"@, opt_num128(im.lowalch)) + (field_entry("limit"@, opt_num32(im.limit)) + (field_entry("value"@, Some(JsonModel::UInt(im.value))) + (field_entry("highalch"@, opt_num128(im.highalch)) + (field_entry("icon"@, Some(JsonModel::Str(im.icon))) + (field_entry("name"@, Some(JsonModel::Str(im.name)))))))))))
}

/// An encoded catalogue entry.
pub open spec fn item_json(im: ItemModel) -> JsonModel {
    JsonModel::Obj(item_entries(im))
}

/// Each field of an encoded catalogue entry is readable under its own key,
/// and a field the entry does not carry is absent from the encoding.
#[verifier::rlimit(100)]
pub proof fn lemma_item_fields(im: ItemModel)
    ensures
        req_str_field(item_entries(im), "examine"@) == Some(im.examine),
        req_u64_field(item_entries(im), "id"@) == Some(im.id),
        req_bool_field(item_entries(im), "members"@) == Some(im.members),
        opt_u128_field(item_entries(im), "lowalch"@) == Some(im.lowalch),
        opt_u32_field(item_entries(im), "limit"@) == Some(im.limit),
        req_u128_field(item_entries(im), "value"@) == Some(im.value),
        opt_u128_field(item_entries(im), "highalch"@) == Some(im.highalch),
        req_str_field(item_entries(im), "icon"@) == Some(im.icon),
        req_str_field(item_entries(im), "name"@) == Some(im.name),
{
    assert((im.id as u128) as u64 == im.id);
    reveal_strlit("examine");
    reveal_strlit("id");
    reveal_strlit("members");
    reveal_strlit("lowalch");
    reveal_strlit("limit");
    reveal_strlit("value");
    reveal_strlit("highalch");
    reveal_strlit("icon");
    reveal_strlit("name");
    let e0 = field_entry("examine"@, Some(JsonModel::Str(im.examine)));
    let e1 = field_entry("id"@, Some(JsonModel::UInt(im.id as u128)));
    let e2 = field_entry("members"@, Some(JsonModel::Bool(im.members)));
    let e3 = field_entry("lowalch"@, opt_num128(im.lowalch));
    let e4 = field_entry("limit"@, opt_num32(im.limit));
    let e5 = field_entry("value"@, Some(JsonModel::UInt(im.value)));
    let e6 = field_entry("highalch"@, opt_num128(im.highalch));
    let e7 = field_entry("icon"@, Some(JsonModel::Str(im.icon)));
    let e8 = field_entry("name"@, Some(JsonModel::Str(im.name)));
    assert("examine"@.len() == 7 && "id"@.len() == 2 && "members"@.len() == 7
        && "lowalch"@.len() == 7 && "limit"@.len() == 5 && "value"@.len() == 5
        && "highalch"@.len() == 8 && "icon"@.len() == 4 && "name"@.len() == 4);
    assert("examine"@[0] == 'e' && "members"@[0] == 'm' && "lowalch"@[0] == 'l'
        && "limit"@[0] == 'l' && "value"@[0] == 'v' && "icon"@[0] == 'i' && "name"@[0] == 'n');
    assert("limit"@[1] == 'i' && "lowalch"@[1] == 'o');
    assert("examine"@ != "members"@ && "examine"@ != "lowalch"@ && "members"@ != "lowalch"@);
    assert("limit"@ != "value"@ && "icon"@ != "name"@ && "limit"@ != "lowalch"@);
    lemma_field_entry_get("examine"@, Some(JsonModel::Str(im.examine)), "examine"@);
    lemma_field_entry_get("id"@, Some(JsonModel::UInt(im.id as u128)), "examine"@);
    lemma_field_entry_get("members"@, Some(JsonModel::Bool(im.members)), "examine"@);
    lemma_field_entry_get("lowalch"@, opt_num128(im.lowalch), "examine"@);
    lemma_field_entry_get("limit"@, opt_num32(im.limit), "examine"@);
    lemma_field_entry_get("value"@, Some(JsonModel::UInt(im.value)), "examine"@);
    lemma_field_entry_get("highalch"@, opt_num128(im.highalch), "examine"@);
    lemma_field_entry_get("icon"@, Some(JsonModel::Str(im.icon)), "examine"@);
    lemma_field_entry_get("name"@, Some(JsonModel::Str(im.name)), "examine"@);
    lemma_field_entry_get("examine"@, Some(JsonModel::Str(im.examine)), "id"@);
    lemma_field_entry_get("id"@, Some(JsonModel::UInt(im.id as u128)), "id"@);
    lemma_field_entry_get("members"@, Some(JsonModel::Bool(im.members)), "id"@);
    lemma_field_entry_get("lowalch"@, opt_num128(im.lowalch), "id"@);
    lemma_field_entry_get("limit"@, opt_num32(im.limit), "id"@);
    lemma_field_entry_get("value"@, Some(JsonModel::UInt(im.value)), "id"@);
    lemma_field_entry_get("highalch"@, opt_num128(im.highalch), "id"@);
    lemma_field_entry_get("icon"@, Some(JsonModel::Str(im.icon)), "id"@);
    lemma_field_entry_get("name"@, Some(JsonModel::Str(im.name)), "id"@);
    lemma_field_entry_get("examine"@, Some(JsonModel::Str(im.examine)), "members"@);
    lemma_field_entry_get("id"@, Some(JsonModel::UInt(im.id as u128)), "members"@);
    lemma_field_entry_get("members"@, Some(JsonModel::Bool(im.members)), "members"@);
    lemma_field_entry_get("lowalch"@, opt_num128(im.lowalch), "members"@);
    lemma_field_entry_get("limit"@, opt_num32(im.limit), "members"@);
    lemma_field_entry_get("value"@, Some(JsonModel::UInt(im.value)), "members"@);
    lemma_field_entry_get("highalch"@, opt_num128(im.highalch), "members"@);
    lemma_field_entry_get("icon"@, Some(JsonModel::Str(im.icon)), "members"@);
    lemma_field_entry_get("name"@, Some(JsonModel::Str(im.name)), "members"@);
    lemma_field_entry_get("examine"@, Some(JsonModel::Str(im.examine)), "lowalch"@);
    lemma_field_entry_get("id"@, Some(JsonModel::UInt(im.id as u128)), "lowalch"@);
    lemma_field_entry_get("members"@, Some(JsonModel::Bool(im.members)), "lowalch"@);
    lemma_field_entry_get("lowalch"@, opt_num128(im.lowalch), "lowalch"@);
    lemma_field_entry_get("limit"@, opt_num32(im.limit), "lowalch"@);
    lemma_field_entry_get("value"@, Some(JsonModel::UInt(im.value)), "lowalch"@);
    lemma_field_entry_get("highalch"@, opt_num128(im.highalch), "lowalch"@);
    lemma_field_entry_get("icon"@, Some(JsonModel::Str(im.icon)), "lowalch"@);
    lemma_field_entry_get("name"@, Some(JsonModel::Str(im.name)), "lowalch"@);
    lemma_field_entry_get("examine"@, Some(JsonModel::Str(im.examine)), "limit"@);
    lemma_field_entry_get("id"@, Some(JsonModel::UInt(im.id as u128)), "limit"@);
    lemma_field_entry_get("members"@, Some(JsonModel::Bool(im.members)), "limit"@);
    lemma_field_entry_get("lowalch"@, opt_num128(im.lowalch), "limit"@);
    lemma_field_entry_get("limit"@, opt_num32(im.limit), "limit"@);
    lemma_field_entry_get("value"@, Some(JsonModel::UInt(im.value)), "limit"@);
    lemma_field_entry_get("highalch"@, opt_num128(im.highalch), "limit"@);
    lemma_field_entry_get("icon"@, Some(JsonModel::Str(im.icon)), "limit"@);
    lemma_field_entry_get("name"@, Some(JsonModel::Str(im.name)), "limit"@);
    lemma_field_entry_get("examine"@, Some(JsonModel::Str(im.examine)), "value"@);
    lemma_field_entry_get("id"@, Some(JsonModel::UInt(im.id as u128)), "value"@);
    lemma_field_entry_get("members"@, Some(JsonModel::Bool(im.members)), "value"@);
    lemma_field_entry_get("lowalch"@, opt_num128(im.lowalch), "value"@);
    lemma_field_entry_get("limit"@, opt_num32(im.limit), "value"@);
    lemma_field_entry_get("value"@, Some(JsonModel::UInt(im.value)), "value"@);
    lemma_field_entry_get("highalch"@, opt_num128(im.highalch), "value"@);
    lemma_field_entry_get("icon"@, Some(JsonModel::Str(im.icon)), "value"@);
    lemma_field_entry_get("name"@, Some(JsonModel::Str(im.name)), "value"@);
    lemma_field_entry_get("examine"@, Some(JsonModel::Str(im.examine)), "highalch"@);
    lemma_field_entry_get("id"@, Some(JsonModel::UInt(im.id as u128)), "highalch"@);
    lemma_field_entry_get("members"@, Some(JsonModel::Bool(im.members)), "highalch"@);
    lemma_field_entry_get("lowalch"@, opt_num128(im.lowalch), "highalch"@);
    lemma_field_entry_get("limit"@, opt_num32(im.limit), "highalch"@);
    lemma_field_entry_get("value"@, Some(JsonModel::UInt(im.value)), "highalch"@);
    lemma_field_entry_get("highalch"@, opt_num128(im.highalch), "highalch"@);
    lemma_field_entry_get("icon"@, Some(JsonModel::Str(im.icon)), "highalch"@);
    lemma_field_entry_get("name"@, Some(JsonModel::Str(im.name)), "highalch"@);
    lemma_field_entry_get("examine"@, Some(JsonModel::Str(im.examine)), "icon"@);
    lemma_field_entry_get("id"@, Some(JsonModel::UInt(im.id as u128)), "icon"@);
    lemma_field_entry_get("members"@, Some(JsonModel::Bool(im.members)), "icon"@);
    lemma_field_entry_get("lowalch"@, opt_num128(im.lowalch), "icon"@);
    lemma_field_entry_get("limit"@, opt_num32(im.limit), "icon"@);
    lemma_field_entry_get("value"@, Some(JsonModel::UInt(im.value)), "icon"@);
    lemma_field_entry_get("highalch"@, opt_num128(im.highalch), "icon"@);
    lemma_field_entry_get("icon"@, Some(JsonModel::Str(im.icon)), "icon"@);
    lemma_field_entry_get("name"@, Some(JsonModel::Str(im.name)), "icon"@);
    lemma_field_entry_get("examine"@, Some(JsonModel::Str(im.examine)), "name"@);
    lemma_field_entry_get("id"@, Some(JsonModel::UInt(im.id as u128)), "name"@);
    lemma_field_entry_get("members"@, Some(JsonModel::Bool(im.members)), "name"@);
    lemma_field_entry_get("lowalch"@, opt_num128(im.lowalch), "name"@);
    lemma_field_entry_get("limit"@, opt_num32(im.limit), "name"@);
    lemma_field_entry_get("value"@, Some(JsonModel::UInt(im.value)), "name"@);
    lemma_field_entry_get("highalch"@, opt_num128(im.highalch), "name"@);
    lemma_field_entry_get("icon"@, Some(JsonModel::Str(im.icon)), "name"@);
    lemma_field_entry_get("name"@, Some(JsonModel::Str(im.name)), "name"@);
    lemma_obj_get_concat(e0, e1 + (e2 + (e3 + (e4 + (e5 + (e6 + (e7 + (e8))))))), "examine"@);
    lemma_obj_get_concat(e1, e2 + (e3 + (e4 + (e5 + (e6 + (e7 + (e8)))))), "examine"@);
    lemma_obj_get_concat(e2, e3 + (e4 + (e5 + (e6 + (e7 + (e8))))), "examine"@);
    lemma_obj_get_concat(e3, e4 + (e5 + (e6 + (e7 + (e8)))), "examine"@);
    lemma_obj_get_concat(e4, e5 + (e6 + (e7 + (e8))), "examine"@);
    lemma_obj_get_concat(e5, e6 + (e7 + (e8)), "examine"@);
    lemma_obj_get_concat(e6, e7 + (e8), "examine"@);
    lemma_obj_get_concat(e7, e8, "examine"@);
    lemma_obj_get_concat(e0, e1 + (e2 + (e3 + (e4 + (e5 + (e6 + (e7 + (e8))))))), "id"@);
    lemma_obj_get_concat(e1, e2 + (e3 + (e4 + (e5 + (e6 + (e7 + (e8)))))), "id"@);
    lemma_obj_get_concat(e2, e3 + (e4 + (e5 + (e6 + (e7 + (e8))))), "id"@);
    lemma_obj_get_concat(e3, e4 + (e5 + (e6 + (e7 + (e8)))), "id"@);
    lemma_obj_get_concat(e4, e5 + (e6 + (e7 + (e8))), "id"@);
    lemma_obj_get_concat(e5, e6 + (e7 + (e8)), "id"@);
    lemma_obj_get_concat(e6, e7 + (e8), "id"@);
    lemma_obj_get_concat(e7, e8, "id"@);
    lemma_obj_get_concat(e0, e1 + (e2 + (e3 + (e4 + (e5 + (e6 + (e7 + (e8))))))), "members"@);
    lemma_obj_get_concat(e1, e2 + (e3 + (e4 + (e5 + (e6 + (e7 + (e8)))))), "members"@);
    lemma_obj_get_concat(e2, e3 + (e4 + (e5 + (e6 + (e7 + (e8))))), "members"@);
    lemma_obj_get_concat(e3, e4 + (e5 + (e6 + (e7 + (e8)))), "members"@);
    lemma_obj_get_concat(e4, e5 + (e6 + (e7 + (e8))), "members"@);
    lemma_obj_get_concat(e5, e6 + (e7 + (e8)), "members"@);
    lemma_obj_get_concat(e6, e7 + (e8), "members"@);
    lemma_obj_get_concat(e7, e8, "members"@);
    lemma_obj_get_concat(e0, e1 + (e2 + (e3 + (e4 + (e5 + (e6 + (e7 + (e8))))))), "lowalch"@);
    lemma_obj_get_concat(e1, e2 + (e3 + (e4 + (e5 + (e6 + (e7 + (e8)))))), "lowalch"@);
    lemma_obj_get_concat(e2, e3 + (e4 + (e5 + (e6 + (e7 + (e8))))), "lowalch"@);
    lemma_obj_get_concat(e3, e4 + (e5 + (e6 + (e7 + (e8)))), "lowalch"@);
    lemma_obj_get_concat(e4, e5 + (e6 + (e7 + (e8))), "lowalch"@);
    lemma_obj_get_concat(e5, e6 + (e7 + (e8)), "lowalch"@);
    lemma_obj_get_concat(e6, e7 + (e8), "lowalch"@);
    lemma_obj_get_concat(e7, e8, "lowalch"@);
    lemma_obj_get_concat(e0, e1 + (e2 + (e3 + (e4 + (e5 + (e6 + (e7 + (e8))))))), "limit"@);
    lemma_obj_get_concat(e1, e2 + (e3 + (e4 + (e5 + (e6 + (e7 + (e8)))))), "limit"@);
    lemma_obj_get_concat(e2, e3 + (e4 + (e5 + (e6 + (e7 + (e8))))), "limit"@);
    lemma_obj_get_concat(e3, e4 + (e5 + (e6 + (e7 + (e8)))), "limit"@);
    lemma_obj_get_concat(e4, e5 + (e6 + (e7 + (e8))), "limit"@);
    lemma_obj_get_concat(e5, e6 + (e7 + (e8)), "limit"@);
    lemma_obj_get_concat(e6, e7 + (e8), "limit"@);
    lemma_obj_get_concat(e7, e8, "limit"@);
    lemma_obj_get_concat(e0, e1 + (e2 + (e3 + (e4 + (e5 + (e6 + (e7 + (e8))))))), "value"@);
    lemma_obj_get_concat(e1, e2 + (e3 + (e4 + (e5 + (e6 + (e7 + (e8)))))), "value"@);
    lemma_obj_get_concat(e2, e3 + (e4 + (e5 + (e6 + (e7 + (e8))))), "value"@);
    lemma_obj_get_concat(e3, e4 + (e5 + (e6 + (e7 + (e8)))), "value"@);
    lemma_obj_get_concat(e4, e5 + (e6 + (e7 + (e8))), "value"@);
    lemma_obj_get_concat(e5, e6 + (e7 + (e8)), "value"@);
    lemma_obj_get_concat(e6, e7 + (e8), "value"@);
    lemma_obj_get_concat(e7, e8, "value"@);
    lemma_obj_get_concat(e0, e1 + (e2 + (e3 + (e4 + (e5 + (e6 + (e7 + (e8))))))), "highalch"@);
    lemma_obj_get_concat(e1, e2 + (e3 + (e4 + (e5 + (e6 + (e7 + (e8)))))), "highalch"@);
    lemma_obj_get_concat(e2, e3 + (e4 + (e5 + (e6 + (e7 + (e8))))), "highalch"@);
    lemma_obj_get_concat(e3, e4 + (e5 + (e6 + (e7 + (e8)))), "highalch"@);
    lemma_obj_get_concat(e4, e5 + (e6 + (e7 + (e8))), "highalch"@);
    lemma_obj_get_concat(e5, e6 + (e7 + (e8)), "highalch"@);
    lemma_obj_get_concat(e6, e7 + (e8), "highalch"@);
    lemma_obj_get_concat(e7, e8, "highalch"@);
    lemma_obj_get_concat(e0, e1 + (e2 + (e3 + (e4 + (e5 + (e6 + (e7 + (e8))))))), "icon"@);
    lemma_obj_get_concat(e1, e2 + (e3 + (e4 + (e5 + (e6 + (e7 + (e8)))))), "icon"@);
    lemma_obj_get_concat(e2, e3 + (e4 + (e5 + (e6 + (e7 + (e8))))), "icon"@);
    lemma_obj_get_concat(e3, e4 + (e5 + (e6 + (e7 + (e8)))), "icon"@);
    lemma_obj_get_concat(e4, e5 + (e6 + (e7 + (e8))), "icon"@);
    lemma_obj_get_concat(e5, e6 + (e7 + (e8)), "icon"@);
    lemma_obj_get_concat(e6, e7 + (e8), "icon"@);
    lemma_obj_get_concat(e7, e8, "icon"@);
    lemma_obj_get_concat(e0, e1 + (e2 + (e3 + (e4 + (e5 + (e6 + (e7 + (e8))))))), "name"@);
    lemma_obj_get_concat(e1, e2 + (e3 + (e4 + (e5 + (e6 + (e7 + (e8)))))), "name"@);
    lemma_obj_get_concat(e2, e3 + (e4 + (e5 + (e6 + (e7 + (e8))))), "name"@);
    lemma_obj_get_concat(e3, e4 + (e5 + (e6 + (e7 + (e8)))), "name"@);
    lemma_obj_get_concat(e4, e5 + (e6 + (e7 + (e8))), "name"@);
    lemma_obj_get_concat(e5, e6 + (e7 + (e8)), "name"@);
    lemma_obj_get_concat(e6, e7 + (e8), "name"@);
    lemma_obj_get_concat(e7, e8, "name"@);
}

/// A field the entry does not carry is absent from the encoding, and a
/// carried field is present: absence survives re-serialization.
pub proof fn lemma_item_absent_fields(im: ItemModel)
    ensures
        obj_get(item_entries(im), "lowalch"@) is Some <==> im.lowalch is Some,
        obj_get(item_entries(im), "limit"@) is Some <==> im.limit is Some,
        obj_get(item_entries(im), "highalch"@) is Some <==> im.highalch is Some,
{
    lemma_item_fields(im);
}

/// Decoding an encoded catalogue entry returns it: optional fields
/// round-trip as present or absent exactly as they started.
pub proof fn lemma_item_round_trip(im: ItemModel)
    ensures
        item_of(item_json(im)) == Some(im),
{
    lemma_item_fields(im);
}

pub fn decode_item(j: &Json) -> (r: Result<Item, ()>)
    ensures
        match r {
            Ok(it) => item_of(j.model()) == Some(it.model()),
            Err(_) => item_of(j.model()) is None,
        },
{
    match j {
        Json::Obj(entries) => {
            let examine = match get_req_str(entries, "examine") {
                Ok(s) => s,
                Err(_) => return Err(()),
            };
            let id = match get_req_u64(entries, "id") {
                Ok(n) => n,
                Err(_) => return Err(()),
            };
            let members = match get_req_bool(entries, "members") {
                Ok(b) => b,
                Err(_) => return Err(()),
            };
            let lowalch = match get_opt_u128(entries, "lowalch") {
                Ok(o) => o,
                Err(_) => return Err(()),
            };
            let limit = match get_opt_u32(entries, "limit") {
                Ok(o) => o,
                Err(_) => return Err(()),
            };
            let value = match get_req_u128(entries, "value") {
                Ok(n) => n,
                Err(_) => return Err(()),
            };
            let highalch = match get_opt_u128(entries, "highalch") {
                Ok(o) => o,
                Err(_) => return Err(()),
            };
            let icon = match get_req_str(entries, "icon") {
                Ok(s) => s,
                Err(_) => return Err(()),
            };
            let name = match get_req_str(entries, "name") {
                Ok(s) => s,
                Err(_) => return Err(()),
            };
            Ok(Item { examine, id, members, lowalch, limit, value, highalch, icon, name })
        },
        _ => Err(()),
    }
}

pub fn encode_item(it: &Item) -> (r: Json)
    ensures
        r.model() == item_json(it.model()),
{
    let mut entries: Vec<(String, Json)> = Vec::new();
    proof {
        assert(entries_model(entries@) =~= Seq::<(Seq<char>, JsonModel)>::empty());
    }
    push_entry(&mut entries, "examine", Json::Str(it.examine.clone()));
    push_entry(&mut entries, "id", Json::UInt(it.id as u128));
    push_entry(&mut entries, "members", Json::Bool(it.members));
    push_opt_u128(&mut entries, "lowalch", it.lowalch);
    push_opt_u32(&mut entries, "limit", it.limit);
    push_entry(&mut entries, "value", Json::UInt(it.value));
    push_opt_u128(&mut entries, "highalch", it.highalch);
    push_entry(&mut entries, "icon", Json::Str(it.icon.clone()));
    push_entry(&mut entries, "name", Json::Str(it.name.clone()));
    proof {
        assert(entries_model(entries@) =~= item_entries(it.model()));
    }
    Json::Obj(entries)
}

/// The abstraction of a decoded catalogue.
pub open spec fn items_model(items: Seq<Item>) -> Seq<ItemModel> {
    Seq::new(items.len(), |i: int| items[i].model())
}

/// The catalogue an array denotes, in wire order.
pub open spec fn item_list_of(items: Seq<JsonModel>) -> Option<Seq<ItemModel>>
    decreases items.len(),
{
    if items.len() == 0 {
        Some(Seq::empty())
    } else {
        match item_list_of(items.drop_last()) {
            None => None,
            Some(acc) => match item_of(items.last()) {
                Some(im) => Some(acc.push(im)),
                None => None,
            },
        }
    }
}

/// The catalogue a document denotes: a top-level array of entries.
pub open spec fn mapping_of(m: JsonModel) -> Option<Seq<ItemModel>> {
    match m {
        JsonModel::Arr(items) => item_list_of(items),
        _ => None,
    }
}

/// An encoded catalogue.
pub open spec fn mapping_json(ims: Seq<ItemModel>) -> JsonModel {
    JsonModel::Arr(Seq::new(ims.len(), |i: int| item_json(ims[i])))
}

/// A failure on a prefix of the array is a failure of the whole.
pub proof fn lemma_item_list_extend_none(items: Seq<JsonModel>, i: int)
    requires
        0 <= i <= items.len(),
        item_list_of(items.take(i)) is None,
    ensures
        item_list_of(items) is None,
    decreases items.len() - i,
{
    if i == items.len() {
        assert(items.take(i) =~= items);
    } else {
        assert(items.take(i + 1).drop_last() =~= items.take(i));
        lemma_item_list_extend_none(items, i + 1);
    }
}

/// Decoding an encoded catalogue returns its entries in order.
pub proof fn lemma_mapping_round_trip(ims: Seq<ItemModel>)
    ensures
        mapping_of(mapping_json(ims)) == Some(ims),
{
    let items = Seq::new(ims.len(), |i: int| item_json(ims[i]));
    lemma_item_list_round_trip(ims, items);
}

proof fn lemma_item_list_round_trip(ims: Seq<ItemModel>, items: Seq<JsonModel>)
    requires
        items.len() == ims.len(),
        forall|i: int| 0 <= i < ims.len() ==> (#[trigger] items[i]) == item_json(ims[i]),
    ensures
        item_list_of(items) == Some(ims),
    decreases ims.len(),
{
    if ims.len() == 0 {
        assert(item_list_of(items) == Some(Seq::<ItemModel>::empty()));
        assert(Seq::<ItemModel>::empty() =~= ims);
    } else {
        let dd = ims.drop_last();
        let id = items.drop_last();
        assert forall|i: int| 0 <= i < dd.len() implies (#[trigger] id[i]) == item_json(
            dd[i],
        ) by {
            assert(id[i] == items[i] && dd[i] == ims[i]);
        }
        lemma_item_list_round_trip(dd, id);
        lemma_item_round_trip(ims.last());
        assert(items.last() == item_json(ims.last()));
        assert(dd.push(ims.last()) =~= ims);
    }
}

/// Decodes a catalogue response.
pub fn decode_mapping(j: &Json) -> (r: Result<Vec<Item>, Error>)
    ensures
        r is Ok <==> mapping_of(j.model()) is Some,
        r matches Ok(v) ==> mapping_of(j.model()) == Some(items_model(v@)),
        r matches Err(e) ==> e@
            == "Failed to deserialize mapping: the response shape does not match"@,
{
    let fail_msg = "Failed to deserialize mapping: the response shape does not match";
    match j {
        Json::Arr(items) => {
            let ghost m = arr_model(items@);
            proof {
                lemma_arr_model(items@);
                assert(m.take(0) =~= Seq::<JsonModel>::empty());
                assert(item_list_of(m.take(0)) == Some(Seq::<ItemModel>::empty()));
            }
            let mut out: Vec<Item> = Vec::new();
            let mut i: usize = 0;
            proof {
                assert(items_model(out@) =~= Seq::<ItemModel>::empty());
            }
            while i < items.len()
                invariant
                    0 <= i <= items.len(),
                    m == arr_model(items@),
                    j.model() == JsonModel::Arr(m),
                    fail_msg@ == "Failed to deserialize mapping: the response shape does not match"@,
                    m.len() == items.len(),
                    forall|j2: int| 0 <= j2 < items.len() ==> m[j2] == items@[j2].model(),
                    out@.len() == i,
                    item_list_of(m.take(i as int)) == Some(items_model(out@)),
                decreases items.len() - i,
            {
                let ghost prev = items_model(out@);
                proof {
                    assert(m.take(i as int + 1).drop_last() =~= m.take(i as int));
                    assert(m.take(i as int + 1).last() == m[i as int]);
                }
                match decode_item(&items[i]) {
                    Ok(it) => {
                        out.push(it);
                        proof {
                            assert(items_model(out@) =~= prev.push(out@.last().model()));
                        }
                    },
                    Err(_) => {
                        proof {
                            lemma_item_list_extend_none(m, i as int + 1);
                        }
                        return Err(Error::new(fail_msg));
                    },
                }
                i = i + 1;
            }
            proof {
                assert(m.take(items.len() as int) =~= m);
            }
            Ok(out)
        },
        _ => Err(Error::new(fail_msg)),
    }
}

/// Encodes a catalogue as a top-level array.
pub fn encode_mapping(items: &Vec<Item>) -> (r: Json)
    ensures
        r.model() == mapping_json(items_model(items@)),
{
    let mut out: Vec<Json> = Vec::new();
    let mut i: usize = 0;
    while i < items.len()
        invariant
            0 <= i <= items.len(),
            out@.len() == i,
            forall|j: int| 0 <= j < i
                ==> (#[trigger] out@[j]).model() == item_json(items@[j].model()),
        decreases items.len() - i,
    {
        out.push(encode_item(&items[i]));
        i = i + 1;
    }
    proof {
        lemma_arr_model(out@);
        assert(arr_model(out@) =~= Seq::new(
            items_model(items@).len(),
            |i: int| item_json(items_model(items@)[i]),
        ));
    }
    Json::Arr(out)
}

/// The request of the mapping endpoint: its path, with no query at all.
pub fn mapping_request() -> (r: (String, Vec<(String, String)>))
    ensures
        r.0@ == "mapping"@,
        r.1@.len() == 0,
{
    (String::from_str("mapping"), Vec::new())
}

} // verus!
