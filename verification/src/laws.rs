use vstd::prelude::*;
use crate::gateway::{spec_normalized, Shape};
use crate::json::{lemma_obj_lookup_skip, spec_get, JsonV};
use crate::schema::{
    spec_decode_fetched_roas,
    spec_decode_status,
    spec_decode_status_success,
    spec_fetched_roas_json,
    spec_field_num,
    spec_field_str,
    spec_roa_json,
    spec_roa_list_json,
    spec_status_json,
    FetchedRoasV,
    StatusResultV,
};
verus! {

/// Law: a status body that matches the success shape is normalized into a
/// payload that carries all six fields, each under its stable name, every
/// value taken verbatim from the body.
pub proof fn lemma_status_success_payload(j: JsonV)
    requires
        spec_decode_status_success(j) is Some,
    ensures
        spec_normalized(Shape::Status, j) == Some(
            spec_status_json(StatusResultV::Success(spec_decode_status_success(j)->Some_0)),
        ),
        ({
            let p = spec_normalized(Shape::Status, j)->Some_0;
            &&& spec_get(p, "version"@) == Some(
                JsonV::Str(spec_field_str(j, "version"@)->Some_0),
            )
            &&& spec_get(p, "serial"@) == Some(
                JsonV::Num(spec_field_num(j, "serial"@)->Some_0),
            )
            &&& spec_get(p, "now"@) == Some(JsonV::Str(spec_field_str(j, "now"@)->Some_0))
            &&& spec_get(p, "lastUpdateStart"@) == Some(
                JsonV::Str(spec_field_str(j, "lastUpdateStart"@)->Some_0),
            )
            &&& spec_get(p, "lastUpdateDone"@) == Some(
                JsonV::Str(spec_field_str(j, "lastUpdateDone"@)->Some_0),
            )
            &&& spec_get(p, "lastUpdateDuration"@) == Some(
                JsonV::Num(spec_field_num(j, "lastUpdateDuration"@)->Some_0),
            )
        }),
{
    let s = spec_decode_status_success(j)->Some_0;
    let p = spec_status_json(StatusResultV::Success(s));
    let entries = p->Obj_0;
    reveal_strlit("version");
    reveal_strlit("serial");
    reveal_strlit("now");
    reveal_strlit("lastUpdateStart");
    reveal_strlit("lastUpdateDone");
    reveal_strlit("lastUpdateDuration");
    assert("version"@.len() == 7);
    assert("serial"@.len() == 6);
    assert("now"@.len() == 3);
    assert("lastUpdateStart"@.len() == 15);
    assert("lastUpdateDone"@.len() == 14);
    assert("lastUpdateDuration"@.len() == 18);
    assert(entries.len() == 6);
    lemma_obj_lookup_skip(entries, "version"@, 0);
    lemma_obj_lookup_skip(entries, "serial"@, 1);
    lemma_obj_lookup_skip(entries, "now"@, 2);
    lemma_obj_lookup_skip(entries, "lastUpdateStart"@, 3);
    lemma_obj_lookup_skip(entries, "lastUpdateDone"@, 4);
    lemma_obj_lookup_skip(entries, "lastUpdateDuration"@, 5);
    assert(entries.skip(0)[0] == entries[0]);
    assert(entries.skip(1)[0] == entries[1]);
    assert(entries.skip(2)[0] == entries[2]);
    assert(entries.skip(3)[0] == entries[3]);
    assert(entries.skip(4)[0] == entries[4]);
    assert(entries.skip(5)[0] == entries[5]);
}

/// Law: the upstream order of a decoded ROA set is preserved into the
/// normalized payload: its list has one entry per decoded authorization,
/// at the same position.
pub proof fn lemma_roa_order_kept(j: JsonV, v: FetchedRoasV)
    requires
        spec_decode_fetched_roas(j) == Some(v),
    ensures
        spec_normalized(Shape::Roas, j) == Some(spec_fetched_roas_json(v)),
        spec_get(spec_fetched_roas_json(v), "roas"@) == Some(spec_roa_list_json(v.roas)),
        spec_roa_list_json(v.roas)->Arr_0.len() == v.roas.len(),
        forall|i: int|
            0 <= i < v.roas.len() ==> spec_roa_list_json(v.roas)->Arr_0[i] == spec_roa_json(
                #[trigger] v.roas[i],
            ),
{
    let entries = spec_fetched_roas_json(v)->Obj_0;
    reveal_strlit("metadata");
    reveal_strlit("roas");
    assert("metadata"@.len() == 8);
    assert("roas"@.len() == 4);
    lemma_obj_lookup_skip(entries, "roas"@, 1);
    assert(entries.skip(1)[0] == entries[1]);
}

/// Law: a status body that matches neither the success shape nor the error
/// shape is normalized into nothing; the gateway then reports a decode
/// error, never a partial payload.
pub proof fn lemma_status_neither_shape(j: JsonV)
    requires
        spec_decode_status_success(j) is None,
        spec_field_str(j, "error"@) is None,
    ensures
        spec_normalized(Shape::Status, j) is None,
{
    assert(spec_decode_status(j) is None);
}

} // verus!
