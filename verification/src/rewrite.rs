//! Rewriting of references: scalar foreign-key columns, and player
//! identifiers embedded inside a clan's serialized member array.
//!
//! A member array occurs in two encodings: each element a JSON object, or
//! each element a JSON string holding a serialized object. The encoding is
//! detected per array and preserved on output; an array mixing the two is
//! re-encoded uniformly as raw objects, a documented fallback.

use vstd::prelude::*;
use crate::error::MergeError;
use crate::json::{JsonValue, json_text, parse_json, parsed_json, to_json_string};
use crate::mapping::{lookup_or_sentinel_spec, EntityKind, MappingRegistry};
use crate::value::{col_first_index, find_name_index, SqlValue};

verus! {

/// The reserved "no relation" value of clan-reference columns and of member
/// identifiers; it is never offset.
pub const NO_RELATION: i64 = -1;

/// What rewriting a scalar value yields: an integer goes through the
/// sentinel-aware lookup, anything else passes through unchanged.
pub open spec fn rewrite_scalar_spec(v: SqlValue, m: Map<i64, i64>, sentinel: i64) -> SqlValue {
    match v {
        SqlValue::Int(x) => SqlValue::Int(lookup_or_sentinel_spec(m, x, sentinel)),
        _ => v,
    }
}

/// Rewrites one scalar foreign-key value against one entity kind's mapping,
/// leaving the sentinel and non-integer values unchanged.
pub fn rewrite_scalar(v: SqlValue, reg: &MappingRegistry, kind: EntityKind, sentinel: i64) -> (r:
    SqlValue)
    ensures
        r == rewrite_scalar_spec(v, reg.map_of(kind), sentinel),
{
    match v {
        SqlValue::Int(x) => SqlValue::Int(reg.lookup_or_sentinel(kind, x, sentinel)),
        other => other,
    }
}

/// How one member element was found encoded.
#[derive(Debug, Clone, Copy, PartialEq, Eq, Structural)]
pub enum MemberEncoding {
    RawObject,
    StringWrapped,
}

/// One element of a member array: its encoding and its parsed value.
#[derive(Debug, PartialEq)]
pub struct MemberEntry {
    pub encoding: MemberEncoding,
    pub value: JsonValue,
}

/// What decoding one array element yields: a string element must hold a
/// serialized object; any other element stands for itself.
pub open spec fn decode_elem_spec(e: JsonValue) -> Option<MemberEntry> {
    match e {
        JsonValue::Str(s) => match parsed_json(s@) {
            Some(inner) => if inner is Obj {
                Some(MemberEntry { encoding: MemberEncoding::StringWrapped, value: inner })
            } else {
                None
            },
            None => None,
        },
        _ => Some(MemberEntry { encoding: MemberEncoding::RawObject, value: e }),
    }
}

/// Whether every element of the array decodes.
pub open spec fn decode_ok(elems: Seq<JsonValue>) -> bool {
    forall|i: int| 0 <= i < elems.len() ==> (#[trigger] decode_elem_spec(elems[i])) is Some
}

/// The decoded members of an array whose every element decodes.
pub open spec fn decode_spec(elems: Seq<JsonValue>) -> Seq<MemberEntry> {
    Seq::new(elems.len(), |i: int| decode_elem_spec(elems[i]).unwrap())
}

/// Decodes the elements of a member array, failing on a string element whose
/// payload is not a serialized object.
pub fn decode_members(elems: Vec<JsonValue>) -> (r: Result<Vec<MemberEntry>, MergeError>)
    ensures
        match r {
            Ok(out) => decode_ok(elems@) && out@ == decode_spec(elems@),
            Err(e) => !decode_ok(elems@) && e == MergeError::MalformedReference,
        },
{
    let ghost orig = elems@;
    let mut rest = elems;
    let mut out: Vec<MemberEntry> = Vec::new();
    while rest.len() > 0
        invariant
            orig == elems@,
            out@.len() + rest@.len() == orig.len(),
            rest@ == orig.skip(out@.len() as int),
            forall|i: int|
                0 <= i < out@.len() ==> (#[trigger] decode_elem_spec(orig[i])) is Some && out@[i]
                    == decode_elem_spec(orig[i]).unwrap(),
        decreases rest@.len(),
    {
        let ghost k = out@.len() as int;
        let e = rest.remove(0);
        proof {
            assert(e == orig[k]);
            assert(rest@ =~= orig.skip(k + 1));
        }
        match e {
            JsonValue::Str(s) => {
                match parse_json(s.as_str()) {
                    Some(inner) => {
                        match inner {
                            JsonValue::Obj(fields) => {
                                out.push(
                                    MemberEntry {
                                        encoding: MemberEncoding::StringWrapped,
                                        value: JsonValue::Obj(fields),
                                    },
                                );
                            },
                            inner_other => {
                                proof {
                                    assert(orig[k] == JsonValue::Str(s));
                                    assert(decode_elem_spec(orig[k]) is None);
                                    assert(!decode_ok(orig));
                                }
                                return Err(MergeError::MalformedReference);
                            },
                        }
                    },
                    None => {
                        proof {
                            assert(orig[k] == JsonValue::Str(s));
                            assert(decode_elem_spec(orig[k]) is None);
                            assert(!decode_ok(orig));
                        }
                        return Err(MergeError::MalformedReference);
                    },
                }
            },
            other => {
                out.push(MemberEntry { encoding: MemberEncoding::RawObject, value: other });
            },
        }
    }
    proof {
        assert(orig.skip(0) =~= orig);
        assert(out@ =~= decode_spec(orig));
    }
    Ok(out)
}

/// The member's identifier: the value of the object's first `id` field, when
/// that value is an integer.
pub open spec fn member_id(v: JsonValue) -> Option<i64> {
    match v {
        JsonValue::Obj(fields) => {
            let i = col_first_index(fields@, "id"@);
            if i == -1 {
                None
            } else {
                match fields@[i].1 {
                    JsonValue::Int(x) => Some(x),
                    _ => None,
                }
            }
        },
        _ => None,
    }
}

/// Whether rewriting would alter the member: it has an integer identifier
/// and the sentinel-aware lookup maps it elsewhere.
pub open spec fn changes_id(v: JsonValue, m: Map<i64, i64>) -> bool {
    match member_id(v) {
        Some(x) => lookup_or_sentinel_spec(m, x, NO_RELATION) != x,
        None => false,
    }
}

/// How a member value relates to its rewritten form: unchanged unless the
/// lookup moves its identifier, in which case only the `id` field differs.
pub open spec fn rewrite_rel(v: JsonValue, m: Map<i64, i64>, r: JsonValue) -> bool {
    if changes_id(v, m) {
        match (v, r) {
            (JsonValue::Obj(f), JsonValue::Obj(g)) => {
                let i = col_first_index(f@, "id"@);
                let x = member_id(v).unwrap();
                g@ == f@.update(
                    i,
                    (f@[i].0, JsonValue::Int(lookup_or_sentinel_spec(m, x, NO_RELATION))),
                )
            },
            _ => false,
        }
    } else {
        r == v
    }
}

/// Rewrites one member value's identifier against the player mapping,
/// returning the value untouched when the lookup moves nothing.
pub fn rewrite_member_value(v: JsonValue, reg: &MappingRegistry) -> (r: JsonValue)
    ensures
        rewrite_rel(v, reg.map_of(EntityKind::Player), r),
{
    match v {
        JsonValue::Obj(fields) => {
            let mut fields = fields;
            let ghost f0 = fields@;
            proof {
                crate::value::lemma_col_first_index(fields@, "id"@);
            }
            match find_name_index(&fields, "id") {
                None => JsonValue::Obj(fields),
                Some(i) => {
                    let xopt: Option<i64> = match &fields[i].1 {
                        JsonValue::Int(x) => Some(*x),
                        _ => None,
                    };
                    match xopt {
                        None => JsonValue::Obj(fields),
                        Some(x) => {
                            let nid = reg.lookup_or_sentinel(EntityKind::Player, x, NO_RELATION);
                            if nid == x {
                                JsonValue::Obj(fields)
                            } else {
                                let pair = fields.remove(i);
                                fields.insert(i, (pair.0, JsonValue::Int(nid)));
                                proof {
                                    assert(fields@ =~= f0.update(
                                        i as int,
                                        (f0[i as int].0, JsonValue::Int(nid)),
                                    ));
                                }
                                JsonValue::Obj(fields)
                            }
                        },
                    }
                },
            }
        },
        other => other,
    }
}

/// How a member list relates to its rewritten form: same length, each
/// encoding kept, each value rewritten per `rewrite_rel`.
pub open spec fn members_rewritten(
    ms: Seq<MemberEntry>,
    m: Map<i64, i64>,
    out: Seq<MemberEntry>,
) -> bool {
    &&& out.len() == ms.len()
    &&& forall|i: int|
        0 <= i < ms.len() ==> {
            &&& (#[trigger] out[i]).encoding == ms[i].encoding
            &&& rewrite_rel(ms[i].value, m, out[i].value)
        }
}

/// Rewrites every member of the list against the player mapping, keeping
/// each element's encoding.
pub fn rewrite_members(members: Vec<MemberEntry>, reg: &MappingRegistry) -> (r: Vec<MemberEntry>)
    ensures
        members_rewritten(members@, reg.map_of(EntityKind::Player), r@),
{
    let ghost ms = members@;
    let mut rest = members;
    let mut out: Vec<MemberEntry> = Vec::new();
    while rest.len() > 0
        invariant
            out@.len() + rest@.len() == ms.len(),
            rest@ == ms.skip(out@.len() as int),
            forall|i: int|
                0 <= i < out@.len() ==> (#[trigger] out@[i]).encoding == ms[i].encoding
                    && rewrite_rel(ms[i].value, reg.map_of(EntityKind::Player), out@[i].value),
        decreases rest@.len(),
    {
        let ghost k = out@.len() as int;
        let e = rest.remove(0);
        proof {
            assert(e == ms[k]);
            assert(rest@ =~= ms.skip(k + 1));
        }
        let MemberEntry { encoding, value } = e;
        let nv = rewrite_member_value(value, reg);
        out.push(MemberEntry { encoding, value: nv });
    }
    out
}

/// Whether every member arrived string-wrapped; an empty array counts as
/// wrapped and is re-emitted unchanged either way.
pub open spec fn all_wrapped(ms: Seq<MemberEntry>) -> bool {
    forall|i: int|
        0 <= i < ms.len() ==> (#[trigger] ms[i]).encoding == MemberEncoding::StringWrapped
}

/// How one rewritten member relates to its emitted element: re-wrapped as a
/// serialized-object string when the whole array is string-wrapped, emitted
/// as the raw object otherwise.
pub open spec fn encode_elem_rel(m: MemberEntry, o: JsonValue, wrapped: bool) -> bool {
    if wrapped {
        o matches JsonValue::Str(s) && s@ == json_text(m.value)
    } else {
        o == m.value
    }
}

/// Re-encodes the members as array elements: uniformly string-wrapped when
/// every member was, uniformly raw objects otherwise (the fallback for
/// mixed-encoding arrays).
pub fn encode_members(members: Vec<MemberEntry>) -> (r: Vec<JsonValue>)
    ensures
        r@.len() == members@.len(),
        forall|i: int|
            0 <= i < members@.len() ==> encode_elem_rel(members@[i], r@[i], all_wrapped(members@)),
{
    let ghost ms = members@;
    let mut wrapped = true;
    let mut i: usize = 0;
    while i < members.len()
        invariant
            i <= ms.len(),
            members@ == ms,
            wrapped <==> all_wrapped(ms.take(i as int)),
        decreases ms.len() - i,
    {
        let ghost before = ms.take(i as int);
        if members[i].encoding == MemberEncoding::RawObject {
            wrapped = false;
        }
        i = i + 1;
        proof {
            assert(ms.take(i as int) =~= before.push(ms[i - 1]));
            if wrapped {
                assert forall|j: int|
                    0 <= j < i implies (#[trigger] ms.take(i as int)[j]).encoding
                    == MemberEncoding::StringWrapped by {
                    if j < i - 1 {
                        assert(before[j] == ms.take(i as int)[j]);
                    }
                }
            } else {
                if all_wrapped(ms.take(i as int)) {
                    if !all_wrapped(before) {
                        let j = choose|j: int|
                            0 <= j < before.len() && (#[trigger] before[j]).encoding
                                != MemberEncoding::StringWrapped;
                        assert(ms.take(i as int)[j] == before[j]);
                    } else {
                        assert(ms.take(i as int)[i - 1].encoding == MemberEncoding::StringWrapped);
                    }
                }
            }
        }
    }
    proof {
        assert(ms.take(ms.len() as int) =~= ms);
    }
    let mut rest = members;
    let mut out: Vec<JsonValue> = Vec::new();
    while rest.len() > 0
        invariant
            out@.len() + rest@.len() == ms.len(),
            rest@ == ms.skip(out@.len() as int),
            wrapped == all_wrapped(ms),
            forall|i2: int|
                0 <= i2 < out@.len() ==> encode_elem_rel(ms[i2], #[trigger] out@[i2], all_wrapped(ms)),
        decreases rest@.len(),
    {
        let ghost k = out@.len() as int;
        let e = rest.remove(0);
        proof {
            assert(e == ms[k]);
            assert(rest@ =~= ms.skip(k + 1));
        }
        if wrapped {
            let s = to_json_string(&e.value);
            out.push(JsonValue::Str(s));
        } else {
            out.push(e.value);
        }
    }
    out
}

/// How the rewritten text of a member array relates to the parsed elements
/// of the original: it serializes an array holding the rewritten, re-encoded
/// members.
pub open spec fn array_rewrite_output(elems: Seq<JsonValue>, m: Map<i64, i64>, out: Seq<char>) -> bool {
    exists|mid: Seq<MemberEntry>, ov: Vec<JsonValue>|
        #![trigger members_rewritten(decode_spec(elems), m, mid), json_text(JsonValue::Arr(ov))]
        {
            &&& members_rewritten(decode_spec(elems), m, mid)
            &&& ov@.len() == mid.len()
            &&& (forall|i: int|
                0 <= i < mid.len() ==> encode_elem_rel(#[trigger] mid[i], ov@[i], all_wrapped(mid)))
            &&& out == json_text(JsonValue::Arr(ov))
        }
}

/// Rewrites the player references embedded in a serialized member array.
///
/// Fails with `MalformedReference` exactly when the text is not a JSON
/// array, or a string element's payload is not a serialized JSON object. A
/// member without an integer `id` field passes through unrewritten.
pub fn rewrite_embedded_array(text: &str, reg: &MappingRegistry) -> (r: Result<String, MergeError>)
    ensures
        match parsed_json(text@) {
            Some(v) => match v {
                JsonValue::Arr(elems) => {
                    if decode_ok(elems@) {
                        r matches Ok(out) && array_rewrite_output(
                            elems@,
                            reg.map_of(EntityKind::Player),
                            out@,
                        )
                    } else {
                        r == Err::<String, MergeError>(MergeError::MalformedReference)
                    }
                },
                _ => r == Err::<String, MergeError>(MergeError::MalformedReference),
            },
            None => r == Err::<String, MergeError>(MergeError::MalformedReference),
        },
{
    match parse_json(text) {
        None => Err(MergeError::MalformedReference),
        Some(v) => match v {
            JsonValue::Arr(elems) => {
                let ghost ge = elems@;
                match decode_members(elems) {
                    Err(e) => Err(e),
                    Ok(members) => {
                        let rewritten = rewrite_members(members, reg);
                        let ghost gr = rewritten@;
                        let encoded = encode_members(rewritten);
                        let ghost gov = encoded;
                        let arr = JsonValue::Arr(encoded);
                        let out = to_json_string(&arr);
                        proof {
                            assert(members_rewritten(
                                decode_spec(ge),
                                reg.map_of(EntityKind::Player),
                                gr,
                            ));
                            assert(out@ == json_text(JsonValue::Arr(gov)));
                            assert(array_rewrite_output(ge, reg.map_of(EntityKind::Player), out@));
                        }
                        Ok(out)
                    },
                }
            },
            _ => Err(MergeError::MalformedReference),
        },
    }
}

/// Law: a member list none of whose identifiers is present in the mapping is
/// rewritten to itself exactly — values unchanged and every encoding kept.
pub proof fn lemma_rewrite_unmapped_members(
    ms: Seq<MemberEntry>,
    m: Map<i64, i64>,
    out: Seq<MemberEntry>,
)
    requires
        members_rewritten(ms, m, out),
        forall|i: int|
            0 <= i < ms.len() ==> match member_id((#[trigger] ms[i]).value) {
                Some(x) => !m.contains_key(x),
                None => true,
            },
    ensures
        out =~= ms,
{
    assert forall|i: int| 0 <= i < ms.len() implies out[i] == ms[i] by {
        assert(!changes_id(ms[i].value, m));
    }
}

/// Law: rewriting a raw-object array whose identifiers are all absent from
/// the mapping yields the serialization of an array holding the very same
/// elements.
pub proof fn lemma_unmapped_raw_array_kept(elems: Seq<JsonValue>, m: Map<i64, i64>, out: Seq<char>)
    requires
        forall|i: int| 0 <= i < elems.len() ==> !((#[trigger] elems[i]) is Str),
        forall|i: int|
            0 <= i < elems.len() ==> match member_id(#[trigger] elems[i]) {
                Some(x) => !m.contains_key(x),
                None => true,
            },
        array_rewrite_output(elems, m, out),
    ensures
        exists|ov: Vec<JsonValue>| ov@ =~= elems && out == json_text(JsonValue::Arr(ov)),
{
    assert(decode_ok(elems));
    let ds = decode_spec(elems);
    let (mid, ov) = choose|mid: Seq<MemberEntry>, ov: Vec<JsonValue>|
        #![trigger members_rewritten(ds, m, mid), json_text(JsonValue::Arr(ov))]
        {
            &&& members_rewritten(ds, m, mid)
            &&& ov@.len() == mid.len()
            &&& (forall|i: int|
                0 <= i < mid.len() ==> encode_elem_rel(#[trigger] mid[i], ov@[i], all_wrapped(mid)))
            &&& out == json_text(JsonValue::Arr(ov))
        };
    assert forall|i: int| 0 <= i < ds.len() implies match member_id(
        (#[trigger] ds[i]).value,
    ) {
        Some(x) => !m.contains_key(x),
        None => true,
    } by {
        assert(ds[i].value == elems[i]);
    }
    lemma_rewrite_unmapped_members(ds, m, mid);
    if elems.len() > 0 {
        assert(mid[0].encoding == MemberEncoding::RawObject);
        assert(!all_wrapped(mid));
    }
    assert forall|i: int| 0 <= i < elems.len() implies ov@[i] == elems[i] by {
        assert(encode_elem_rel(mid[i], ov@[i], all_wrapped(mid)));
        assert(mid[i] == ds[i]);
        assert(ds[i].value == elems[i]);
    }
    assert(ov@ =~= elems);
}

} // verus!
