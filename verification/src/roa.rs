use vstd::prelude::*;
use vstd::string::StringExecFns;
use crate::error::{ErrorKind, TypedError, NO_STATUS};
use crate::json::{json_view, JsonV, JsonValue};
use crate::text::{render_u64, spec_dec};

verus! {

/// What the binary decoder reads out of a route-origin-authorization
/// object: the origin number and the declared prefixes of each family, in
/// their textual address/length form, in declaration order.
pub struct RawRoa {
    pub asn: u32,
    pub v4_prefixes: Vec<String>,
    pub v6_prefixes: Vec<String>,
}

pub struct RawRoaV {
    pub asn: u32,
    pub v4_prefixes: Seq<Seq<char>>,
    pub v6_prefixes: Seq<Seq<char>>,
}

impl DeepView for RawRoa {
    type V = RawRoaV;

    open spec fn deep_view(&self) -> RawRoaV {
        RawRoaV {
            asn: self.asn,
            v4_prefixes: self.v4_prefixes.deep_view(),
            v6_prefixes: self.v6_prefixes.deep_view(),
        }
    }
}

/// What the outside decoder makes of a byte string: the read-out object,
/// or nothing where the bytes are not a valid routing-authorization
/// encoding. A function of the bytes alone.
pub uninterp spec fn spec_roa_decode(bytes: Seq<u8>) -> Option<RawRoaV>;

/// The text the outside decoder reports for a byte string it refuses.
/// The decoder is deterministic, so this too is a function of the bytes
/// alone.
pub uninterp spec fn spec_roa_err(bytes: Seq<u8>) -> Seq<char>;

/// Relies on rpki's Roa::decode in lenient mode to read the object, and on
/// its content accessors (as_id, v4_addrs, v6_addrs, prefix) and the
/// prefix Display (address/length) to read the fields out; the error text
/// is the decoder's own rendering of its refusal.
#[verifier::external_body]
fn roa_decode_raw(bytes: &[u8]) -> (r: Result<RawRoa, String>)
    ensures
        r matches Ok(v) ==> spec_roa_decode(bytes@) == Some(v.deep_view()),
        r matches Err(m) ==> spec_roa_decode(bytes@) is None && m@ == spec_roa_err(bytes@),
{
    let roa = match rpki::repository::Roa::decode(bytes, false) {
        Ok(r) => r,
        Err(e) => return Err(e.to_string()),
    };
    let content = roa.content();
    let mut v4_prefixes: Vec<String> = Vec::new();
    let mut v6_prefixes: Vec<String> = Vec::new();
    for a in content.v4_addrs().iter() {
        v4_prefixes.push(format!("{}/{}", a.prefix().to_v4(), a.prefix().addr_len()));
    }
    for a in content.v6_addrs().iter() {
        v6_prefixes.push(format!("{}/{}", a.prefix().to_v6(), a.prefix().addr_len()));
    }
    Ok(RawRoa { asn: content.as_id().into_u32(), v4_prefixes, v6_prefixes })
}

/// The decoded object as the caller sees it: the origin rendered as an
/// AS-number string, and the prefix lists of the two families.
pub struct ParsedRoa {
    pub asn: String,
    pub v4_prefixes: Vec<String>,
    pub v6_prefixes: Vec<String>,
}

pub struct ParsedRoaV {
    pub asn: Seq<char>,
    pub v4_prefixes: Seq<Seq<char>>,
    pub v6_prefixes: Seq<Seq<char>>,
}

impl DeepView for ParsedRoa {
    type V = ParsedRoaV;

    open spec fn deep_view(&self) -> ParsedRoaV {
        ParsedRoaV {
            asn: self.asn@,
            v4_prefixes: self.v4_prefixes.deep_view(),
            v6_prefixes: self.v6_prefixes.deep_view(),
        }
    }
}

/// An origin number rendered the usual way: `AS` and the decimal digits.
pub open spec fn spec_asn_text(asn: u32) -> Seq<char> {
    "AS"@ + spec_dec(asn as nat)
}

pub open spec fn spec_parsed_of(raw: RawRoaV) -> ParsedRoaV {
    ParsedRoaV {
        asn: spec_asn_text(raw.asn),
        v4_prefixes: raw.v4_prefixes,
        v6_prefixes: raw.v6_prefixes,
    }
}

fn clone_strings(v: &Vec<String>) -> (r: Vec<String>)
    ensures
        r.deep_view() == v.deep_view(),
{
    let n = v.len();
    let mut out: Vec<String> = Vec::new();
    let mut i: usize = 0;
    while i < n
        invariant
            0 <= i <= n,
            n == v@.len(),
            out@.len() == i,
            forall|q: int| 0 <= q < i ==> (#[trigger] out@[q])@ == v@[q]@,
        decreases n - i,
    {
        out.push(v[i].clone());
        i += 1;
    }
    proof {
        assert(out.deep_view() =~= v.deep_view());
    }
    out
}

/// What the decoded object is shown as: the origin made an AS-number
/// string, the prefix lists carried over unchanged and in order.
pub fn parsed_of_raw(raw: &RawRoa) -> (r: ParsedRoa)
    ensures
        r.deep_view() == spec_parsed_of(raw.deep_view()),
{
    let mut asn = "AS".to_owned();
    let digits = render_u64(raw.asn as u64);
    asn.append(digits.as_str());
    ParsedRoa {
        asn,
        v4_prefixes: clone_strings(&raw.v4_prefixes),
        v6_prefixes: clone_strings(&raw.v6_prefixes),
    }
}

/// A list of strings as a JSON array of strings, in order.
pub open spec fn spec_string_list_json(l: Seq<Seq<char>>) -> JsonV {
    JsonV::Arr(l.map_values(|s: Seq<char>| JsonV::Str(s)))
}

fn string_list_to_json(l: &Vec<String>) -> (r: JsonValue)
    ensures
        r.deep_view() == spec_string_list_json(l.deep_view()),
{
    let n = l.len();
    let mut out: Vec<JsonValue> = Vec::new();
    let mut i: usize = 0;
    while i < n
        invariant
            0 <= i <= n,
            n == l@.len(),
            out@.len() == i,
            forall|q: int| 0 <= q < i ==> #[trigger] out@[q] == JsonValue::Str(l@[q]),
        decreases n - i,
    {
        out.push(JsonValue::Str(l[i].clone()));
        i += 1;
    }
    let r = JsonValue::Arr(out);
    proof {
        let got = r.deep_view()->Arr_0;
        let want = spec_string_list_json(l.deep_view())->Arr_0;
        assert(want.len() == n);
        assert forall|q: int| 0 <= q < n implies got[q] == want[q] by {
            assert(got[q] == json_view(out@[q]));
            assert(l.deep_view()[q] == l@[q]@);
            assert(want[q] == JsonV::Str(l.deep_view()[q]));
        }
        assert(got =~= want);
    }
    r
}

/// The parsed-object payload: origin and the two prefix lists under
/// their documented names.
pub open spec fn spec_parsed_roa_json(v: ParsedRoaV) -> JsonV {
    JsonV::Obj(
        seq![
            ("asn"@, JsonV::Str(v.asn)),
            ("v4Prefixes"@, spec_string_list_json(v.v4_prefixes)),
            ("v6Prefixes"@, spec_string_list_json(v.v6_prefixes)),
        ],
    )
}

/// Builds the parsed-object payload.
pub fn parsed_roa_to_json(v: &ParsedRoa) -> (r: JsonValue)
    ensures
        r.deep_view() == spec_parsed_roa_json(v.deep_view()),
{
    let mut out: Vec<(String, JsonValue)> = Vec::new();
    out.push(("asn".to_owned(), JsonValue::Str(v.asn.clone())));
    out.push(("v4Prefixes".to_owned(), string_list_to_json(&v.v4_prefixes)));
    out.push(("v6Prefixes".to_owned(), string_list_to_json(&v.v6_prefixes)));
    let r = JsonValue::Obj(out);
    proof {
        let got = r.deep_view()->Obj_0;
        let want = spec_parsed_roa_json(v.deep_view())->Obj_0;
        assert forall|q: int| 0 <= q < 3 implies got[q] == want[q] by {
            assert(got[q] == (out@[q].0@, json_view(out@[q].1)));
            assert(json_view(out@[q].1) == want[q].1);
        }
        assert(got =~= want);
    }
    r
}

/// Decodes a routing-authorization object from its bytes and builds the
/// parsed-object payload. Exactly the byte strings the decoder accepts
/// produce a payload; every other byte string produces a decode error
/// under the sentinel code, and never a partial result.
pub fn roa_payload_from_bytes(bytes: &[u8]) -> (r: Result<JsonValue, TypedError>)
    ensures
        match spec_roa_decode(bytes@) {
            Some(raw) => r is Ok && r->Ok_0.deep_view() == spec_parsed_roa_json(
                spec_parsed_of(raw),
            ),
            None => {
                &&& r is Err
                &&& r->Err_0.kind == ErrorKind::Decode
                &&& r->Err_0.code == NO_STATUS
                &&& r->Err_0.message@ == "Failed to decode file: "@ + spec_roa_err(bytes@)
            },
        },
{
    match roa_decode_raw(bytes) {
        Ok(raw) => {
            let parsed = parsed_of_raw(&raw);
            Ok(parsed_roa_to_json(&parsed))
        },
        Err(e) => {
            let mut m = "Failed to decode file: ".to_owned();
            m.append(e.as_str());
            Err(TypedError { kind: ErrorKind::Decode, code: NO_STATUS, message: m })
        },
    }
}

} // verus!
