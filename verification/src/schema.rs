use vstd::prelude::*;
use crate::json::{json_view, spec_get, JsonV, JsonValue};
use crate::text::{parse_i64, render_i64, spec_dec_int, spec_parse_i64};

verus! {

// ---------------------------------------------------------------------------
// Reading single fields of an object node
// ---------------------------------------------------------------------------

/// The text of the string field `k`, if the object has one.
pub open spec fn spec_field_str(j: JsonV, k: Seq<char>) -> Option<Seq<char>> {
    match spec_get(j, k) {
        Some(JsonV::Str(s)) => Some(s),
        _ => None,
    }
}

/// The decimal rendering of the number field `k`, if the object has one.
pub open spec fn spec_field_num(j: JsonV, k: Seq<char>) -> Option<Seq<char>> {
    match spec_get(j, k) {
        Some(JsonV::Num(s)) => Some(s),
        _ => None,
    }
}

fn field_str<'a>(j: &'a JsonValue, k: &str) -> (r: Option<&'a String>)
    ensures
        match r {
            Some(s) => spec_field_str(j.deep_view(), k@) == Some(s@),
            None => spec_field_str(j.deep_view(), k@) is None,
        },
{
    match j.get(k) {
        Some(v) => v.as_string(),
        None => None,
    }
}

fn field_num<'a>(j: &'a JsonValue, k: &str) -> (r: Option<&'a String>)
    ensures
        match r {
            Some(s) => spec_field_num(j.deep_view(), k@) == Some(s@),
            None => spec_field_num(j.deep_view(), k@) is None,
        },
{
    match j.get(k) {
        Some(v) => v.as_number(),
        None => None,
    }
}

// ---------------------------------------------------------------------------
// The status shape
// ---------------------------------------------------------------------------

/// The success shape of an upstream status body. The two numbers keep
/// their decimal text, so they are carried verbatim.
pub struct StatusSuccess {
    pub version: String,
    pub serial: String,
    pub now: String,
    pub last_update_start: String,
    pub last_update_done: String,
    pub last_update_duration: String,
}

pub struct StatusSuccessV {
    pub version: Seq<char>,
    pub serial: Seq<char>,
    pub now: Seq<char>,
    pub last_update_start: Seq<char>,
    pub last_update_done: Seq<char>,
    pub last_update_duration: Seq<char>,
}

impl DeepView for StatusSuccess {
    type V = StatusSuccessV;

    open spec fn deep_view(&self) -> StatusSuccessV {
        StatusSuccessV {
            version: self.version@,
            serial: self.serial@,
            now: self.now@,
            last_update_start: self.last_update_start@,
            last_update_done: self.last_update_done@,
            last_update_duration: self.last_update_duration@,
        }
    }
}

/// A status body is one of two shapes: the success record, or an error
/// record carrying a single message.
pub enum StatusResult {
    Success(StatusSuccess),
    Error(String),
}

pub enum StatusResultV {
    Success(StatusSuccessV),
    Error(Seq<char>),
}

impl DeepView for StatusResult {
    type V = StatusResultV;

    open spec fn deep_view(&self) -> StatusResultV {
        match self {
            StatusResult::Success(s) => StatusResultV::Success(s.deep_view()),
            StatusResult::Error(e) => StatusResultV::Error(e@),
        }
    }
}

/// The success shape: four string fields and two number fields, the
/// numbers kept as their decimal text. Extra fields are ignored.
pub open spec fn spec_decode_status_success(j: JsonV) -> Option<StatusSuccessV> {
    let version = spec_field_str(j, "version"@);
    let serial = spec_field_num(j, "serial"@);
    let now = spec_field_str(j, "now"@);
    let start = spec_field_str(j, "lastUpdateStart"@);
    let done = spec_field_str(j, "lastUpdateDone"@);
    let dur = spec_field_num(j, "lastUpdateDuration"@);
    if version is Some && serial is Some && now is Some && start is Some && done is Some
        && dur is Some {
        Some(
            StatusSuccessV {
                version: version->Some_0,
                serial: serial->Some_0,
                now: now->Some_0,
                last_update_start: start->Some_0,
                last_update_done: done->Some_0,
                last_update_duration: dur->Some_0,
            },
        )
    } else {
        None
    }
}

/// Deterministic resolution order: the success shape is attempted first,
/// then the error shape; a body matching neither decodes to nothing.
pub open spec fn spec_decode_status(j: JsonV) -> Option<StatusResultV> {
    match spec_decode_status_success(j) {
        Some(s) => Some(StatusResultV::Success(s)),
        None => match spec_field_str(j, "error"@) {
            Some(e) => Some(StatusResultV::Error(e)),
            None => None,
        },
    }
}

/// Brings a status body into its typed shape, or nothing where the body
/// matches neither the success nor the error shape.
pub fn decode_status(j: &JsonValue) -> (r: Option<StatusResult>)
    ensures
        r.deep_view() == spec_decode_status(j.deep_view()),
{
    let version = field_str(j, "version");
    let serial_txt = field_num(j, "serial");
    let now = field_str(j, "now");
    let start = field_str(j, "lastUpdateStart");
    let done = field_str(j, "lastUpdateDone");
    let dur = field_num(j, "lastUpdateDuration");
    if version.is_some() && serial_txt.is_some() && now.is_some() && start.is_some()
        && done.is_some() && dur.is_some() {
        return Some(
            StatusResult::Success(
                StatusSuccess {
                    version: version.unwrap().clone(),
                    serial: serial_txt.unwrap().clone(),
                    now: now.unwrap().clone(),
                    last_update_start: start.unwrap().clone(),
                    last_update_done: done.unwrap().clone(),
                    last_update_duration: dur.unwrap().clone(),
                },
            ),
        );
    }
    match field_str(j, "error") {
        Some(e) => Some(StatusResult::Error(e.clone())),
        None => None,
    }
}

/// The normalized status payload: the decoded fields under their stable
/// names, every value carried over verbatim.
pub open spec fn spec_status_json(s: StatusResultV) -> JsonV {
    match s {
        StatusResultV::Success(v) => JsonV::Obj(
            seq![
                ("version"@, JsonV::Str(v.version)),
                ("serial"@, JsonV::Num(v.serial)),
                ("now"@, JsonV::Str(v.now)),
                ("lastUpdateStart"@, JsonV::Str(v.last_update_start)),
                ("lastUpdateDone"@, JsonV::Str(v.last_update_done)),
                ("lastUpdateDuration"@, JsonV::Num(v.last_update_duration)),
            ],
        ),
        StatusResultV::Error(e) => JsonV::Obj(seq![("error"@, JsonV::Str(e))]),
    }
}

/// Builds the normalized status payload.
pub fn status_to_json(s: &StatusResult) -> (r: JsonValue)
    ensures
        r.deep_view() == spec_status_json(s.deep_view()),
{
    match s {
        StatusResult::Success(v) => {
            let mut out: Vec<(String, JsonValue)> = Vec::new();
            out.push(("version".to_owned(), JsonValue::Str(v.version.clone())));
            out.push(("serial".to_owned(), JsonValue::Num(v.serial.clone())));
            out.push(("now".to_owned(), JsonValue::Str(v.now.clone())));
            out.push(("lastUpdateStart".to_owned(), JsonValue::Str(v.last_update_start.clone())));
            out.push(("lastUpdateDone".to_owned(), JsonValue::Str(v.last_update_done.clone())));
            out.push(
                ("lastUpdateDuration".to_owned(), JsonValue::Num(v.last_update_duration.clone())),
            );
            let r = JsonValue::Obj(out);
            proof {
                let got = r.deep_view()->Obj_0;
                let want = spec_status_json(s.deep_view())->Obj_0;
                assert(got.len() == 6);
                assert(want.len() == 6);
                assert forall|q: int| 0 <= q < 6 implies got[q] == want[q] by {
                    assert(got[q] == (out@[q].0@, json_view(out@[q].1)));
                    assert(json_view(out@[q].1) == want[q].1);
                }
                assert(got =~= want);
            }
            r
        },
        StatusResult::Error(e) => {
            let mut out: Vec<(String, JsonValue)> = Vec::new();
            out.push(("error".to_owned(), JsonValue::Str(e.clone())));
            let r = JsonValue::Obj(out);
            proof {
                let got = r.deep_view()->Obj_0;
                let want = spec_status_json(s.deep_view())->Obj_0;
                assert(got[0] == (out@[0].0@, json_view(out@[0].1)));
                assert(json_view(out@[0].1) == want[0].1);
                assert(got =~= want);
            }
            r
        },
    }
}

// ---------------------------------------------------------------------------
// The validity shape
// ---------------------------------------------------------------------------

/// One validated payload entry: origin, prefix and maximum length, all
/// carried as the upstream sent them.
pub struct Vrp {
    pub asn: String,
    pub prefix: String,
    pub max_length: String,
}

pub struct VrpV {
    pub asn: Seq<char>,
    pub prefix: Seq<char>,
    pub max_length: Seq<char>,
}

impl DeepView for Vrp {
    type V = VrpV;

    open spec fn deep_view(&self) -> VrpV {
        VrpV { asn: self.asn@, prefix: self.prefix@, max_length: self.max_length@ }
    }
}

/// The three payload lists that together decided a route's state.
pub struct Vrps {
    pub matched: Vec<Vrp>,
    pub unmatched_as: Vec<Vrp>,
    pub unmatched_length: Vec<Vrp>,
}

pub struct VrpsV {
    pub matched: Seq<VrpV>,
    pub unmatched_as: Seq<VrpV>,
    pub unmatched_length: Seq<VrpV>,
}

impl DeepView for Vrps {
    type V = VrpsV;

    open spec fn deep_view(&self) -> VrpsV {
        VrpsV {
            matched: self.matched.deep_view(),
            unmatched_as: self.unmatched_as.deep_view(),
            unmatched_length: self.unmatched_length.deep_view(),
        }
    }
}

/// A route's state and the payloads behind it.
pub struct Validity {
    pub state: String,
    pub description: String,
    pub vrps: Vrps,
}

pub struct ValidityV {
    pub state: Seq<char>,
    pub description: Seq<char>,
    pub vrps: VrpsV,
}

impl DeepView for Validity {
    type V = ValidityV;

    open spec fn deep_view(&self) -> ValidityV {
        ValidityV {
            state: self.state@,
            description: self.description@,
            vrps: self.vrps.deep_view(),
        }
    }
}

/// The route that was asked about.
pub struct Route {
    pub origin_asn: String,
    pub prefix: String,
}

pub struct RouteV {
    pub origin_asn: Seq<char>,
    pub prefix: Seq<char>,
}

impl DeepView for Route {
    type V = RouteV;

    open spec fn deep_view(&self) -> RouteV {
        RouteV { origin_asn: self.origin_asn@, prefix: self.prefix@ }
    }
}

/// A route together with its judged validity.
pub struct ValidatedRoute {
    pub route: Route,
    pub validity: Validity,
}

pub struct ValidatedRouteV {
    pub route: RouteV,
    pub validity: ValidityV,
}

impl DeepView for ValidatedRoute {
    type V = ValidatedRouteV;

    open spec fn deep_view(&self) -> ValidatedRouteV {
        ValidatedRouteV { route: self.route.deep_view(), validity: self.validity.deep_view() }
    }
}

/// The whole validity body: the validated route and the time it was
/// generated.
pub struct ValidityResult {
    pub validated_route: ValidatedRoute,
    pub generated_time: String,
}

pub struct ValidityResultV {
    pub validated_route: ValidatedRouteV,
    pub generated_time: Seq<char>,
}

impl DeepView for ValidityResult {
    type V = ValidityResultV;

    open spec fn deep_view(&self) -> ValidityResultV {
        ValidityResultV {
            validated_route: self.validated_route.deep_view(),
            generated_time: self.generated_time@,
        }
    }
}

/// One payload entry: three string fields.
pub open spec fn spec_decode_vrp(j: JsonV) -> Option<VrpV> {
    let asn = spec_field_str(j, "asn"@);
    let prefix = spec_field_str(j, "prefix"@);
    let maxl = spec_field_str(j, "max_length"@);
    if asn is Some && prefix is Some && maxl is Some {
        Some(VrpV { asn: asn->Some_0, prefix: prefix->Some_0, max_length: maxl->Some_0 })
    } else {
        None
    }
}

/// A payload list decodes element for element, in order; one bad element
/// fails the whole list.
pub open spec fn spec_decode_vrp_seq(elems: Seq<JsonV>) -> Option<Seq<VrpV>>
    decreases elems.len(),
{
    if elems.len() == 0 {
        Some(Seq::empty())
    } else {
        match (spec_decode_vrp_seq(elems.drop_last()), spec_decode_vrp(elems.last())) {
            (Some(init), Some(v)) => Some(init.push(v)),
            _ => None,
        }
    }
}

pub open spec fn spec_decode_vrp_list(j: JsonV) -> Option<Seq<VrpV>> {
    match j {
        JsonV::Arr(elems) => spec_decode_vrp_seq(elems),
        _ => None,
    }
}

proof fn lemma_vrp_seq_fail(elems: Seq<JsonV>, i: int)
    requires
        0 <= i < elems.len(),
        spec_decode_vrp(elems[i]) is None,
    ensures
        spec_decode_vrp_seq(elems) is None,
    decreases elems.len(),
{
    if i < elems.len() - 1 {
        lemma_vrp_seq_fail(elems.drop_last(), i);
    }
}

fn decode_vrp(j: &JsonValue) -> (r: Option<Vrp>)
    ensures
        r.deep_view() == spec_decode_vrp(j.deep_view()),
{
    let asn = field_str(j, "asn");
    let prefix = field_str(j, "prefix");
    let maxl = field_str(j, "max_length");
    if asn.is_some() && prefix.is_some() && maxl.is_some() {
        Some(
            Vrp {
                asn: asn.unwrap().clone(),
                prefix: prefix.unwrap().clone(),
                max_length: maxl.unwrap().clone(),
            },
        )
    } else {
        None
    }
}

fn decode_vrp_list(j: &JsonValue) -> (r: Option<Vec<Vrp>>)
    ensures
        r.deep_view() == spec_decode_vrp_list(j.deep_view()),
{
    let arr = match j.as_array() {
        Some(a) => a,
        None => {
            return None;
        },
    };
    let ghost elems = j.deep_view()->Arr_0;
    let n = arr.len();
    let mut out: Vec<Vrp> = Vec::new();
    let mut i: usize = 0;
    while i < n
        invariant
            0 <= i <= n,
            n == arr@.len(),
            elems.len() == arr@.len(),
            forall|q: int| 0 <= q < arr@.len() ==> elems[q] == #[trigger] arr@[q].deep_view(),
            j.deep_view() == JsonV::Arr(elems),
            out@.len() == i,
            spec_decode_vrp_seq(elems.take(i as int)) == Some(out.deep_view()),
        decreases n - i,
    {
        match decode_vrp(&arr[i]) {
            Some(v) => {
                out.push(v);
                proof {
                    assert(elems.take(i + 1).drop_last() =~= elems.take(i as int));
                    assert(elems.take(i + 1).last() == elems[i as int]);
                    assert(out.deep_view() =~= spec_decode_vrp_seq(elems.take(i as int))->Some_0.push(
                        out@[i as int].deep_view(),
                    ));
                }
            },
            None => {
                proof {
                    lemma_vrp_seq_fail(elems, i as int);
                }
                return None;
            },
        }
        i += 1;
    }
    proof {
        assert(elems.take(n as int) =~= elems);
    }
    Some(out)
}

/// The three named payload lists.
pub open spec fn spec_decode_vrps(j: JsonV) -> Option<VrpsV> {
    let m = spec_get(j, "matched"@);
    let ua = spec_get(j, "unmatched_as"@);
    let ul = spec_get(j, "unmatched_length"@);
    if m is Some && ua is Some && ul is Some {
        match (spec_decode_vrp_list(m->Some_0),
        spec_decode_vrp_list(ua->Some_0),
        spec_decode_vrp_list(ul->Some_0)) {
            (Some(a), Some(b), Some(c)) => Some(
                VrpsV { matched: a, unmatched_as: b, unmatched_length: c },
            ),
            _ => None,
        }
    } else {
        None
    }
}

fn decode_vrps(j: &JsonValue) -> (r: Option<Vrps>)
    ensures
        r.deep_view() == spec_decode_vrps(j.deep_view()),
{
    let m = match j.get("matched") {
        Some(v) => v,
        None => {
            return None;
        },
    };
    let ua = match j.get("unmatched_as") {
        Some(v) => v,
        None => {
            return None;
        },
    };
    let ul = match j.get("unmatched_length") {
        Some(v) => v,
        None => {
            return None;
        },
    };
    let a = decode_vrp_list(m);
    let b = decode_vrp_list(ua);
    let c = decode_vrp_list(ul);
    if a.is_some() && b.is_some() && c.is_some() {
        Some(Vrps { matched: a.unwrap(), unmatched_as: b.unwrap(), unmatched_length: c.unwrap() })
    } else {
        None
    }
}

/// The route record: two string fields.
pub open spec fn spec_decode_route(j: JsonV) -> Option<RouteV> {
    let asn = spec_field_str(j, "origin_asn"@);
    let prefix = spec_field_str(j, "prefix"@);
    if asn is Some && prefix is Some {
        Some(RouteV { origin_asn: asn->Some_0, prefix: prefix->Some_0 })
    } else {
        None
    }
}

fn decode_route(j: &JsonValue) -> (r: Option<Route>)
    ensures
        r.deep_view() == spec_decode_route(j.deep_view()),
{
    let asn = field_str(j, "origin_asn");
    let prefix = field_str(j, "prefix");
    if asn.is_some() && prefix.is_some() {
        Some(Route { origin_asn: asn.unwrap().clone(), prefix: prefix.unwrap().clone() })
    } else {
        None
    }
}

/// The validity record: state, description, and the payload lists under
/// their upstream name.
pub open spec fn spec_decode_validity(j: JsonV) -> Option<ValidityV> {
    let state = spec_field_str(j, "state"@);
    let descr = spec_field_str(j, "description"@);
    let vrps = spec_get(j, "VRPs"@);
    if state is Some && descr is Some && vrps is Some {
        match spec_decode_vrps(vrps->Some_0) {
            Some(v) => Some(
                ValidityV { state: state->Some_0, description: descr->Some_0, vrps: v },
            ),
            None => None,
        }
    } else {
        None
    }
}

fn decode_validity(j: &JsonValue) -> (r: Option<Validity>)
    ensures
        r.deep_view() == spec_decode_validity(j.deep_view()),
{
    let state = field_str(j, "state");
    let descr = field_str(j, "description");
    let vrps_j = j.get("VRPs");
    if state.is_some() && descr.is_some() && vrps_j.is_some() {
        match decode_vrps(vrps_j.unwrap()) {
            Some(v) => Some(
                Validity {
                    state: state.unwrap().clone(),
                    description: descr.unwrap().clone(),
                    vrps: v,
                },
            ),
            None => None,
        }
    } else {
        None
    }
}

/// The validated-route record: the route and its validity.
pub open spec fn spec_decode_validated_route(j: JsonV) -> Option<ValidatedRouteV> {
    let route = spec_get(j, "route"@);
    let validity = spec_get(j, "validity"@);
    if route is Some && validity is Some {
        match (spec_decode_route(route->Some_0), spec_decode_validity(validity->Some_0)) {
            (Some(r), Some(v)) => Some(ValidatedRouteV { route: r, validity: v }),
            _ => None,
        }
    } else {
        None
    }
}

fn decode_validated_route(j: &JsonValue) -> (r: Option<ValidatedRoute>)
    ensures
        r.deep_view() == spec_decode_validated_route(j.deep_view()),
{
    let route_j = j.get("route");
    let validity_j = j.get("validity");
    if route_j.is_some() && validity_j.is_some() {
        let route = decode_route(route_j.unwrap());
        let validity = decode_validity(validity_j.unwrap());
        if route.is_some() && validity.is_some() {
            Some(ValidatedRoute { route: route.unwrap(), validity: validity.unwrap() })
        } else {
            None
        }
    } else {
        None
    }
}

/// The whole validity body.
pub open spec fn spec_decode_validity_result(j: JsonV) -> Option<ValidityResultV> {
    let vr = spec_get(j, "validated_route"@);
    let time = spec_field_str(j, "generatedTime"@);
    if vr is Some && time is Some {
        match spec_decode_validated_route(vr->Some_0) {
            Some(r) => Some(ValidityResultV { validated_route: r, generated_time: time->Some_0 }),
            None => None,
        }
    } else {
        None
    }
}

/// Brings a validity body into its typed shape, or nothing where a field
/// is missing or of the wrong kind.
pub fn decode_validity_result(j: &JsonValue) -> (r: Option<ValidityResult>)
    ensures
        r.deep_view() == spec_decode_validity_result(j.deep_view()),
{
    let vr_j = j.get("validated_route");
    let time = field_str(j, "generatedTime");
    if vr_j.is_some() && time.is_some() {
        match decode_validated_route(vr_j.unwrap()) {
            Some(r) => Some(
                ValidityResult { validated_route: r, generated_time: time.unwrap().clone() },
            ),
            None => None,
        }
    } else {
        None
    }
}

/// One payload entry under its documented field names.
pub open spec fn spec_vrp_json(v: VrpV) -> JsonV {
    JsonV::Obj(
        seq![
            ("asn"@, JsonV::Str(v.asn)),
            ("prefix"@, JsonV::Str(v.prefix)),
            ("maxLength"@, JsonV::Str(v.max_length)),
        ],
    )
}

pub open spec fn spec_vrp_list_json(l: Seq<VrpV>) -> JsonV {
    JsonV::Arr(l.map_values(|v: VrpV| spec_vrp_json(v)))
}

fn vrp_to_json(v: &Vrp) -> (r: JsonValue)
    ensures
        r.deep_view() == spec_vrp_json(v.deep_view()),
{
    let mut out: Vec<(String, JsonValue)> = Vec::new();
    out.push(("asn".to_owned(), JsonValue::Str(v.asn.clone())));
    out.push(("prefix".to_owned(), JsonValue::Str(v.prefix.clone())));
    out.push(("maxLength".to_owned(), JsonValue::Str(v.max_length.clone())));
    let r = JsonValue::Obj(out);
    proof {
        let got = r.deep_view()->Obj_0;
        let want = spec_vrp_json(v.deep_view())->Obj_0;
        assert forall|q: int| 0 <= q < 3 implies got[q] == want[q] by {
            assert(got[q] == (out@[q].0@, json_view(out@[q].1)));
            assert(json_view(out@[q].1) == want[q].1);
        }
        assert(got =~= want);
    }
    r
}

fn vrp_list_to_json(l: &Vec<Vrp>) -> (r: JsonValue)
    ensures
        r.deep_view() == spec_vrp_list_json(l.deep_view()),
{
    let n = l.len();
    let mut out: Vec<JsonValue> = Vec::new();
    let mut i: usize = 0;
    while i < n
        invariant
            0 <= i <= n,
            n == l@.len(),
            out@.len() == i,
            forall|q: int|
                0 <= q < i ==> (#[trigger] out@[q]).deep_view() == spec_vrp_json(
                    l@[q].deep_view(),
                ),
        decreases n - i,
    {
        out.push(vrp_to_json(&l[i]));
        i += 1;
    }
    let r = JsonValue::Arr(out);
    proof {
        let got = r.deep_view()->Arr_0;
        let want = spec_vrp_list_json(l.deep_view())->Arr_0;
        assert(want.len() == n);
        assert forall|q: int| 0 <= q < n implies got[q] == want[q] by {
            assert(got[q] == json_view(out@[q]));
            assert(l.deep_view()[q] == l@[q].deep_view());
            assert(want[q] == spec_vrp_json(l.deep_view()[q]));
        }
        assert(got =~= want);
    }
    r
}

/// The three payload lists under their documented names.
pub open spec fn spec_vrps_json(v: VrpsV) -> JsonV {
    JsonV::Obj(
        seq![
            ("matched"@, spec_vrp_list_json(v.matched)),
            ("unmatchedAs"@, spec_vrp_list_json(v.unmatched_as)),
            ("unmatchedLength"@, spec_vrp_list_json(v.unmatched_length)),
        ],
    )
}

fn vrps_to_json(v: &Vrps) -> (r: JsonValue)
    ensures
        r.deep_view() == spec_vrps_json(v.deep_view()),
{
    let mut out: Vec<(String, JsonValue)> = Vec::new();
    out.push(("matched".to_owned(), vrp_list_to_json(&v.matched)));
    out.push(("unmatchedAs".to_owned(), vrp_list_to_json(&v.unmatched_as)));
    out.push(("unmatchedLength".to_owned(), vrp_list_to_json(&v.unmatched_length)));
    let r = JsonValue::Obj(out);
    proof {
        let got = r.deep_view()->Obj_0;
        let want = spec_vrps_json(v.deep_view())->Obj_0;
        assert forall|q: int| 0 <= q < 3 implies got[q] == want[q] by {
            assert(got[q] == (out@[q].0@, json_view(out@[q].1)));
            assert(json_view(out@[q].1) == want[q].1);
        }
        assert(got =~= want);
    }
    r
}

/// The route under its documented names.
pub open spec fn spec_route_json(v: RouteV) -> JsonV {
    JsonV::Obj(
        seq![("originAsn"@, JsonV::Str(v.origin_asn)), ("prefix"@, JsonV::Str(v.prefix))],
    )
}

fn route_to_json(v: &Route) -> (r: JsonValue)
    ensures
        r.deep_view() == spec_route_json(v.deep_view()),
{
    let mut out: Vec<(String, JsonValue)> = Vec::new();
    out.push(("originAsn".to_owned(), JsonValue::Str(v.origin_asn.clone())));
    out.push(("prefix".to_owned(), JsonValue::Str(v.prefix.clone())));
    let r = JsonValue::Obj(out);
    proof {
        let got = r.deep_view()->Obj_0;
        let want = spec_route_json(v.deep_view())->Obj_0;
        assert forall|q: int| 0 <= q < 2 implies got[q] == want[q] by {
            assert(got[q] == (out@[q].0@, json_view(out@[q].1)));
            assert(json_view(out@[q].1) == want[q].1);
        }
        assert(got =~= want);
    }
    r
}

/// The validity record under its documented names.
pub open spec fn spec_validity_json(v: ValidityV) -> JsonV {
    JsonV::Obj(
        seq![
            ("state"@, JsonV::Str(v.state)),
            ("description"@, JsonV::Str(v.description)),
            ("vrps"@, spec_vrps_json(v.vrps)),
        ],
    )
}

fn validity_to_json(v: &Validity) -> (r: JsonValue)
    ensures
        r.deep_view() == spec_validity_json(v.deep_view()),
{
    let mut out: Vec<(String, JsonValue)> = Vec::new();
    out.push(("state".to_owned(), JsonValue::Str(v.state.clone())));
    out.push(("description".to_owned(), JsonValue::Str(v.description.clone())));
    out.push(("vrps".to_owned(), vrps_to_json(&v.vrps)));
    let r = JsonValue::Obj(out);
    proof {
        let got = r.deep_view()->Obj_0;
        let want = spec_validity_json(v.deep_view())->Obj_0;
        assert forall|q: int| 0 <= q < 3 implies got[q] == want[q] by {
            assert(got[q] == (out@[q].0@, json_view(out@[q].1)));
            assert(json_view(out@[q].1) == want[q].1);
        }
        assert(got =~= want);
    }
    r
}

/// The normalized validity payload, in its documented shape: the route
/// and the validity records at the top level beside the generation time,
/// every value carried over unchanged and list order kept. The upstream's
/// extra nesting level is dropped here.
pub open spec fn spec_validity_result_json(v: ValidityResultV) -> JsonV {
    JsonV::Obj(
        seq![
            ("route"@, spec_route_json(v.validated_route.route)),
            ("validity"@, spec_validity_json(v.validated_route.validity)),
            ("generatedTime"@, JsonV::Str(v.generated_time)),
        ],
    )
}

/// Builds the normalized validity payload.
pub fn validity_result_to_json(v: &ValidityResult) -> (r: JsonValue)
    ensures
        r.deep_view() == spec_validity_result_json(v.deep_view()),
{
    let mut out: Vec<(String, JsonValue)> = Vec::new();
    out.push(("route".to_owned(), route_to_json(&v.validated_route.route)));
    out.push(("validity".to_owned(), validity_to_json(&v.validated_route.validity)));
    out.push(("generatedTime".to_owned(), JsonValue::Str(v.generated_time.clone())));
    let r = JsonValue::Obj(out);
    proof {
        let got = r.deep_view()->Obj_0;
        let want = spec_validity_result_json(v.deep_view())->Obj_0;
        assert forall|q: int| 0 <= q < 3 implies got[q] == want[q] by {
            assert(got[q] == (out@[q].0@, json_view(out@[q].1)));
            assert(json_view(out@[q].1) == want[q].1);
        }
        assert(got =~= want);
    }
    r
}

// ---------------------------------------------------------------------------
// The ROA-set shape
// ---------------------------------------------------------------------------

/// One fetched authorization: origin, prefix, maximum length and trust
/// anchor.
pub struct FetchedRoa {
    pub asn: String,
    pub prefix: String,
    pub max_length: i64,
    pub ta: String,
}

pub struct FetchedRoaV {
    pub asn: Seq<char>,
    pub prefix: Seq<char>,
    pub max_length: i64,
    pub ta: Seq<char>,
}

impl DeepView for FetchedRoa {
    type V = FetchedRoaV;

    open spec fn deep_view(&self) -> FetchedRoaV {
        FetchedRoaV {
            asn: self.asn@,
            prefix: self.prefix@,
            max_length: self.max_length,
            ta: self.ta@,
        }
    }
}

/// When the set was generated.
pub struct RoaMetadata {
    pub generated: i64,
    pub generated_time: String,
}

pub struct RoaMetadataV {
    pub generated: i64,
    pub generated_time: Seq<char>,
}

impl DeepView for RoaMetadata {
    type V = RoaMetadataV;

    open spec fn deep_view(&self) -> RoaMetadataV {
        RoaMetadataV { generated: self.generated, generated_time: self.generated_time@ }
    }
}

/// The whole ROA-set body: metadata and the authorizations, in upstream
/// order.
pub struct FetchedRoas {
    pub metadata: RoaMetadata,
    pub roas: Vec<FetchedRoa>,
}

pub struct FetchedRoasV {
    pub metadata: RoaMetadataV,
    pub roas: Seq<FetchedRoaV>,
}

impl DeepView for FetchedRoas {
    type V = FetchedRoasV;

    open spec fn deep_view(&self) -> FetchedRoasV {
        FetchedRoasV { metadata: self.metadata.deep_view(), roas: self.roas.deep_view() }
    }
}

/// One fetched authorization: three string fields and a signed number.
pub open spec fn spec_decode_roa(j: JsonV) -> Option<FetchedRoaV> {
    let asn = spec_field_str(j, "asn"@);
    let prefix = spec_field_str(j, "prefix"@);
    let maxl = spec_field_num(j, "maxLength"@);
    let ta = spec_field_str(j, "ta"@);
    if asn is Some && prefix is Some && maxl is Some && spec_parse_i64(maxl->Some_0) is Some
        && ta is Some {
        Some(
            FetchedRoaV {
                asn: asn->Some_0,
                prefix: prefix->Some_0,
                max_length: spec_parse_i64(maxl->Some_0)->Some_0 as i64,
                ta: ta->Some_0,
            },
        )
    } else {
        None
    }
}

pub open spec fn spec_decode_roa_seq(elems: Seq<JsonV>) -> Option<Seq<FetchedRoaV>>
    decreases elems.len(),
{
    if elems.len() == 0 {
        Some(Seq::empty())
    } else {
        match (spec_decode_roa_seq(elems.drop_last()), spec_decode_roa(elems.last())) {
            (Some(init), Some(v)) => Some(init.push(v)),
            _ => None,
        }
    }
}

pub open spec fn spec_decode_roa_list(j: JsonV) -> Option<Seq<FetchedRoaV>> {
    match j {
        JsonV::Arr(elems) => spec_decode_roa_seq(elems),
        _ => None,
    }
}

proof fn lemma_roa_seq_fail(elems: Seq<JsonV>, i: int)
    requires
        0 <= i < elems.len(),
        spec_decode_roa(elems[i]) is None,
    ensures
        spec_decode_roa_seq(elems) is None,
    decreases elems.len(),
{
    if i < elems.len() - 1 {
        lemma_roa_seq_fail(elems.drop_last(), i);
    }
}

fn decode_roa(j: &JsonValue) -> (r: Option<FetchedRoa>)
    ensures
        r.deep_view() == spec_decode_roa(j.deep_view()),
{
    let asn = field_str(j, "asn");
    let prefix = field_str(j, "prefix");
    let maxl = field_num(j, "maxLength");
    let ta = field_str(j, "ta");
    if asn.is_some() && prefix.is_some() && maxl.is_some() && ta.is_some() {
        if let Some(v) = parse_i64(maxl.unwrap().as_str()) {
            return Some(
                FetchedRoa {
                    asn: asn.unwrap().clone(),
                    prefix: prefix.unwrap().clone(),
                    max_length: v,
                    ta: ta.unwrap().clone(),
                },
            );
        }
    }
    None
}

fn decode_roa_list(j: &JsonValue) -> (r: Option<Vec<FetchedRoa>>)
    ensures
        r.deep_view() == spec_decode_roa_list(j.deep_view()),
{
    let arr = match j.as_array() {
        Some(a) => a,
        None => {
            return None;
        },
    };
    let ghost elems = j.deep_view()->Arr_0;
    let n = arr.len();
    let mut out: Vec<FetchedRoa> = Vec::new();
    let mut i: usize = 0;
    while i < n
        invariant
            0 <= i <= n,
            n == arr@.len(),
            elems.len() == arr@.len(),
            forall|q: int| 0 <= q < arr@.len() ==> elems[q] == #[trigger] arr@[q].deep_view(),
            j.deep_view() == JsonV::Arr(elems),
            out@.len() == i,
            spec_decode_roa_seq(elems.take(i as int)) == Some(out.deep_view()),
        decreases n - i,
    {
        match decode_roa(&arr[i]) {
            Some(v) => {
                out.push(v);
                proof {
                    assert(elems.take(i + 1).drop_last() =~= elems.take(i as int));
                    assert(elems.take(i + 1).last() == elems[i as int]);
                    assert(out.deep_view() =~= spec_decode_roa_seq(elems.take(i as int))->Some_0.push(
                        out@[i as int].deep_view(),
                    ));
                }
            },
            None => {
                proof {
                    lemma_roa_seq_fail(elems, i as int);
                }
                return None;
            },
        }
        i += 1;
    }
    proof {
        assert(elems.take(n as int) =~= elems);
    }
    Some(out)
}

/// The metadata record: a signed number and a string.
pub open spec fn spec_decode_metadata(j: JsonV) -> Option<RoaMetadataV> {
    let gen = spec_field_num(j, "generated"@);
    let time = spec_field_str(j, "generatedTime"@);
    if gen is Some && spec_parse_i64(gen->Some_0) is Some && time is Some {
        Some(
            RoaMetadataV {
                generated: spec_parse_i64(gen->Some_0)->Some_0 as i64,
                generated_time: time->Some_0,
            },
        )
    } else {
        None
    }
}

fn decode_metadata(j: &JsonValue) -> (r: Option<RoaMetadata>)
    ensures
        r.deep_view() == spec_decode_metadata(j.deep_view()),
{
    let gen = field_num(j, "generated");
    let time = field_str(j, "generatedTime");
    if gen.is_some() && time.is_some() {
        if let Some(v) = parse_i64(gen.unwrap().as_str()) {
            return Some(RoaMetadata { generated: v, generated_time: time.unwrap().clone() });
        }
    }
    None
}

/// The whole ROA-set body.
pub open spec fn spec_decode_fetched_roas(j: JsonV) -> Option<FetchedRoasV> {
    let meta = spec_get(j, "metadata"@);
    let roas = spec_get(j, "roas"@);
    if meta is Some && roas is Some {
        match (spec_decode_metadata(meta->Some_0), spec_decode_roa_list(roas->Some_0)) {
            (Some(m), Some(l)) => Some(FetchedRoasV { metadata: m, roas: l }),
            _ => None,
        }
    } else {
        None
    }
}

/// Brings a ROA-set body into its typed shape, or nothing where a field is
/// missing or of the wrong kind.
pub fn decode_fetched_roas(j: &JsonValue) -> (r: Option<FetchedRoas>)
    ensures
        r.deep_view() == spec_decode_fetched_roas(j.deep_view()),
{
    let meta_j = j.get("metadata");
    let roas_j = j.get("roas");
    if meta_j.is_some() && roas_j.is_some() {
        let meta = decode_metadata(meta_j.unwrap());
        let roas = decode_roa_list(roas_j.unwrap());
        if meta.is_some() && roas.is_some() {
            Some(FetchedRoas { metadata: meta.unwrap(), roas: roas.unwrap() })
        } else {
            None
        }
    } else {
        None
    }
}

/// One authorization under its documented names — the upstream's `ta`
/// comes out as `trustAnchor` — with the maximum length rendered back in
/// decimal.
pub open spec fn spec_roa_json(v: FetchedRoaV) -> JsonV {
    JsonV::Obj(
        seq![
            ("asn"@, JsonV::Str(v.asn)),
            ("prefix"@, JsonV::Str(v.prefix)),
            ("maxLength"@, JsonV::Num(spec_dec_int(v.max_length as int))),
            ("trustAnchor"@, JsonV::Str(v.ta)),
        ],
    )
}

pub open spec fn spec_roa_list_json(l: Seq<FetchedRoaV>) -> JsonV {
    JsonV::Arr(l.map_values(|v: FetchedRoaV| spec_roa_json(v)))
}

fn roa_to_json(v: &FetchedRoa) -> (r: JsonValue)
    ensures
        r.deep_view() == spec_roa_json(v.deep_view()),
{
    let mut out: Vec<(String, JsonValue)> = Vec::new();
    out.push(("asn".to_owned(), JsonValue::Str(v.asn.clone())));
    out.push(("prefix".to_owned(), JsonValue::Str(v.prefix.clone())));
    out.push(("maxLength".to_owned(), JsonValue::Num(render_i64(v.max_length))));
    out.push(("trustAnchor".to_owned(), JsonValue::Str(v.ta.clone())));
    let r = JsonValue::Obj(out);
    proof {
        let got = r.deep_view()->Obj_0;
        let want = spec_roa_json(v.deep_view())->Obj_0;
        assert forall|q: int| 0 <= q < 4 implies got[q] == want[q] by {
            assert(got[q] == (out@[q].0@, json_view(out@[q].1)));
            assert(json_view(out@[q].1) == want[q].1);
        }
        assert(got =~= want);
    }
    r
}

fn roa_list_to_json(l: &Vec<FetchedRoa>) -> (r: JsonValue)
    ensures
        r.deep_view() == spec_roa_list_json(l.deep_view()),
{
    let n = l.len();
    let mut out: Vec<JsonValue> = Vec::new();
    let mut i: usize = 0;
    while i < n
        invariant
            0 <= i <= n,
            n == l@.len(),
            out@.len() == i,
            forall|q: int|
                0 <= q < i ==> (#[trigger] out@[q]).deep_view() == spec_roa_json(
                    l@[q].deep_view(),
                ),
        decreases n - i,
    {
        out.push(roa_to_json(&l[i]));
        i += 1;
    }
    let r = JsonValue::Arr(out);
    proof {
        let got = r.deep_view()->Arr_0;
        let want = spec_roa_list_json(l.deep_view())->Arr_0;
        assert(want.len() == n);
        assert forall|q: int| 0 <= q < n implies got[q] == want[q] by {
            assert(got[q] == json_view(out@[q]));
            assert(l.deep_view()[q] == l@[q].deep_view());
            assert(want[q] == spec_roa_json(l.deep_view()[q]));
        }
        assert(got =~= want);
    }
    r
}

/// The metadata under its stable names.
pub open spec fn spec_metadata_json(v: RoaMetadataV) -> JsonV {
    JsonV::Obj(
        seq![
            ("generated"@, JsonV::Num(spec_dec_int(v.generated as int))),
            ("generatedTime"@, JsonV::Str(v.generated_time)),
        ],
    )
}

fn metadata_to_json(v: &RoaMetadata) -> (r: JsonValue)
    ensures
        r.deep_view() == spec_metadata_json(v.deep_view()),
{
    let mut out: Vec<(String, JsonValue)> = Vec::new();
    out.push(("generated".to_owned(), JsonValue::Num(render_i64(v.generated))));
    out.push(("generatedTime".to_owned(), JsonValue::Str(v.generated_time.clone())));
    let r = JsonValue::Obj(out);
    proof {
        let got = r.deep_view()->Obj_0;
        let want = spec_metadata_json(v.deep_view())->Obj_0;
        assert forall|q: int| 0 <= q < 2 implies got[q] == want[q] by {
            assert(got[q] == (out@[q].0@, json_view(out@[q].1)));
            assert(json_view(out@[q].1) == want[q].1);
        }
        assert(got =~= want);
    }
    r
}

/// The normalized ROA-set payload: metadata and the authorizations under
/// their stable names, list order kept.
pub open spec fn spec_fetched_roas_json(v: FetchedRoasV) -> JsonV {
    JsonV::Obj(
        seq![
            ("metadata"@, spec_metadata_json(v.metadata)),
            ("roas"@, spec_roa_list_json(v.roas)),
        ],
    )
}

/// Builds the normalized ROA-set payload.
pub fn fetched_roas_to_json(v: &FetchedRoas) -> (r: JsonValue)
    ensures
        r.deep_view() == spec_fetched_roas_json(v.deep_view()),
{
    let mut out: Vec<(String, JsonValue)> = Vec::new();
    out.push(("metadata".to_owned(), metadata_to_json(&v.metadata)));
    out.push(("roas".to_owned(), roa_list_to_json(&v.roas)));
    let r = JsonValue::Obj(out);
    proof {
        let got = r.deep_view()->Obj_0;
        let want = spec_fetched_roas_json(v.deep_view())->Obj_0;
        assert forall|q: int| 0 <= q < 2 implies got[q] == want[q] by {
            assert(got[q] == (out@[q].0@, json_view(out@[q].1)));
            assert(json_view(out@[q].1) == want[q].1);
        }
        assert(got =~= want);
    }
    r
}

} // verus!
