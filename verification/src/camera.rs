//! Decisions of the camera-facing edge, parted from the vendor SDK calls.
//!
//! The vendor SDK itself (device enumeration, parameter get and set) is an
//! external collaborator and stays at the process edge; what is verified
//! here is everything that edge decides: how an SDK outcome is judged and
//! reported, which parameters a configuration asks the camera to set and
//! in what order, and how a parameter-definition table is turned into the
//! list of queries to run.

use vstd::prelude::*;

use vstd::string::StringExecFns;

verus! {

/// An enumerated camera parameter: its current value and the values the
/// device supports.
#[derive(Debug)]
pub struct EnumStringList {
    pub current: String,
    pub supported: Vec<String>,
}

/// A string camera parameter: its current value and its maximum length.
#[derive(Debug, Clone)]
pub struct StringParamInfo {
    pub current: String,
    pub max_length: i64,
}

/// What a vendor-SDK call reports: a result code, zero meaning success,
/// and whether a nonzero code came from the third-party SDK itself or
/// from the camera API around it.
#[derive(Debug, Clone, Copy, PartialEq, Eq, Structural)]
pub struct APIError {
    pub code: u32,
    pub is_thirdparty_err: u8,
}

/// The uppercase hexadecimal digit for a value below sixteen.
pub open spec fn hex_digit(d: int) -> char
    recommends
        0 <= d < 16,
{
    if d == 0 {
        '0'
    } else if d == 1 {
        '1'
    } else if d == 2 {
        '2'
    } else if d == 3 {
        '3'
    } else if d == 4 {
        '4'
    } else if d == 5 {
        '5'
    } else if d == 6 {
        '6'
    } else if d == 7 {
        '7'
    } else if d == 8 {
        '8'
    } else if d == 9 {
        '9'
    } else if d == 10 {
        'A'
    } else if d == 11 {
        'B'
    } else if d == 12 {
        'C'
    } else if d == 13 {
        'D'
    } else if d == 14 {
        'E'
    } else {
        'F'
    }
}

/// The uppercase hexadecimal rendering of a number, most significant
/// digit first, with no leading zeroes and a single digit for zero.
pub open spec fn spec_hex(n: nat) -> Seq<char>
    decreases n,
{
    if n < 16 {
        seq![hex_digit(n as int)]
    } else {
        spec_hex(n / 16) + seq![hex_digit((n % 16) as int)]
    }
}

/// The one-character string for a hexadecimal digit.
fn digit_str(d: u32) -> (r: &'static str)
    requires
        d < 16,
    ensures
        r@ == seq![hex_digit(d as int)],
{
    proof {
        reveal_strlit("0");
        reveal_strlit("1");
        reveal_strlit("2");
        reveal_strlit("3");
        reveal_strlit("4");
        reveal_strlit("5");
        reveal_strlit("6");
        reveal_strlit("7");
        reveal_strlit("8");
        reveal_strlit("9");
        reveal_strlit("A");
        reveal_strlit("B");
        reveal_strlit("C");
        reveal_strlit("D");
        reveal_strlit("E");
        reveal_strlit("F");
    }
    if d == 0 {
        "0"
    } else if d == 1 {
        "1"
    } else if d == 2 {
        "2"
    } else if d == 3 {
        "3"
    } else if d == 4 {
        "4"
    } else if d == 5 {
        "5"
    } else if d == 6 {
        "6"
    } else if d == 7 {
        "7"
    } else if d == 8 {
        "8"
    } else if d == 9 {
        "9"
    } else if d == 10 {
        "A"
    } else if d == 11 {
        "B"
    } else if d == 12 {
        "C"
    } else if d == 13 {
        "D"
    } else if d == 14 {
        "E"
    } else {
        "F"
    }
}

/// Append the uppercase hexadecimal rendering of `n`.
fn push_hex(n: u32, out: &mut String)
    ensures
        final(out)@ == old(out)@ + spec_hex(n as nat),
    decreases n,
{
    if n < 16 {
        out.append(digit_str(n));
        proof {
            assert(final(out)@ =~= old(out)@ + spec_hex(n as nat));
        }
    } else {
        push_hex(n / 16, out);
        out.append(digit_str(n % 16));
        proof {
            assert(final(out)@ =~= old(out)@ + spec_hex(n as nat));
        }
    }
}

/// The diagnostic line for a failed vendor-SDK call: its source and its
/// code in uppercase hexadecimal.
pub open spec fn spec_stringify_err(ret: APIError) -> Seq<char> {
    "错误来源："@ + (if ret.is_thirdparty_err == 1 {
        "`第三方相机SDK`"@
    } else {
        "`相机API`"@
    }) + "， 错误码："@ + spec_hex(ret.code as nat)
}

/// Render the diagnostic line for a vendor-SDK outcome.
pub fn stringify_err(ret: APIError) -> (r: String)
    ensures
        r@ == spec_stringify_err(ret),
{
    let mut s = String::new();
    s.append("错误来源：");
    if ret.is_thirdparty_err == 1 {
        s.append("`第三方相机SDK`");
    } else {
        s.append("`相机API`");
    }
    s.append("， 错误码：");
    push_hex(ret.code, &mut s);
    proof {
        assert(s@ =~= spec_stringify_err(ret));
    }
    s
}

/// The uniform judgement applied after every vendor-SDK call: code zero is
/// success; anything else fails with the caller's description, a
/// separator, and the diagnostic line.
pub fn api_check(ret: APIError, what: &str) -> (r: Result<(), String>)
    ensures
        r is Ok <==> ret.code == 0,
        r matches Err(m) ==> m@ == what@ + "；"@ + spec_stringify_err(ret),
{
    if ret.code == 0 {
        Ok(())
    } else {
        let mut m = what.to_owned();
        m.append("；");
        let tail = stringify_err(ret);
        m.append(tail.as_str());
        proof {
            assert(m@ =~= what@ + "；"@ + spec_stringify_err(ret));
        }
        Err(m)
    }
}

/// The validation applied to device enumeration: the call must succeed,
/// at least one device must exist, and the count must match what the
/// configuration expects — judged in that order.
pub fn check_enumeration(ret: APIError, found: u32, expected: u32) -> (r: Result<(), String>)
    ensures
        r is Ok <==> (ret.code == 0 && found != 0 && found == expected),
        ret.code != 0 ==> (r matches Err(m) && m@ == "枚举设备失败；"@ + spec_stringify_err(ret)),
        ret.code == 0 && found == 0 ==> (r matches Err(m) && m@ == "未发现设备"@),
        ret.code == 0 && found != 0 && found != expected ==> (r matches Err(m) && m@
            == "发现设备数量与配置不符"@),
{
    if ret.code != 0 {
        let mut m = "枚举设备失败；".to_owned();
        let tail = stringify_err(ret);
        m.append(tail.as_str());
        proof {
            assert(m@ =~= "枚举设备失败；"@ + spec_stringify_err(ret));
        }
        Err(m)
    } else if found == 0 {
        Err("未发现设备".to_owned())
    } else if found != expected {
        Err("发现设备数量与配置不符".to_owned())
    } else {
        Ok(())
    }
}

/// A camera parameter the configuration plan can ask the edge to set.
#[derive(Debug, Clone, Copy, PartialEq, Eq, Structural)]
pub enum ParamName {
    ExposureAuto,
    ExposureTime,
    GainAuto,
    Gain,
    Width,
    Height,
}

/// The vendor SDK's identifier for a parameter.
pub open spec fn spec_sdk_name(p: ParamName) -> Seq<char> {
    match p {
        ParamName::ExposureAuto => "ExposureAuto"@,
        ParamName::ExposureTime => "ExposureTime"@,
        ParamName::GainAuto => "GainAuto"@,
        ParamName::Gain => "Gain"@,
        ParamName::Width => "Width"@,
        ParamName::Height => "Height"@,
    }
}

impl ParamName {
    /// The vendor SDK's identifier for this parameter.
    pub fn sdk_name(&self) -> (r: &'static str)
        ensures
            r@ == spec_sdk_name(*self),
    {
        match self {
            ParamName::ExposureAuto => "ExposureAuto",
            ParamName::ExposureTime => "ExposureTime",
            ParamName::GainAuto => "GainAuto",
            ParamName::Gain => "Gain",
            ParamName::Width => "Width",
            ParamName::Height => "Height",
        }
    }
}

/// One SDK call the configuration plan asks for. A fractional parameter's
/// value is carried in thousandths of the parameter's unit; the edge
/// converts at the call itself.
#[derive(Debug, Clone, Copy, PartialEq, Eq, Structural)]
pub enum ParamRequest {
    /// Set an enumerated parameter to this numeric choice.
    SetEnum { name: ParamName, choice: u32 },
    /// Set a fractional parameter to this many thousandths of its unit.
    SetMilli { name: ParamName, milli: u64 },
    /// Set an integer parameter to this value.
    SetInt { name: ParamName, value: u32 },
}

/// The camera settings the configuration holds for the core: automatic
/// modes as booleans, exposure in whole microseconds, gain in thousandths
/// of a decibel, and the image size in pixels.
#[derive(Debug, Clone, Copy, PartialEq, Eq, Structural)]
pub struct CameraSettings {
    pub exposure_auto: bool,
    pub gain_auto: bool,
    pub exposure_time_us: u32,
    pub gain_milli_db: u32,
    pub width: u32,
    pub height: u32,
}

/// The calls configuring one camera asks for, in order: the exposure mode
/// (continuous automatic or off), the exposure time only when not
/// automatic, the gain mode, the gain only when not automatic, then the
/// image width and height.
pub open spec fn spec_camera_plan(cfg: CameraSettings) -> Seq<ParamRequest> {
    seq![
        ParamRequest::SetEnum {
            name: ParamName::ExposureAuto,
            choice: if cfg.exposure_auto {
                2u32
            } else {
                0u32
            },
        },
    ] + (if cfg.exposure_auto {
        Seq::<ParamRequest>::empty()
    } else {
        seq![
            ParamRequest::SetMilli {
                name: ParamName::ExposureTime,
                milli: (cfg.exposure_time_us * 1000) as u64,
            },
        ]
    }) + seq![
        ParamRequest::SetEnum {
            name: ParamName::GainAuto,
            choice: if cfg.gain_auto {
                2u32
            } else {
                0u32
            },
        },
    ] + (if cfg.gain_auto {
        Seq::<ParamRequest>::empty()
    } else {
        seq![ParamRequest::SetMilli { name: ParamName::Gain, milli: cfg.gain_milli_db as u64 }]
    }) + seq![
        ParamRequest::SetInt { name: ParamName::Width, value: cfg.width },
        ParamRequest::SetInt { name: ParamName::Height, value: cfg.height },
    ]
}

/// Compute the configuration plan for one camera.
pub fn camera_plan(cfg: &CameraSettings) -> (r: Vec<ParamRequest>)
    ensures
        r@ == spec_camera_plan(*cfg),
{
    let mut plan: Vec<ParamRequest> = Vec::new();
    plan.push(
        ParamRequest::SetEnum {
            name: ParamName::ExposureAuto,
            choice: if cfg.exposure_auto {
                2
            } else {
                0
            },
        },
    );
    if !cfg.exposure_auto {
        let milli: u64 = (cfg.exposure_time_us as u64) * 1000;
        plan.push(ParamRequest::SetMilli { name: ParamName::ExposureTime, milli });
    }
    plan.push(
        ParamRequest::SetEnum {
            name: ParamName::GainAuto,
            choice: if cfg.gain_auto {
                2
            } else {
                0
            },
        },
    );
    if !cfg.gain_auto {
        plan.push(ParamRequest::SetMilli { name: ParamName::Gain, milli: cfg.gain_milli_db as u64 });
    }
    plan.push(ParamRequest::SetInt { name: ParamName::Width, value: cfg.width });
    plan.push(ParamRequest::SetInt { name: ParamName::Height, value: cfg.height });
    proof {
        assert(plan@ =~= spec_camera_plan(*cfg));
    }
    plan
}

/// One entry of a parameter-definition table: the display key, the SDK
/// identifier to query, and the declared type.
#[derive(Debug, Clone)]
pub struct Parameter {
    pub key: String,
    pub param_ref: String,
    pub param_type: String,
}

/// One group of a parameter-definition table.
#[derive(Debug, Clone)]
pub struct Group {
    pub group_name: String,
    pub parameters: Vec<Parameter>,
}

/// The type a parameter-definition entry declares.
#[derive(Debug, Clone, Copy, PartialEq, Eq, Structural)]
pub enum ParamKind {
    Integer,
    Float,
    Enumerated,
    Boolean,
    Text,
}

/// Which declared type a definition entry's type string names, if any.
pub open spec fn spec_parse_param_kind(s: Seq<char>) -> Option<ParamKind> {
    if s == "integer"@ {
        Some(ParamKind::Integer)
    } else if s == "float"@ {
        Some(ParamKind::Float)
    } else if s == "enum"@ {
        Some(ParamKind::Enumerated)
    } else if s == "bool"@ {
        Some(ParamKind::Boolean)
    } else if s == "string"@ {
        Some(ParamKind::Text)
    } else {
        None
    }
}

/// Parse a definition entry's type string.
pub fn parse_param_kind(s: &String) -> (r: Option<ParamKind>)
    ensures
        r == spec_parse_param_kind(s@),
{
    if *s == "integer".to_owned() {
        Some(ParamKind::Integer)
    } else if *s == "float".to_owned() {
        Some(ParamKind::Float)
    } else if *s == "enum".to_owned() {
        Some(ParamKind::Enumerated)
    } else if *s == "bool".to_owned() {
        Some(ParamKind::Boolean)
    } else if *s == "string".to_owned() {
        Some(ParamKind::Text)
    } else {
        None
    }
}

/// One query the edge should run against a camera: which SDK identifier
/// to ask for, and as which type.
#[derive(Debug, Clone)]
pub struct ParamQuery {
    pub name: String,
    pub kind: ParamKind,
}

/// A definition table's entries in order, across its groups.
pub open spec fn spec_flat_params(groups: Seq<Group>) -> Seq<Parameter>
    decreases groups.len(),
{
    if groups.len() == 0 {
        Seq::empty()
    } else {
        groups[0].parameters@ + spec_flat_params(groups.drop_first())
    }
}

/// The query list reproduces the definition entries one for one: the same
/// length, each query naming the entry's SDK identifier with its parsed
/// type.
pub open spec fn queries_match(out: Seq<ParamQuery>, params: Seq<Parameter>) -> bool {
    &&& out.len() == params.len()
    &&& forall|i: int|
        0 <= i < params.len() ==> {
            &&& (#[trigger] out[i]).name@ == params[i].param_ref@
            &&& Some(out[i].kind) == spec_parse_param_kind(params[i].param_type@)
        }
}

proof fn lemma_flat_params_take_snoc(groups: Seq<Group>, k: int)
    requires
        0 <= k < groups.len(),
    ensures
        spec_flat_params(groups.take(k + 1)) == spec_flat_params(groups.take(k))
            + groups[k].parameters@,
    decreases k,
{
    if k == 0 {
        assert(groups.take(1).drop_first() =~= Seq::<Group>::empty());
        assert(groups.take(0) =~= Seq::<Group>::empty());
        assert(spec_flat_params(groups.take(1)) =~= spec_flat_params(groups.take(0))
            + groups[0].parameters@);
    } else {
        let rest = groups.drop_first();
        lemma_flat_params_take_snoc(rest, k - 1);
        assert(groups.take(k + 1).drop_first() =~= rest.take(k));
        assert(groups.take(k).drop_first() =~= rest.take(k - 1));
        assert(groups.take(k + 1)[0] == groups[0]);
        assert(groups.take(k)[0] == groups[0]);
        assert(spec_flat_params(groups.take(k + 1)) =~= spec_flat_params(groups.take(k))
            + groups[k].parameters@);
    }
}

proof fn lemma_flat_params_contains(groups: Seq<Group>, g: int, i: int)
    requires
        0 <= g < groups.len(),
        0 <= i < groups[g].parameters@.len(),
    ensures
        spec_flat_params(groups).contains(groups[g].parameters@[i]),
    decreases g,
{
    let whole = spec_flat_params(groups);
    if g == 0 {
        assert(whole[i] == groups[0].parameters@[i]);
    } else {
        let rest = groups.drop_first();
        lemma_flat_params_contains(rest, g - 1, i);
        let target = rest[g - 1].parameters@[i];
        let j = choose|j: int| 0 <= j < spec_flat_params(rest).len() && spec_flat_params(rest)[j]
            == target;
        assert(whole[groups[0].parameters@.len() + j] == target);
        assert(groups[g].parameters@[i] == target);
    }
}

/// Turn a parameter-definition table into the list of queries to run, in
/// table order; fail on the first entry whose declared type is unknown,
/// naming that type.
pub fn collect_param_requests(groups: &Vec<Group>) -> (r: Result<Vec<ParamQuery>, String>)
    ensures
        r matches Ok(v) ==> queries_match(v@, spec_flat_params(groups@)),
        r is Ok <==> (forall|j: int|
            0 <= j < spec_flat_params(groups@).len() ==> spec_parse_param_kind(
                (#[trigger] spec_flat_params(groups@)[j]).param_type@,
            ) is Some),
        r matches Err(m) ==> exists|p: Parameter|
            {
                &&& #[trigger] spec_flat_params(groups@).contains(p)
                &&& spec_parse_param_kind(p.param_type@) is None
                &&& m@ == "Unsupported parameter type: "@ + p.param_type@
            },
{
    let mut out: Vec<ParamQuery> = Vec::new();
    let mut g: usize = 0;
    while g < groups.len()
        invariant
            g <= groups@.len(),
            queries_match(out@, spec_flat_params(groups@.take(g as int))),
        decreases groups@.len() - g,
    {
        let mut i: usize = 0;
        let n = groups[g].parameters.len();
        while i < n
            invariant
                g < groups@.len(),
                i <= n,
                n == groups@[g as int].parameters@.len(),
                queries_match(
                    out@,
                    spec_flat_params(groups@.take(g as int)) + groups@[g as int].parameters@.take(
                        i as int,
                    ),
                ),
            decreases n - i,
        {
            let kind = parse_param_kind(&groups[g].parameters[i].param_type);
            match kind {
                Some(k) => {
                    out.push(ParamQuery { name: groups[g].parameters[i].param_ref.clone(), kind: k });
                    proof {
                        assert(groups@[g as int].parameters@.take(i + 1)
                            =~= groups@[g as int].parameters@.take(i as int).push(
                            groups@[g as int].parameters@[i as int],
                        ));
                    }
                },
                None => {
                    let mut m = "Unsupported parameter type: ".to_owned();
                    m.append(groups[g].parameters[i].param_type.as_str());
                    proof {
                        lemma_flat_params_contains(groups@, g as int, i as int);
                        let bad = groups@[g as int].parameters@[i as int];
                        assert(spec_flat_params(groups@).contains(bad)
                            && spec_parse_param_kind(bad.param_type@) is None && m@
                            == "Unsupported parameter type: "@ + bad.param_type@);
                        let flat = spec_flat_params(groups@);
                        let j = choose|j: int| 0 <= j < flat.len() && flat[j] == bad;
                        assert(spec_parse_param_kind(flat[j].param_type@) is None);
                    }
                    return Err(m);
                },
            }
            i = i + 1;
        }
        proof {
            lemma_flat_params_take_snoc(groups@, g as int);
            assert(groups@[g as int].parameters@.take(n as int) =~= groups@[g as int].parameters@);
        }
        g = g + 1;
    }
    proof {
        assert(groups@.take(groups@.len() as int) =~= groups@);
        let flat = spec_flat_params(groups@);
        assert forall|j: int| 0 <= j < flat.len() implies spec_parse_param_kind(
            (#[trigger] flat[j]).param_type@,
        ) is Some by {
            assert(out@[j].name@ == flat[j].param_ref@);
        }
    }
    Ok(out)
}

} // verus!
