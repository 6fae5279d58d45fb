//! The textual wire format of requests: a JSON object with a `type`
//! discriminant and a `data` object that mirrors the request.
use crate::client::DataTransformer;
use crate::error::CodecError;
use crate::framing::slice_range;
use crate::movement::{
    AxesConfig,
    AxisConfig,
    DirectionsMapping,
    MovementApiRequest,
    StepperDirection,
    Vector,
};
use crate::text::push_char;
use vstd::prelude::*;
use vstd::string::StringExecFns;

verus! {

pub open spec fn digit_char(d: nat) -> char {
    if d == 0 {
        '0'
    } else if d == 1 {
        '1'
    } else if d == 2 {
        '2'
    } else if d == 3 {
        '3'
    } else if d == 4 {
        '4'
    } else if d == 5 {
        '5'
    } else if d == 6 {
        '6'
    } else if d == 7 {
        '7'
    } else if d == 8 {
        '8'
    } else {
        '9'
    }
}

/// The decimal digits of `n`, without leading zeros.
pub open spec fn digits(n: nat) -> Seq<char>
    decreases n,
{
    if n < 10 {
        seq![digit_char(n)]
    } else {
        digits(n / 10).push(digit_char(n % 10))
    }
}

/// The last `k` decimal digits of `n`, with leading zeros.
pub open spec fn fixed_digits(n: nat, k: nat) -> Seq<char>
    decreases k,
{
    if k == 0 {
        Seq::empty()
    } else {
        fixed_digits(n / 10, (k - 1) as nat).push(digit_char(n % 10))
    }
}

pub open spec fn magnitude(v: int) -> nat {
    if v < 0 {
        (-v) as nat
    } else {
        v as nat
    }
}

/// A fixed-point value as a JSON number with six decimal places:
/// `1_200_000` is `1.200000`.
pub open spec fn decimal_text(v: int) -> Seq<char> {
    (if v < 0 {
        seq!['-']
    } else {
        Seq::empty()
    }) + digits(magnitude(v) / 1_000_000) + seq!['.'] + fixed_digits(
        magnitude(v) % 1_000_000,
        6,
    )
}

pub open spec fn vector_json(v: Vector) -> Seq<char> {
    "{\"x\":"@ + decimal_text(v.x as int) + ",\"y\":"@ + decimal_text(v.y as int) + ",\"z\":"@
        + decimal_text(v.z as int) + "}"@
}

pub open spec fn direction_json(d: StepperDirection) -> Seq<char> {
    match d {
        StepperDirection::Cw => "\"CW\""@,
        StepperDirection::Ccw => "\"CCW\""@,
    }
}

pub open spec fn directions_json(m: DirectionsMapping) -> Seq<char> {
    "{\"POSITIVE\":"@ + direction_json(m.positive) + ",\"NEGATIVE\":"@ + direction_json(m.negative)
        + "}"@
}

pub open spec fn axis_config_json(c: AxisConfig) -> Seq<char> {
    "{\"step_length\":"@ + decimal_text(c.step_length as int) + ",\"directions_mapping\":"@
        + directions_json(c.directions_mapping) + ",\"stepper_cfg\":{\"enable_pin\":"@ + digits(
        c.stepper_config.enable_pin as nat,
    ) + ",\"step_pin\":"@ + digits(c.stepper_config.step_pin as nat) + ",\"dir_pin\":"@ + digits(
        c.stepper_config.dir_pin as nat,
    ) + ",\"hold_time_us\":"@ + digits(c.stepper_config.hold_time_us as nat) + "}}"@
}

pub open spec fn axes_config_json(a: AxesConfig) -> Seq<char> {
    "{\"x\":"@ + axis_config_json(a.x) + ",\"y\":"@ + axis_config_json(a.y) + ",\"z\":"@
        + axis_config_json(a.z) + "}"@
}

/// The JSON text of a request; rotational movements have none.
pub open spec fn request_json(req: MovementApiRequest) -> Option<Seq<char>> {
    match req {
        MovementApiRequest::Config { axes_configs } => Some(
            "{\"type\":\"CONFIG\",\"data\":"@ + axes_config_json(axes_configs) + "}"@,
        ),
        MovementApiRequest::LinearMovement { destination, speed } => Some(
            "{\"type\":\"LINEAR_MOVEMENT\",\"data\":{\"destination\":"@ + vector_json(destination)
                + ",\"speed\":"@ + decimal_text(speed as int) + "}}"@,
        ),
        MovementApiRequest::RotationalMovement { .. } => None,
    }
}

fn digit_to_char(d: u64) -> (r: char)
    requires
        d < 10,
    ensures
        r == digit_char(d as nat),
{
    if d == 0 {
        '0'
    } else if d == 1 {
        '1'
    } else if d == 2 {
        '2'
    } else if d == 3 {
        '3'
    } else if d == 4 {
        '4'
    } else if d == 5 {
        '5'
    } else if d == 6 {
        '6'
    } else if d == 7 {
        '7'
    } else if d == 8 {
        '8'
    } else {
        '9'
    }
}

fn push_digits(out: &mut String, n: u64)
    ensures
        final(out)@ == old(out)@ + digits(n as nat),
    decreases n,
{
    if n >= 10 {
        push_digits(out, n / 10);
    }
    push_char(out, digit_to_char(n % 10));
    assert(final(out)@ =~= old(out)@ + digits(n as nat));
}

fn push_fixed_digits(out: &mut String, n: u64, k: u64)
    ensures
        final(out)@ == old(out)@ + fixed_digits(n as nat, k as nat),
    decreases k,
{
    if k > 0 {
        push_fixed_digits(out, n / 10, k - 1);
        push_char(out, digit_to_char(n % 10));
    }
    assert(final(out)@ =~= old(out)@ + fixed_digits(n as nat, k as nat));
}

fn push_decimal(out: &mut String, v: i64)
    ensures
        final(out)@ == old(out)@ + decimal_text(v as int),
{
    let ghost start = out@;
    let m: u64 = if v < 0 {
        (-(v as i128)) as u64
    } else {
        v as u64
    };
    if v < 0 {
        push_char(out, '-');
    }
    push_digits(out, m / 1_000_000);
    push_char(out, '.');
    push_fixed_digits(out, m % 1_000_000, 6);
    assert(out@ =~= start + decimal_text(v as int));
}

fn push_vector(out: &mut String, v: &Vector)
    ensures
        final(out)@ == old(out)@ + vector_json(*v),
{
    let ghost start = out@;
    out.append("{\"x\":");
    push_decimal(out, v.x);
    out.append(",\"y\":");
    push_decimal(out, v.y);
    out.append(",\"z\":");
    push_decimal(out, v.z);
    out.append("}");
    assert(out@ =~= start + vector_json(*v));
}

fn push_direction(out: &mut String, d: StepperDirection)
    ensures
        final(out)@ == old(out)@ + direction_json(d),
{
    match d {
        StepperDirection::Cw => out.append("\"CW\""),
        StepperDirection::Ccw => out.append("\"CCW\""),
    }
}

fn push_axis_config(out: &mut String, c: &AxisConfig)
    ensures
        final(out)@ == old(out)@ + axis_config_json(*c),
{
    let ghost start = out@;
    out.append("{\"step_length\":");
    push_decimal(out, c.step_length);
    out.append(",\"directions_mapping\":");
    let ghost before_map = out@;
    out.append("{\"POSITIVE\":");
    push_direction(out, c.directions_mapping.positive);
    out.append(",\"NEGATIVE\":");
    push_direction(out, c.directions_mapping.negative);
    out.append("}");
    assert(out@ =~= before_map + directions_json(c.directions_mapping));
    out.append(",\"stepper_cfg\":{\"enable_pin\":");
    push_digits(out, c.stepper_config.enable_pin as u64);
    out.append(",\"step_pin\":");
    push_digits(out, c.stepper_config.step_pin as u64);
    out.append(",\"dir_pin\":");
    push_digits(out, c.stepper_config.dir_pin as u64);
    out.append(",\"hold_time_us\":");
    push_digits(out, c.stepper_config.hold_time_us as u64);
    out.append("}}");
    assert(out@ =~= start + axis_config_json(*c));
}

/// Writes controller requests as JSON objects.
#[derive(Clone, Copy, Debug, Default)]
pub struct JsonRequestSerializer;

impl JsonRequestSerializer {
    /// The JSON text of a request; a rotational movement has no encoding.
    pub fn serialize_request(&self, request: &MovementApiRequest) -> (r: Result<String, CodecError>)
        ensures
            match request_json(*request) {
                Some(t) => r matches Ok(s) && s@ == t,
                None => r == Err::<String, CodecError>(CodecError::UnsupportedRequest),
            },
    {
        let mut out = String::new();
        match request {
            MovementApiRequest::Config { axes_configs } => {
                out.append("{\"type\":\"CONFIG\",\"data\":");
                let ghost before = out@;
                out.append("{\"x\":");
                push_axis_config(&mut out, &axes_configs.x);
                out.append(",\"y\":");
                push_axis_config(&mut out, &axes_configs.y);
                out.append(",\"z\":");
                push_axis_config(&mut out, &axes_configs.z);
                out.append("}");
                assert(out@ =~= before + axes_config_json(*axes_configs));
                out.append("}");
                assert(out@ =~= request_json(*request)->0);
                Ok(out)
            },
            MovementApiRequest::LinearMovement { destination, speed } => {
                out.append("{\"type\":\"LINEAR_MOVEMENT\",\"data\":{\"destination\":");
                push_vector(&mut out, destination);
                out.append(",\"speed\":");
                push_decimal(&mut out, *speed);
                out.append("}}");
                assert(out@ =~= request_json(*request)->0);
                Ok(out)
            },
            MovementApiRequest::RotationalMovement { .. } => Err(CodecError::UnsupportedRequest),
        }
    }
}

impl DataTransformer<MovementApiRequest, Vec<u8>, CodecError> for JsonRequestSerializer {
    open spec fn failure_of(&self, input: MovementApiRequest) -> Option<CodecError> {
        match request_json(input) {
            Some(_) => None,
            None => Some(CodecError::UnsupportedRequest),
        }
    }

    /// The UTF-8 bytes of the request's JSON text.
    open spec fn gives(&self, input: MovementApiRequest, output: Vec<u8>) -> bool {
        request_json(input) matches Some(t) && output@ == vstd::utf8::encode_utf8(t)
    }

    fn transform(&self, input: &MovementApiRequest) -> (r: Result<Vec<u8>, CodecError>) {
        match self.serialize_request(input) {
            Err(e) => Err(e),
            Ok(s) => {
                let b = s.as_str().as_bytes();
                let out = slice_range(b, 0, b.len());
                assert(b@.subrange(0, b@.len() as int) =~= b@);
                assert(self.gives(*input, out));
                Ok(out)
            },
        }
    }
}

} // verus!
