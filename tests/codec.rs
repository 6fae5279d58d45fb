use gcode_processor::client::{
    DataTransformer, IpcReader, IpcWriter, MovementServiceClient, ServiceClient,
};
use gcode_processor::error::{ClientError, CodecError, TransportError};
use gcode_processor::json_codec::{JsonMember, JsonResponseParser, response_from_members};
use gcode_processor::json_request::JsonRequestSerializer;
use gcode_processor::movement::{
    AxesConfig, AxisConfig, DirectionsMapping, MovementApiRequest, PicoStepperConfig, StatusCode,
    StepperDirection, Vector,
};
use gcode_processor::proto_codec::{read_varint, ProtoResponseParser};
use serde_json::Value;

fn object(pairs: Vec<(&str, Value)>) -> Value {
    let mut m = serde_json::Map::new();
    for (k, v) in pairs {
        m.insert(k.to_string(), v);
    }
    Value::Object(m)
}

fn axes() -> AxesConfig {
    let a = AxisConfig {
        stepper_config: PicoStepperConfig { enable_pin: 3, step_pin: 4, dir_pin: 5, hold_time_us: 1000 },
        step_length: 10_000,
        directions_mapping: DirectionsMapping {
            positive: StepperDirection::Ccw,
            negative: StepperDirection::Cw,
        },
    };
    AxesConfig { x: a, y: a, z: a }
}

#[test]
fn default_transformers_json_request_ser_sanity() {
    // GIVEN
    let test_request = MovementApiRequest::LinearMovement {
        destination: Vector::new(1_000_000, 2_000_000, 3_000_000),
        speed: 4_900_000,
    };
    let expected_value = object(vec![
        ("type", Value::from("LINEAR_MOVEMENT")),
        (
            "data",
            object(vec![
                (
                    "destination",
                    object(vec![
                        ("x", Value::from(1.0f64)),
                        ("y", Value::from(2.0f64)),
                        ("z", Value::from(3.0f64)),
                    ]),
                ),
                ("speed", Value::from(4.9f64)),
            ]),
        ),
    ]);

    // WHEN
    let request_serializer = JsonRequestSerializer;

    // THEN
    let serial_request = request_serializer.transform(&test_request).unwrap();
    let parsed_serial_request: Value = serde_json::from_slice(&serial_request).unwrap();
    assert_eq!(expected_value, parsed_serial_request);
}

#[test]
fn json_request_exact_text() {
    let s = JsonRequestSerializer
        .serialize_request(&MovementApiRequest::LinearMovement {
            destination: Vector::new(-1_500_000, 0, 12),
            speed: 7_800_000,
        })
        .unwrap();
    assert_eq!(
        s,
        "{\"type\":\"LINEAR_MOVEMENT\",\"data\":{\"destination\":{\"x\":-1.500000,\"y\":0.000000,\"z\":0.000012},\"speed\":7.800000}}"
    );
}

#[test]
fn json_config_request() {
    let bytes = JsonRequestSerializer
        .transform(&MovementApiRequest::Config { axes_configs: axes() })
        .unwrap();
    let v: Value = serde_json::from_slice(&bytes).unwrap();
    assert_eq!(v["type"], Value::from("CONFIG"));
    let x = &v["data"]["x"];
    assert_eq!(x["step_length"], Value::from(0.01f64));
    assert_eq!(x["directions_mapping"]["POSITIVE"], Value::from("CCW"));
    assert_eq!(x["directions_mapping"]["NEGATIVE"], Value::from("CW"));
    assert_eq!(x["stepper_cfg"]["enable_pin"], Value::from(3));
    assert_eq!(x["stepper_cfg"]["hold_time_us"], Value::from(1000));
    assert_eq!(v["data"]["z"]["stepper_cfg"]["dir_pin"], Value::from(5));
}

#[test]
fn json_rotational_request_unsupported() {
    let r = JsonRequestSerializer.transform(&MovementApiRequest::RotationalMovement {
        destination: Vector::new(0, 0, 0),
        rotation_center: Vector::new(0, 0, 0),
        angle: 0,
        speed: 0,
    });
    assert_eq!(r, Err(CodecError::UnsupportedRequest));
}

#[test]
fn json_response_statuses() {
    let p = JsonResponseParser;
    let r = p.parse_response(br#"{"status":"SUCCESS"}"#).unwrap();
    assert_eq!(r.status, StatusCode::Success);
    assert_eq!(r.message, None);
    let r = p.parse_response(br#"{"status":"FAILURE","message":"the reason is ..."}"#).unwrap();
    assert_eq!(r.status, StatusCode::Error);
    assert_eq!(r.message, Some("the reason is ...".to_string()));
    let r = p.parse_response(br#"{"result":"SUCCESS"}"#).unwrap();
    assert_eq!(r.status, StatusCode::Success);
    let r = p.parse_response(br#"{"result":1}"#).unwrap();
    assert_eq!(r.status, StatusCode::Error);
    let r = p.parse_response(br#"{"status":0}"#).unwrap();
    assert_eq!(r.status, StatusCode::Success);
}

#[test]
fn json_response_out_of_range_status() {
    let p = JsonResponseParser;
    assert_eq!(p.parse_response(br#"{"status":2}"#).unwrap_err(), CodecError::UnknownStatus);
    assert_eq!(p.parse_response(br#"{"status":"MAYBE"}"#).unwrap_err(), CodecError::UnknownStatus);
    assert_eq!(p.parse_response(br#"{"result":-1}"#).unwrap_err(), CodecError::UnknownStatus);
}

#[test]
fn json_response_errors() {
    let p = JsonResponseParser;
    assert_eq!(p.parse_response(b"{").unwrap_err(), CodecError::Malformed);
    assert_eq!(p.parse_response(br#"{"what":"x"}"#).unwrap_err(), CodecError::MissingStatus);
    assert_eq!(p.parse_response(br#"{"status":true}"#).unwrap_err(), CodecError::StatusType);
    assert_eq!(
        p.parse_response(br#"{"status":"SUCCESS","message":5}"#).unwrap_err(),
        CodecError::MessageType
    );
    assert_eq!(p.parse_response(b"[1,2]").unwrap_err(), CodecError::MissingStatus);
}

#[test]
fn response_from_members_directly() {
    let r = response_from_members(
        JsonMember::Absent,
        JsonMember::Text("FAILURE".to_string()),
        JsonMember::Text("why".to_string()),
    )
    .unwrap();
    assert_eq!(r.status, StatusCode::Error);
    assert_eq!(r.message, Some("why".to_string()));
    assert_eq!(
        response_from_members(JsonMember::Integer(7), JsonMember::Absent, JsonMember::Absent)
            .unwrap_err(),
        CodecError::UnknownStatus
    );
    assert_eq!(
        response_from_members(JsonMember::Other, JsonMember::Absent, JsonMember::Absent)
            .unwrap_err(),
        CodecError::StatusType
    );
}

struct ReplyReader {
    reply: Result<Vec<u8>, TransportError>,
}

impl IpcReader<Vec<u8>, TransportError> for ReplyReader {
    fn read_data(&mut self) -> Result<Vec<u8>, TransportError> {
        self.reply.clone()
    }
}

#[derive(Default)]
struct RecordingWriter {
    written: Vec<Vec<u8>>,
}

impl IpcWriter<Vec<u8>, TransportError> for RecordingWriter {
    fn write_data(&mut self, data: &Vec<u8>) -> Result<(), TransportError> {
        self.written.push(data.clone());
        Ok(())
    }
}

#[test]
fn lib_client_new_sanity() {
    let _ = MovementServiceClient::new(
        ReplyReader { reply: Ok(vec![]) },
        RecordingWriter::default(),
        JsonRequestSerializer,
        JsonResponseParser,
    );
}

#[test]
fn lib_client_run_request_sanity() {
    // GIVEN
    let test_config_req = MovementApiRequest::Config { axes_configs: axes() };
    let test_linear_mvmnt_req = MovementApiRequest::LinearMovement {
        destination: Vector::new(1_000_000, 2_000_000, 3_000_000),
        speed: 4_000_000,
    };
    let json_response = object(vec![("result", Value::from("SUCCESS"))]);
    let serial_response = serde_json::to_vec(&json_response).unwrap();

    // WHEN
    let mut client = MovementServiceClient::new(
        ReplyReader { reply: Ok(serial_response) },
        RecordingWriter::default(),
        JsonRequestSerializer,
        JsonResponseParser,
    );

    // THEN
    let response = client.run_request(&test_linear_mvmnt_req);
    assert!(response.is_ok());

    let response = client.run_request(&test_config_req);
    assert!(response.is_ok());
    assert_eq!(client.raw_data_writer.written.len(), 2);
}

#[test]
fn client_surfaces_first_failure() {
    let mut client = MovementServiceClient::new(
        ReplyReader { reply: Err(TransportError::Truncated) },
        RecordingWriter::default(),
        JsonRequestSerializer,
        JsonResponseParser,
    );
    let linear = MovementApiRequest::LinearMovement { destination: Vector::new(0, 0, 0), speed: 1 };
    assert_eq!(
        client.run_request(&linear).unwrap_err(),
        ClientError::Transport(TransportError::Truncated)
    );
    let rotational = MovementApiRequest::RotationalMovement {
        destination: Vector::new(0, 0, 0),
        rotation_center: Vector::new(0, 0, 0),
        angle: 0,
        speed: 0,
    };
    assert_eq!(
        client.run_request(&rotational).unwrap_err(),
        ClientError::Codec(CodecError::UnsupportedRequest)
    );
    assert_eq!(client.raw_data_writer.written.len(), 1);
}

#[test]
fn binary_response_statuses() {
    let p = ProtoResponseParser;
    let r = p.parse_response(&[]).unwrap();
    assert_eq!(r.status, StatusCode::Success);
    assert_eq!(r.message, None);
    let r = p.parse_response(&[0x08, 0x01, 0x12, 0x02, b'h', b'i']).unwrap();
    assert_eq!(r.status, StatusCode::Error);
    assert_eq!(r.message, Some("hi".to_string()));
    let r = p.transform(&vec![0x08, 0x00, 0x18, 0x05, 0x25, 1, 2, 3, 4]).unwrap();
    assert_eq!(r.status, StatusCode::Success);
    let r = p.parse_response(&[0x08, 0x80, 0x80, 0x80, 0x80, 0x10]).unwrap();
    assert_eq!(r.status, StatusCode::Success);
}

#[test]
fn binary_response_out_of_range_status() {
    let p = ProtoResponseParser;
    assert_eq!(p.parse_response(&[0x08, 0x02]).unwrap_err(), CodecError::UnknownStatus);
    let minus_one = [0x08, 0xFF, 0xFF, 0xFF, 0xFF, 0xFF, 0xFF, 0xFF, 0xFF, 0xFF, 0x01];
    assert_eq!(p.parse_response(&minus_one).unwrap_err(), CodecError::UnknownStatus);
}

#[test]
fn binary_response_malformed() {
    let p = ProtoResponseParser;
    assert_eq!(p.parse_response(&[0x12, 0x05, b'a']).unwrap_err(), CodecError::Malformed);
    assert_eq!(p.parse_response(&[0x12, 0x01, 0xFF]).unwrap_err(), CodecError::Malformed);
    assert_eq!(p.parse_response(&[0x0B]).unwrap_err(), CodecError::Malformed);
    assert_eq!(p.parse_response(&[0x0A, 0x00]).unwrap_err(), CodecError::Malformed);
    assert_eq!(p.parse_response(&[0x00, 0x00]).unwrap_err(), CodecError::Malformed);
    assert_eq!(p.parse_response(&[0x08]).unwrap_err(), CodecError::Malformed);
    let too_long = [0x08, 0xFF, 0xFF, 0xFF, 0xFF, 0xFF, 0xFF, 0xFF, 0xFF, 0xFF, 0x02];
    assert_eq!(p.parse_response(&too_long).unwrap_err(), CodecError::Malformed);
    assert_eq!(read_varint(&[0xAC, 0x02], 0), Some((300, 2)));
    assert_eq!(read_varint(&[0x80], 0), None);
}

#[test]
fn json_response_par_sanity() {
    // GIVEN
    let succ_resp_val = object(vec![("result", Value::from("SUCCESS"))]);
    let fail_msg = "the reason is ...";
    let fail_resp_val =
        object(vec![("result", Value::from("FAILURE")), ("what", Value::from(fail_msg))]);

    // WHEN
    let response_parser = JsonResponseParser;

    // THEN
    let request_serial_data = serde_json::to_string(&succ_resp_val).unwrap().into_bytes();
    let request_parsed = response_parser.transform(&request_serial_data).unwrap();
    assert!(matches!(request_parsed.status, StatusCode::Success));
    let request_serial_data = serde_json::to_string(&fail_resp_val).unwrap().into_bytes();
    let request_parsed = response_parser.transform(&request_serial_data).unwrap();
    assert!(matches!(request_parsed.status, StatusCode::Error));
}

#[test]
fn binary_response_skips_unknown_groups() {
    let p = ProtoResponseParser;
    // field 3 as a group holding a varint field and a nested group, then the status
    let bytes = [0x1B, 0x08, 0x05, 0x23, 0x24, 0x1C, 0x08, 0x01];
    let r = p.parse_response(&bytes).unwrap();
    assert_eq!(r.status, StatusCode::Error);
    // a group closed with another field number
    assert_eq!(p.parse_response(&[0x1B, 0x24]).unwrap_err(), CodecError::Malformed);
    // a group that never ends
    assert_eq!(p.parse_response(&[0x1B, 0x08, 0x01]).unwrap_err(), CodecError::Malformed);
    // a stray group end
    assert_eq!(p.parse_response(&[0x1C]).unwrap_err(), CodecError::Malformed);
}

#[test]
fn binary_response_group_nesting_limit() {
    let p = ProtoResponseParser;
    let nested = |levels: usize| {
        let mut b = vec![0x1B; levels];
        b.extend(std::iter::repeat(0x1C).take(levels));
        b
    };
    assert!(p.parse_response(&nested(100)).is_ok());
    assert_eq!(p.parse_response(&nested(101)).unwrap_err(), CodecError::Malformed);
}
