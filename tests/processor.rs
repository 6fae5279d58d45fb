use gcode_processor::client::ServiceClient;
use gcode_processor::error::{ClientError, CodecError, TransportError};
use gcode_processor::movement::{
    Axis, AxesConfig, AxisConfig, DirectionsMapping, MovementApiRequest, MovementApiResponse,
    PicoStepperConfig, StatusCode, StepperDirection, Vector,
};
use gcode_processor::parser::{GcodeParser, VectorToken};
use gcode_processor::processor::{
    commit, config_outcome, config_request, resolve, CoordinatesType, GcodeProcessor, GcodeProcessorState, ProcessError,
    ResolutionError,
};

struct MockClient {
    requests: Vec<MovementApiRequest>,
    answers: Vec<Result<MovementApiResponse, ClientError>>,
}

impl MockClient {
    fn succeeding() -> Self {
        MockClient { requests: vec![], answers: vec![] }
    }
}

impl ServiceClient<MovementApiRequest, MovementApiResponse, ClientError> for MockClient {
    fn run_request(
        &mut self,
        request: &MovementApiRequest,
    ) -> Result<MovementApiResponse, ClientError> {
        self.requests.push(*request);
        if self.answers.is_empty() {
            Ok(MovementApiResponse { status: StatusCode::Success, message: None })
        } else {
            self.answers.remove(0)
        }
    }
}

fn generate_axes_cfg() -> AxesConfig {
    let step_length = 10_000;
    let hold_time_us = 1000;
    let directions_mapping =
        DirectionsMapping { positive: StepperDirection::Ccw, negative: StepperDirection::Cw };
    let axis = |enable_pin, step_pin, dir_pin| AxisConfig {
        stepper_config: PicoStepperConfig { enable_pin, step_pin, dir_pin, hold_time_us },
        step_length,
        directions_mapping,
    };
    AxesConfig { x: axis(3, 4, 5), y: axis(6, 7, 8), z: axis(9, 10, 11) }
}

fn new_processor(fast: i64, default: i64) -> GcodeProcessor<MockClient> {
    GcodeProcessor::new(
        fast,
        default,
        MockClient::succeeding(),
        &generate_axes_cfg(),
        GcodeProcessorState::default(),
    )
    .unwrap()
}

fn last_linear(p: &GcodeProcessor<MockClient>) -> (Vector, i64) {
    match p.movement_service_client.requests.last().unwrap() {
        MovementApiRequest::LinearMovement { destination, speed } => (*destination, *speed),
        other => panic!("unexpected request {:?}", other),
    }
}

#[test]
fn sanity_linear_movements() {
    let mut p = new_processor(7_800_000, 9_100_000);
    assert!(p.process("G00 X1.2 Y3.4 Z5.6").is_ok());
    let (destination, speed) = last_linear(&p);
    assert_eq!(speed, 7_800_000);
    assert_eq!(destination, Vector::new(1_200_000, 3_400_000, 5_600_000));

    let mut p = new_processor(7_800_000, 9_100_000);
    assert!(p.process("G01 X1.2 Y3.4 F11.12").is_ok());
    let (destination, speed) = last_linear(&p);
    assert_eq!(speed, 11_120_000);
    assert_eq!(destination, Vector::new(1_200_000, 3_400_000, 0));
}

#[test]
fn sanity_control() {
    let mut instance = new_processor(60_000_000, 30_000_000);
    assert_eq!(instance.state().coordinates_type, CoordinatesType::Absolute);

    let result = instance.process("G91");
    assert!(result.is_ok());
    assert_eq!(instance.state().coordinates_type, CoordinatesType::Relative);

    let result = instance.process("G90");
    assert!(result.is_ok());
    assert_eq!(instance.state().coordinates_type, CoordinatesType::Absolute);
}

#[test]
fn construction_sends_config_first() {
    let p = new_processor(1, 1);
    assert_eq!(p.movement_service_client.requests.len(), 1);
    assert_eq!(
        p.movement_service_client.requests[0],
        MovementApiRequest::Config { axes_configs: generate_axes_cfg() }
    );
}

#[test]
fn construction_fails_when_config_refused() {
    let client = MockClient {
        requests: vec![],
        answers: vec![Ok(MovementApiResponse {
            status: StatusCode::Error,
            message: Some("no motors".to_string()),
        })],
    };
    let r = GcodeProcessor::new(1, 1, client, &generate_axes_cfg(), GcodeProcessorState::default());
    match r {
        Err(ProcessError::Service(Some(m))) => assert_eq!(m, "no motors"),
        Err(e) => panic!("unexpected error {:?}", e),
        Ok(_) => panic!("configuration refusal must fail"),
    }
}

#[test]
fn absolute_x_only_from_origin() {
    let tokens = VectorToken { x: Some(5_000_000), y: None, z: None };
    let v = resolve(&tokens, &GcodeProcessorState::default()).unwrap();
    assert_eq!(v, Vector::new(5_000_000, 0, 0));
}

#[test]
fn absolute_target_is_displacement_from_position() {
    let state = GcodeProcessorState {
        current_position: Vector::new(1_000_000, 2_000_000, 3_000_000),
        coordinates_type: CoordinatesType::Absolute,
    };
    let tokens = VectorToken { x: Some(4_000_000), y: None, z: Some(0) };
    assert_eq!(resolve(&tokens, &state).unwrap(), Vector::new(3_000_000, 0, -3_000_000));
}

#[test]
fn relative_moves_accumulate() {
    let mut p = new_processor(1_000_000, 1_000_000);
    assert!(p.process("G91").is_ok());
    assert!(p.process("G01 X1").is_ok());
    assert!(p.process("G01 Y1").is_ok());
    assert_eq!(p.state().current_position, Vector::new(1_000_000, 1_000_000, 0));
    let (destination, _) = last_linear(&p);
    assert_eq!(destination, Vector::new(0, 1_000_000, 0));
}

#[test]
fn absolute_moves_commit_position() {
    let mut p = new_processor(1, 1);
    assert!(p.process("G1 X2 Y2").is_ok());
    assert!(p.process("G1 X5").is_ok());
    let (destination, _) = last_linear(&p);
    assert_eq!(destination, Vector::new(3_000_000, 0, 0));
    assert_eq!(p.state().current_position, Vector::new(5_000_000, 2_000_000, 0));
}

#[test]
fn mode_round_trip_keeps_position() {
    let mut p = new_processor(1, 1);
    assert!(p.process("G1 X2 Y3").is_ok());
    let before = p.state().current_position;
    assert!(p.process("G91").is_ok());
    assert!(p.process("G90").is_ok());
    assert_eq!(p.state().current_position, before);
}

#[test]
fn move_without_target_is_refused() {
    let mut p = new_processor(1, 1);
    let before = p.state();
    match p.process("G01") {
        Err(ProcessError::Resolution(ResolutionError::NoTarget)) => {}
        other => panic!("unexpected {:?}", other),
    }
    assert_eq!(p.state(), before);
    assert_eq!(p.movement_service_client.requests.len(), 1);
}

#[test]
fn failed_move_keeps_state() {
    let mut p = new_processor(1, 1);
    p.movement_service_client.answers = vec![
        Ok(MovementApiResponse { status: StatusCode::Error, message: Some("stall".to_string()) }),
        Err(ClientError::Transport(TransportError::Truncated)),
        Err(ClientError::Codec(CodecError::UnknownStatus)),
    ];
    match p.process("G1 X1") {
        Err(ProcessError::Service(Some(m))) => assert_eq!(m, "stall"),
        other => panic!("unexpected {:?}", other),
    }
    assert!(matches!(
        p.process("G1 X1"),
        Err(ProcessError::Transport(TransportError::Truncated))
    ));
    assert!(matches!(p.process("G1 X1"), Err(ProcessError::Codec(CodecError::UnknownStatus))));
    assert_eq!(p.state(), GcodeProcessorState::default());
}

#[test]
fn parse_failure_keeps_state() {
    let mut p = new_processor(1, 1);
    assert!(matches!(p.process("M3"), Err(ProcessError::Parse(_))));
    assert_eq!(p.state(), GcodeProcessorState::default());
}

#[test]
fn out_of_range_move_is_refused() {
    let state = GcodeProcessorState {
        current_position: Vector::new(i64::MIN, 0, 0),
        coordinates_type: CoordinatesType::Absolute,
    };
    let tokens = VectorToken { x: Some(1), y: None, z: None };
    assert_eq!(resolve(&tokens, &state), Err(ResolutionError::OutOfRange));
}

#[test]
fn commit_adds_displacement() {
    let state = GcodeProcessorState::default();
    let next = commit(&state, &Vector::new(1, -2, 3));
    assert_eq!(next.current_position, Vector::new(1, -2, 3));
    assert_eq!(next.coordinates_type, CoordinatesType::Absolute);
}

#[test]
fn rapid_move_resolves_from_parsed_line() {
    let d = GcodeParser.parse("G00 X1.2 Y3.4 Z5.6").unwrap();
    let v = resolve(&d.target_tokens, &GcodeProcessorState::default()).unwrap();
    assert_eq!(v, Vector::new(1_200_000, 3_400_000, 5_600_000));
}

#[test]
fn vector_get_and_set() {
    let mut v = Vector::new(1, 2, 3);
    assert_eq!(v.get(&Axis::Y), 2);
    v.set(&Axis::Z, 9);
    assert_eq!(v, Vector::new(1, 2, 9));
}

#[test]
fn config_request_and_outcome() {
    assert_eq!(
        config_request(&generate_axes_cfg()),
        MovementApiRequest::Config { axes_configs: generate_axes_cfg() }
    );
    assert!(config_outcome(MovementApiResponse { status: StatusCode::Success, message: None }).is_ok());
    match config_outcome(MovementApiResponse {
        status: StatusCode::Error,
        message: Some("busy".to_string()),
    }) {
        Err(ProcessError::Service(Some(m))) => assert_eq!(m, "busy"),
        other => panic!("unexpected {:?}", other),
    }
}

#[test]
fn mode_switch_and_refused_lines_send_nothing() {
    let mut p = new_processor(1, 1);
    assert!(p.process("G91").is_ok());
    assert!(p.process("G90").is_ok());
    assert!(p.process("G01").is_err());
    assert!(p.process("G02 X1").is_err());
    assert_eq!(p.movement_service_client.requests.len(), 1);
    assert!(p.process("G01 X1").is_ok());
    assert_eq!(p.movement_service_client.requests.len(), 2);
}
