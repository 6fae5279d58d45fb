//! The coordinate state machine and the processor that turns G-code lines
//! into movement requests.
use crate::client::ServiceClient;
use crate::error::{ClientError, CodecError, TransportError};
use crate::movement::{AxesConfig, MovementApiRequest, MovementApiResponse, StatusCode, Vector};
use crate::parser::{
    parse_line,
    Command,
    GcodeData,
    GcodeParser,
    ParseError,
    ParseErrorView,
    VectorToken,
};
use vstd::prelude::*;

verus! {

/// Whether targets are positions or displacements.
#[derive(Clone, Copy, Debug, PartialEq, Eq, Structural)]
pub enum CoordinatesType {
    Relative,
    Absolute,
}

/// Where the processor believes the machine is, and the active mode.
#[derive(Clone, Copy, Debug, PartialEq, Eq, Structural)]
pub struct GcodeProcessorState {
    pub current_position: Vector,
    pub coordinates_type: CoordinatesType,
}

impl Default for GcodeProcessorState {
    /// At the origin, in absolute mode.
    fn default() -> (r: Self)
        ensures
            r == (GcodeProcessorState {
                current_position: Vector { x: 0, y: 0, z: 0 },
                coordinates_type: CoordinatesType::Absolute,
            }),
    {
        GcodeProcessorState {
            current_position: Vector { x: 0, y: 0, z: 0 },
            coordinates_type: CoordinatesType::Absolute,
        }
    }
}

/// Why a move could not be turned into a request.
#[derive(Clone, Copy, Debug, PartialEq, Eq, Structural)]
pub enum ResolutionError {
    /// The move names no axis.
    NoTarget,
    /// A displacement or the position it leads to does not fit in `i64`.
    OutOfRange,
}

/// Why a line was not carried out.
#[derive(Clone, Debug)]
pub enum ProcessError {
    Parse(ParseError),
    Resolution(ResolutionError),
    Codec(CodecError),
    Transport(TransportError),
    /// The controller answered with an error status, and maybe a message.
    Service(Option<String>),
}

pub open spec fn fits_i64(v: int) -> bool {
    i64::MIN <= v <= i64::MAX
}

/// The displacement along one axis: in absolute mode the way from the
/// current coordinate to the given one, in relative mode the given value;
/// zero for an axis that the line does not name.
pub open spec fn axis_displacement(tok: Option<i64>, cur: i64, mode: CoordinatesType) -> int {
    match tok {
        None => 0,
        Some(v) => match mode {
            CoordinatesType::Absolute => v - cur,
            CoordinatesType::Relative => v as int,
        },
    }
}

pub open spec fn axis_fits(tok: Option<i64>, cur: i64, mode: CoordinatesType) -> bool {
    fits_i64(axis_displacement(tok, cur, mode)) && fits_i64(cur + axis_displacement(tok, cur, mode))
}

/// The displacement that `tokens` ask for from `state`, when every axis
/// and the position it leads to fit in `i64`.
pub open spec fn resolve_spec(tokens: VectorToken, state: GcodeProcessorState) -> Result<
    Vector,
    ResolutionError,
> {
    let p = state.current_position;
    let m = state.coordinates_type;
    if tokens.is_empty() {
        Err(ResolutionError::NoTarget)
    } else if axis_fits(tokens.x, p.x, m) && axis_fits(tokens.y, p.y, m) && axis_fits(
        tokens.z,
        p.z,
        m,
    ) {
        Ok(
            Vector {
                x: axis_displacement(tokens.x, p.x, m) as i64,
                y: axis_displacement(tokens.y, p.y, m) as i64,
                z: axis_displacement(tokens.z, p.z, m) as i64,
            },
        )
    } else {
        Err(ResolutionError::OutOfRange)
    }
}

/// The state after a displacement was carried out.
pub open spec fn commit_spec(state: GcodeProcessorState, d: Vector) -> GcodeProcessorState {
    GcodeProcessorState {
        current_position: Vector {
            x: (state.current_position.x + d.x) as i64,
            y: (state.current_position.y + d.y) as i64,
            z: (state.current_position.z + d.z) as i64,
        },
        ..state
    }
}

pub open spec fn commit_fits(state: GcodeProcessorState, d: Vector) -> bool {
    fits_i64(state.current_position.x + d.x) && fits_i64(state.current_position.y + d.y)
        && fits_i64(state.current_position.z + d.z)
}

/// The state after a switch to mode `m`: only the mode changes.
pub open spec fn switch_mode(state: GcodeProcessorState, m: CoordinatesType) -> GcodeProcessorState {
    GcodeProcessorState { coordinates_type: m, ..state }
}

/// What a parsed line asks the controller to do, before any request is sent.
pub enum Plan {
    /// Switch the mode; nothing is sent.
    SetMode(CoordinatesType),
    /// Send `request`; once it succeeds the state becomes `next`.
    Move { request: MovementApiRequest, next: GcodeProcessorState },
}

/// The plan for a line's data: modes switch at once; a move resolves its
/// target and runs at the line's speed, or at the configured one.
pub open spec fn plan_spec(d: GcodeData, state: GcodeProcessorState, fast: i64, default: i64) -> Result<
    Plan,
    ResolutionError,
> {
    match d.command {
        Command::SetAbsoluteMode => Ok(Plan::SetMode(CoordinatesType::Absolute)),
        Command::SetRelativeMode => Ok(Plan::SetMode(CoordinatesType::Relative)),
        _ => match resolve_spec(d.target_tokens, state) {
            Err(e) => Err(e),
            Ok(v) => Ok(
                Plan::Move {
                    request: MovementApiRequest::LinearMovement {
                        destination: v,
                        speed: if d.command == Command::RapidMove {
                            fast
                        } else {
                            match d.speed {
                                Some(s) => s,
                                None => default,
                            }
                        },
                    },
                    next: commit_spec(state, v),
                },
            ),
        },
    }
}

fn resolve_axis(tok: Option<i64>, cur: i64, mode: CoordinatesType) -> (r: Option<i64>)
    ensures
        axis_fits(tok, cur, mode) ==> r == Some(axis_displacement(tok, cur, mode) as i64),
        !axis_fits(tok, cur, mode) ==> r is None,
{
    let d: i128 = match tok {
        None => 0,
        Some(v) => match mode {
            CoordinatesType::Absolute => v as i128 - cur as i128,
            CoordinatesType::Relative => v as i128,
        },
    };
    if d < i64::MIN as i128 || d > i64::MAX as i128 {
        return None;
    }
    let n: i128 = cur as i128 + d;
    if n < i64::MIN as i128 || n > i64::MAX as i128 {
        return None;
    }
    Some(d as i64)
}

/// The displacement that `tokens` ask for from `state`.
pub fn resolve(tokens: &VectorToken, state: &GcodeProcessorState) -> (r: Result<
    Vector,
    ResolutionError,
>)
    ensures
        r == resolve_spec(*tokens, *state),
{
    if tokens.x.is_none() && tokens.y.is_none() && tokens.z.is_none() {
        return Err(ResolutionError::NoTarget);
    }
    let p = state.current_position;
    let m = state.coordinates_type;
    let x = resolve_axis(tokens.x, p.x, m);
    let y = resolve_axis(tokens.y, p.y, m);
    let z = resolve_axis(tokens.z, p.z, m);
    match (x, y, z) {
        (Some(x), Some(y), Some(z)) => Ok(Vector { x, y, z }),
        _ => Err(ResolutionError::OutOfRange),
    }
}

/// The state once the displacement `d` was carried out: the position moves
/// by `d`, the mode stays.
pub fn commit(state: &GcodeProcessorState, d: &Vector) -> (r: GcodeProcessorState)
    requires
        commit_fits(*state, *d),
    ensures
        r == commit_spec(*state, *d),
{
    GcodeProcessorState {
        current_position: Vector {
            x: state.current_position.x + d.x,
            y: state.current_position.y + d.y,
            z: state.current_position.z + d.z,
        },
        coordinates_type: state.coordinates_type,
    }
}

/// The plan for a parsed line.
pub fn plan(d: &GcodeData, state: &GcodeProcessorState, fast: i64, default: i64) -> (r: Result<
    Plan,
    ResolutionError,
>)
    ensures
        r == plan_spec(*d, *state, fast, default),
{
    match d.command {
        Command::SetAbsoluteMode => Ok(Plan::SetMode(CoordinatesType::Absolute)),
        Command::SetRelativeMode => Ok(Plan::SetMode(CoordinatesType::Relative)),
        _ => {
            let v = match resolve(&d.target_tokens, state) {
                Err(e) => return Err(e),
                Ok(v) => v,
            };
            let speed = if d.command == Command::RapidMove {
                fast
            } else {
                match d.speed {
                    Some(s) => s,
                    None => default,
                }
            };
            let next = commit(state, &v);
            Ok(
                Plan::Move {
                    request: MovementApiRequest::LinearMovement { destination: v, speed },
                    next,
                },
            )
        },
    }
}

/// The state and outcome once the controller answered a move: on success
/// the move is committed, otherwise the state stays and the controller's
/// message is handed on.
pub fn apply_response(
    state: &GcodeProcessorState,
    next: &GcodeProcessorState,
    response: MovementApiResponse,
) -> (r: (GcodeProcessorState, Result<(), ProcessError>))
    ensures
        response.status == StatusCode::Success ==> r.0 == *next && r.1 is Ok,
        response.status == StatusCode::Error ==> r.0 == *state && r.1 is Err && r.1->Err_0
            is Service && r.1->Err_0->Service_0 == response.message,
{
    match response.status {
        StatusCode::Success => (*next, Ok(())),
        StatusCode::Error => (*state, Err(ProcessError::Service(response.message))),
    }
}

/// The error that a failed exchange with the controller becomes.
pub open spec fn failure_error(e: ClientError) -> ProcessError {
    match e {
        ClientError::Codec(c) => ProcessError::Codec(c),
        ClientError::Transport(t) => ProcessError::Transport(t),
    }
}

pub fn client_failure(e: ClientError) -> (r: ProcessError)
    ensures
        r == failure_error(e),
{
    match e {
        ClientError::Codec(c) => ProcessError::Codec(c),
        ClientError::Transport(t) => ProcessError::Transport(t),
    }
}

/// The request that configures the controller's axes.
pub fn config_request(axes: &AxesConfig) -> (r: MovementApiRequest)
    ensures
        r == (MovementApiRequest::Config { axes_configs: *axes }),
{
    MovementApiRequest::Config { axes_configs: *axes }
}

/// What the controller's answer to the configuration request means: success
/// lets processing start, an error status refuses it with the controller's
/// message.
pub fn config_outcome(response: MovementApiResponse) -> (r: Result<(), ProcessError>)
    ensures
        response.status == StatusCode::Success ==> r is Ok,
        response.status == StatusCode::Error ==> (r matches Err(ProcessError::Service(m)) && m
            == response.message),
{
    match response.status {
        StatusCode::Success => Ok(()),
        StatusCode::Error => Err(ProcessError::Service(response.message)),
    }
}

/// Carries out G-code lines one at a time against a movement service.
pub struct GcodeProcessor<C> {
    pub parser: GcodeParser,
    /// Speed of rapid moves, in millionths.
    pub fast_movement_speed: i64,
    /// Speed of linear moves that give none, in millionths.
    pub default_movement_speed: i64,
    pub movement_service_client: C,
    pub current_state: GcodeProcessorState,
}

impl<C: ServiceClient<MovementApiRequest, MovementApiResponse, ClientError>> GcodeProcessor<C> {
    /// Sends `config_request(axes_configs)` once through the client and,
    /// when `config_outcome` of the answer is `Ok`, gives a processor that
    /// starts from `initial_state`; a failed exchange is `client_failure`.
    pub fn new(
        fast_movement_speed: i64,
        default_movement_speed: i64,
        movement_service_client: C,
        axes_configs: &AxesConfig,
        initial_state: GcodeProcessorState,
    ) -> (r: Result<Self, ProcessError>)
        ensures
            exists|c: C, res: Result<MovementApiResponse, ClientError>|
                #[trigger] c.exchanged(
                    movement_service_client,
                    MovementApiRequest::Config { axes_configs: *axes_configs },
                    res,
                ) && match res {
                    Err(e) => r matches Err(x) && x == failure_error(e),
                    Ok(resp) => match resp.status {
                        StatusCode::Success => r matches Ok(p) && p.movement_service_client == c
                            && p.current_state == initial_state && p.fast_movement_speed
                            == fast_movement_speed && p.default_movement_speed
                            == default_movement_speed,
                        StatusCode::Error => r matches Err(ProcessError::Service(m)) && m
                            == resp.message,
                    },
                },
    {
        let mut client = movement_service_client;
        let request = config_request(axes_configs);
        let answer = client.run_request(&request);
        assert(client.exchanged(movement_service_client, request, answer));
        match answer {
            Err(e) => Err(client_failure(e)),
            Ok(response) => match config_outcome(response) {
                Err(e) => Err(e),
                Ok(()) => Ok(
                    GcodeProcessor {
                        parser: GcodeParser,
                        fast_movement_speed,
                        default_movement_speed,
                        movement_service_client: client,
                        current_state: initial_state,
                    },
                ),
            },
        }
    }

    /// The state the processor is in.
    pub fn state(&self) -> (r: GcodeProcessorState)
        ensures
            r == self.current_state,
    {
        self.current_state
    }

    /// Carries out one line. A mode switch takes effect at once. A move is
    /// sent as a request; its displacement is committed only when the
    /// controller answers with success. On every failure the state stays.
    pub fn process(&mut self, gcode_line: &str) -> (r: Result<(), ProcessError>)
        ensures
            final(self).fast_movement_speed == old(self).fast_movement_speed,
            final(self).default_movement_speed == old(self).default_movement_speed,
            match parse_line(gcode_line@) {
                Err(pe) => r matches Err(ProcessError::Parse(e)) && e@ == pe
                    && final(self).current_state == old(self).current_state
                    && final(self).movement_service_client == old(self).movement_service_client,
                Ok(d) => match plan_spec(
                    d,
                    old(self).current_state,
                    old(self).fast_movement_speed,
                    old(self).default_movement_speed,
                ) {
                    Err(re) => r matches Err(ProcessError::Resolution(e)) && e == re
                        && final(self).current_state == old(self).current_state
                        && final(self).movement_service_client
                        == old(self).movement_service_client,
                    Ok(Plan::SetMode(m)) => r is Ok && final(self).current_state == switch_mode(
                        old(self).current_state,
                        m,
                    ) && final(self).movement_service_client == old(self).movement_service_client,
                    Ok(Plan::Move { request, next }) => exists|
                        res: Result<MovementApiResponse, ClientError>,
                    |
                        #[trigger] final(self).movement_service_client.exchanged(
                            old(self).movement_service_client,
                            request,
                            res,
                        ) && match res {
                            Err(e) => r matches Err(x) && x == failure_error(e)
                                && final(self).current_state == old(self).current_state,
                            Ok(resp) => match resp.status {
                                StatusCode::Success => r is Ok && final(self).current_state
                                    == next,
                                StatusCode::Error => r matches Err(ProcessError::Service(m)) && m
                                    == resp.message && final(self).current_state == old(
                                    self,
                                ).current_state,
                            },
                        },
                },
            },
    {
        let data = match self.parser.parse(gcode_line) {
            Err(e) => return Err(ProcessError::Parse(e)),
            Ok(d) => d,
        };
        let state = self.current_state;
        let p = match plan(&data, &state, self.fast_movement_speed, self.default_movement_speed) {
            Err(e) => return Err(ProcessError::Resolution(e)),
            Ok(p) => p,
        };
        match p {
            Plan::SetMode(m) => {
                self.current_state = GcodeProcessorState { coordinates_type: m, ..state };
                Ok(())
            },
            Plan::Move { request, next } => {
                let ghost before = self.movement_service_client;
                let answer = self.movement_service_client.run_request(&request);
                assert(self.movement_service_client.exchanged(before, request, answer));
                let out = match answer {
                    Err(e) => Err(client_failure(e)),
                    Ok(response) => {
                        let (s, r) = apply_response(&state, &next, response);
                        self.current_state = s;
                        r
                    },
                };
                assert(self.movement_service_client.exchanged(before, request, answer));
                assert(match answer {
                    Err(e) => out matches Err(x) && x == failure_error(e) && self.current_state
                        == state,
                    Ok(resp) => match resp.status {
                        StatusCode::Success => out is Ok && self.current_state == next,
                        StatusCode::Error => out matches Err(ProcessError::Service(m)) && m
                            == resp.message && self.current_state == state,
                    },
                });
                out
            },
        }
    }
}

pub open spec fn origin_state(mode: CoordinatesType) -> GcodeProcessorState {
    GcodeProcessorState { current_position: Vector { x: 0, y: 0, z: 0 }, coordinates_type: mode }
}

pub open spec fn token_or_zero(t: Option<i64>) -> i64 {
    match t {
        Some(v) => v,
        None => 0,
    }
}

/// From the origin in absolute mode, a move's displacement is the target
/// itself, with zero on every axis the move does not name; so `X5` alone
/// gives `(5, 0, 0)`.
pub proof fn lemma_absolute_from_origin(tokens: VectorToken)
    requires
        !tokens.is_empty(),
    ensures
        resolve_spec(tokens, origin_state(CoordinatesType::Absolute)) == Ok::<
            Vector,
            ResolutionError,
        >(
            Vector {
                x: token_or_zero(tokens.x),
                y: token_or_zero(tokens.y),
                z: token_or_zero(tokens.z),
            },
        ),
{
}

/// In relative mode each move sends its own displacement, and two moves that
/// both succeed leave the machine at the start plus both displacements:
/// `X1` then `Y1` from the origin send `(1, 0, 0)` and `(0, 1, 0)` and end at
/// `(1, 1, 0)`.
pub proof fn lemma_relative_moves_add_up(
    start: GcodeProcessorState,
    first: GcodeData,
    second: GcodeData,
    fast: i64,
    default: i64,
)
    requires
        start.coordinates_type == CoordinatesType::Relative,
        first.command == Command::LinearMove,
        second.command == Command::LinearMove,
        plan_spec(first, start, fast, default) is Ok,
        plan_spec(
            second,
            plan_spec(first, start, fast, default)->Ok_0->next,
            fast,
            default,
        ) is Ok,
    ensures
        ({
            let mid = plan_spec(first, start, fast, default)->Ok_0->next;
            let end = plan_spec(second, mid, fast, default)->Ok_0->next;
            &&& plan_spec(first, start, fast, default)->Ok_0->request
                matches MovementApiRequest::LinearMovement { destination: d, speed: _ } && d == (
            Vector {
                x: token_or_zero(first.target_tokens.x),
                y: token_or_zero(first.target_tokens.y),
                z: token_or_zero(first.target_tokens.z),
            })
            &&& plan_spec(second, mid, fast, default)->Ok_0->request
                matches MovementApiRequest::LinearMovement { destination: d, speed: _ } && d == (
            Vector {
                x: token_or_zero(second.target_tokens.x),
                y: token_or_zero(second.target_tokens.y),
                z: token_or_zero(second.target_tokens.z),
            })
            &&& end.coordinates_type == CoordinatesType::Relative
            &&& end.current_position.x == start.current_position.x + token_or_zero(
                first.target_tokens.x,
            ) + token_or_zero(second.target_tokens.x)
            &&& end.current_position.y == start.current_position.y + token_or_zero(
                first.target_tokens.y,
            ) + token_or_zero(second.target_tokens.y)
            &&& end.current_position.z == start.current_position.z + token_or_zero(
                first.target_tokens.z,
            ) + token_or_zero(second.target_tokens.z)
        }),
{
}

/// Switching to relative mode and back to absolute leaves the position as
/// it was.
pub proof fn lemma_mode_round_trip_keeps_position(
    start: GcodeProcessorState,
    to_relative: GcodeData,
    to_absolute: GcodeData,
    fast: i64,
    default: i64,
)
    requires
        to_relative.command == Command::SetRelativeMode,
        to_absolute.command == Command::SetAbsoluteMode,
    ensures
        ({
            let mid = switch_mode(start, CoordinatesType::Relative);
            let end = switch_mode(mid, CoordinatesType::Absolute);
            &&& plan_spec(to_relative, start, fast, default) == Ok::<Plan, ResolutionError>(
                Plan::SetMode(CoordinatesType::Relative),
            )
            &&& plan_spec(to_absolute, mid, fast, default) == Ok::<Plan, ResolutionError>(
                Plan::SetMode(CoordinatesType::Absolute),
            )
            &&& end.current_position == start.current_position
            &&& end.coordinates_type == CoordinatesType::Absolute
        }),
{
}

/// A move that names no axis is refused before anything is sent, so the
/// position stays (`G01` alone).
pub proof fn lemma_move_without_target_refused(
    d: GcodeData,
    state: GcodeProcessorState,
    fast: i64,
    default: i64,
)
    requires
        d.command == Command::LinearMove || d.command == Command::RapidMove,
        d.target_tokens.is_empty(),
    ensures
        plan_spec(d, state, fast, default) == Err::<Plan, ResolutionError>(
            ResolutionError::NoTarget,
        ),
{
}

} // verus!
