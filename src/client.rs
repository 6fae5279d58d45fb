//! One synchronous request/response exchange with a service.
use crate::error::{ClientError, CodecError, TransportError};
use crate::movement::{MovementApiRequest, MovementApiResponse};
use vstd::prelude::*;

verus! {

/// Runs one request and gives back the service's response.
pub trait ServiceClient<Request, Response, Error>: Sized {
    /// Whether `self` is what `before` became by running `request` once,
    /// with `result` as the outcome. An implementation that states nothing
    /// allows every change.
    closed spec fn exchanged(
        &self,
        before: Self,
        request: Request,
        result: Result<Response, Error>,
    ) -> bool {
        true
    }

    fn run_request(&mut self, request: &Request) -> (r: Result<Response, Error>)
        ensures
            final(self).exchanged(*old(self), *request, r),
    ;
}

/// Turns one value into another: a request into wire bytes, wire bytes into
/// a response.
pub trait DataTransformer<Input, Output, Error> {
    /// The error that `input` gives, or `None` when it is transformed. An
    /// implementation that states nothing leaves it unknown.
    closed spec fn failure_of(&self, input: Input) -> Option<Error> {
        arbitrary()
    }

    /// Whether `output` is what a successful transform of `input` gives.
    closed spec fn gives(&self, input: Input, output: Output) -> bool {
        arbitrary()
    }

    fn transform(&self, input: &Input) -> (r: Result<Output, Error>)
        ensures
            match self.failure_of(*input) {
                Some(e) => r == Err::<Output, Error>(e),
                None => r matches Ok(o) && self.gives(*input, o),
            },
    ;
}

/// Reads one whole message from a channel.
pub trait IpcReader<Data, Error>: Sized {
    /// Whether `self` is what `before` became by one read that gave
    /// `result`. An implementation that states nothing allows every change.
    closed spec fn read_gave(&self, before: Self, result: Result<Data, Error>) -> bool {
        true
    }

    fn read_data(&mut self) -> (r: Result<Data, Error>)
        ensures
            final(self).read_gave(*old(self), r),
    ;
}

/// Writes one whole message to a channel.
pub trait IpcWriter<Data, Error>: Sized {
    /// Whether `self` is what `before` became by writing `data` once, with
    /// `result` as the outcome. An implementation that states nothing allows
    /// every change.
    closed spec fn wrote(&self, before: Self, data: Data, result: Result<(), Error>) -> bool {
        true
    }

    fn write_data(&mut self, data: &Data) -> (r: Result<(), Error>)
        ensures
            final(self).wrote(*old(self), *data, r),
    ;
}


/// A client of the motion controller: it encodes a request, writes it,
/// reads the reply and decodes it, stopping at the first stage that fails.
pub struct MovementServiceClient<R, W, S, P> {
    pub raw_data_reader: R,
    pub raw_data_writer: W,
    pub request_serializer: S,
    pub response_parser: P,
}

impl<R, W, S, P> MovementServiceClient<R, W, S, P> {
    pub fn new(raw_data_reader: R, raw_data_writer: W, request_serializer: S, response_parser: P) -> (r:
        Self)
        ensures
            r.raw_data_reader == raw_data_reader,
            r.raw_data_writer == raw_data_writer,
            r.request_serializer == request_serializer,
            r.response_parser == response_parser,
    {
        MovementServiceClient { raw_data_reader, raw_data_writer, request_serializer, response_parser }
    }
}

/// What is left to do of an exchange once the request was encoded as
/// `bytes`: write them, read the reply, decode it; `after` is the client
/// afterwards and `result` the outcome.
pub open spec fn exchange_after_encoding<R, W, S, P>(
    after: MovementServiceClient<R, W, S, P>,
    before: MovementServiceClient<R, W, S, P>,
    bytes: Vec<u8>,
    result: Result<MovementApiResponse, ClientError>,
) -> bool where
    R: IpcReader<Vec<u8>, TransportError>,
    W: IpcWriter<Vec<u8>, TransportError>,
    P: DataTransformer<Vec<u8>, MovementApiResponse, CodecError>,
 {
    exists|w: Result<(), TransportError>|
        #[trigger] after.raw_data_writer.wrote(before.raw_data_writer, bytes, w) && match w {
            Err(e) => result == Err::<MovementApiResponse, ClientError>(ClientError::Transport(e))
                && after.raw_data_reader == before.raw_data_reader,
            Ok(_) => exists|got: Result<Vec<u8>, TransportError>|
                #[trigger] after.raw_data_reader.read_gave(before.raw_data_reader, got) && match got {
                    Err(e) => result == Err::<MovementApiResponse, ClientError>(
                        ClientError::Transport(e),
                    ),
                    Ok(raw) => match before.response_parser.failure_of(raw) {
                        Some(e) => result == Err::<MovementApiResponse, ClientError>(
                            ClientError::Codec(e),
                        ),
                        None => result matches Ok(resp) && before.response_parser.gives(raw, resp),
                    },
                },
        }
}

impl<
    R: IpcReader<Vec<u8>, TransportError>,
    W: IpcWriter<Vec<u8>, TransportError>,
    S: DataTransformer<MovementApiRequest, Vec<u8>, CodecError>,
    P: DataTransformer<Vec<u8>, MovementApiResponse, CodecError>,
> ServiceClient<MovementApiRequest, MovementApiResponse, ClientError> for MovementServiceClient<
    R,
    W,
    S,
    P,
> {
    /// One exchange: encode the request, write it, read the reply, decode
    /// it, each once and in that order; the first stage that fails ends the
    /// exchange with its own error.
    open spec fn exchanged(
        &self,
        before: Self,
        request: MovementApiRequest,
        result: Result<MovementApiResponse, ClientError>,
    ) -> bool {
        &&& self.request_serializer == before.request_serializer
        &&& self.response_parser == before.response_parser
        &&& match before.request_serializer.failure_of(request) {
            Some(e) => result == Err::<MovementApiResponse, ClientError>(ClientError::Codec(e))
                && *self == before,
            None => exists|b: Vec<u8>|
                #[trigger] before.request_serializer.gives(request, b) && exchange_after_encoding(
                    *self,
                    before,
                    b,
                    result,
                ),
        }
    }

    fn run_request(&mut self, request: &MovementApiRequest) -> (r: Result<
        MovementApiResponse,
        ClientError,
    >) {
        let ghost before = *self;
        let serial_request = match self.request_serializer.transform(request) {
            Err(e) => return Err(ClientError::Codec(e)),
            Ok(b) => b,
        };
        let written = self.raw_data_writer.write_data(&serial_request);
        match written {
            Err(e) => {
                assert(self.raw_data_writer.wrote(before.raw_data_writer, serial_request, written));
                assert(self.raw_data_reader == before.raw_data_reader);
                assert(exchange_after_encoding(*self, before, serial_request, Err(ClientError::Transport(e))));
                return Err(ClientError::Transport(e));
            },
            Ok(()) => {},
        }
        let got = self.raw_data_reader.read_data();
        let serial_response = match got {
            Err(e) => {
                assert(self.raw_data_writer.wrote(before.raw_data_writer, serial_request, written));
                assert(self.raw_data_reader.read_gave(before.raw_data_reader, got));
                assert(exchange_after_encoding(*self, before, serial_request, Err(ClientError::Transport(e))));
                return Err(ClientError::Transport(e));
            },
            Ok(b) => b,
        };
        let parsed = self.response_parser.transform(&serial_response);
        let r = match parsed {
            Err(e) => Err(ClientError::Codec(e)),
            Ok(resp) => Ok(resp),
        };
        assert(self.raw_data_writer.wrote(before.raw_data_writer, serial_request, written));
        assert(self.raw_data_reader.read_gave(before.raw_data_reader, got));
        assert(exchange_after_encoding(*self, before, serial_request, r));
        r
    }
}

} // verus!
