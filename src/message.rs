//! The wire format shared by host and worker: a message is an ordered,
//! positional sequence of values, and only its length tells the kinds apart
//! (0: ready signal, 2: request, 3: response).
use vstd::prelude::*;

verus! {

/// One value of a message as the receiving side sees it: a number already
/// brought to an unsigned 32-bit integer, or something that is not a number
/// (which includes a position past the end of the message).
#[derive(Clone, Copy, Debug, PartialEq, Eq, Structural)]
pub enum WireValue {
    Number(u32),
    NonNumeric,
}

/// A request `[a, b]` from host to worker.
#[derive(Clone, Copy, Debug, PartialEq, Eq, Structural)]
pub struct Request {
    pub a: u32,
    pub b: u32,
}

/// A response `[a, b, result]` from worker to host.
#[derive(Clone, Copy, Debug, PartialEq, Eq, Structural)]
pub struct Response {
    pub a: u32,
    pub b: u32,
    pub result: u32,
}

/// The value at `position` of a received message was missing or not a number.
#[derive(Clone, Copy, Debug, PartialEq, Eq, Structural)]
pub struct DecodeError {
    pub position: usize,
}

/// `a * b` as unsigned 32-bit multiplication that wraps on overflow.
pub open spec fn wrapping_product(a: u32, b: u32) -> u32 {
    ((a as nat * b as nat) % 0x1_0000_0000) as u32
}

/// The response owed to a request.
pub open spec fn response_to(req: Request) -> Response {
    Response { a: req.a, b: req.b, result: wrapping_product(req.a, req.b) }
}

/// Whether position `i` of `msg` holds a number.
pub open spec fn numeric_at(msg: Seq<WireValue>, i: int) -> bool {
    0 <= i < msg.len() && msg[i] is Number
}

/// The number at position `i` of `msg` (meaningful where `numeric_at` holds).
pub open spec fn number_at(msg: Seq<WireValue>, i: int) -> u32 {
    msg[i]->Number_0
}

/// What decoding a message as a request gives: the numbers at positions 0 and 1,
/// or an error at the first of them that is missing or not a number.
pub open spec fn request_decoding(msg: Seq<WireValue>) -> Result<Request, DecodeError> {
    if !numeric_at(msg, 0) {
        Err(DecodeError { position: 0 })
    } else if !numeric_at(msg, 1) {
        Err(DecodeError { position: 1 })
    } else {
        Ok(Request { a: number_at(msg, 0), b: number_at(msg, 1) })
    }
}

/// What decoding a message as a response gives: the numbers at positions 0, 1
/// and 2, or an error at the first of them that is missing or not a number.
pub open spec fn response_decoding(msg: Seq<WireValue>) -> Result<Response, DecodeError> {
    if !numeric_at(msg, 0) {
        Err(DecodeError { position: 0 })
    } else if !numeric_at(msg, 1) {
        Err(DecodeError { position: 1 })
    } else if !numeric_at(msg, 2) {
        Err(DecodeError { position: 2 })
    } else {
        Ok(Response { a: number_at(msg, 0), b: number_at(msg, 1), result: number_at(msg, 2) })
    }
}

/// The ready signal: the empty message.
pub open spec fn ready_message() -> Seq<WireValue> {
    Seq::empty()
}

/// The message that carries a request.
pub open spec fn request_message(req: Request) -> Seq<WireValue> {
    seq![WireValue::Number(req.a), WireValue::Number(req.b)]
}

/// The message that carries a response.
pub open spec fn response_message(resp: Response) -> Seq<WireValue> {
    seq![WireValue::Number(resp.a), WireValue::Number(resp.b), WireValue::Number(resp.result)]
}

/// Reads the number at `position` of `msg`.
pub fn number_at_position(msg: &Vec<WireValue>, position: usize) -> (r: Result<u32, DecodeError>)
    ensures
        numeric_at(msg@, position as int) ==> r == Ok::<u32, DecodeError>(
            number_at(msg@, position as int),
        ),
        !numeric_at(msg@, position as int) ==> r == Err::<u32, DecodeError>(
            DecodeError { position },
        ),
{
    if position < msg.len() {
        match msg[position] {
            WireValue::Number(n) => Ok(n),
            WireValue::NonNumeric => Err(DecodeError { position }),
        }
    } else {
        Err(DecodeError { position })
    }
}

/// Builds the ready signal.
pub fn encode_ready() -> (r: Vec<WireValue>)
    ensures
        r@ == ready_message(),
{
    Vec::new()
}

impl Request {
    /// Builds the message that carries this request.
    pub fn encode(&self) -> (r: Vec<WireValue>)
        ensures
            r@ == request_message(*self),
    {
        let mut v: Vec<WireValue> = Vec::new();
        v.push(WireValue::Number(self.a));
        v.push(WireValue::Number(self.b));
        v
    }

    /// Reads a request from a message: positions 0 and 1 must hold numbers;
    /// anything after them is not looked at.
    pub fn decode(msg: &Vec<WireValue>) -> (r: Result<Request, DecodeError>)
        ensures
            r == request_decoding(msg@),
    {
        let a = match number_at_position(msg, 0) {
            Ok(n) => n,
            Err(e) => return Err(e),
        };
        let b = match number_at_position(msg, 1) {
            Ok(n) => n,
            Err(e) => return Err(e),
        };
        Ok(Request { a, b })
    }

    /// Carries out the request: the inputs unchanged and their product,
    /// wrapped to 32 bits.
    pub fn compute(&self) -> (r: Response)
        ensures
            r == response_to(*self),
            r.a == self.a,
            r.b == self.b,
            r.result == wrapping_product(self.a, self.b),
    {
        Response { a: self.a, b: self.b, result: self.a.wrapping_mul(self.b) }
    }
}

impl Response {
    /// Builds the message that carries this response.
    pub fn encode(&self) -> (r: Vec<WireValue>)
        ensures
            r@ == response_message(*self),
    {
        let mut v: Vec<WireValue> = Vec::new();
        v.push(WireValue::Number(self.a));
        v.push(WireValue::Number(self.b));
        v.push(WireValue::Number(self.result));
        v
    }

    /// Reads a response from a message: positions 0, 1 and 2 must hold numbers;
    /// anything after them is not looked at.
    pub fn decode(msg: &Vec<WireValue>) -> (r: Result<Response, DecodeError>)
        ensures
            r == response_decoding(msg@),
    {
        let a = match number_at_position(msg, 0) {
            Ok(n) => n,
            Err(e) => return Err(e),
        };
        let b = match number_at_position(msg, 1) {
            Ok(n) => n,
            Err(e) => return Err(e),
        };
        let result = match number_at_position(msg, 2) {
            Ok(n) => n,
            Err(e) => return Err(e),
        };
        Ok(Response { a, b, result })
    }
}

} // verus!
