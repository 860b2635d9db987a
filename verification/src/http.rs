//! The wire protocol the connection server speaks: requests are a block
//! of bytes terminated by CRLF CRLF and nothing else is framed;
//! responses are literal byte sequences of the form
//! `HTTP/1.0 <status>\r\n<headers>\r\n<body>`. The minimal variant emits
//! one fixed `200 OK` response with no headers; the richer variant
//! dispatches on method and path, answering 200, 404 or 405, and drives
//! the shared hardware flag from its named endpoints.

use vstd::prelude::*;
use crate::hardware::{CellOp, HardwareCell, apply_op};

verus! {

pub const CR: u8 = 13;

pub const LF: u8 = 10;

pub const SP: u8 = 32;

/// The request terminator CRLF CRLF begins at index `i` of `s`.
pub open spec fn terminator_at(s: Seq<u8>, i: int) -> bool {
    &&& 0 <= i
    &&& i + 4 <= s.len()
    &&& s[i] == CR
    &&& s[i + 1] == LF
    &&& s[i + 2] == CR
    &&& s[i + 3] == LF
}

/// The bytes hold a complete request: CRLF CRLF occurs somewhere.
pub open spec fn contains_terminator(s: Seq<u8>) -> bool {
    exists|i: int| terminator_at(s, i)
}

/// Scan the first `len` bytes for CRLF CRLF.
pub fn find_terminator(data: &Vec<u8>, len: usize) -> (r: bool)
    requires
        len <= data@.len(),
    ensures
        r == contains_terminator(data@.take(len as int)),
{
    if len < 4 {
        return false;
    }
    let mut i: usize = 0;
    while i <= len - 4
        invariant
            len <= data@.len(),
            4 <= len,
            i <= len,
            forall|k: int| 0 <= k < i ==> !terminator_at(data@.take(len as int), k),
        decreases len - i,
    {
        if data[i] == CR && data[i + 1] == LF && data[i + 2] == CR && data[i + 3] == LF {
            proof {
                assert(terminator_at(data@.take(len as int), i as int));
            }
            return true;
        }
        proof {
            assert(!terminator_at(data@.take(len as int), i as int));
        }
        i = i + 1;
    }
    false
}

/// What one read delivered into the receive buffer.
#[derive(Clone, Copy, PartialEq, Eq, Structural, Debug)]
pub enum FeedOutcome {
    /// No terminator yet: keep reading.
    NeedMore,
    /// The accumulated bytes contain CRLF CRLF: respond.
    Complete,
    /// The chunk does not fit in what is left of the buffer. A request
    /// that fills the buffer without presenting the terminator is
    /// treated as malformed and the connection abandoned — an explicit
    /// design choice, not a silent truncation.
    Overflow,
}

/// The fixed receive buffer, reused across connections, never resized;
/// `pos` is how much of it the current connection has filled.
pub struct RecvBuffer {
    pub data: Vec<u8>,
    pub pos: usize,
}

impl RecvBuffer {
    pub open spec fn wf(self) -> bool {
        self.pos <= self.data@.len()
    }

    pub open spec fn capacity(self) -> nat {
        self.data@.len()
    }

    /// The bytes accumulated so far for the current connection.
    pub open spec fn received(self) -> Seq<u8> {
        self.data@.take(self.pos as int)
    }

    pub fn new(capacity: usize) -> (b: RecvBuffer)
        ensures
            b.wf(),
            b.capacity() == capacity,
            b.pos == 0,
    {
        let mut data: Vec<u8> = Vec::new();
        let mut k: usize = 0;
        while k < capacity
            invariant
                k <= capacity,
                data@.len() == k,
            decreases capacity - k,
        {
            data.push(0);
            k = k + 1;
        }
        RecvBuffer { data, pos: 0 }
    }

    /// Forget the previous connection's bytes.
    pub fn reset(&mut self)
        ensures
            final(self).wf(),
            final(self).capacity() == old(self).capacity(),
            final(self).pos == 0,
    {
        self.pos = 0;
    }

    /// Take one read's worth of bytes. The chunk is copied in whole or
    /// not at all; the outcome says exactly which, and whether the
    /// accumulated bytes now hold the terminator.
    pub fn feed(&mut self, chunk: &[u8]) -> (r: FeedOutcome)
        requires
            old(self).wf(),
        ensures
            final(self).wf(),
            final(self).capacity() == old(self).capacity(),
            r == FeedOutcome::Overflow <==> old(self).pos + chunk@.len() > old(self).capacity(),
            match r {
                FeedOutcome::Overflow => *final(self) == *old(self),
                FeedOutcome::Complete => final(self).received() =~= old(self).received() + chunk@
                    && contains_terminator(final(self).received()),
                FeedOutcome::NeedMore => final(self).received() =~= old(self).received() + chunk@
                    && !contains_terminator(final(self).received()),
            },
    {
        let k = chunk.len();
        if k > self.data.len() - self.pos {
            return FeedOutcome::Overflow;
        }
        let start = self.pos;
        let mut m: usize = 0;
        while m < k
            invariant
                start + k <= self.data@.len(),
                start + k <= usize::MAX,
                m <= k,
                k == chunk@.len(),
                self.pos == start,
                self.data@.len() == old(self).data@.len(),
                self.data@.take(start as int) =~= old(self).received(),
                forall|t: int| 0 <= t < m ==> self.data@[start + t] == chunk@[t],
            decreases k - m,
        {
            self.data.set(start + m, chunk[m]);
            m = m + 1;
        }
        self.pos = start + k;
        proof {
            assert(self.received() =~= old(self).received() + chunk@);
        }
        if find_terminator(&self.data, self.pos) {
            FeedOutcome::Complete
        } else {
            FeedOutcome::NeedMore
        }
    }
}

/// The request method, as far as this server distinguishes it.
#[derive(Clone, Copy, PartialEq, Eq, Structural, Debug)]
pub enum Method {
    Get,
    Other,
}

/// The bytes of the token `GET`.
pub open spec fn get_token() -> Seq<u8> {
    seq![71u8, 69u8, 84u8]
}

/// A parsed request line: the method and the path token.
pub struct RequestLine {
    pub method: Method,
    pub path: Vec<u8>,
}

/// Compare a byte vector against a byte slice.
pub fn bytes_eq(a: &Vec<u8>, b: &[u8]) -> (r: bool)
    ensures
        r == (a@ =~= b@),
{
    if a.len() != b.len() {
        return false;
    }
    let n = a.len();
    let mut i: usize = 0;
    while i < n
        invariant
            n == a@.len(),
            n == b@.len(),
            i <= n,
            forall|k: int| 0 <= k < i ==> a@[k] == b@[k],
        decreases n - i,
    {
        if a[i] != b[i] {
            return false;
        }
        i = i + 1;
    }
    true
}

/// The smallest index at or after `from` holding a space, or the length
/// of `s` if there is none.
pub open spec fn first_sp(s: Seq<u8>, from: int) -> int
    recommends
        0 <= from <= s.len(),
    decreases s.len() - from
        when 0 <= from <= s.len()
{
    if from >= s.len() {
        s.len() as int
    } else if s[from] == SP {
        from
    } else {
        first_sp(s, from + 1)
    }
}

pub proof fn lemma_first_sp_found(s: Seq<u8>, from: int, i: int)
    requires
        0 <= from <= i < s.len(),
        s[i] == SP,
        forall|k: int| from <= k < i ==> s[k] != SP,
    ensures
        first_sp(s, from) == i,
    decreases i - from,
{
    if from < i {
        lemma_first_sp_found(s, from + 1, i);
    }
}

pub proof fn lemma_first_sp_none(s: Seq<u8>, from: int)
    requires
        0 <= from <= s.len(),
        forall|k: int| from <= k < s.len() ==> s[k] != SP,
    ensures
        first_sp(s, from) == s.len(),
    decreases s.len() - from,
{
    if from < s.len() {
        lemma_first_sp_none(s, from + 1);
    }
}

/// What the request line means: the method token is the bytes before
/// the first space, the path token the bytes between the first and
/// second spaces; with fewer than two spaces the line is malformed.
pub open spec fn spec_parse(s: Seq<u8>) -> Option<(Method, Seq<u8>)> {
    let i1 = first_sp(s, 0);
    if i1 >= s.len() {
        Option::None
    } else {
        let i2 = first_sp(s, i1 + 1);
        if i2 >= s.len() {
            Option::None
        } else {
            let m = if s.subrange(0, i1) == get_token() {
                Method::Get
            } else {
                Method::Other
            };
            Option::Some((m, s.subrange(i1 + 1, i2)))
        }
    }
}

/// Parse the request line from the first `len` accumulated bytes: the
/// method is the bytes before the first space, the path the bytes
/// between the first and second spaces. A request with fewer than two
/// spaces in it is malformed and parses to nothing.
pub fn parse_request_line(data: &Vec<u8>, len: usize) -> (r: Option<RequestLine>)
    requires
        len <= data@.len(),
    ensures
        ({
            let s = data@.take(len as int);
            match r {
                Option::Some(rl) => spec_parse(s) == Option::Some((rl.method, rl.path@)),
                Option::None => spec_parse(s) is None,
            }
        }),
{
    let ghost s = data@.take(len as int);
    // First space.
    let mut i1: usize = 0;
    let mut found1 = false;
    while i1 < len && !found1
        invariant
            len <= data@.len(),
            s == data@.take(len as int),
            i1 <= len,
            found1 ==> i1 < len && s[i1 as int] == SP,
            forall|k: int| 0 <= k < i1 ==> s[k] != SP,
            !found1 || i1 < len,
        decreases len - i1 + (if found1 { 0int } else { 1int }),
    {
        if data[i1] == SP {
            found1 = true;
        } else {
            i1 = i1 + 1;
        }
    }
    if !found1 {
        proof {
            lemma_first_sp_none(s, 0);
        }
        return Option::None;
    }
    proof {
        lemma_first_sp_found(s, 0, i1 as int);
    }
    // Second space.
    let mut i2: usize = i1 + 1;
    let mut found2 = false;
    while i2 < len && !found2
        invariant
            len <= data@.len(),
            s == data@.take(len as int),
            i1 < i2 <= len,
            s[i1 as int] == SP,
            forall|k: int| 0 <= k < i1 ==> s[k] != SP,
            found2 ==> i2 < len && s[i2 as int] == SP,
            forall|k: int| i1 < k < i2 ==> s[k] != SP,
            !found2 || i2 < len,
        decreases len - i2 + (if found2 { 0int } else { 1int }),
    {
        if data[i2] == SP {
            found2 = true;
        } else {
            i2 = i2 + 1;
        }
    }
    if !found2 {
        proof {
            lemma_first_sp_none(s, i1 + 1);
        }
        return Option::None;
    }
    proof {
        lemma_first_sp_found(s, i1 + 1, i2 as int);
    }
    // The method token.
    let is_get = i1 == 3 && data[0] == 71 && data[1] == 69 && data[2] == 84;
    proof {
        assert(is_get == (s.subrange(0, i1 as int) =~= get_token()));
    }
    let method = if is_get {
        Method::Get
    } else {
        Method::Other
    };
    // The path token.
    let mut path: Vec<u8> = Vec::new();
    let mut p: usize = i1 + 1;
    while p < i2
        invariant
            len <= data@.len(),
            s == data@.take(len as int),
            i1 + 1 <= p <= i2 < len,
            path@.len() == p - i1 - 1,
            forall|k: int| 0 <= k < path@.len() ==> path@[k] == s[i1 + 1 + k],
        decreases i2 - p,
    {
        path.push(data[p]);
        p = p + 1;
    }
    proof {
        assert(path@ =~= s.subrange(i1 + 1, i2 as int));
    }
    Option::Some(RequestLine { method, path })
}


/// Status of a response, with its full reason phrase.
#[derive(Clone, Copy, PartialEq, Eq, Structural, Debug)]
pub enum StatusCode {
    Success,
    NotFound,
    MethodNotAllowed,
}

/// The bytes of `HTTP/1.0 ` (trailing space included).
pub open spec fn http_prefix() -> Seq<u8> {
    seq![72u8, 84u8, 84u8, 80u8, 47u8, 49u8, 46u8, 48u8, 32u8]
}

/// Status and reason: `200 OK`, `404 Not Found`, `405 Method Not
/// Allowed`.
pub open spec fn status_head(st: StatusCode) -> Seq<u8> {
    match st {
        StatusCode::Success => seq![50u8, 48u8, 48u8, 32u8, 79u8, 75u8],
        StatusCode::NotFound => seq![
            52u8, 48u8, 52u8, 32u8, 78u8, 111u8, 116u8, 32u8, 70u8, 111u8, 117u8, 110u8, 100u8,
        ],
        StatusCode::MethodNotAllowed => seq![
            52u8, 48u8, 53u8, 32u8, 77u8, 101u8, 116u8, 104u8, 111u8, 100u8, 32u8, 78u8, 111u8,
            116u8, 32u8, 65u8, 108u8, 108u8, 111u8, 119u8, 101u8, 100u8,
        ],
    }
}

pub open spec fn crlf() -> Seq<u8> {
    seq![13u8, 10u8]
}

/// The bytes of `Content-Type: text/plain` followed by CRLF.
pub open spec fn content_type_line() -> Seq<u8> {
    seq![
        67u8, 111u8, 110u8, 116u8, 101u8, 110u8, 116u8, 45u8, 84u8, 121u8, 112u8, 101u8, 58u8,
        32u8, 116u8, 101u8, 120u8, 116u8, 47u8, 112u8, 108u8, 97u8, 105u8, 110u8, 13u8, 10u8,
    ]
}

/// A whole response on the wire: status line, optional content-type
/// header, the blank line, then the body.
pub open spec fn response_bytes(st: StatusCode, with_content_type: bool, body: Seq<u8>) -> Seq<u8> {
    http_prefix() + status_head(st) + crlf() + (if with_content_type {
        content_type_line()
    } else {
        Seq::empty()
    }) + crlf() + body
}

/// Append a byte slice to the transmit buffer.
pub fn push_bytes(out: &mut Vec<u8>, bytes: &[u8])
    ensures
        final(out)@ =~= old(out)@ + bytes@,
{
    let n = bytes.len();
    let mut i: usize = 0;
    while i < n
        invariant
            n == bytes@.len(),
            i <= n,
            out@ =~= old(out)@ + bytes@.take(i as int),
        decreases n - i,
    {
        out.push(bytes[i]);
        i = i + 1;
    }
}

/// Serialize a response. The minimal variant is exactly
/// `render_response(StatusCode::Success, false, body)`:
/// `HTTP/1.0 200 OK` CRLF CRLF body.
pub fn render_response(st: StatusCode, with_content_type: bool, body: &[u8]) -> (r: Vec<u8>)
    ensures
        r@ =~= response_bytes(st, with_content_type, body@),
{
    let mut out: Vec<u8> = Vec::new();
    let prefix: [u8; 9] = [72, 84, 84, 80, 47, 49, 46, 48, 32];
    push_bytes(&mut out, prefix.as_slice());
    match st {
        StatusCode::Success => {
            let head: [u8; 6] = [50, 48, 48, 32, 79, 75];
            push_bytes(&mut out, head.as_slice());
        },
        StatusCode::NotFound => {
            let head: [u8; 13] = [52, 48, 52, 32, 78, 111, 116, 32, 70, 111, 117, 110, 100];
            push_bytes(&mut out, head.as_slice());
        },
        StatusCode::MethodNotAllowed => {
            let head: [u8; 22] = [
                52, 48, 53, 32, 77, 101, 116, 104, 111, 100, 32, 78, 111, 116, 32, 65, 108, 108,
                111, 119, 101, 100,
            ];
            push_bytes(&mut out, head.as_slice());
        },
    }
    let line_end: [u8; 2] = [13, 10];
    push_bytes(&mut out, line_end.as_slice());
    if with_content_type {
        let ct: [u8; 26] = [
            67, 111, 110, 116, 101, 110, 116, 45, 84, 121, 112, 101, 58, 32, 116, 101, 120, 116,
            47, 112, 108, 97, 105, 110, 13, 10,
        ];
        push_bytes(&mut out, ct.as_slice());
    }
    push_bytes(&mut out, line_end.as_slice());
    push_bytes(&mut out, body);
    out
}

/// The minimal server's one canned answer to any complete request:
/// `HTTP/1.0 200 OK`, the blank line, then the configured body, with
/// no headers at all.
pub fn render_minimal_ok(body: &[u8]) -> (r: Vec<u8>)
    ensures
        r@ =~= response_bytes(StatusCode::Success, false, body@),
{
    render_response(StatusCode::Success, false, body)
}

/// The path `/`.
pub open spec fn path_root() -> Seq<u8> {
    seq![47u8]
}

/// The path `/on`.
pub open spec fn path_on() -> Seq<u8> {
    seq![47u8, 111u8, 110u8]
}

/// The path `/off`.
pub open spec fn path_off() -> Seq<u8> {
    seq![47u8, 111u8, 102u8, 102u8]
}

/// The path `/toggle`.
pub open spec fn path_toggle() -> Seq<u8> {
    seq![47u8, 116u8, 111u8, 103u8, 103u8, 108u8, 101u8]
}

/// The body `Hello world!`.
pub open spec fn hello_body() -> Seq<u8> {
    seq![72u8, 101u8, 108u8, 108u8, 111u8, 32u8, 119u8, 111u8, 114u8, 108u8, 100u8, 33u8]
}

/// The body `ON`.
pub open spec fn on_body() -> Seq<u8> {
    seq![79u8, 78u8]
}

/// The body `OFF`.
pub open spec fn off_body() -> Seq<u8> {
    seq![79u8, 70u8, 70u8]
}

/// What a request does to the hardware flag: the named endpoints write
/// it, everything else leaves it alone.
pub open spec fn endpoint_op(method: Method, path: Seq<u8>) -> CellOp {
    if !(method is Get) {
        CellOp::ReadOnly
    } else if path == path_on() {
        CellOp::TurnOn
    } else if path == path_off() {
        CellOp::TurnOff
    } else if path == path_toggle() {
        CellOp::Toggle
    } else {
        CellOp::ReadOnly
    }
}

/// Which status a request earns: 405 for anything but GET, 200 on the
/// known paths, 404 elsewhere.
pub open spec fn spec_status(method: Method, path: Seq<u8>) -> StatusCode {
    if !(method is Get) {
        StatusCode::MethodNotAllowed
    } else if path == path_root() || path == path_on() || path == path_off() || path
        == path_toggle() {
        StatusCode::Success
    } else {
        StatusCode::NotFound
    }
}

/// The body of a response: the greeting on `/`, the literal `ON` or
/// `OFF` reflecting the flag that resulted on the hardware endpoints,
/// nothing on errors.
pub open spec fn spec_body(method: Method, path: Seq<u8>, resulting_on: bool) -> Seq<u8> {
    if !(method is Get) {
        Seq::empty()
    } else if path == path_root() {
        hello_body()
    } else if path == path_on() || path == path_off() || path == path_toggle() {
        if resulting_on {
            on_body()
        } else {
            off_body()
        }
    } else {
        Seq::empty()
    }
}

/// One handler's result: what to send, and the flag it left behind.
pub struct HandlerOutcome {
    pub status: StatusCode,
    pub with_content_type: bool,
    pub body: Vec<u8>,
    pub light_on: bool,
}

/// Dispatch one parsed request: apply its operation to the hardware
/// flag under the caller's lock, then report the canned status and
/// body. The lock is needed only for the `perform` call inside; the
/// response is built after the mutation, never the other way round.
pub fn dispatch(method: Method, path: &Vec<u8>, cell: &mut HardwareCell) -> (r: HandlerOutcome)
    ensures
        final(cell).on == apply_op(old(cell).on, endpoint_op(method, path@)),
        r.status == spec_status(method, path@),
        r.with_content_type == (r.status is Success),
        r.body@ == spec_body(method, path@, final(cell).on),
        r.light_on == final(cell).on,
{
    let root: [u8; 1] = [47];
    let on_path: [u8; 3] = [47, 111, 110];
    let off_path: [u8; 4] = [47, 111, 102, 102];
    let toggle_path: [u8; 7] = [47, 116, 111, 103, 103, 108, 101];
    proof {
        assert(root@ =~= path_root());
        assert(on_path@ =~= path_on());
        assert(off_path@ =~= path_off());
        assert(toggle_path@ =~= path_toggle());
    }
    match method {
        Method::Other => {
            let light_on = cell.perform(CellOp::ReadOnly);
            let body: Vec<u8> = Vec::new();
            proof {
                assert(body@ =~= Seq::<u8>::empty());
            }
            HandlerOutcome {
                status: StatusCode::MethodNotAllowed,
                with_content_type: false,
                body,
                light_on,
            }
        },
        Method::Get => {
            if bytes_eq(path, root.as_slice()) {
                let light_on = cell.perform(CellOp::ReadOnly);
                let hello: [u8; 12] = [72, 101, 108, 108, 111, 32, 119, 111, 114, 108, 100, 33];
                let mut body: Vec<u8> = Vec::new();
                push_bytes(&mut body, hello.as_slice());
                HandlerOutcome {
                    status: StatusCode::Success,
                    with_content_type: true,
                    body,
                    light_on,
                }
            } else {
                let op = if bytes_eq(path, on_path.as_slice()) {
                    CellOp::TurnOn
                } else if bytes_eq(path, off_path.as_slice()) {
                    CellOp::TurnOff
                } else if bytes_eq(path, toggle_path.as_slice()) {
                    CellOp::Toggle
                } else {
                    CellOp::ReadOnly
                };
                let light_on = cell.perform(op);
                if matches!(op, CellOp::ReadOnly) {
                    HandlerOutcome {
                        status: StatusCode::NotFound,
                        with_content_type: false,
                        body: Vec::new(),
                        light_on,
                    }
                } else {
                    let mut body: Vec<u8> = Vec::new();
                    if light_on {
                        let on_text: [u8; 2] = [79, 78];
                        push_bytes(&mut body, on_text.as_slice());
                    } else {
                        let off_text: [u8; 3] = [79, 70, 70];
                        push_bytes(&mut body, off_text.as_slice());
                    }
                    HandlerOutcome {
                        status: StatusCode::Success,
                        with_content_type: true,
                        body,
                        light_on,
                    }
                }
            }
        },
    }
}

/// What answering a complete request means, as one mathematical step:
/// the response bytes and the hardware flag that results, or nothing if
/// the request line is malformed.
pub open spec fn spec_handle(s: Seq<u8>, light: bool) -> Option<(Seq<u8>, bool)> {
    match spec_parse(s) {
        Option::Some((m, p)) => {
            let resulting = apply_op(light, endpoint_op(m, p));
            let st = spec_status(m, p);
            Option::Some(
                (response_bytes(st, st is Success, spec_body(m, p, resulting)), resulting),
            )
        },
        Option::None => Option::None,
    }
}

/// Answer one complete request from the first `len` accumulated bytes:
/// parse the request line, drive the hardware flag, and serialize
/// exactly one response — or nothing, when the request line is
/// malformed and the connection is to be abandoned.
pub fn handle_request(data: &Vec<u8>, len: usize, cell: &mut HardwareCell) -> (r: Option<Vec<u8>>)
    requires
        len <= data@.len(),
    ensures
        match r {
            Option::Some(resp) => spec_handle(data@.take(len as int), old(cell).on)
                == Option::Some((resp@, final(cell).on)),
            Option::None => spec_handle(data@.take(len as int), old(cell).on) is None
                && *final(cell) == *old(cell),
        },
{
    match parse_request_line(data, len) {
        Option::None => Option::None,
        Option::Some(rl) => {
            let outcome = dispatch(rl.method, &rl.path, cell);
            let resp = render_response(
                outcome.status,
                outcome.with_content_type,
                outcome.body.as_slice(),
            );
            Option::Some(resp)
        },
    }
}

} // verus!
