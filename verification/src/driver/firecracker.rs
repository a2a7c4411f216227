//! The HTTP exchange with a microVM's control socket.

use vstd::prelude::*;

use crate::driver::DriverError;
#[allow(unused_imports)]
use crate::driver::DriverErrorView;
use crate::text;

verus! {

/// The standard library's lossy decoding of bytes as UTF-8, by name.
pub uninterp spec fn lossy_text(bytes: Seq<u8>) -> Seq<char>;

/// `String::from_utf8_lossy`. The result depends on the bytes alone, and bytes
/// that are UTF-8 are decoded as they are.
#[verifier::external_body]
fn lossy_string(bytes: &Vec<u8>) -> (s: String)
    ensures
        s@ == lossy_text(bytes@),
        vstd::utf8::valid_utf8(bytes@) ==> s@ == vstd::utf8::decode_utf8(bytes@),
{
    String::from_utf8_lossy(bytes).to_string()
}

/// The bytes of a request.
pub open spec fn request_text(
    method: Seq<char>,
    path: Seq<char>,
    body: Seq<char>,
) -> Seq<char> {
    method + " "@ + path
        + " HTTP/1.1\r\nHost: localhost\r\nContent-Type: application/json\r\nContent-Length: "@
        + text::dec(vstd::utf8::encode_utf8(body).len()) + "\r\nConnection: close\r\n\r\n"@ + body
}

/// Whether the blank line that ends a head is at `i`.
pub open spec fn head_ends_at(b: Seq<u8>, i: int) -> bool {
    &&& 0 <= i
    &&& i + 4 <= b.len()
    &&& b[i] == 13
    &&& b[i + 1] == 10
    &&& b[i + 2] == 13
    &&& b[i + 3] == 10
}

/// Where, from `from` on, the head first ends.
pub open spec fn head_end(b: Seq<u8>, from: nat) -> Option<nat>
    decreases b.len() - from,
{
    if from + 4 > b.len() {
        None
    } else if head_ends_at(b, from as int) {
        Some(from)
    } else {
        head_end(b, from + 1)
    }
}

/// Where the head first ends.
fn find_head_end(b: &Vec<u8>) -> (r: Option<usize>)
    ensures
        match r {
            Some(i) => head_end(b@, 0) == Some(i as nat) && i + 4 <= b@.len(),
            None => head_end(b@, 0) is None,
        },
{
    let n: usize = b.len();
    let mut i: usize = 0;
    while i < n && n - i >= 4
        invariant
            n == b@.len(),
            i <= n,
            head_end(b@, 0) == head_end(b@, i as nat),
        decreases n - i,
    {
        if b[i] == 13 && b[i + 1] == 10 && b[i + 2] == 13 && b[i + 3] == 10 {
            return Some(i);
        }
        i = i + 1;
    }
    None
}

/// The length that a header line announces, where it announces one.
pub open spec fn announced(line: Seq<char>) -> Option<nat> {
    if text::has_prefix_any_case(line, "content-length:"@) {
        text::parse_dec(text::trim(line.skip("content-length:"@.len() as int)), usize::MAX as nat)
    } else {
        None
    }
}

/// The first length that the lines from `from` on announce, or zero.
pub open spec fn first_announced(lines: Seq<Seq<char>>, from: nat) -> nat
    decreases lines.len() - from,
{
    if from >= lines.len() {
        0
    } else {
        match announced(lines[from as int]) {
            Some(n) => n,
            None => first_announced(lines, from + 1),
        }
    }
}

/// The length of the body that the head announces, or zero.
pub fn content_length(head: &str) -> (r: usize)
    ensures
        r == first_announced(text::lines(head@), 0),
{
    let lines = text::lines_of(head);
    let ghost v = lines.deep_view();
    let mut i: usize = 0;
    while i < lines.len()
        invariant
            i <= lines@.len(),
            v == lines.deep_view(),
            v == text::lines(head@),
            first_announced(v, 0) == first_announced(v, i as nat),
        decreases lines@.len() - i,
    {
        assert(v[i as int] == lines@[i as int]@);
        if let Some(rest) = text::strip_prefix_any_case(lines[i].as_str(), "content-length:") {
            let t = text::trimmed(rest.as_str());
            if let Some(n) = text::parse_number(t.as_str(), usize::MAX as u64) {
                return n as usize;
            }
        }
        i = i + 1;
    }
    0
}

/// The status code in the first line of the head, or zero.
pub open spec fn code_in(head: Seq<char>) -> nat {
    let l = text::lines(head);
    let w = text::words(if l.len() > 0 {
        l[0]
    } else {
        ""@
    });
    if w.len() > 1 {
        match text::parse_dec(w[1], 65535) {
            Some(n) => n,
            None => 0,
        }
    } else {
        0
    }
}

/// The status code in the first line of the head, or zero.
pub fn status_code(head: &str) -> (r: u16)
    ensures
        r == code_in(head@),
{
    let lines = text::lines_of(head);
    let ghost v = lines.deep_view();
    let first = if lines.len() > 0 {
        assert(v[0] == lines@[0]@);
        lines[0].as_str()
    } else {
        ""
    };
    let words = text::words_of(first);
    let ghost w = words.deep_view();
    if words.len() > 1 {
        assert(w[1] == words@[1]@);
        match text::parse_number(words[1].as_str(), 65535) {
            Some(n) => n as u16,
            None => 0,
        }
    } else {
        0
    }
}

/// A response as it comes in: first the bytes of its head, then, once the head
/// has said what to expect, the bytes of its body.
pub struct Exchange {
    pub buf: Vec<u8>,
    /// The status code and the length of the body.
    pub head: Option<(u16, usize)>,
}

/// The abstract value of [`Exchange`].
#[verifier::ext_equal]
pub struct ExchangeView {
    pub buf: Seq<u8>,
    pub head: Option<(u16, usize)>,
}

impl View for Exchange {
    type V = ExchangeView;

    open spec fn view(&self) -> ExchangeView {
        ExchangeView { buf: self.buf@, head: self.head }
    }
}

/// The answer of an exchange: status code and body.
pub type Answer = Result<(u16, String), DriverError>;

/// The abstract value of an [`Answer`].
pub type AnswerView = Result<(u16, Seq<char>), DriverErrorView>;

/// The error where the other side ends the exchange without an answer.
pub open spec fn closed_early() -> DriverErrorView {
    DriverErrorView::FirecrackerApi(
        "firecracker closed connection before sending response headers"@,
    )
}

impl ExchangeView {
    /// Nothing was read yet.
    pub open spec fn start() -> ExchangeView {
        ExchangeView { buf: seq![], head: None }
    }

    /// The answer, where the body is complete or no more can come.
    pub open spec fn settle(self, ended: bool) -> Option<AnswerView> {
        match self.head {
            Some((code, need)) => if !ended && self.buf.len() < need {
                None
            } else {
                let n = if self.buf.len() < need {
                    self.buf.len() as int
                } else {
                    need as int
                };
                Some(Ok((code, lossy_text(self.buf.take(n)))))
            },
            None => None,
        }
    }

    /// The exchange once `chunk` was read.
    pub open spec fn with(self, chunk: Seq<u8>) -> ExchangeView {
        let b = self.buf + chunk;
        match self.head {
            Some(_) => ExchangeView { buf: b, head: self.head },
            None => match head_end(b, 0) {
                Some(i) => {
                    let h = lossy_text(b.take(i as int));
                    ExchangeView {
                        buf: b.skip(i as int + 4),
                        head: Some(
                            (
                                code_in(h) as u16,
                                first_announced(text::lines(h), 0) as usize,
                            ),
                        ),
                    }
                },
                None => ExchangeView { buf: b, head: None },
            },
        }
    }

    /// What follows when `chunk` was read, where an empty one means that no
    /// more can come: the answer, or nothing where more must be read.
    pub open spec fn feed(self, chunk: Seq<u8>) -> (ExchangeView, Option<AnswerView>) {
        if chunk.len() > 0 {
            (self.with(chunk), self.with(chunk).settle(false))
        } else if self.head is None {
            (self, Some(Err(closed_early())))
        } else {
            (self, self.settle(true))
        }
    }
}

/// The bytes `from..to` of `b`.
fn bytes_of(b: &Vec<u8>, from: usize, to: usize) -> (r: Vec<u8>)
    requires
        from <= to <= b@.len(),
    ensures
        r@ == b@.subrange(from as int, to as int),
{
    let mut r: Vec<u8> = Vec::new();
    let mut i: usize = from;
    while i < to
        invariant
            from <= i <= to <= b@.len(),
            r@ == b@.subrange(from as int, i as int),
        decreases to - i,
    {
        r.push(b[i]);
        assert(r@ =~= b@.subrange(from as int, i + 1));
        i = i + 1;
    }
    r
}

impl Exchange {
    /// Nothing was read yet.
    pub fn new() -> (e: Self)
        ensures
            e@ == ExchangeView::start(),
    {
        let e = Exchange { buf: Vec::new(), head: None };
        assert(e@ =~= ExchangeView::start());
        e
    }

    fn settle(&self, ended: bool) -> (r: Option<Answer>)
        ensures
            r is Some == self@.settle(ended) is Some,
            r matches Some(a) ==> answer_view(a) == self@.settle(ended).unwrap(),
    {
        match self.head {
            Some((code, need)) => {
                if !ended && self.buf.len() < need {
                    None
                } else {
                    let n: usize = if self.buf.len() < need {
                        self.buf.len()
                    } else {
                        need
                    };
                    let b = bytes_of(&self.buf, 0, n);
                    assert(b@ =~= self.buf@.take(n as int));
                    Some(Ok((code, lossy_string(&b))))
                }
            },
            None => None,
        }
    }

    /// Takes what was read, where nothing means that no more can come. Returns
    /// the answer, or nothing where more must be read.
    pub fn feed(&mut self, chunk: &Vec<u8>) -> (r: Option<Answer>)
        ensures
            final(self)@ == old(self)@.feed(chunk@).0,
            r is Some == old(self)@.feed(chunk@).1 is Some,
            r matches Some(a) ==> answer_view(a) == old(self)@.feed(chunk@).1.unwrap(),
    {
        if chunk.len() == 0 {
            if self.head.is_none() {
                return Some(
                    Err(
                        DriverError::FirecrackerApi(
                            "firecracker closed connection before sending response headers".to_owned(),
                        ),
                    ),
                );
            }
            return self.settle(true);
        }
        let ghost b0 = self.buf@;
        let mut i: usize = 0;
        assert(b0 + chunk@.take(0) =~= b0);
        while i < chunk.len()
            invariant
                i <= chunk@.len(),
                self.buf@ == b0 + chunk@.take(i as int),
                self.head == old(self).head,
            decreases chunk@.len() - i,
        {
            self.buf.push(chunk[i]);
            assert(self.buf@ =~= b0 + chunk@.take(i + 1));
            i = i + 1;
        }
        assert(chunk@.take(i as int) =~= chunk@);
        if self.head.is_none() {
            if let Some(end) = find_head_end(&self.buf) {
                let n: usize = self.buf.len();
                let h = bytes_of(&self.buf, 0, end);
                assert(h@ =~= self.buf@.take(end as int));
                let head = lossy_string(&h);
                let body = bytes_of(&self.buf, end + 4, n);
                assert(body@ =~= self.buf@.skip(end + 4));
                self.head = Some((status_code(head.as_str()), content_length(head.as_str())));
                self.buf = body;
            }
        }
        assert(self@ =~= old(self)@.with(chunk@));
        self.settle(false)
    }
}

/// The abstract value of an answer.
pub open spec fn answer_view(a: Answer) -> AnswerView {
    match a {
        Ok((code, body)) => Ok((code, body@)),
        Err(e) => Err(e@),
    }
}

/// The body of the request that tells a microVM where to log.
pub open spec fn logger_body(log_path: Seq<char>) -> Seq<char> {
    "{\"log_path\":\""@ + log_path
        + "\",\"level\":\"Debug\",\"show_level\":true,\"show_log_origin\":true}"@
}

/// The body of the request that loads a snapshot and resumes it.
pub open spec fn load_body(vmstate: Seq<char>, mem: Seq<char>) -> Seq<char> {
    "{\"snapshot_path\":\""@ + vmstate
        + "\",\"mem_backend\":{\"backend_type\":\"File\",\"backend_path\":\""@ + mem
        + "\"},\"track_dirty_pages\":false,\"resume_vm\":true}"@
}

/// Whether a status code stands for success.
pub open spec fn is_success(code: u16) -> bool {
    200 <= code < 300
}

/// A request to send: method, path and body.
pub struct Request {
    pub method: String,
    pub path: String,
    pub body: String,
}

impl Request {
    /// The request as it goes over the socket.
    pub fn text(&self) -> (r: String)
        ensures
            r@ == request_text(self.method@, self.path@, self.body@),
    {
        let n = text::dec_string(self.body.as_str().as_bytes().len() as u64);
        text::cat7(
            self.method.as_str(),
            " ",
            self.path.as_str(),
            " HTTP/1.1\r\nHost: localhost\r\nContent-Type: application/json\r\nContent-Length: ",
            n.as_str(),
            "\r\nConnection: close\r\n\r\n",
            self.body.as_str(),
        )
    }
}

/// The control socket of one microVM.
pub struct FirecrackerClient {
    pub sock: String,
}

impl FirecrackerClient {
    pub fn new(sock: String) -> (c: Self)
        ensures
            c.sock@ == sock@,
    {
        FirecrackerClient { sock }
    }

    /// The error where the socket cannot be reached.
    pub fn connect_error(&self, error: &str) -> (e: DriverError)
        ensures
            e@ == DriverErrorView::FirecrackerApi("connect "@ + self.sock@ + ": "@ + error@),
    {
        DriverError::FirecrackerApi(text::cat4("connect ", self.sock.as_str(), ": ", error))
    }

    /// The request that tells the microVM where to log. Its answer does not
    /// matter.
    pub fn put_logger(&self, log_path: &str) -> (r: Request)
        ensures
            r.method@ == "PUT"@,
            r.path@ == "/logger"@,
            r.body@ == logger_body(log_path@),
    {
        Request {
            method: "PUT".to_owned(),
            path: "/logger".to_owned(),
            body: text::cat3(
                "{\"log_path\":\"",
                log_path,
                "\",\"level\":\"Debug\",\"show_level\":true,\"show_log_origin\":true}",
            ),
        }
    }

    /// The request that loads a snapshot and resumes it.
    pub fn put_snapshot_load(&self, vmstate_jail: &str, mem_jail: &str) -> (r: Request)
        ensures
            r.method@ == "PUT"@,
            r.path@ == "/snapshot/load"@,
            r.body@ == load_body(vmstate_jail@, mem_jail@),
    {
        Request {
            method: "PUT".to_owned(),
            path: "/snapshot/load".to_owned(),
            body: text::cat5(
                "{\"snapshot_path\":\"",
                vmstate_jail,
                "\",\"mem_backend\":{\"backend_type\":\"File\",\"backend_path\":\"",
                mem_jail,
                "\"},\"track_dirty_pages\":false,\"resume_vm\":true}",
            ),
        }
    }

    /// Whether a snapshot was loaded, by the answer to the request.
    pub fn snapshot_loaded(answer: Answer) -> (r: Result<(), DriverError>)
        ensures
            match answer {
                Ok((code, body)) => if is_success(code) {
                    r is Ok
                } else {
                    r matches Err(e) && e@ == DriverErrorView::Snapshot(
                        "snapshot/load HTTP "@ + text::dec(code as nat) + ": "@ + body@,
                    )
                },
                Err(e) => r matches Err(f) && f@ == e@,
            },
    {
        match answer {
            Ok((code, body)) => {
                if 200 <= code && code < 300 {
                    Ok(())
                } else {
                    Err(
                        DriverError::Snapshot(
                            text::cat4(
                                "snapshot/load HTTP ",
                                text::dec_string(code as u64).as_str(),
                                ": ",
                                body.as_str(),
                            ),
                        ),
                    )
                }
            },
            Err(e) => Err(e),
        }
    }

    /// The request for the description of the instance.
    pub fn get_info(&self) -> (r: Request)
        ensures
            r.method@ == "GET"@,
            r.path@ == "/"@,
            r.body@ == ""@,
    {
        Request { method: "GET".to_owned(), path: "/".to_owned(), body: "".to_owned() }
    }

    /// Whether an instance is there, by the answer to the request.
    pub fn is_instance(answer: &Answer) -> (r: bool)
        ensures
            r == (answer matches Ok((code, _)) && is_success(*code)),
    {
        match answer {
            Ok((code, _)) => 200 <= *code && *code < 300,
            Err(_) => false,
        }
    }
}

proof fn head_end_found(b: Seq<u8>, from: nat)
    ensures
        match head_end(b, from) {
            Some(i) => from <= i && head_ends_at(b, i as int) && forall|j: int|
                from <= j < i ==> !(#[trigger] head_ends_at(b, j)),
            None => forall|j: int| from <= j ==> !(#[trigger] head_ends_at(b, j)),
        },
    decreases b.len() - from,
{
    if from + 4 <= b.len() && !head_ends_at(b, from as int) {
        head_end_found(b, from + 1);
    }
}

proof fn head_end_stays(a: Seq<u8>, b: Seq<u8>)
    ensures
        head_end(a, 0) is Some ==> head_end(a + b, 0) == head_end(a, 0),
{
    head_end_found(a, 0);
    head_end_found(a + b, 0);
    if let Some(i) = head_end(a, 0) {
        assert(head_ends_at(a + b, i as int));
        let k = head_end(a + b, 0).unwrap();
        if k < i {
            assert(head_ends_at(a, k as int));
        }
    }
}

/// It does not matter how the bytes of a response are cut into reads: to read
/// one part and then, where more is needed, the other gives what reading both
/// at once gives.
pub proof fn reads_can_be_joined(e: ExchangeView, a: Seq<u8>, b: Seq<u8>)
    requires
        a.len() > 0,
        b.len() > 0,
        e.feed(a).1 is None,
    ensures
        e.feed(a).0.feed(b) == e.feed(a + b),
{
    assert((e.buf + a) + b =~= e.buf + (a + b));
    if e.head is None {
        head_end_stays(e.buf + a, b);
        match head_end(e.buf + a, 0) {
            Some(i) => {
                head_end_found(e.buf + a, 0);
                let w = e.buf + a + b;
                assert(w.take(i as int) =~= (e.buf + a).take(i as int));
                assert(w.skip(i as int + 4) =~= (e.buf + a).skip(i as int + 4) + b);
            },
            None => {},
        }
    }
    assert(e.with(a).with(b) =~= e.with(a + b));
}

} // verus!
