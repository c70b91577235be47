use acril_web::{
    start, step, Action, Event, Header, HttpContext, RenderError, Request, Response,
    ResponseError, Server, StatusCode, TransportError,
};
use std::collections::VecDeque;

/// A stream in memory: the requests that the client sent, and what the
/// server did with the stream.
struct Wire {
    incoming: VecDeque<Request>,
    reads: usize,
    written: Vec<Response>,
    write_attempts: usize,
    writes_fail: bool,
    writes_fail_after: Option<usize>,
}

impl Wire {
    fn new(requests: Vec<Request>) -> Wire {
        Wire {
            incoming: requests.into(),
            reads: 0,
            written: Vec::new(),
            write_attempts: 0,
            writes_fail: false,
            writes_fail_after: None,
        }
    }

    fn read(&mut self) -> Result<Request, TransportError> {
        self.reads += 1;
        match self.incoming.pop_front() {
            Some(request) => Ok(request),
            None => Err(TransportError::new(String::from("unexpected end of stream"))),
        }
    }

    fn write(&mut self, response: Response) -> Result<(), TransportError> {
        self.write_attempts += 1;
        let spent = self.writes_fail_after.is_some_and(|limit| self.written.len() >= limit);
        if self.writes_fail || spent {
            Err(TransportError::new(String::from("broken pipe")))
        } else {
            self.written.push(response);
            Ok(())
        }
    }
}

#[derive(Debug, PartialEq, Eq)]
enum Failure {
    Transport(TransportError),
    Forbidden,
    Unspeakable,
}

impl From<TransportError> for Failure {
    fn from(error: TransportError) -> Failure {
        Failure::Transport(error)
    }
}

impl ResponseError for Failure {
    fn status_code(&self) -> StatusCode {
        match self {
            Failure::Transport(error) => error.status_code(),
            Failure::Forbidden => StatusCode::from_u16(403).unwrap(),
            Failure::Unspeakable => StatusCode::from_u16(500).unwrap(),
        }
    }

    fn message(&self) -> String {
        match self {
            Failure::Transport(error) => error.message(),
            Failure::Forbidden => String::from("forbidden"),
            Failure::Unspeakable => String::from("unspeakable"),
        }
    }

    fn renders(&self) -> bool {
        !matches!(self, Failure::Unspeakable)
    }

    fn to_response(&self) -> Result<Response, RenderError> {
        match self {
            Failure::Unspeakable => Err(RenderError { reason: String::from("no words") }),
            _ => Ok(acril_web::error::render(self.status_code(), &self.message())),
        }
    }
}

/// A handler that counts its calls and answers by the request's target.
struct Site {
    calls: usize,
}

impl Site {
    fn call(
        &mut self,
        request: Request,
        _context: &mut HttpContext<Site>,
    ) -> Result<Response, Failure> {
        self.calls += 1;
        match request.target.as_str() {
            "/secret" => Err(Failure::Forbidden),
            "/void" => Err(Failure::Unspeakable),
            target => Ok(ok(target)),
        }
    }
}

/// Serves one connection: performs each action that the driver asks for
/// and reports its outcome, until the driver stops.
fn serve(server: &mut Server<Wire, Site>) -> Result<(), Failure> {
    let (wire, site) = server.parts_mut();
    let (mut state, mut action) = start::<Failure>();
    loop {
        let event = match action {
            Action::Read => Event::Read(wire.read().map_err(Failure::from)),
            Action::Dispatch(request) => {
                let mut context = HttpContext::<Site>::new();
                Event::Handled(site.call(request, &mut context))
            }
            Action::Write(response) => Event::Written(wire.write(response).map_err(Failure::from)),
            Action::Stop => break,
        };
        let (next, then) = step(state, event).expect("the event reports the pending action");
        state = next;
        action = then;
    }
    state.outcome().expect("the driver stops only when the connection has ended")
}

fn header(name: &str, value: &str) -> Header {
    Header { name: name.as_bytes().to_vec(), value: value.as_bytes().to_vec() }
}

fn get(target: &str, headers: Vec<Header>) -> Request {
    Request { method: String::from("GET"), target: String::from(target), headers, body: Vec::new() }
}

fn ok(body: &str) -> Response {
    Response {
        status: StatusCode::from_u16(200).unwrap(),
        headers: vec![header("Content-Type", "text/html")],
        body: body.as_bytes().to_vec(),
    }
}

fn page(status: u16, body: &str) -> Response {
    Response {
        status: StatusCode::from_u16(status).unwrap(),
        headers: Vec::new(),
        body: body.as_bytes().to_vec(),
    }
}

fn end_of_stream() -> Failure {
    Failure::Transport(TransportError::new(String::from("unexpected end of stream")))
}

#[test]
fn two_requests_are_answered_in_order_until_the_client_leaves() {
    let wire = Wire::new(vec![get("/one", Vec::new()), get("/two", Vec::new())]);
    let mut server = Server::new(wire, Site { calls: 0 });
    let result = serve(&mut server);
    let (wire, site) = server.into_parts();
    assert_eq!(result, Err(end_of_stream()));
    assert_eq!(wire.written, vec![ok("/one"), ok("/two")]);
    assert_eq!(wire.reads, 3);
    assert_eq!(site.calls, 2);
}

#[test]
fn a_second_request_is_read_after_a_persistent_first() {
    let wire = Wire::new(vec![
        get("/one", vec![header("Connection", "keep-alive")]),
        get("/two", vec![header("Connection", "close")]),
        get("/three", Vec::new()),
    ]);
    let mut server = Server::new(wire, Site { calls: 0 });
    let result = serve(&mut server);
    let (wire, site) = server.into_parts();
    assert_eq!(result, Ok(()));
    assert_eq!(wire.written, vec![ok("/one"), ok("/two")]);
    assert_eq!(wire.reads, 2);
    assert_eq!(site.calls, 2);
    assert_eq!(wire.incoming.len(), 1);
}

#[test]
fn connection_close_ends_after_one_response_without_another_read() {
    let wire = Wire::new(vec![
        get("/only", vec![header("Connection", "close")]),
        get("/never", Vec::new()),
    ]);
    let mut server = Server::new(wire, Site { calls: 0 });
    let result = serve(&mut server);
    let (wire, site) = server.into_parts();
    assert_eq!(result, Ok(()));
    assert_eq!(wire.written, vec![ok("/only")]);
    assert_eq!(wire.reads, 1);
    assert_eq!(site.calls, 1);
}

#[test]
fn a_close_value_in_another_case_keeps_the_connection() {
    let wire = Wire::new(vec![get("/one", vec![header("Connection", "Close")])]);
    let mut server = Server::new(wire, Site { calls: 0 });
    let result = serve(&mut server);
    let (wire, _) = server.into_parts();
    assert_eq!(result, Err(end_of_stream()));
    assert_eq!(wire.written, vec![ok("/one")]);
    assert_eq!(wire.reads, 2);
}

#[test]
fn a_rendered_error_is_written_and_returned() {
    let wire = Wire::new(vec![get("/secret", Vec::new()), get("/after", Vec::new())]);
    let mut server = Server::new(wire, Site { calls: 0 });
    let result = serve(&mut server);
    let (wire, site) = server.into_parts();
    assert_eq!(result, Err(Failure::Forbidden));
    assert_eq!(wire.written, vec![page(403, "forbidden")]);
    assert_eq!(wire.reads, 1);
    assert_eq!(site.calls, 1);
}

#[test]
fn an_unrendered_error_is_returned_and_nothing_written() {
    let wire = Wire::new(vec![get("/void", Vec::new()), get("/after", Vec::new())]);
    let mut server = Server::new(wire, Site { calls: 0 });
    let result = serve(&mut server);
    let (wire, site) = server.into_parts();
    assert_eq!(result, Err(Failure::Unspeakable));
    assert_eq!(wire.written, Vec::new());
    assert_eq!(wire.reads, 1);
    assert_eq!(site.calls, 1);
}

#[test]
fn a_handler_error_ends_the_connection_after_earlier_answers() {
    let wire = Wire::new(vec![
        get("/one", Vec::new()),
        get("/secret", Vec::new()),
        get("/three", Vec::new()),
    ]);
    let mut server = Server::new(wire, Site { calls: 0 });
    let result = serve(&mut server);
    let (wire, site) = server.into_parts();
    assert_eq!(result, Err(Failure::Forbidden));
    assert_eq!(wire.written, vec![ok("/one"), page(403, "forbidden")]);
    assert_eq!(wire.reads, 2);
    assert_eq!(site.calls, 2);
}

#[test]
fn an_empty_stream_fails_at_the_first_read() {
    let mut server = Server::new(Wire::new(Vec::new()), Site { calls: 0 });
    let result = serve(&mut server);
    let (wire, site) = server.into_parts();
    assert_eq!(result, Err(end_of_stream()));
    assert_eq!(wire.written, Vec::new());
    assert_eq!(wire.reads, 1);
    assert_eq!(site.calls, 0);
}

#[test]
fn a_failed_write_is_returned_and_nothing_more_is_read() {
    let mut wire = Wire::new(vec![get("/one", Vec::new()), get("/two", Vec::new())]);
    wire.writes_fail = true;
    let mut server = Server::new(wire, Site { calls: 0 });
    let result = serve(&mut server);
    let (wire, site) = server.into_parts();
    assert_eq!(result, Err(Failure::Transport(TransportError::new(String::from("broken pipe")))));
    assert_eq!(wire.reads, 1);
    assert_eq!(site.calls, 1);
}

#[test]
fn a_failed_write_of_an_error_page_returns_the_error_of_the_handler() {
    let mut wire = Wire::new(vec![get("/secret", Vec::new()), get("/after", Vec::new())]);
    wire.writes_fail = true;
    let mut server = Server::new(wire, Site { calls: 0 });
    let result = serve(&mut server);
    let (wire, site) = server.into_parts();
    assert_eq!(result, Err(Failure::Forbidden));
    assert_eq!(wire.written, Vec::new());
    assert_eq!(wire.write_attempts, 1);
    assert_eq!(wire.reads, 1);
    assert_eq!(site.calls, 1);
}

#[test]
fn a_failed_write_after_earlier_answers_returns_the_error_of_the_handler() {
    let mut wire = Wire::new(vec![
        get("/one", Vec::new()),
        get("/two", Vec::new()),
        get("/secret", Vec::new()),
        get("/after", Vec::new()),
    ]);
    wire.writes_fail_after = Some(2);
    let mut server = Server::new(wire, Site { calls: 0 });
    let result = serve(&mut server);
    let (wire, site) = server.into_parts();
    assert_eq!(result, Err(Failure::Forbidden));
    assert_eq!(wire.written, vec![ok("/one"), ok("/two")]);
    assert_eq!(wire.write_attempts, 3);
    assert_eq!(wire.reads, 3);
    assert_eq!(site.calls, 3);
}
