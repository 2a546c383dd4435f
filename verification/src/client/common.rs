//! What every client does during a session: numbering the lines it sends,
//! hiding the echo of the line just typed, and the waiting spinner.

use crate::approval::{cuttable_id, id_prefix, short_id};
use crate::echo::{echo_step, lemma_echo_in_one_chunk, EchoFilter};
use crate::keys::{command_key, numbered_key};
use vstd::prelude::*;
use vstd::utf8::encode_utf8;

verus! {

/// A message to send: the variable and its content.
#[derive(Debug, PartialEq, Eq)]
pub struct Outgoing {
    pub key: String,
    pub payload: Vec<u8>,
    /// What to write on the status line once the message is sent.
    pub status: Vec<u8>,
}

/// What to show for a chunk of output: the status line is cleared with
/// `status`, then `output` goes to the terminal.
#[derive(Debug, PartialEq, Eq)]
pub struct Shown {
    pub status: Vec<u8>,
    pub output: Vec<u8>,
}

/// The status line written after a line is sent: bold with the spinner
/// clients, plain with the first client.
pub open spec fn waiting_notice(plain: bool) -> Seq<u8> {
    if plain {
        encode_utf8("\rWaiting for approval..."@)
    } else {
        encode_utf8("\r\x1b[01mWaiting for approval...\x1b[0m"@)
    }
}

/// What clears the status line before output is shown.
pub open spec fn clear_status(plain: bool) -> Seq<u8> {
    if plain {
        encode_utf8("\r                       \r"@)
    } else {
        encode_utf8("\r\x1b[K"@)
    }
}

/// What the status line says once the end of the session is sent.
pub open spec fn farewell(plain: bool) -> Seq<u8> {
    if plain {
        Seq::empty()
    } else {
        encode_utf8("exit\n"@)
    }
}

/// Whether a chunk read from the output stream is skipped: the clients with
/// the spinner skip empty reads; the first client, with the plain status
/// line, handles an empty read like any other chunk.
pub open spec fn skips_read(plain: bool, chunk: Seq<u8>) -> bool {
    chunk.len() == 0 && !plain
}

/// What an event writes: on the status line, and on the terminal. A
/// skipped read writes nothing.
pub open spec fn client_writes(m: ClientModel, e: ClientEvent) -> (Seq<u8>, Seq<u8>) {
    match e {
        ClientEvent::Line(_) => (waiting_notice(m.plain), Seq::empty()),
        ClientEvent::Output(chunk) => if skips_read(m.plain, chunk) {
            (Seq::empty(), Seq::empty())
        } else {
            (clear_status(m.plain), echo_step(m.pending_echo, chunk).1)
        },
    }
}

/// What an event writes on the status line in a session whose status line
/// is plain or not: the waiting notice for a line sent, the clearing
/// sequence for a chunk of output, nothing for a skipped read.
pub open spec fn status_written(plain: bool, e: ClientEvent) -> Seq<u8> {
    match e {
        ClientEvent::Line(_) => waiting_notice(plain),
        ClientEvent::Output(chunk) => if skips_read(plain, chunk) {
            Seq::empty()
        } else {
            clear_status(plain)
        },
    }
}

/// The model of a client session.
pub struct ClientModel {
    /// The number of the next line to send.
    pub next_command_id: nat,
    /// The echo still expected from the remote shell.
    pub pending_echo: Seq<u8>,
    /// Whether the last line sent has not been answered by any output yet.
    pub waiting: bool,
    /// Whether this is the first client: a plain status line, and empty
    /// reads handled like any other chunk.
    pub plain: bool,
}

/// The echo of a line the user typed is never printed: when the remote
/// output starts with the line that was just sent, only what follows it is
/// shown.
pub proof fn lemma_typed_line_echo_hidden(line: Seq<char>, rest: Seq<u8>)
    ensures
        echo_step(encode_utf8(line.push('\n')), encode_utf8(line.push('\n')) + rest) == (
            Seq::<u8>::empty(),
            rest,
        ),
{
    let sent = line.push('\n');
    assert(sent.len() > 0);
    assert(encode_utf8(sent).len() > 0) by {
        assert(encode_utf8(sent) == vstd::utf8::encode_scalar(sent[0] as u32) + encode_utf8(
            sent.drop_first(),
        ));
        vstd::utf8::char_is_scalar(sent[0]);
    }
    lemma_echo_in_one_chunk(encode_utf8(sent), rest);
}

/// One event of a client session: a line the user typed, or a chunk of
/// the remote shell's output.
pub enum ClientEvent {
    Line(Seq<char>),
    Output(Seq<u8>),
}

/// The client after one event.
pub open spec fn client_apply(m: ClientModel, e: ClientEvent) -> ClientModel {
    match e {
        ClientEvent::Line(line) => ClientModel {
            next_command_id: m.next_command_id + 1,
            pending_echo: encode_utf8(line.push('\n')),
            waiting: true,
            ..m
        },
        ClientEvent::Output(chunk) => if skips_read(m.plain, chunk) {
            m
        } else {
            ClientModel { pending_echo: echo_step(m.pending_echo, chunk).0, waiting: false, ..m }
        },
    }
}

/// The value an event gives to the waiting flag, if it sets it: a line
/// sent starts the wait, a chunk of output ends it, a skipped read leaves
/// it alone.
pub open spec fn waiting_set_by(plain: bool, e: ClientEvent) -> Option<bool> {
    match e {
        ClientEvent::Line(_) => Some(true),
        ClientEvent::Output(chunk) => if skips_read(plain, chunk) {
            None
        } else {
            Some(false)
        },
    }
}

/// The value given to the waiting flag by the last event of the run that
/// set it, or the flag before the run if none did.
pub open spec fn last_waiting_setting(m: ClientModel, events: Seq<ClientEvent>) -> bool
    decreases events.len(),
{
    if events.len() == 0 {
        m.waiting
    } else {
        match waiting_set_by(m.plain, events.last()) {
            Some(b) => b,
            None => last_waiting_setting(m, events.drop_last()),
        }
    }
}

/// The client after a run of events.
pub open spec fn client_run(m: ClientModel, events: Seq<ClientEvent>) -> ClientModel
    decreases events.len(),
{
    if events.len() == 0 {
        m
    } else {
        client_run(client_apply(m, events[0]), events.drop_first())
    }
}

/// The number of typed lines in a run of events.
pub open spec fn typed_lines(events: Seq<ClientEvent>) -> nat
    decreases events.len(),
{
    if events.len() == 0 {
        0
    } else {
        typed_lines(events.drop_last()) + if events.last() is Line {
            1nat
        } else {
            0nat
        }
    }
}

/// Running one more event applies it to the client reached so far.
pub proof fn lemma_client_run_push(m: ClientModel, events: Seq<ClientEvent>, e: ClientEvent)
    ensures
        client_run(m, events.push(e)) == client_apply(client_run(m, events), e),
    decreases events.len(),
{
    if events.len() == 0 {
        assert(events.push(e).drop_first() =~= Seq::<ClientEvent>::empty());
        assert(events.push(e)[0] == e);
        assert(client_run(client_apply(m, e), Seq::<ClientEvent>::empty()) == client_apply(m, e));
    } else {
        assert(events.push(e).drop_first() =~= events.drop_first().push(e));
        assert(events.push(e)[0] == events[0]);
        lemma_client_run_push(client_apply(m, events[0]), events.drop_first(), e);
    }
}

/// Over a whole session the client waits exactly when the last event that
/// set the flag was a line it sent: sending a line starts the wait and
/// writes the waiting notice on the status line, and the wait lasts until
/// the next chunk of output that is not skipped (an empty read is skipped by
/// the spinner clients), which ends it and clears the status line before
/// the chunk is shown. Lines are numbered one after the other,
/// and the kind of status line never changes.
pub proof fn lemma_waiting_over_a_session(m: ClientModel, events: Seq<ClientEvent>)
    ensures
        client_run(m, events).waiting == last_waiting_setting(m, events),
        client_run(m, events).next_command_id == m.next_command_id + typed_lines(events),
        client_run(m, events).plain == m.plain,
        events.len() > 0 ==> client_writes(client_run(m, events.drop_last()), events.last()).0
            == status_written(m.plain, events.last()),
    decreases events.len(),
{
    if events.len() > 0 {
        let init = events.drop_last();
        let e = events.last();
        assert(init.push(e) =~= events);
        lemma_client_run_push(m, init, e);
        lemma_waiting_over_a_session(m, init);
    }
}

/// The client's side of a session.
pub struct ClientSession {
    next_command_id: u64,
    echo: EchoFilter,
    waiting: bool,
    plain: bool,
}

impl View for ClientSession {
    type V = ClientModel;

    closed spec fn view(&self) -> ClientModel {
        ClientModel {
            next_command_id: self.next_command_id as nat,
            pending_echo: self.echo@,
            waiting: self.waiting,
            plain: self.plain,
        }
    }
}

impl ClientSession {
    /// A session in which nothing was sent yet, with the bold status line.
    pub fn new() -> (s: Self)
        ensures
            s@ == (ClientModel {
                next_command_id: 0,
                pending_echo: Seq::empty(),
                waiting: false,
                plain: false,
            }),
    {
        ClientSession { next_command_id: 0, echo: EchoFilter::new(), waiting: false, plain: false }
    }

    /// A session of the first client, in which nothing was sent yet: plain
    /// status line, empty reads not skipped.
    pub fn new_plain() -> (s: Self)
        ensures
            s@ == (ClientModel {
                next_command_id: 0,
                pending_echo: Seq::empty(),
                waiting: false,
                plain: true,
            }),
    {
        ClientSession { next_command_id: 0, echo: EchoFilter::new(), waiting: false, plain: true }
    }

    /// Whether the last line sent has not been answered yet.
    pub fn waiting(&self) -> (b: bool)
        ensures
            b == self@.waiting,
    {
        self.waiting
    }

    /// Whether another line can still be numbered.
    pub fn has_room(&self) -> (b: bool)
        ensures
            b == (self@.next_command_id < u64::MAX),
    {
        self.next_command_id < u64::MAX
    }

    /// Sends the line `line` typed by the user: it goes out with a newline
    /// as the next numbered command, its echo is expected, and the client
    /// waits for an answer.
    pub fn send_line(&mut self, line: &str) -> (out: Outgoing)
        requires
            old(self)@.next_command_id < u64::MAX,
        ensures
            out.key@ == numbered_key("command:"@, old(self)@.next_command_id),
            out.payload@ == encode_utf8(line@.push('\n')),
            out.status@ == client_writes(old(self)@, ClientEvent::Line(line@)).0,
            out.status@ == waiting_notice(old(self)@.plain),
            final(self)@ == (ClientModel {
                next_command_id: old(self)@.next_command_id + 1,
                pending_echo: out.payload@,
                waiting: true,
                plain: old(self)@.plain,
            }),
            final(self)@ == client_apply(old(self)@, ClientEvent::Line(line@)),
    {
        let key = command_key(self.next_command_id);
        let mut cmd = line.to_owned();
        cmd.push('\n');
        let payload = cmd.as_str().as_bytes_vec();
        self.echo.expect(payload.as_slice());
        self.waiting = true;
        self.next_command_id = self.next_command_id + 1;
        let status = if self.plain {
            "\rWaiting for approval...".as_bytes_vec()
        } else {
            "\r\x1b[01mWaiting for approval...\x1b[0m".as_bytes_vec()
        };
        Outgoing { key, payload, status }
    }

    /// The message that ends the session: an empty command under the next
    /// number.
    pub fn finish(&self) -> (out: Outgoing)
        ensures
            out.key@ == numbered_key("command:"@, self@.next_command_id),
            out.payload@ == Seq::<u8>::empty(),
            out.status@ == farewell(self@.plain),
    {
        let status = if self.plain {
            Vec::new()
        } else {
            "exit\n".as_bytes_vec()
        };
        Outgoing { key: command_key(self.next_command_id), payload: Vec::new(), status }
    }

    /// Takes a chunk of the remote shell's output and gives what to show:
    /// the status line is cleared, and the chunk is printed without the
    /// echo of the line just sent. Any output ends the wait. The spinner
    /// clients skip an empty read: it shows nothing and changes nothing.
    pub fn receive_output(&mut self, chunk: &[u8]) -> (shown: Shown)
        ensures
            !skips_read(old(self)@.plain, chunk@) ==> (final(self)@.pending_echo, shown.output@)
                == echo_step(old(self)@.pending_echo, chunk@),
            !skips_read(old(self)@.plain, chunk@) ==> shown.status@ == clear_status(
                old(self)@.plain,
            ),
            !skips_read(old(self)@.plain, chunk@) ==> !final(self)@.waiting,
            skips_read(old(self)@.plain, chunk@) ==> shown.status@.len() == 0
                && shown.output@.len() == 0 && final(self)@ == old(self)@,
            (shown.status@, shown.output@) == client_writes(
                old(self)@,
                ClientEvent::Output(chunk@),
            ),
            final(self)@.next_command_id == old(self)@.next_command_id,
            final(self)@ == client_apply(old(self)@, ClientEvent::Output(chunk@)),
    {
        if chunk.len() == 0 && !self.plain {
            return Shown { status: Vec::new(), output: Vec::new() };
        }
        self.waiting = false;
        let output = self.echo.filter(chunk);
        let status = if self.plain {
            "\r                       \r".as_bytes_vec()
        } else {
            "\r\x1b[K".as_bytes_vec()
        };
        Shown { status, output }
    }
}

/// The frame of the waiting spinner shown at step `i`: it turns through
/// `\`, `|`, `/` and `-`.
pub open spec fn spinner_frame(i: nat) -> Seq<char> {
    let k = i % 4;
    if k == 0 {
        "\\"@
    } else if k == 1 {
        "|"@
    } else if k == 2 {
        "/"@
    } else {
        "-"@
    }
}

/// The spinner frame of step `i`.
pub fn spinner(i: u64) -> (frame: String)
    ensures
        frame@ == spinner_frame(i as nat),
{
    let k = i % 4;
    if k == 0 {
        "\\".to_owned()
    } else if k == 1 {
        "|".to_owned()
    } else if k == 2 {
        "/".to_owned()
    } else {
        "-".to_owned()
    }
}

/// The status line shown at step `i` while the client waits for approval.
pub fn waiting_banner(i: u64) -> (line: Vec<u8>)
    ensures
        line@ == encode_utf8(
            "\r\x1b[01mWaiting for approval..."@ + spinner_frame(i as nat) + "\x1b[0m"@,
        ),
{
    let mut s = String::new();
    s.append("\r\x1b[01mWaiting for approval...");
    let f = spinner(i);
    s.append(f.as_str());
    s.append("\x1b[0m");
    s.as_str().as_bytes_vec()
}

/// The line that announces the connection to user `target` at `host`.
pub fn connecting_banner(target: &str, host: &str) -> (line: Vec<u8>)
    requires
        cuttable_id(target@),
    ensures
        line@ == encode_utf8("\x1b[01mConnecting "@ + id_prefix(target@) + "@"@ + host@ + " ...\x1b[0m"@),
{
    let mut s = String::new();
    s.append("\x1b[01mConnecting ");
    let t = short_id(target);
    s.append(t.as_str());
    s.append("@");
    s.append(host);
    s.append(" ...\x1b[0m");
    s.as_str().as_bytes_vec()
}

} // verus!
