//! The shell server's side of a session: every command waits for the
//! approver unless it was approved once and for all, and the approver's
//! answer decides whether it reaches the shell and whether its output is
//! forwarded.

use crate::ansi::{ansi_clean_up, ansi_cleaned};
use crate::approval::{
    approval_keyboard, approval_request, cuttable_id, decide, decision_of, request_message, Decision,
    PreapprovedCommands,
};
use crate::json::{json_pair_object, pair_object};
use crate::keys::{callback_key, command_key, numbered_key};
use crate::markdown::{markdown_escape, markdown_escaped};
use crate::outside::{decode_lossy, fresh_uuid, is_v4_uuid, utf8_lossy};
use vstd::prelude::*;
use vstd::utf8::encode_utf8;

verus! {

/// Where a session stands.
#[derive(Debug)]
pub enum SessionPhase {
    /// Waiting for the next command.
    AwaitingCommand,
    /// Waiting for the approver's answer about this command.
    AwaitingApproval(Vec<u8>),
    /// The client ended the session.
    Ended,
    /// The approver gave an answer that is not one of the choices; the
    /// session waits for ever.
    Stalled,
}

/// The model of a session phase.
pub enum PhaseModel {
    AwaitingCommand,
    AwaitingApproval(Seq<u8>),
    Ended,
    Stalled,
}

/// What the session asks its driver to do next.
#[derive(Debug, PartialEq, Eq)]
pub enum ServerAction {
    /// Write the command to the shell's standard input.
    RunCommand(Vec<u8>),
    /// Send `message` to the approver and wait for the entry `callback_key`.
    RequestApproval { message: Vec<u8>, callback_key: String },
    /// Send this text to the client as shell output.
    SendRejection(Vec<u8>),
    /// Stop reading commands: the session is over.
    EndSession,
    /// Wait for ever.
    Stall,
}

/// The model of an action.
pub enum ActionModel {
    RunCommand(Seq<u8>),
    RequestApproval { message: Seq<u8>, callback_key: Seq<char> },
    SendRejection(Seq<u8>),
    EndSession,
    Stall,
}

impl View for ServerAction {
    type V = ActionModel;

    open spec fn view(&self) -> ActionModel {
        match self {
            ServerAction::RunCommand(c) => ActionModel::RunCommand(c@),
            ServerAction::RequestApproval { message, callback_key } => ActionModel::RequestApproval {
                message: message@,
                callback_key: callback_key@,
            },
            ServerAction::SendRejection(t) => ActionModel::SendRejection(t@),
            ServerAction::EndSession => ActionModel::EndSession,
            ServerAction::Stall => ActionModel::Stall,
        }
    }
}

/// The model of a session.
pub struct ServerModel {
    /// The user on whose behalf commands are asked for.
    pub requester: Seq<char>,
    /// The number of the next command to read.
    pub next_command_id: nat,
    /// Whether shell output is forwarded to the approver.
    pub monitoring: bool,
    /// The command texts approved once and for all.
    pub preapproved: Set<Seq<char>>,
    pub phase: PhaseModel,
}

/// The text sent back to the client when the approver rejects a command.
pub open spec fn rejection_notice() -> Seq<u8> {
    encode_utf8("Rejected, enter a new command: "@)
}

/// A session that has just started.
pub open spec fn initial_model(requester: Seq<char>) -> ServerModel {
    ServerModel {
        requester,
        next_command_id: 0,
        monitoring: false,
        preapproved: Set::empty(),
        phase: PhaseModel::AwaitingCommand,
    }
}

/// Whether a command needs the approver: it is not the empty end marker
/// and its text was not approved once and for all.
pub open spec fn needs_approval(s: ServerModel, cmd: Seq<u8>) -> bool {
    cmd.len() > 0 && !s.preapproved.contains(utf8_lossy(cmd))
}

/// What the session does with command `cmd` read while it waits for one;
/// `token` tags the approval request if one is made.
pub open spec fn command_step(s: ServerModel, cmd: Seq<u8>, token: Seq<char>) -> (
    ServerModel,
    ActionModel,
) {
    if cmd.len() == 0 {
        (ServerModel { monitoring: false, phase: PhaseModel::Ended, ..s }, ActionModel::EndSession)
    } else if s.preapproved.contains(utf8_lossy(cmd)) {
        (
            ServerModel { monitoring: false, next_command_id: s.next_command_id + 1, ..s },
            ActionModel::RunCommand(cmd),
        )
    } else {
        (
            ServerModel { phase: PhaseModel::AwaitingApproval(cmd), ..s },
            ActionModel::RequestApproval {
                message: encode_utf8(approval_request(s.requester, utf8_lossy(cmd), token)),
                callback_key: "tg_bot:callback:"@ + token,
            },
        )
    }
}

/// What the session does with the approver's answer `reply` about the
/// command it waits on.
pub open spec fn reply_step(s: ServerModel, reply: Seq<u8>) -> (ServerModel, ActionModel) {
    let cmd = s.phase->AwaitingApproval_0;
    let text = utf8_lossy(cmd);
    let d = decision_of(utf8_lossy(reply));
    let preapproved = if text.len() > 0 && d == Decision::ApproveAll {
        s.preapproved.insert(text)
    } else {
        s.preapproved
    };
    let next = s.next_command_id + 1;
    match d {
        Decision::Approve | Decision::ApproveAll => (
            ServerModel {
                monitoring: false,
                next_command_id: next,
                preapproved,
                phase: PhaseModel::AwaitingCommand,
                ..s
            },
            ActionModel::RunCommand(cmd),
        ),
        Decision::ApproveAndMonitor => (
            ServerModel {
                monitoring: true,
                next_command_id: next,
                preapproved,
                phase: PhaseModel::AwaitingCommand,
                ..s
            },
            ActionModel::RunCommand(cmd),
        ),
        Decision::Reject => (
            ServerModel {
                next_command_id: next,
                preapproved,
                phase: PhaseModel::AwaitingCommand,
                ..s
            },
            ActionModel::SendRejection(rejection_notice()),
        ),
        Decision::Unrecognized => (
            ServerModel { preapproved, phase: PhaseModel::Stalled, ..s },
            ActionModel::Stall,
        ),
    }
}

/// A command answered with "Approve all the same commands" is never put to
/// the approver again: the next time the same command arrives it goes
/// straight to the shell, and each of the two commands takes one number.
pub proof fn lemma_approve_all_is_remembered(
    s: ServerModel,
    cmd: Seq<u8>,
    token: Seq<char>,
    reply: Seq<u8>,
    later_token: Seq<char>,
)
    requires
        s.phase is AwaitingCommand,
        needs_approval(s, cmd),
        utf8_lossy(cmd).len() > 0,
        decision_of(utf8_lossy(reply)) == Decision::ApproveAll,
    ensures
        ({
            let (s1, a1) = command_step(s, cmd, token);
            let (s2, a2) = reply_step(s1, reply);
            let (s3, a3) = command_step(s2, cmd, later_token);
            &&& a1 is RequestApproval
            &&& a2 == ActionModel::RunCommand(cmd)
            &&& s2.phase is AwaitingCommand
            &&& a3 == ActionModel::RunCommand(cmd)
            &&& s3.phase is AwaitingCommand
            &&& s3.next_command_id == s.next_command_id + 2
        }),
{
    let (s1, a1) = command_step(s, cmd, token);
    let (s2, a2) = reply_step(s1, reply);
    assert(s2.preapproved.contains(utf8_lossy(cmd)));
}

/// No command reaches the shell without approval: a command runs straight
/// away only when its text was approved once and for all, and after a
/// request only when the answer approves it; what runs is the command
/// that was read, and it takes exactly one command number.
pub proof fn lemma_commands_run_only_when_approved(
    s: ServerModel,
    cmd: Seq<u8>,
    token: Seq<char>,
    reply: Seq<u8>,
)
    ensures
        ({
            let (s1, a1) = command_step(s, cmd, token);
            a1 is RunCommand ==> {
                &&& s.preapproved.contains(utf8_lossy(cmd))
                &&& a1 == ActionModel::RunCommand(cmd)
                &&& s1.next_command_id == s.next_command_id + 1
            }
        }),
        s.phase is AwaitingApproval ==> ({
            let (s2, a2) = reply_step(s, reply);
            let d = decision_of(utf8_lossy(reply));
            a2 is RunCommand ==> {
                &&& (d == Decision::Approve || d == Decision::ApproveAll || d
                    == Decision::ApproveAndMonitor)
                &&& a2 == ActionModel::RunCommand(s.phase->AwaitingApproval_0)
                &&& s2.next_command_id == s.next_command_id + 1
            }
        }),
{
}

/// Output is forwarded to the approver exactly while the command that last
/// ran was approved with "Approve and monitor"; a rejection leaves it as it
/// was, and the end of the session stops it.
pub proof fn lemma_monitoring_follows_last_approval(
    s: ServerModel,
    cmd: Seq<u8>,
    token: Seq<char>,
    reply: Seq<u8>,
)
    ensures
        ({
            let (s1, a1) = command_step(s, cmd, token);
            &&& a1 is RunCommand ==> !s1.monitoring
            &&& a1 is EndSession ==> !s1.monitoring
            &&& a1 is RequestApproval ==> s1.monitoring == s.monitoring
        }),
        s.phase is AwaitingApproval ==> ({
            let (s2, a2) = reply_step(s, reply);
            &&& a2 is RunCommand ==> (s2.monitoring <==> decision_of(utf8_lossy(reply))
                == Decision::ApproveAndMonitor)
            &&& a2 is SendRejection ==> s2.monitoring == s.monitoring
        }),
{
}

/// Commands approved once and for all stay approved: neither step ever
/// removes one, and a rejected command is answered with the rejection
/// notice.
pub proof fn lemma_preapproval_is_permanent(
    s: ServerModel,
    cmd: Seq<u8>,
    token: Seq<char>,
    reply: Seq<u8>,
)
    ensures
        s.preapproved.subset_of(command_step(s, cmd, token).0.preapproved),
        s.phase is AwaitingApproval ==> s.preapproved.subset_of(reply_step(s, reply).0.preapproved),
        s.phase is AwaitingApproval && decision_of(utf8_lossy(reply)) == Decision::Reject
            ==> reply_step(s, reply).1 == ActionModel::SendRejection(rejection_notice()),
{
}

/// Only the answer "Approve_all" adds to the commands approved for good: it
/// adds the text of the pending command (unless that text is empty), and
/// every other answer, a plain "Approve" among them, leaves that set as it
/// was.
pub proof fn lemma_only_approve_all_is_remembered(s: ServerModel, reply: Seq<u8>)
    requires
        s.phase is AwaitingApproval,
    ensures
        utf8_lossy(reply) != "Approve_all"@ ==> reply_step(s, reply).0.preapproved
            == s.preapproved,
        utf8_lossy(reply) == "Approve_all"@ && utf8_lossy(s.phase->AwaitingApproval_0).len() > 0
            ==> reply_step(s, reply).0.preapproved == s.preapproved.insert(
            utf8_lossy(s.phase->AwaitingApproval_0),
        ),
{
    reveal_strlit("Approve");
    reveal_strlit("Approve_all");
    assert("Approve"@ != "Approve_all"@) by {
        assert("Approve"@.len() != "Approve_all"@.len());
    }
}

/// A command run after a plain "Approve" is asked about again the next
/// time it comes: the second request carries the new token, and the
/// session waits for the approver's answer about the same command.
pub proof fn lemma_plain_approval_asks_again(
    s: ServerModel,
    cmd: Seq<u8>,
    token: Seq<char>,
    reply: Seq<u8>,
    later_token: Seq<char>,
)
    requires
        cmd.len() > 0,
        !s.preapproved.contains(utf8_lossy(cmd)),
        utf8_lossy(reply) == "Approve"@,
    ensures
        ({
            let (s1, a1) = command_step(s, cmd, token);
            let (s2, a2) = reply_step(s1, reply);
            let (s3, a3) = command_step(s2, cmd, later_token);
            &&& a2 == ActionModel::RunCommand(cmd)
            &&& s2.preapproved == s.preapproved
            &&& a3 is RequestApproval
            &&& a3->callback_key == "tg_bot:callback:"@ + later_token
            &&& s3.phase == PhaseModel::AwaitingApproval(cmd)
        }),
{
    reveal_strlit("Approve");
    reveal_strlit("Approve_all");
    assert("Approve"@ != "Approve_all"@) by {
        assert("Approve"@.len() != "Approve_all"@.len());
    }
}

/// Every command that is not empty and was not approved for good is put to
/// the approver, whatever its text (a lone newline among them): the request
/// asks about that command for the session's requester, its buttons and
/// the key the answer is read from carry the same token, and the session
/// then waits for the answer about that command. Only the empty command
/// ends the session.
pub proof fn lemma_unapproved_command_is_put_to_the_approver(
    s: ServerModel,
    cmd: Seq<u8>,
    token: Seq<char>,
)
    ensures
        cmd.len() > 0 && !s.preapproved.contains(utf8_lossy(cmd)) ==> {
            let (s1, a1) = command_step(s, cmd, token);
            &&& a1 == ActionModel::RequestApproval {
                message: encode_utf8(
                    json_pair_object(
                        "text"@,
                        "User "@ + crate::approval::id_prefix(s.requester)
                            + " want to run the following command:\n"@ + utf8_lossy(cmd),
                        "reply_markup"@,
                        approval_keyboard(token),
                    ),
                ),
                callback_key: "tg_bot:callback:"@ + token,
            }
            &&& s1.phase == PhaseModel::AwaitingApproval(cmd)
            &&& s1.preapproved == s.preapproved
            &&& s1.next_command_id == s.next_command_id
        },
        cmd.len() == 0 <==> command_step(s, cmd, token).1 is EndSession,
        cmd.len() > 0 && s.preapproved.contains(utf8_lossy(cmd)) ==> command_step(
            s,
            cmd,
            token,
        ).1 == ActionModel::RunCommand(cmd),
        !(command_step(s, cmd, token).1 is Stall),
{
}

/// One event of a session as its driver feeds it: a command read (with the
/// token that tags the approval request if one is made), or the approver's
/// answer.
pub enum SessionEvent {
    Command(Seq<u8>, Seq<char>),
    Reply(Seq<u8>),
}

/// The session after one event. An event that does not fit the phase (a
/// command while an answer is awaited, an answer while a command is, or
/// anything once the session ended or stalled) changes nothing.
pub open spec fn apply_event(s: ServerModel, e: SessionEvent) -> ServerModel {
    match e {
        SessionEvent::Command(cmd, token) => if s.phase is AwaitingCommand {
            command_step(s, cmd, token).0
        } else {
            s
        },
        SessionEvent::Reply(reply) => if s.phase is AwaitingApproval {
            reply_step(s, reply).0
        } else {
            s
        },
    }
}

/// The session after a run of events.
pub open spec fn run_events(s: ServerModel, events: Seq<SessionEvent>) -> ServerModel
    decreases events.len(),
{
    if events.len() == 0 {
        s
    } else {
        run_events(apply_event(s, events[0]), events.drop_first())
    }
}

/// Running one more event applies it to the session reached so far.
pub proof fn lemma_run_events_push(s: ServerModel, events: Seq<SessionEvent>, e: SessionEvent)
    ensures
        run_events(s, events.push(e)) == apply_event(run_events(s, events), e),
    decreases events.len(),
{
    if events.len() == 0 {
        assert(events.push(e).drop_first() =~= Seq::<SessionEvent>::empty());
        assert(events.push(e)[0] == e);
        assert(run_events(apply_event(s, e), Seq::<SessionEvent>::empty()) == apply_event(s, e));
        assert(run_events(s, events) == s);
    } else {
        assert(events.push(e).drop_first() =~= events.drop_first().push(e));
        assert(events.push(e)[0] == events[0]);
        lemma_run_events_push(apply_event(s, events[0]), events.drop_first(), e);
    }
}

/// No run of events takes back a command approved once and for all.
pub proof fn lemma_run_keeps_preapproval(s: ServerModel, events: Seq<SessionEvent>)
    ensures
        s.preapproved.subset_of(run_events(s, events).preapproved),
    decreases events.len(),
{
    if events.len() > 0 {
        let e = events[0];
        match e {
            SessionEvent::Command(cmd, token) => lemma_preapproval_is_permanent(
                s,
                cmd,
                token,
                Seq::empty(),
            ),
            SessionEvent::Reply(reply) => lemma_preapproval_is_permanent(
                s,
                Seq::empty(),
                Seq::empty(),
                reply,
            ),
        }
        lemma_run_keeps_preapproval(apply_event(s, e), events.drop_first());
    }
}

/// A command answered with "Approve all the same commands" goes straight
/// to the shell at every later arrival in the session, whatever happened in
/// between: no approval is asked for it, it takes the next command number,
/// and output forwarding is turned off.
pub proof fn lemma_approve_all_holds_for_every_later_arrival(
    s: ServerModel,
    cmd: Seq<u8>,
    token: Seq<char>,
    reply: Seq<u8>,
    later: Seq<SessionEvent>,
    later_token: Seq<char>,
)
    requires
        s.phase is AwaitingCommand,
        needs_approval(s, cmd),
        utf8_lossy(cmd).len() > 0,
        decision_of(utf8_lossy(reply)) == Decision::ApproveAll,
    ensures
        ({
            let s2 = apply_event(
                apply_event(s, SessionEvent::Command(cmd, token)),
                SessionEvent::Reply(reply),
            );
            let s3 = run_events(s2, later);
            s3.phase is AwaitingCommand ==> command_step(s3, cmd, later_token) == (
                ServerModel {
                    monitoring: false,
                    next_command_id: s3.next_command_id + 1,
                    ..s3
                },
                ActionModel::RunCommand(cmd),
            )
        }),
{
    let s1 = apply_event(s, SessionEvent::Command(cmd, token));
    let s2 = apply_event(s1, SessionEvent::Reply(reply));
    assert(s2.preapproved.contains(utf8_lossy(cmd)));
    lemma_run_keeps_preapproval(s2, later);
}

/// The value that an event gives to output forwarding, if it sets it: a
/// command that runs without asking, or the end of the session, turns it
/// off; an answer that runs the command turns it on for "Approve and
/// monitor" and off otherwise. Requests, rejections and unrecognised
/// answers leave it alone.
pub open spec fn monitoring_set_by(s: ServerModel, e: SessionEvent) -> Option<bool> {
    match e {
        SessionEvent::Command(cmd, _) => if s.phase is AwaitingCommand && (cmd.len() == 0
            || s.preapproved.contains(utf8_lossy(cmd))) {
            Some(false)
        } else {
            None
        },
        SessionEvent::Reply(reply) => if s.phase is AwaitingApproval {
            match decision_of(utf8_lossy(reply)) {
                Decision::Approve | Decision::ApproveAll => Some(false),
                Decision::ApproveAndMonitor => Some(true),
                _ => None,
            }
        } else {
            None
        },
    }
}

/// The value given to output forwarding by the last event of the run that
/// set it, or the session's value before the run if none did.
pub open spec fn last_monitoring_setting(s: ServerModel, events: Seq<SessionEvent>) -> bool
    decreases events.len(),
{
    if events.len() == 0 {
        s.monitoring
    } else {
        match monitoring_set_by(run_events(s, events.drop_last()), events.last()) {
            Some(b) => b,
            None => last_monitoring_setting(s, events.drop_last()),
        }
    }
}

/// Over a whole session, output is forwarded exactly when the last command
/// that ran was approved with "Approve and monitor" and the session has not
/// ended since: the forwarding flag after any run of events is the value
/// set by the last event that set it.
pub proof fn lemma_monitoring_over_a_session(s: ServerModel, events: Seq<SessionEvent>)
    ensures
        run_events(s, events).monitoring == last_monitoring_setting(s, events),
    decreases events.len(),
{
    if events.len() > 0 {
        let init = events.drop_last();
        let e = events.last();
        assert(init.push(e) =~= events);
        lemma_run_events_push(s, init, e);
        lemma_monitoring_over_a_session(s, init);
        let prev = run_events(s, init);
        match e {
            SessionEvent::Command(cmd, token) => lemma_monitoring_follows_last_approval(
                prev,
                cmd,
                token,
                Seq::empty(),
            ),
            SessionEvent::Reply(reply) => lemma_monitoring_follows_last_approval(
                prev,
                Seq::empty(),
                Seq::empty(),
                reply,
            ),
        }
    }
}

/// The state of one shell session on the server.
pub struct ServerSession {
    requester: String,
    next_command_id: u64,
    monitoring: bool,
    preapproved: PreapprovedCommands,
    phase: SessionPhase,
}

impl View for ServerSession {
    type V = ServerModel;

    closed spec fn view(&self) -> ServerModel {
        ServerModel {
            requester: self.requester@,
            next_command_id: self.next_command_id as nat,
            monitoring: self.monitoring,
            preapproved: self.preapproved@,
            phase: match self.phase {
                SessionPhase::AwaitingCommand => PhaseModel::AwaitingCommand,
                SessionPhase::AwaitingApproval(c) => PhaseModel::AwaitingApproval(c@),
                SessionPhase::Ended => PhaseModel::Ended,
                SessionPhase::Stalled => PhaseModel::Stalled,
            },
        }
    }
}

impl ServerSession {
    /// The session's internal invariant.
    pub closed spec fn wf(&self) -> bool {
        self.preapproved.wf()
    }

    /// Starts a session for commands asked for by `requester`.
    pub fn new(requester: String) -> (s: Self)
        ensures
            s.wf(),
            s@ == initial_model(requester@),
    {
        ServerSession {
            requester,
            next_command_id: 0,
            monitoring: false,
            preapproved: PreapprovedCommands::new(),
            phase: SessionPhase::AwaitingCommand,
        }
    }

    /// Whether shell output is forwarded to the approver.
    pub fn monitoring(&self) -> (b: bool)
        ensures
            b == self@.monitoring,
    {
        self.monitoring
    }

    /// Whether another command can still be numbered.
    pub fn has_room(&self) -> (b: bool)
        ensures
            b == (self@.next_command_id < u64::MAX),
    {
        self.next_command_id < u64::MAX
    }

    /// Whether the session waits for a command.
    pub fn awaiting_command(&self) -> (b: bool)
        ensures
            b == (self@.phase is AwaitingCommand),
    {
        match self.phase {
            SessionPhase::AwaitingCommand => true,
            _ => false,
        }
    }

    /// Whether the session waits for the approver's answer.
    pub fn awaiting_approval(&self) -> (b: bool)
        ensures
            b == (self@.phase is AwaitingApproval),
    {
        match self.phase {
            SessionPhase::AwaitingApproval(_) => true,
            _ => false,
        }
    }

    /// The user on whose behalf commands are asked for.
    pub fn requester(&self) -> (r: &str)
        ensures
            r@ == self@.requester,
    {
        self.requester.as_str()
    }

    /// The variable from which the next command is read.
    pub fn command_key(&self) -> (key: String)
        ensures
            key@ == numbered_key("command:"@, self@.next_command_id),
    {
        command_key(self.next_command_id)
    }

    /// Whether the command `cmd` has to be put to the approver.
    pub fn needs_approval(&self, cmd: &[u8]) -> (b: bool)
        ensures
            b == needs_approval(self@, cmd@),
    {
        if cmd.len() == 0 {
            return false;
        }
        let text = decode_lossy(cmd);
        !self.preapproved.contains(&text)
    }

    /// Handles command `cmd`; `token` tags the approval request if one is
    /// made.
    pub fn handle_command(&mut self, cmd: Vec<u8>, token: &str) -> (act: ServerAction)
        requires
            old(self).wf(),
            old(self)@.phase is AwaitingCommand,
            old(self)@.next_command_id < u64::MAX,
            needs_approval(old(self)@, cmd@) ==> cuttable_id(old(self)@.requester),
        ensures
            final(self).wf(),
            (final(self)@, act@) == command_step(old(self)@, cmd@, token@),
            final(self)@ == apply_event(old(self)@, SessionEvent::Command(cmd@, token@)),
    {
        if cmd.len() == 0 {
            self.monitoring = false;
            self.phase = SessionPhase::Ended;
            return ServerAction::EndSession;
        }
        let text = decode_lossy(cmd.as_slice());
        if self.preapproved.contains(&text) {
            self.monitoring = false;
            self.next_command_id = self.next_command_id + 1;
            return ServerAction::RunCommand(cmd);
        }
        let message = request_message(self.requester.as_str(), text.as_str(), token);
        let key = callback_key(token);
        self.phase = SessionPhase::AwaitingApproval(cmd);
        ServerAction::RequestApproval { message, callback_key: key }
    }

    /// Handles command `cmd`, drawing a fresh random token for the
    /// approval request when one is needed.
    pub fn receive_command(&mut self, cmd: Vec<u8>) -> (act: ServerAction)
        requires
            old(self).wf(),
            old(self)@.phase is AwaitingCommand,
            old(self)@.next_command_id < u64::MAX,
            needs_approval(old(self)@, cmd@) ==> cuttable_id(old(self)@.requester),
        ensures
            final(self).wf(),
            !needs_approval(old(self)@, cmd@) ==> (final(self)@, act@) == command_step(
                old(self)@,
                cmd@,
                Seq::empty(),
            ),
            needs_approval(old(self)@, cmd@) ==> exists|t: Seq<char>|
                is_v4_uuid(t) && (final(self)@, act@) == #[trigger] command_step(
                    old(self)@,
                    cmd@,
                    t,
                ),
    {
        if self.needs_approval(cmd.as_slice()) {
            let token = fresh_uuid();
            let act = self.handle_command(cmd, token.as_str());
            proof {
                assert(is_v4_uuid(token@) && (self@, act@) == command_step(
                    old(self)@,
                    cmd@,
                    token@,
                ));
            }
            act
        } else {
            let act = self.handle_command(cmd, "");
            proof {
                assert(""@ =~= Seq::<char>::empty()) by {
                    reveal_strlit("");
                }
            }
            act
        }
    }

    /// Handles command `cmd` as `receive_command` does, unless it needs
    /// the approver and the requester's id cannot be shortened for the
    /// question (its first seven bytes do not end on a character
    /// boundary): then the session is left as it is and `None` comes back.
    pub fn try_receive_command(&mut self, cmd: Vec<u8>) -> (act: Option<ServerAction>)
        requires
            old(self).wf(),
            old(self)@.phase is AwaitingCommand,
            old(self)@.next_command_id < u64::MAX,
        ensures
            final(self).wf(),
            (needs_approval(old(self)@, cmd@) && !cuttable_id(old(self)@.requester)) <==> act
                is None,
            match act {
                None => final(self)@ == old(self)@,
                Some(a) => if needs_approval(old(self)@, cmd@) {
                    exists|t: Seq<char>|
                        is_v4_uuid(t) && (final(self)@, a@) == #[trigger] command_step(
                            old(self)@,
                            cmd@,
                            t,
                        )
                } else {
                    (final(self)@, a@) == command_step(old(self)@, cmd@, Seq::empty())
                },
            },
    {
        if self.needs_approval(cmd.as_slice()) && !self.requester.as_str().is_char_boundary(7) {
            return None;
        }
        Some(self.receive_command(cmd))
    }

    /// Handles the approver's answer `reply` about the pending command.
    pub fn handle_reply(&mut self, reply: &[u8]) -> (act: ServerAction)
        requires
            old(self).wf(),
            old(self)@.phase is AwaitingApproval,
            old(self)@.next_command_id < u64::MAX,
        ensures
            final(self).wf(),
            (final(self)@, act@) == reply_step(old(self)@, reply@),
            final(self)@ == apply_event(old(self)@, SessionEvent::Reply(reply@)),
    {
        let mut phase = SessionPhase::AwaitingCommand;
        std::mem::swap(&mut phase, &mut self.phase);
        let cmd = match phase {
            SessionPhase::AwaitingApproval(c) => c,
            _ => {
                proof {
                    assert(false);
                }
                Vec::new()
            },
        };
        let text = decode_lossy(cmd.as_slice());
        let d = decide(reply);
        if !text.as_str().is_empty() && d == Decision::ApproveAll {
            self.preapproved.insert(text);
        }
        match d {
            Decision::Approve | Decision::ApproveAll => {
                self.monitoring = false;
                self.next_command_id = self.next_command_id + 1;
                ServerAction::RunCommand(cmd)
            },
            Decision::ApproveAndMonitor => {
                self.monitoring = true;
                self.next_command_id = self.next_command_id + 1;
                ServerAction::RunCommand(cmd)
            },
            Decision::Reject => {
                self.next_command_id = self.next_command_id + 1;
                ServerAction::SendRejection("Rejected, enter a new command: ".as_bytes_vec())
            },
            Decision::Unrecognized => {
                self.phase = SessionPhase::Stalled;
                ServerAction::Stall
            },
        }
    }
}

/// The message that forwards a piece of shell output to the approver: the
/// cleaned text, escaped, inside a code block, in MarkdownV2.
pub open spec fn monitor_message(cleaned: Seq<char>) -> Seq<u8> {
    encode_utf8(
        json_pair_object(
            "text"@,
            "```\n"@ + markdown_escaped(cleaned) + "\n```"@,
            "parse_mode"@,
            "MarkdownV2"@,
        ),
    )
}

/// Builds the message that forwards `output` to the approver while the
/// session is monitored.
pub fn monitor_report(output: &[u8]) -> (msg: Vec<u8>)
    ensures
        msg@ == monitor_message(ansi_cleaned(output@)),
{
    let cleaned = ansi_clean_up(output);
    let escaped = markdown_escape(cleaned);
    let mut text = String::new();
    text.append("```\n");
    text.append(escaped.as_str());
    text.append("\n```");
    let obj = pair_object("text", text.as_str(), "parse_mode", "MarkdownV2");
    obj.as_str().as_bytes_vec()
}

/// The message sent to the approver for a piece of shell output while
/// forwarding is on or off: there is one exactly while it is on.
pub open spec fn forwarded_message(monitoring: bool, output: Seq<u8>) -> Option<Seq<u8>> {
    if monitoring {
        Some(monitor_message(ansi_cleaned(output)))
    } else {
        None
    }
}

/// The message to send the approver for a piece of shell output: there is
/// one exactly while output is forwarded.
pub fn forwarded_report(monitoring: bool, output: &[u8]) -> (msg: Option<Vec<u8>>)
    ensures
        msg is Some <==> monitoring,
        msg matches Some(m) ==> m@ == monitor_message(ansi_cleaned(output@)),
        msg is Some <==> forwarded_message(monitoring, output@) is Some,
        msg matches Some(m) ==> forwarded_message(monitoring, output@) == Some(m@),
{
    if monitoring {
        Some(monitor_report(output))
    } else {
        None
    }
}

/// Over a whole session, a piece of shell output is forwarded to the
/// approver exactly when the last event that set forwarding turned it on
/// (the last command that ran was approved with "Approve and monitor", and
/// no command ran since and the session has not ended), and what is sent is
/// the cleaned, escaped output in a code block.
pub proof fn lemma_output_forwarded_over_a_session(
    s: ServerModel,
    events: Seq<SessionEvent>,
    output: Seq<u8>,
)
    ensures
        forwarded_message(run_events(s, events).monitoring, output) is Some
            <==> last_monitoring_setting(s, events),
        forwarded_message(run_events(s, events).monitoring, output) matches Some(m) ==> m
            == monitor_message(ansi_cleaned(output)),
{
    lemma_monitoring_over_a_session(s, events);
}

} // verus!
