//! The approval round trip: the question put to the approver, the answer
//! read back, and the commands approved once and for all.

use crate::json::{json_pair_object, pair_object};
use crate::outside::{decode_lossy, utf8_lossy};
use vstd::prelude::*;
use vstd::utf8::{decode_utf8, encode_utf8, encode_utf8_decode_utf8, is_char_boundary};

verus! {

/// The approver's answer to one request.
#[derive(PartialEq, Eq, Structural, Clone, Copy, Debug)]
pub enum Decision {
    /// Run the command.
    Approve,
    /// Run the command, and every later command with the same text.
    ApproveAll,
    /// Run the command and forward its output to the approver.
    ApproveAndMonitor,
    /// Do not run the command.
    Reject,
    /// Any other answer (the request is ignored).
    Unrecognized,
}

/// The decision that an answer text stands for.
pub open spec fn decision_of(reply: Seq<char>) -> Decision {
    if reply == "Approve"@ {
        Decision::Approve
    } else if reply == "Approve_all"@ {
        Decision::ApproveAll
    } else if reply == "Approve and monitor"@ {
        Decision::ApproveAndMonitor
    } else if reply == "Reject"@ {
        Decision::Reject
    } else {
        Decision::Unrecognized
    }
}

/// Reads the approver's answer, as the messaging bot stored it.
pub fn decide(reply: &[u8]) -> (d: Decision)
    ensures
        d == decision_of(utf8_lossy(reply@)),
{
    let text = decode_lossy(reply);
    if text == "Approve".to_owned() {
        Decision::Approve
    } else if text == "Approve_all".to_owned() {
        Decision::ApproveAll
    } else if text == "Approve and monitor".to_owned() {
        Decision::ApproveAndMonitor
    } else if text == "Reject".to_owned() {
        Decision::Reject
    } else {
        Decision::Unrecognized
    }
}

/// A user id whose first seven bytes end on a character boundary (so that
/// the short form below exists).
pub open spec fn cuttable_id(id: Seq<char>) -> bool {
    is_char_boundary(encode_utf8(id), 7)
}

/// The short form of a user id: the characters of its first seven bytes.
pub open spec fn id_prefix(id: Seq<char>) -> Seq<char> {
    decode_utf8(encode_utf8(id).subrange(0, 7))
}

/// The short form of a user id that is shown to people.
pub fn short_id(id: &str) -> (p: String)
    requires
        cuttable_id(id@),
    ensures
        p@ == id_prefix(id@),
{
    let (head, _tail) = id.split_at(7);
    proof {
        encode_utf8_decode_utf8(head@);
    }
    head.to_owned()
}

/// The question put to the approver.
pub open spec fn approval_prompt(requester: Seq<char>, command: Seq<char>) -> Seq<char> {
    "User "@ + id_prefix(requester) + " want to run the following command:\n"@ + command
}

/// The data a button sends back: a version tag, the request's token and
/// the choice.
pub open spec fn callback_data(token: Seq<char>, choice: Seq<char>) -> Seq<char> {
    "1 "@ + token + " "@ + choice
}

/// One button of the answer keyboard.
pub open spec fn button_json(label: Seq<char>, token: Seq<char>, choice: Seq<char>) -> Seq<char> {
    json_pair_object("text"@, label, "callback_data"@, callback_data(token, choice))
}

/// The answer keyboard of a request: three rows, (Approve, Reject),
/// (Approve and monitor, Ignore) and (Approve all the same commands).
pub open spec fn approval_keyboard(token: Seq<char>) -> Seq<char> {
    "{\"inline_keyboard\":[["@ + button_json("Approve"@, token, "Approve"@) + ","@ + button_json(
        "Reject"@,
        token,
        "Reject"@,
    ) + "],["@ + button_json("Approve and monitor"@, token, "Approve and monitor"@) + ","@
        + button_json("Ignore"@, token, "Ignore"@) + "],["@ + button_json(
        "Approve all the same commands"@,
        token,
        "Approve_all"@,
    ) + "]]}"@
}

/// The message that asks the approver about `command`.
pub open spec fn approval_request(
    requester: Seq<char>,
    command: Seq<char>,
    token: Seq<char>,
) -> Seq<char> {
    json_pair_object(
        "text"@,
        approval_prompt(requester, command),
        "reply_markup"@,
        approval_keyboard(token),
    )
}

/// Every button gives back the whole token of its request, whatever its
/// length, between the version tag and the choice: the data is `1 `, the
/// token, a space and the choice, so the answer is found under the key that
/// names the same token.
pub proof fn lemma_callback_data_carries_the_whole_token(token: Seq<char>, choice: Seq<char>)
    ensures
        callback_data(token, choice).len() == token.len() + choice.len() + 3,
        callback_data(token, choice).subrange(0, 2) == seq!['1', ' '],
        callback_data(token, choice).subrange(2, 2 + token.len() as int) == token,
        callback_data(token, choice)[2 + token.len() as int] == ' ',
        callback_data(token, choice).subrange(3 + token.len() as int, 3 + token.len() + choice.len() as int)
            == choice,
{
    reveal_strlit("1 ");
    reveal_strlit(" ");
    let d = callback_data(token, choice);
    assert(d.subrange(0, 2) =~= seq!['1', ' ']);
    assert(d.subrange(2, 2 + token.len() as int) =~= token);
    assert(d.subrange(3 + token.len() as int, 3 + token.len() + choice.len() as int) =~= choice);
}

/// The five buttons of a request, in their rows, each with its label and
/// the data `1 <token> <choice>` carrying the request's whole token.
pub proof fn lemma_keyboard_buttons(token: Seq<char>)
    ensures
        approval_keyboard(token) == "{\"inline_keyboard\":[["@ + json_pair_object(
            "text"@,
            "Approve"@,
            "callback_data"@,
            "1 "@ + token + " "@ + "Approve"@,
        ) + ","@ + json_pair_object("text"@, "Reject"@, "callback_data"@, "1 "@ + token + " "@ + "Reject"@)
            + "],["@ + json_pair_object(
            "text"@,
            "Approve and monitor"@,
            "callback_data"@,
            "1 "@ + token + " "@ + "Approve and monitor"@,
        ) + ","@ + json_pair_object("text"@, "Ignore"@, "callback_data"@, "1 "@ + token + " "@ + "Ignore"@)
            + "],["@ + json_pair_object(
            "text"@,
            "Approve all the same commands"@,
            "callback_data"@,
            "1 "@ + token + " "@ + "Approve_all"@,
        ) + "]]}"@,
{
}

fn button(label: &str, token: &str, choice: &str) -> (b: String)
    ensures
        b@ == button_json(label@, token@, choice@),
{
    let mut data = String::new();
    data.append("1 ");
    data.append(token);
    data.append(" ");
    data.append(choice);
    pair_object("text", label, "callback_data", data.as_str())
}

/// Builds the answer keyboard of the request that carries `token`.
pub fn keyboard(token: &str) -> (k: String)
    ensures
        k@ == approval_keyboard(token@),
{
    let mut k = String::new();
    k.append("{\"inline_keyboard\":[[");
    let b = button("Approve", token, "Approve");
    k.append(b.as_str());
    k.append(",");
    let b = button("Reject", token, "Reject");
    k.append(b.as_str());
    k.append("],[");
    let b = button("Approve and monitor", token, "Approve and monitor");
    k.append(b.as_str());
    k.append(",");
    let b = button("Ignore", token, "Ignore");
    k.append(b.as_str());
    k.append("],[");
    let b = button("Approve all the same commands", token, "Approve_all");
    k.append(b.as_str());
    k.append("]]}");
    k
}

/// Builds the message that asks the approver about `command`, sent on
/// behalf of `requester`, with answers tagged by `token`.
pub fn request_message(requester: &str, command: &str, token: &str) -> (msg: Vec<u8>)
    requires
        cuttable_id(requester@),
    ensures
        msg@ == encode_utf8(approval_request(requester@, command@, token@)),
{
    let mut prompt = String::new();
    prompt.append("User ");
    let p = short_id(requester);
    prompt.append(p.as_str());
    prompt.append(" want to run the following command:\n");
    prompt.append(command);
    let k = keyboard(token);
    let obj = pair_object("text", prompt.as_str(), "reply_markup", k.as_str());
    obj.as_str().as_bytes_vec()
}

/// The commands that the approver allowed once and for all, a set of texts.
///
/// The set is kept in a vector in which no text is stored twice. A std
/// `HashSet<String>` would not do here: vstd states what `insert` and
/// `contains` do only for key types it knows to obey its key model, the
/// integers, `bool` and boxes of them, not `String`, so membership after an
/// insert, and the laws built on it, could not be shown over one.
pub struct PreapprovedCommands {
    commands: Vec<String>,
}

impl View for PreapprovedCommands {
    type V = Set<Seq<char>>;

    closed spec fn view(&self) -> Set<Seq<char>> {
        Set::new(|t: Seq<char>| exists|i: int| 0 <= i < self.commands.len() && self.commands@[i]@ == t)
    }
}

impl PreapprovedCommands {
    /// No command text is stored twice.
    pub closed spec fn wf(&self) -> bool {
        forall|i: int, j: int|
            0 <= i < j < self.commands.len() ==> self.commands@[i]@ != self.commands@[j]@
    }

    /// No command is approved yet.
    pub fn new() -> (p: Self)
        ensures
            p.wf(),
            p@ == Set::<Seq<char>>::empty(),
    {
        let p = PreapprovedCommands { commands: Vec::new() };
        proof {
            assert(p@ =~= Set::<Seq<char>>::empty());
        }
        p
    }

    /// Whether `command` was approved once and for all.
    pub fn contains(&self, command: &String) -> (b: bool)
        ensures
            b == self@.contains(command@),
    {
        let n = self.commands.len();
        for i in 0..n
            invariant
                n == self.commands.len(),
                forall|j: int| 0 <= j < i ==> self.commands@[j]@ != command@,
        {
            if self.commands[i] == *command {
                proof {
                    assert(self@.contains(command@));
                }
                return true;
            }
        }
        false
    }

    /// Approves `command` once and for all.
    pub fn insert(&mut self, command: String)
        requires
            old(self).wf(),
        ensures
            final(self).wf(),
            final(self)@ == old(self)@.insert(command@),
    {
        if !self.contains(&command) {
            let ghost t = command@;
            let ghost before = self.commands@;
            self.commands.push(command);
            proof {
                assert forall|x: Seq<char>| self@.contains(x) <==> old(self)@.insert(t).contains(x) by {
                    if x == t {
                        assert(self.commands@[before.len() as int]@ == t);
                    }
                    if old(self)@.contains(x) {
                        let i = choose|i: int| 0 <= i < before.len() && before[i]@ == x;
                        assert(self.commands@[i]@ == x);
                    }
                    if self@.contains(x) && x != t {
                        let i = choose|i: int| 0 <= i < self.commands.len() && self.commands@[i]@ == x;
                        assert(i < before.len());
                        assert(before[i]@ == x);
                    }
                }
                assert(self@ =~= old(self)@.insert(t));
            }
        } else {
            proof {
                assert(old(self)@.insert(command@) =~= old(self)@);
            }
        }
    }
}

} // verus!
