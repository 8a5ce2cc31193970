//! What goes in comes out: what the operations give back, by what they were given.

use vstd::prelude::*;

use crate::client::{outcome_of, SessionEvent};
use crate::handshake::{abandon_message, hello_message, start_message};
use crate::protocol::{
    messages_survive_the_wire, read_reply, ClientCommand, ClientMessage, ErrorCode, Reply,
    ServerMessage,
};
use crate::scanner::{addresses, is_pong, probe_addresses};
use crate::scanner_laws::{every_host_is_probed, no_host_is_probed_twice};
use crate::server::{delivery_of, poll_result, Connection, Delivery, FinishedSession, ResultPoll};
use crate::session::{
    after_commit, insertion_outcome, stop_event, ClipboardOutcome, InsertStep, Session,
};
use crate::text::{decimal, occurs_in, text_of, texts};
use crate::text_laws::parts_are_found_in_what_holds_them;

verus! {

/// A text goes its way whole: where a look at the history gives a text, and that text is begun to be
/// delivered, the delivery holds the final text of the newest entry, character by character, for the
/// session of the connection and under the identifier that was given.
pub proof fn a_text_goes_its_way_whole(
    newest: Option<FinishedSession<String>>,
    previous: Option<String>,
    since: u64,
    now: u64,
    text: String,
    conn: Connection<String>,
    command: ClientCommand<String>,
    result_id: String,
    delivery: Delivery<String>,
)
    requires
        call_ensures(poll_result, (newest, &previous, since, now), ResultPoll::Ready(text)),
        call_ensures(delivery_of, (&conn, &command, text, result_id), delivery),
    ensures
        newest is Some,
        delivery.text@ == newest->0.final_text@,
        delivery.session_id@ == conn.session->0.session_id@,
        delivery.result_id@ == result_id@,
        delivery.sent == 0,
{
}

/// Every neighbour is probed: of the hosts 1 to 254 in the network of each prefix none is left out.
pub proof fn every_neighbour_is_probed(
    prefixes: Vec<String>,
    port: u16,
    list: Vec<String>,
    p: int,
    host: nat,
) -> (at: int)
    requires
        call_ensures(probe_addresses, (&prefixes, port), list),
        0 <= p < prefixes@.len(),
        1 <= host <= 254,
    ensures
        0 <= at < list@.len(),
        list@[at]@ == prefixes@[p]@ + "."@ + decimal(host) + ":"@ + decimal(port as nat),
{
    let found = texts(list@);
    let address = prefixes@[p]@ + "."@ + decimal(host) + ":"@ + decimal(port as nat);
    assert(texts(prefixes@)[p] == prefixes@[p]@);
    every_host_is_probed(texts(prefixes@), p, host, port);
    assert(found.contains(address));
    let at = choose|k: int| 0 <= k < found.len() && found[k] == address;
    assert(list@[at]@ == found[at]);
    at
}

/// No neighbour is probed twice, where no prefix stands in the list twice.
pub proof fn no_neighbour_is_probed_twice(
    prefixes: Vec<String>,
    port: u16,
    list: Vec<String>,
    i: int,
    j: int,
)
    requires
        call_ensures(probe_addresses, (&prefixes, port), list),
        forall|a: int, b: int|
            0 <= a < b < prefixes@.len() ==> (#[trigger] prefixes@[a])@ != (
            #[trigger] prefixes@[b])@,
        0 <= i < j < list@.len(),
    ensures
        list@[i]@ != list@[j]@,
        list@.len() == 254 * prefixes@.len(),
{
    let found = texts(list@);
    let names = texts(prefixes@);
    assert(found == addresses(names, port));
    assert forall|a: int, b: int| 0 <= a < b < names.len() implies #[trigger] names[a]
        != #[trigger] names[b] by {
        assert(prefixes@[a]@ != prefixes@[b]@);
    }
    no_host_is_probed_twice(names, port, i, j);
    assert(found[i] == list@[i]@ && found[j] == list@[j]@);
}

/// A result crosses the wire whole: what a reader finds in the frame of a result is its session, its
/// identifier and its text.
pub proof fn a_result_crosses_the_wire(
    session_id: String,
    result_id: String,
    text: String,
    frame: String,
    read: &str,
    outcome: Result<Reply<String>, String>,
)
    requires
        call_ensures(
            ServerMessage::<String>::encode,
            (&ServerMessage::Result { session_id, result_id, text },),
            frame,
        ),
        read@ == frame@,
        call_ensures(read_reply, (read,), outcome),
    ensures
        outcome is Ok,
        text_of(outcome->Ok_0.kind) == Some("result"@),
        text_of(outcome->Ok_0.session_id) == Some(session_id@),
        text_of(outcome->Ok_0.result_id) == Some(result_id@),
        text_of(outcome->Ok_0.text) == Some(text@),
{
    messages_survive_the_wire(
        ServerMessage::Result { session_id: session_id@, result_id: result_id@, text: text@ },
        frame@,
    );
}

/// An error crosses the wire whole, with its code and its words.
pub proof fn an_error_crosses_the_wire(
    code: ErrorCode,
    message: String,
    frame: String,
    read: &str,
    outcome: Result<Reply<String>, String>,
)
    requires
        call_ensures(
            ServerMessage::<String>::encode,
            (&ServerMessage::Error { code, message },),
            frame,
        ),
        read@ == frame@,
        call_ensures(read_reply, (read,), outcome),
    ensures
        outcome is Ok,
        text_of(outcome->Ok_0.kind) == Some("error"@),
        text_of(outcome->Ok_0.code) == Some(code.text()),
        text_of(outcome->Ok_0.message) == Some(message@),
{
    messages_survive_the_wire(ServerMessage::Error { code, message: message@ }, frame@);
}

/// What a client sends of its own accord names it, and its session where it has one.
pub proof fn clients_name_themselves(
    client: &str,
    hello: ClientMessage<String>,
    start: ClientMessage<String>,
    cancel: ClientMessage<String>,
    session: Session,
    stop: ClientMessage<String>,
)
    requires
        call_ensures(hello_message, (client,), hello),
        call_ensures(start_message, (client,), start),
        call_ensures(abandon_message, (client,), cancel),
        call_ensures(Session::stop_message, (&session,), stop),
    ensures
        hello@ == (ClientMessage::Hello { client_id: client@ }),
        start@ == (ClientMessage::Start { client_id: client@ }),
        cancel@ == (ClientMessage::Cancel { client_id: client@, session_id: None::<Seq<char>> }),
        session.session_id is Some ==> stop@ == (ClientMessage::Stop {
            session: Some((session.client_id@, session.session_id->0@)),
        }),
        session.session_id is None ==> stop@ == (ClientMessage::<Seq<char>>::Stop { session: None }),
{
}

/// A text is on the clipboard exactly where the input method did not take it, and it counts as
/// inserted in either case; only a clipboard that would not take it either makes the insertion fail,
/// and says why.
pub proof fn a_text_is_inserted_one_way_or_the_other(
    taken: Result<(), String>,
    step: InsertStep,
    error: String,
    clipboard: Option<ClipboardOutcome<String>>,
    outcome: Result<(), String>,
)
    requires
        call_ensures(after_commit, (&taken,), step),
        call_ensures(insertion_outcome, (clipboard,), outcome),
    ensures
        step == InsertStep::Copy <==> taken is Err,
        outcome is Ok <==> clipboard is None || clipboard->0 is Copied,
        clipboard == Some(ClipboardOutcome::Unavailable(error)) ==> outcome->Err_0@ == "clipboard: "@
            + error@,
        clipboard == Some(ClipboardOutcome::Refused(error)) ==> outcome->Err_0@ == "clipboard set: "@
            + error@,
{
    assert(outcome_of(outcome) is Ok <==> outcome is Ok);
}

/// A session that was ended by a key ended well exactly where its text was inserted, and otherwise
/// with the words of what went wrong.
pub proof fn how_an_ended_session_is_told(outcome: Result<(), String>, event: SessionEvent<String>)
    requires
        call_ensures(stop_event, (outcome,), event),
    ensures
        outcome is Ok ==> event@ == SessionEvent::<Seq<char>>::Stopped,
        outcome is Err ==> event@ == SessionEvent::Failed("转录失败："@ + outcome->Err_0@),
{
}

/// A frame is the answer to a ping exactly where the quoted word stands in it, whatever stands round
/// it.
pub proof fn what_an_answer_to_a_ping_holds(
    before: Seq<char>,
    after: Seq<char>,
    frame: &str,
    answered: bool,
)
    requires
        call_ensures(is_pong, (frame,), answered),
    ensures
        frame@ == before + "\"pong\""@ + after ==> answered,
        answered ==> occurs_in("\"pong\""@, frame@),
{
    parts_are_found_in_what_holds_them(before, "\"pong\""@, after, frame@);
}

} // verus!
