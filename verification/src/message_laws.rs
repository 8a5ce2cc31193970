//! What the messages say: which members each has, and what a reader finds in it.

use vstd::prelude::*;

use crate::json::{json_read, read_well, Json};
use crate::protocol::{
    reply_among, reply_in, text_or_null, ClientMessage, ErrorCode, Reply, ServerMessage,
};

verus! {

/// The keys of the messages are all different.
pub proof fn keys_are_told_apart()
    ensures
        "type"@ != "sessionId"@,
        "type"@ != "resultId"@,
        "type"@ != "text"@,
        "type"@ != "code"@,
        "type"@ != "message"@,
        "type"@ != "ownerClientId"@,
        "type"@ != "alreadyActive"@,
        "type"@ != "alreadyStopped"@,
        "type"@ != "state"@,
        "type"@ != "protocolVersion"@,
        "type"@ != "lastError"@,
        "type"@ != "clientId"@,
        "type"@ != "translation"@,
        "sessionId"@ != "resultId"@,
        "sessionId"@ != "text"@,
        "sessionId"@ != "code"@,
        "sessionId"@ != "message"@,
        "sessionId"@ != "ownerClientId"@,
        "sessionId"@ != "alreadyActive"@,
        "sessionId"@ != "alreadyStopped"@,
        "sessionId"@ != "state"@,
        "sessionId"@ != "protocolVersion"@,
        "sessionId"@ != "lastError"@,
        "sessionId"@ != "clientId"@,
        "sessionId"@ != "translation"@,
        "resultId"@ != "text"@,
        "resultId"@ != "code"@,
        "resultId"@ != "message"@,
        "resultId"@ != "ownerClientId"@,
        "resultId"@ != "alreadyActive"@,
        "resultId"@ != "alreadyStopped"@,
        "resultId"@ != "state"@,
        "resultId"@ != "protocolVersion"@,
        "resultId"@ != "lastError"@,
        "resultId"@ != "clientId"@,
        "resultId"@ != "translation"@,
        "text"@ != "code"@,
        "text"@ != "message"@,
        "text"@ != "ownerClientId"@,
        "text"@ != "alreadyActive"@,
        "text"@ != "alreadyStopped"@,
        "text"@ != "state"@,
        "text"@ != "protocolVersion"@,
        "text"@ != "lastError"@,
        "text"@ != "clientId"@,
        "text"@ != "translation"@,
        "code"@ != "message"@,
        "code"@ != "ownerClientId"@,
        "code"@ != "alreadyActive"@,
        "code"@ != "alreadyStopped"@,
        "code"@ != "state"@,
        "code"@ != "protocolVersion"@,
        "code"@ != "lastError"@,
        "code"@ != "clientId"@,
        "code"@ != "translation"@,
        "message"@ != "ownerClientId"@,
        "message"@ != "alreadyActive"@,
        "message"@ != "alreadyStopped"@,
        "message"@ != "state"@,
        "message"@ != "protocolVersion"@,
        "message"@ != "lastError"@,
        "message"@ != "clientId"@,
        "message"@ != "translation"@,
        "ownerClientId"@ != "alreadyActive"@,
        "ownerClientId"@ != "alreadyStopped"@,
        "ownerClientId"@ != "state"@,
        "ownerClientId"@ != "protocolVersion"@,
        "ownerClientId"@ != "lastError"@,
        "ownerClientId"@ != "clientId"@,
        "ownerClientId"@ != "translation"@,
        "alreadyActive"@ != "alreadyStopped"@,
        "alreadyActive"@ != "state"@,
        "alreadyActive"@ != "protocolVersion"@,
        "alreadyActive"@ != "lastError"@,
        "alreadyActive"@ != "clientId"@,
        "alreadyActive"@ != "translation"@,
        "alreadyStopped"@ != "state"@,
        "alreadyStopped"@ != "protocolVersion"@,
        "alreadyStopped"@ != "lastError"@,
        "alreadyStopped"@ != "clientId"@,
        "alreadyStopped"@ != "translation"@,
        "state"@ != "protocolVersion"@,
        "state"@ != "lastError"@,
        "state"@ != "clientId"@,
        "state"@ != "translation"@,
        "protocolVersion"@ != "lastError"@,
        "protocolVersion"@ != "clientId"@,
        "protocolVersion"@ != "translation"@,
        "lastError"@ != "clientId"@,
        "lastError"@ != "translation"@,
        "clientId"@ != "translation"@,
{
    reveal_strlit("type");
    reveal_strlit("sessionId");
    reveal_strlit("resultId");
    reveal_strlit("text");
    reveal_strlit("code");
    reveal_strlit("message");
    reveal_strlit("ownerClientId");
    reveal_strlit("alreadyActive");
    reveal_strlit("alreadyStopped");
    reveal_strlit("state");
    reveal_strlit("protocolVersion");
    reveal_strlit("lastError");
    reveal_strlit("clientId");
    reveal_strlit("translation");
    assert("type"@.len() == 4 && "type"@[0] == 't' && "type"@[1] == 'y');
    assert("sessionId"@.len() == 9 && "sessionId"@[0] == 's' && "sessionId"@[1] == 'e');
    assert("resultId"@.len() == 8 && "resultId"@[0] == 'r' && "resultId"@[1] == 'e');
    assert("text"@.len() == 4 && "text"@[0] == 't' && "text"@[1] == 'e');
    assert("code"@.len() == 4 && "code"@[0] == 'c' && "code"@[1] == 'o');
    assert("message"@.len() == 7 && "message"@[0] == 'm' && "message"@[1] == 'e');
    assert("ownerClientId"@.len() == 13 && "ownerClientId"@[0] == 'o' && "ownerClientId"@[1] == 'w');
    assert("alreadyActive"@.len() == 13 && "alreadyActive"@[0] == 'a' && "alreadyActive"@[1] == 'l');
    assert("alreadyStopped"@.len() == 14 && "alreadyStopped"@[0] == 'a' && "alreadyStopped"@[1] == 'l');
    assert("state"@.len() == 5 && "state"@[0] == 's' && "state"@[1] == 't');
    assert("protocolVersion"@.len() == 15 && "protocolVersion"@[0] == 'p' && "protocolVersion"@[1] == 'r');
    assert("lastError"@.len() == 9 && "lastError"@[0] == 'l' && "lastError"@[1] == 'a');
    assert("clientId"@.len() == 8 && "clientId"@[0] == 'c' && "clientId"@[1] == 'l');
    assert("translation"@.len() == 11 && "translation"@[0] == 't' && "translation"@[1] == 'r');
}

/// Whether an object has this member.
pub open spec fn has(members: Map<Seq<char>, Json>, key: Seq<char>, value: Json) -> bool {
    members.contains_key(key) && members[key] == value
}

/// A welcome states the version of the protocol.
pub proof fn what_hello_ok_says()
    ensures
        ({
            let m = ServerMessage::<Seq<char>>::HelloOk.members();
            &&& has(m, "type"@, Json::Text("hello_ok"@))
            &&& has(m, "protocolVersion"@, Json::Number(2))
            &&& forall|key: Seq<char>| #[trigger] m.contains_key(key) ==> key == "type"@ || key == "protocolVersion"@
        }),
{
    keys_are_told_apart();
}

/// A session that began is told by its identifier.
pub proof fn what_started_says(id: Seq<char>)
    ensures
        ({
            let m = ServerMessage::Started { session_id: id, already_active: false }.members();
            &&& has(m, "type"@, Json::Text("started"@))
            &&& has(m, "sessionId"@, Json::Text(id))
            &&& forall|key: Seq<char>| #[trigger] m.contains_key(key) ==> key == "type"@ || key == "sessionId"@
        }),
{
    keys_are_told_apart();
}

/// A session that was there already is told by its identifier, and that it was.
pub proof fn what_started_again_says(id: Seq<char>)
    ensures
        ({
            let m = ServerMessage::Started { session_id: id, already_active: true }.members();
            &&& has(m, "type"@, Json::Text("started"@))
            &&& has(m, "sessionId"@, Json::Text(id))
            &&& has(m, "alreadyActive"@, Json::Flag(true))
            &&& forall|key: Seq<char>| #[trigger] m.contains_key(key) ==> key == "type"@ || key == "sessionId"@ || key == "alreadyActive"@
        }),
{
    keys_are_told_apart();
}

/// The answer to a bare ping says nothing more.
pub proof fn what_a_bare_pong_says()
    ensures
        ({
            let m = ServerMessage::<Seq<char>>::Pong { session_id: None }.members();
            &&& has(m, "type"@, Json::Text("pong"@))
            &&& forall|key: Seq<char>| #[trigger] m.contains_key(key) ==> key == "type"@
        }),
{
    keys_are_told_apart();
}

/// The answer to a heartbeat names the session.
pub proof fn what_pong_says(id: Seq<char>)
    ensures
        ({
            let m = ServerMessage::Pong { session_id: Some(id) }.members();
            &&& has(m, "type"@, Json::Text("pong"@))
            &&& has(m, "sessionId"@, Json::Text(id))
            &&& forall|key: Seq<char>| #[trigger] m.contains_key(key) ==> key == "type"@ || key == "sessionId"@
        }),
{
    keys_are_told_apart();
}

/// A result carries its text, whole, with its identifier and that of the session.
pub proof fn what_a_result_says(id: Seq<char>, result_id: Seq<char>, words: Seq<char>)
    ensures
        ({
            let m = ServerMessage::Result { session_id: id, result_id, text: words }.members();
            &&& has(m, "type"@, Json::Text("result"@))
            &&& has(m, "sessionId"@, Json::Text(id))
            &&& has(m, "resultId"@, Json::Text(result_id))
            &&& has(m, "text"@, Json::Text(words))
            &&& forall|key: Seq<char>| #[trigger] m.contains_key(key) ==> key == "type"@ || key == "sessionId"@ || key == "resultId"@ || key == "text"@
        }),
{
    keys_are_told_apart();
}

/// A session that was stopped is told by its identifier.
pub proof fn what_stopped_says(id: Seq<char>)
    ensures
        ({
            let m = ServerMessage::Stopped { session_id: id, already_stopped: false }.members();
            &&& has(m, "type"@, Json::Text("stopped"@))
            &&& has(m, "sessionId"@, Json::Text(id))
            &&& forall|key: Seq<char>| #[trigger] m.contains_key(key) ==> key == "type"@ || key == "sessionId"@
        }),
{
    keys_are_told_apart();
}

/// A session that was stopped before is told by its identifier, and that it was.
pub proof fn what_stopped_again_says(id: Seq<char>)
    ensures
        ({
            let m = ServerMessage::Stopped { session_id: id, already_stopped: true }.members();
            &&& has(m, "type"@, Json::Text("stopped"@))
            &&& has(m, "sessionId"@, Json::Text(id))
            &&& has(m, "alreadyStopped"@, Json::Flag(true))
            &&& forall|key: Seq<char>| #[trigger] m.contains_key(key) ==> key == "type"@ || key == "sessionId"@ || key == "alreadyStopped"@
        }),
{
    keys_are_told_apart();
}

/// Where there was nothing to cancel, no session is named.
pub proof fn what_a_bare_cancelled_says()
    ensures
        ({
            let m = ServerMessage::<Seq<char>>::Cancelled { session_id: None }.members();
            &&& has(m, "type"@, Json::Text("cancelled"@))
            &&& forall|key: Seq<char>| #[trigger] m.contains_key(key) ==> key == "type"@
        }),
{
    keys_are_told_apart();
}

/// A session that was cancelled is told by its identifier.
pub proof fn what_cancelled_says(id: Seq<char>)
    ensures
        ({
            let m = ServerMessage::Cancelled { session_id: Some(id) }.members();
            &&& has(m, "type"@, Json::Text("cancelled"@))
            &&& has(m, "sessionId"@, Json::Text(id))
            &&& forall|key: Seq<char>| #[trigger] m.contains_key(key) ==> key == "type"@ || key == "sessionId"@
        }),
{
    keys_are_told_apart();
}

/// A status tells the state, the session and the holder, the version, and no error.
pub proof fn what_status_says(state: Seq<char>, id: Seq<char>, owner: Seq<char>)
    ensures
        ({
            let m = ServerMessage::Status { state, session_id: Some(id), owner_client_id: Some(owner) }.members();
            &&& has(m, "type"@, Json::Text("status"@))
            &&& has(m, "state"@, Json::Text(state))
            &&& has(m, "sessionId"@, Json::Text(id))
            &&& has(m, "ownerClientId"@, Json::Text(owner))
            &&& has(m, "protocolVersion"@, Json::Number(2))
            &&& has(m, "lastError"@, Json::Null)
            &&& forall|key: Seq<char>| #[trigger] m.contains_key(key) ==> key == "type"@ || key == "state"@ || key == "sessionId"@ || key == "ownerClientId"@ || key == "protocolVersion"@ || key == "lastError"@
        }),
{
    keys_are_told_apart();
}

/// A status without a session names none and no holder.
pub proof fn what_an_idle_status_says(state: Seq<char>)
    ensures
        ({
            let m = ServerMessage::Status { state, session_id: None, owner_client_id: None }.members();
            &&& has(m, "type"@, Json::Text("status"@))
            &&& has(m, "state"@, Json::Text(state))
            &&& has(m, "sessionId"@, Json::Null)
            &&& has(m, "ownerClientId"@, Json::Null)
            &&& has(m, "protocolVersion"@, Json::Number(2))
            &&& has(m, "lastError"@, Json::Null)
            &&& forall|key: Seq<char>| #[trigger] m.contains_key(key) ==> key == "type"@ || key == "state"@ || key == "sessionId"@ || key == "ownerClientId"@ || key == "protocolVersion"@ || key == "lastError"@
        }),
{
    keys_are_told_apart();
}

/// That an acknowledgement was taken is said with nothing more.
pub proof fn what_ack_ok_says()
    ensures
        ({
            let m = ServerMessage::<Seq<char>>::AckOk.members();
            &&& has(m, "type"@, Json::Text("ack_ok"@))
            &&& forall|key: Seq<char>| #[trigger] m.contains_key(key) ==> key == "type"@
        }),
{
    keys_are_told_apart();
}

/// An error carries its code and its words.
pub proof fn what_an_error_says(code: ErrorCode, words: Seq<char>)
    ensures
        ({
            let m = ServerMessage::Error { code, message: words }.members();
            &&& has(m, "type"@, Json::Text("error"@))
            &&& has(m, "code"@, Json::Text(code.text()))
            &&& has(m, "message"@, Json::Text(words))
            &&& forall|key: Seq<char>| #[trigger] m.contains_key(key) ==> key == "type"@ || key == "code"@ || key == "message"@
        }),
{
    keys_are_told_apart();
}

/// A refusal for another's session carries its words, the holder and the session.
pub proof fn what_blocked_says(words: Seq<char>, owner: Seq<char>, id: Seq<char>)
    ensures
        ({
            let m = ServerMessage::Blocked { message: words, owner_client_id: owner, session_id: id }.members();
            &&& has(m, "type"@, Json::Text("error"@))
            &&& has(m, "code"@, Json::Text("SESSION_BLOCKED"@))
            &&& has(m, "message"@, Json::Text(words))
            &&& has(m, "ownerClientId"@, Json::Text(owner))
            &&& has(m, "sessionId"@, Json::Text(id))
            &&& forall|key: Seq<char>| #[trigger] m.contains_key(key) ==> key == "type"@ || key == "code"@ || key == "message"@ || key == "ownerClientId"@ || key == "sessionId"@
        }),
{
    keys_are_told_apart();
}

/// A `hello` states the client and the version of the protocol.
pub proof fn what_hello_says(client: Seq<char>)
    ensures
        ({
            let m = ClientMessage::Hello { client_id: client }.members();
            &&& has(m, "type"@, Json::Text("hello"@))
            &&& has(m, "clientId"@, Json::Text(client))
            &&& has(m, "protocolVersion"@, Json::Number(2))
            &&& forall|key: Seq<char>| #[trigger] m.contains_key(key) ==> key == "type"@ || key == "clientId"@ || key == "protocolVersion"@
        }),
{
    keys_are_told_apart();
}

/// A `start` states the client and the version, and asks for no translation.
pub proof fn what_start_says(client: Seq<char>)
    ensures
        ({
            let m = ClientMessage::Start { client_id: client }.members();
            &&& has(m, "type"@, Json::Text("start"@))
            &&& has(m, "clientId"@, Json::Text(client))
            &&& has(m, "translation"@, Json::Flag(false))
            &&& has(m, "protocolVersion"@, Json::Number(2))
            &&& forall|key: Seq<char>| #[trigger] m.contains_key(key) ==> key == "type"@ || key == "clientId"@ || key == "translation"@ || key == "protocolVersion"@
        }),
{
    keys_are_told_apart();
}

/// A heartbeat states the client and the session.
pub proof fn what_a_heartbeat_says(client: Seq<char>, id: Seq<char>)
    ensures
        ({
            let m = ClientMessage::Ping { client_id: client, session_id: id }.members();
            &&& has(m, "type"@, Json::Text("ping"@))
            &&& has(m, "clientId"@, Json::Text(client))
            &&& has(m, "sessionId"@, Json::Text(id))
            &&& forall|key: Seq<char>| #[trigger] m.contains_key(key) ==> key == "type"@ || key == "clientId"@ || key == "sessionId"@
        }),
{
    keys_are_told_apart();
}

/// A probe states nothing.
pub proof fn what_a_probe_says()
    ensures
        ({
            let m = ClientMessage::<Seq<char>>::Probe.members();
            &&& has(m, "type"@, Json::Text("ping"@))
            &&& forall|key: Seq<char>| #[trigger] m.contains_key(key) ==> key == "type"@
        }),
{
    keys_are_told_apart();
}

/// A `stop` states the client and the session.
pub proof fn what_stop_says(client: Seq<char>, id: Seq<char>)
    ensures
        ({
            let m = ClientMessage::Stop { session: Some((client, id)) }.members();
            &&& has(m, "type"@, Json::Text("stop"@))
            &&& has(m, "clientId"@, Json::Text(client))
            &&& has(m, "sessionId"@, Json::Text(id))
            &&& has(m, "translation"@, Json::Flag(false))
            &&& forall|key: Seq<char>| #[trigger] m.contains_key(key) ==> key == "type"@ || key == "clientId"@ || key == "sessionId"@ || key == "translation"@
        }),
{
    keys_are_told_apart();
}

/// A `stop` for a phone that knows no sessions states neither client nor session.
pub proof fn what_a_nameless_stop_says()
    ensures
        ({
            let m = ClientMessage::<Seq<char>>::Stop { session: None }.members();
            &&& has(m, "type"@, Json::Text("stop"@))
            &&& has(m, "translation"@, Json::Flag(false))
            &&& forall|key: Seq<char>| #[trigger] m.contains_key(key) ==> key == "type"@ || key == "translation"@
        }),
{
    keys_are_told_apart();
}

/// A `cancel` states the client and the session.
pub proof fn what_cancel_says(client: Seq<char>, id: Seq<char>)
    ensures
        ({
            let m = ClientMessage::Cancel { client_id: client, session_id: Some(id) }.members();
            &&& has(m, "type"@, Json::Text("cancel"@))
            &&& has(m, "clientId"@, Json::Text(client))
            &&& has(m, "sessionId"@, Json::Text(id))
            &&& forall|key: Seq<char>| #[trigger] m.contains_key(key) ==> key == "type"@ || key == "clientId"@ || key == "sessionId"@
        }),
{
    keys_are_told_apart();
}

/// A `cancel` before the session is known states the client.
pub proof fn what_a_cancel_without_a_session_says(client: Seq<char>)
    ensures
        ({
            let m = ClientMessage::Cancel { client_id: client, session_id: None }.members();
            &&& has(m, "type"@, Json::Text("cancel"@))
            &&& has(m, "clientId"@, Json::Text(client))
            &&& forall|key: Seq<char>| #[trigger] m.contains_key(key) ==> key == "type"@ || key == "clientId"@
        }),
{
    keys_are_told_apart();
}

/// An `ack` states the client and the result.
pub proof fn what_ack_says(client: Seq<char>, result_id: Seq<char>)
    ensures
        ({
            let m = ClientMessage::Ack { client_id: client, result_id }.members();
            &&& has(m, "type"@, Json::Text("ack"@))
            &&& has(m, "clientId"@, Json::Text(client))
            &&& has(m, "resultId"@, Json::Text(result_id))
            &&& forall|key: Seq<char>| #[trigger] m.contains_key(key) ==> key == "type"@ || key == "clientId"@ || key == "resultId"@
        }),
{
    keys_are_told_apart();
}

/// A question for the status states the client.
pub proof fn what_a_status_question_says(client: Seq<char>)
    ensures
        ({
            let m = ClientMessage::Status { client_id: client }.members();
            &&& has(m, "type"@, Json::Text("status"@))
            &&& has(m, "clientId"@, Json::Text(client))
            &&& forall|key: Seq<char>| #[trigger] m.contains_key(key) ==> key == "type"@ || key == "clientId"@
        }),
{
    keys_are_told_apart();
}

/// A reader finds each text behind its own key and nowhere else: where the key holds a text it is
/// found, whatever the other keys hold, and where the key is missing or holds no text nothing is.
pub proof fn a_reader_finds_each_text_behind_its_key(
    members: Map<Seq<char>, Json>,
    words: Seq<char>,
    value: Json,
)
    requires
        value !is Text,
    ensures
        reply_among(members.insert("type"@, Json::Text(words))) == (Reply {
            kind: Some(words),
            ..reply_among(members)
        }),
        reply_among(members.insert("type"@, value)).kind is None,
        reply_among(members.remove("type"@)).kind is None,
        reply_among(members.insert("sessionId"@, Json::Text(words))) == (Reply {
            session_id: Some(words),
            ..reply_among(members)
        }),
        reply_among(members.insert("sessionId"@, value)).session_id is None,
        reply_among(members.remove("sessionId"@)).session_id is None,
        reply_among(members.insert("resultId"@, Json::Text(words))) == (Reply {
            result_id: Some(words),
            ..reply_among(members)
        }),
        reply_among(members.insert("resultId"@, value)).result_id is None,
        reply_among(members.remove("resultId"@)).result_id is None,
        reply_among(members.insert("text"@, Json::Text(words))) == (Reply {
            text: Some(words),
            ..reply_among(members)
        }),
        reply_among(members.insert("text"@, value)).text is None,
        reply_among(members.remove("text"@)).text is None,
        reply_among(members.insert("code"@, Json::Text(words))) == (Reply {
            code: Some(words),
            ..reply_among(members)
        }),
        reply_among(members.insert("code"@, value)).code is None,
        reply_among(members.remove("code"@)).code is None,
        reply_among(members.insert("message"@, Json::Text(words))) == (Reply {
            message: Some(words),
            ..reply_among(members)
        }),
        reply_among(members.insert("message"@, value)).message is None,
        reply_among(members.remove("message"@)).message is None,
        reply_among(members.insert("ownerClientId"@, Json::Text(words))) == (Reply {
            owner_client_id: Some(words),
            ..reply_among(members)
        }),
        reply_among(members.insert("ownerClientId"@, value)).owner_client_id is None,
        reply_among(members.remove("ownerClientId"@)).owner_client_id is None,
        reply_among(members.insert("state"@, Json::Text(words))) == (Reply {
            state: Some(words),
            ..reply_among(members)
        }),
        reply_among(members.insert("state"@, value)).state is None,
        reply_among(members.remove("state"@)).state is None,
{
    keys_are_told_apart();
    let m = members.insert("type"@, Json::Text(words));
    assert(m.contains_key("sessionId"@) == members.contains_key("sessionId"@));
    assert(m.contains_key("resultId"@) == members.contains_key("resultId"@));
    assert(m.contains_key("text"@) == members.contains_key("text"@));
    assert(m.contains_key("code"@) == members.contains_key("code"@));
    assert(m.contains_key("message"@) == members.contains_key("message"@));
    assert(m.contains_key("ownerClientId"@) == members.contains_key("ownerClientId"@));
    assert(m.contains_key("state"@) == members.contains_key("state"@));
    let m = members.insert("sessionId"@, Json::Text(words));
    assert(m.contains_key("type"@) == members.contains_key("type"@));
    assert(m.contains_key("resultId"@) == members.contains_key("resultId"@));
    assert(m.contains_key("text"@) == members.contains_key("text"@));
    assert(m.contains_key("code"@) == members.contains_key("code"@));
    assert(m.contains_key("message"@) == members.contains_key("message"@));
    assert(m.contains_key("ownerClientId"@) == members.contains_key("ownerClientId"@));
    assert(m.contains_key("state"@) == members.contains_key("state"@));
    let m = members.insert("resultId"@, Json::Text(words));
    assert(m.contains_key("type"@) == members.contains_key("type"@));
    assert(m.contains_key("sessionId"@) == members.contains_key("sessionId"@));
    assert(m.contains_key("text"@) == members.contains_key("text"@));
    assert(m.contains_key("code"@) == members.contains_key("code"@));
    assert(m.contains_key("message"@) == members.contains_key("message"@));
    assert(m.contains_key("ownerClientId"@) == members.contains_key("ownerClientId"@));
    assert(m.contains_key("state"@) == members.contains_key("state"@));
    let m = members.insert("text"@, Json::Text(words));
    assert(m.contains_key("type"@) == members.contains_key("type"@));
    assert(m.contains_key("sessionId"@) == members.contains_key("sessionId"@));
    assert(m.contains_key("resultId"@) == members.contains_key("resultId"@));
    assert(m.contains_key("code"@) == members.contains_key("code"@));
    assert(m.contains_key("message"@) == members.contains_key("message"@));
    assert(m.contains_key("ownerClientId"@) == members.contains_key("ownerClientId"@));
    assert(m.contains_key("state"@) == members.contains_key("state"@));
    let m = members.insert("code"@, Json::Text(words));
    assert(m.contains_key("type"@) == members.contains_key("type"@));
    assert(m.contains_key("sessionId"@) == members.contains_key("sessionId"@));
    assert(m.contains_key("resultId"@) == members.contains_key("resultId"@));
    assert(m.contains_key("text"@) == members.contains_key("text"@));
    assert(m.contains_key("message"@) == members.contains_key("message"@));
    assert(m.contains_key("ownerClientId"@) == members.contains_key("ownerClientId"@));
    assert(m.contains_key("state"@) == members.contains_key("state"@));
    let m = members.insert("message"@, Json::Text(words));
    assert(m.contains_key("type"@) == members.contains_key("type"@));
    assert(m.contains_key("sessionId"@) == members.contains_key("sessionId"@));
    assert(m.contains_key("resultId"@) == members.contains_key("resultId"@));
    assert(m.contains_key("text"@) == members.contains_key("text"@));
    assert(m.contains_key("code"@) == members.contains_key("code"@));
    assert(m.contains_key("ownerClientId"@) == members.contains_key("ownerClientId"@));
    assert(m.contains_key("state"@) == members.contains_key("state"@));
    let m = members.insert("ownerClientId"@, Json::Text(words));
    assert(m.contains_key("type"@) == members.contains_key("type"@));
    assert(m.contains_key("sessionId"@) == members.contains_key("sessionId"@));
    assert(m.contains_key("resultId"@) == members.contains_key("resultId"@));
    assert(m.contains_key("text"@) == members.contains_key("text"@));
    assert(m.contains_key("code"@) == members.contains_key("code"@));
    assert(m.contains_key("message"@) == members.contains_key("message"@));
    assert(m.contains_key("state"@) == members.contains_key("state"@));
    let m = members.insert("state"@, Json::Text(words));
    assert(m.contains_key("type"@) == members.contains_key("type"@));
    assert(m.contains_key("sessionId"@) == members.contains_key("sessionId"@));
    assert(m.contains_key("resultId"@) == members.contains_key("resultId"@));
    assert(m.contains_key("text"@) == members.contains_key("text"@));
    assert(m.contains_key("code"@) == members.contains_key("code"@));
    assert(m.contains_key("message"@) == members.contains_key("message"@));
    assert(m.contains_key("ownerClientId"@) == members.contains_key("ownerClientId"@));
}

/// A frame is read by its members, and one that is no JSON is refused with the reader's words; a
/// document that is no object holds no texts.
pub proof fn a_frame_is_read_by_its_members(
    frame: Seq<char>,
    members: Map<Seq<char>, Json>,
    words: Seq<char>,
)
    ensures
        json_read(frame) == read_well(members) ==> reply_in(frame) == Ok::<
            Reply<Seq<char>>,
            Seq<char>,
        >(reply_among(members)),
        json_read(frame) == Err::<Json, Seq<char>>(words) ==> reply_in(frame) == Err::<
            Reply<Seq<char>>,
            Seq<char>,
        >(words),
        json_read(frame) is Ok && json_read(frame)->Ok_0 !is Object ==> (reply_in(frame) matches Ok(
            reply,
        ) && reply.kind is None && reply.text is None && reply.session_id is None
            && reply.result_id is None && reply.message is None),
{
}

/// The text of a result arrives whole: from a frame that says a result, a reader takes the very
/// text, result and session that were put into it.
pub proof fn the_text_of_a_result_arrives(
    frame: Seq<char>,
    session_id: Seq<char>,
    result_id: Seq<char>,
    text: Seq<char>,
)
    requires
        json_read(frame) == read_well(
            ServerMessage::Result { session_id, result_id, text }.members(),
        ),
    ensures
        reply_in(frame) matches Ok(reply) && reply.kind == Some("result"@) && reply.text == Some(text)
            && reply.result_id == Some(result_id) && reply.session_id == Some(session_id),
{
    keys_are_told_apart();
}

/// The words and the code of an error arrive whole.
pub proof fn the_words_of_an_error_arrive(frame: Seq<char>, code: ErrorCode, message: Seq<char>)
    requires
        json_read(frame) == read_well(ServerMessage::Error { code, message }.members()),
    ensures
        reply_in(frame) matches Ok(reply) && reply.kind == Some("error"@) && reply.message == Some(
            message,
        ) && reply.code == Some(code.text()) && reply.owner_client_id is None,
{
    keys_are_told_apart();
}

/// The identifier of a session that began arrives whole.
pub proof fn the_identifier_of_a_session_arrives(
    frame: Seq<char>,
    session_id: Seq<char>,
    already_active: bool,
)
    requires
        json_read(frame) == read_well(
            ServerMessage::Started { session_id, already_active }.members(),
        ),
    ensures
        reply_in(frame) matches Ok(reply) && reply.kind == Some("started"@) && reply.session_id
            == Some(session_id),
{
    keys_are_told_apart();
}

/// What a status tells arrives whole.
pub proof fn a_status_arrives(
    frame: Seq<char>,
    state: Seq<char>,
    session_id: Option<Seq<char>>,
    owner_client_id: Option<Seq<char>>,
)
    requires
        json_read(frame) == read_well(
            ServerMessage::Status { state, session_id, owner_client_id }.members(),
        ),
    ensures
        reply_in(frame) matches Ok(reply) && reply.kind == Some("status"@) && reply.state == Some(
            state,
        ) && reply.session_id == session_id && reply.owner_client_id == owner_client_id,
{
    keys_are_told_apart();
}

/// A text that is missing is told as null, and one that is there as it is.
pub proof fn what_an_optional_text_is_told_as(words: Seq<char>)
    ensures
        text_or_null(Some(words)) == Json::Text(words),
        text_or_null(None) == Json::Null,
{
}

/// The codes of the errors are what clients know them by.
pub proof fn what_the_codes_are()
    ensures
        ErrorCode::InvalidCommand.text() == "invalid command"@,
        ErrorCode::ProtocolMismatch.text() == "PROTOCOL_MISMATCH"@,
        ErrorCode::StartFailed.text() == "START_FAILED"@,
        ErrorCode::NoSession.text() == "NO_SESSION"@,
        ErrorCode::SessionBlocked.text() == "SESSION_BLOCKED"@,
        ErrorCode::StopFailed.text() == "STOP_FAILED"@,
        ErrorCode::ResultTimeout.text() == "RESULT_TIMEOUT"@,
        ErrorCode::BadAck.text() == "BAD_ACK"@,
        ErrorCode::NoPendingResult.text() == "NO_PENDING_RESULT"@,
        ErrorCode::UnknownCommand.text() == "UNKNOWN_COMMAND"@,
{
}

} // verus!
