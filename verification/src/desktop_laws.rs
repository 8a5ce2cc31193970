//! What the desktop does: with its keys, when it begins a session, while the phone records, and when
//! it waits for the text.

use vstd::prelude::*;

use crate::client::{
    after_attempt, after_event, after_key, attempt_step, choice_in, choice_on, event_hint, key_step,
    no_address, resolved, stop_request, ClientState, Controller, KeyChoice, KeyStep, SessionEvent,
    Shared, StartFailure, StartFlow, StartStep, StopRequest,
};
use crate::handshake::{
    connect_failure_text, hello_reply_step, next_step, read_step, refusal_text, reply_step,
    start_reply_step, url_text, words_of, ConnectStage, Handshake, HandshakePhase, HandshakeStep,
};
use crate::hint::{flash_outcome, following, trouble, Flash, FlashStep, Hint, HintCount};
use crate::protocol::{reply_in, ClientMessage, Incoming, Reply};
use crate::session::{
    decision_on, giving_up, heartbeat_at, insert_end, overdue_cancel, recording_event,
    recording_read_event, seen_after_read, seen_while_recording, seen_while_stopping,
    stop_frame_step, stop_read_step, stop_reply_step, stop_time_step, text_or, InsertEnd,
    SessionView, StatusDecision, StopStage, StopStep, StopWait,
};
use crate::text::{blank, trimmed};
use crate::text_laws::trimming_cuts_white_ends_alone;
use crate::timer::left;

verus! {

/// When a key does what: it begins a session exactly where there is none and the key goes down, and
/// ends one exactly where one records and the key goes the way that ends it, down where it toggles
/// and up where it is held. What is ended is the session that was begun.
pub proof fn when_a_key_does_what(
    controller: Controller<Seq<char>>,
    toggle: bool,
    is_press: bool,
)
    ensures
        key_step(controller, toggle, is_press) is Start <==> controller.state == ClientState::Idle
            && is_press,
        key_step(controller, toggle, is_press) is Stop <==> controller.state
            == ClientState::Recording && ((toggle && is_press) || (!toggle && !is_press)),
        key_step(controller, toggle, is_press) matches KeyStep::Stop(address) ==> address
            == controller.session_address,
        key_step(controller, toggle, is_press) is Stop ==> after_key(controller, toggle, is_press)
            == (Controller { state: ClientState::Stopping, session_address: None::<Seq<char>> }),
        key_step(controller, toggle, is_press) !is Stop ==> after_key(controller, toggle, is_press)
            == controller,
{
}

/// The end of a session leaves none, whichever way it ended, and forgets no phone; only a loss has
/// the next phone announced. What is shown is nothing after a good end, and the words of a bad one.
pub proof fn what_the_end_of_a_session_does(shared: Shared<Seq<char>>, words: Seq<char>)
    ensures
        forall|event: SessionEvent<Seq<char>>|
            {
                &&& (#[trigger] after_event(shared, event)).active is None
                &&& after_event(shared, event).discovered == shared.discovered
                &&& after_event(shared, event).announce <==> shared.announce || event is Lost
            },
        event_hint(SessionEvent::Stopped) == Hint::<Seq<char>>::Clear,
        event_hint(SessionEvent::Cancelled) == Hint::<Seq<char>>::Clear,
        event_hint(SessionEvent::Failed(words)) == Hint::Flash("❌ "@ + words),
        event_hint(SessionEvent::Lost(words)) == Hint::Flash("❌ "@ + words),
        trouble(words) == Hint::Flash("❌ "@ + words),
{
}

/// Which address is connected to: the one that is given, however much white space stands round it;
/// only where none is given, the one that was found, if phones are looked for.
pub proof fn which_address_is_connected_to(
    before: Seq<char>,
    address: Seq<char>,
    after: Seq<char>,
    auto_discover: bool,
    discovered: Option<Seq<char>>,
)
    requires
        blank(before),
        blank(after),
        address.len() > 0,
        !crate::text::white_space(address.first()),
        !crate::text::white_space(address.last()),
    ensures
        resolved(Some(before + address + after), auto_discover, discovered) == Ok::<
            Seq<char>,
            Seq<char>,
        >(address),
        forall|none: Option<Seq<char>>|
            none is None || blank(none->0) ==> #[trigger] resolved(none, true, discovered) == (
            match discovered {
                Some(found) => Ok::<Seq<char>, Seq<char>>(found),
                None => Err(
                    "未连接手机：请确认手机端 OpenLess 已运行，等待后台扫描发现设备"@,
                ),
            }),
        forall|none: Option<Seq<char>>|
            none is None || blank(none->0) ==> #[trigger] resolved(none, false, discovered) == Err::<
                Seq<char>,
                Seq<char>,
            >("未配置手机地址（--address 或 --auto-discover）"@),
{
    let s = before + address + after;
    lemma_trimmed(before, address, after);
    assert forall|none: Option<Seq<char>>| none is None || blank(none->0) implies none is None
        || trimmed(none->0).len() == 0 by {
        if none is Some {
            crate::text::blank_is_trimmed_to_nothing(none->0);
        }
    }
}

proof fn lemma_trimmed(before: Seq<char>, middle: Seq<char>, after: Seq<char>)
    requires
        blank(before),
        blank(after),
        middle.len() > 0,
        !crate::text::white_space(middle.first()),
        !crate::text::white_space(middle.last()),
    ensures
        trimmed(before + middle + after) == middle,
{
    let s = before + middle + after;
    let t = trimmed(s);
    let cut = trimming_cuts_white_ends_alone(s);
    let a = before.len() as int;
    let b = (before.len() + middle.len()) as int;
    assert(s[a] == middle.first());
    assert(s[b - 1] == middle.last());
    let p = cut.0.len() as int;
    let q = (cut.0.len() + t.len()) as int;
    assert(s.len() == cut.0.len() + t.len() + cut.1.len());
    if p > a {
        assert(cut.0[a] == s[a]);
        assert(false);
    }
    if q < b {
        assert(cut.1[b - 1 - q] == s[b - 1]);
        assert(false);
    }
    assert(t.len() > 0);
    if p < a {
        assert(t.first() == s[p]);
        assert(s[p] == before[p]);
        assert(false);
    }
    if q > b {
        assert(t.last() == s[q - 1]);
        assert(s[q - 1] == after[q - 1 - b]);
        assert(false);
    }
    assert(p == a && q == b && t.len() == middle.len());
    assert forall|i: int| 0 <= i < t.len() implies t[i] == middle[i] by {
        assert(s[a + i] == (cut.0 + t + cut.1)[a + i]);
        assert(s[a + i] == middle[i]);
    }
    assert(t =~= middle);
}

/// A connection that succeeds is a session, at the first attempt as at any other: it is told at the
/// flow's own address, with the hint that the phone records, and from then on that address is both
/// that of the session and that of the phone that is known.
pub proof fn a_success_is_a_session(flow: StartFlow<Seq<char>>, shared: Shared<Seq<char>>)
    ensures
        attempt_step(flow, Ok(())) == (StartStep::Started {
            address: flow.address,
            hint: Hint::Show("🎤 正在录音…"@),
        }),
        after_attempt(shared, flow, Ok(())).active == Some(flow.address),
        after_attempt(shared, flow, Ok(())).discovered == Some(flow.address),
        after_attempt(shared, flow, Ok(())).announce == shared.announce,
{
}

/// A connection that fails is tried again exactly where it is the first that fails, and nothing that
/// is shared changes then. The second that fails is told with its words, forgets the phone at that
/// address and no other, and has the next one announced.
pub proof fn a_failure_is_tried_once_more(
    flow: StartFlow<Seq<char>>,
    shared: Shared<Seq<char>>,
    words: Seq<char>,
)
    ensures
        attempt_step(flow, Err(words)) !is Started,
        attempt_step(flow, Err(words)) is Retry <==> flow.failed == 0,
        flow.failed == 0 ==> attempt_step(flow, Err(words)) == (StartStep::Retry {
            hint: Hint::Show("连接失败，正在重试…"@),
        }) && after_attempt(shared, flow, Err(words)) == shared,
        flow.failed > 0 ==> {
            let after = after_attempt(shared, flow, Err(words));
            &&& attempt_step(flow, Err(words)) == StartStep::Failed(
                StartFailure {
                    error: words,
                    hint: Hint::Flash("❌ "@ + ("连接失败："@ + words)),
                },
            )
            &&& after.announce
            &&& after.active == shared.active
            &&& shared.discovered == Some(flow.address) ==> after.discovered is None
            &&& shared.discovered != Some(flow.address) ==> after.discovered == shared.discovered
        },
        no_address(words) == (StartFailure { error: words, hint: Hint::Flash("❌ "@ + words) }),
{
}

/// A session is told to end exactly where it is the one there is.
pub proof fn which_session_is_told_to_end(active: Option<Seq<char>>, address: Seq<char>)
    ensures
        stop_request(active, address) is Send <==> active == Some(address),
        active is None ==> stop_request(active, address) == StopRequest::Refuse(
            Hint::Flash("❌ "@ + "转录失败：没有活动会话"@),
        ),
        active is Some && active != Some(address) ==> stop_request(active, address)
            == StopRequest::Refuse(Hint::Flash("❌ "@ + "转录失败：当前地址与会话不一致"@)),
{
}

/// What a key comes to by the status: a session of this client that records is ended by a key that
/// toggles and gone on with by one that is held; one that winds up is cancelled; and in every other
/// case a session is begun.
pub proof fn what_a_status_makes_of_a_key(
    toggle: bool,
    state: Option<Seq<char>>,
    session: Option<Seq<char>>,
    owner: Option<Seq<char>>,
    own: Seq<char>,
)
    ensures
        ({
            let choice = choice_on(toggle, state, session, owner, own);
            let mine = session is Some && owner == Some(own);
            &&& choice == KeyChoice::Stop <==> mine && toggle && state == Some("recording"@)
            &&& choice == KeyChoice::Recover <==> mine && !toggle && state == Some("recording"@)
            &&& choice == KeyChoice::Cancel <==> mine && state == Some("transcribing"@)
        }),
{
    reveal_strlit("recording");
    reveal_strlit("transcribing");
    assert("recording"@.len() == 9 && "transcribing"@.len() == 12);
}

/// Nothing but an answer to the question for the status keeps a key from beginning a session.
pub proof fn only_a_status_keeps_a_key(toggle: bool, frame: Seq<char>, own: Seq<char>, words: Seq<char>)
    ensures
        choice_in(toggle, Incoming::Close, own) == KeyChoice::Start,
        choice_in(toggle, Incoming::Other, own) == KeyChoice::Start,
        choice_in(toggle, Incoming::TimedOut, own) == KeyChoice::Start,
        choice_in(toggle, Incoming::Failed(words), own) == KeyChoice::Start,
        reply_in(frame) is Err ==> choice_in(toggle, Incoming::Text(frame), own)
            == KeyChoice::Start,
        reply_in(frame) is Ok && reply_in(frame)->Ok_0.kind != Some("status"@) ==> choice_in(
            toggle,
            Incoming::Text(frame),
            own,
        ) == KeyChoice::Start,
        reply_in(frame) is Ok && reply_in(frame)->Ok_0.kind == Some("status"@) ==> choice_in(
            toggle,
            Incoming::Text(frame),
            own,
        ) == choice_on(
            toggle,
            reply_in(frame)->Ok_0.state,
            reply_in(frame)->Ok_0.session_id,
            reply_in(frame)->Ok_0.owner_client_id,
            own,
        ),
{
}

/// When a `start` is sent: after a welcome, after an error that is no mismatch of versions, and
/// without any answer exactly once 800 milliseconds have passed.
pub proof fn when_start_is_sent(reply: Reply<Seq<char>>, words: Seq<char>, since: u64, now: u64)
    ensures
        hello_reply_step(Ok(reply)) == (HandshakeStep::<Seq<char>>::SendStart { hello_ok: true })
            <==> reply.kind == Some("hello_ok"@),
        hello_reply_step(Ok(reply)) == (HandshakeStep::<Seq<char>>::SendStart { hello_ok: false })
            <==> reply.kind == Some("error"@) && reply.code != Some("PROTOCOL_MISMATCH"@),
        hello_reply_step(Ok(reply)) is Failed <==> reply.kind == Some("error"@) && reply.code
            == Some("PROTOCOL_MISMATCH"@),
        hello_reply_step(Ok(reply)) matches HandshakeStep::Failed(error) ==> error == (
        match reply.message {
            Some(message) => message,
            None => "phone error"@,
        }),
        hello_reply_step(Ok(reply)) !is Ready,
        hello_reply_step(Ok(reply)) !is Abandon,
        hello_reply_step(Err(words)) == HandshakeStep::Failed("bad hello ack json: "@ + words),
        next_step(Handshake { phase: HandshakePhase::Hello, since }, now) == (if now >= since
            + 800_000_000 {
            HandshakeStep::<Seq<char>>::SendStart { hello_ok: false }
        } else {
            HandshakeStep::<Seq<char>>::Read
        }),
{
    reveal_strlit("hello_ok");
    reveal_strlit("error");
    assert("hello_ok"@.len() == 8 && "error"@.len() == 5);
}

/// When a session is ready: exactly where the phone says that it began, with the identifier it gives;
/// a phone that welcomed the client has to give one. Silence ends the wait after five seconds, with a
/// `cancel`.
pub proof fn when_a_session_is_ready(
    reply: Reply<Seq<char>>,
    hello_ok: bool,
    words: Seq<char>,
    since: u64,
    now: u64,
)
    ensures
        ({
            let step = start_reply_step(Ok(reply), hello_ok);
            let begun = reply.kind == Some("started"@);
            &&& step is Ready <==> begun && !(hello_ok && reply.session_id is None)
            &&& step matches HandshakeStep::Ready { session_id } ==> session_id == reply.session_id
            &&& begun && hello_ok && reply.session_id is None ==> step == HandshakeStep::Failed(
                "手机端协议握手成功但 start 未返回 sessionId"@,
            )
            &&& step is Failed <==> (begun && hello_ok && reply.session_id is None) || reply.kind
                == Some("error"@)
            &&& reply.kind == Some("error"@) ==> step == HandshakeStep::Failed(refusal_text(reply))
            &&& step !is SendStart && step !is Abandon
        }),
        start_reply_step(Err(words), hello_ok) == HandshakeStep::Failed(
            "bad started ack json: "@ + words,
        ),
        next_step(Handshake { phase: HandshakePhase::Start { hello_ok }, since }, now) == (if now
            >= since + 5_000_000_000 {
            HandshakeStep::Abandon("timed out waiting for phone started"@)
        } else {
            HandshakeStep::<Seq<char>>::Read
        }),
{
    reveal_strlit("started");
    reveal_strlit("error");
    assert("started"@.len() == 7 && "error"@.len() == 5);
}

/// What a refusal is told as: the phone's words, with the holder where the phone says that another
/// holds the session and tells who, and nothing added otherwise.
pub proof fn what_a_refusal_is_told_as(reply: Reply<Seq<char>>)
    ensures
        ({
            let words = match reply.message {
                Some(message) => message,
                None => "phone error"@,
            };
            let told = reply.code == Some("SESSION_BLOCKED"@) && reply.owner_client_id is Some;
            &&& words_of(reply) == words
            &&& told ==> refusal_text(reply) == words + "（占用者 "@ + reply.owner_client_id->0
                + "）"@
            &&& !told ==> refusal_text(reply) == words
        }),
{
}

/// What a reading means to a handshake: a frame means what it says in the phase it comes in, the end
/// of the connection and a failure end the handshake with words of that phase, and everything else
/// is passed over.
pub proof fn what_a_reading_means_to_a_handshake(
    frame: Seq<char>,
    hello_ok: bool,
    words: Seq<char>,
)
    ensures
        read_step(HandshakePhase::Hello, Incoming::Text(frame)) == hello_reply_step(
            reply_in(frame),
        ),
        read_step(HandshakePhase::Start { hello_ok }, Incoming::Text(frame)) == start_reply_step(
            reply_in(frame),
            hello_ok,
        ),
        forall|reply: Result<Reply<Seq<char>>, Seq<char>>| #[trigger]
            reply_step(HandshakePhase::Hello, reply) == hello_reply_step(reply),
        forall|reply: Result<Reply<Seq<char>>, Seq<char>>| #[trigger]
            reply_step(HandshakePhase::Start { hello_ok }, reply) == start_reply_step(
                reply,
                hello_ok,
            ),
        read_step(HandshakePhase::Hello, Incoming::Close) == HandshakeStep::Failed(
            "phone closed connection during hello handshake"@,
        ),
        read_step(HandshakePhase::Start { hello_ok }, Incoming::Close) == HandshakeStep::Failed(
            "phone closed connection during start"@,
        ),
        read_step(HandshakePhase::Hello, Incoming::Failed(words)) == HandshakeStep::Failed(
            "hello handshake read: "@ + words,
        ),
        read_step(HandshakePhase::Start { hello_ok }, Incoming::Failed(words))
            == HandshakeStep::Failed("read started ack: "@ + words),
        forall|phase: HandshakePhase| #[trigger]
            read_step(phase, Incoming::Other) == HandshakeStep::<Seq<char>>::Read,
        forall|phase: HandshakePhase| #[trigger]
            read_step(phase, Incoming::TimedOut) == HandshakeStep::<Seq<char>>::Read,
{
}

/// The way to a phone is told with its address and what went wrong.
pub proof fn how_a_way_to_a_phone_is_told(address: Seq<char>, error: Seq<char>)
    ensures
        url_text(address) == "ws://"@ + address,
        connect_failure_text(ConnectStage::Address, address, error) == "bad address "@ + address
            + ": "@ + error,
        connect_failure_text(ConnectStage::Connect, address, error) == "connect "@ + ("ws://"@
            + address) + ": "@ + error,
        connect_failure_text(ConnectStage::Upgrade, address, error) == "handshake "@ + ("ws://"@
            + address) + ": "@ + error,
{
}

/// When a heartbeat is due: exactly where the session has an identifier and a second has passed since
/// the last; it names the client and the session.
pub proof fn when_a_heartbeat_is_due(session: SessionView, now: u64)
    ensures
        heartbeat_at(session, now) is Some <==> session.session_id is Some && now
            >= session.last_heartbeat + 1_000_000_000,
        heartbeat_at(session, now) matches Some(message) ==> message == (ClientMessage::Ping {
            client_id: session.client_id,
            session_id: session.session_id->0,
        }),
{
}

/// What ends a recording: an error, with its words, and the phone's word that it was stopped or
/// cancelled; nothing else that can be read, and nothing that cannot.
pub proof fn what_ends_a_recording(reply: Reply<Seq<char>>, words: Seq<char>, frame: Seq<char>)
    ensures
        ({
            let event = recording_event(Ok(reply));
            &&& event == Some(SessionEvent::<Seq<char>>::Stopped) <==> reply.kind == Some(
                "stopped"@,
            )
            &&& event == Some(SessionEvent::<Seq<char>>::Cancelled) <==> reply.kind == Some(
                "cancelled"@,
            )
            &&& reply.kind == Some("error"@) ==> event == Some(
                SessionEvent::Lost(
                    match reply.message {
                        Some(message) => message,
                        None => "手机端错误"@,
                    },
                ),
            )
            &&& reply.kind != Some("error"@) && reply.kind != Some("stopped"@) && reply.kind
                != Some("cancelled"@) ==> event is None
        }),
        recording_event(Err(words)) is None,
        recording_read_event(Incoming::Text(frame)) == recording_event(reply_in(frame)),
        recording_read_event(Incoming::Close) == Some(SessionEvent::Lost("手机端断开连接"@)),
        recording_read_event(Incoming::Failed(words)) == Some(
            SessionEvent::Lost("连接中断："@ + words),
        ),
        recording_read_event(Incoming::Other) is None,
        recording_read_event(Incoming::TimedOut) is None,
{
    reveal_strlit("stopped");
    reveal_strlit("cancelled");
    reveal_strlit("error");
    assert("stopped"@.len() == 7 && "cancelled"@.len() == 9 && "error"@.len() == 5);
}

/// Which results are remembered: those that come with an identifier, and no others. What was seen
/// stays seen.
pub proof fn which_results_are_remembered(
    seen: Set<Seq<char>>,
    reply: Reply<Seq<char>>,
    words: Seq<char>,
    id: Seq<char>,
)
    ensures
        seen_while_recording(seen, Ok(reply)).contains(id) <==> seen.contains(id) || (reply.kind
            == Some("result"@) && reply.result_id == Some(id)),
        seen_while_stopping(seen, Ok(reply)).contains(id) <==> seen.contains(id) || (reply.kind
            == Some("result"@) && reply.result_id == Some(id) && id.len() > 0),
        seen_while_recording(seen, Err(words)) == seen,
        seen_while_stopping(seen, Err(words)) == seen,
        seen_after_read(seen, Incoming::Close, true) == seen,
        seen_after_read(seen, Incoming::Other, true) == seen,
        seen_after_read(seen, Incoming::Close, false) == seen,
        seen_after_read(seen, Incoming::TimedOut, false) == seen,
        seen_after_read(seen, Incoming::Failed(words), true) == seen,
        seen_after_read(seen, Incoming::Text(words), true) == seen_while_stopping(
            seen,
            reply_in(words),
        ),
        seen_after_read(seen, Incoming::Text(words), false) == seen_while_recording(
            seen,
            reply_in(words),
        ),
{
}

/// What is inserted: the text of a result, every character of it, exactly where the result is not one
/// that was seen and its text is not empty.
pub proof fn what_is_inserted(seen: Set<Seq<char>>, reply: Reply<Seq<char>>, words: Seq<char>)
    ensures
        ({
            let step = stop_reply_step(seen, Ok(reply));
            let result = reply.kind == Some("result"@);
            let again = reply.result_id is Some && reply.result_id->0.len() > 0 && seen.contains(
                reply.result_id->0,
            );
            let empty = reply.text is None || reply.text->0.len() == 0;
            &&& step is Insert <==> result && !again && !empty
            &&& step matches StopStep::Insert { text, result_id } ==> reply.text == Some(text)
                && (reply.result_id == Some(result_id) || (reply.result_id is None
                && result_id.len() == 0))
            &&& result && again ==> step is Read
            &&& result && !again && empty ==> step == StopStep::Failed(
                "phone returned empty text"@,
            )
            &&& reply.kind == Some("error"@) ==> step == StopStep::Failed(
                match reply.message {
                    Some(message) => message,
                    None => "phone error"@,
                },
            )
            &&& reply.kind == Some("stopped"@) ==> step == StopStep::Failed(
                "phone stopped without result"@,
            )
            &&& reply.kind == Some("cancelled"@) ==> step == StopStep::Failed(
                "session cancelled by phone"@,
            )
            &&& !result && reply.kind != Some("error"@) && reply.kind != Some("stopped"@)
                && reply.kind != Some("cancelled"@) ==> step is Read
        }),
        stop_reply_step(seen, Err(words)) == StopStep::Failed("bad json from phone: "@ + words),
{
    reveal_strlit("result");
    reveal_strlit("stopped");
    reveal_strlit("cancelled");
    reveal_strlit("error");
    assert("stopped"@.len() == 7 && "cancelled"@.len() == 9 && "error"@.len() == 5);
    assert("result"@.len() == 6);
}

/// What a reading means while the text is waited for: a frame means what it says, a status only where
/// it was asked for; the end of the connection and a failure end the wait with words that name the
/// phone; and time alone decides when nothing comes.
pub proof fn what_a_reading_means_while_stopping(
    session: SessionView,
    wait: StopWait,
    frame: Seq<char>,
    words: Seq<char>,
    now: u64,
)
    ensures
        stop_read_step(session, wait, Incoming::Text(frame), now) == stop_frame_step(
            session,
            wait.stage,
            reply_in(frame),
        ),
        wait.stage == StopStage::Result ==> stop_frame_step(session, wait.stage, reply_in(frame))
            == stop_reply_step(session.seen, reply_in(frame)),
        reply_in(frame) is Ok && reply_in(frame)->Ok_0.kind != Some("status"@) ==> stop_frame_step(
            session,
            wait.stage,
            reply_in(frame),
        ) == stop_reply_step(session.seen, reply_in(frame)),
        reply_in(frame) is Ok && reply_in(frame)->Ok_0.kind == Some("status"@) && wait.stage
            == StopStage::Status ==> {
            let reply = reply_in(frame)->Ok_0;
            let working = session.session_id is Some && reply.session_id == session.session_id
                && reply.state == Some("transcribing"@);
            let step = stop_frame_step(session, wait.stage, reply_in(frame));
            &&& working ==> step is WaitOn
            &&& !working ==> step == giving_up(session)
        },
        stop_read_step(session, wait, Incoming::Close, now) == StopStep::Failed(
            "phone closed connection before result"@,
        ),
        stop_read_step(session, wait, Incoming::Failed(words), now) == StopStep::Failed(
            "read from "@ + session.address + ": "@ + words,
        ),
        stop_read_step(session, wait, Incoming::Other, now) is Read,
        stop_read_step(session, wait, Incoming::TimedOut, now) == stop_time_step(
            session,
            wait,
            now,
        ),
{
}

/// How long the text is waited for: ninety seconds, and five more for the answer to the question for
/// the status; a session without an identifier is given up without a question, and without a
/// `cancel`.
pub proof fn how_long_a_text_is_waited_for(session: SessionView, since: u64, now: u64)
    ensures
        ({
            let text = StopWait { stage: StopStage::Result, since };
            let answer = StopWait { stage: StopStage::Status, since };
            &&& stop_time_step(session, text, now) is Read <==> now < since + 90_000_000_000
            &&& stop_time_step(session, answer, now) is Read <==> now < since + 5_000_000_000
            &&& now >= since + 90_000_000_000 && session.session_id is Some ==> stop_time_step(
                session,
                text,
                now,
            ) == StopStep::AskStatus(ClientMessage::Status { client_id: session.client_id })
            &&& now >= since + 90_000_000_000 && session.session_id is None ==> stop_time_step(
                session,
                text,
                now,
            ) == giving_up(session)
            &&& now >= since + 5_000_000_000 ==> stop_time_step(session, answer, now) == giving_up(
                session,
            )
        }),
        giving_up(session) == (StopStep::GiveUp {
            cancel: overdue_cancel(session),
            error: "timed out waiting for phone result"@,
        }),
        session.session_id is None ==> overdue_cancel(session) is None,
        session.session_id is Some ==> overdue_cancel(session) == Some(
            ClientMessage::Cancel {
                client_id: session.client_id,
                session_id: session.session_id,
            },
        ),
{
}

/// What the answer to the question for the status decides.
pub proof fn what_a_status_decides(
    own: Option<Seq<char>>,
    state: Option<Seq<char>>,
    told: Option<Seq<char>>,
)
    ensures
        decision_on(own, state, told) == StatusDecision::WaitOn <==> own is Some && told == own
            && state == Some("transcribing"@),
{
}

/// What is acknowledged: a result whose text was inserted, by its identifier, where both it and the
/// session have one; a failure is handed on with its words.
pub proof fn what_is_acknowledged(session: SessionView, result_id: Seq<char>, words: Seq<char>)
    ensures
        insert_end(session, Ok(()), result_id) matches InsertEnd::Done { ack } && (ack is Some
            <==> session.session_id is Some && result_id.len() > 0) && (ack is Some ==> ack == Some(
            ClientMessage::Ack { client_id: session.client_id, result_id },
        )),
        insert_end(session, Err(words), result_id) == InsertEnd::Failed(words),
{
}

/// A text that is missing is replaced, and one that is there is not.
pub proof fn what_stands_in_for_a_text(words: Seq<char>, other: Seq<char>)
    ensures
        text_or(Some(words), other) == words,
        text_or(None, other) == other,
{
}

/// When a flash does what: it is left for three seconds; then it is cleared where it is the last hint
/// that was shown, and left to the later one otherwise. Each hint counts one further.
pub proof fn when_a_flash_does_what(count: HintCount, flash: Flash, now: u64)
    ensures
        flash_outcome(count, flash, now) is Wait <==> now < flash.since + 3_000_000_000,
        flash_outcome(count, flash, now) == FlashStep::Clear <==> now >= flash.since + 3_000_000_000
            && count.shown == flash.token,
        flash_outcome(count, flash, now) is Wait && now >= flash.since ==> now + flash_outcome(
            count,
            flash,
            now,
        )->Wait_0 == flash.since + 3_000_000_000,
        count.shown < u64::MAX ==> following(count.shown) == count.shown + 1,
        count.shown == u64::MAX ==> following(count.shown) == 0,
        left(flash.since, 3_000_000_000, now) <= 3_000_000_000,
{
}

} // verus!
