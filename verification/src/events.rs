use vstd::prelude::*;
use crate::codec::{
    copy_range, same_bytes, spec_has_tag, spec_tagged_body, starts_with, strip_prefix, tagged_body,
};
use crate::error::ClientError;
use crate::types::{base58_text, Address, EventContext, Signature};

verus! {

/// One message of the log stream: the log lines of one transaction.
#[derive(Debug, Clone)]
pub struct Notification {
    pub signature: Signature,
    pub slot: u64,
    pub logs: Vec<Vec<u8>>,
}

/// An event of the subscribed type, still encoded, with where it was seen.
#[derive(Debug, Clone)]
pub struct Event {
    pub context: EventContext,
    /// The encoded event without its tag.
    pub payload: Vec<u8>,
}

/// What a log line says about the run of a transaction.
#[derive(Debug, Clone)]
pub enum LogLine {
    /// A line that the running program emitted: a log message or data.
    Marked,
    /// The program with this base58 text starts to run.
    Invoke(Vec<u8>),
    /// The running program returns, with success or failure.
    Exit,
    /// Anything else.
    Other,
}

pub enum LogLineView {
    Marked,
    Invoke(Seq<u8>),
    Exit,
    Other,
}

impl View for LogLine {
    type V = LogLineView;

    open spec fn view(&self) -> LogLineView {
        match self {
            LogLine::Marked => LogLineView::Marked,
            LogLine::Invoke(id) => LogLineView::Invoke(id@),
            LogLine::Exit => LogLineView::Exit,
            LogLine::Other => LogLineView::Other,
        }
    }
}

/// The marker of a line that a program logged: `Program log: `.
pub open spec fn spec_log_marker() -> Seq<u8> {
    seq![80u8, 114u8, 111u8, 103u8, 114u8, 97u8, 109u8, 32u8, 108u8, 111u8, 103u8, 58u8, 32u8]
}

/// The marker of a line that carries program data: `Program data: `.
pub open spec fn spec_data_marker() -> Seq<u8> {
    seq![80u8, 114u8, 111u8, 103u8, 114u8, 97u8, 109u8, 32u8, 100u8, 97u8, 116u8, 97u8, 58u8, 32u8]
}

/// What opens every line about a program's run: `Program `.
pub open spec fn spec_program_marker() -> Seq<u8> {
    seq![80u8, 114u8, 111u8, 103u8, 114u8, 97u8, 109u8, 32u8]
}

/// What follows the program's address in an invoke line: `invoke [`.
pub open spec fn spec_invoke_marker() -> Seq<u8> {
    seq![105u8, 110u8, 118u8, 111u8, 107u8, 101u8, 32u8, 91u8]
}

/// What follows the program's address where it returns well: `success`.
pub open spec fn spec_success_marker() -> Seq<u8> {
    seq![115u8, 117u8, 99u8, 99u8, 101u8, 115u8, 115u8]
}

/// What follows the program's address where it fails: `failed`.
pub open spec fn spec_failed_marker() -> Seq<u8> {
    seq![102u8, 97u8, 105u8, 108u8, 101u8, 100u8]
}

/// The text after the marker, where `line` opens with one of the two
/// markers of emitted lines.
pub open spec fn spec_marked_text(line: Seq<u8>) -> Option<Seq<u8>> {
    match spec_tagged_body(line, spec_log_marker()) {
        Some(text) => Some(text),
        None => spec_tagged_body(line, spec_data_marker()),
    }
}

/// The position of the first space in `s`, or the length of `s` where it
/// holds none.
pub open spec fn spec_first_space(s: Seq<u8>) -> int
    decreases s.len(),
{
    if s.len() == 0 {
        0
    } else if s[0] == 32u8 {
        0
    } else {
        1 + spec_first_space(s.skip(1))
    }
}

/// What `line` says: an emitted line where it opens with one of their
/// markers; else, where it reads `Program`, one word and more, the start of
/// the program named by that word where `invoke [` follows, and a return
/// where `success` follows and ends the line, or `failed` follows.
pub open spec fn spec_classify(line: Seq<u8>) -> LogLineView {
    if spec_marked_text(line) is Some {
        LogLineView::Marked
    } else {
        match spec_tagged_body(line, spec_program_marker()) {
            None => LogLineView::Other,
            Some(rest) => {
                let at = spec_first_space(rest);
                if at >= rest.len() {
                    LogLineView::Other
                } else {
                    let tail = rest.skip(at + 1);
                    if spec_has_tag(tail, spec_invoke_marker()) {
                        LogLineView::Invoke(rest.subrange(0, at))
                    } else if tail == spec_success_marker() || spec_has_tag(
                        tail,
                        spec_failed_marker(),
                    ) {
                        LogLineView::Exit
                    } else {
                        LogLineView::Other
                    }
                }
            },
        }
    }
}

/// The programs that are running after `lines`, the innermost last: an
/// invoke line adds its program, a return takes the innermost away.
pub open spec fn spec_stack(lines: Seq<Seq<u8>>) -> Seq<Seq<u8>>
    decreases lines.len(),
{
    if lines.len() == 0 {
        Seq::empty()
    } else {
        let below = spec_stack(lines.drop_last());
        match spec_classify(lines.last()) {
            LogLineView::Invoke(id) => below.push(id),
            LogLineView::Exit => if below.len() > 0 {
                below.drop_last()
            } else {
                below
            },
            _ => below,
        }
    }
}

/// The program with the base58 text `program` is the innermost running one.
pub open spec fn spec_running(stack: Seq<Seq<u8>>, program: Seq<u8>) -> bool {
    stack.len() > 0 && stack.last() == program
}

/// The bytes that standard, padded base64 text stands for, if it is valid.
pub uninterp spec fn base64_decoded(text: Seq<u8>) -> Option<Seq<u8>>;

/// The event body that decoded program data holds for the type tagged `tag`.
pub open spec fn spec_event_body(decoded: Option<Seq<u8>>, tag: Seq<u8>) -> Option<Seq<u8>> {
    match decoded {
        Some(data) => spec_tagged_body(data, tag),
        None => None,
    }
}

/// The event body that one emitted line holds for the type tagged `tag`.
pub open spec fn spec_line_event(line: Seq<u8>, tag: Seq<u8>) -> Option<Seq<u8>> {
    match spec_marked_text(line) {
        Some(text) => spec_event_body(base64_decoded(text), tag),
        None => None,
    }
}

/// The bodies of the events of the type tagged `tag` that the program with
/// the base58 text `program` emitted in `lines`, in the lines' order: a line
/// counts only while that program is the innermost running one.
pub open spec fn spec_events(lines: Seq<Seq<u8>>, tag: Seq<u8>, program: Seq<u8>) -> Seq<Seq<u8>>
    decreases lines.len(),
{
    if lines.len() == 0 {
        Seq::empty()
    } else {
        let before = spec_events(lines.drop_last(), tag, program);
        if spec_running(spec_stack(lines.drop_last()), program) {
            match spec_line_event(lines.last(), tag) {
                Some(body) => before.push(body),
                None => before,
            }
        } else {
            before
        }
    }
}

/// The lines of a log as sequences of bytes.
pub open spec fn spec_lines(logs: Seq<Vec<u8>>) -> Seq<Seq<u8>> {
    logs.map_values(|l: Vec<u8>| l@)
}

/// The payloads of a list of events.
pub open spec fn spec_payloads(events: Seq<Event>) -> Seq<Seq<u8>> {
    events.map_values(|e: Event| e.payload@)
}

/// `spec_first_space` is the position before which `s` holds no space and
/// at which, inside `s`, it holds one.
pub proof fn lemma_first_space(s: Seq<u8>, at: int)
    requires
        0 <= at <= s.len(),
        forall|j: int| 0 <= j < at ==> s[j] != 32u8,
        at < s.len() ==> s[at] == 32u8,
    ensures
        spec_first_space(s) == at,
    decreases s.len(),
{
    if s.len() > 0 && at > 0 {
        let rest = s.skip(1);
        assert forall|j: int| 0 <= j < at - 1 implies rest[j] != 32u8 by {
            assert(rest[j] == s[j + 1]);
        }
        lemma_first_space(rest, at - 1);
    }
}

/// Calls `base64::decode` (as `anchor_lang` re-exports it) on `text`. The
/// result is a function of the text alone: the decoded bytes for valid
/// standard base64, nothing for anything else.
#[verifier::external_body]
fn decode_base64(text: &Vec<u8>) -> (r: Option<Vec<u8>>)
    ensures
        match r {
            Some(data) => base64_decoded(text@) == Some(data@),
            None => base64_decoded(text@) is None,
        },
{
    match anchor_lang::__private::base64::decode(text) {
        Ok(data) => Some(data),
        Err(_) => None,
    }
}

/// Splits the marker off a log line that a program emitted.
pub fn marked_text(line: &Vec<u8>) -> (r: Option<Vec<u8>>)
    ensures
        match r {
            Some(text) => spec_marked_text(line@) == Some(text@),
            None => spec_marked_text(line@) is None,
        },
{
    let log_marker: [u8; 13] = [80, 114, 111, 103, 114, 97, 109, 32, 108, 111, 103, 58, 32];
    let data_marker: [u8; 14] = [80, 114, 111, 103, 114, 97, 109, 32, 100, 97, 116, 97, 58, 32];
    assert(log_marker@ =~= spec_log_marker());
    assert(data_marker@ =~= spec_data_marker());
    match strip_prefix(line, log_marker.as_slice()) {
        Some(text) => Some(text),
        None => strip_prefix(line, data_marker.as_slice()),
    }
}

/// Reads what a log line says about the run of the transaction.
pub fn classify(line: &Vec<u8>) -> (r: LogLine)
    ensures
        r@ == spec_classify(line@),
{
    let log_marker: [u8; 13] = [80, 114, 111, 103, 114, 97, 109, 32, 108, 111, 103, 58, 32];
    let data_marker: [u8; 14] = [80, 114, 111, 103, 114, 97, 109, 32, 100, 97, 116, 97, 58, 32];
    let program_marker: [u8; 8] = [80, 114, 111, 103, 114, 97, 109, 32];
    let invoke_marker: [u8; 8] = [105, 110, 118, 111, 107, 101, 32, 91];
    let success_marker: [u8; 7] = [115, 117, 99, 99, 101, 115, 115];
    let failed_marker: [u8; 6] = [102, 97, 105, 108, 101, 100];
    assert(log_marker@ =~= spec_log_marker());
    assert(data_marker@ =~= spec_data_marker());
    assert(program_marker@ =~= spec_program_marker());
    assert(invoke_marker@ =~= spec_invoke_marker());
    assert(success_marker@ =~= spec_success_marker());
    assert(failed_marker@ =~= spec_failed_marker());
    if starts_with(line, log_marker.as_slice()) || starts_with(line, data_marker.as_slice()) {
        return LogLine::Marked;
    }
    let rest = match strip_prefix(line, program_marker.as_slice()) {
        Some(rest) => rest,
        None => {
            return LogLine::Other;
        },
    };
    let mut at: usize = 0;
    while at < rest.len() && rest[at] != 32
        invariant
            at <= rest@.len(),
            forall|j: int| 0 <= j < at ==> rest@[j] != 32u8,
        decreases rest@.len() - at,
    {
        at += 1;
    }
    proof {
        lemma_first_space(rest@, at as int);
    }
    if at >= rest.len() {
        return LogLine::Other;
    }
    let tail = copy_range(&rest, at + 1, rest.len());
    assert(tail@ =~= rest@.skip(at + 1));
    if starts_with(&tail, invoke_marker.as_slice()) {
        LogLine::Invoke(copy_range(&rest, 0, at))
    } else if same_bytes(&tail, success_marker.as_slice()) || starts_with(
        &tail,
        failed_marker.as_slice(),
    ) {
        LogLine::Exit
    } else {
        LogLine::Other
    }
}

/// Picks the event out of decoded program data: its body where the data
/// opens with `tag`; nothing where the text was no base64, the data is
/// shorter than a tag, or the tag is another type's.
pub fn event_body(decoded: Option<Vec<u8>>, tag: &[u8; 8]) -> (r: Option<Vec<u8>>)
    ensures
        match r {
            Some(body) => spec_event_body(
                match decoded { Some(d) => Some(d@), None => None },
                tag@,
            ) == Some(body@),
            None => spec_event_body(
                match decoded { Some(d) => Some(d@), None => None },
                tag@,
            ) is None,
        },
{
    match decoded {
        Some(data) => tagged_body(&data, tag),
        None => None,
    }
}

/// The event that one emitted line holds for the type tagged `tag`, if any.
pub fn line_event(line: &Vec<u8>, tag: &[u8; 8]) -> (r: Option<Vec<u8>>)
    ensures
        match r {
            Some(body) => spec_line_event(line@, tag@) == Some(body@),
            None => spec_line_event(line@, tag@) is None,
        },
{
    match marked_text(line) {
        Some(text) => {
            let decoded = decode_base64(&text);
            event_body(decoded, tag)
        },
        None => None,
    }
}

/// Hands the body of an event to the codec: the decoded event with where it
/// was seen, or a decode error where the codec rejects the body.
pub fn decode_event<T, F: Fn(&Vec<u8>) -> Option<T>>(event: &Event, decode: &F) -> (r: Result<
    (EventContext, T),
    ClientError,
>)
    requires
        forall|data: &Vec<u8>| decode.requires((data,)),
    ensures
        match r {
            Ok(pair) => pair.0 == event.context && decode.ensures((&event.payload,), Some(pair.1)),
            Err(e) => e is Decode && decode.ensures((&event.payload,), None::<T>),
        },
{
    match decode(&event.payload) {
        Some(value) => Ok((event.context, value)),
        None => Err(ClientError::Decode),
    }
}

/// Scans the log lines of one notification and returns, in the lines' order,
/// every event of the type tagged `tag` that `program` emitted. The scan
/// follows which program is running: an emitted line counts only while
/// `program` is the innermost one, so what a program that it called, or
/// another program of the same transaction, emitted is passed over. So are
/// lines with text that is no base64 or with another type's tag.
pub fn parse_logs(notification: &Notification, tag: &[u8; 8], program: &Address) -> (events: Vec<
    Event,
>)
    ensures
        spec_payloads(events@) == spec_events(
            spec_lines(notification.logs@),
            tag@,
            base58_text(program.bytes@),
        ),
        forall|i: int| 0 <= i < events@.len() ==> events@[i].context == (EventContext {
            signature: notification.signature,
            slot: notification.slot,
        }),
{
    let me = program.to_text();
    let mut events: Vec<Event> = Vec::new();
    let mut stack: Vec<Vec<u8>> = Vec::new();
    let mut i: usize = 0;
    let ghost lines = spec_lines(notification.logs@);
    assert(lines.subrange(0, 0) =~= Seq::<Seq<u8>>::empty());
    assert(spec_payloads(events@) =~= Seq::<Seq<u8>>::empty());
    assert(spec_lines(stack@) =~= Seq::<Seq<u8>>::empty());
    while i < notification.logs.len()
        invariant
            i <= notification.logs@.len(),
            lines == spec_lines(notification.logs@),
            me@ == base58_text(program.bytes@),
            spec_lines(stack@) == spec_stack(lines.subrange(0, i as int)),
            spec_payloads(events@) == spec_events(lines.subrange(0, i as int), tag@, me@),
            forall|j: int| 0 <= j < events@.len() ==> events@[j].context == (EventContext {
                signature: notification.signature,
                slot: notification.slot,
            }),
        decreases notification.logs@.len() - i,
    {
        let ghost before = spec_payloads(events@);
        let ghost below = spec_lines(stack@);
        let line = &notification.logs[i];
        proof {
            let upto = lines.subrange(0, i + 1);
            assert(upto.drop_last() =~= lines.subrange(0, i as int));
            assert(upto.last() == line@);
        }
        let depth = stack.len();
        let running = depth > 0 && same_bytes(&stack[depth - 1], me.as_slice());
        assert(running == spec_running(below, me@)) by {
            if depth > 0 {
                assert(below.last() == stack@[depth - 1]@);
            }
        }
        if running {
            match line_event(line, tag) {
                Some(payload) => {
                    let context = EventContext {
                        signature: notification.signature,
                        slot: notification.slot,
                    };
                    events.push(Event { context, payload });
                    assert(spec_payloads(events@) =~= before.push(payload@));
                },
                None => {},
            }
        }
        match classify(line) {
            LogLine::Invoke(id) => {
                stack.push(id);
                assert(spec_lines(stack@) =~= below.push(id@));
            },
            LogLine::Exit => {
                if depth > 0 {
                    stack.pop();
                    assert(spec_lines(stack@) =~= below.drop_last());
                }
            },
            _ => {},
        }
        i += 1;
    }
    assert(lines.subrange(0, i as int) =~= lines);
    events
}

} // verus!
