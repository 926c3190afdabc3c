//! Recording a crash as a structured event.
//!
//! The recorder runs once, inside the failing process, at the moment of the
//! failure. It survives every failure that leaves the allocator and the stack
//! walker usable; after memory corruption that reaches either of them it may
//! not. What it is handed from outside is the payload of the failure and the
//! time; the identifier and the call stack it takes itself.

use crate::text::{decimal_digits_of, padded_decimal_of, push_decimal, push_padded_decimal};
use vstd::prelude::*;

verus! {

/// One frame of a call stack. Each part may be missing where the symbols of
/// the program were stripped.
#[derive(Clone, Debug, PartialEq, Eq)]
pub struct Frame {
    pub filename: Option<String>,
    pub line: Option<u32>,
    pub column: Option<u32>,
    pub function: Option<String>,
}

/// A [`Frame`] seen as plain values.
pub struct FrameView {
    pub filename: Option<Seq<char>>,
    pub line: Option<u32>,
    pub column: Option<u32>,
    pub function: Option<Seq<char>>,
}

impl DeepView for Frame {
    type V = FrameView;

    open spec fn deep_view(&self) -> FrameView {
        FrameView {
            filename: self.filename.deep_view(),
            line: self.line,
            column: self.column,
            function: self.function.deep_view(),
        }
    }
}

/// A crash as it is recorded: made once, never changed afterwards.
#[derive(Clone, Debug, PartialEq, Eq)]
pub struct CrashEvent {
    pub id: String,
    pub timestamp: String,
    pub message: Option<String>,
    pub level: Option<String>,
    pub platform: Option<String>,
    /// The call stack, innermost call first.
    pub stacktrace: Option<Vec<Frame>>,
}

/// A [`CrashEvent`] seen as plain values.
pub struct CrashEventView {
    pub id: Seq<char>,
    pub timestamp: Seq<char>,
    pub message: Option<Seq<char>>,
    pub level: Option<Seq<char>>,
    pub platform: Option<Seq<char>>,
    pub stacktrace: Option<Seq<FrameView>>,
}

impl DeepView for CrashEvent {
    type V = CrashEventView;

    open spec fn deep_view(&self) -> CrashEventView {
        CrashEventView {
            id: self.id@,
            timestamp: self.timestamp@,
            message: self.message.deep_view(),
            level: self.level.deep_view(),
            platform: self.platform.deep_view(),
            stacktrace: self.stacktrace.deep_view(),
        }
    }
}

/// What a failure carries with it: a text that it borrows, a text that it
/// owns, or something that is no text.
#[derive(Clone, Debug, PartialEq, Eq)]
pub enum Payload<'a> {
    Borrowed(&'a str),
    Owned(String),
    Unknown,
}

/// The message that stands in for a payload that is no text.
pub open spec fn fallback_message() -> Seq<char> {
    "no message available"@
}

/// The severity of every recorded crash.
pub open spec fn fatal_level() -> Seq<char> {
    "fatal"@
}

/// The origin tag of every crash recorded here.
pub open spec fn origin_platform() -> Seq<char> {
    "rust"@
}

/// The message of a payload: its text where it is one, the fallback where
/// it is none.
pub open spec fn message_of(payload: Payload<'_>) -> Seq<char> {
    match payload {
        Payload::Borrowed(text) => text@,
        Payload::Owned(text) => text@,
        Payload::Unknown => fallback_message(),
    }
}

/// A time, given in nanoseconds since the epoch, as seconds in decimal
/// notation: the whole seconds, a point, and nine digits of the fraction.
pub open spec fn timestamp_text(nanos: u128) -> Seq<char> {
    decimal_digits_of((nanos / 1_000_000_000) as nat) + seq!['.'] + padded_decimal_of(
        (nanos % 1_000_000_000) as nat,
        9,
    )
}

/// The stack trace made of the frames as they were captured: none where no
/// frame was captured, else the frames in reverse, innermost call first.
pub open spec fn stacktrace_of(raw: Seq<FrameView>) -> Option<Seq<FrameView>> {
    if raw.len() == 0 {
        None
    } else {
        Some(raw.reverse())
    }
}

/// The event made of an identifier, a time, a message and the captured frames.
pub open spec fn event_of(
    id: Seq<char>,
    timestamp: Seq<char>,
    message: Seq<char>,
    raw: Seq<FrameView>,
) -> CrashEventView {
    CrashEventView {
        id,
        timestamp,
        message: Some(message),
        level: Some(fatal_level()),
        platform: Some(origin_platform()),
        stacktrace: stacktrace_of(raw),
    }
}

/// Whether `c` is a digit of lowercase hexadecimal notation.
pub open spec fn is_hex_digit(c: char) -> bool {
    c == '0' || c == '1' || c == '2' || c == '3' || c == '4' || c == '5' || c == '6' || c == '7'
        || c == '8' || c == '9' || c == 'a' || c == 'b' || c == 'c' || c == 'd' || c == 'e' || c
        == 'f'
}

/// Whether `i` is one of the four places of an identifier that hold a hyphen.
pub open spec fn is_hyphen_place(i: int) -> bool {
    i == 8 || i == 13 || i == 18 || i == 23
}

/// Whether `id` has the canonical form of an identifier: thirty-six
/// characters, hyphens after the eighth, twelfth, sixteenth and twentieth
/// digit, lowercase hexadecimal digits everywhere else.
pub open spec fn is_canonical_id(id: Seq<char>) -> bool {
    &&& id.len() == 36
    &&& forall|i: int|
        0 <= i < 36 ==> if is_hyphen_place(i) {
            id[i] == '-'
        } else {
            is_hex_digit(#[trigger] id[i])
        }
}

/// Whether `id` is the canonical form of an identifier drawn at random: the
/// digit that tells the version is `4`, the one that tells the variant is
/// one of `8`, `9`, `a` and `b`.
pub open spec fn is_random_id(id: Seq<char>) -> bool {
    &&& is_canonical_id(id)
    &&& id[14] == '4'
    &&& (id[19] == '8' || id[19] == '9' || id[19] == 'a' || id[19] == 'b')
}

/// A payload that is a text is recorded as that very text.
pub proof fn lemma_text_payload_is_kept(
    payload: Payload<'_>,
    id: Seq<char>,
    timestamp: Seq<char>,
    raw: Seq<FrameView>,
)
    ensures
        payload matches Payload::Borrowed(text) ==> event_of(
            id,
            timestamp,
            message_of(payload),
            raw,
        ).message == Some(text@),
        payload matches Payload::Owned(text) ==> event_of(
            id,
            timestamp,
            message_of(payload),
            raw,
        ).message == Some(text@),
{
}

/// The recorded stack trace holds the captured frames in reverse: the frame
/// captured last comes first, the one captured first comes last.
pub proof fn lemma_stacktrace_is_reversed(raw: Seq<FrameView>)
    requires
        raw.len() > 0,
    ensures
        stacktrace_of(raw) is Some,
        stacktrace_of(raw)->0.len() == raw.len(),
        forall|i: int|
            0 <= i < raw.len() ==> #[trigger] stacktrace_of(raw)->0[i] == raw[raw.len() - 1 - i],
{
}

/// `Uuid::new_v4` draws a version 4 identifier at random; its `Display`
/// form, which `to_string` gives, is the hyphenated lowercase one.
#[verifier::external_body]
pub(crate) fn fresh_id() -> (id: String)
    ensures
        is_random_id(id@),
{
    uuid::Uuid::new_v4().to_string()
}

/// `Backtrace::new` captures the call stack of the caller and resolves its
/// symbols; of each symbol of each frame, in the order of `frames` and
/// `symbols`, the name, the file, the line and the column are handed out.
/// Nothing is known of what it finds.
#[verifier::external_body]
pub(crate) fn capture_stack() -> (frames: Vec<Frame>) {
    let trace = backtrace::Backtrace::new();
    trace.frames().iter().flat_map(|frame| frame.symbols().iter()).map(|symbol| Frame {
        filename: symbol.filename().map(|path| path.to_string_lossy().into_owned()),
        line: symbol.lineno(),
        column: symbol.colno(),
        function: symbol.name().map(|name| name.to_string()),
    }).collect()
}

/// Reads the message out of the payload of a failure. This never fails: a
/// payload that is no text gives the fallback message.
pub fn extract_message(payload: &Payload<'_>) -> (message: String)
    ensures
        message@ == message_of(*payload),
{
    match payload {
        Payload::Borrowed(text) => String::from_str(text),
        Payload::Owned(text) => text.clone(),
        Payload::Unknown => String::from_str("no message available"),
    }
}

/// Writes a time, given in nanoseconds since the epoch, as seconds.
pub fn format_timestamp(nanos: u128) -> (text: String)
    ensures
        text@ == timestamp_text(nanos),
{
    let mut text = String::new();
    push_decimal(&mut text, nanos / 1_000_000_000);
    text.push('.');
    push_padded_decimal(&mut text, nanos % 1_000_000_000, 9);
    text
}

/// Puts captured frames into the order of a stack trace: innermost call
/// first, the reverse of the order of capture.
pub fn order_frames(raw: Vec<Frame>) -> (ordered: Vec<Frame>)
    ensures
        ordered.deep_view() == raw.deep_view().reverse(),
{
    let ghost all = raw.deep_view();
    let mut left = raw;
    let mut ordered: Vec<Frame> = Vec::new();
    while left.len() > 0
        invariant
            left.len() + ordered.len() == all.len(),
            left.deep_view() == all.subrange(0, left.len() as int),
            ordered.deep_view() == all.reverse().subrange(0, ordered.len() as int),
        decreases left.len(),
    {
        let ghost before = left.deep_view();
        let frame = left.pop().unwrap();
        assert(frame.deep_view() == before[before.len() - 1]);
        ordered.push(frame);
    }
    ordered
}

/// Makes the event of a crash out of what was gathered of it.
pub fn assemble_event(id: String, timestamp: String, payload: &Payload<'_>, raw: Vec<Frame>) -> (event:
    CrashEvent)
    ensures
        event.deep_view() == event_of(id@, timestamp@, message_of(*payload), raw.deep_view()),
{
    let stacktrace = if raw.len() == 0 {
        None
    } else {
        Some(order_frames(raw))
    };
    CrashEvent {
        id,
        timestamp,
        message: Some(extract_message(payload)),
        level: Some(String::from_str("fatal")),
        platform: Some(String::from_str("rust")),
        stacktrace,
    }
}

/// Records a crash whose call stack was captured already: draws a fresh
/// identifier and makes the event. The identifier is whatever the draw
/// gives; everything else is settled by the arguments.
pub fn record(payload: &Payload<'_>, nanos: u128, raw: Vec<Frame>) -> (event: CrashEvent)
    ensures
        is_random_id(event.id@),
        event.deep_view() == event_of(
            event.id@,
            timestamp_text(nanos),
            message_of(*payload),
            raw.deep_view(),
        ),
{
    assemble_event(fresh_id(), format_timestamp(nanos), payload, raw)
}

/// Records a crash at the place of the call: captures the call stack of the
/// caller, draws a fresh identifier and makes the event. The identifier and
/// the stack are whatever the moment gives; everything else is settled by
/// the arguments.
pub fn capture_crash(payload: &Payload<'_>, nanos: u128) -> (event: CrashEvent)
    ensures
        is_random_id(event.id@),
        event.timestamp@ == timestamp_text(nanos),
        event.message.deep_view() == Some(message_of(*payload)),
        event.level.deep_view() == Some(fatal_level()),
        event.platform.deep_view() == Some(origin_platform()),
        event.stacktrace matches Some(frames) ==> frames.len() > 0,
{
    let event = record(payload, nanos, capture_stack());
    assert(event.stacktrace matches Some(frames) ==> event.deep_view().stacktrace->0.len()
        == frames.len());
    event
}

/// Tells whether a text has the canonical form of an identifier.
pub fn is_canonical(id: &str) -> (canonical: bool)
    ensures
        canonical == is_canonical_id(id@),
{
    if id.unicode_len() != 36 {
        return false;
    }
    let mut i: usize = 0;
    while i < 36
        invariant
            i <= 36,
            id@.len() == 36,
            forall|k: int|
                0 <= k < i ==> if is_hyphen_place(k) {
                    id@[k] == '-'
                } else {
                    is_hex_digit(#[trigger] id@[k])
                },
        decreases 36 - i,
    {
        let c = id.get_char(i);
        if i == 8 || i == 13 || i == 18 || i == 23 {
            if c != '-' {
                return false;
            }
        } else {
            let digit = c == '0' || c == '1' || c == '2' || c == '3' || c == '4' || c == '5' || c
                == '6' || c == '7' || c == '8' || c == '9' || c == 'a' || c == 'b' || c == 'c' || c
                == 'd' || c == 'e' || c == 'f';
            if !digit {
                return false;
            }
        }
        i = i + 1;
    }
    true
}

} // verus!
