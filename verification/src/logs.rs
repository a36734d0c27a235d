//! What a target wrote to its debug transport, as text: structured log
//! frames, or plain text.
//!
//! Whether an image logs in frames is settled here, from what the search
//! for the table of its frames gave. That search, and the decoding and
//! formatting of the frames themselves, are made by whoever drives the probe
//! and handed over as plain values: both can panic inside `defmt-decoder`,
//! and nothing here does.

use crate::model::views;
use defmt_decoder::Table;
use vstd::prelude::*;
use vstd::string::StringExecFns;
use vstd::utf8::{decode_utf8, valid_utf8};

verus! {

/// The table of the `defmt-decoder` crate that maps the frames of an image
/// to their format strings.
#[verifier::external_type_specification]
#[verifier::external_body]
pub struct ExTable(Table);

/// Severity of a log frame.
#[derive(Debug, Clone, Copy, PartialEq, Eq, Structural)]
pub enum LogLevel {
    Trace,
    Debug,
    Info,
    Warn,
    Error,
}

/// Mathematical model of a [`LogFrame`].
pub struct LogFrameView {
    pub level: Option<LogLevel>,
    pub message: Seq<char>,
}

/// A decoded log frame: its severity, where it has one, and its message.
#[derive(Debug, Clone)]
pub struct LogFrame {
    pub level: Option<LogLevel>,
    pub message: String,
}

impl View for LogFrame {
    type V = LogFrameView;

    open spec fn view(&self) -> LogFrameView {
        LogFrameView { level: self.level, message: self.message@ }
    }
}

/// Mathematical model of a [`DecodeStep`].
pub enum DecodeStepView {
    Frame(LogFrameView),
    Malformed,
    Eof,
}

/// What one attempt to decode the next frame of a stream gave.
#[derive(Debug, Clone)]
pub enum DecodeStep {
    /// A frame.
    Frame(LogFrame),
    /// Octets that are no frame.
    Malformed,
    /// No further complete frame.
    Eof,
}

impl View for DecodeStep {
    type V = DecodeStepView;

    open spec fn view(&self) -> DecodeStepView {
        match self {
            DecodeStep::Frame(frame) => DecodeStepView::Frame(frame@),
            DecodeStep::Malformed => DecodeStepView::Malformed,
            DecodeStep::Eof => DecodeStepView::Eof,
        }
    }
}

/// The message of the error with which `defmt-decoder` refuses to look up
/// the locations of the frames of `table` in an image, if it refuses.
pub uninterp spec fn locations_fault(table: Table, elf_bytes: Seq<u8>) -> Option<Seq<char>>;

/// Whether the encoding of the frames of `table` lets a decoder go on after
/// malformed octets.
pub uninterp spec fn table_recovers(table: Table) -> bool;

/// The message with which std refuses octets that are no UTF-8.
pub uninterp spec fn utf8_fault(bytes: Seq<u8>) -> Seq<char>;

/// Calls `Table::get_locations` of `defmt-decoder` and keeps only whether it
/// succeeded, with the message of the error where it did not. The contract
/// claims that this is a function of the table and the octets, named
/// [`locations_fault`].
#[verifier::external_body]
pub(crate) fn check_locations(table: &Table, elf_bytes: &[u8]) -> (r: Result<(), String>)
    ensures
        fault_view(r) == locations_fault(*table, elf_bytes@),
{
    table.get_locations(elf_bytes).map(|_| ()).map_err(|e| e.to_string())
}

/// Calls `Encoding::can_recover` of `defmt-decoder` on the encoding of the
/// table, named [`table_recovers`].
#[verifier::external_body]
pub(crate) fn can_recover(table: &Table) -> (r: bool)
    ensures
        r == table_recovers(*table),
{
    table.encoding().can_recover()
}

/// Calls `String::from_utf8` of std, which accepts exactly the octets that
/// are UTF-8 and then gives the characters they encode; its error is turned
/// into the error's own message, named [`utf8_fault`].
#[verifier::external_body]
pub(crate) fn text_of(bytes: Vec<u8>) -> (r: Result<String, String>)
    ensures
        match r {
            Ok(text) => valid_utf8(bytes@) && text@ == decode_utf8(bytes@),
            Err(message) => !valid_utf8(bytes@) && message@ == utf8_fault(bytes@),
        },
{
    String::from_utf8(bytes).map_err(|e| e.to_string())
}

/// The label that leads the line of a frame: the level in capitals, padded
/// to five characters and followed by a space; nothing without a level.
pub open spec fn label_of(level: Option<LogLevel>) -> Seq<char> {
    match level {
        Some(LogLevel::Trace) => "TRACE "@,
        Some(LogLevel::Debug) => "DEBUG "@,
        Some(LogLevel::Info) => "INFO  "@,
        Some(LogLevel::Warn) => "WARN  "@,
        Some(LogLevel::Error) => "ERROR "@,
        None => ""@,
    }
}

/// The label that leads the line of a frame.
pub fn level_label(level: Option<LogLevel>) -> (r: &'static str)
    ensures
        r@ == label_of(level),
{
    match level {
        Some(LogLevel::Trace) => "TRACE ",
        Some(LogLevel::Debug) => "DEBUG ",
        Some(LogLevel::Info) => "INFO  ",
        Some(LogLevel::Warn) => "WARN  ",
        Some(LogLevel::Error) => "ERROR ",
        None => "",
    }
}

/// The line of a frame: its label, its message and a line feed.
pub open spec fn frame_line(frame: LogFrameView) -> Seq<char> {
    label_of(frame.level) + frame.message + "\n"@
}

/// Appends the line of `frame` to `log`.
pub fn push_frame_line(log: &mut String, frame: &LogFrame)
    ensures
        final(log)@ == old(log)@ + frame_line(frame@),
{
    log.append(level_label(frame.level));
    log.append(frame.message.as_str());
    log.append("\n");
    assert(log@ =~= old(log)@ + frame_line(frame@));
}

/// The log that a sequence of decoding outcomes stands for: a line for each
/// frame; malformed octets are passed over where the stream recovers and end
/// the log where it does not; the log ends where no complete frame is left.
pub open spec fn rendered(steps: Seq<DecodeStepView>, recovering: bool) -> Seq<char>
    decreases steps.len(),
{
    if steps.len() == 0 {
        Seq::empty()
    } else {
        match steps[0] {
            DecodeStepView::Frame(frame) => frame_line(frame) + rendered(
                steps.drop_first(),
                recovering,
            ),
            DecodeStepView::Malformed => if recovering {
                rendered(steps.drop_first(), recovering)
            } else {
                Seq::empty()
            },
            DecodeStepView::Eof => Seq::empty(),
        }
    }
}

impl DecodeStep {
    /// Whether the log ends with this outcome: it does where no complete
    /// frame is left, and at malformed octets from which the decoder cannot
    /// recover.
    pub fn ends_log(&self, recovering: bool) -> (r: bool)
        ensures
            r == match self@ {
                DecodeStepView::Frame(_) => false,
                DecodeStepView::Malformed => !recovering,
                DecodeStepView::Eof => true,
            },
    {
        match self {
            DecodeStep::Frame(_) => false,
            DecodeStep::Malformed => !recovering,
            DecodeStep::Eof => true,
        }
    }
}

/// Renders the outcomes of decoding as a log.
pub fn render_steps(steps: &[DecodeStep], recovering: bool) -> (log: String)
    ensures
        log@ == rendered(views(steps@), recovering),
{
    let ghost all = views(steps@);
    let mut log = String::new();
    let mut i: usize = 0;
    proof {
        assert(all.skip(0) =~= all);
    }
    while i < steps.len()
        invariant_except_break
            log@ + rendered(all.skip(i as int), recovering) == rendered(all, recovering),
        invariant
            i <= steps.len(),
            all == views(steps@),
        ensures
            log@ == rendered(all, recovering),
        decreases steps.len() - i,
    {
        let ghost so_far = log@;
        let ghost rest = all.skip(i as int);
        proof {
            assert(rest[0] == steps@[i as int]@);
            assert(rest.drop_first() =~= all.skip(i as int + 1));
        }
        match &steps[i] {
            DecodeStep::Frame(frame) => {
                push_frame_line(&mut log, frame);
                assert(log@ + rendered(all.skip(i as int + 1), recovering) =~= so_far + rendered(
                    rest,
                    recovering,
                ));
            },
            DecodeStep::Malformed => {
                if !recovering {
                    assert(so_far + Seq::<char>::empty() =~= so_far);
                    break ;
                }
            },
            DecodeStep::Eof => {
                assert(so_far + Seq::<char>::empty() =~= so_far);
                break ;
            },
        }
        i += 1;
    }
    proof {
        if i >= steps.len() {
            assert(all.skip(i as int) =~= Seq::<DecodeStepView>::empty());
            assert(log@ + Seq::<char>::empty() =~= log@);
        }
    }
    log
}

/// How the log of an image is encoded.
pub enum RttType {
    /// Structured frames, to be decoded with the table of the image.
    Defmt { table: Table },
    /// Plain text.
    PlainText,
}

/// The message of an error as a plain sequence, if there is an error.
pub open spec fn fault_view(r: Result<(), String>) -> Option<Seq<char>> {
    match r {
        Ok(()) => None,
        Err(message) => Some(message@),
    }
}

/// Settles how the log of an image is encoded, given what the search for a
/// table of frames and the check of its locations gave: with a table whose
/// locations are sound, structured; without a table, plain text; else the
/// error.
pub fn settle_log_type(found: Result<Option<Table>, String>, locations: Result<(), String>) -> (r:
    Result<RttType, String>)
    ensures
        match found {
            Err(message) => r == Err::<RttType, String>(message),
            Ok(None) => r matches Ok(RttType::PlainText),
            Ok(Some(table)) => match locations {
                Err(message) => r == Err::<RttType, String>(message),
                Ok(()) => r == Ok::<RttType, String>(RttType::Defmt { table }),
            },
        },
{
    match found {
        Err(message) => Err(message),
        Ok(None) => Ok(RttType::PlainText),
        Ok(Some(table)) => match locations {
            Err(message) => Err(message),
            Ok(()) => Ok(RttType::Defmt { table }),
        },
    }
}

/// How the log of an image is encoded, or the message of why it cannot be
/// told, as plain values.
pub open spec fn log_type_view(r: Result<RttType, String>) -> Result<RttType, Seq<char>> {
    match r {
        Ok(rtt_type) => Ok(rtt_type),
        Err(message) => Err(message@),
    }
}

/// What is owed as the encoding of the log of an image, given what the
/// search for its table of frames gave. An image that the search refused is
/// refused with the message of the search; one without a table logs plain
/// text; one with a table logs in frames of that table if the locations of
/// the frames can be looked up, and is refused with the message of the
/// lookup if not.
pub open spec fn log_type_owed(found: Result<Option<Table>, String>, elf_bytes: Seq<u8>) -> Result<
    RttType,
    Seq<char>,
> {
    match found {
        Err(refusal) => Err(refusal@),
        Ok(None) => Ok(RttType::PlainText),
        Ok(Some(table)) => match locations_fault(table, elf_bytes) {
            Some(refusal) => Err(refusal),
            None => Ok(RttType::Defmt { table }),
        },
    }
}

/// Finds out how the log of an image is encoded. `found` is what
/// `Table::parse` of `defmt-decoder` gave for the image, its error as the
/// error's message.
pub fn detect_log_type(elf_bytes: &[u8], found: Result<Option<Table>, String>) -> (r: Result<
    RttType,
    String,
>)
    ensures
        log_type_view(r) == log_type_owed(found, elf_bytes@),
{
    match found {
        Err(message) => Err(message),
        Ok(None) => Ok(RttType::PlainText),
        Ok(Some(table)) => {
            let locations = check_locations(&table, elf_bytes);
            settle_log_type(Ok(Some(table)), locations)
        },
    }
}

/// What the octets that a target wrote say, or why they say nothing: a log
/// in frames is the rendering of `frames`, the outcomes of decoding the
/// octets with the table; a plain log is the text that the octets encode.
pub open spec fn log_of(rtt_type: RttType, buffer: Seq<u8>, frames: Seq<DecodeStepView>) -> Result<
    Seq<char>,
    Seq<char>,
> {
    match rtt_type {
        RttType::Defmt { table } => Ok(rendered(frames, table_recovers(table))),
        RttType::PlainText => if valid_utf8(buffer) {
            Ok(decode_utf8(buffer))
        } else {
            Err(utf8_fault(buffer))
        },
    }
}

/// The text, or the message of why there is none, as plain sequences.
pub open spec fn text_view(r: Result<String, String>) -> Result<Seq<char>, Seq<char>> {
    match r {
        Ok(text) => Ok(text@),
        Err(message) => Err(message@),
    }
}

/// What the octets that a target wrote say, as text. Of a log in frames,
/// `frames` are the outcomes of decoding `buffer` with the table of the
/// image, in order; of a plain log they are not looked at.
pub fn log_to_string(rtt_type: &RttType, buffer: Vec<u8>, frames: &[DecodeStep]) -> (r: Result<
    String,
    String,
>)
    ensures
        text_view(r) == log_of(*rtt_type, buffer@, views(frames@)),
{
    match rtt_type {
        RttType::Defmt { table } => Ok(render_steps(frames, can_recover(table))),
        RttType::PlainText => text_of(buffer),
    }
}

impl RttType {
    /// Whether a decoder of the frames of the image goes on after malformed
    /// octets; a plain log has no frames to go on with.
    pub fn recovers(&self) -> (r: bool)
        ensures
            r == match *self {
                RttType::Defmt { table } => table_recovers(table),
                RttType::PlainText => false,
            },
    {
        match self {
            RttType::Defmt { table } => can_recover(table),
            RttType::PlainText => false,
        }
    }
}

/// Calls `String::push` of std, which appends one character.
#[verifier::external_body]
pub(crate) fn push_char(s: &mut String, c: char)
    ensures
        final(s)@ == old(s)@.push(c),
{
    s.push(c)
}

/// The lines of `text` from character `i` on, where `current` is what was
/// read of the line in which character `i` stands: a line feed ends a line;
/// what follows the last line feed is a line unless it is empty.
pub open spec fn split_from(text: Seq<char>, i: int, current: Seq<char>) -> Seq<Seq<char>>
    decreases text.len() - i,
{
    if i < 0 || i >= text.len() {
        if current.len() > 0 {
            seq![current]
        } else {
            Seq::empty()
        }
    } else if text[i] == '\n' {
        seq![current] + split_from(text, i + 1, Seq::empty())
    } else {
        split_from(text, i + 1, current.push(text[i]))
    }
}

/// The lines of a text, without their line feeds.
pub open spec fn lines_of(text: Seq<char>) -> Seq<Seq<char>> {
    split_from(text, 0, Seq::empty())
}

/// Splits a text into its lines.
pub fn split_lines(text: &str) -> (r: Vec<String>)
    ensures
        crate::model::views(r@) == lines_of(text@),
{
    let mut lines: Vec<String> = Vec::new();
    let mut current = String::new();
    proof {
        assert(crate::model::views(lines@) =~= Seq::<Seq<char>>::empty());
        assert(Seq::<Seq<char>>::empty() + lines_of(text@) =~= lines_of(text@));
    }
    for c in it: text.chars()
        invariant
            it.seq() == text@,
            crate::model::views(lines@) + split_from(text@, it.index() as int, current@)
                == lines_of(text@),
    {
        let ghost before = crate::model::views(lines@);
        let ghost i = it.index() as int;
        assert(text@[i] == c);
        if c == '\n' {
            proof {
                crate::model::views_of_push(lines@, current);
                assert(before.push(current@) + split_from(text@, i + 1, Seq::empty()) =~= before
                    + split_from(text@, i, current@));
            }
            lines.push(current);
            current = String::new();
        } else {
            push_char(&mut current, c);
        }
    }
    if !current.as_str().is_empty() {
        proof {
            crate::model::views_of_push(lines@, current);
        }
        lines.push(current);
    } else {
        assert(crate::model::views(lines@) + Seq::<Seq<char>>::empty() =~= crate::model::views(
            lines@,
        ));
    }
    lines
}

} // verus!
