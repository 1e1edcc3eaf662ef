//! The serial console of the board: the line editor that turns received text
//! into a command line, and the routing of parsed commands.

use vstd::prelude::*;
use heapless::CapacityError;
use vstd::string::StrSliceExecFns;
use crate::commands::Commands;

verus! {

/// `heapless::CapacityError`, the error of a push that does not fit; opaque to Verus.
#[verifier::external_type_specification]
#[verifier::external_body]
pub struct ExCapacityError(heapless::CapacityError);

/// Capacity of the command line, in bytes of UTF-8.
pub const LINE_CAPACITY: usize = 256;

/// Number of bytes of the UTF-8 encoding of `c`.
pub open spec fn char_width(c: char) -> nat {
    let v = c as u32;
    if v < 0x80 {
        1
    } else if v < 0x800 {
        2
    } else if v < 0x10000 {
        3
    } else {
        4
    }
}

/// Number of bytes of the UTF-8 encoding of `s`.
pub open spec fn utf8_len(s: Seq<char>) -> nat
    decreases s.len(),
{
    if s.len() == 0 {
        0
    } else {
        utf8_len(s.drop_last()) + char_width(s.last())
    }
}

/// The command line being typed: text of at most [`LINE_CAPACITY`] bytes.
///
/// It holds a `heapless::String<256>`, which Verus does not see into: its
/// characters are [`line_text`], and the functions below that call the string's
/// methods state what each call does to them.
#[verifier::external_body]
pub struct CommandLine {
    text: heapless::String<256>,
}

/// The characters of a command line: those of its `heapless::String`.
pub uninterp spec fn line_text(line: CommandLine) -> Seq<char>;

/// `heapless::String::new`: an empty string.
#[verifier::external_body]
fn line_new() -> (r: CommandLine)
    ensures
        line_text(r) == Seq::<char>::empty(),
{
    CommandLine { text: heapless::String::new() }
}

/// `heapless::String::push`: appends `c` when its bytes fit the capacity; otherwise
/// reports a capacity error and leaves the string as it was.
#[verifier::external_body]
fn line_push(line: &mut CommandLine, c: char) -> (r: Result<(), CapacityError>)
    ensures
        utf8_len(line_text(*old(line))) + char_width(c) <= 256 ==> r is Ok && line_text(*final(line))
            == line_text(*old(line)).push(c),
        utf8_len(line_text(*old(line))) + char_width(c) > 256 ==> r is Err && line_text(*final(line))
            == line_text(*old(line)),
{
    line.text.push(c)
}

/// `heapless::String::pop`: removes and returns the last character, if any.
#[verifier::external_body]
fn line_pop(line: &mut CommandLine) -> (r: Option<char>)
    ensures
        line_text(*old(line)).len() > 0 ==> r == Some(line_text(*old(line)).last()) && line_text(
            *final(line),
        ) == line_text(*old(line)).drop_last(),
        line_text(*old(line)).len() == 0 ==> r is None && line_text(*final(line)) == line_text(
            *old(line),
        ),
{
    line.text.pop()
}

/// `heapless::String::clear`: empties the string.
#[verifier::external_body]
fn line_clear(line: &mut CommandLine)
    ensures
        line_text(*final(line)) == Seq::<char>::empty(),
{
    line.text.clear()
}

/// `heapless::String::as_str`: the text as a string slice.
#[verifier::external_body]
fn line_as_str(line: &CommandLine) -> (r: &str)
    ensures
        r@ == line_text(*line),
{
    line.text.as_str()
}

impl CommandLine {
    /// The characters of the line.
    pub open spec fn text(self) -> Seq<char> {
        line_text(self)
    }

    /// The line holds no more bytes than its capacity.
    pub open spec fn wf(self) -> bool {
        utf8_len(self.text()) <= LINE_CAPACITY
    }

    /// An empty line.
    pub fn new() -> (r: CommandLine)
        ensures
            r.text() == Seq::<char>::empty(),
            r.wf(),
    {
        line_new()
    }

    /// The line's text.
    pub fn as_str(&self) -> (r: &str)
        ensures
            r@ == self.text(),
    {
        line_as_str(self)
    }

    /// Whether the line is empty.
    pub fn is_empty(&self) -> (r: bool)
        ensures
            r == (self.text().len() == 0),
    {
        self.as_str().is_empty()
    }

    /// Empties the line.
    pub fn clear(&mut self)
        ensures
            final(self).text() == Seq::<char>::empty(),
            final(self).wf(),
    {
        line_clear(self)
    }
}

/// Whether `c` is a control character (categories C0 and C1).
pub open spec fn spec_is_control(c: char) -> bool {
    let v = c as u32;
    v <= 0x1f || (0x7f <= v && v <= 0x9f)
}

/// Whether `c` is a control character (categories C0 and C1).
pub fn is_control(c: char) -> (r: bool)
    ensures
        r == spec_is_control(c),
{
    let v: u32 = c as u32;
    v <= 0x1f || (0x7f <= v && v <= 0x9f)
}

/// What the console echoes back while a line is typed.
#[derive(Debug, Clone, Copy, PartialEq, Eq, Structural)]
pub enum Echo {
    /// The typed character itself.
    Char(char),
    /// Erase the last character on the terminal: back, blank, back.
    Erase,
    /// End the echoed line of a complete command.
    LineEnd,
    /// An empty line: a new line and a fresh prompt.
    Prompt,
    /// The line outgrew its capacity and was discarded; a fresh prompt follows.
    Overflow,
}

/// The effect of one received character on the line `text`, with `skip` characters
/// of an escape sequence still to drop: the new text, the characters still to
/// drop, whether a command is complete, and the echo.
pub open spec fn edit_step(text: Seq<char>, skip: nat, c: char) -> (Seq<char>, nat, bool, Seq<Echo>) {
    if skip > 0 {
        (text, (skip - 1) as nat, false, Seq::empty())
    } else if spec_is_control(c) {
        if c == '\x08' || c == '\x7f' {
            if text.len() > 0 {
                (text.drop_last(), 0, false, seq![Echo::Erase])
            } else {
                (text, 0, false, Seq::empty())
            }
        } else if c == '\n' || c == '\r' {
            if text.len() > 0 {
                (text, 0, true, seq![Echo::LineEnd])
            } else {
                (text, 0, false, seq![Echo::Prompt])
            }
        } else if c == '\x1b' {
            (text, 2, false, Seq::empty())
        } else {
            (text, 0, false, Seq::empty())
        }
    } else if utf8_len(text) + char_width(c) <= LINE_CAPACITY {
        (text.push(c), 0, false, seq![Echo::Char(c)])
    } else {
        (Seq::empty(), 0, false, seq![Echo::Overflow])
    }
}

/// The effect of the received characters `input` on the line `text`: the new
/// text, whether a command is complete (the characters after its end are
/// dropped), and the echo.
pub open spec fn edit(text: Seq<char>, skip: nat, input: Seq<char>) -> (Seq<char>, bool, Seq<Echo>)
    decreases input.len(),
{
    if input.len() == 0 {
        (text, false, Seq::empty())
    } else {
        let (t, s, done, e) = edit_step(text, skip, input[0]);
        if done {
            (t, true, e)
        } else {
            let (t2, done2, e2) = edit(t, s, input.drop_first());
            (t2, done2, e + e2)
        }
    }
}


/// The echo of the typed character `c`.
pub open spec fn char_echo(c: char) -> Echo {
    Echo::Char(c)
}

/// The echo of the typed characters `s`: each character itself, in order.
pub open spec fn echoes_of(s: Seq<char>) -> Seq<Echo>
    decreases s.len(),
{
    if s.len() == 0 {
        Seq::empty()
    } else {
        seq![char_echo(s[0])] + echoes_of(s.drop_first())
    }
}

/// Appending to a line never makes its UTF-8 encoding shorter.
proof fn lemma_utf8_len_prefix(a: Seq<char>, b: Seq<char>)
    ensures
        utf8_len(a) <= utf8_len(a + b),
    decreases b.len(),
{
    if b.len() > 0 {
        assert((a + b).drop_last() =~= a + b.drop_last());
        lemma_utf8_len_prefix(a, b.drop_last());
    }
}

/// A line feed or a carriage return completes any non-empty line: the line is
/// kept as it is, the command is complete, and only the end of the line is echoed.
pub proof fn lemma_terminator_completes(text: Seq<char>, c: char)
    requires
        text.len() > 0,
        c == '\n' || c == '\r',
    ensures
        edit(text, 0, seq![c]).0 == text,
        edit(text, 0, seq![c]).1,
        edit(text, 0, seq![c]).2 == seq![Echo::LineEnd],
{
    assert(spec_is_control(c));
}

/// A backspace or a delete right after a typed character takes it back: the line
/// is as before, nothing is complete, and the terminator sees the character and
/// then its erasure.
pub proof fn lemma_erase_undoes_typing(text: Seq<char>, x: char, erase: char)
    requires
        !spec_is_control(x),
        utf8_len(text) + char_width(x) <= LINE_CAPACITY,
        erase == '\x08' || erase == '\x7f',
    ensures
        edit(text, 0, seq![x, erase]).0 == text,
        !edit(text, 0, seq![x, erase]).1,
        edit(text, 0, seq![x, erase]).2 == seq![char_echo(x), Echo::Erase],
{
    reveal_with_fuel(edit, 3);
    assert(spec_is_control(erase));
    let longer = text.push(x);
    assert(longer.drop_last() =~= text);
    assert(seq![x, erase].drop_first() =~= seq![erase]);
    assert(seq![erase].drop_first() =~= Seq::<char>::empty());
    assert(seq![Echo::Char(x)] + (seq![Echo::Erase] + Seq::<Echo>::empty()) =~= seq![
        char_echo(x),
        Echo::Erase,
    ]);
}

/// An escape drops itself and the two characters after it, whatever they are:
/// the line is unchanged, nothing is complete, and nothing is echoed.
pub proof fn lemma_escape_sequence_dropped(text: Seq<char>, a: char, b: char)
    ensures
        edit(text, 0, seq!['\x1b', a, b]).0 == text,
        !edit(text, 0, seq!['\x1b', a, b]).1,
        edit(text, 0, seq!['\x1b', a, b]).2 == Seq::<Echo>::empty(),
{
    reveal_with_fuel(edit, 4);
    let s = seq!['\x1b', a, b];
    assert(spec_is_control('\x1b'));
    assert(s.drop_first() =~= seq![a, b]);
    assert(seq![a, b].drop_first() =~= seq![b]);
    assert(seq![b].drop_first() =~= Seq::<char>::empty());
    assert(Seq::<Echo>::empty() + (Seq::<Echo>::empty() + (Seq::<Echo>::empty() + Seq::<Echo>::empty()))
        =~= Seq::<Echo>::empty());
}

/// A printable character that would take the line past its capacity discards the
/// line and reports the overflow.
pub proof fn lemma_overflow_discards(text: Seq<char>, x: char)
    requires
        !spec_is_control(x),
        utf8_len(text) + char_width(x) > LINE_CAPACITY,
    ensures
        edit(text, 0, seq![x]).0 == Seq::<char>::empty(),
        !edit(text, 0, seq![x]).1,
        edit(text, 0, seq![x]).2 == seq![Echo::Overflow],
{
    reveal_with_fuel(edit, 2);
    assert(seq![x].drop_first() =~= Seq::<char>::empty());
    assert(seq![Echo::Overflow] + Seq::<Echo>::empty() =~= seq![Echo::Overflow]);
}

/// Typing printable characters `typed` on the line `text`, then a line feed or a
/// carriage return, submits exactly the line followed by the typed characters,
/// provided the result is not empty and fits the line's capacity; each typed
/// character is echoed, then the end of the line.
pub proof fn lemma_typed_command(text: Seq<char>, typed: Seq<char>, c: char)
    requires
        forall|i: int| 0 <= i < typed.len() ==> !spec_is_control(#[trigger] typed[i]),
        c == '\n' || c == '\r',
        (text + typed).len() > 0,
        utf8_len(text + typed) <= LINE_CAPACITY,
    ensures
        edit(text, 0, typed.push(c)).0 == text + typed,
        edit(text, 0, typed.push(c)).1,
        edit(text, 0, typed.push(c)).2 == echoes_of(typed).push(Echo::LineEnd),
    decreases typed.len(),
{
    if typed.len() == 0 {
        assert(typed.push(c) =~= seq![c]);
        assert(text + typed =~= text);
        lemma_terminator_completes(text, c);
        assert(echoes_of(typed).push(Echo::LineEnd) =~= seq![Echo::LineEnd]);
    } else {
        let x = typed[0];
        let rest = typed.drop_first();
        let longer = text.push(x);
        assert(longer + rest =~= text + typed);
        assert(longer.drop_last() =~= text);
        lemma_utf8_len_prefix(longer, rest);
        assert(utf8_len(longer) == utf8_len(text) + char_width(x));
        assert(!spec_is_control(x));
        assert(edit_step(text, 0, x) == (longer, 0nat, false, seq![Echo::Char(x)]));
        assert(typed.push(c)[0] == x);
        assert(typed.push(c).drop_first() =~= rest.push(c));
        assert forall|i: int| 0 <= i < rest.len() implies !spec_is_control(#[trigger] rest[i]) by {
            assert(rest[i] == typed[i + 1]);
        }
        lemma_typed_command(longer, rest, c);
        let head = seq![char_echo(x)];
        assert(echoes_of(typed) == head + echoes_of(rest));
        assert((head + echoes_of(rest)).push(Echo::LineEnd) =~= head + echoes_of(rest).push(
            Echo::LineEnd,
        ));
    }
}

/// Feeds the received text `input` to the command line `msg`.
///
/// Printable characters are appended and echoed, unless the line would outgrow its
/// capacity, in which case the line is discarded; backspace and delete remove the
/// last character; an escape drops itself and the two characters after it; other
/// control characters are ignored. A carriage return or line feed ends a non-empty
/// line: the result is then `Some(())` and the rest of `input` is dropped; on an
/// empty line it only prompts again.
pub fn process_input(msg: &mut CommandLine, input: &str) -> (r: (Option<()>, Vec<Echo>))
    requires
        old(msg).wf(),
    ensures
        final(msg).wf(),
        final(msg).text() == edit(old(msg).text(), 0, input@).0,
        r.0 is Some <==> edit(old(msg).text(), 0, input@).1,
        r.1@ == edit(old(msg).text(), 0, input@).2,
{
    let ghost total = edit(msg.text(), 0, input@);
    let n: usize = input.unicode_len();
    let mut echo: Vec<Echo> = Vec::new();
    let mut skip: usize = 0;
    let mut i: usize = 0;
    assert(input@.skip(0) =~= input@);
    while i < n
        invariant
            n == input@.len(),
            i <= n,
            skip <= 2,
            msg.wf(),
            total == edit(old(msg).text(), 0, input@),
            edit(msg.text(), skip as nat, input@.skip(i as int)).0 == total.0,
            edit(msg.text(), skip as nat, input@.skip(i as int)).1 == total.1,
            echo@ + edit(msg.text(), skip as nat, input@.skip(i as int)).2 == total.2,
        decreases n - i,
    {
        let c = input.get_char(i);
        let ghost before = msg.text();
        let ghost rest = input@.skip(i as int);
        assert(rest[0] == c);
        assert(rest.drop_first() =~= input@.skip(i as int + 1));
        let ghost step = edit_step(before, skip as nat, c);
        proof {
            if before.len() > 0 {
                assert(utf8_len(before) == utf8_len(before.drop_last()) + char_width(before.last()));
            }
            assert(before.push(c).drop_last() =~= before);
            assert(utf8_len(before.push(c)) == utf8_len(before) + char_width(c));
        }
        if skip > 0 {
            skip = skip - 1;
        } else if is_control(c) {
            if c == '\x08' || c == '\x7f' {
                match line_pop(msg) {
                    Some(_) => {
                        echo.push(Echo::Erase);
                    },
                    None => {},
                }
            } else if c == '\n' || c == '\r' {
                if !msg.is_empty() {
                    echo.push(Echo::LineEnd);
                    assert(echo@ =~= total.2);
                    return (Some(()), echo);
                } else {
                    echo.push(Echo::Prompt);
                }
            } else if c == '\x1b' {
                skip = 2;
            }
        } else {
            match line_push(msg, c) {
                Ok(()) => {
                    echo.push(Echo::Char(c));
                },
                Err(_) => {
                    echo.push(Echo::Overflow);
                    msg.clear();
                },
            }
        }
        assert(msg.text() == step.0 && skip == step.1 && !step.2);
        assert(echo@ + edit(msg.text(), skip as nat, input@.skip(i as int + 1)).2 =~= total.2);
        i = i + 1;
    }
    assert(input@.skip(i as int) =~= Seq::<char>::empty());
    assert(echo@ =~= total.2);
    (None, echo)
}


/// Feeds a received packet to the command line: `packet` is its text, or `None`
/// when it is not valid UTF-8. The result says whether the line is to be parsed
/// now: when the packet completed a command, or when it was not text at all (the
/// line is then parsed as it stands).
pub fn feed_packet(msg: &mut CommandLine, packet: Option<&str>) -> (r: (bool, Vec<Echo>))
    requires
        old(msg).wf(),
    ensures
        final(msg).wf(),
        match packet {
            Some(s) => {
                &&& final(msg).text() == edit(old(msg).text(), 0, s@).0
                &&& r.0 == edit(old(msg).text(), 0, s@).1
                &&& r.1@ == edit(old(msg).text(), 0, s@).2
            },
            None => {
                &&& final(msg).text() == old(msg).text()
                &&& r.0
                &&& r.1@ == Seq::<Echo>::empty()
            },
        },
{
    match packet {
        Some(s) => {
            let (done, echo) = process_input(msg, s);
            (done.is_some(), echo)
        },
        None => (true, Vec::new()),
    }
}

/// What the console does with a parsed command line.
#[derive(Debug)]
pub enum ConsoleAction<V, E> {
    /// Report the telemetry cadence, in milliseconds.
    ReportCadence(u32),
    /// Record this many milliseconds as the telemetry cadence and report it. The
    /// value is stored and reported back; the report task keeps its one-second tick.
    UpdateCadence(u32),
    /// Show the help message.
    ShowHelp,
    /// Report that the DACs are not ready for commands.
    NotReady,
    /// Hand the command to the DAC task and relay its response.
    Forward(Commands<V>),
    /// Report that the line did not parse, with the parser's error.
    ParseFailed(E),
}

/// Routes a parsed command line: the cadence commands and help are answered by
/// the console itself; the DAC commands go to the DAC task, but only once the
/// DACs are ready.
pub fn dispatch<V, E>(parsed: Result<Commands<V>, E>, dac_ready: bool, cadence: u32) -> (r:
    ConsoleAction<V, E>)
    ensures
        match parsed {
            Ok(Commands::GetReportCadence) => (r matches ConsoleAction::ReportCadence(c) && c == cadence),
            Ok(Commands::SetReportCadence(n)) => (r matches ConsoleAction::UpdateCadence(c) && c == n),
            Ok(Commands::Help) => r is ShowHelp,
            Ok(cmd) => if dac_ready {
                (r matches ConsoleAction::Forward(f) && f == cmd)
            } else {
                r is NotReady
            },
            Err(e) => (r matches ConsoleAction::ParseFailed(f) && f == e),
        },
{
    match parsed {
        Ok(Commands::GetReportCadence) => ConsoleAction::ReportCadence(cadence),
        Ok(Commands::SetReportCadence(c)) => ConsoleAction::UpdateCadence(c),
        Ok(Commands::Help) => ConsoleAction::ShowHelp,
        Ok(cmd) => {
            if dac_ready {
                ConsoleAction::Forward(cmd)
            } else {
                ConsoleAction::NotReady
            }
        },
        Err(e) => ConsoleAction::ParseFailed(e),
    }
}

/// What follows the hand-over of a command to the DAC task.
#[derive(Debug, Clone, Copy, PartialEq, Eq, Structural)]
pub enum ForwardOutcome {
    /// The command queue was full: report that the command cannot be processed now.
    ChannelFull,
    /// Wait for the DAC task's response and relay it.
    AwaitResponse,
}

/// What follows the hand-over of a command: `sent` says whether the queue took it.
pub fn after_forward(sent: bool) -> (r: ForwardOutcome)
    ensures
        r == (if sent {
            ForwardOutcome::AwaitResponse
        } else {
            ForwardOutcome::ChannelFull
        }),
{
    if sent {
        ForwardOutcome::AwaitResponse
    } else {
        ForwardOutcome::ChannelFull
    }
}

} // verus!
