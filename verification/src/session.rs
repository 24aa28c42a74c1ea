//! The dump engine: a strictly linear session, modelled as a state
//! machine from state and event to next state and action. A thin I/O
//! shell performs each action against the serial port and the output
//! file and hands the outcome back as the next event; the machine
//! itself performs no I/O.
//!
//! The states run in one direction only:
//! open sink, await handshake, read bank 0, validate its header, read
//! the remaining banks, write the assembled image once, done. A header
//! validation failure is terminal: no further transport request is ever
//! issued after it.
//!
//! Two acknowledged gaps are preserved, not patched: no bank-select
//! command is issued before a switchable-window read, so every bank
//! past the first is requested over the identical window; and the
//! header's declared whole-image checksum is not verified.

use vstd::prelude::*;
use crate::errors::Error;
use crate::handshake::hello_line;
use crate::handshake::is_hello_line;
use crate::header::BANK_SIZE;
use crate::header::CHECKSUM_ADDR;
use crate::header::ROM_SIZE_ADDR;
use crate::header::header_checksum_spec;
use crate::header::lemma_rom_banks_bounds;
use crate::header::parse_header_spec;
use crate::header::rom_banks_spec;
use crate::header::validate_header;
use crate::header::validate_header_spec;
use crate::protocol::cmd_read;
use crate::protocol::read_frame_spec;

verus! {

/// Start of the fixed bank-0 window.
pub const BANK0_START: u16 = 0x0000;

/// End (exclusive) of the fixed bank-0 window.
pub const BANK0_END: u16 = 0x4000;

/// Start of the switchable-bank window.
pub const SWITCHABLE_START: u16 = 0x4000;

/// End (exclusive) of the switchable-bank window.
pub const SWITCHABLE_END: u16 = 0x8000;

/// The operation an invocation requests. Only `ReadRom` has a
/// functional path; every other mode is reported unimplemented after
/// the handshake, with no further transport traffic.
#[derive(Debug, Clone, Copy, PartialEq, Eq, Structural)]
pub enum Mode {
    ReadRom,
    ReadRam,
    WriteRom,
    WriteRam,
}

/// Which cartridge memory space a dump targets.
#[derive(Debug, Clone, Copy, PartialEq, Eq, Structural)]
pub enum Memory {
    Rom,
    Ram,
}

/// The memory space a mode reads, if it is a read at all.
pub open spec fn memory_of_spec(m: Mode) -> Option<Memory> {
    match m {
        Mode::ReadRom => Some(Memory::Rom),
        Mode::ReadRam => Some(Memory::Ram),
        Mode::WriteRom => None,
        Mode::WriteRam => None,
    }
}

/// The memory space a mode reads, if it is a read at all.
pub fn memory_of(m: &Mode) -> (r: Option<Memory>)
    ensures
        r == memory_of_spec(*m),
{
    match m {
        Mode::ReadRom => Some(Memory::Rom),
        Mode::ReadRam => Some(Memory::Ram),
        Mode::WriteRom => None,
        Mode::WriteRam => None,
    }
}

/// How the output or input file of a mode must be opened: read modes
/// create the dump file and refuse an existing path; write modes read
/// an image that must already exist.
#[derive(Debug, Clone, Copy, PartialEq, Eq, Structural)]
pub enum OpenKind {
    CreateNew,
    MustExist,
}

/// The open semantics each mode demands of its file path.
pub open spec fn open_kind_spec(m: Mode) -> OpenKind {
    match m {
        Mode::ReadRom => OpenKind::CreateNew,
        Mode::ReadRam => OpenKind::CreateNew,
        Mode::WriteRom => OpenKind::MustExist,
        Mode::WriteRam => OpenKind::MustExist,
    }
}

/// The open semantics each mode demands of its file path.
pub fn open_kind(m: &Mode) -> (r: OpenKind)
    ensures
        r == open_kind_spec(*m),
{
    match m {
        Mode::ReadRom => OpenKind::CreateNew,
        Mode::ReadRam => OpenKind::CreateNew,
        Mode::WriteRom => OpenKind::MustExist,
        Mode::WriteRam => OpenKind::MustExist,
    }
}

/// Where the session stands. The order is strict; nothing branches
/// back.
#[derive(Debug, Clone, Copy, PartialEq, Eq, Structural)]
pub enum State {
    /// Waiting for the shell to open the output sink.
    OpenSink,
    /// Discarding noise lines until the token line arrives.
    AwaitHandshake,
    /// A read of the fixed bank-0 window is outstanding.
    ReadBank0,
    /// A read of the switchable window for this bank is outstanding.
    ReadBank { bank: u16 },
    /// The image is assembled; one full write to the sink is pending.
    Finalize,
    /// The session ended successfully.
    Done,
    /// The session ended with an error.
    Failed,
}

/// What the shell reports back after performing the requested action.
pub enum Event {
    /// The sink opened under the mode's open semantics.
    SinkReady,
    /// The sink could not be opened (for a read mode: the path already
    /// exists; for a write mode: it does not).
    SinkUnavailable,
    /// One delimiter-terminated line read from the transport.
    Line(Vec<u8>),
    /// Exactly the requested number of raw bytes read from the
    /// transport.
    Data(Vec<u8>),
    /// The assembled image was written to the sink in full.
    SinkWritten,
    /// A transport or sink operation failed with this error.
    IoFailed(Error),
}

/// Mathematical value of an [`Event`].
pub enum EventView {
    SinkReady,
    SinkUnavailable,
    Line(Seq<u8>),
    Data(Seq<u8>),
    SinkWritten,
    IoFailed(Error),
}

impl View for Event {
    type V = EventView;

    closed spec fn view(&self) -> EventView {
        match self {
            Event::SinkReady => EventView::SinkReady,
            Event::SinkUnavailable => EventView::SinkUnavailable,
            Event::Line(l) => EventView::Line(l@),
            Event::Data(d) => EventView::Data(d@),
            Event::SinkWritten => EventView::SinkWritten,
            Event::IoFailed(e) => EventView::IoFailed(*e),
        }
    }
}

/// What the shell must do next. Exactly one action is outstanding at a
/// time: the wire protocol never pipelines requests.
pub enum Action {
    /// Open the file path under the mode's open semantics.
    OpenSink,
    /// Read one delimiter-terminated line from the transport.
    ReadLine,
    /// Write the frame, flush, then block for exactly `expect` bytes.
    SendFrame { frame: Vec<u8>, expect: usize },
    /// Write the session's assembled buffer to the sink, in full.
    WriteSink,
    /// The dump is complete; nothing more to do.
    Finish,
    /// The session failed; surface this error and stop.
    Abort(Error),
}

/// Mathematical value of an [`Action`].
pub enum ActionView {
    OpenSink,
    ReadLine,
    SendFrame { frame: Seq<u8>, expect: int },
    WriteSink,
    Finish,
    Abort(Error),
}

impl View for Action {
    type V = ActionView;

    closed spec fn view(&self) -> ActionView {
        match self {
            Action::OpenSink => ActionView::OpenSink,
            Action::ReadLine => ActionView::ReadLine,
            Action::SendFrame { frame, expect } => ActionView::SendFrame {
                frame: frame@,
                expect: *expect as int,
            },
            Action::WriteSink => ActionView::WriteSink,
            Action::Finish => ActionView::Finish,
            Action::Abort(e) => ActionView::Abort(*e),
        }
    }
}

/// Mathematical value of a [`Session`].
#[verifier::ext_equal]
pub struct SessionView {
    pub mode: Mode,
    pub state: State,
    pub rom_banks: u16,
    pub buffer: Seq<u8>,
}

impl SessionView {
    /// Internal consistency: the buffer always holds exactly the banks
    /// received so far, and a bank index is always in range.
    pub open spec fn wf(self) -> bool {
        match self.state {
            State::OpenSink => self.buffer.len() == 0,
            State::AwaitHandshake => self.buffer.len() == 0,
            State::ReadBank0 => self.mode == Mode::ReadRom && self.buffer.len() == 0,
            State::ReadBank { bank } => self.mode == Mode::ReadRom && 1 <= bank < self.rom_banks
                && self.rom_banks <= 512 && self.buffer.len() == bank as int * BANK_SIZE,
            State::Finalize => self.mode == Mode::ReadRom && 1 <= self.rom_banks <= 512
                && self.buffer.len() == self.rom_banks as int * BANK_SIZE,
            State::Done => true,
            State::Failed => true,
        }
    }

    /// Whether the session can take no further event.
    pub open spec fn is_terminal(self) -> bool {
        self.state is Done || self.state is Failed
    }
}

/// The freshly created session for a mode: nothing received yet, the
/// sink not yet opened.
pub open spec fn init_view(mode: Mode) -> SessionView {
    SessionView { mode, state: State::OpenSink, rom_banks: 0, buffer: Seq::empty() }
}

/// Which events a state can answer. The shell upholds this by
/// construction: each event reports the outcome of the action the
/// machine last requested, and a data response carries exactly the
/// requested byte count.
pub open spec fn permits(s: SessionView, ev: EventView) -> bool {
    match s.state {
        State::OpenSink => ev is SinkReady || ev is SinkUnavailable,
        State::AwaitHandshake => ev is Line || ev is IoFailed,
        State::ReadBank0 => (ev matches EventView::Data(d) && d.len() == BANK_SIZE)
            || ev is IoFailed,
        State::ReadBank { .. } => (ev matches EventView::Data(d) && d.len() == BANK_SIZE)
            || ev is IoFailed,
        State::Finalize => ev is SinkWritten || ev is IoFailed,
        State::Done => false,
        State::Failed => false,
    }
}

/// The transition relation of the dump engine: from a session and an
/// event to the session after it and the next action for the shell.
pub open spec fn next(s: SessionView, ev: EventView) -> (SessionView, ActionView) {
    match (s.state, ev) {
        (State::OpenSink, EventView::SinkReady) => (
            SessionView { state: State::AwaitHandshake, ..s },
            ActionView::ReadLine,
        ),
        (State::OpenSink, EventView::SinkUnavailable) => (
            SessionView { state: State::Failed, ..s },
            ActionView::Abort(Error::SinkFailure),
        ),
        (State::AwaitHandshake, EventView::Line(l)) => if l == hello_line() {
            if memory_of_spec(s.mode) == Some(Memory::Rom) {
                (
                    SessionView { state: State::ReadBank0, ..s },
                    ActionView::SendFrame {
                        frame: read_frame_spec(BANK0_START, BANK0_END),
                        expect: BANK_SIZE as int,
                    },
                )
            } else {
                (
                    SessionView { state: State::Failed, ..s },
                    ActionView::Abort(Error::UnimplementedOperation),
                )
            }
        } else {
            (s, ActionView::ReadLine)
        },
        (State::ReadBank0, EventView::Data(d)) => match validate_header_spec(d) {
            Err(e) => (SessionView { state: State::Failed, ..s }, ActionView::Abort(e)),
            Ok(info) => if info.rom_banks <= 1 {
                (
                    SessionView {
                        state: State::Finalize,
                        rom_banks: info.rom_banks,
                        buffer: d,
                        ..s
                    },
                    ActionView::WriteSink,
                )
            } else {
                (
                    SessionView {
                        state: State::ReadBank { bank: 1 },
                        rom_banks: info.rom_banks,
                        buffer: d,
                        ..s
                    },
                    ActionView::SendFrame {
                        frame: read_frame_spec(SWITCHABLE_START, SWITCHABLE_END),
                        expect: BANK_SIZE as int,
                    },
                )
            },
        },
        (State::ReadBank { bank }, EventView::Data(d)) => if bank + 1 < s.rom_banks {
            (
                SessionView {
                    state: State::ReadBank { bank: (bank + 1) as u16 },
                    buffer: s.buffer + d,
                    ..s
                },
                ActionView::SendFrame {
                    frame: read_frame_spec(SWITCHABLE_START, SWITCHABLE_END),
                    expect: BANK_SIZE as int,
                },
            )
        } else {
            (
                SessionView { state: State::Finalize, buffer: s.buffer + d, ..s },
                ActionView::WriteSink,
            )
        },
        (State::Finalize, EventView::SinkWritten) => (
            SessionView { state: State::Done, ..s },
            ActionView::Finish,
        ),
        (_, EventView::IoFailed(e)) => (
            SessionView { state: State::Failed, ..s },
            ActionView::Abort(e),
        ),
        _ => (s, ActionView::ReadLine),
    }
}

/// Answering any permitted event preserves the session's
/// well-formedness.
pub proof fn lemma_next_preserves_wf(s: SessionView, ev: EventView)
    requires
        s.wf(),
        permits(s, ev),
    ensures
        next(s, ev).0.wf(),
{
    match (s.state, ev) {
        (State::ReadBank0, EventView::Data(d)) => {
            lemma_rom_banks_bounds(d[ROM_SIZE_ADDR as int]);
        },
        _ => {
        },
    }
}

/// A terminal session answers no event at all: once done or failed,
/// the machine issues no further action, in particular no further
/// transport read.
pub proof fn lemma_terminal_accepts_nothing(s: SessionView, ev: EventView)
    requires
        s.is_terminal(),
    ensures
        !permits(s, ev),
{
}

/// The session after answering a stream of received lines, one `Line`
/// event each, in order.
pub open spec fn run_lines(s: SessionView, lines: Seq<Seq<u8>>) -> SessionView
    decreases lines.len(),
{
    if lines.len() == 0 {
        s
    } else {
        run_lines(next(s, EventView::Line(lines[0])).0, lines.drop_first())
    }
}

/// Answering line streams composes: a concatenated stream acts as the
/// first part, then the second.
pub proof fn lemma_run_lines_app(s: SessionView, a: Seq<Seq<u8>>, b: Seq<Seq<u8>>)
    ensures
        run_lines(s, a + b) == run_lines(run_lines(s, a), b),
    decreases a.len(),
{
    if a.len() == 0 {
        assert(a + b =~= b);
    } else {
        assert((a + b)[0] == a[0]);
        assert((a + b).drop_first() =~= a.drop_first() + b);
        lemma_run_lines_app(next(s, EventView::Line(a[0])).0, a.drop_first(), b);
    }
}

/// Handshake, no token: a stream of lines none of which is the token
/// line leaves a session awaiting the handshake exactly where it was.
/// It stays blocked reading lines, bounded only by the transport's own
/// timeout, which is the shell's affair.
pub proof fn lemma_handshake_blocked(s: SessionView, lines: Seq<Seq<u8>>)
    requires
        s.state is AwaitHandshake,
        forall|i: int| 0 <= i < lines.len() ==> lines[i] != hello_line(),
    ensures
        run_lines(s, lines) == s,
    decreases lines.len(),
{
    if lines.len() > 0 {
        assert(lines[0] != hello_line());
        assert(next(s, EventView::Line(lines[0])).0 == s);
        assert(forall|i: int|
            0 <= i < lines.drop_first().len() ==> lines.drop_first()[i] == lines[i + 1]);
        lemma_handshake_blocked(s, lines.drop_first());
    }
}

/// Handshake, token present: with the token line at position `k` and
/// nothing but non-matching noise before it, the session consumes the
/// stream through and including the token line and succeeds: in
/// read-ROM mode it advances to the bank-0 read, requesting the fixed
/// bank-0 window.
pub proof fn lemma_handshake_succeeds(s: SessionView, lines: Seq<Seq<u8>>, k: int)
    requires
        s.state is AwaitHandshake,
        memory_of_spec(s.mode) == Some(Memory::Rom),
        0 <= k < lines.len(),
        lines[k] == hello_line(),
        forall|i: int| 0 <= i < k ==> lines[i] != hello_line(),
    ensures
        run_lines(s, lines.take(k)) == s,
        run_lines(s, lines.take(k + 1)) == (SessionView { state: State::ReadBank0, ..s }),
        next(s, EventView::Line(lines[k])).1 == (ActionView::SendFrame {
            frame: read_frame_spec(BANK0_START, BANK0_END),
            expect: BANK_SIZE as int,
        }),
{
    assert(forall|i: int| 0 <= i < lines.take(k).len() ==> lines.take(k)[i] == lines[i]);
    lemma_handshake_blocked(s, lines.take(k));
    assert(lines.take(k + 1) =~= lines.take(k) + seq![lines[k]]);
    lemma_run_lines_app(s, lines.take(k), seq![lines[k]]);
    let s1 = next(s, EventView::Line(lines[k])).0;
    let single = seq![lines[k]];
    assert(single[0] == lines[k]);
    assert(single.drop_first() =~= Seq::<Seq<u8>>::empty());
    assert(run_lines(s1, single.drop_first()) == s1);
    assert(run_lines(s, single) == s1);
}

/// The session after answering a stream of data responses, one `Data`
/// event each, in order.
pub open spec fn run_data(s: SessionView, chunks: Seq<Seq<u8>>) -> SessionView
    decreases chunks.len(),
{
    if chunks.len() == 0 {
        s
    } else {
        run_data(next(s, EventView::Data(chunks[0])).0, chunks.drop_first())
    }
}

/// The concatenation of byte chunks, in order.
pub open spec fn concat_all(chunks: Seq<Seq<u8>>) -> Seq<u8>
    decreases chunks.len(),
{
    if chunks.len() == 0 {
        Seq::empty()
    } else {
        chunks[0] + concat_all(chunks.drop_first())
    }
}

/// Concatenating chunks of one bank each yields one bank per chunk.
pub proof fn lemma_concat_all_len(chunks: Seq<Seq<u8>>)
    requires
        forall|i: int| 0 <= i < chunks.len() ==> chunks[i].len() == BANK_SIZE,
    ensures
        concat_all(chunks).len() == chunks.len() * BANK_SIZE,
    decreases chunks.len(),
{
    if chunks.len() > 0 {
        assert(forall|i: int|
            0 <= i < chunks.drop_first().len() ==> chunks.drop_first()[i] == chunks[i + 1]);
        lemma_concat_all_len(chunks.drop_first());
    }
}

/// Reading the remaining banks appends every response to the buffer in
/// request order, and ends at the final write.
pub proof fn lemma_read_banks_assembles(s: SessionView, chunks: Seq<Seq<u8>>)
    requires
        s.wf(),
        s.state matches State::ReadBank { bank } && chunks.len() == s.rom_banks - bank,
        forall|i: int| 0 <= i < chunks.len() ==> chunks[i].len() == BANK_SIZE,
    ensures
        ({
            let t = run_data(s, chunks);
            t.state is Finalize && t.mode == s.mode && t.rom_banks == s.rom_banks && t.buffer
                == s.buffer + concat_all(chunks)
        }),
    decreases chunks.len(),
{
    let t = run_data(s, chunks);
    let s1 = next(s, EventView::Data(chunks[0])).0;
    lemma_next_preserves_wf(s, EventView::Data(chunks[0]));
    assert(forall|i: int|
        0 <= i < chunks.drop_first().len() ==> chunks.drop_first()[i] == chunks[i + 1]);
    if chunks.len() == 1 {
        assert(s1.state is Finalize);
        assert(run_data(s1, chunks.drop_first()) == s1);
        assert(concat_all(chunks.drop_first()) =~= Seq::<u8>::empty());
        assert(s.buffer + concat_all(chunks) =~= s.buffer + chunks[0]);
    } else {
        lemma_read_banks_assembles(s1, chunks.drop_first());
        assert(t.buffer =~= s.buffer + (chunks[0] + concat_all(chunks.drop_first())));
    }
}

/// Deterministic assembly: from the bank-0 read, a bank-0 response that
/// declares `n` banks with a correct checksum, followed by `n - 1`
/// further bank responses of one bank each, drives the session to the
/// final write, with the buffer equal to the exact concatenation of all
/// responses in request order and exactly `n` banks long.
pub proof fn lemma_deterministic_assembly(s: SessionView, bank0: Seq<u8>, banks: Seq<Seq<u8>>)
    requires
        s.wf(),
        s.state is ReadBank0,
        bank0.len() == BANK_SIZE,
        validate_header_spec(bank0) is Ok,
        rom_banks_spec(bank0[ROM_SIZE_ADDR as int]) matches Some(n) && banks.len() == n - 1,
        forall|i: int| 0 <= i < banks.len() ==> banks[i].len() == BANK_SIZE,
    ensures
        ({
            let t = run_data(s, seq![bank0] + banks);
            t.state is Finalize && t.buffer == concat_all(seq![bank0] + banks) && t.buffer.len()
                == (banks.len() + 1) * BANK_SIZE
        }),
{
    let all = seq![bank0] + banks;
    assert(all[0] == bank0);
    assert(all.drop_first() =~= banks);
    lemma_rom_banks_bounds(bank0[ROM_SIZE_ADDR as int]);
    let s1 = next(s, EventView::Data(bank0)).0;
    lemma_next_preserves_wf(s, EventView::Data(bank0));
    assert(run_data(s, all) == run_data(s1, banks));
    lemma_read_banks_assembles(s1, banks);
    lemma_concat_all_len(banks);
    let t = run_data(s, all);
    assert(t.buffer =~= concat_all(all));
}

/// Checksum gate: a bank-0 response whose declared checksum byte
/// differs from the one recomputed over the header region fails the
/// session at once with a checksum-mismatch error carrying both values,
/// and the failed session answers no further event: zero further
/// transport reads are issued.
pub proof fn lemma_checksum_gate(s: SessionView, d: Seq<u8>)
    requires
        s.state is ReadBank0,
        d.len() == BANK_SIZE,
        parse_header_spec(d) is Some,
        parse_header_spec(d) matches Some(info) && info.checksum != header_checksum_spec(d),
    ensures
        next(s, EventView::Data(d)).0.state is Failed,
        next(s, EventView::Data(d)).1 == ActionView::Abort(
            Error::ChecksumMismatch {
                expected: d[CHECKSUM_ADDR as int],
                computed: header_checksum_spec(d),
            },
        ),
        forall|ev: EventView| !permits(next(s, EventView::Data(d)).0, ev),
{
}

/// One dump session: mode, position in the run, and the image bytes
/// accumulated so far, append-only.
pub struct Session {
    mode: Mode,
    state: State,
    rom_banks: u16,
    buffer: Vec<u8>,
}

impl View for Session {
    type V = SessionView;

    closed spec fn view(&self) -> SessionView {
        SessionView {
            mode: self.mode,
            state: self.state,
            rom_banks: self.rom_banks,
            buffer: self.buffer@,
        }
    }
}

impl Session {
    /// Begin a session: the first action asks the shell to open the
    /// sink, before any transport traffic.
    pub fn new(mode: Mode) -> (r: (Session, Action))
        ensures
            r.0@ == init_view(mode),
            r.0@.wf(),
            r.1@ == ActionView::OpenSink,
    {
        let s = Session { mode, state: State::OpenSink, rom_banks: 0, buffer: Vec::new() };
        proof {
            assert(s@ =~= init_view(mode));
        }
        (s, Action::OpenSink)
    }

    /// The session's current state.
    pub fn state(&self) -> (r: State)
        ensures
            r == self@.state,
    {
        self.state
    }

    /// The session's mode.
    pub fn mode(&self) -> (r: Mode)
        ensures
            r == self@.mode,
    {
        self.mode
    }

    /// The image bytes accumulated so far, in request order.
    pub fn buffer(&self) -> (r: &Vec<u8>)
        ensures
            r@ == self@.buffer,
    {
        &self.buffer
    }

    /// Drive the session by one event: consume the outcome of the last
    /// action and return the next one. The machine follows [`next`]
    /// exactly.
    pub fn step(&mut self, ev: Event) -> (a: Action)
        requires
            old(self)@.wf(),
            permits(old(self)@, ev@),
        ensures
            final(self)@.wf(),
            (final(self)@, a@) == next(old(self)@, ev@),
    {
        let st = self.state;
        match (st, ev) {
            (State::OpenSink, Event::SinkReady) => {
                self.state = State::AwaitHandshake;
                Action::ReadLine
            },
            (State::OpenSink, Event::SinkUnavailable) => {
                self.state = State::Failed;
                Action::Abort(Error::SinkFailure)
            },
            (State::AwaitHandshake, Event::Line(l)) => {
                if is_hello_line(&l) {
                    match memory_of(&self.mode) {
                        Some(Memory::Rom) => {
                            self.state = State::ReadBank0;
                            let frame = cmd_read(BANK0_START, BANK0_END);
                            Action::SendFrame { frame, expect: BANK_SIZE }
                        },
                        _ => {
                            self.state = State::Failed;
                            Action::Abort(Error::UnimplementedOperation)
                        },
                    }
                } else {
                    Action::ReadLine
                }
            },
            (State::ReadBank0, Event::Data(mut d)) => {
                match validate_header(&d) {
                    Err(e) => {
                        self.state = State::Failed;
                        Action::Abort(e)
                    },
                    Ok(info) => {
                        proof {
                            lemma_rom_banks_bounds(d@[ROM_SIZE_ADDR as int]);
                        }
                        self.rom_banks = info.rom_banks;
                        self.buffer.append(&mut d);
                        if info.rom_banks <= 1 {
                            self.state = State::Finalize;
                            Action::WriteSink
                        } else {
                            self.state = State::ReadBank { bank: 1 };
                            let frame = cmd_read(SWITCHABLE_START, SWITCHABLE_END);
                            Action::SendFrame { frame, expect: BANK_SIZE }
                        }
                    },
                }
            },
            (State::ReadBank { bank }, Event::Data(mut d)) => {
                self.buffer.append(&mut d);
                if bank + 1 < self.rom_banks {
                    self.state = State::ReadBank { bank: bank + 1 };
                    let frame = cmd_read(SWITCHABLE_START, SWITCHABLE_END);
                    Action::SendFrame { frame, expect: BANK_SIZE }
                } else {
                    self.state = State::Finalize;
                    Action::WriteSink
                }
            },
            (State::Finalize, Event::SinkWritten) => {
                self.state = State::Done;
                Action::Finish
            },
            (_, Event::IoFailed(e)) => {
                self.state = State::Failed;
                Action::Abort(e)
            },
            // Unreachable: `permits` admits no other pairing of state
            // and event.
            _ => {
                proof {
                    assert(false);
                }
                Action::ReadLine
            },
        }
    }
}

} // verus!
