//! Recorded match timelines for playback and analysis.
//!
//! A [`MatchReplay`] is the append-only, deterministic record of a completed
//! match: an ordered log of frames replayed from a fixed seed. Once a match ends
//! it is *sealed* via [`SealReplayCmd`], which freezes the log. Sealing enforces
//! the four invariants of a replay:
//!
//! 1. **Contiguous ordering** — frames carry strictly increasing, gap-free
//!    sequence numbers (`0, 1, 2, …`); a gap or reorder is rejected.
//! 2. **Append-only immutability** — a replay may be sealed exactly once; a
//!    sealed replay cannot be mutated or re-sealed.
//! 3. **Determinism** — replaying the log from its seed must reproduce the
//!    final state hash the caller claims; a mismatch is rejected.
//! 4. **Reconnect safety** — a client's last-acknowledged sequence must fall
//!    within the recorded log.
use crate::shared;
use crate::shared::AggregateRoot;
use crate::shared::Command;
use crate::shared::CommandView;
use crate::shared::DomainError;
use crate::shared::DomainErrorView;
use crate::shared::Reply;
use crate::shared::Repository;
use crate::text;
use vstd::prelude::*;
use vstd::string::StrSliceExecFns;
use vstd::string::StringSliceAdditionalSpecFns;
use vstd::utf8::decode_utf8;
use vstd::utf8::encode_utf8;
use vstd::utf8::valid_utf8;

verus! {

/// The name of the aggregate type, as errors show it.
pub const AGGREGATE_TYPE: &'static str = "MatchReplay";

/// What the fold over a log starts from, mixed with the seed.
pub const FNV_OFFSET: u64 = 0xcbf2_9ce4_8422_2325;

/// The factor that each step of the fold multiplies by.
pub const FNV_PRIME: u64 = 0x0000_0100_0000_01b3;

/// One frame of the recorded match timeline.
///
/// A frame pairs its position in the log (`sequence`) with the deterministic
/// `input` applied to the game session at that step.
#[derive(Debug, Clone, Copy, PartialEq, Eq, Structural)]
pub struct ReplayFrame {
    /// Zero-based position in the append-only log. Must be contiguous.
    pub sequence: u64,
    /// The deterministic input applied to the game session at this frame.
    pub input: u64,
}

impl ReplayFrame {
    /// Builds a frame at `sequence` carrying `input`.
    pub fn new(sequence: u64, input: u64) -> (r: Self)
        ensures
            r == (ReplayFrame { sequence, input }),
    {
        ReplayFrame { sequence, input }
    }
}

/// The request to finalize and freeze a completed match's replay.
///
/// It travels as bytes, in an encoding of its own.
#[derive(Debug, PartialEq, Eq)]
pub struct SealReplayCmd {
    /// Identity of the match being sealed; must equal the aggregate's id.
    pub match_id: String,
    /// The claimed final state hash the sealed log must reproduce.
    pub final_state_hash: u64,
}

/// What a [`SealReplayCmd`] says.
#[verifier::ext_equal]
pub struct SealReplayCmdView {
    pub match_id: Seq<char>,
    pub final_state_hash: u64,
}

impl View for SealReplayCmd {
    type V = SealReplayCmdView;

    open spec fn view(&self) -> SealReplayCmdView {
        SealReplayCmdView { match_id: self.match_id@, final_state_hash: self.final_state_hash }
    }
}

impl Clone for SealReplayCmd {
    fn clone(&self) -> (r: Self)
        ensures
            r@ == self@,
    {
        SealReplayCmd {
            match_id: self.match_id.clone(),
            final_state_hash: self.final_state_hash,
        }
    }
}

impl SealReplayCmdView {
    /// The bytes that carry the request: the match id, a line break and the hash in
    /// decimal, in UTF-8.
    pub open spec fn encoded(self) -> Seq<u8> {
        encode_utf8(self.match_id + "\n"@ + text::decimal(self.final_state_hash as int))
    }

    /// The request that a payload carries, or the message about what is wrong with
    /// the payload. The match id is what stands before the first line break.
    pub open spec fn decoded(payload: Seq<u8>) -> Result<SealReplayCmdView, Seq<char>> {
        if !valid_utf8(payload) {
            Err("SealReplayCmd payload is not UTF-8"@)
        } else {
            let line = decode_utf8(payload);
            match text::position(line, '\n') {
                None => Err("SealReplayCmd payload missing final_state_hash"@),
                Some(at) => match text::read_number(line.skip(at as int + 1)) {
                    None => Err("SealReplayCmd final_state_hash is not a valid hash"@),
                    Some(final_state_hash) => if at == 0 {
                        Err("SealReplayCmd match_id is required"@)
                    } else {
                        Ok(SealReplayCmdView { match_id: line.take(at as int), final_state_hash })
                    },
                },
            }
        }
    }
}

/// The text that these bytes are in UTF-8, by `std::str::from_utf8`: a text comes
/// back exactly where the bytes are valid UTF-8, and its encoding is the bytes.
#[verifier::external_body]
fn read_utf8(bytes: &[u8]) -> (r: Option<&str>)
    ensures
        match r {
            Some(s) => s.spec_bytes() == bytes@,
            None => !valid_utf8(bytes@),
        },
{
    std::str::from_utf8(bytes).ok()
}

impl SealReplayCmd {
    /// The name the command is routed by.
    pub const NAME: &'static str = "SealReplayCmd";

    /// This request as a command, encoded as `"{match_id}\n{final_state_hash}"`.
    pub fn into_command(self) -> (r: Command<Vec<u8>>)
        ensures
            r@ == (CommandView { name: Self::NAME@, payload: self@.encoded() }),
    {
        let line = text::cat3(
            self.match_id.as_str(),
            "\n",
            text::show(self.final_state_hash).as_str(),
        );
        Command::with_payload(Self::NAME, line.as_str().as_bytes_vec())
    }

    /// Reads a request from a command's payload, rejecting malformed input.
    pub fn decode(payload: &[u8]) -> (r: Result<Self, DomainError>)
        ensures
            match (SealReplayCmdView::decoded(payload@), r) {
                (Ok(cmd), Ok(read)) => read@ == cmd,
                (Err(message), Err(error)) => error@ == DomainErrorView::InvariantViolation(
                    message,
                ),
                _ => false,
            },
    {
        let line = match read_utf8(payload) {
            Some(line) => line,
            None => {
                return shared::refuse("SealReplayCmd payload is not UTF-8".to_owned());
            },
        };
        proof {
            vstd::utf8::encode_utf8_valid_utf8(line@);
            vstd::utf8::encode_utf8_decode_utf8(line@);
        }
        let at: usize = match text::find(line, '\n') {
            Some(at) => at,
            None => {
                return shared::refuse(
                    "SealReplayCmd payload missing final_state_hash".to_owned(),
                );
            },
        };
        let end: usize = line.unicode_len();
        let hash = line.substring_char(at + 1, end);
        assert(hash@ =~= line@.skip(at + 1));
        let final_state_hash: u64 = match text::parse_number(hash) {
            Some(final_state_hash) => final_state_hash,
            None => {
                return shared::refuse(
                    "SealReplayCmd final_state_hash is not a valid hash".to_owned(),
                );
            },
        };
        if at == 0 {
            return shared::refuse("SealReplayCmd match_id is required".to_owned());
        }
        let match_id = line.substring_char(0, at).to_owned();
        assert(match_id@ =~= line@.take(at as int));
        Ok(SealReplayCmd { match_id, final_state_hash })
    }
}

/// Domain events of a [`MatchReplay`].
#[derive(Debug, PartialEq, Eq)]
pub enum Event {
    /// The replay was finalized and frozen; the log is now immutable.
    ReplaySealed {
        /// The sealed match's identity.
        match_id: String,
        /// The deterministic final state hash the log reproduces.
        final_state_hash: u64,
        /// Number of frames frozen into the sealed log.
        frame_count: u64,
    },
}

/// What an [`Event`] says.
#[verifier::ext_equal]
pub enum EventView {
    ReplaySealed { match_id: Seq<char>, final_state_hash: u64, frame_count: u64 },
}

impl View for Event {
    type V = EventView;

    open spec fn view(&self) -> EventView {
        match self {
            Event::ReplaySealed { match_id, final_state_hash, frame_count } =>
                EventView::ReplaySealed {
                match_id: match_id@,
                final_state_hash: *final_state_hash,
                frame_count: *frame_count,
            },
        }
    }
}

impl Clone for Event {
    fn clone(&self) -> (r: Self)
        ensures
            r@ == self@,
    {
        match self {
            Event::ReplaySealed { match_id, final_state_hash, frame_count } => Event::ReplaySealed {
                match_id: match_id.clone(),
                final_state_hash: *final_state_hash,
                frame_count: *frame_count,
            },
        }
    }
}

impl EventView {
    /// The name under which the event is published.
    pub open spec fn event_type(self) -> Seq<char> {
        match self {
            EventView::ReplaySealed { .. } => "replay.sealed"@,
        }
    }
}

impl Event {
    /// The name under which the event is published.
    pub fn event_type(&self) -> (r: &'static str)
        ensures
            r@ == self@.event_type(),
    {
        match self {
            Event::ReplaySealed { .. } => "replay.sealed",
        }
    }
}

/// A match replay: an append-only, deterministic match timeline.
#[derive(Debug)]
pub struct MatchReplay {
    id: String,
    root: AggregateRoot<Event>,
    /// Deterministic seed the log replays from.
    seed: u64,
    /// The append-only frame log, in recorded order.
    log: Vec<ReplayFrame>,
    /// Highest sequence a reconnecting client acknowledged, if any.
    last_acknowledged_seq: Option<u64>,
    /// Whether the replay has been sealed (frozen and immutable).
    sealed: bool,
}

/// What a [`MatchReplay`] says.
#[verifier::ext_equal]
pub struct MatchReplayView {
    pub id: Seq<char>,
    pub events: Seq<EventView>,
    pub seed: u64,
    pub log: Seq<ReplayFrame>,
    pub last_acknowledged_seq: Option<u64>,
    pub sealed: bool,
}

impl View for MatchReplay {
    type V = MatchReplayView;

    closed spec fn view(&self) -> MatchReplayView {
        MatchReplayView {
            id: self.id@,
            events: self.root@,
            seed: self.seed,
            log: self.log@,
            last_acknowledged_seq: self.last_acknowledged_seq,
            sealed: self.sealed,
        }
    }
}

/// One word mixed into the hash so far: exclusive or, then a product modulo 2⁶⁴.
pub open spec fn mixed(acc: u64, word: u64) -> u64 {
    (acc ^ word).wrapping_mul(FNV_PRIME)
}

/// The fold of a seed over the sequence and the input of every frame of a log.
pub open spec fn replayed_hash(seed: u64, log: Seq<ReplayFrame>) -> u64
    decreases log.len(),
{
    if log.len() == 0 {
        seed ^ FNV_OFFSET
    } else {
        mixed(
            mixed(replayed_hash(seed, log.drop_last()), log.last().sequence),
            log.last().input,
        )
    }
}

/// The position of the first frame whose sequence is not its position.
pub open spec fn first_disorder(log: Seq<ReplayFrame>) -> Option<nat>
    decreases log.len(),
{
    if log.len() == 0 {
        None
    } else if first_disorder(log.drop_last()) is Some {
        first_disorder(log.drop_last())
    } else if log.last().sequence != log.len() - 1 {
        Some((log.len() - 1) as nat)
    } else {
        None
    }
}

/// The first disorder of a part of a log is the first disorder of the log.
proof fn lemma_disorder_stays(log: Seq<ReplayFrame>, n: nat)
    requires
        n <= log.len(),
        first_disorder(log.take(n as int)) is Some,
    ensures
        first_disorder(log) == first_disorder(log.take(n as int)),
    decreases log.len() - n,
{
    if n < log.len() {
        assert(log.take(n as int + 1).drop_last() =~= log.take(n as int));
        lemma_disorder_stays(log, n + 1);
    } else {
        assert(log.take(n as int) =~= log);
    }
}

/// A log is in order exactly where every frame's sequence is its position.
pub proof fn law_order_is_contiguity(log: Seq<ReplayFrame>)
    ensures
        first_disorder(log) is None <==> forall|i: int|
            0 <= i < log.len() ==> (#[trigger] log[i]).sequence == i,
    decreases log.len(),
{
    if log.len() > 0 {
        let before = log.drop_last();
        law_order_is_contiguity(before);
        if first_disorder(log) is None {
            assert forall|i: int| 0 <= i < log.len() implies (#[trigger] log[i]).sequence == i by {
                if i < before.len() {
                    assert(log[i] == before[i]);
                }
            }
        }
        if forall|i: int| 0 <= i < log.len() ==> (#[trigger] log[i]).sequence == i {
            assert forall|i: int| 0 <= i < before.len() implies (#[trigger] before[i]).sequence
                == i by {
                assert(log[i] == before[i]);
            }
            assert(log[log.len() - 1].sequence == log.len() - 1);
        }
    }
}

/// The message of a mutator that meets a sealed replay.
pub open spec fn frozen_text() -> Seq<char> {
    "replay is sealed: the log is append-only and immutable once written"@
}

impl MatchReplayView {
    /// The final state hash that replaying the log from the seed gives.
    pub open spec fn computed_final_hash(self) -> u64 {
        replayed_hash(self.seed, self.log)
    }

    /// The message where the replay is sealed.
    pub open spec fn frozen_fault(self) -> Option<Seq<char>> {
        if self.sealed {
            Some(frozen_text())
        } else {
            None
        }
    }

    /// The message of the first rule that refuses to seal the replay, if one does.
    pub open spec fn seal_fault(self, cmd: SealReplayCmdView) -> Option<Seq<char>> {
        if self.sealed {
            Some("replay is already sealed: sealed replays cannot be mutated"@)
        } else if cmd.match_id != self.id {
            Some("matchId '"@ + cmd.match_id + "' does not match replay '"@ + self.id + "'"@)
        } else if let Some(at) = first_disorder(self.log) {
            Some(
                "event log is not strictly ordered: frame at position "@ + text::decimal(at as int)
                    + " has sequence "@ + text::decimal(self.log[at as int].sequence as int),
            )
        } else if self.last_acknowledged_seq is Some && self.last_acknowledged_seq->0
            >= self.log.len() {
            Some(
                "last acknowledged sequence "@ + text::decimal(
                    self.last_acknowledged_seq->0 as int,
                ) + " is beyond the recorded log"@,
            )
        } else if self.computed_final_hash() != cmd.final_state_hash {
            Some(
                "determinism violation: replay from seed yields "@ + text::decimal(
                    self.computed_final_hash() as int,
                ) + ", but finalStateHash is "@ + text::decimal(cmd.final_state_hash as int),
            )
        } else {
            None
        }
    }

    /// The event that sealing the replay gives.
    pub open spec fn seal_event(self, cmd: SealReplayCmdView) -> EventView {
        EventView::ReplaySealed {
            match_id: cmd.match_id,
            final_state_hash: cmd.final_state_hash,
            frame_count: self.log.len() as u64,
        }
    }

    /// The state after a request to seal, and the answer to it.
    pub open spec fn seal(self, cmd: SealReplayCmdView) -> (MatchReplayView, Reply<EventView>) {
        match self.seal_fault(cmd) {
            Some(message) => (self, shared::violation(message)),
            None => {
                let event = self.seal_event(cmd);
                (
                    MatchReplayView { sealed: true, events: self.events.push(event), ..self },
                    Ok(seq![event]),
                )
            },
        }
    }

    /// The state after a command, and the answer to it.
    pub open spec fn execute(self, command: CommandView<Seq<u8>>) -> (
        MatchReplayView,
        Reply<EventView>,
    ) {
        if command.name == SealReplayCmd::NAME@ {
            match SealReplayCmdView::decoded(command.payload) {
                Ok(cmd) => self.seal(cmd),
                Err(message) => (self, shared::violation(message)),
            }
        } else {
            (self, shared::unknown(AGGREGATE_TYPE@, command.name))
        }
    }
}

impl MatchReplay {
    /// The name of the aggregate type.
    pub fn aggregate_type() -> (r: &'static str)
        ensures
            r@ == AGGREGATE_TYPE@,
    {
        AGGREGATE_TYPE
    }

    /// Creates an empty replay with the given identity and seed `0`.
    pub fn new(id: &str) -> (r: Self)
        ensures
            r@ == (MatchReplayView {
                id: id@,
                events: Seq::empty(),
                seed: 0,
                log: Seq::empty(),
                last_acknowledged_seq: None,
                sealed: false,
            }),
    {
        MatchReplay {
            id: id.to_owned(),
            root: AggregateRoot::new(),
            seed: 0,
            log: Vec::new(),
            last_acknowledged_seq: None,
            sealed: false,
        }
    }

    /// This replay's identity.
    pub fn id(&self) -> (r: &str)
        ensures
            r@ == self@.id,
    {
        self.id.as_str()
    }

    /// The version: the number of events recorded.
    pub fn version(&self) -> (r: u64)
        ensures
            r == self@.events.len(),
    {
        self.root.version()
    }

    /// The events recorded and not yet persisted.
    pub fn uncommitted_events(&self) -> (r: &[Event])
        ensures
            shared::views(r@) == self@.events,
    {
        self.root.uncommitted_events()
    }

    /// The deterministic seed this replay's log folds from.
    pub fn seed(&self) -> (r: u64)
        ensures
            r == self@.seed,
    {
        self.seed
    }

    /// Sets the deterministic seed. Rejected once the replay is sealed.
    pub fn set_seed(&mut self, seed: u64) -> (r: Result<(), DomainError>)
        ensures
            shared::broken(r) == shared::owed(old(self)@.frozen_fault()),
            final(self)@ == if r is Ok {
                MatchReplayView { seed, ..old(self)@ }
            } else {
                old(self)@
            },
    {
        if let Err(error) = self.ensure_mutable() {
            return Err(error);
        }
        self.seed = seed;
        Ok(())
    }

    /// The recorded frame log, in order.
    pub fn log(&self) -> (r: &[ReplayFrame])
        ensures
            r@ == self@.log,
    {
        self.log.as_slice()
    }

    /// The last sequence a reconnecting client acknowledged, if any.
    pub fn last_acknowledged_seq(&self) -> (r: Option<u64>)
        ensures
            r == self@.last_acknowledged_seq,
    {
        self.last_acknowledged_seq
    }

    /// Whether the replay has been sealed.
    pub fn is_sealed(&self) -> (r: bool)
        ensures
            r == self@.sealed,
    {
        self.sealed
    }

    /// Appends a frame with the next contiguous sequence and returns its number.
    ///
    /// This is the safe recording path: it can never introduce a gap or reorder
    /// and refuses to mutate a sealed log.
    pub fn record_frame(&mut self, input: u64) -> (r: Result<u64, DomainError>)
        ensures
            match r {
                Ok(sequence) => {
                    &&& !old(self)@.sealed
                    &&& sequence == old(self)@.log.len()
                    &&& final(self)@ == (MatchReplayView {
                        log: old(self)@.log.push(ReplayFrame { sequence, input }),
                        ..old(self)@
                    })
                },
                Err(error) => {
                    &&& old(self)@.sealed
                    &&& error@ == DomainErrorView::InvariantViolation(frozen_text())
                    &&& final(self)@ == old(self)@
                },
            },
    {
        if let Err(error) = self.ensure_mutable() {
            return Err(error);
        }
        let sequence: u64 = self.log.len() as u64;
        self.log.push(ReplayFrame::new(sequence, input));
        Ok(sequence)
    }

    /// Appends a frame with an explicit sequence, without enforcing contiguity.
    ///
    /// For rehydrating a persisted or replicated log, whose corruption is caught
    /// at seal time. Still refuses to mutate a sealed replay.
    pub fn append_raw(&mut self, frame: ReplayFrame) -> (r: Result<(), DomainError>)
        ensures
            shared::broken(r) == shared::owed(old(self)@.frozen_fault()),
            final(self)@ == if r is Ok {
                MatchReplayView { log: old(self)@.log.push(frame), ..old(self)@ }
            } else {
                old(self)@
            },
    {
        if let Err(error) = self.ensure_mutable() {
            return Err(error);
        }
        self.log.push(frame);
        Ok(())
    }

    /// Records that a reconnecting client acknowledged up to `sequence`.
    pub fn acknowledge(&mut self, sequence: u64) -> (r: Result<(), DomainError>)
        ensures
            shared::broken(r) == shared::owed(old(self)@.frozen_fault()),
            final(self)@ == if r is Ok {
                MatchReplayView { last_acknowledged_seq: Some(sequence), ..old(self)@ }
            } else {
                old(self)@
            },
    {
        if let Err(error) = self.ensure_mutable() {
            return Err(error);
        }
        self.last_acknowledged_seq = Some(sequence);
        Ok(())
    }

    /// The deterministic final state hash produced by replaying the current log
    /// from the seed. The same seed and the same frames always yield the same
    /// hash, which is what callers seal on.
    pub fn computed_final_hash(&self) -> (r: u64)
        ensures
            r == self@.computed_final_hash(),
    {
        Self::replay_hash(self.seed, &self.log)
    }

    /// Folds `seed` over every frame's sequence and input.
    pub fn replay_hash(seed: u64, log: &Vec<ReplayFrame>) -> (r: u64)
        ensures
            r == replayed_hash(seed, log@),
    {
        let mut acc: u64 = seed ^ FNV_OFFSET;
        let mut i: usize = 0;
        while i < log.len()
            invariant
                i <= log@.len(),
                acc == replayed_hash(seed, log@.take(i as int)),
            decreases log@.len() - i,
        {
            let frame = log[i];
            assert(log@.take(i + 1).drop_last() =~= log@.take(i as int));
            acc = (acc ^ frame.sequence).wrapping_mul(FNV_PRIME);
            acc = (acc ^ frame.input).wrapping_mul(FNV_PRIME);
            i += 1;
        }
        assert(log@.take(i as int) =~= log@);
        acc
    }

    /// Guard shared by every mutator: a sealed replay is immutable.
    fn ensure_mutable(&self) -> (r: Result<(), DomainError>)
        ensures
            shared::broken(r) == shared::owed(self@.frozen_fault()),
    {
        if self.sealed {
            return shared::refuse(
                "replay is sealed: the log is append-only and immutable once written".to_owned(),
            );
        }
        Ok(())
    }

    /// The position of the first frame whose sequence is not its position.
    fn find_disorder(&self) -> (r: Option<usize>)
        ensures
            match r {
                Some(at) => first_disorder(self@.log) == Some(at as nat) && at < self@.log.len(),
                None => first_disorder(self@.log) is None,
            },
    {
        let mut i: usize = 0;
        while i < self.log.len()
            invariant
                i <= self.log@.len(),
                first_disorder(self.log@.take(i as int)) is None,
            decreases self.log@.len() - i,
        {
            proof {
                assert(self.log@.take(i + 1).drop_last() =~= self.log@.take(i as int));
            }
            if self.log[i].sequence != i as u64 {
                proof {
                    lemma_disorder_stays(self.log@, (i + 1) as nat);
                }
                return Some(i);
            }
            i += 1;
        }
        assert(self.log@.take(i as int) =~= self.log@);
        None
    }

    /// Holds the request to seal to every invariant and produces the event. It
    /// changes nothing.
    fn decide_seal(&self, cmd: &SealReplayCmd) -> (r: Result<Event, DomainError>)
        ensures
            match (self@.seal_fault(cmd@), r) {
                (Some(message), Err(error)) => error@ == DomainErrorView::InvariantViolation(
                    message,
                ),
                (None, Ok(event)) => event@ == self@.seal_event(cmd@),
                _ => false,
            },
    {
        // A sealed replay cannot be mutated or re-sealed.
        if self.sealed {
            return shared::refuse(
                "replay is already sealed: sealed replays cannot be mutated".to_owned(),
            );
        }
        // A valid match id must be provided and identify this aggregate.
        if !text::same(&cmd.match_id, &self.id) {
            return shared::refuse(
                text::cat5(
                    "matchId '", &cmd.match_id, "' does not match replay '", &self.id, "'",
                ),
            );
        }
        // Sequences must be contiguous, gap-free, and in order.
        if let Some(at) = self.find_disorder() {
            return shared::refuse(
                text::cat4(
                    "event log is not strictly ordered: frame at position ",
                    &text::show(at as u64), " has sequence ", &text::show(self.log[at].sequence),
                ),
            );
        }
        // A client cannot have acknowledged past the recorded log, or reconnects
        // would be served phantom events after that sequence.
        if let Some(ack) = self.last_acknowledged_seq {
            if ack >= self.log.len() as u64 {
                return shared::refuse(
                    text::cat3(
                        "last acknowledged sequence ", &text::show(ack),
                        " is beyond the recorded log",
                    ),
                );
            }
        }
        // Replaying from the seed must reproduce the claimed hash.
        let replayed: u64 = self.computed_final_hash();
        if replayed != cmd.final_state_hash {
            return shared::refuse(
                text::cat4(
                    "determinism violation: replay from seed yields ", &text::show(replayed),
                    ", but finalStateHash is ", &text::show(cmd.final_state_hash),
                ),
            );
        }
        Ok(
            Event::ReplaySealed {
                match_id: cmd.match_id.clone(),
                final_state_hash: cmd.final_state_hash,
                frame_count: self.log.len() as u64,
            },
        )
    }

    /// The sole change of state that an event brings.
    fn apply(&mut self, event: &Event)
        ensures
            final(self)@ == (MatchReplayView { sealed: true, ..old(self)@ }),
    {
        match event {
            Event::ReplaySealed { .. } => {
                self.sealed = true;
            },
        }
    }

    /// Carries out a command, or says why it is refused.
    pub fn execute(&mut self, command: Command<Vec<u8>>) -> (r: Result<Vec<Event>, DomainError>)
        ensures
            final(self)@ == old(self)@.execute(command@).0,
            shared::reply(r) == old(self)@.execute(command@).1,
    {
        if text::same(command.name.as_str(), SealReplayCmd::NAME) {
            let cmd = match SealReplayCmd::decode(command.payload.as_slice()) {
                Ok(cmd) => cmd,
                Err(error) => {
                    return Err(error);
                },
            };
            let event = match self.decide_seal(&cmd) {
                Ok(event) => event,
                Err(error) => {
                    return Err(error);
                },
            };
            self.apply(&event);
            self.root.record(event.clone());
            Ok(shared::only(event))
        } else {
            Err(DomainError::unknown_command(AGGREGATE_TYPE, command.name))
        }
    }
}

/// The repository port of the [`MatchReplay`] aggregate: an adapter implements
/// [`Repository`] for it and then this marker.
pub trait MatchReplayRepository: Repository<MatchReplay> {

}

/// Reading the encoding of a request gives the request back, where its match id is
/// not empty and holds no line break.
pub proof fn law_encoding_reads_back(cmd: SealReplayCmdView)
    requires
        cmd.match_id.len() > 0,
        !cmd.match_id.contains('\n'),
    ensures
        SealReplayCmdView::decoded(cmd.encoded()) == Ok::<SealReplayCmdView, Seq<char>>(cmd),
{
    let hash = text::decimal(cmd.final_state_hash as int);
    let line = cmd.match_id + "\n"@ + hash;
    vstd::utf8::encode_utf8_valid_utf8(line);
    vstd::utf8::encode_utf8_decode_utf8(line);
    reveal_strlit("\n");
    assert("\n"@ =~= seq!['\n']);
    let n = cmd.match_id.len();
    assert(line[n as int] == '\n');
    assert forall|i: int| 0 <= i < n implies line[i] != '\n' by {
        assert(line[i] == cmd.match_id[i]);
    }
    text::lemma_position(line, '\n', n);
    assert(line.skip(n as int + 1) =~= hash);
    assert(line.take(n as int) =~= cmd.match_id);
    text::law_number_reads_back(cmd.final_state_hash);
}

impl MatchReplayView {
    /// A command that was encoded is carried out as the request it was made from.
    pub proof fn law_encoded_command_seals(self, cmd: SealReplayCmdView)
        requires
            cmd.match_id.len() > 0,
            !cmd.match_id.contains('\n'),
        ensures
            self.execute(CommandView { name: SealReplayCmd::NAME@, payload: cmd.encoded() })
                == self.seal(cmd),
    {
        law_encoding_reads_back(cmd);
    }

    /// A sealed replay is immutable: no command changes it, and every request to
    /// seal it again is refused.
    pub proof fn law_sealed_is_frozen(self, command: CommandView<Seq<u8>>)
        requires
            self.sealed,
        ensures
            self.execute(command).0 == self,
            self.execute(command).1 is Err,
    {
    }

    /// Sealing succeeds exactly on a replay that is not sealed, is the one named,
    /// is in order, has no acknowledgement beyond its log and yields the hash.
    pub proof fn law_seal_is_owed(self, cmd: SealReplayCmdView)
        ensures
            self.seal(cmd).1 is Ok <==> {
                &&& !self.sealed
                &&& cmd.match_id == self.id
                &&& forall|i: int| 0 <= i < self.log.len() ==> (#[trigger] self.log[i]).sequence == i
                &&& self.last_acknowledged_seq is Some ==> self.last_acknowledged_seq->0
                    < self.log.len()
                &&& cmd.final_state_hash == replayed_hash(self.seed, self.log)
            },
            self.seal(cmd).1 is Ok ==> self.seal(cmd).0.sealed && self.seal(cmd).0.log == self.log,
    {
        law_order_is_contiguity(self.log);
    }

    /// Recording a frame with the next sequence keeps an ordered log in order.
    pub proof fn law_recording_keeps_order(self, input: u64)
        requires
            first_disorder(self.log) is None,
            self.log.len() <= u64::MAX,
        ensures
            first_disorder(
                self.log.push(ReplayFrame { sequence: self.log.len() as u64, input }),
            ) is None,
    {
        assert(self.log.push(
            ReplayFrame { sequence: self.log.len() as u64, input },
        ).drop_last() =~= self.log);
    }

    /// A refused command changes nothing: neither the state nor the events.
    pub proof fn law_refusal_changes_nothing(self, command: CommandView<Seq<u8>>)
        ensures
            self.execute(command).1 is Err ==> self.execute(command).0 == self,
    {
    }

    /// An accepted command records exactly the event it answers with.
    pub proof fn law_events_are_recorded(self, command: CommandView<Seq<u8>>)
        ensures
            self.execute(command).1 matches Ok(events) ==> {
                &&& events.len() == 1
                &&& self.execute(command).0.events == self.events + events
            },
    {
        if let Ok(events) = self.execute(command).1 {
            assert(self.execute(command).0.events =~= self.events + events);
        }
    }
}

/// The fold starts from the seed and the offset and takes in every frame whole:
/// first the sequence, then the input, each by an exclusive or and a product modulo
/// 2⁶⁴.
pub proof fn law_every_frame_is_folded(seed: u64, log: Seq<ReplayFrame>, frame: ReplayFrame)
    ensures
        replayed_hash(seed, Seq::empty()) == seed ^ 0xcbf2_9ce4_8422_2325,
        ({
            let before = replayed_hash(seed, log);
            let half = ((before ^ frame.sequence) * 0x0000_0100_0000_01b3)
                % 0x1_0000_0000_0000_0000;
            replayed_hash(seed, log.push(frame)) == ((half as u64 ^ frame.input)
                * 0x0000_0100_0000_01b3) % 0x1_0000_0000_0000_0000
        }),
{
    assert(log.push(frame).drop_last() =~= log);
    let before = replayed_hash(seed, log);
    assert((before ^ frame.sequence) * 0x0000_0100_0000_01b3 >= 0) by (nonlinear_arith);
    let half = mixed(before, frame.sequence);
    assert((half ^ frame.input) * 0x0000_0100_0000_01b3 >= 0) by (nonlinear_arith);
}

/// The product with the prime modulo 2⁶⁴ can be undone: the prime is odd.
proof fn lemma_product_is_undone(x: u64)
    ensures
        (x.wrapping_mul(FNV_PRIME) * 14886173955864302971) % 0x1_0000_0000_0000_0000 == x,
{
    let m: int = 0x1_0000_0000_0000_0000;
    let p: int = FNV_PRIME as int;
    let inverse: int = 14886173955864302971;
    let k: int = 887285111055;
    assert(p * inverse == k * m + 1);
    assert(0 <= x * p) by (nonlinear_arith)
        requires
            0 <= x,
            0 <= p,
    ;
    assert(x.wrapping_mul(FNV_PRIME) == (x * p) % m);
    vstd::arithmetic::div_mod::lemma_mul_mod_noop_left(x * p, inverse, m);
    assert(x * p * inverse == m * (x * k) + x) by (nonlinear_arith)
        requires
            p * inverse == k * m + 1,
    ;
    vstd::arithmetic::div_mod::lemma_mod_multiples_vanish(x * k, x as int, m);
    vstd::arithmetic::div_mod::lemma_small_mod(x as nat, m as nat);
}

/// Mixing is one to one in the hash so far and in the word.
proof fn lemma_mixing_is_one_to_one(a: u64, b: u64, x: u64, y: u64)
    ensures
        mixed(a, x) == mixed(b, x) ==> a == b,
        mixed(a, x) == mixed(a, y) ==> x == y,
{
    lemma_product_is_undone(a ^ x);
    lemma_product_is_undone(b ^ x);
    lemma_product_is_undone(a ^ y);
    assert(a ^ x == b ^ x ==> a == b) by (bit_vector);
    assert(a ^ x == a ^ y ==> x == y) by (bit_vector);
}

/// A difference between two hashes so far stays, whatever frames follow.
proof fn lemma_difference_stays(
    seed: u64,
    one: Seq<ReplayFrame>,
    other_seed: u64,
    other: Seq<ReplayFrame>,
    n: nat,
)
    requires
        one.len() == other.len(),
        n <= one.len(),
        replayed_hash(seed, one.take(n as int)) != replayed_hash(other_seed, other.take(n as int)),
        forall|i: int| n <= i < one.len() ==> one[i] == other[i],
    ensures
        replayed_hash(seed, one) != replayed_hash(other_seed, other),
    decreases one.len() - n,
{
    if n < one.len() {
        let a = replayed_hash(seed, one.take(n as int));
        let b = replayed_hash(other_seed, other.take(n as int));
        let frame = one[n as int];
        assert(one.take(n as int + 1).drop_last() =~= one.take(n as int));
        assert(other.take(n as int + 1).drop_last() =~= other.take(n as int));
        lemma_mixing_is_one_to_one(a, b, frame.sequence, frame.sequence);
        lemma_mixing_is_one_to_one(
            mixed(a, frame.sequence),
            mixed(b, frame.sequence),
            frame.input,
            frame.input,
        );
        lemma_difference_stays(seed, one, other_seed, other, n + 1);
    } else {
        assert(one.take(n as int) =~= one);
        assert(other.take(n as int) =~= other);
    }
}

/// The final state hash tells logs apart: two logs of one length and one seed that
/// differ in exactly one frame, and there in exactly its input or its sequence, have
/// different hashes.
pub proof fn law_hash_tells_logs_apart(
    seed: u64,
    one: Seq<ReplayFrame>,
    other: Seq<ReplayFrame>,
    at: int,
)
    requires
        one.len() == other.len(),
        0 <= at < one.len(),
        forall|i: int| 0 <= i < one.len() && i != at ==> one[i] == other[i],
        one[at].input != other[at].input <==> one[at].sequence == other[at].sequence,
    ensures
        replayed_hash(seed, one) != replayed_hash(seed, other),
{
    assert(one.take(at) =~= other.take(at));
    assert(one.take(at + 1).drop_last() =~= one.take(at));
    assert(other.take(at + 1).drop_last() =~= other.take(at));
    let h = replayed_hash(seed, one.take(at));
    let a = one[at];
    let b = other[at];
    lemma_mixing_is_one_to_one(h, h, a.sequence, b.sequence);
    lemma_mixing_is_one_to_one(mixed(h, a.sequence), mixed(h, b.sequence), a.input, b.input);
    lemma_difference_stays(seed, one, seed, other, (at + 1) as nat);
}

/// The final state hash tells seeds apart: one log replayed from two seeds has two
/// hashes.
pub proof fn law_hash_tells_seeds_apart(seed: u64, other_seed: u64, log: Seq<ReplayFrame>)
    requires
        seed != other_seed,
    ensures
        replayed_hash(seed, log) != replayed_hash(other_seed, log),
{
    let offset: u64 = FNV_OFFSET;
    assert(seed ^ offset == other_seed ^ offset ==> seed == other_seed) by (bit_vector);
    lemma_difference_stays(seed, log, other_seed, log, 0);
}

/// A payload is a match id, a line break and a hash: it reads as what stands before
/// its first line break and the number behind it, and where there is no match id, no
/// line break or no number, or the bytes are no text, it does not read.
pub proof fn law_decoding_splits_at_the_first_break(match_id: Seq<char>, rest: Seq<char>)
    requires
        !match_id.contains('\n'),
    ensures
        SealReplayCmdView::decoded(encode_utf8(match_id + seq!['\n'] + rest))
            == match text::read_number(
            rest,
        ) {
            None => Err::<SealReplayCmdView, Seq<char>>(
                "SealReplayCmd final_state_hash is not a valid hash"@,
            ),
            Some(hash) => if match_id.len() == 0 {
                Err("SealReplayCmd match_id is required"@)
            } else {
                Ok(SealReplayCmdView { match_id, final_state_hash: hash })
            },
        },
        SealReplayCmdView::decoded(encode_utf8(match_id)) == Err::<SealReplayCmdView, Seq<char>>(
            "SealReplayCmd payload missing final_state_hash"@,
        ),
{
    let line = match_id + seq!['\n'] + rest;
    vstd::utf8::encode_utf8_valid_utf8(line);
    vstd::utf8::encode_utf8_decode_utf8(line);
    vstd::utf8::encode_utf8_valid_utf8(match_id);
    vstd::utf8::encode_utf8_decode_utf8(match_id);
    let n = match_id.len();
    assert(line[n as int] == '\n');
    assert forall|i: int| 0 <= i < n implies line[i] != '\n' by {
        assert(line[i] == match_id[i]);
    }
    text::lemma_position(line, '\n', n);
    assert(line.skip(n as int + 1) =~= rest);
    assert(line.take(n as int) =~= match_id);
    text::law_position(match_id, '\n');
    if let Some(at) = text::position(match_id, '\n') {
        assert(match_id.contains('\n'));
    }
}

/// Bytes that are no text do not read, and all others are the encoding of a text.
pub proof fn law_only_texts_decode(payload: Seq<u8>)
    ensures
        !valid_utf8(payload) ==> SealReplayCmdView::decoded(payload) == Err::<
            SealReplayCmdView,
            Seq<char>,
        >("SealReplayCmd payload is not UTF-8"@),
        valid_utf8(payload) ==> payload == encode_utf8(decode_utf8(payload)),
{
    if valid_utf8(payload) {
        vstd::utf8::decode_utf8_encode_utf8(payload);
    }
}

/// The encoding of a request is the match id, a line break and the hash in decimal.
pub proof fn law_encoding_is_two_lines(cmd: SealReplayCmdView)
    ensures
        decode_utf8(cmd.encoded()) == cmd.match_id + seq!['\n'] + text::decimal(
            cmd.final_state_hash as int,
        ),
{
    reveal_strlit("\n");
    assert("\n"@ =~= seq!['\n']);
    vstd::utf8::encode_utf8_decode_utf8(
        cmd.match_id + "\n"@ + text::decimal(cmd.final_state_hash as int),
    );
}

impl MatchReplayView {
    /// A command to seal is read and carried out, one that does not read is refused
    /// with what is wrong with it, and any other name is unknown.
    pub proof fn law_commands_are_routed(self, command: CommandView<Seq<u8>>)
        ensures
            command.name == "SealReplayCmd"@ ==> match SealReplayCmdView::decoded(command.payload) {
                Ok(cmd) => self.execute(command) == self.seal(cmd),
                Err(message) => self.execute(command).1 == shared::violation::<EventView>(message),
            },
            command.name != "SealReplayCmd"@ ==> self.execute(command).1 == Err::<
                Seq<EventView>,
                DomainErrorView,
            >(
                DomainErrorView::UnknownCommand {
                    aggregate: "MatchReplay"@,
                    command: command.name,
                },
            ),
    {
    }

    /// Sealing records the match and the hash that were submitted and the number of
    /// frames, and freezes the replay; nothing else changes.
    pub proof fn law_seal_records_the_match(self, cmd: SealReplayCmdView)
        requires
            self.seal(cmd).1 is Ok,
            self.log.len() <= u64::MAX,
        ensures
            ({
                let after = self.seal(cmd).0;
                &&& self.seal(cmd).1 matches Ok(events)
                &&& events.len() == 1
                &&& events[0].event_type() == "replay.sealed"@
                &&& events[0] matches EventView::ReplaySealed {
                    match_id,
                    final_state_hash,
                    frame_count,
                }
                &&& match_id == cmd.match_id
                &&& final_state_hash == cmd.final_state_hash
                &&& frame_count == self.log.len()
                &&& after.sealed
                &&& after == (MatchReplayView {
                    sealed: after.sealed,
                    events: self.events.push(events[0]),
                    ..self
                })
            }),
    {
    }

    /// An altered log never seals with the hash of the log it was made from: where
    /// one request seals a replay, it does not seal another of the same seed whose
    /// log differs in the input of exactly one frame.
    pub proof fn law_altered_log_does_not_seal(
        self,
        altered: MatchReplayView,
        cmd: SealReplayCmdView,
        at: int,
    )
        requires
            self.seal(cmd).1 is Ok,
            altered.seed == self.seed,
            altered.log.len() == self.log.len(),
            0 <= at < self.log.len(),
            forall|i: int| 0 <= i < self.log.len() && i != at ==> altered.log[i] == self.log[i],
            altered.log[at].sequence == self.log[at].sequence,
            altered.log[at].input != self.log[at].input,
        ensures
            altered.seal(cmd).1 is Err,
    {
        law_hash_tells_logs_apart(self.seed, self.log, altered.log, at);
    }

    /// A replay never seals from another seed with the hash of the first.
    pub proof fn law_altered_seed_does_not_seal(
        self,
        altered: MatchReplayView,
        cmd: SealReplayCmdView,
    )
        requires
            self.seal(cmd).1 is Ok,
            altered.log == self.log,
            altered.seed != self.seed,
        ensures
            altered.seal(cmd).1 is Err,
    {
        law_hash_tells_seeds_apart(self.seed, altered.seed, self.log);
    }
}

impl SealReplayCmd {
    /// The view leaves nothing out: where two views agree, so does every field.
    pub proof fn law_view_leaves_nothing_out(self, other: SealReplayCmd)
        requires
            self@ == other@,
        ensures
            self.match_id@ == other.match_id@,
            self.final_state_hash == other.final_state_hash,
    {
    }
}

} // verus!
