//! A player's request to be matched into a game.
//!
//! A [`MatchmakingTicket`] is one player's standing request to be paired with an
//! opponent. While the ticket sits in the queue its *search bands* widen as it
//! ages so a match becomes progressively easier to find. Four invariants govern
//! whether a band may be widened:
//!
//! 1. **Monotonic expansion** — primary targeting is ±[`BASE_RATING_BAND`] Rating
//!    and secondary is ±[`BASE_LEVEL_BAND`] Level, and the bands only ever grow as
//!    the ticket ages.
//! 2. **Fallback deadline** — a ticket must fall back to exhibition after
//!    [`FALLBACK_DEADLINE_SECONDS`] of unmatched queueing.
//! 3. **Legal pairing** — a ticket may be paired with exactly one opponent and
//!    never with the ticket's own player.
//! 4. **Settled tickets are final** — a cancelled or matched ticket cannot be
//!    re-matched, and therefore cannot expand its search bands.
use crate::shared;
use crate::shared::AggregateRoot;
use crate::shared::Command;
use crate::shared::CommandView;
use crate::shared::DomainError;
use crate::shared::Payload;
use crate::shared::PayloadView;
use crate::shared::Reply;
use crate::shared::Repository;
use crate::text;
use vstd::prelude::*;

verus! {

/// The name of the aggregate type, as errors show it.
pub const AGGREGATE_TYPE: &'static str = "MatchmakingTicket";

/// Primary targeting band: a fresh ticket searches within ±150 Rating. Every
/// expansion widens outward from this floor and may never narrow below it.
pub const BASE_RATING_BAND: u32 = 150;

/// Secondary targeting band: a fresh ticket searches within ±5 Level. Every
/// expansion widens outward from this floor and may never narrow below it.
pub const BASE_LEVEL_BAND: u32 = 5;

/// A ticket must fall back to exhibition after 5 minutes (300 seconds) of
/// unmatched queueing; past this deadline its bands can no longer be widened.
pub const FALLBACK_DEADLINE_SECONDS: u64 = 300;

/// How often (in seconds of queue time) the bands step outward. Each elapsed
/// interval widens the rating band by [`RATING_STEP`] and the level band by
/// [`LEVEL_STEP`].
pub const EXPANSION_INTERVAL_SECONDS: u64 = 30;

/// Rating widening applied per [`EXPANSION_INTERVAL_SECONDS`] of queue time.
pub const RATING_STEP: u32 = 50;

/// Level widening applied per [`EXPANSION_INTERVAL_SECONDS`] of queue time.
pub const LEVEL_STEP: u32 = 1;

/// A band of this base, widened by `step` with each interval elapsed, up to what
/// a `u32` holds.
pub open spec fn widened(base: u32, step: u32, elapsed_seconds: u64) -> u32 {
    let width = base + (elapsed_seconds / EXPANSION_INTERVAL_SECONDS) * step;
    if width <= u32::MAX {
        width as u32
    } else {
        u32::MAX
    }
}

/// A band of this base, widened by `step` with each of `intervals`, up to what a
/// `u32` holds.
fn widen(base: u32, step: u32, intervals: u64) -> (r: u32)
    requires
        1 <= step <= 1000,
    ensures
        r == if base + intervals * step <= u32::MAX {
            base + intervals * step
        } else {
            u32::MAX as int
        },
{
    if intervals > u32::MAX as u64 {
        assert(intervals * step >= intervals) by (nonlinear_arith)
            requires
                step >= 1,
                intervals >= 0,
        ;
        return u32::MAX;
    }
    assert(0 <= intervals * step <= 0xffff_ffff * 1000) by (nonlinear_arith)
        requires
            intervals <= 0xffff_ffff,
            step <= 1000,
    ;
    let width: u64 = base as u64 + intervals * step as u64;
    if width <= u32::MAX as u64 {
        width as u32
    } else {
        u32::MAX
    }
}

/// The widened rating/level bands for a ticket that has been queued for
/// `elapsed_seconds`. Growth is monotonic in `elapsed_seconds`: more queue time
/// never yields a narrower band.
pub fn widened_bands(elapsed_seconds: u64) -> (r: (u32, u32))
    ensures
        r == (
            widened(BASE_RATING_BAND, RATING_STEP, elapsed_seconds),
            widened(BASE_LEVEL_BAND, LEVEL_STEP, elapsed_seconds),
        ),
{
    let intervals: u64 = elapsed_seconds / EXPANSION_INTERVAL_SECONDS;
    (
        widen(BASE_RATING_BAND, RATING_STEP, intervals),
        widen(BASE_LEVEL_BAND, LEVEL_STEP, intervals),
    )
}

/// Where a ticket sits in its lifecycle. Only a [`TicketStatus::Queued`] ticket
/// is still searching; a matched or cancelled ticket is settled and may not be
/// re-matched (and so may not expand its bands).
#[derive(Debug, Clone, Copy, PartialEq, Eq, Structural)]
pub enum TicketStatus {
    /// Actively searching the queue — the only state that may expand its bands.
    Queued,
    /// Paired with an opponent; settled and no longer searching.
    Matched,
    /// Withdrawn from the queue; settled and no longer searching.
    Cancelled,
}

/// The `ExpandSearchBandCmd` payload: which ticket to widen and how long it has
/// been queued.
#[derive(Debug, PartialEq, Eq)]
pub struct ExpandSearchBand {
    /// Identity of the ticket to widen; must name the ticket this aggregate
    /// records.
    pub ticket_id: String,
    /// Seconds the ticket has been queued. Drives the widened bands and must move
    /// forward relative to the ticket's last expansion (monotonic growth).
    pub elapsed_seconds: u64,
}

/// What an [`ExpandSearchBand`] says.
#[verifier::ext_equal]
pub struct ExpandSearchBandView {
    pub ticket_id: Seq<char>,
    pub elapsed_seconds: u64,
}

impl View for ExpandSearchBand {
    type V = ExpandSearchBandView;

    open spec fn view(&self) -> ExpandSearchBandView {
        ExpandSearchBandView {
            ticket_id: self.ticket_id@,
            elapsed_seconds: self.elapsed_seconds,
        }
    }
}

impl Clone for ExpandSearchBand {
    fn clone(&self) -> (r: Self)
        ensures
            r@ == self@,
    {
        ExpandSearchBand {
            ticket_id: self.ticket_id.clone(),
            elapsed_seconds: self.elapsed_seconds,
        }
    }
}

impl ExpandSearchBand {
    /// The name of the command.
    pub const COMMAND: &'static str = "ExpandSearchBandCmd";

    /// Builds a command widening `ticket_id`'s bands after `elapsed_seconds` of
    /// queueing.
    pub fn new(ticket_id: &str, elapsed_seconds: u64) -> (r: Self)
        ensures
            r@ == (ExpandSearchBandView {
                ticket_id: ticket_id@,
                elapsed_seconds: elapsed_seconds,
            }),
    {
        ExpandSearchBand {
            ticket_id: ticket_id.to_owned(),
            elapsed_seconds: elapsed_seconds,
        }
    }

    /// This request as a command, ready to be executed.
    pub fn into_command(&self) -> (r: Command<Payload<ExpandSearchBand>>)
        ensures
            r@ == (CommandView {
                name: Self::COMMAND@,
                payload: PayloadView::Decoded(self@),
            }),
    {
        let request = self.clone();
        Command::with_payload(Self::COMMAND, Payload::Decoded(request))
    }
}

/// The widened search bands, carried by [`Event::SearchBandExpanded`] and thus
/// by the emitted `search.band.expanded` event.
#[derive(Debug, PartialEq, Eq)]
pub struct SearchBandExpanded {
    /// The ticket whose bands were widened.
    pub ticket_id: String,
    /// The new (wider) rating band, ±Rating.
    pub rating_band: u32,
    /// The new (wider) level band, ±Level.
    pub level_band: u32,
    /// The queue time at which this expansion was applied.
    pub elapsed_seconds: u64,
}

/// What a [`SearchBandExpanded`] says.
#[verifier::ext_equal]
pub struct SearchBandExpandedView {
    pub ticket_id: Seq<char>,
    pub rating_band: u32,
    pub level_band: u32,
    pub elapsed_seconds: u64,
}

impl View for SearchBandExpanded {
    type V = SearchBandExpandedView;

    open spec fn view(&self) -> SearchBandExpandedView {
        SearchBandExpandedView {
            ticket_id: self.ticket_id@,
            rating_band: self.rating_band,
            level_band: self.level_band,
            elapsed_seconds: self.elapsed_seconds,
        }
    }
}

impl Clone for SearchBandExpanded {
    fn clone(&self) -> (r: Self)
        ensures
            r@ == self@,
    {
        SearchBandExpanded {
            ticket_id: self.ticket_id.clone(),
            rating_band: self.rating_band,
            level_band: self.level_band,
            elapsed_seconds: self.elapsed_seconds,
        }
    }
}

/// Domain events emitted by [`MatchmakingTicket`].
#[derive(Debug, PartialEq, Eq)]
pub enum Event {
    /// An aging ticket widened its rating/level search bands.
    SearchBandExpanded(SearchBandExpanded),
}

/// What an [`Event`] says.
#[verifier::ext_equal]
pub enum EventView {
    SearchBandExpanded(SearchBandExpandedView),
}

impl View for Event {
    type V = EventView;

    open spec fn view(&self) -> EventView {
        match self {
            Event::SearchBandExpanded(body) => EventView::SearchBandExpanded(body@),
        }
    }
}

impl Clone for Event {
    fn clone(&self) -> (r: Self)
        ensures
            r@ == self@,
    {
        match self {
            Event::SearchBandExpanded(body) => Event::SearchBandExpanded(body.clone()),
        }
    }
}

impl EventView {
    /// The name under which the event is published.
    pub open spec fn event_type(self) -> Seq<char> {
        match self {
            EventView::SearchBandExpanded(_) => "search.band.expanded"@,
        }
    }
}

impl Event {
    /// The name under which the event is published.
    pub fn event_type(&self) -> (r: &'static str)
        ensures
            r@ == self@.event_type(),
    {
        match self {
            Event::SearchBandExpanded(_) => "search.band.expanded",
        }
    }
}

/// The MatchmakingTicket aggregate: one player's standing request to be
/// matched.
///
/// A fresh ticket from [`MatchmakingTicket::new`] is [`TicketStatus::Queued`]
/// with no opponent and its bands at the
/// ±[`BASE_RATING_BAND`]/±[`BASE_LEVEL_BAND`] floor, ready to widen as it ages;
/// the setters below move it into the other states.
#[derive(Debug)]
pub struct MatchmakingTicket {
    id: String,
    root: AggregateRoot<Event>,
    /// The player who owns this ticket. An opponent may never be this player.
    player_id: String,
    /// Where the ticket sits in its lifecycle; only [`TicketStatus::Queued`]
    /// tickets may expand their bands.
    status: TicketStatus,
    /// The single opponent this ticket has been paired with, if any. `None` while
    /// still searching.
    opponent: Option<String>,
    /// The current rating band (±Rating). Starts at [`BASE_RATING_BAND`] and only
    /// ever grows.
    rating_band: u32,
    /// The current level band (±Level). Starts at [`BASE_LEVEL_BAND`] and only ever
    /// grows.
    level_band: u32,
    /// Queue time at which the bands were last widened. An expansion must move
    /// strictly beyond this to keep growth monotonic.
    last_expanded_at_seconds: u64,
}

/// What a [`MatchmakingTicket`] says.
#[verifier::ext_equal]
pub struct MatchmakingTicketView {
    pub id: Seq<char>,
    pub events: Seq<EventView>,
    pub player_id: Seq<char>,
    pub status: TicketStatus,
    pub opponent: Option<Seq<char>>,
    pub rating_band: u32,
    pub level_band: u32,
    pub last_expanded_at_seconds: u64,
}

impl View for MatchmakingTicket {
    type V = MatchmakingTicketView;

    closed spec fn view(&self) -> MatchmakingTicketView {
        MatchmakingTicketView {
            id: self.id@,
            events: self.root@,
            player_id: self.player_id@,
            status: self.status,
            opponent: text::maybe(self.opponent),
            rating_band: self.rating_band,
            level_band: self.level_band,
            last_expanded_at_seconds: self.last_expanded_at_seconds,
        }
    }
}

impl ExpandSearchBandView {
    /// The rating band that the queue time calls for.
    pub open spec fn rating_band(self) -> u32 {
        widened(BASE_RATING_BAND, RATING_STEP, self.elapsed_seconds)
    }

    /// The level band that the queue time calls for.
    pub open spec fn level_band(self) -> u32 {
        widened(BASE_LEVEL_BAND, LEVEL_STEP, self.elapsed_seconds)
    }
}

impl MatchmakingTicketView {
    /// The message where the ticket is matched or cancelled.
    pub open spec fn settled_fault(self) -> Option<Seq<char>> {
        if self.status is Matched {
            Some("ticket '"@ + self.id + "' is already matched and cannot be re-matched"@)
        } else if self.status is Cancelled {
            Some("ticket '"@ + self.id + "' is cancelled and cannot be re-matched"@)
        } else {
            None
        }
    }

    /// The message where the ticket is paired with its own player.
    pub open spec fn pairing_fault(self) -> Option<Seq<char>> {
        if self.opponent == Some(self.player_id) {
            Some(
                "ticket '"@ + self.id + "' may never be paired with its own player '"@
                    + self.player_id + "'"@,
            )
        } else {
            None
        }
    }

    /// The message where the ticket has queued past the deadline.
    pub open spec fn window_fault(self, elapsed_seconds: u64) -> Option<Seq<char>> {
        if elapsed_seconds >= FALLBACK_DEADLINE_SECONDS {
            Some(
                "ticket '"@ + self.id + "' has queued "@ + text::decimal(elapsed_seconds as int)
                    + "s and must fall back to exhibition after "@
                    + text::decimal(FALLBACK_DEADLINE_SECONDS as int)
                    + "s; its bands can no longer be widened"@,
            )
        } else {
            None
        }
    }

    /// The message where time does not move forward, or a band would narrow.
    pub open spec fn monotony_fault(
        self,
        elapsed_seconds: u64,
        rating_band: u32,
        level_band: u32,
    ) -> Option<Seq<char>> {
        if elapsed_seconds <= self.last_expanded_at_seconds {
            Some(
                "ticket '"@ + self.id + "' cannot expand at "@
                    + text::decimal(elapsed_seconds as int)
                    + "s; bands widen monotonically and it last expanded at "@
                    + text::decimal(self.last_expanded_at_seconds as int) + "s"@,
            )
        } else if rating_band < self.rating_band || level_band < self.level_band {
            Some(
                "ticket '"@ + self.id + "' cannot narrow its search bands from ±"@
                    + text::decimal(self.rating_band as int) + "/±"@
                    + text::decimal(self.level_band as int) + " to ±"@
                    + text::decimal(rating_band as int) + "/±"@ + text::decimal(level_band as int),
            )
        } else {
            None
        }
    }

    /// The message of the first rule that refuses an [`ExpandSearchBand`], if one does.
    pub open spec fn expand_search_band_fault(
        self,
        cmd: ExpandSearchBandView,
    ) -> Option<Seq<char>> {
        if cmd.ticket_id != self.id {
            Some(
                "command targets ticket '"@ + cmd.ticket_id + "' but this aggregate records '"@
                    + self.id + "'"@,
            )
        } else {
            shared::first(
                self.settled_fault(),
                shared::first(
                    self.pairing_fault(),
                    shared::first(
                        self.window_fault(cmd.elapsed_seconds),
                        self.monotony_fault(cmd.elapsed_seconds, cmd.rating_band(), cmd.level_band()),
                    ),
                ),
            )
        }
    }

    /// The state after an [`ExpandSearchBand`], and the answer to it.
    pub open spec fn expand_search_band(self, cmd: ExpandSearchBandView) -> (
        MatchmakingTicketView,
        Reply<EventView>,
    ) {
        match self.expand_search_band_fault(cmd) {
            Some(message) => (self, shared::violation(message)),
            None => {
                let event = EventView::SearchBandExpanded(SearchBandExpandedView {
                    ticket_id: cmd.ticket_id,
                    rating_band: cmd.rating_band(),
                    level_band: cmd.level_band(),
                    elapsed_seconds: cmd.elapsed_seconds,
                });
                (
                    MatchmakingTicketView {
                        rating_band: cmd.rating_band(),
                        level_band: cmd.level_band(),
                        last_expanded_at_seconds: cmd.elapsed_seconds,
                        events: self.events.push(event),
                        ..self
                    },
                    Ok(seq![event]),
                )
            },
        }
    }

    /// The state after a command, and the answer to it.
    pub open spec fn execute(self, command: CommandView<PayloadView<ExpandSearchBandView>>) -> (
        MatchmakingTicketView,
        Reply<EventView>,
    ) {
        if command.name == ExpandSearchBand::COMMAND@ {
            match command.payload {
                PayloadView::Decoded(cmd) => self.expand_search_band(cmd),
                PayloadView::Malformed(complaint) => (
                    self,
                    shared::malformed_reply(ExpandSearchBand::COMMAND@, complaint),
                ),
            }
        } else {
            (self, shared::unknown(AGGREGATE_TYPE@, command.name))
        }
    }
}

impl MatchmakingTicket {
    /// The name of the aggregate type.
    pub fn aggregate_type() -> (r: &'static str)
        ensures
            r@ == AGGREGATE_TYPE@,
    {
        AGGREGATE_TYPE
    }

    /// Creates a ticket identified by `id`, owned by a player of the same identity,
    /// queued with its bands at the base floor.
    pub fn new(id: &str) -> (r: Self)
        ensures
            r@ == (MatchmakingTicketView {
                id: id@,
                events: Seq::empty(),
                player_id: id@,
                status: TicketStatus::Queued,
                opponent: None,
                rating_band: BASE_RATING_BAND,
                level_band: BASE_LEVEL_BAND,
                last_expanded_at_seconds: 0,
            }),
    {
        MatchmakingTicket {
            id: id.to_owned(),
            root: AggregateRoot::new(),
            player_id: id.to_owned(),
            status: TicketStatus::Queued,
            opponent: None,
            rating_band: BASE_RATING_BAND,
            level_band: BASE_LEVEL_BAND,
            last_expanded_at_seconds: 0,
        }
    }

    /// This aggregate's identity.
    pub fn id(&self) -> (r: &str)
        ensures
            r@ == self@.id,
    {
        self.id.as_str()
    }

    /// The version: the number of events recorded.
    pub fn version(&self) -> (r: u64)
        ensures
            r == self@.events.len(),
    {
        self.root.version()
    }

    /// The events recorded and not yet persisted.
    pub fn uncommitted_events(&self) -> (r: &[Event])
        ensures
            shared::views(r@) == self@.events,
    {
        self.root.uncommitted_events()
    }

    /// Settled-ticket invariant: a cancelled or matched ticket cannot be re-
    /// matched, and so cannot expand its search bands.
    fn ensure_not_settled(&self) -> (r: Result<(), DomainError>)
        ensures
            shared::broken(r) == shared::owed(self@.settled_fault()),
    {
        if self.status == TicketStatus::Matched {
            return shared::refuse(
                text::cat3(
                    "ticket '", &self.id, "' is already matched and cannot be re-matched",
                ),
            );
        }
        if self.status == TicketStatus::Cancelled {
            return shared::refuse(
                text::cat3(
                    "ticket '", &self.id, "' is cancelled and cannot be re-matched",
                ),
            );
        }
        Ok(())
    }

    /// Pairing invariant: a ticket may be paired with exactly one opponent and
    /// never with the ticket's own player.
    fn ensure_pairing_legal(&self) -> (r: Result<(), DomainError>)
        ensures
            shared::broken(r) == shared::owed(self@.pairing_fault()),
    {
        if let Some(opponent) = &self.opponent {
            if text::same(&opponent, &self.player_id) {
                return shared::refuse(
                    text::cat5(
                        "ticket '", &self.id, "' may never be paired with its own player '",
                        &self.player_id, "'",
                    ),
                );
            }
        }
        Ok(())
    }

    /// Fallback invariant: a ticket must fall back to exhibition after 5 minutes of
    /// unmatched queueing, so it can no longer widen its bands past the deadline.
    fn ensure_within_queue_window(&self, elapsed_seconds: u64) -> (r: Result<(), DomainError>)
        ensures
            shared::broken(r) == shared::owed(self@.window_fault(elapsed_seconds)),
    {
        if elapsed_seconds >= FALLBACK_DEADLINE_SECONDS {
            return shared::refuse(
                text::cat7(
                    "ticket '", &self.id, "' has queued ", &text::show(elapsed_seconds),
                    "s and must fall back to exhibition after ",
                    &text::show(FALLBACK_DEADLINE_SECONDS),
                    "s; its bands can no longer be widened",
                ),
            );
        }
        Ok(())
    }

    /// Monotonic-expansion invariant: bands widen only as the ticket ages, so an
    /// expansion must move strictly forward in elapsed time and never narrow a band
    /// below its current width.
    fn ensure_monotonic_expansion(
        &self,
        elapsed_seconds: u64,
        rating_band: u32,
        level_band: u32,
    ) -> (r: Result<(), DomainError>)
        ensures
            shared::broken(r) == shared::owed(self@.monotony_fault(elapsed_seconds, rating_band, level_band)),
    {
        if elapsed_seconds <= self.last_expanded_at_seconds {
            return shared::refuse(
                text::cat7(
                    "ticket '", &self.id, "' cannot expand at ",
                    &text::show(elapsed_seconds),
                    "s; bands widen monotonically and it last expanded at ",
                    &text::show(self.last_expanded_at_seconds), "s",
                ),
            );
        }
        if rating_band < self.rating_band || level_band < self.level_band {
            return shared::refuse(
                text::cat10(
                    "ticket '", &self.id, "' cannot narrow its search bands from ±",
                    &text::show(self.rating_band as u64), "/±",
                    &text::show(self.level_band as u64), " to ±", &text::show(rating_band as u64),
                    "/±", &text::show(level_band as u64),
                ),
            );
        }
        Ok(())
    }

    /// Handles an expansion: the command must name this ticket and all four
    /// invariants must hold. The bands widen and the expansion clock advances.
    fn expand_search_band(&mut self, cmd: ExpandSearchBand) -> (r: Result<
        Vec<Event>,
        DomainError,
    >)
        ensures
            final(self)@ == old(self)@.expand_search_band(cmd@).0,
            shared::reply(r) == old(self)@.expand_search_band(cmd@).1,
    {
        let (rating_band, level_band): (u32, u32) = widened_bands(cmd.elapsed_seconds);
        if !text::same(&cmd.ticket_id, &self.id) {
            return shared::refuse(
                text::cat5(
                    "command targets ticket '", &cmd.ticket_id, "' but this aggregate records '",
                    &self.id, "'",
                ),
            );
        }
        if let Err(error) = self.ensure_not_settled() {
            return Err(error);
        }
        if let Err(error) = self.ensure_pairing_legal() {
            return Err(error);
        }
        if let Err(error) = self.ensure_within_queue_window(cmd.elapsed_seconds) {
            return Err(error);
        }
        if let Err(error) = self.ensure_monotonic_expansion(
            cmd.elapsed_seconds,
            rating_band,
            level_band,
        ) {
            return Err(error);
        }
        // Apply the widened bands and advance the ticket's expansion clock.
        self.rating_band = rating_band;
        self.level_band = level_band;
        self.last_expanded_at_seconds = cmd.elapsed_seconds;
        let event = Event::SearchBandExpanded(
            SearchBandExpanded {
                ticket_id: cmd.ticket_id,
                rating_band,
                level_band,
                elapsed_seconds: cmd.elapsed_seconds,
            },
        );
        self.root.record(event.clone());
        Ok(shared::only(event))
    }

    /// Carries out a command, or says why it is refused.
    pub fn execute(&mut self, command: Command<Payload<ExpandSearchBand>>) -> (r: Result<
        Vec<Event>,
        DomainError,
    >)
        ensures
            final(self)@ == old(self)@.execute(command@).0,
            shared::reply(r) == old(self)@.execute(command@).1,
    {
        if text::same(&command.name, ExpandSearchBand::COMMAND) {
            match command.payload {
                Payload::Decoded(cmd) => self.expand_search_band(cmd),
                Payload::Malformed(complaint) => {
                    shared::malformed(ExpandSearchBand::COMMAND, &complaint)
                },
            }
        } else {
            Err(DomainError::unknown_command(AGGREGATE_TYPE, command.name))
        }
    }

    /// The player who owns this ticket.
    pub fn player_id(&self) -> (r: &str)
        ensures
            r@ == self@.player_id,
    {
        self.player_id.as_str()
    }

    /// The ticket's current lifecycle status.
    pub fn status(&self) -> (r: TicketStatus)
        ensures
            r == self@.status,
    {
        self.status
    }

    /// The current rating band (±Rating).
    pub fn rating_band(&self) -> (r: u32)
        ensures
            r == self@.rating_band,
    {
        self.rating_band
    }

    /// The current level band (±Level).
    pub fn level_band(&self) -> (r: u32)
        ensures
            r == self@.level_band,
    {
        self.level_band
    }

    /// Sets the player who owns this ticket (an opponent may never be this player).
    pub fn set_player_id(&mut self, player_id: &str)
        ensures
            final(self)@ == (MatchmakingTicketView {
                player_id: player_id@,
                ..old(self)@
            }),
    {
        self.player_id = player_id.to_owned();
    }

    /// Moves the ticket to a settled state (matched or cancelled), after which it
    /// may no longer be re-matched.
    pub fn settle(&mut self, status: TicketStatus)
        ensures
            final(self)@ == (MatchmakingTicketView {
                status: status,
                ..old(self)@
            }),
    {
        self.status = status;
    }

    /// Pairs this ticket with `opponent`. A ticket carries at most one opponent.
    pub fn pair_with(&mut self, opponent: &str)
        ensures
            final(self)@ == (MatchmakingTicketView {
                opponent: Some(opponent@),
                ..old(self)@
            }),
    {
        self.opponent = Some(opponent.to_owned());
    }

    /// Records that the ticket last widened its bands at `elapsed_seconds`, growing
    /// them to `rating_band`/`level_band`.
    pub fn note_last_expansion(&mut self, elapsed_seconds: u64, rating_band: u32, level_band: u32)
        ensures
            final(self)@ == (MatchmakingTicketView {
                last_expanded_at_seconds: elapsed_seconds,
                rating_band: rating_band,
                level_band: level_band,
                ..old(self)@
            }),
    {
        self.last_expanded_at_seconds = elapsed_seconds;
        self.rating_band = rating_band;
        self.level_band = level_band;
    }
}

/// The repository port of the [`MatchmakingTicket`] aggregate: an adapter implements
/// [`Repository`] for it and then this marker.
pub trait MatchmakingTicketRepository: Repository<MatchmakingTicket> {

}

/// More queue time never yields a narrower band.
pub proof fn law_bands_are_monotone(base: u32, step: u32, sooner: u64, later: u64)
    requires
        sooner <= later,
    ensures
        widened(base, step, sooner) <= widened(base, step, later),
{
    let a = sooner / EXPANSION_INTERVAL_SECONDS;
    let b = later / EXPANSION_INTERVAL_SECONDS;
    assert(a <= b) by {
        vstd::arithmetic::div_mod::lemma_div_is_ordered(
            sooner as int,
            later as int,
            EXPANSION_INTERVAL_SECONDS as int,
        );
    }
    assert(a * step <= b * step) by (nonlinear_arith)
        requires
            0 <= a <= b,
            0 <= step,
    ;
}

impl MatchmakingTicketView {
    /// A refused command changes nothing: neither the state nor the events.
    pub proof fn law_refusal_changes_nothing(
        self,
        command: CommandView<PayloadView<ExpandSearchBandView>>,
    )
        ensures
            self.execute(command).1 is Err ==> self.execute(command).0 == self,
    {
    }

    /// An accepted command records exactly the events it answers with, behind
    /// those recorded before.
    pub proof fn law_events_are_recorded(
        self,
        command: CommandView<PayloadView<ExpandSearchBandView>>,
    )
        ensures
            self.execute(command).1 matches Ok(events) ==> {
                &&& events.len() == 1
                &&& self.execute(command).0.events == self.events + events
            },
    {
        if let Ok(events) = self.execute(command).1 {
            assert(self.execute(command).0.events =~= self.events + events);
        }
    }

    /// An expansion never narrows a band, always moves the clock forward, and
    /// never happens past the deadline.
    pub proof fn law_expansion_only_widens(self, cmd: ExpandSearchBandView)
        requires
            self.expand_search_band(cmd).1 is Ok,
        ensures
            ({
                let after = self.expand_search_band(cmd).0;
                &&& self.rating_band <= after.rating_band
                &&& self.level_band <= after.level_band
                &&& self.last_expanded_at_seconds < after.last_expanded_at_seconds
                &&& after.last_expanded_at_seconds < FALLBACK_DEADLINE_SECONDS
            }),
    {
    }

    /// The bands widen exactly where the command names the ticket, which is queued
    /// and not paired with its own player, before the deadline, later than the last
    /// expansion, and to no narrower bands.
    pub proof fn law_expansion_is_owed(self, cmd: ExpandSearchBandView)
        ensures
            self.expand_search_band(cmd).1 is Ok <==> {
                &&& cmd.ticket_id == self.id
                &&& self.status is Queued
                &&& self.opponent != Some(self.player_id)
                &&& self.last_expanded_at_seconds < cmd.elapsed_seconds < FALLBACK_DEADLINE_SECONDS
                &&& self.rating_band <= cmd.rating_band()
                &&& self.level_band <= cmd.level_band()
            },
    {
    }

    /// A settled ticket is final: every expansion of it is refused.
    pub proof fn law_settled_is_final(self, cmd: ExpandSearchBandView)
        requires
            !(self.status is Queued),
        ensures
            self.expand_search_band(cmd).1 is Err,
    {
    }

    /// The state after a sequence of commands, accepted and refused ones alike.
    pub open spec fn after(
        self,
        commands: Seq<CommandView<PayloadView<ExpandSearchBandView>>>,
    ) -> MatchmakingTicketView
        decreases commands.len(),
    {
        if commands.len() == 0 {
            self
        } else {
            self.after(commands.drop_last()).execute(commands.last()).0
        }
    }

    /// No sequence of commands narrows a band or turns the expansion clock back.
    pub proof fn law_bands_only_grow(
        self,
        commands: Seq<CommandView<PayloadView<ExpandSearchBandView>>>,
    )
        ensures
            self.rating_band <= self.after(commands).rating_band,
            self.level_band <= self.after(commands).level_band,
            self.last_expanded_at_seconds <= self.after(commands).last_expanded_at_seconds,
        decreases commands.len(),
    {
        if commands.len() > 0 {
            self.law_bands_only_grow(commands.drop_last());
        }
    }

    /// After an expansion every expansion at the same time or before is refused,
    /// whatever commands came between.
    pub proof fn law_expansion_is_not_repeated(
        self,
        first: ExpandSearchBandView,
        between: Seq<CommandView<PayloadView<ExpandSearchBandView>>>,
        second: ExpandSearchBandView,
    )
        requires
            self.expand_search_band(first).1 is Ok,
            second.elapsed_seconds <= first.elapsed_seconds,
        ensures
            self.expand_search_band(first).0.after(between).expand_search_band(second).1 is Err,
    {
        self.expand_search_band(first).0.law_bands_only_grow(between);
    }

    /// A ticket whose bands are those of its last expansion can expand at every
    /// later time before the deadline.
    pub proof fn law_aging_ticket_expands(self, cmd: ExpandSearchBandView)
        requires
            cmd.ticket_id == self.id,
            self.status is Queued,
            self.opponent != Some(self.player_id),
            self.rating_band == widened(
                BASE_RATING_BAND,
                RATING_STEP,
                self.last_expanded_at_seconds,
            ),
            self.level_band == widened(BASE_LEVEL_BAND, LEVEL_STEP, self.last_expanded_at_seconds),
            self.last_expanded_at_seconds < cmd.elapsed_seconds < FALLBACK_DEADLINE_SECONDS,
        ensures
            self.expand_search_band(cmd).1 is Ok,
    {
        law_bands_are_monotone(
            BASE_RATING_BAND,
            RATING_STEP,
            self.last_expanded_at_seconds,
            cmd.elapsed_seconds,
        );
        law_bands_are_monotone(
            BASE_LEVEL_BAND,
            LEVEL_STEP,
            self.last_expanded_at_seconds,
            cmd.elapsed_seconds,
        );
    }
}

/// A band starts at its base and widens by one step with each interval, up to what
/// a `u32` holds.
pub proof fn law_bands_step(base: u32, step: u32, elapsed_seconds: u64)
    ensures
        elapsed_seconds < 30 ==> widened(base, step, elapsed_seconds) == base,
        elapsed_seconds >= 30 ==> widened(base, step, elapsed_seconds) == ({
            let wider = widened(base, step, (elapsed_seconds - 30) as u64) + step;
            if wider <= u32::MAX {
                wider
            } else {
                u32::MAX as int
            }
        }),
{
    let n = elapsed_seconds / 30;
    if elapsed_seconds >= 30 {
        let m = (elapsed_seconds - 30) as u64 / 30;
        assert(n == m + 1);
        assert(n * step == m * step + step) by (nonlinear_arith)
            requires
                n == m + 1,
        ;
    } else {
        assert(n == 0);
    }
}

impl MatchmakingTicketView {
    /// Every command goes to its own handler, a payload that does not read is
    /// refused with the complaint about it, and a name that is none of these is
    /// unknown; what is refused otherwise is refused for a broken rule.
    pub proof fn law_commands_are_routed(
        self,
        command: CommandView<PayloadView<ExpandSearchBandView>>,
    )
        ensures
            command.name == "ExpandSearchBandCmd"@ ==> match command.payload {
                PayloadView::Decoded(cmd) => self.execute(command)
                    == self.expand_search_band(cmd),
                PayloadView::Malformed(complaint) => self.execute(command).1 == shared::violation::<
                    EventView,
                >("malformed "@ + "ExpandSearchBandCmd"@ + " payload: "@ + complaint),
            },
            command.name != "ExpandSearchBandCmd"@ ==> self.execute(command).1 == Err::<
                Seq<EventView>,
                shared::DomainErrorView,
            >(
                shared::DomainErrorView::UnknownCommand {
                    aggregate: "MatchmakingTicket"@,
                    command: command.name,
                },
            ),
            self.execute(command).1 matches Err(error) ==> (error is InvariantViolation <==> {
                ||| command.name == "ExpandSearchBandCmd"@
            }),
    {
    }

    /// An expansion records the ticket and the queue time that were submitted with
    /// the bands they call for: fifty points of rating and one level beyond the
    /// base with every thirty seconds. The ticket has these bands from then on;
    /// nothing else changes.
    pub proof fn law_expansion_records_the_bands(self, cmd: ExpandSearchBandView)
        requires
            self.expand_search_band(cmd).1 is Ok,
        ensures
            ({
                let after = self.expand_search_band(cmd).0;
                &&& self.expand_search_band(cmd).1 matches Ok(events)
                &&& events.len() == 1
                &&& events[0].event_type() == "search.band.expanded"@
                &&& events[0] matches EventView::SearchBandExpanded(said)
                &&& said.ticket_id == cmd.ticket_id
                &&& said.elapsed_seconds == cmd.elapsed_seconds
                &&& said.rating_band == after.rating_band
                &&& said.level_band == after.level_band
                &&& after.rating_band == 150 + 50 * (cmd.elapsed_seconds / 30)
                &&& after.level_band == 5 + cmd.elapsed_seconds / 30
                &&& after.last_expanded_at_seconds == cmd.elapsed_seconds
                &&& after == (MatchmakingTicketView {
                    rating_band: after.rating_band,
                    level_band: after.level_band,
                    last_expanded_at_seconds: after.last_expanded_at_seconds,
                    events: self.events.push(events[0]),
                    ..self
                })
            }),
    {
    }
}

impl ExpandSearchBand {
    /// The view leaves nothing out: where two views agree, so does every field.
    pub proof fn law_view_leaves_nothing_out(self, other: ExpandSearchBand)
        requires
            self@ == other@,
        ensures
            self.ticket_id@ == other.ticket_id@,
            self.elapsed_seconds == other.elapsed_seconds,
    {
    }
}

impl SearchBandExpanded {
    /// The view leaves nothing out: where two views agree, so does every field.
    pub proof fn law_view_leaves_nothing_out(self, other: SearchBandExpanded)
        requires
            self@ == other@,
        ensures
            self.ticket_id@ == other.ticket_id@,
            self.rating_band == other.rating_band,
            self.level_band == other.level_band,
            self.elapsed_seconds == other.elapsed_seconds,
    {
    }
}

impl Event {
    /// The view leaves nothing out: where two views agree, so do the variants and
    /// what they carry.
    pub proof fn law_view_leaves_nothing_out(self, other: Event)
        requires
            self@ == other@,
        ensures
            match (self, other) {
                (Event::SearchBandExpanded(a), Event::SearchBandExpanded(b)) => a@ == b@,
            },
    {
    }
}

} // verus!
