//! Openable packs of cards.
//!
//! A [`CardPack`] is a single purchasable pack whose contents are rolled from a
//! seeded RNG table and then *revealed* for granting. Three invariants govern
//! whether a pack's contents may be revealed:
//!
//! 1. **Seeded RNG / fixed rarity distribution** — pack contents are drawn from
//!    a seeded RNG table with a fixed rarity distribution.
//! 2. **Opened exactly once** — a pack may be opened exactly once and its
//!    revealed contents are immutable.
//! 3. **Duplicate-protection / pity honored** — duplicate-protection and pity
//!    rules are honored across a player's openings.
use crate::shared;
use crate::shared::AggregateRoot;
use crate::shared::Command;
use crate::shared::CommandView;
use crate::shared::DomainError;
use crate::shared::Payload;
use crate::shared::PayloadView;
use crate::shared::Reply;
use crate::shared::Repository;
use crate::text;
use vstd::prelude::*;

verus! {

/// The name of the aggregate type, as errors show it.
pub const AGGREGATE_TYPE: &'static str = "CardPack";

/// The `RevealPackContentsCmd` payload: which CardPack is being revealed. Field
/// names use the shop service's `camelCase` schema.
#[derive(Debug, PartialEq, Eq)]
pub struct RevealPackContents {
    /// The CardPack whose contents are revealed; must name this CardPack, and must
    /// be non-empty.
    pub pack_id: String,
}

/// What a [`RevealPackContents`] says.
#[verifier::ext_equal]
pub struct RevealPackContentsView {
    pub pack_id: Seq<char>,
}

impl View for RevealPackContents {
    type V = RevealPackContentsView;

    open spec fn view(&self) -> RevealPackContentsView {
        RevealPackContentsView {
            pack_id: self.pack_id@,
        }
    }
}

impl Clone for RevealPackContents {
    fn clone(&self) -> (r: Self)
        ensures
            r@ == self@,
    {
        RevealPackContents {
            pack_id: self.pack_id.clone(),
        }
    }
}

impl RevealPackContents {
    /// The name of the command.
    pub const COMMAND: &'static str = "RevealPackContentsCmd";

    /// Builds a command revealing the contents of `pack_id`.
    pub fn new(pack_id: &str) -> (r: Self)
        ensures
            r@ == (RevealPackContentsView {
                pack_id: pack_id@,
            }),
    {
        RevealPackContents {
            pack_id: pack_id.to_owned(),
        }
    }

    /// This request as a command, ready to be executed.
    pub fn into_command(&self) -> (r: Command<Payload<RevealPackContents>>)
        ensures
            r@ == (CommandView {
                name: Self::COMMAND@,
                payload: PayloadView::Decoded(self@),
            }),
    {
        let request = self.clone();
        Command::with_payload(Self::COMMAND, Payload::Decoded(request))
    }
}

/// The pack whose contents were revealed, carried by
/// [`Event::PackContentsRevealed`] and thus by the emitted
/// `pack.contents.revealed` event.
#[derive(Debug, PartialEq, Eq)]
pub struct PackContentsRevealed {
    /// The CardPack whose contents were revealed.
    pub pack_id: String,
}

/// What a [`PackContentsRevealed`] says.
#[verifier::ext_equal]
pub struct PackContentsRevealedView {
    pub pack_id: Seq<char>,
}

impl View for PackContentsRevealed {
    type V = PackContentsRevealedView;

    open spec fn view(&self) -> PackContentsRevealedView {
        PackContentsRevealedView {
            pack_id: self.pack_id@,
        }
    }
}

impl Clone for PackContentsRevealed {
    fn clone(&self) -> (r: Self)
        ensures
            r@ == self@,
    {
        PackContentsRevealed {
            pack_id: self.pack_id.clone(),
        }
    }
}

/// Domain events emitted by [`CardPack`].
#[derive(Debug, PartialEq, Eq)]
pub enum Event {
    /// The pack's rolled contents were finalized and surfaced for granting.
    PackContentsRevealed(PackContentsRevealed),
}

/// What an [`Event`] says.
#[verifier::ext_equal]
pub enum EventView {
    PackContentsRevealed(PackContentsRevealedView),
}

impl View for Event {
    type V = EventView;

    open spec fn view(&self) -> EventView {
        match self {
            Event::PackContentsRevealed(body) => EventView::PackContentsRevealed(body@),
        }
    }
}

impl Clone for Event {
    fn clone(&self) -> (r: Self)
        ensures
            r@ == self@,
    {
        match self {
            Event::PackContentsRevealed(body) => Event::PackContentsRevealed(body.clone()),
        }
    }
}

impl EventView {
    /// The name under which the event is published.
    pub open spec fn event_type(self) -> Seq<char> {
        match self {
            EventView::PackContentsRevealed(_) => "pack.contents.revealed"@,
        }
    }
}

impl Event {
    /// The name under which the event is published.
    pub fn event_type(&self) -> (r: &'static str)
        ensures
            r@ == self@.event_type(),
    {
        match self {
            Event::PackContentsRevealed(_) => "pack.contents.revealed",
        }
    }
}

/// The CardPack aggregate: one openable pack whose rolled contents are revealed
/// for granting.
///
/// A fresh CardPack from [`CardPack::new`] is revealable: its contents came
/// from the seeded RNG table, it has not been opened, and its roll honors
/// duplicate-protection / pity rules. The configuration methods below drive it
/// to a state a command rejects, exactly as [`Order`](crate::order) is built up
/// before a command validates it.
#[derive(Debug)]
pub struct CardPack {
    id: String,
    root: AggregateRoot<Event>,
    /// Whether the pack contents were drawn from the seeded RNG table with its
    /// fixed rarity distribution. `false` means the roll came from outside that
    /// table (or against a tampered distribution), which is never allowed.
    contents_from_seeded_rng: bool,
    /// Whether the pack has already been opened. A pack may be opened exactly once
    /// and its revealed contents are immutable, so revealing an already-opened pack
    /// is rejected.
    already_opened: bool,
    /// Whether the roll honors duplicate-protection / pity rules across the
    /// player's openings.
    duplicate_protection_honored: bool,
}

/// What a [`CardPack`] says.
#[verifier::ext_equal]
pub struct CardPackView {
    pub id: Seq<char>,
    pub events: Seq<EventView>,
    pub contents_from_seeded_rng: bool,
    pub already_opened: bool,
    pub duplicate_protection_honored: bool,
}

impl View for CardPack {
    type V = CardPackView;

    closed spec fn view(&self) -> CardPackView {
        CardPackView {
            id: self.id@,
            events: self.root@,
            contents_from_seeded_rng: self.contents_from_seeded_rng,
            already_opened: self.already_opened,
            duplicate_protection_honored: self.duplicate_protection_honored,
        }
    }
}

impl CardPackView {
    /// The message where the contents were not drawn from the seeded table.
    pub open spec fn roll_fault(self) -> Option<Seq<char>> {
        if !self.contents_from_seeded_rng {
            Some(
                "card pack '"@ + self.id
                    + "' contents were not drawn from the seeded RNG table; pack contents are drawn from a seeded RNG table with a fixed rarity distribution"@,
            )
        } else {
            None
        }
    }

    /// The message where the pack was opened already.
    pub open spec fn opened_fault(self) -> Option<Seq<char>> {
        if self.already_opened {
            Some(
                "card pack '"@ + self.id
                    + "' has already been opened; a pack may be opened exactly once and its revealed contents are immutable"@,
            )
        } else {
            None
        }
    }

    /// The message where the roll violates the pity rules.
    pub open spec fn pity_fault(self) -> Option<Seq<char>> {
        if !self.duplicate_protection_honored {
            Some(
                "card pack '"@ + self.id
                    + "' roll violates duplicate-protection / pity rules; duplicate-protection / pity rules are honored across a player's openings"@,
            )
        } else {
            None
        }
    }

    /// The message of the first rule that refuses a [`RevealPackContents`], if one does.
    pub open spec fn reveal_pack_contents_fault(
        self,
        cmd: RevealPackContentsView,
    ) -> Option<Seq<char>> {
        if text::is_blank_text(cmd.pack_id) {
            Some("card pack '"@ + self.id + "' requires a valid packId to reveal contents"@)
        } else if cmd.pack_id != self.id {
            Some(
                "command targets card pack '"@ + cmd.pack_id
                    + "' but this aggregate is card pack '"@ + self.id + "'"@,
            )
        } else {
            shared::first(
                self.roll_fault(),
                shared::first(self.opened_fault(), self.pity_fault()),
            )
        }
    }

    /// The state after a [`RevealPackContents`], and the answer to it.
    pub open spec fn reveal_pack_contents(self, cmd: RevealPackContentsView) -> (
        CardPackView,
        Reply<EventView>,
    ) {
        match self.reveal_pack_contents_fault(cmd) {
            Some(message) => (self, shared::violation(message)),
            None => {
                let event = EventView::PackContentsRevealed(PackContentsRevealedView {
                    pack_id: cmd.pack_id,
                });
                (
                    CardPackView {
                        already_opened: true,
                        events: self.events.push(event),
                        ..self
                    },
                    Ok(seq![event]),
                )
            },
        }
    }

    /// The state after a command, and the answer to it.
    pub open spec fn execute(self, command: CommandView<PayloadView<RevealPackContentsView>>) -> (
        CardPackView,
        Reply<EventView>,
    ) {
        if command.name == RevealPackContents::COMMAND@ {
            match command.payload {
                PayloadView::Decoded(cmd) => self.reveal_pack_contents(cmd),
                PayloadView::Malformed(complaint) => (
                    self,
                    shared::malformed_reply(RevealPackContents::COMMAND@, complaint),
                ),
            }
        } else {
            (self, shared::unknown(AGGREGATE_TYPE@, command.name))
        }
    }
}

impl CardPack {
    /// The name of the aggregate type.
    pub fn aggregate_type() -> (r: &'static str)
        ensures
            r@ == AGGREGATE_TYPE@,
    {
        AGGREGATE_TYPE
    }

    /// Creates a revealable pack identified by `id`: its contents came from the
    /// seeded RNG table with its fixed rarity distribution, it has not yet been
    /// opened, and its roll honors duplicate-protection / pity rules.
    pub fn new(id: &str) -> (r: Self)
        ensures
            r@ == (CardPackView {
                id: id@,
                events: Seq::empty(),
                contents_from_seeded_rng: true,
                already_opened: false,
                duplicate_protection_honored: true,
            }),
    {
        CardPack {
            id: id.to_owned(),
            root: AggregateRoot::new(),
            contents_from_seeded_rng: true,
            already_opened: false,
            duplicate_protection_honored: true,
        }
    }

    /// This aggregate's identity.
    pub fn id(&self) -> (r: &str)
        ensures
            r@ == self@.id,
    {
        self.id.as_str()
    }

    /// The version: the number of events recorded.
    pub fn version(&self) -> (r: u64)
        ensures
            r == self@.events.len(),
    {
        self.root.version()
    }

    /// The events recorded and not yet persisted.
    pub fn uncommitted_events(&self) -> (r: &[Event])
        ensures
            shared::views(r@) == self@.events,
    {
        self.root.uncommitted_events()
    }

    /// RNG invariant: pack contents are drawn from a seeded RNG table with a fixed
    /// rarity distribution.
    fn ensure_contents_from_seeded_rng(&self) -> (r: Result<(), DomainError>)
        ensures
            shared::broken(r) == shared::owed(self@.roll_fault()),
    {
        if !self.contents_from_seeded_rng {
            return shared::refuse(
                text::cat3(
                    "card pack '", &self.id,
                    "' contents were not drawn from the seeded RNG table; pack contents are drawn from a seeded RNG table with a fixed rarity distribution",
                ),
            );
        }
        Ok(())
    }

    /// Immutability invariant: a pack may be opened exactly once; revealed contents
    /// are immutable.
    fn ensure_not_already_opened(&self) -> (r: Result<(), DomainError>)
        ensures
            shared::broken(r) == shared::owed(self@.opened_fault()),
    {
        if self.already_opened {
            return shared::refuse(
                text::cat3(
                    "card pack '", &self.id,
                    "' has already been opened; a pack may be opened exactly once and its revealed contents are immutable",
                ),
            );
        }
        Ok(())
    }

    /// Pity invariant: duplicate-protection / pity rules are honored across a
    /// player's openings.
    fn ensure_duplicate_protection_honored(&self) -> (r: Result<(), DomainError>)
        ensures
            shared::broken(r) == shared::owed(self@.pity_fault()),
    {
        if !self.duplicate_protection_honored {
            return shared::refuse(
                text::cat3(
                    "card pack '", &self.id,
                    "' roll violates duplicate-protection / pity rules; duplicate-protection / pity rules are honored across a player's openings",
                ),
            );
        }
        Ok(())
    }

    /// Handles a reveal: the command must carry this pack, and the three invariants
    /// must hold. The pack is marked opened.
    fn reveal_pack_contents(&mut self, cmd: RevealPackContents) -> (r: Result<
        Vec<Event>,
        DomainError,
    >)
        ensures
            final(self)@ == old(self)@.reveal_pack_contents(cmd@).0,
            shared::reply(r) == old(self)@.reveal_pack_contents(cmd@).1,
    {
        if text::is_blank(&cmd.pack_id) {
            return shared::refuse(
                text::cat3(
                    "card pack '", &self.id, "' requires a valid packId to reveal contents",
                ),
            );
        }
        if !text::same(&cmd.pack_id, &self.id) {
            return shared::refuse(
                text::cat5(
                    "command targets card pack '", &cmd.pack_id,
                    "' but this aggregate is card pack '", &self.id, "'",
                ),
            );
        }
        if let Err(error) = self.ensure_contents_from_seeded_rng() {
            return Err(error);
        }
        if let Err(error) = self.ensure_not_already_opened() {
            return Err(error);
        }
        if let Err(error) = self.ensure_duplicate_protection_honored() {
            return Err(error);
        }
        // Revealed contents are immutable: a repeated reveal is rejected.
        self.already_opened = true;
        let event = Event::PackContentsRevealed(
            PackContentsRevealed {
                pack_id: cmd.pack_id,
            },
        );
        self.root.record(event.clone());
        Ok(shared::only(event))
    }

    /// Carries out a command, or says why it is refused.
    pub fn execute(&mut self, command: Command<Payload<RevealPackContents>>) -> (r: Result<
        Vec<Event>,
        DomainError,
    >)
        ensures
            final(self)@ == old(self)@.execute(command@).0,
            shared::reply(r) == old(self)@.execute(command@).1,
    {
        if text::same(&command.name, RevealPackContents::COMMAND) {
            match command.payload {
                Payload::Decoded(cmd) => self.reveal_pack_contents(cmd),
                Payload::Malformed(complaint) => {
                    shared::malformed(RevealPackContents::COMMAND, &complaint)
                },
            }
        } else {
            Err(DomainError::unknown_command(AGGREGATE_TYPE, command.name))
        }
    }

    /// Records whether the pack contents were drawn from the seeded RNG table with
    /// its fixed rarity distribution (`false` models a roll made outside that
    /// table).
    pub fn set_contents_from_seeded_rng(&mut self, ok: bool)
        ensures
            final(self)@ == (CardPackView {
                contents_from_seeded_rng: ok,
                ..old(self)@
            }),
    {
        self.contents_from_seeded_rng = ok;
    }

    /// Records whether the pack has already been opened.
    pub fn set_already_opened(&mut self, opened: bool)
        ensures
            final(self)@ == (CardPackView {
                already_opened: opened,
                ..old(self)@
            }),
    {
        self.already_opened = opened;
    }

    /// Records whether the roll honors duplicate-protection / pity rules.
    pub fn set_duplicate_protection_honored(&mut self, ok: bool)
        ensures
            final(self)@ == (CardPackView {
                duplicate_protection_honored: ok,
                ..old(self)@
            }),
    {
        self.duplicate_protection_honored = ok;
    }
}

/// The repository port of the [`CardPack`] aggregate: an adapter implements
/// [`Repository`] for it and then this marker.
pub trait CardPackRepository: Repository<CardPack> {

}

impl CardPackView {
    /// A refused command changes nothing: neither the state nor the events.
    pub proof fn law_refusal_changes_nothing(
        self,
        command: CommandView<PayloadView<RevealPackContentsView>>,
    )
        ensures
            self.execute(command).1 is Err ==> self.execute(command).0 == self,
    {
    }

    /// An accepted command records exactly the events it answers with, behind
    /// those recorded before.
    pub proof fn law_events_are_recorded(
        self,
        command: CommandView<PayloadView<RevealPackContentsView>>,
    )
        ensures
            self.execute(command).1 matches Ok(events) ==> {
                &&& events.len() == 1
                &&& self.execute(command).0.events == self.events + events
            },
    {
        if let Ok(events) = self.execute(command).1 {
            assert(self.execute(command).0.events =~= self.events + events);
        }
    }

    /// The state after a sequence of commands, accepted and refused ones alike.
    pub open spec fn after(
        self,
        commands: Seq<CommandView<PayloadView<RevealPackContentsView>>>,
    ) -> CardPackView
        decreases commands.len(),
    {
        if commands.len() == 0 {
            self
        } else {
            self.after(commands.drop_last()).execute(commands.last()).0
        }
    }

    /// An opened pack stays as it is: no command changes it, and every reveal of it
    /// is refused.
    pub proof fn law_opened_is_immutable(
        self,
        command: CommandView<PayloadView<RevealPackContentsView>>,
        reveal: RevealPackContentsView,
    )
        requires
            self.already_opened,
        ensures
            self.execute(command).0 == self,
            self.reveal_pack_contents(reveal).1 is Err,
    {
    }

    /// No sequence of commands changes an opened pack.
    pub proof fn law_opened_stays_immutable(
        self,
        commands: Seq<CommandView<PayloadView<RevealPackContentsView>>>,
    )
        requires
            self.already_opened,
        ensures
            self.after(commands) == self,
        decreases commands.len(),
    {
        if commands.len() > 0 {
            self.law_opened_stays_immutable(commands.drop_last());
        }
    }

    /// A pack is opened exactly once: after an accepted reveal every further one is
    /// refused, whatever commands came between.
    pub proof fn law_opened_once(
        self,
        first: RevealPackContentsView,
        between: Seq<CommandView<PayloadView<RevealPackContentsView>>>,
        second: RevealPackContentsView,
    )
        requires
            self.reveal_pack_contents(first).1 is Ok,
        ensures
            self.reveal_pack_contents(first).0.already_opened,
            self.reveal_pack_contents(first).0.after(between).reveal_pack_contents(second).1 is Err,
    {
        self.reveal_pack_contents(first).0.law_opened_stays_immutable(between);
    }

    /// A pack is revealed exactly where it is the one named, was rolled from the
    /// seeded table, honors the pity rules and has not been opened.
    pub proof fn law_reveal_is_owed(self, cmd: RevealPackContentsView)
        ensures
            self.reveal_pack_contents(cmd).1 is Ok <==> {
                &&& cmd.pack_id == self.id
                &&& !text::is_blank_text(cmd.pack_id)
                &&& self.contents_from_seeded_rng
                &&& !self.already_opened
                &&& self.duplicate_protection_honored
            },
    {
    }
}

impl CardPackView {
    /// Every command goes to its own handler, a payload that does not read is
    /// refused with the complaint about it, and a name that is none of these is
    /// unknown; what is refused otherwise is refused for a broken rule.
    pub proof fn law_commands_are_routed(
        self,
        command: CommandView<PayloadView<RevealPackContentsView>>,
    )
        ensures
            command.name == "RevealPackContentsCmd"@ ==> match command.payload {
                PayloadView::Decoded(cmd) => self.execute(command)
                    == self.reveal_pack_contents(cmd),
                PayloadView::Malformed(complaint) => self.execute(command).1 == shared::violation::<
                    EventView,
                >("malformed "@ + "RevealPackContentsCmd"@ + " payload: "@ + complaint),
            },
            command.name != "RevealPackContentsCmd"@ ==> self.execute(command).1 == Err::<
                Seq<EventView>,
                shared::DomainErrorView,
            >(
                shared::DomainErrorView::UnknownCommand {
                    aggregate: "CardPack"@,
                    command: command.name,
                },
            ),
            self.execute(command).1 matches Err(error) ==> (error is InvariantViolation <==> {
                ||| command.name == "RevealPackContentsCmd"@
            }),
    {
    }

    /// A reveal records the pack that was named and opens it; nothing else changes.
    pub proof fn law_reveal_records_the_pack(self, cmd: RevealPackContentsView)
        requires
            self.reveal_pack_contents(cmd).1 is Ok,
        ensures
            ({
                let after = self.reveal_pack_contents(cmd).0;
                &&& self.reveal_pack_contents(cmd).1 matches Ok(events)
                &&& events.len() == 1
                &&& events[0].event_type() == "pack.contents.revealed"@
                &&& events[0] matches EventView::PackContentsRevealed(said)
                &&& said.pack_id == cmd.pack_id
                &&& after.already_opened
                &&& after == (CardPackView {
                    already_opened: after.already_opened,
                    events: self.events.push(events[0]),
                    ..self
                })
            }),
    {
    }
}

impl RevealPackContents {
    /// The view leaves nothing out: where two views agree, so does every field.
    pub proof fn law_view_leaves_nothing_out(self, other: RevealPackContents)
        requires
            self@ == other@,
        ensures
            self.pack_id@ == other.pack_id@,
    {
    }
}

impl PackContentsRevealed {
    /// The view leaves nothing out: where two views agree, so does every field.
    pub proof fn law_view_leaves_nothing_out(self, other: PackContentsRevealed)
        requires
            self@ == other@,
        ensures
            self.pack_id@ == other.pack_id@,
    {
    }
}

impl Event {
    /// The view leaves nothing out: where two views agree, so do the variants and
    /// what they carry.
    pub proof fn law_view_leaves_nothing_out(self, other: Event)
        requires
            self@ == other@,
        ensures
            match (self, other) {
                (Event::PackContentsRevealed(a), Event::PackContentsRevealed(b)) => a@ == b@,
            },
    {
    }
}

} // verus!
