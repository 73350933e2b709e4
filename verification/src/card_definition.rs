//! The catalog of playable card definitions.
//!
//! Three commands write to it: [`DefineCardCmd`] catalogs a new card,
//! [`ReviseCardCmd`] amends an existing card's definition (balance/text), and
//! [`DeprecateCardCmd`] retires a card from legal construction going forward.
//! Each has its raw fields read into value objects and held to the catalog
//! invariants by [`validate_card_fields`]. Definition, revision, and deprecation
//! run the *same* invariants, so neither an amendment nor a retirement can be
//! recorded against a card that would sit in an illegal state.
use crate::shared;
use crate::shared::AggregateRoot;
use crate::shared::Command;
use crate::shared::CommandView;
use crate::shared::DomainError;
use crate::shared::DomainErrorView;
use crate::shared::Payload;
use crate::shared::PayloadView;
use crate::shared::Reply;
use crate::shared::Repository;
use crate::shared::OTHER_COMMAND;
use crate::text;
use vstd::prelude::*;
use vstd::string::StrSliceExecFns;

verus! {

/// The name of the aggregate type, as errors show it.
pub const AGGREGATE_TYPE: &'static str = "CardDefinition";

/// Effect-script references the game engine has registered. A card's effect
/// script must resolve to one of these for the definition to be accepted.
pub const REGISTERED_EFFECTS: [&'static str; 7] = [
    "effect.noop",
    "effect.deal_damage",
    "effect.draw_card",
    "effect.gain_juice",
    "effect.steal_piece",
    "effect.recruit_operator",
    "effect.pull_heist",
];

/// Whether an effect-script reference is registered.
pub open spec fn is_registered(effect: Seq<char>) -> bool {
    exists|i: int| 0 <= i < REGISTERED_EFFECTS@.len() && effect == #[trigger] REGISTERED_EFFECTS@[i]@
}

/// Tells whether an effect-script reference is registered.
fn is_registered_effect(effect: &str) -> (r: bool)
    ensures
        r == is_registered(effect@),
{
    let known = REGISTERED_EFFECTS;
    let mut i: usize = 0;
    while i < known.len()
        invariant
            known == REGISTERED_EFFECTS,
            i <= known@.len(),
            forall|k: int| 0 <= k < i ==> effect@ != #[trigger] known@[k]@,
        decreases known@.len() - i,
    {
        if text::same(effect, known[i]) {
            assert(effect@ == known@[i as int]@);
            return true;
        }
        i += 1;
    }
    false
}

/// The five card types every card is exactly one of.
#[derive(Debug, Clone, Copy, PartialEq, Eq, Structural)]
pub enum CardType {
    Operator,
    Job,
    Piece,
    Vehicle,
    Heist,
}

impl CardType {
    /// The canonical name.
    pub open spec fn name_text(self) -> Seq<char> {
        match self {
            CardType::Operator => "Operator"@,
            CardType::Job => "Job"@,
            CardType::Piece => "Piece"@,
            CardType::Vehicle => "Vehicle"@,
            CardType::Heist => "Heist"@,
        }
    }

    /// The canonical name.
    pub fn as_str(self) -> (r: &'static str)
        ensures
            r@ == self.name_text(),
    {
        match self {
            CardType::Operator => "Operator",
            CardType::Job => "Job",
            CardType::Piece => "Piece",
            CardType::Vehicle => "Vehicle",
            CardType::Heist => "Heist",
        }
    }
}

impl CardType {
    /// The type of this name, if there is one.
    pub open spec fn named(raw: Seq<char>) -> Option<CardType> {
        if raw == "Operator"@ {
            Some(CardType::Operator)
        } else if raw == "Job"@ {
            Some(CardType::Job)
        } else if raw == "Piece"@ {
            Some(CardType::Piece)
        } else if raw == "Vehicle"@ {
            Some(CardType::Vehicle)
        } else if raw == "Heist"@ {
            Some(CardType::Heist)
        } else {
            None
        }
    }

    /// The message for a name that is no type's.
    pub open spec fn unknown_text(raw: Seq<char>) -> Seq<char> {
        "card type must be exactly one of Operator, Job, Piece, Vehicle, or Heist; got '"@ + raw
            + "'"@
    }

    /// Reads a type name, rejecting anything outside the five legal types: every
    /// card is exactly one of Operator, Job, Piece, Vehicle, or Heist.
    pub fn parse(raw: &str) -> (r: Result<Self, DomainError>)
        ensures
            match r {
                Ok(found) => Self::named(raw@) == Some(found),
                Err(error) => Self::named(raw@) is None && error@ == DomainErrorView::InvariantViolation(
                    Self::unknown_text(raw@),
                ),
            },
    {
        if text::same(raw, "Operator") {
            Ok(CardType::Operator)
        } else if text::same(raw, "Job") {
            Ok(CardType::Job)
        } else if text::same(raw, "Piece") {
            Ok(CardType::Piece)
        } else if text::same(raw, "Vehicle") {
            Ok(CardType::Vehicle)
        } else if text::same(raw, "Heist") {
            Ok(CardType::Heist)
        } else {
            shared::refuse(
                text::cat3(
                    "card type must be exactly one of Operator, Job, Piece, Vehicle, or Heist; got '",
                    raw, "'",
                ),
            )
        }
    }

    /// The least Juice cost legal for this card type.
    pub open spec fn least_cost(self) -> i64 {
        match self {
            CardType::Operator => 1,
            CardType::Job => 0,
            CardType::Piece => 0,
            CardType::Vehicle => 2,
            CardType::Heist => 3,
        }
    }

    /// The greatest Juice cost legal for this card type.
    pub open spec fn greatest_cost(self) -> i64 {
        match self {
            CardType::Operator => 8,
            CardType::Job => 6,
            CardType::Piece => 5,
            CardType::Vehicle => 9,
            CardType::Heist => 12,
        }
    }

    /// The inclusive `[min, max]` Juice cost range legal for this card type.
    pub fn legal_cost_range(self) -> (r: (i64, i64))
        ensures
            r == (self.least_cost(), self.greatest_cost()),
    {
        match self {
            CardType::Operator => (1, 8),
            CardType::Job => (0, 6),
            CardType::Piece => (0, 5),
            CardType::Vehicle => (2, 9),
            CardType::Heist => (3, 12),
        }
    }
}

/// A card's class allegiance. A card belongs to exactly one class, or is
/// [`CardClass::Neutral`].
#[derive(Debug, Clone, Copy, PartialEq, Eq, Structural)]
pub enum CardClass {
    Neutral,
    Boss,
    Muscle,
    Grifter,
    Hacker,
    Driver,
    Cleaner,
}

impl CardClass {
    /// The canonical name.
    pub open spec fn name_text(self) -> Seq<char> {
        match self {
            CardClass::Neutral => "Neutral"@,
            CardClass::Boss => "Boss"@,
            CardClass::Muscle => "Muscle"@,
            CardClass::Grifter => "Grifter"@,
            CardClass::Hacker => "Hacker"@,
            CardClass::Driver => "Driver"@,
            CardClass::Cleaner => "Cleaner"@,
        }
    }

    /// The canonical name.
    pub fn as_str(self) -> (r: &'static str)
        ensures
            r@ == self.name_text(),
    {
        match self {
            CardClass::Neutral => "Neutral",
            CardClass::Boss => "Boss",
            CardClass::Muscle => "Muscle",
            CardClass::Grifter => "Grifter",
            CardClass::Hacker => "Hacker",
            CardClass::Driver => "Driver",
            CardClass::Cleaner => "Cleaner",
        }
    }
}

/// Whether a character separates the names of several classes.
pub open spec fn is_separator(c: char) -> bool {
    c == '/' || c == ',' || c == '+' || c == '&'
}

/// The pieces of a text between its separators, blank ones included.
pub open spec fn pieces(s: Seq<char>) -> Seq<Seq<char>>
    decreases s.len(),
{
    if s.len() == 0 {
        seq![Seq::empty()]
    } else {
        let before = pieces(s.drop_last());
        if is_separator(s.last()) {
            before.push(Seq::empty())
        } else {
            before.drop_last().push(before.last().push(s.last()))
        }
    }
}

/// The texts of a sequence that are not blank, trimmed.
pub open spec fn trimmed_tokens(s: Seq<Seq<char>>) -> Seq<Seq<char>>
    decreases s.len(),
{
    if s.len() == 0 {
        Seq::empty()
    } else {
        let before = trimmed_tokens(s.drop_last());
        let token = text::trimmed(s.last());
        if token.len() == 0 {
            before
        } else {
            before.push(token)
        }
    }
}

/// The class names that a raw class field holds.
pub open spec fn class_tokens(raw: Seq<char>) -> Seq<Seq<char>> {
    trimmed_tokens(pieces(raw))
}

impl CardClass {
    /// The class of this name, if there is one.
    pub open spec fn named(raw: Seq<char>) -> Option<CardClass> {
        if raw == "Neutral"@ {
            Some(CardClass::Neutral)
        } else if raw == "Boss"@ {
            Some(CardClass::Boss)
        } else if raw == "Muscle"@ {
            Some(CardClass::Muscle)
        } else if raw == "Grifter"@ {
            Some(CardClass::Grifter)
        } else if raw == "Hacker"@ {
            Some(CardClass::Hacker)
        } else if raw == "Driver"@ {
            Some(CardClass::Driver)
        } else if raw == "Cleaner"@ {
            Some(CardClass::Cleaner)
        } else {
            None
        }
    }

    /// The class that a raw field names: its one token is a class's name.
    pub open spec fn read(raw: Seq<char>) -> Option<CardClass> {
        if class_tokens(raw).len() == 1 {
            CardClass::named(class_tokens(raw)[0])
        } else {
            None
        }
    }

    /// The message for a raw field that names no class, or several.
    pub open spec fn unread_text(raw: Seq<char>) -> Seq<char> {
        if class_tokens(raw).len() == 0 {
            "a card must declare exactly one class or Neutral; none was provided"@
        } else if class_tokens(raw).len() == 1 {
            "unknown card class '"@ + class_tokens(raw)[0]
                + "'; a card must name one known class or Neutral"@
        } else {
            "a card belongs to exactly one class or is Neutral; no card may claim two classes; got '"@
                + raw + "'"@
        }
    }

    /// Reads the raw class field as exactly one class: a card belongs to exactly
    /// one class or is Neutral; no card may claim two classes. The raw value is
    /// tokenized on the separators a caller might use to name multiple classes
    /// (`/ , + &`); more than one token is rejected outright, and the single token
    /// must name a known class.
    pub fn parse(raw: &str) -> (r: Result<Self, DomainError>)
        ensures
            match r {
                Ok(found) => Self::read(raw@) == Some(found),
                Err(error) => Self::read(raw@) is None && error@
                    == DomainErrorView::InvariantViolation(Self::unread_text(raw@)),
            },
    {
        let tokens = split_class_tokens(raw);
        if tokens.len() == 0 {
            shared::refuse(
                "a card must declare exactly one class or Neutral; none was provided".to_owned(),
            )
        } else if tokens.len() == 1 {
            assert(text::texts(tokens@)[0] == tokens@[0]@);
            Self::parse_single(tokens[0].as_str())
        } else {
            shared::refuse(
                text::cat3(
                    "a card belongs to exactly one class or is Neutral; no card may claim two classes; got '",
                    raw, "'",
                ),
            )
        }
    }

    /// Reads the name of one class.
    fn parse_single(raw: &str) -> (r: Result<Self, DomainError>)
        ensures
            match r {
                Ok(found) => Self::named(raw@) == Some(found),
                Err(error) => Self::named(raw@) is None && error@ == DomainErrorView::InvariantViolation(
                    "unknown card class '"@ + raw@ + "'; a card must name one known class or Neutral"@,
                ),
            },
    {
        if text::same(raw, "Neutral") {
            Ok(CardClass::Neutral)
        } else if text::same(raw, "Boss") {
            Ok(CardClass::Boss)
        } else if text::same(raw, "Muscle") {
            Ok(CardClass::Muscle)
        } else if text::same(raw, "Grifter") {
            Ok(CardClass::Grifter)
        } else if text::same(raw, "Hacker") {
            Ok(CardClass::Hacker)
        } else if text::same(raw, "Driver") {
            Ok(CardClass::Driver)
        } else if text::same(raw, "Cleaner") {
            Ok(CardClass::Cleaner)
        } else {
            shared::refuse(
                text::cat3(
                    "unknown card class '", raw, "'; a card must name one known class or Neutral",
                ),
            )
        }
    }
}

/// Splits a raw class field into the class names it holds.
fn split_class_tokens(raw: &str) -> (r: Vec<String>)
    ensures
        text::texts(r@) == class_tokens(raw@),
{
    let chars: Vec<char> = text::chars_of(raw);
    let mut tokens: Vec<String> = Vec::new();
    let ghost mut done: Seq<Seq<char>> = Seq::empty();
    let mut start: usize = 0;
    let mut i: usize = 0;
    proof {
        assert(raw@.take(0) =~= Seq::<char>::empty());
        assert(pieces(raw@.take(0)) =~= done.push(raw@.subrange(0, 0)));
        assert(text::texts(tokens@) =~= trimmed_tokens(done));
    }
    while i < chars.len()
        invariant
            chars@ == raw@,
            start <= i <= chars@.len(),
            pieces(raw@.take(i as int)) == done.push(raw@.subrange(start as int, i as int)),
            text::texts(tokens@) == trimmed_tokens(done),
        decreases chars@.len() - i,
    {
        let c: char = chars[i];
        proof {
            let next = raw@.take(i + 1);
            assert(next.drop_last() =~= raw@.take(i as int));
            assert(next.last() == c);
            let before = pieces(raw@.take(i as int));
            assert(before.drop_last() =~= done);
            assert(raw@.subrange(start as int, i + 1) =~= raw@.subrange(
                start as int,
                i as int,
            ).push(c));
            assert(raw@.subrange(i + 1, i + 1) =~= Seq::<char>::empty());
        }
        if c == '/' || c == ',' || c == '+' || c == '&' {
            push_token(&mut tokens, raw.substring_char(start, i), Ghost(done));
            proof {
                done = done.push(raw@.subrange(start as int, i as int));
            }
            start = i + 1;
        }
        i += 1;
    }
    assert(raw@.take(i as int) =~= raw@);
    push_token(&mut tokens, raw.substring_char(start, i), Ghost(done));
    tokens
}

/// Appends a piece to the tokens of the pieces before it, unless it is blank.
fn push_token(tokens: &mut Vec<String>, piece: &str, Ghost(done): Ghost<Seq<Seq<char>>>)
    requires
        text::texts(old(tokens)@) == trimmed_tokens(done),
    ensures
        text::texts(final(tokens)@) == trimmed_tokens(done.push(piece@)),
{
    let token = text::trim(piece);
    assert(done.push(piece@).drop_last() =~= done);
    if token.is_empty() {
        return;
    }
    tokens.push(token.to_owned());
    assert(text::texts(tokens@) =~= text::texts(old(tokens)@).push(token@));
}

/// Card rarity. [`Rarity::Legendary`] carries a per-Outfit copy cap of 1.
#[derive(Debug, Clone, Copy, PartialEq, Eq, Structural)]
pub enum Rarity {
    Common,
    Uncommon,
    Rare,
    Epic,
    Legendary,
}

impl Rarity {
    /// The canonical name.
    pub open spec fn name_text(self) -> Seq<char> {
        match self {
            Rarity::Common => "Common"@,
            Rarity::Uncommon => "Uncommon"@,
            Rarity::Rare => "Rare"@,
            Rarity::Epic => "Epic"@,
            Rarity::Legendary => "Legendary"@,
        }
    }

    /// The canonical name.
    pub fn as_str(self) -> (r: &'static str)
        ensures
            r@ == self.name_text(),
    {
        match self {
            Rarity::Common => "Common",
            Rarity::Uncommon => "Uncommon",
            Rarity::Rare => "Rare",
            Rarity::Epic => "Epic",
            Rarity::Legendary => "Legendary",
        }
    }
}

impl Rarity {
    /// The rarity of this name, if there is one.
    pub open spec fn named(raw: Seq<char>) -> Option<Rarity> {
        if raw == "Common"@ {
            Some(Rarity::Common)
        } else if raw == "Uncommon"@ {
            Some(Rarity::Uncommon)
        } else if raw == "Rare"@ {
            Some(Rarity::Rare)
        } else if raw == "Epic"@ {
            Some(Rarity::Epic)
        } else if raw == "Legendary"@ {
            Some(Rarity::Legendary)
        } else {
            None
        }
    }

    /// Reads the name of a rarity.
    pub fn parse(raw: &str) -> (r: Result<Self, DomainError>)
        ensures
            match r {
                Ok(found) => Self::named(raw@) == Some(found),
                Err(error) => Self::named(raw@) is None && error@ == DomainErrorView::InvariantViolation(
                    "unknown rarity '"@ + raw@ + "'"@,
                ),
            },
    {
        if text::same(raw, "Common") {
            Ok(Rarity::Common)
        } else if text::same(raw, "Uncommon") {
            Ok(Rarity::Uncommon)
        } else if text::same(raw, "Rare") {
            Ok(Rarity::Rare)
        } else if text::same(raw, "Epic") {
            Ok(Rarity::Epic)
        } else if text::same(raw, "Legendary") {
            Ok(Rarity::Legendary)
        } else {
            shared::refuse(text::cat3("unknown rarity '", raw, "'"))
        }
    }
}

/// The `DefineCardCmd` payload: a proposed card definition in its raw, as-
/// submitted form.
#[derive(Debug, PartialEq, Eq)]
pub struct DefineCardCmd {
    /// Identity the card is cataloged under.
    pub card_id: String,
    /// Human-readable card name.
    pub name: String,
    /// Juice cost. Must fall within the legal range for the card's type.
    pub cost: i64,
    /// Class allegiance (one class, or `Neutral`).
    pub class: String,
    /// One of the five card types.
    pub card_type: String,
    /// Card rarity.
    pub rarity: String,
    /// Keyword tags on the card.
    pub keywords: Vec<String>,
    /// Reference to the effect script the card runs; must be registered.
    pub effect_script_ref: String,
    /// Per-Outfit copy cap declared on the definition. Required to be `1` for
    /// [`Rarity::Legendary`]; defaults to `0` when omitted.
    pub copy_cap: u32,
}

/// What a [`DefineCardCmd`] says.
#[verifier::ext_equal]
pub struct DefineCardCmdView {
    pub card_id: Seq<char>,
    pub name: Seq<char>,
    pub cost: i64,
    pub class: Seq<char>,
    pub card_type: Seq<char>,
    pub rarity: Seq<char>,
    pub keywords: Seq<Seq<char>>,
    pub effect_script_ref: Seq<char>,
    pub copy_cap: u32,
}

impl View for DefineCardCmd {
    type V = DefineCardCmdView;

    open spec fn view(&self) -> DefineCardCmdView {
        DefineCardCmdView {
            card_id: self.card_id@,
            name: self.name@,
            cost: self.cost,
            class: self.class@,
            card_type: self.card_type@,
            rarity: self.rarity@,
            keywords: text::texts(self.keywords@),
            effect_script_ref: self.effect_script_ref@,
            copy_cap: self.copy_cap,
        }
    }
}

impl Clone for DefineCardCmd {
    fn clone(&self) -> (r: Self)
        ensures
            r@ == self@,
    {
        DefineCardCmd {
            card_id: self.card_id.clone(),
            name: self.name.clone(),
            cost: self.cost,
            class: self.class.clone(),
            card_type: self.card_type.clone(),
            rarity: self.rarity.clone(),
            keywords: text::copy_all(&self.keywords),
            effect_script_ref: self.effect_script_ref.clone(),
            copy_cap: self.copy_cap,
        }
    }
}

impl DefineCardCmd {
    /// The name of the command.
    pub const COMMAND: &'static str = "DefineCardCmd";

    /// This request as a command, ready to be executed.
    pub fn into_command(&self) -> (r: Command<Payload<Request>>)
        ensures
            r@ == (CommandView {
                name: Self::COMMAND@,
                payload: PayloadView::Decoded(RequestView::DefineCardCmd(self@)),
            }),
    {
        let request = Request::DefineCardCmd(self.clone());
        Command::with_payload(Self::COMMAND, Payload::Decoded(request))
    }
}

/// The `ReviseCardCmd` payload: the complete amended definition for a card that
/// already exists in the catalog. A revision (balance or text changes) submits
/// the full revised card rather than a partial patch — the aggregate keeps no
/// prior field state to merge against — and the whole definition is re-
/// validated against the catalog schema before a `card.revised` event is
/// emitted.
///
/// Field shape mirrors [`DefineCardCmd`] so the same value objects and the same
/// [`validate_card_fields`] invariants apply to an amendment as to a
/// definition.
#[derive(Debug, PartialEq, Eq)]
pub struct ReviseCardCmd {
    /// Identity of the existing card being revised.
    pub card_id: String,
    /// Revised human-readable card name.
    pub name: String,
    /// Revised Juice cost. Must fall within the legal range for the card's type.
    pub cost: i64,
    /// Revised class allegiance (one class, or `Neutral`).
    pub class: String,
    /// Revised card type; one of the five legal types.
    pub card_type: String,
    /// Revised rarity.
    pub rarity: String,
    /// Revised keyword tags on the card.
    pub keywords: Vec<String>,
    /// Revised effect-script reference; must resolve to a registered effect.
    pub effect_script_ref: String,
    /// Per-Outfit copy cap declared on the revised definition. Required to be `1`
    /// for [`Rarity::Legendary`]; defaults to `0` when omitted.
    pub copy_cap: u32,
}

/// What a [`ReviseCardCmd`] says.
#[verifier::ext_equal]
pub struct ReviseCardCmdView {
    pub card_id: Seq<char>,
    pub name: Seq<char>,
    pub cost: i64,
    pub class: Seq<char>,
    pub card_type: Seq<char>,
    pub rarity: Seq<char>,
    pub keywords: Seq<Seq<char>>,
    pub effect_script_ref: Seq<char>,
    pub copy_cap: u32,
}

impl View for ReviseCardCmd {
    type V = ReviseCardCmdView;

    open spec fn view(&self) -> ReviseCardCmdView {
        ReviseCardCmdView {
            card_id: self.card_id@,
            name: self.name@,
            cost: self.cost,
            class: self.class@,
            card_type: self.card_type@,
            rarity: self.rarity@,
            keywords: text::texts(self.keywords@),
            effect_script_ref: self.effect_script_ref@,
            copy_cap: self.copy_cap,
        }
    }
}

impl Clone for ReviseCardCmd {
    fn clone(&self) -> (r: Self)
        ensures
            r@ == self@,
    {
        ReviseCardCmd {
            card_id: self.card_id.clone(),
            name: self.name.clone(),
            cost: self.cost,
            class: self.class.clone(),
            card_type: self.card_type.clone(),
            rarity: self.rarity.clone(),
            keywords: text::copy_all(&self.keywords),
            effect_script_ref: self.effect_script_ref.clone(),
            copy_cap: self.copy_cap,
        }
    }
}

impl ReviseCardCmd {
    /// The name of the command.
    pub const COMMAND: &'static str = "ReviseCardCmd";

    /// This request as a command, ready to be executed.
    pub fn into_command(&self) -> (r: Command<Payload<Request>>)
        ensures
            r@ == (CommandView {
                name: Self::COMMAND@,
                payload: PayloadView::Decoded(RequestView::ReviseCardCmd(self@)),
            }),
    {
        let request = Request::ReviseCardCmd(self.clone());
        Command::with_payload(Self::COMMAND, Payload::Decoded(request))
    }
}

/// The `DeprecateCardCmd` payload: retires a card from legal construction going
/// forward, together with the `reason` for the retirement.
///
/// Like [`ReviseCardCmd`], the command submits the full card definition rather
/// than just an identity — the aggregate keeps no prior field state to check
/// against, so the card's current definition travels with the command and is
/// re-validated against the catalog schema before a `card.deprecated` event is
/// emitted. Deprecating a card whose definition would not itself be legal is
/// rejected: retirement must reference a card that is well-formed to begin
/// with.
///
/// Field shape mirrors [`ReviseCardCmd`] (so the same value objects and the
/// same [`validate_card_fields`] invariants apply) plus the mandatory `reason`.
#[derive(Debug, PartialEq, Eq)]
pub struct DeprecateCardCmd {
    /// Identity of the existing card being retired.
    pub card_id: String,
    /// Why the card is being retired; must be non-empty.
    pub reason: String,
    /// Current human-readable card name.
    pub name: String,
    /// Current Juice cost. Must fall within the legal range for the card's type.
    pub cost: i64,
    /// Current class allegiance (one class, or `Neutral`).
    pub class: String,
    /// Current card type; one of the five legal types.
    pub card_type: String,
    /// Current rarity.
    pub rarity: String,
    /// Current keyword tags on the card.
    pub keywords: Vec<String>,
    /// Current effect-script reference; must resolve to a registered effect.
    pub effect_script_ref: String,
    /// Per-Outfit copy cap declared on the definition. Required to be `1` for
    /// [`Rarity::Legendary`]; defaults to `0` when omitted.
    pub copy_cap: u32,
}

/// What a [`DeprecateCardCmd`] says.
#[verifier::ext_equal]
pub struct DeprecateCardCmdView {
    pub card_id: Seq<char>,
    pub reason: Seq<char>,
    pub name: Seq<char>,
    pub cost: i64,
    pub class: Seq<char>,
    pub card_type: Seq<char>,
    pub rarity: Seq<char>,
    pub keywords: Seq<Seq<char>>,
    pub effect_script_ref: Seq<char>,
    pub copy_cap: u32,
}

impl View for DeprecateCardCmd {
    type V = DeprecateCardCmdView;

    open spec fn view(&self) -> DeprecateCardCmdView {
        DeprecateCardCmdView {
            card_id: self.card_id@,
            reason: self.reason@,
            name: self.name@,
            cost: self.cost,
            class: self.class@,
            card_type: self.card_type@,
            rarity: self.rarity@,
            keywords: text::texts(self.keywords@),
            effect_script_ref: self.effect_script_ref@,
            copy_cap: self.copy_cap,
        }
    }
}

impl Clone for DeprecateCardCmd {
    fn clone(&self) -> (r: Self)
        ensures
            r@ == self@,
    {
        DeprecateCardCmd {
            card_id: self.card_id.clone(),
            reason: self.reason.clone(),
            name: self.name.clone(),
            cost: self.cost,
            class: self.class.clone(),
            card_type: self.card_type.clone(),
            rarity: self.rarity.clone(),
            keywords: text::copy_all(&self.keywords),
            effect_script_ref: self.effect_script_ref.clone(),
            copy_cap: self.copy_cap,
        }
    }
}

impl DeprecateCardCmd {
    /// The name of the command.
    pub const COMMAND: &'static str = "DeprecateCardCmd";

    /// This request as a command, ready to be executed.
    pub fn into_command(&self) -> (r: Command<Payload<Request>>)
        ensures
            r@ == (CommandView {
                name: Self::COMMAND@,
                payload: PayloadView::Decoded(RequestView::DeprecateCardCmd(self@)),
            }),
    {
        let request = Request::DeprecateCardCmd(self.clone());
        Command::with_payload(Self::COMMAND, Payload::Decoded(request))
    }
}

/// The value objects that the raw fields of a legal card read as.
#[derive(Debug, Clone, Copy, PartialEq, Eq, Structural)]
pub struct ValidatedCardFields {
    /// The class.
    pub class: CardClass,
    /// The type.
    pub card_type: CardType,
    /// The rarity.
    pub rarity: Rarity,
}

/// The message of the first catalog invariant that a card's raw fields break, if
/// they break one.
pub open spec fn card_fault(
    name: Seq<char>,
    raw_card_type: Seq<char>,
    raw_class: Seq<char>,
    raw_rarity: Seq<char>,
    cost: i64,
    effect_script_ref: Seq<char>,
    copy_cap: u32,
) -> Option<Seq<char>> {
    if text::is_blank_text(name) {
        Some("a card must have a non-empty name"@)
    } else if CardType::named(raw_card_type) is None {
        Some(CardType::unknown_text(raw_card_type))
    } else if CardClass::read(raw_class) is None {
        Some(CardClass::unread_text(raw_class))
    } else if Rarity::named(raw_rarity) is None {
        Some("unknown rarity '"@ + raw_rarity + "'"@)
    } else if !(CardType::named(raw_card_type)->0.least_cost() <= cost
        <= CardType::named(raw_card_type)->0.greatest_cost()) {
        let card_type = CardType::named(raw_card_type)->0;
        Some(
            "a "@ + card_type.name_text() + "'s Juice cost must fall within ["@ + text::decimal(
                card_type.least_cost() as int,
            ) + ", "@ + text::decimal(card_type.greatest_cost() as int) + "]; got "@
                + text::decimal(cost as int),
        )
    } else if !is_registered(effect_script_ref) {
        Some(
            "effect-script reference '"@ + effect_script_ref
                + "' does not resolve to a registered effect"@,
        )
    } else if raw_rarity == "Legendary"@ && copy_cap != 1 {
        Some(
            "Legendary rarity carries a per-Outfit copy cap of 1; definition declared "@
                + text::decimal(copy_cap as int),
        )
    } else {
        None
    }
}

/// Holds a card's raw fields to every catalog invariant: the value objects they
/// read as where all hold, or the first one broken.
///
/// This is the single source of truth for card validity: definition, revision
/// and deprecation run it, so each is held to exactly the same schema.
pub fn validate_card_fields(
    name: &str,
    raw_card_type: &str,
    raw_class: &str,
    raw_rarity: &str,
    cost: i64,
    effect_script_ref: &str,
    copy_cap: u32,
) -> (r: Result<ValidatedCardFields, DomainError>)
    ensures
        match (
            card_fault(
                name@,
                raw_card_type@,
                raw_class@,
                raw_rarity@,
                cost,
                effect_script_ref@,
                copy_cap,
            ),
            r,
        ) {
            (Some(message), Err(error)) => error@ == DomainErrorView::InvariantViolation(message),
            (None, Ok(fields)) => {
                &&& CardType::named(raw_card_type@) == Some(fields.card_type)
                &&& CardClass::read(raw_class@) == Some(fields.class)
                &&& Rarity::named(raw_rarity@) == Some(fields.rarity)
            },
            _ => false,
        },
{
    if text::is_blank(name) {
        return shared::refuse("a card must have a non-empty name".to_owned());
    }
    // Exactly one card type.
    let card_type = match CardType::parse(raw_card_type) {
        Ok(card_type) => card_type,
        Err(error) => {
            return Err(error);
        },
    };
    // Exactly one class, or Neutral.
    let class = match CardClass::parse(raw_class) {
        Ok(class) => class,
        Err(error) => {
            return Err(error);
        },
    };
    let rarity = match Rarity::parse(raw_rarity) {
        Ok(rarity) => rarity,
        Err(error) => {
            return Err(error);
        },
    };
    // Juice cost within the legal range for the card's type.
    let (min, max): (i64, i64) = card_type.legal_cost_range();
    if cost < min || cost > max {
        return shared::refuse(
            text::cat8(
                "a ", card_type.as_str(), "'s Juice cost must fall within [",
                &text::show_signed(min), ", ", &text::show_signed(max), "]; got ",
                &text::show_signed(cost),
            ),
        );
    }
    // The effect script must resolve to a registered effect.
    if !is_registered_effect(effect_script_ref) {
        return shared::refuse(
            text::cat3(
                "effect-script reference '", effect_script_ref,
                "' does not resolve to a registered effect",
            ),
        );
    }
    proof {
        lemma_legendary_by_name(raw_rarity@);
    }
    // Legendary rarity carries a per-Outfit copy cap of 1.
    if rarity == Rarity::Legendary && copy_cap != 1 {
        return shared::refuse(
            text::cat2(
                "Legendary rarity carries a per-Outfit copy cap of 1; definition declared ",
                &text::show(copy_cap as u64),
            ),
        );
    }
    Ok(ValidatedCardFields { class, card_type, rarity })
}

/// Only the name of the Legendary rarity reads as it.
proof fn lemma_legendary_by_name(raw: Seq<char>)
    ensures
        raw == "Legendary"@ <==> Rarity::named(raw) == Some(Rarity::Legendary),
{
    reveal_strlit("Common");
    reveal_strlit("Uncommon");
    reveal_strlit("Rare");
    reveal_strlit("Epic");
    reveal_strlit("Legendary");
    assert("Common"@.len() == 6);
    assert("Uncommon"@.len() == 8);
    assert("Rare"@.len() == 4);
    assert("Epic"@.len() == 4);
    assert("Legendary"@.len() == 9);
}

/// A validated card definition, produced once every invariant has been checked.
/// Carried by [`Event::CardDefined`] and thus by the emitted `card.defined`
/// event; every field is a proven-legal value object.
#[derive(Debug, PartialEq, Eq)]
pub struct CardDefined {
    pub card_id: String,
    pub name: String,
    pub cost: i64,
    pub class: CardClass,
    pub card_type: CardType,
    pub rarity: Rarity,
    pub keywords: Vec<String>,
    pub effect_script_ref: String,
    pub copy_cap: u32,
}

/// What a [`CardDefined`] says.
#[verifier::ext_equal]
pub struct CardDefinedView {
    pub card_id: Seq<char>,
    pub name: Seq<char>,
    pub cost: i64,
    pub class: CardClass,
    pub card_type: CardType,
    pub rarity: Rarity,
    pub keywords: Seq<Seq<char>>,
    pub effect_script_ref: Seq<char>,
    pub copy_cap: u32,
}

impl View for CardDefined {
    type V = CardDefinedView;

    open spec fn view(&self) -> CardDefinedView {
        CardDefinedView {
            card_id: self.card_id@,
            name: self.name@,
            cost: self.cost,
            class: self.class,
            card_type: self.card_type,
            rarity: self.rarity,
            keywords: text::texts(self.keywords@),
            effect_script_ref: self.effect_script_ref@,
            copy_cap: self.copy_cap,
        }
    }
}

impl Clone for CardDefined {
    fn clone(&self) -> (r: Self)
        ensures
            r@ == self@,
    {
        CardDefined {
            card_id: self.card_id.clone(),
            name: self.name.clone(),
            cost: self.cost,
            class: self.class,
            card_type: self.card_type,
            rarity: self.rarity,
            keywords: text::copy_all(&self.keywords),
            effect_script_ref: self.effect_script_ref.clone(),
            copy_cap: self.copy_cap,
        }
    }
}

/// A validated card revision, produced once every invariant has been re-checked
/// against the amended fields. Carried by [`Event::CardRevised`] and thus by
/// the emitted `card.revised` event; every field is a proven-legal value
/// object.
#[derive(Debug, PartialEq, Eq)]
pub struct CardRevised {
    pub card_id: String,
    pub name: String,
    pub cost: i64,
    pub class: CardClass,
    pub card_type: CardType,
    pub rarity: Rarity,
    pub keywords: Vec<String>,
    pub effect_script_ref: String,
    pub copy_cap: u32,
}

/// What a [`CardRevised`] says.
#[verifier::ext_equal]
pub struct CardRevisedView {
    pub card_id: Seq<char>,
    pub name: Seq<char>,
    pub cost: i64,
    pub class: CardClass,
    pub card_type: CardType,
    pub rarity: Rarity,
    pub keywords: Seq<Seq<char>>,
    pub effect_script_ref: Seq<char>,
    pub copy_cap: u32,
}

impl View for CardRevised {
    type V = CardRevisedView;

    open spec fn view(&self) -> CardRevisedView {
        CardRevisedView {
            card_id: self.card_id@,
            name: self.name@,
            cost: self.cost,
            class: self.class,
            card_type: self.card_type,
            rarity: self.rarity,
            keywords: text::texts(self.keywords@),
            effect_script_ref: self.effect_script_ref@,
            copy_cap: self.copy_cap,
        }
    }
}

impl Clone for CardRevised {
    fn clone(&self) -> (r: Self)
        ensures
            r@ == self@,
    {
        CardRevised {
            card_id: self.card_id.clone(),
            name: self.name.clone(),
            cost: self.cost,
            class: self.class,
            card_type: self.card_type,
            rarity: self.rarity,
            keywords: text::copy_all(&self.keywords),
            effect_script_ref: self.effect_script_ref.clone(),
            copy_cap: self.copy_cap,
        }
    }
}

/// A card retired from legal construction, produced once its current definition
/// has been re-validated. Carried by [`Event::CardDeprecated`] and thus by the
/// emitted `card.deprecated` event; every definition field is a proven-legal
/// value object and `reason` records why the card was retired.
#[derive(Debug, PartialEq, Eq)]
pub struct CardDeprecated {
    pub card_id: String,
    pub reason: String,
    pub name: String,
    pub cost: i64,
    pub class: CardClass,
    pub card_type: CardType,
    pub rarity: Rarity,
    pub keywords: Vec<String>,
    pub effect_script_ref: String,
    pub copy_cap: u32,
}

/// What a [`CardDeprecated`] says.
#[verifier::ext_equal]
pub struct CardDeprecatedView {
    pub card_id: Seq<char>,
    pub reason: Seq<char>,
    pub name: Seq<char>,
    pub cost: i64,
    pub class: CardClass,
    pub card_type: CardType,
    pub rarity: Rarity,
    pub keywords: Seq<Seq<char>>,
    pub effect_script_ref: Seq<char>,
    pub copy_cap: u32,
}

impl View for CardDeprecated {
    type V = CardDeprecatedView;

    open spec fn view(&self) -> CardDeprecatedView {
        CardDeprecatedView {
            card_id: self.card_id@,
            reason: self.reason@,
            name: self.name@,
            cost: self.cost,
            class: self.class,
            card_type: self.card_type,
            rarity: self.rarity,
            keywords: text::texts(self.keywords@),
            effect_script_ref: self.effect_script_ref@,
            copy_cap: self.copy_cap,
        }
    }
}

impl Clone for CardDeprecated {
    fn clone(&self) -> (r: Self)
        ensures
            r@ == self@,
    {
        CardDeprecated {
            card_id: self.card_id.clone(),
            reason: self.reason.clone(),
            name: self.name.clone(),
            cost: self.cost,
            class: self.class,
            card_type: self.card_type,
            rarity: self.rarity,
            keywords: text::copy_all(&self.keywords),
            effect_script_ref: self.effect_script_ref.clone(),
            copy_cap: self.copy_cap,
        }
    }
}

/// Domain events emitted by [`CardDefinition`].
#[derive(Debug, PartialEq, Eq)]
pub enum Event {
    /// A card definition passed validation and was added to the catalog.
    CardDefined(CardDefined),
    /// An existing card's amended definition passed re-validation.
    CardRevised(CardRevised),
    /// A card was retired from legal construction going forward.
    CardDeprecated(CardDeprecated),
}

/// What an [`Event`] says.
#[verifier::ext_equal]
pub enum EventView {
    CardDefined(CardDefinedView),
    CardRevised(CardRevisedView),
    CardDeprecated(CardDeprecatedView),
}

impl View for Event {
    type V = EventView;

    open spec fn view(&self) -> EventView {
        match self {
            Event::CardDefined(body) => EventView::CardDefined(body@),
            Event::CardRevised(body) => EventView::CardRevised(body@),
            Event::CardDeprecated(body) => EventView::CardDeprecated(body@),
        }
    }
}

impl Clone for Event {
    fn clone(&self) -> (r: Self)
        ensures
            r@ == self@,
    {
        match self {
            Event::CardDefined(body) => Event::CardDefined(body.clone()),
            Event::CardRevised(body) => Event::CardRevised(body.clone()),
            Event::CardDeprecated(body) => Event::CardDeprecated(body.clone()),
        }
    }
}

impl EventView {
    /// The name under which the event is published.
    pub open spec fn event_type(self) -> Seq<char> {
        match self {
            EventView::CardDefined(_) => "card.defined"@,
            EventView::CardRevised(_) => "card.revised"@,
            EventView::CardDeprecated(_) => "card.deprecated"@,
        }
    }
}

impl Event {
    /// The name under which the event is published.
    pub fn event_type(&self) -> (r: &'static str)
        ensures
            r@ == self@.event_type(),
    {
        match self {
            Event::CardDefined(_) => "card.defined",
            Event::CardRevised(_) => "card.revised",
            Event::CardDeprecated(_) => "card.deprecated",
        }
    }
}

/// A command of this context, with its payload read.
pub enum Request {
    /// A [`DefineCardCmd`].
    DefineCardCmd(DefineCardCmd),
    /// A [`ReviseCardCmd`].
    ReviseCardCmd(ReviseCardCmd),
    /// A [`DeprecateCardCmd`].
    DeprecateCardCmd(DeprecateCardCmd),
}

/// What a [`Request`] says.
#[verifier::ext_equal]
pub enum RequestView {
    DefineCardCmd(DefineCardCmdView),
    ReviseCardCmd(ReviseCardCmdView),
    DeprecateCardCmd(DeprecateCardCmdView),
}

impl View for Request {
    type V = RequestView;

    open spec fn view(&self) -> RequestView {
        match self {
            Request::DefineCardCmd(body) => RequestView::DefineCardCmd(body@),
            Request::ReviseCardCmd(body) => RequestView::ReviseCardCmd(body@),
            Request::DeprecateCardCmd(body) => RequestView::DeprecateCardCmd(body@),
        }
    }
}

/// The CardDefinition aggregate: the catalog entry for a single playable card.
#[derive(Debug)]
pub struct CardDefinition {
    id: String,
    root: AggregateRoot<Event>,
}

/// What a [`CardDefinition`] says.
#[verifier::ext_equal]
pub struct CardDefinitionView {
    pub id: Seq<char>,
    pub events: Seq<EventView>,
}

impl View for CardDefinition {
    type V = CardDefinitionView;

    closed spec fn view(&self) -> CardDefinitionView {
        CardDefinitionView {
            id: self.id@,
            events: self.root@,
        }
    }
}

impl CardDefinitionView {
    /// The message of the first rule that refuses a [`DefineCardCmd`], if one does.
    pub open spec fn define_card_fault(
        self,
        cmd: DefineCardCmdView,
    ) -> Option<Seq<char>> {
        card_fault(
            cmd.name,
            cmd.card_type,
            cmd.class,
            cmd.rarity,
            cmd.cost,
            cmd.effect_script_ref,
            cmd.copy_cap,
        )
    }

    /// The state after a [`DefineCardCmd`], and the answer to it.
    pub open spec fn define_card(self, cmd: DefineCardCmdView) -> (
        CardDefinitionView,
        Reply<EventView>,
    ) {
        match self.define_card_fault(cmd) {
            Some(message) => (self, shared::violation(message)),
            None => {
                let event = EventView::CardDefined(CardDefinedView {
                    card_id: cmd.card_id,
                    name: cmd.name,
                    cost: cmd.cost,
                    class: CardClass::read(cmd.class)->0,
                    card_type: CardType::named(cmd.card_type)->0,
                    rarity: Rarity::named(cmd.rarity)->0,
                    keywords: cmd.keywords,
                    effect_script_ref: cmd.effect_script_ref,
                    copy_cap: cmd.copy_cap,
                });
                (CardDefinitionView { events: self.events.push(event), ..self }, Ok(seq![event]))
            },
        }
    }

    /// The message of the first rule that refuses a [`ReviseCardCmd`], if one does.
    pub open spec fn revise_card_fault(
        self,
        cmd: ReviseCardCmdView,
    ) -> Option<Seq<char>> {
        card_fault(
            cmd.name,
            cmd.card_type,
            cmd.class,
            cmd.rarity,
            cmd.cost,
            cmd.effect_script_ref,
            cmd.copy_cap,
        )
    }

    /// The state after a [`ReviseCardCmd`], and the answer to it.
    pub open spec fn revise_card(self, cmd: ReviseCardCmdView) -> (
        CardDefinitionView,
        Reply<EventView>,
    ) {
        match self.revise_card_fault(cmd) {
            Some(message) => (self, shared::violation(message)),
            None => {
                let event = EventView::CardRevised(CardRevisedView {
                    card_id: cmd.card_id,
                    name: cmd.name,
                    cost: cmd.cost,
                    class: CardClass::read(cmd.class)->0,
                    card_type: CardType::named(cmd.card_type)->0,
                    rarity: Rarity::named(cmd.rarity)->0,
                    keywords: cmd.keywords,
                    effect_script_ref: cmd.effect_script_ref,
                    copy_cap: cmd.copy_cap,
                });
                (CardDefinitionView { events: self.events.push(event), ..self }, Ok(seq![event]))
            },
        }
    }

    /// The message of the first rule that refuses a [`DeprecateCardCmd`], if one does.
    pub open spec fn deprecate_card_fault(
        self,
        cmd: DeprecateCardCmdView,
    ) -> Option<Seq<char>> {
        if text::is_blank_text(cmd.reason) {
            Some("a card deprecation must carry a non-empty reason"@)
        } else {
            card_fault(
            cmd.name,
            cmd.card_type,
            cmd.class,
            cmd.rarity,
            cmd.cost,
            cmd.effect_script_ref,
            cmd.copy_cap,
        )
        }
    }

    /// The state after a [`DeprecateCardCmd`], and the answer to it.
    pub open spec fn deprecate_card(self, cmd: DeprecateCardCmdView) -> (
        CardDefinitionView,
        Reply<EventView>,
    ) {
        match self.deprecate_card_fault(cmd) {
            Some(message) => (self, shared::violation(message)),
            None => {
                let event = EventView::CardDeprecated(CardDeprecatedView {
                    card_id: cmd.card_id,
                    reason: cmd.reason,
                    name: cmd.name,
                    cost: cmd.cost,
                    class: CardClass::read(cmd.class)->0,
                    card_type: CardType::named(cmd.card_type)->0,
                    rarity: Rarity::named(cmd.rarity)->0,
                    keywords: cmd.keywords,
                    effect_script_ref: cmd.effect_script_ref,
                    copy_cap: cmd.copy_cap,
                });
                (CardDefinitionView { events: self.events.push(event), ..self }, Ok(seq![event]))
            },
        }
    }

    /// The state after a command, and the answer to it.
    pub open spec fn execute(self, command: CommandView<PayloadView<RequestView>>) -> (
        CardDefinitionView,
        Reply<EventView>,
    ) {
        if command.name == DefineCardCmd::COMMAND@ {
            match command.payload {
                PayloadView::Decoded(RequestView::DefineCardCmd(cmd)) => self.define_card(cmd),
                PayloadView::Decoded(_) => (
                    self,
                    shared::malformed_reply(DefineCardCmd::COMMAND@, OTHER_COMMAND@),
                ),
                PayloadView::Malformed(complaint) => (
                    self,
                    shared::malformed_reply(DefineCardCmd::COMMAND@, complaint),
                ),
            }
        } else if command.name == ReviseCardCmd::COMMAND@ {
            match command.payload {
                PayloadView::Decoded(RequestView::ReviseCardCmd(cmd)) => self.revise_card(cmd),
                PayloadView::Decoded(_) => (
                    self,
                    shared::malformed_reply(ReviseCardCmd::COMMAND@, OTHER_COMMAND@),
                ),
                PayloadView::Malformed(complaint) => (
                    self,
                    shared::malformed_reply(ReviseCardCmd::COMMAND@, complaint),
                ),
            }
        } else if command.name == DeprecateCardCmd::COMMAND@ {
            match command.payload {
                PayloadView::Decoded(RequestView::DeprecateCardCmd(cmd)) => {
                    self.deprecate_card(cmd)
                },
                PayloadView::Decoded(_) => (
                    self,
                    shared::malformed_reply(DeprecateCardCmd::COMMAND@, OTHER_COMMAND@),
                ),
                PayloadView::Malformed(complaint) => (
                    self,
                    shared::malformed_reply(DeprecateCardCmd::COMMAND@, complaint),
                ),
            }
        } else {
            (self, shared::unknown(AGGREGATE_TYPE@, command.name))
        }
    }
}

impl CardDefinition {
    /// The name of the aggregate type.
    pub fn aggregate_type() -> (r: &'static str)
        ensures
            r@ == AGGREGATE_TYPE@,
    {
        AGGREGATE_TYPE
    }

    /// Creates an aggregate with the given identity.
    pub fn new(id: &str) -> (r: Self)
        ensures
            r@ == (CardDefinitionView {
                id: id@,
                events: Seq::empty(),
            }),
    {
        CardDefinition {
            id: id.to_owned(),
            root: AggregateRoot::new(),
        }
    }

    /// This aggregate's identity.
    pub fn id(&self) -> (r: &str)
        ensures
            r@ == self@.id,
    {
        self.id.as_str()
    }

    /// The version: the number of events recorded.
    pub fn version(&self) -> (r: u64)
        ensures
            r == self@.events.len(),
    {
        self.root.version()
    }

    /// The events recorded and not yet persisted.
    pub fn uncommitted_events(&self) -> (r: &[Event])
        ensures
            shared::views(r@) == self@.events,
    {
        self.root.uncommitted_events()
    }

    /// Validates a proposed card definition and, if it holds, records and returns
    /// the resulting event. The first invariant that fails is the answer.
    fn define_card(&mut self, cmd: DefineCardCmd) -> (r: Result<
        Vec<Event>,
        DomainError,
    >)
        ensures
            final(self)@ == old(self)@.define_card(cmd@).0,
            shared::reply(r) == old(self)@.define_card(cmd@).1,
    {
        let fields = match validate_card_fields(
            cmd.name.as_str(),
            cmd.card_type.as_str(),
            cmd.class.as_str(),
            cmd.rarity.as_str(),
            cmd.cost,
            cmd.effect_script_ref.as_str(),
            cmd.copy_cap,
        ) {
            Ok(fields) => fields,
            Err(error) => {
                return Err(error);
            },
        };
        let event = Event::CardDefined(
            CardDefined {
                card_id: cmd.card_id,
                    name: cmd.name,
                cost: cmd.cost,
                class: fields.class,
                card_type: fields.card_type,
                rarity: fields.rarity,
                keywords: cmd.keywords,
                effect_script_ref: cmd.effect_script_ref,
                copy_cap: cmd.copy_cap,
            },
        );
        self.root.record(event.clone());
        Ok(shared::only(event))
    }

    /// Re-validates an amended card definition and, if it holds, records and
    /// returns the resulting event. A revision is held to the same invariants as a
    /// definition, so it can never move a card into an illegal state.
    fn revise_card(&mut self, cmd: ReviseCardCmd) -> (r: Result<
        Vec<Event>,
        DomainError,
    >)
        ensures
            final(self)@ == old(self)@.revise_card(cmd@).0,
            shared::reply(r) == old(self)@.revise_card(cmd@).1,
    {
        let fields = match validate_card_fields(
            cmd.name.as_str(),
            cmd.card_type.as_str(),
            cmd.class.as_str(),
            cmd.rarity.as_str(),
            cmd.cost,
            cmd.effect_script_ref.as_str(),
            cmd.copy_cap,
        ) {
            Ok(fields) => fields,
            Err(error) => {
                return Err(error);
            },
        };
        let event = Event::CardRevised(
            CardRevised {
                card_id: cmd.card_id,
                    name: cmd.name,
                cost: cmd.cost,
                class: fields.class,
                card_type: fields.card_type,
                rarity: fields.rarity,
                keywords: cmd.keywords,
                effect_script_ref: cmd.effect_script_ref,
                copy_cap: cmd.copy_cap,
            },
        );
        self.root.record(event.clone());
        Ok(shared::only(event))
    }

    /// Retires a card from legal construction and, if its current definition still
    /// holds, records and returns the resulting event. The reason must not be
    /// blank.
    fn deprecate_card(&mut self, cmd: DeprecateCardCmd) -> (r: Result<
        Vec<Event>,
        DomainError,
    >)
        ensures
            final(self)@ == old(self)@.deprecate_card(cmd@).0,
            shared::reply(r) == old(self)@.deprecate_card(cmd@).1,
    {
        if text::is_blank(&cmd.reason) {
            return shared::refuse("a card deprecation must carry a non-empty reason".to_owned());
        }
        let fields = match validate_card_fields(
            cmd.name.as_str(),
            cmd.card_type.as_str(),
            cmd.class.as_str(),
            cmd.rarity.as_str(),
            cmd.cost,
            cmd.effect_script_ref.as_str(),
            cmd.copy_cap,
        ) {
            Ok(fields) => fields,
            Err(error) => {
                return Err(error);
            },
        };
        let event = Event::CardDeprecated(
            CardDeprecated {
                card_id: cmd.card_id,
                reason: cmd.reason,
                name: cmd.name,
                cost: cmd.cost,
                class: fields.class,
                card_type: fields.card_type,
                rarity: fields.rarity,
                keywords: cmd.keywords,
                effect_script_ref: cmd.effect_script_ref,
                copy_cap: cmd.copy_cap,
            },
        );
        self.root.record(event.clone());
        Ok(shared::only(event))
    }

    /// Carries out a command, or says why it is refused.
    pub fn execute(&mut self, command: Command<Payload<Request>>) -> (r: Result<
        Vec<Event>,
        DomainError,
    >)
        ensures
            final(self)@ == old(self)@.execute(command@).0,
            shared::reply(r) == old(self)@.execute(command@).1,
    {
        if text::same(&command.name, DefineCardCmd::COMMAND) {
            match command.payload {
                Payload::Decoded(Request::DefineCardCmd(cmd)) => self.define_card(cmd),
                Payload::Decoded(_) => shared::malformed(DefineCardCmd::COMMAND, OTHER_COMMAND),
                Payload::Malformed(complaint) => {
                    shared::malformed(DefineCardCmd::COMMAND, &complaint)
                },
            }
        } else if text::same(&command.name, ReviseCardCmd::COMMAND) {
            match command.payload {
                Payload::Decoded(Request::ReviseCardCmd(cmd)) => self.revise_card(cmd),
                Payload::Decoded(_) => shared::malformed(ReviseCardCmd::COMMAND, OTHER_COMMAND),
                Payload::Malformed(complaint) => {
                    shared::malformed(ReviseCardCmd::COMMAND, &complaint)
                },
            }
        } else if text::same(&command.name, DeprecateCardCmd::COMMAND) {
            match command.payload {
                Payload::Decoded(Request::DeprecateCardCmd(cmd)) => self.deprecate_card(cmd),
                Payload::Decoded(_) => shared::malformed(DeprecateCardCmd::COMMAND, OTHER_COMMAND),
                Payload::Malformed(complaint) => {
                    shared::malformed(DeprecateCardCmd::COMMAND, &complaint)
                },
            }
        } else {
            Err(DomainError::unknown_command(AGGREGATE_TYPE, command.name))
        }
    }
}

/// The repository port of the [`CardDefinition`] aggregate: an adapter implements
/// [`Repository`] for it and then this marker.
pub trait CardDefinitionRepository: Repository<CardDefinition> {

}

/// A text without separators is one piece.
proof fn lemma_one_piece(s: Seq<char>)
    requires
        forall|i: int| 0 <= i < s.len() ==> !is_separator(#[trigger] s[i]),
    ensures
        pieces(s) == seq![s],
    decreases s.len(),
{
    if s.len() == 0 {
        assert(s =~= Seq::<char>::empty());
    } else {
        let before = s.drop_last();
        lemma_one_piece(before);
        assert(before.push(s.last()) =~= s);
        assert(pieces(s) =~= seq![s]);
    }
}

/// A text of one word is its own and only token.
proof fn lemma_word_is_its_token(s: Seq<char>)
    requires
        s.len() > 0,
        forall|i: int|
            0 <= i < s.len() ==> !is_separator(#[trigger] s[i]) && !text::is_white_space(s[i]),
    ensures
        class_tokens(s) == seq![s],
{
    lemma_one_piece(s);
    assert(seq![s].drop_last() =~= Seq::<Seq<char>>::empty());
    assert(trimmed_tokens(seq![s].drop_last()) =~= Seq::<Seq<char>>::empty());
    assert(text::trimmed(s) == s);
    assert(class_tokens(s) =~= seq![s]);
}

/// The name of every class reads as that class.
pub proof fn law_class_names_read(class: CardClass)
    ensures
        CardClass::read(class.name_text()) == Some(class),
{
    reveal_strlit("Neutral");
    reveal_strlit("Boss");
    reveal_strlit("Muscle");
    reveal_strlit("Grifter");
    reveal_strlit("Hacker");
    reveal_strlit("Driver");
    reveal_strlit("Cleaner");
    let s = class.name_text();
    lemma_word_is_its_token(s);
    lemma_class_names_differ();
}

/// The names of the classes differ.
proof fn lemma_class_names_differ()
    ensures
        forall|class: CardClass| CardClass::named(#[trigger] class.name_text()) == Some(class),
{
    reveal_strlit("Neutral");
    reveal_strlit("Boss");
    reveal_strlit("Muscle");
    reveal_strlit("Grifter");
    reveal_strlit("Hacker");
    reveal_strlit("Driver");
    reveal_strlit("Cleaner");
    assert("Neutral"@[0] == 'N');
    assert("Boss"@[0] == 'B');
    assert("Muscle"@[0] == 'M');
    assert("Grifter"@[0] == 'G');
    assert("Hacker"@[0] == 'H');
    assert("Driver"@[0] == 'D');
    assert("Cleaner"@[0] == 'C');
}

/// No card may claim two classes: a raw field reads as a class exactly where that
/// class's name is all the tokens it holds.
pub proof fn law_one_class(raw: Seq<char>, class: CardClass)
    ensures
        CardClass::read(raw) == Some(class) <==> class_tokens(raw) == seq![class.name_text()],
{
    lemma_class_names_differ();
    if CardClass::read(raw) == Some(class) {
        assert(class_tokens(raw) =~= seq![class.name_text()]);
    }
}

impl CardDefinitionView {
    /// Definition, revision and deprecation are held to the same invariants: the
    /// same fields are refused with the same message or accepted by all three,
    /// where a deprecation gives a reason.
    pub proof fn law_one_schema(
        self,
        define: DefineCardCmdView,
        revise: ReviseCardCmdView,
        deprecate: DeprecateCardCmdView,
    )
        requires
            define.name == revise.name,
            define.name == deprecate.name,
            define.cost == revise.cost,
            define.cost == deprecate.cost,
            define.class == revise.class,
            define.class == deprecate.class,
            define.card_type == revise.card_type,
            define.card_type == deprecate.card_type,
            define.rarity == revise.rarity,
            define.rarity == deprecate.rarity,
            define.effect_script_ref == revise.effect_script_ref,
            define.effect_script_ref == deprecate.effect_script_ref,
            define.copy_cap == revise.copy_cap,
            define.copy_cap == deprecate.copy_cap,
            !text::is_blank_text(deprecate.reason),
        ensures
            self.define_card_fault(define) == self.revise_card_fault(revise),
            self.define_card_fault(define) == self.deprecate_card_fault(deprecate),
    {
    }

    /// Every card that is defined is legal: its cost lies in the range of its
    /// type, its effect is registered and a Legendary has a copy cap of one.
    pub proof fn law_defined_cards_are_legal(self, cmd: DefineCardCmdView)
        ensures
            self.define_card(cmd).1 matches Ok(events) ==> (events[0] matches EventView::CardDefined(
                card,
            ) && {
                &&& !text::is_blank_text(card.name)
                &&& card.card_type.least_cost() <= card.cost <= card.card_type.greatest_cost()
                &&& is_registered(card.effect_script_ref)
                &&& card.rarity is Legendary ==> card.copy_cap == 1
            }),
    {
        lemma_legendary_by_name(cmd.rarity);
    }

    /// A card is defined exactly where it has a name, a type, one class and a
    /// rarity, a cost in the range of its type and a registered effect, and a
    /// Legendary has a copy cap of one.
    pub proof fn law_definition_is_owed(self, cmd: DefineCardCmdView)
        ensures
            self.define_card(cmd).1 is Ok <==> {
                &&& !text::is_blank_text(cmd.name)
                &&& CardType::named(cmd.card_type) is Some
                &&& CardClass::read(cmd.class) is Some
                &&& Rarity::named(cmd.rarity) is Some
                &&& CardType::named(cmd.card_type)->0.least_cost() <= cmd.cost
                    <= CardType::named(cmd.card_type)->0.greatest_cost()
                &&& is_registered(cmd.effect_script_ref)
                &&& Rarity::named(cmd.rarity) == Some(Rarity::Legendary) ==> cmd.copy_cap == 1
            },
    {
        lemma_legendary_by_name(cmd.rarity);
    }

    /// A refused command changes nothing: neither the state nor the events.
    pub proof fn law_refusal_changes_nothing(
        self,
        command: CommandView<PayloadView<RequestView>>,
    )
        ensures
            self.execute(command).1 is Err ==> self.execute(command).0 == self,
    {
    }

    /// An accepted command records exactly the one event it answers with.
    pub proof fn law_events_are_recorded(self, command: CommandView<PayloadView<RequestView>>)
        ensures
            self.execute(command).1 matches Ok(events) ==> {
                &&& events.len() == 1
                &&& self.execute(command).0.events == self.events + events
            },
    {
        if let Ok(events) = self.execute(command).1 {
            assert(self.execute(command).0.events =~= self.events + events);
        }
    }
}

/// A text names a card type exactly where it is the name of the type.
pub proof fn law_type_names_read(raw: Seq<char>, card_type: CardType)
    ensures
        CardType::named(raw) == Some(card_type) <==> raw == card_type.name_text(),
{
    reveal_strlit("Operator");
    reveal_strlit("Job");
    reveal_strlit("Piece");
    reveal_strlit("Vehicle");
    reveal_strlit("Heist");
    assert("Operator"@[0] == 'O');
    assert("Job"@[0] == 'J');
    assert("Piece"@[0] == 'P');
    assert("Vehicle"@[0] == 'V');
    assert("Heist"@[0] == 'H');
}

/// A text names a rarity exactly where it is the name of the rarity.
pub proof fn law_rarity_names_read(raw: Seq<char>, rarity: Rarity)
    ensures
        Rarity::named(raw) == Some(rarity) <==> raw == rarity.name_text(),
{
    reveal_strlit("Common");
    reveal_strlit("Uncommon");
    reveal_strlit("Rare");
    reveal_strlit("Epic");
    reveal_strlit("Legendary");
    assert("Common"@[0] == 'C');
    assert("Uncommon"@[0] == 'U');
    assert("Rare"@[0] == 'R');
    assert("Epic"@[0] == 'E');
    assert("Legendary"@[0] == 'L');
}

/// An effect is registered exactly where it is one of the seven of the engine.
pub proof fn law_registered_effects(effect: Seq<char>)
    ensures
        is_registered(effect) <==> {
            ||| effect == "effect.noop"@
            ||| effect == "effect.deal_damage"@
            ||| effect == "effect.draw_card"@
            ||| effect == "effect.gain_juice"@
            ||| effect == "effect.steal_piece"@
            ||| effect == "effect.recruit_operator"@
            ||| effect == "effect.pull_heist"@
        },
{
    let known = REGISTERED_EFFECTS@;
    assert(known.len() == 7);
    assert(known[0]@ == "effect.noop"@);
    assert(known[1]@ == "effect.deal_damage"@);
    assert(known[2]@ == "effect.draw_card"@);
    assert(known[3]@ == "effect.gain_juice"@);
    assert(known[4]@ == "effect.steal_piece"@);
    assert(known[5]@ == "effect.recruit_operator"@);
    assert(known[6]@ == "effect.pull_heist"@);
}

impl CardDefinitionView {
    /// Every command goes to its own handler, a payload that does not read is
    /// refused with the complaint about it, and a name that is none of these is
    /// unknown; what is refused otherwise is refused for a broken rule.
    pub proof fn law_commands_are_routed(self, command: CommandView<PayloadView<RequestView>>)
        ensures
            command.name == "DefineCardCmd"@ ==> match command.payload {
                PayloadView::Decoded(RequestView::DefineCardCmd(cmd)) => self.execute(command)
                    == self.define_card(cmd),
                PayloadView::Decoded(_) => self.execute(command).1 is Err,
                PayloadView::Malformed(complaint) => self.execute(command).1 == shared::violation::<
                    EventView,
                >("malformed "@ + "DefineCardCmd"@ + " payload: "@ + complaint),
            },
            command.name == "ReviseCardCmd"@ ==> match command.payload {
                PayloadView::Decoded(RequestView::ReviseCardCmd(cmd)) => self.execute(command)
                    == self.revise_card(cmd),
                PayloadView::Decoded(_) => self.execute(command).1 is Err,
                PayloadView::Malformed(complaint) => self.execute(command).1 == shared::violation::<
                    EventView,
                >("malformed "@ + "ReviseCardCmd"@ + " payload: "@ + complaint),
            },
            command.name == "DeprecateCardCmd"@ ==> match command.payload {
                PayloadView::Decoded(RequestView::DeprecateCardCmd(cmd)) => self.execute(command)
                    == self.deprecate_card(cmd),
                PayloadView::Decoded(_) => self.execute(command).1 is Err,
                PayloadView::Malformed(complaint) => self.execute(command).1 == shared::violation::<
                    EventView,
                >("malformed "@ + "DeprecateCardCmd"@ + " payload: "@ + complaint),
            },
            ({
                &&& command.name != "DefineCardCmd"@
                &&& command.name != "ReviseCardCmd"@
                &&& command.name != "DeprecateCardCmd"@
            }) ==> self.execute(command).1 == Err::<
                Seq<EventView>,
                shared::DomainErrorView,
            >(
                shared::DomainErrorView::UnknownCommand {
                    aggregate: "CardDefinition"@,
                    command: command.name,
                },
            ),
            self.execute(command).1 matches Err(error) ==> (error is InvariantViolation <==> {
                ||| command.name == "DefineCardCmd"@
                ||| command.name == "ReviseCardCmd"@
                ||| command.name == "DeprecateCardCmd"@
            }),
    {
        reveal_strlit("DefineCardCmd");
        reveal_strlit("ReviseCardCmd");
        reveal_strlit("DeprecateCardCmd");
        assert("DefineCardCmd"@[0] == 'D');
        assert("ReviseCardCmd"@[0] == 'R');
        assert("DefineCardCmd"@.len() == 13);
        assert("DeprecateCardCmd"@.len() == 16);
        assert("ReviseCardCmd"@.len() == 13);
    }

    /// A definition records the card that was submitted, field by field, with the
    /// type, the rarity and the class whose names were submitted; nothing else
    /// changes.
    pub proof fn law_definition_records_the_card(self, cmd: DefineCardCmdView)
        requires
            self.define_card(cmd).1 is Ok,
        ensures
            ({
                let after = self.define_card(cmd).0;
                &&& self.define_card(cmd).1 matches Ok(events)
                &&& events.len() == 1
                &&& events[0].event_type() == "card.defined"@
                &&& events[0] matches EventView::CardDefined(said)
                &&& said.card_id == cmd.card_id
                &&& said.name == cmd.name
                &&& said.cost == cmd.cost
                &&& said.keywords == cmd.keywords
                &&& said.effect_script_ref == cmd.effect_script_ref
                &&& said.copy_cap == cmd.copy_cap
                &&& cmd.card_type == said.card_type.name_text()
                &&& cmd.rarity == said.rarity.name_text()
                &&& class_tokens(cmd.class) == seq![said.class.name_text()]
                &&& after == (CardDefinitionView {
                    events: self.events.push(events[0]),
                    ..self
                })
            }),
    {
        law_one_class(cmd.class, CardClass::read(cmd.class)->0);
    }

    /// A revision records the card that was submitted, field by field, with the
    /// type, the rarity and the class whose names were submitted; nothing else
    /// changes.
    pub proof fn law_revision_records_the_card(self, cmd: ReviseCardCmdView)
        requires
            self.revise_card(cmd).1 is Ok,
        ensures
            ({
                let after = self.revise_card(cmd).0;
                &&& self.revise_card(cmd).1 matches Ok(events)
                &&& events.len() == 1
                &&& events[0].event_type() == "card.revised"@
                &&& events[0] matches EventView::CardRevised(said)
                &&& said.card_id == cmd.card_id
                &&& said.name == cmd.name
                &&& said.cost == cmd.cost
                &&& said.keywords == cmd.keywords
                &&& said.effect_script_ref == cmd.effect_script_ref
                &&& said.copy_cap == cmd.copy_cap
                &&& cmd.card_type == said.card_type.name_text()
                &&& cmd.rarity == said.rarity.name_text()
                &&& class_tokens(cmd.class) == seq![said.class.name_text()]
                &&& after == (CardDefinitionView {
                    events: self.events.push(events[0]),
                    ..self
                })
            }),
    {
        law_one_class(cmd.class, CardClass::read(cmd.class)->0);
    }

    /// A deprecation records the reason and the card that were submitted, field by
    /// field, with the type, the rarity and the class whose names were submitted;
    /// nothing else changes.
    pub proof fn law_deprecation_records_the_card(self, cmd: DeprecateCardCmdView)
        requires
            self.deprecate_card(cmd).1 is Ok,
        ensures
            ({
                let after = self.deprecate_card(cmd).0;
                &&& self.deprecate_card(cmd).1 matches Ok(events)
                &&& events.len() == 1
                &&& events[0].event_type() == "card.deprecated"@
                &&& events[0] matches EventView::CardDeprecated(said)
                &&& said.reason == cmd.reason
                &&& said.card_id == cmd.card_id
                &&& said.name == cmd.name
                &&& said.cost == cmd.cost
                &&& said.keywords == cmd.keywords
                &&& said.effect_script_ref == cmd.effect_script_ref
                &&& said.copy_cap == cmd.copy_cap
                &&& cmd.card_type == said.card_type.name_text()
                &&& cmd.rarity == said.rarity.name_text()
                &&& class_tokens(cmd.class) == seq![said.class.name_text()]
                &&& after == (CardDefinitionView {
                    events: self.events.push(events[0]),
                    ..self
                })
            }),
    {
        law_one_class(cmd.class, CardClass::read(cmd.class)->0);
    }

    /// A card is retired exactly where a reason is given and a card of the same
    /// fields could be defined, and revised exactly where it could be defined.
    pub proof fn law_revision_and_deprecation_are_owed(
        self,
        define: DefineCardCmdView,
        revise: ReviseCardCmdView,
        deprecate: DeprecateCardCmdView,
    )
        requires
            define.name == revise.name && define.name == deprecate.name,
            define.cost == revise.cost && define.cost == deprecate.cost,
            define.class == revise.class && define.class == deprecate.class,
            define.card_type == revise.card_type && define.card_type == deprecate.card_type,
            define.rarity == revise.rarity && define.rarity == deprecate.rarity,
            define.effect_script_ref == revise.effect_script_ref,
            define.effect_script_ref == deprecate.effect_script_ref,
            define.copy_cap == revise.copy_cap && define.copy_cap == deprecate.copy_cap,
        ensures
            self.revise_card(revise).1 is Ok <==> self.define_card(define).1 is Ok,
            self.deprecate_card(deprecate).1 is Ok <==> {
                &&& !text::is_blank_text(deprecate.reason)
                &&& self.define_card(define).1 is Ok
            },
    {
    }
}

/// The pieces of two texts with a separator between them are those of the one and
/// those of the other.
proof fn lemma_pieces_split(a: Seq<char>, c: char, b: Seq<char>)
    requires
        is_separator(c),
    ensures
        pieces(b).len() > 0,
        pieces(a + seq![c] + b) == pieces(a) + pieces(b),
    decreases b.len(),
{
    let whole = a + seq![c] + b;
    if b.len() == 0 {
        assert(whole.drop_last() =~= a);
        assert(pieces(whole) =~= pieces(a) + pieces(b));
    } else {
        let rest = b.drop_last();
        lemma_pieces_split(a, c, rest);
        assert(whole.drop_last() =~= a + seq![c] + rest);
        assert(whole.last() == b.last());
        assert(pieces(whole) =~= pieces(a) + pieces(b));
    }
}

/// The tokens of two sequences of pieces are those of the one and those of the
/// other.
proof fn lemma_tokens_add_up(a: Seq<Seq<char>>, b: Seq<Seq<char>>)
    ensures
        trimmed_tokens(a + b) == trimmed_tokens(a) + trimmed_tokens(b),
    decreases b.len(),
{
    if b.len() == 0 {
        assert(a + b =~= a);
        assert(trimmed_tokens(a + b) =~= trimmed_tokens(a) + trimmed_tokens(b));
    } else {
        lemma_tokens_add_up(a, b.drop_last());
        assert((a + b).drop_last() =~= a + b.drop_last());
        assert((a + b).last() == b.last());
        assert(trimmed_tokens(a + b) =~= trimmed_tokens(a) + trimmed_tokens(b));
    }
}

/// A slash, a comma, a plus sign and an ampersand separate the names of classes: a
/// field holds the names before the separator and those behind it.
pub proof fn law_separators_split(a: Seq<char>, c: char, b: Seq<char>)
    requires
        c == '/' || c == ',' || c == '+' || c == '&',
    ensures
        class_tokens(a + seq![c] + b) == class_tokens(a) + class_tokens(b),
{
    lemma_pieces_split(a, c, b);
    lemma_tokens_add_up(pieces(a), pieces(b));
}

/// A field without a separator holds one name, which is the field trimmed, and none
/// where it is blank.
pub proof fn law_unseparated_field_is_one_name(s: Seq<char>)
    requires
        forall|i: int|
            0 <= i < s.len() ==> {
                let c = #[trigger] s[i];
                c != '/' && c != ',' && c != '+' && c != '&'
            },
    ensures
        class_tokens(s) == if text::is_blank_text(s) {
            Seq::<Seq<char>>::empty()
        } else {
            seq![text::trimmed(s)]
        },
{
    lemma_one_piece(s);
    text::law_blank_texts_trim_to_nothing(s);
    assert(seq![s].drop_last() =~= Seq::<Seq<char>>::empty());
    assert(trimmed_tokens(seq![s].drop_last()) =~= Seq::<Seq<char>>::empty());
    if text::is_blank_text(s) {
        assert(class_tokens(s) =~= Seq::<Seq<char>>::empty());
    } else {
        assert(class_tokens(s) =~= seq![text::trimmed(s)]);
    }
}

impl DefineCardCmd {
    /// The view leaves nothing out: where two views agree, so does every field.
    pub proof fn law_view_leaves_nothing_out(self, other: DefineCardCmd)
        requires
            self@ == other@,
        ensures
            self.card_id@ == other.card_id@,
            self.name@ == other.name@,
            self.cost == other.cost,
            self.class@ == other.class@,
            self.card_type@ == other.card_type@,
            self.rarity@ == other.rarity@,
            text::texts(self.keywords@) == text::texts(other.keywords@),
            self.effect_script_ref@ == other.effect_script_ref@,
            self.copy_cap == other.copy_cap,
    {
    }
}

impl ReviseCardCmd {
    /// The view leaves nothing out: where two views agree, so does every field.
    pub proof fn law_view_leaves_nothing_out(self, other: ReviseCardCmd)
        requires
            self@ == other@,
        ensures
            self.card_id@ == other.card_id@,
            self.name@ == other.name@,
            self.cost == other.cost,
            self.class@ == other.class@,
            self.card_type@ == other.card_type@,
            self.rarity@ == other.rarity@,
            text::texts(self.keywords@) == text::texts(other.keywords@),
            self.effect_script_ref@ == other.effect_script_ref@,
            self.copy_cap == other.copy_cap,
    {
    }
}

impl DeprecateCardCmd {
    /// The view leaves nothing out: where two views agree, so does every field.
    pub proof fn law_view_leaves_nothing_out(self, other: DeprecateCardCmd)
        requires
            self@ == other@,
        ensures
            self.card_id@ == other.card_id@,
            self.reason@ == other.reason@,
            self.name@ == other.name@,
            self.cost == other.cost,
            self.class@ == other.class@,
            self.card_type@ == other.card_type@,
            self.rarity@ == other.rarity@,
            text::texts(self.keywords@) == text::texts(other.keywords@),
            self.effect_script_ref@ == other.effect_script_ref@,
            self.copy_cap == other.copy_cap,
    {
    }
}

impl CardDefined {
    /// The view leaves nothing out: where two views agree, so does every field.
    pub proof fn law_view_leaves_nothing_out(self, other: CardDefined)
        requires
            self@ == other@,
        ensures
            self.card_id@ == other.card_id@,
            self.name@ == other.name@,
            self.cost == other.cost,
            self.class == other.class,
            self.card_type == other.card_type,
            self.rarity == other.rarity,
            text::texts(self.keywords@) == text::texts(other.keywords@),
            self.effect_script_ref@ == other.effect_script_ref@,
            self.copy_cap == other.copy_cap,
    {
    }
}

impl CardRevised {
    /// The view leaves nothing out: where two views agree, so does every field.
    pub proof fn law_view_leaves_nothing_out(self, other: CardRevised)
        requires
            self@ == other@,
        ensures
            self.card_id@ == other.card_id@,
            self.name@ == other.name@,
            self.cost == other.cost,
            self.class == other.class,
            self.card_type == other.card_type,
            self.rarity == other.rarity,
            text::texts(self.keywords@) == text::texts(other.keywords@),
            self.effect_script_ref@ == other.effect_script_ref@,
            self.copy_cap == other.copy_cap,
    {
    }
}

impl CardDeprecated {
    /// The view leaves nothing out: where two views agree, so does every field.
    pub proof fn law_view_leaves_nothing_out(self, other: CardDeprecated)
        requires
            self@ == other@,
        ensures
            self.card_id@ == other.card_id@,
            self.reason@ == other.reason@,
            self.name@ == other.name@,
            self.cost == other.cost,
            self.class == other.class,
            self.card_type == other.card_type,
            self.rarity == other.rarity,
            text::texts(self.keywords@) == text::texts(other.keywords@),
            self.effect_script_ref@ == other.effect_script_ref@,
            self.copy_cap == other.copy_cap,
    {
    }
}

impl Event {
    /// The view leaves nothing out: where two views agree, so do the variants and
    /// what they carry.
    pub proof fn law_view_leaves_nothing_out(self, other: Event)
        requires
            self@ == other@,
        ensures
            match (self, other) {
                (Event::CardDefined(a), Event::CardDefined(b)) => a@ == b@,
                (Event::CardRevised(a), Event::CardRevised(b)) => a@ == b@,
                (Event::CardDeprecated(a), Event::CardDeprecated(b)) => a@ == b@,
                _ => false,
            },
    {
    }
}

impl Request {
    /// The view leaves nothing out: where two views agree, so do the variants and
    /// what they carry.
    pub proof fn law_view_leaves_nothing_out(self, other: Request)
        requires
            self@ == other@,
        ensures
            match (self, other) {
                (Request::DefineCardCmd(a), Request::DefineCardCmd(b)) => a@ == b@,
                (Request::ReviseCardCmd(a), Request::ReviseCardCmd(b)) => a@ == b@,
                (Request::DeprecateCardCmd(a), Request::DeprecateCardCmd(b)) => a@ == b@,
                _ => false,
            },
    {
    }
}

} // verus!
