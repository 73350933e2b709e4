//! ERC-1155 card tokens with staged IPFS metadata.
//!
//! A [`CardToken`] is a single mintable ERC-1155 card token. Four invariants
//! govern its commands:
//!
//! 1. **Server-authoritative ownership** - ownership is verified by the server
//!    at match start; client-asserted ownership is never trusted.
//! 2. **Resolvable staged metadata** - every tokenId maps to a resolvable IPFS
//!    metadata record containing name, cost, art URL, and effect ref.
//! 3. **Unique serials** - serialized cosmetic editions carry a unique,
//!    non-reusable serial number.
//! 4. **Verified on-chain render** - a cosmetic renders on-face only after
//!    verified on-chain ownership.
use crate::shared;
use crate::shared::AggregateRoot;
use crate::shared::Command;
use crate::shared::CommandView;
use crate::shared::DomainError;
use crate::shared::Payload;
use crate::shared::PayloadView;
use crate::shared::Reply;
use crate::shared::Repository;
use crate::shared::OTHER_COMMAND;
use crate::text;
use vstd::prelude::*;

verus! {

/// The name of the aggregate type, as errors show it.
pub const AGGREGATE_TYPE: &'static str = "CardToken";

/// The IPFS metadata record staged for a tokenId. Every tokenId must map to a
/// resolvable record carrying all four card render and rules fields. Field
/// names use the token marketplace's `camelCase` schema.
#[derive(Debug, PartialEq, Eq)]
pub struct StagedMetadata {
    /// Display name of the card.
    pub name: String,
    /// Play cost of the card.
    pub cost: u32,
    /// URL of the card art asset.
    pub art_url: String,
    /// Reference to the card's effect/rules definition.
    pub effect_ref: String,
}

/// What a [`StagedMetadata`] says.
#[verifier::ext_equal]
pub struct StagedMetadataView {
    pub name: Seq<char>,
    pub cost: u32,
    pub art_url: Seq<char>,
    pub effect_ref: Seq<char>,
}

impl View for StagedMetadata {
    type V = StagedMetadataView;

    open spec fn view(&self) -> StagedMetadataView {
        StagedMetadataView {
            name: self.name@,
            cost: self.cost,
            art_url: self.art_url@,
            effect_ref: self.effect_ref@,
        }
    }
}

impl Clone for StagedMetadata {
    fn clone(&self) -> (r: Self)
        ensures
            r@ == self@,
    {
        StagedMetadata {
            name: self.name.clone(),
            cost: self.cost,
            art_url: self.art_url.clone(),
            effect_ref: self.effect_ref.clone(),
        }
    }
}

impl StagedMetadata {
    /// Builds a staged metadata record.
    pub fn new(name: &str, cost: u32, art_url: &str, effect_ref: &str) -> (r: Self)
        ensures
            r@ == (StagedMetadataView {
                name: name@,
                cost: cost,
                art_url: art_url@,
                effect_ref: effect_ref@,
            }),
    {
        StagedMetadata {
            name: name.to_owned(),
            cost: cost,
            art_url: art_url.to_owned(),
            effect_ref: effect_ref.to_owned(),
        }
    }

    /// Whether every required field resolves to a non-empty value. `cost` is a
    /// numeric field and may legitimately be zero.
    pub fn is_resolvable(&self) -> (r: bool)
        ensures
            r == self@.is_resolvable(),
    {
        !text::is_blank(self.name.as_str()) && !text::is_blank(self.art_url.as_str())
            && !text::is_blank(self.effect_ref.as_str())
    }
}

impl StagedMetadataView {
    /// Whether the name, the art URL and the effect reference are not blank.
    pub open spec fn is_resolvable(self) -> bool {
        &&& !text::is_blank_text(self.name)
        &&& !text::is_blank_text(self.art_url)
        &&& !text::is_blank_text(self.effect_ref)
    }
}

/// The `MintCardTokenCmd` payload: which token is being minted, which staged
/// IPFS metadata record it resolves to, and the serialized cosmetic edition's
/// serial number. Field names use the token marketplace's `camelCase` schema.
#[derive(Debug, PartialEq, Eq)]
pub struct MintCardTokenCmd {
    /// The ERC-1155 token being minted; must name this CardToken.
    pub token_id: String,
    /// IPFS reference for the staged metadata record.
    pub ipfs_metadata_ref: String,
    /// Unique, non-reusable serial number for the cosmetic edition.
    pub serial_number: String,
}

/// What a [`MintCardTokenCmd`] says.
#[verifier::ext_equal]
pub struct MintCardTokenCmdView {
    pub token_id: Seq<char>,
    pub ipfs_metadata_ref: Seq<char>,
    pub serial_number: Seq<char>,
}

impl View for MintCardTokenCmd {
    type V = MintCardTokenCmdView;

    open spec fn view(&self) -> MintCardTokenCmdView {
        MintCardTokenCmdView {
            token_id: self.token_id@,
            ipfs_metadata_ref: self.ipfs_metadata_ref@,
            serial_number: self.serial_number@,
        }
    }
}

impl Clone for MintCardTokenCmd {
    fn clone(&self) -> (r: Self)
        ensures
            r@ == self@,
    {
        MintCardTokenCmd {
            token_id: self.token_id.clone(),
            ipfs_metadata_ref: self.ipfs_metadata_ref.clone(),
            serial_number: self.serial_number.clone(),
        }
    }
}

impl MintCardTokenCmd {
    /// The name of the command.
    pub const COMMAND: &'static str = "MintCardTokenCmd";

    /// Builds a command minting `token_id` with staged `ipfs_metadata_ref` and
    /// cosmetic edition `serial_number`.
    pub fn new(token_id: &str, ipfs_metadata_ref: &str, serial_number: &str) -> (r: Self)
        ensures
            r@ == (MintCardTokenCmdView {
                token_id: token_id@,
                ipfs_metadata_ref: ipfs_metadata_ref@,
                serial_number: serial_number@,
            }),
    {
        MintCardTokenCmd {
            token_id: token_id.to_owned(),
            ipfs_metadata_ref: ipfs_metadata_ref.to_owned(),
            serial_number: serial_number.to_owned(),
        }
    }

    /// This request as a command, ready to be executed.
    pub fn into_command(&self) -> (r: Command<Payload<Request>>)
        ensures
            r@ == (CommandView {
                name: Self::COMMAND@,
                payload: PayloadView::Decoded(RequestView::MintCardTokenCmd(self@)),
            }),
    {
        let request = Request::MintCardTokenCmd(self.clone());
        Command::with_payload(Self::COMMAND, Payload::Decoded(request))
    }
}

/// The `StageMetadataCmd` payload: which token is being staged, the IPFS
/// metadata record it resolves to, and the serialized cosmetic edition's serial
/// number. Field names use the token marketplace's `camelCase` schema.
#[derive(Debug, PartialEq, Eq)]
pub struct StageMetadataCmd {
    /// The ERC-1155 token whose metadata is being staged; must name this CardToken.
    pub token_id: String,
    /// The IPFS metadata record to pin for the token.
    pub metadata: StagedMetadata,
    /// Unique, non-reusable serial number for the cosmetic edition.
    pub serial_number: String,
}

/// What a [`StageMetadataCmd`] says.
#[verifier::ext_equal]
pub struct StageMetadataCmdView {
    pub token_id: Seq<char>,
    pub metadata: StagedMetadataView,
    pub serial_number: Seq<char>,
}

impl View for StageMetadataCmd {
    type V = StageMetadataCmdView;

    open spec fn view(&self) -> StageMetadataCmdView {
        StageMetadataCmdView {
            token_id: self.token_id@,
            metadata: self.metadata@,
            serial_number: self.serial_number@,
        }
    }
}

impl Clone for StageMetadataCmd {
    fn clone(&self) -> (r: Self)
        ensures
            r@ == self@,
    {
        StageMetadataCmd {
            token_id: self.token_id.clone(),
            metadata: self.metadata.clone(),
            serial_number: self.serial_number.clone(),
        }
    }
}

impl StageMetadataCmd {
    /// The name of the command.
    pub const COMMAND: &'static str = "StageMetadataCmd";

    /// Builds a command staging `metadata` for `token_id` under cosmetic
    /// edition `serial_number`.
    pub fn new(token_id: &str, metadata: StagedMetadata, serial_number: &str) -> (r: Self)
        ensures
            r@ == (StageMetadataCmdView {
                token_id: token_id@,
                metadata: metadata@,
                serial_number: serial_number@,
            }),
    {
        StageMetadataCmd {
            token_id: token_id.to_owned(),
            metadata: metadata,
            serial_number: serial_number.to_owned(),
        }
    }

    /// This request as a command, ready to be executed.
    pub fn into_command(&self) -> (r: Command<Payload<Request>>)
        ensures
            r@ == (CommandView {
                name: Self::COMMAND@,
                payload: PayloadView::Decoded(RequestView::StageMetadataCmd(self@)),
            }),
    {
        let request = Request::StageMetadataCmd(self.clone());
        Command::with_payload(Self::COMMAND, Payload::Decoded(request))
    }
}

/// The `LinkWalletCmd` payload: which token's cosmetic edition is being linked,
/// the player receiving the link, the custodial/WalletConnect wallet address,
/// the geo-check jurisdiction, and the serialized cosmetic edition's serial
/// number. Field names use the token marketplace's `camelCase` schema.
#[derive(Debug, PartialEq, Eq)]
pub struct LinkWalletCmd {
    /// The ERC-1155 token whose cosmetic edition is being linked; must name this
    /// CardToken.
    pub token_id: String,
    /// The player the wallet is being linked to.
    pub player_id: String,
    /// The custodial/WalletConnect wallet address being linked.
    pub wallet_address: String,
    /// The jurisdiction the link is geo-checked against.
    pub jurisdiction: String,
    /// Unique, non-reusable serial number for the cosmetic edition.
    pub serial_number: String,
}

/// What a [`LinkWalletCmd`] says.
#[verifier::ext_equal]
pub struct LinkWalletCmdView {
    pub token_id: Seq<char>,
    pub player_id: Seq<char>,
    pub wallet_address: Seq<char>,
    pub jurisdiction: Seq<char>,
    pub serial_number: Seq<char>,
}

impl View for LinkWalletCmd {
    type V = LinkWalletCmdView;

    open spec fn view(&self) -> LinkWalletCmdView {
        LinkWalletCmdView {
            token_id: self.token_id@,
            player_id: self.player_id@,
            wallet_address: self.wallet_address@,
            jurisdiction: self.jurisdiction@,
            serial_number: self.serial_number@,
        }
    }
}

impl Clone for LinkWalletCmd {
    fn clone(&self) -> (r: Self)
        ensures
            r@ == self@,
    {
        LinkWalletCmd {
            token_id: self.token_id.clone(),
            player_id: self.player_id.clone(),
            wallet_address: self.wallet_address.clone(),
            jurisdiction: self.jurisdiction.clone(),
            serial_number: self.serial_number.clone(),
        }
    }
}

impl LinkWalletCmd {
    /// The name of the command.
    pub const COMMAND: &'static str = "LinkWalletCmd";

    /// Builds a command linking `wallet_address` to `player_id` for
    /// `token_id`'s cosmetic edition `serial_number`, geo-checked against
    /// `jurisdiction`.
    pub fn new(
        token_id: &str,
        player_id: &str,
        wallet_address: &str,
        jurisdiction: &str,
        serial_number: &str,
    ) -> (r: Self)
        ensures
            r@ == (LinkWalletCmdView {
                token_id: token_id@,
                player_id: player_id@,
                wallet_address: wallet_address@,
                jurisdiction: jurisdiction@,
                serial_number: serial_number@,
            }),
    {
        LinkWalletCmd {
            token_id: token_id.to_owned(),
            player_id: player_id.to_owned(),
            wallet_address: wallet_address.to_owned(),
            jurisdiction: jurisdiction.to_owned(),
            serial_number: serial_number.to_owned(),
        }
    }

    /// This request as a command, ready to be executed.
    pub fn into_command(&self) -> (r: Command<Payload<Request>>)
        ensures
            r@ == (CommandView {
                name: Self::COMMAND@,
                payload: PayloadView::Decoded(RequestView::LinkWalletCmd(self@)),
            }),
    {
        let request = Request::LinkWalletCmd(self.clone());
        Command::with_payload(Self::COMMAND, Payload::Decoded(request))
    }
}

/// The token that was minted, carried by [`Event::CardTokenMinted`] and thus by
/// the emitted `card.token.minted` event.
#[derive(Debug, PartialEq, Eq)]
pub struct CardTokenMinted {
    /// The ERC-1155 token that was minted.
    pub token_id: String,
    /// IPFS reference for the staged metadata record.
    pub ipfs_metadata_ref: String,
    /// Serialized cosmetic edition serial number.
    pub serial_number: String,
}

/// What a [`CardTokenMinted`] says.
#[verifier::ext_equal]
pub struct CardTokenMintedView {
    pub token_id: Seq<char>,
    pub ipfs_metadata_ref: Seq<char>,
    pub serial_number: Seq<char>,
}

impl View for CardTokenMinted {
    type V = CardTokenMintedView;

    open spec fn view(&self) -> CardTokenMintedView {
        CardTokenMintedView {
            token_id: self.token_id@,
            ipfs_metadata_ref: self.ipfs_metadata_ref@,
            serial_number: self.serial_number@,
        }
    }
}

impl Clone for CardTokenMinted {
    fn clone(&self) -> (r: Self)
        ensures
            r@ == self@,
    {
        CardTokenMinted {
            token_id: self.token_id.clone(),
            ipfs_metadata_ref: self.ipfs_metadata_ref.clone(),
            serial_number: self.serial_number.clone(),
        }
    }
}

/// The metadata that was staged, carried by [`Event::MetadataStaged`] and thus
/// by the emitted `metadata.staged` event.
#[derive(Debug, PartialEq, Eq)]
pub struct MetadataStaged {
    /// The ERC-1155 token whose metadata was staged.
    pub token_id: String,
    /// The IPFS metadata record pinned for the token.
    pub metadata: StagedMetadata,
    /// Serialized cosmetic edition serial number.
    pub serial_number: String,
}

/// What a [`MetadataStaged`] says.
#[verifier::ext_equal]
pub struct MetadataStagedView {
    pub token_id: Seq<char>,
    pub metadata: StagedMetadataView,
    pub serial_number: Seq<char>,
}

impl View for MetadataStaged {
    type V = MetadataStagedView;

    open spec fn view(&self) -> MetadataStagedView {
        MetadataStagedView {
            token_id: self.token_id@,
            metadata: self.metadata@,
            serial_number: self.serial_number@,
        }
    }
}

impl Clone for MetadataStaged {
    fn clone(&self) -> (r: Self)
        ensures
            r@ == self@,
    {
        MetadataStaged {
            token_id: self.token_id.clone(),
            metadata: self.metadata.clone(),
            serial_number: self.serial_number.clone(),
        }
    }
}

/// The wallet link that was recorded, carried by [`Event::WalletLinked`] and
/// thus by the emitted `wallet.linked` event.
#[derive(Debug, PartialEq, Eq)]
pub struct WalletLinked {
    /// The ERC-1155 token whose cosmetic edition was linked.
    pub token_id: String,
    /// The player the wallet was linked to.
    pub player_id: String,
    /// The custodial/WalletConnect wallet address that was linked.
    pub wallet_address: String,
    /// The jurisdiction the link was geo-checked against.
    pub jurisdiction: String,
    /// Serialized cosmetic edition serial number.
    pub serial_number: String,
}

/// What a [`WalletLinked`] says.
#[verifier::ext_equal]
pub struct WalletLinkedView {
    pub token_id: Seq<char>,
    pub player_id: Seq<char>,
    pub wallet_address: Seq<char>,
    pub jurisdiction: Seq<char>,
    pub serial_number: Seq<char>,
}

impl View for WalletLinked {
    type V = WalletLinkedView;

    open spec fn view(&self) -> WalletLinkedView {
        WalletLinkedView {
            token_id: self.token_id@,
            player_id: self.player_id@,
            wallet_address: self.wallet_address@,
            jurisdiction: self.jurisdiction@,
            serial_number: self.serial_number@,
        }
    }
}

impl Clone for WalletLinked {
    fn clone(&self) -> (r: Self)
        ensures
            r@ == self@,
    {
        WalletLinked {
            token_id: self.token_id.clone(),
            player_id: self.player_id.clone(),
            wallet_address: self.wallet_address.clone(),
            jurisdiction: self.jurisdiction.clone(),
            serial_number: self.serial_number.clone(),
        }
    }
}

/// Domain events emitted by [`CardToken`].
#[derive(Debug, PartialEq, Eq)]
pub enum Event {
    /// An ERC-1155 card token was minted with staged metadata.
    CardTokenMinted(CardTokenMinted),
    /// A card's IPFS metadata record was staged (pinned) for its tokenId.
    MetadataStaged(MetadataStaged),
    /// A custodial/WalletConnect wallet was linked to a player for a cosmetic
    /// edition.
    WalletLinked(WalletLinked),
}

/// What an [`Event`] says.
#[verifier::ext_equal]
pub enum EventView {
    CardTokenMinted(CardTokenMintedView),
    MetadataStaged(MetadataStagedView),
    WalletLinked(WalletLinkedView),
}

impl View for Event {
    type V = EventView;

    open spec fn view(&self) -> EventView {
        match self {
            Event::CardTokenMinted(body) => EventView::CardTokenMinted(body@),
            Event::MetadataStaged(body) => EventView::MetadataStaged(body@),
            Event::WalletLinked(body) => EventView::WalletLinked(body@),
        }
    }
}

impl Clone for Event {
    fn clone(&self) -> (r: Self)
        ensures
            r@ == self@,
    {
        match self {
            Event::CardTokenMinted(body) => Event::CardTokenMinted(body.clone()),
            Event::MetadataStaged(body) => Event::MetadataStaged(body.clone()),
            Event::WalletLinked(body) => Event::WalletLinked(body.clone()),
        }
    }
}

impl EventView {
    /// The name under which the event is published.
    pub open spec fn event_type(self) -> Seq<char> {
        match self {
            EventView::CardTokenMinted(_) => "card.token.minted"@,
            EventView::MetadataStaged(_) => "metadata.staged"@,
            EventView::WalletLinked(_) => "wallet.linked"@,
        }
    }
}

impl Event {
    /// The name under which the event is published.
    pub fn event_type(&self) -> (r: &'static str)
        ensures
            r@ == self@.event_type(),
    {
        match self {
            Event::CardTokenMinted(_) => "card.token.minted",
            Event::MetadataStaged(_) => "metadata.staged",
            Event::WalletLinked(_) => "wallet.linked",
        }
    }
}

/// A command of this context, with its payload read.
pub enum Request {
    /// A [`MintCardTokenCmd`].
    MintCardTokenCmd(MintCardTokenCmd),
    /// A [`StageMetadataCmd`].
    StageMetadataCmd(StageMetadataCmd),
    /// A [`LinkWalletCmd`].
    LinkWalletCmd(LinkWalletCmd),
}

/// What a [`Request`] says.
#[verifier::ext_equal]
pub enum RequestView {
    MintCardTokenCmd(MintCardTokenCmdView),
    StageMetadataCmd(StageMetadataCmdView),
    LinkWalletCmd(LinkWalletCmdView),
}

impl View for Request {
    type V = RequestView;

    open spec fn view(&self) -> RequestView {
        match self {
            Request::MintCardTokenCmd(body) => RequestView::MintCardTokenCmd(body@),
            Request::StageMetadataCmd(body) => RequestView::StageMetadataCmd(body@),
            Request::LinkWalletCmd(body) => RequestView::LinkWalletCmd(body@),
        }
    }
}

/// The CardToken aggregate: one mintable ERC-1155 card token.
#[derive(Debug)]
pub struct CardToken {
    id: String,
    root: AggregateRoot<Event>,
    /// Whether ownership was verified server-authoritatively at match start.
    ownership_verified_server_authoritatively: bool,
    /// Whether the tokenId maps to a resolvable IPFS metadata record.
    ipfs_metadata_record_resolvable: bool,
    /// Serial numbers already consumed by minted cosmetic editions.
    used_serial_numbers: Vec<String>,
    /// Whether on-chain ownership has been verified before on-face render.
    on_chain_ownership_verified_for_render: bool,
}

/// What a [`CardToken`] says.
#[verifier::ext_equal]
pub struct CardTokenView {
    pub id: Seq<char>,
    pub events: Seq<EventView>,
    pub ownership_verified_server_authoritatively: bool,
    pub ipfs_metadata_record_resolvable: bool,
    pub used_serial_numbers: Seq<Seq<char>>,
    pub on_chain_ownership_verified_for_render: bool,
}

impl View for CardToken {
    type V = CardTokenView;

    closed spec fn view(&self) -> CardTokenView {
        CardTokenView {
            id: self.id@,
            events: self.root@,
            ownership_verified_server_authoritatively: self.ownership_verified_server_authoritatively,
            ipfs_metadata_record_resolvable: self.ipfs_metadata_record_resolvable,
            used_serial_numbers: text::texts(self.used_serial_numbers@),
            on_chain_ownership_verified_for_render: self.on_chain_ownership_verified_for_render,
        }
    }
}

impl CardTokenView {
    /// The message where ownership was asserted by the client.
    pub open spec fn ownership_fault(self) -> Option<Seq<char>> {
        if !self.ownership_verified_server_authoritatively {
            Some(
                "card token '"@ + self.id
                    + "' ownership was client-asserted; ownership is verified server-authoritatively at match start and client-asserted ownership is never trusted"@,
            )
        } else {
            None
        }
    }

    /// The message where no metadata record can be resolved.
    pub open spec fn metadata_fault(self) -> Option<Seq<char>> {
        if !self.ipfs_metadata_record_resolvable {
            Some(
                "card token '"@ + self.id
                    + "' does not map to a resolvable IPFS metadata record; every tokenId maps to metadata containing name, cost, art URL, and effect ref"@,
            )
        } else {
            None
        }
    }

    /// The message where the serial number is used up.
    pub open spec fn serial_fault(self, serial_number: Seq<char>) -> Option<Seq<char>> {
        if self.used_serial_numbers.contains(serial_number) {
            Some(
                "card token '"@ + self.id + "' serial number '"@ + serial_number
                    + "' has already been used; serialized cosmetic editions carry a unique, non-reusable serial number"@,
            )
        } else {
            None
        }
    }

    /// The message where on-chain ownership is not verified.
    pub open spec fn render_fault(self) -> Option<Seq<char>> {
        if !self.on_chain_ownership_verified_for_render {
            Some(
                "card token '"@ + self.id
                    + "' would render a cosmetic before verified on-chain ownership; a cosmetic renders on-face only after verified on-chain ownership"@,
            )
        } else {
            None
        }
    }

    /// The message of the first rule that refuses a [`MintCardTokenCmd`], if one does.
    pub open spec fn mint_card_token_fault(
        self,
        cmd: MintCardTokenCmdView,
    ) -> Option<Seq<char>> {
        if text::is_blank_text(cmd.token_id) {
            Some("card token '"@ + self.id + "' requires a valid tokenId to mint"@)
        } else if text::is_blank_text(cmd.ipfs_metadata_ref) {
            Some("card token '"@ + self.id + "' requires a valid ipfsMetadataRef to mint"@)
        } else if text::is_blank_text(cmd.serial_number) {
            Some("card token '"@ + self.id + "' requires a valid serialNumber to mint"@)
        } else if cmd.token_id != self.id {
            Some(
                "command targets card token '"@ + cmd.token_id
                    + "' but this aggregate is card token '"@ + self.id + "'"@,
            )
        } else {
            shared::first(
                self.ownership_fault(),
                shared::first(
                    self.metadata_fault(),
                    shared::first(self.serial_fault(cmd.serial_number), self.render_fault()),
                ),
            )
        }
    }

    /// The state after a [`MintCardTokenCmd`], and the answer to it.
    pub open spec fn mint_card_token(self, cmd: MintCardTokenCmdView) -> (
        CardTokenView,
        Reply<EventView>,
    ) {
        match self.mint_card_token_fault(cmd) {
            Some(message) => (self, shared::violation(message)),
            None => {
                let event = EventView::CardTokenMinted(CardTokenMintedView {
                    token_id: cmd.token_id,
                    ipfs_metadata_ref: cmd.ipfs_metadata_ref,
                    serial_number: cmd.serial_number,
                });
                (
                    CardTokenView {
                        used_serial_numbers: self.used_serial_numbers.push(cmd.serial_number),
                        events: self.events.push(event),
                        ..self
                    },
                    Ok(seq![event]),
                )
            },
        }
    }

    /// The message of the first rule that refuses a [`StageMetadataCmd`], if one does.
    pub open spec fn stage_metadata_fault(
        self,
        cmd: StageMetadataCmdView,
    ) -> Option<Seq<char>> {
        if text::is_blank_text(cmd.token_id) {
            Some("card token '"@ + self.id + "' requires a valid tokenId to stage metadata"@)
        } else if !cmd.metadata.is_resolvable() {
            Some(
                "card token '"@ + self.id
                    + "' requires a resolvable metadata record (name, cost, art URL, effect ref) to stage"@,
            )
        } else if text::is_blank_text(cmd.serial_number) {
            Some("card token '"@ + self.id + "' requires a valid serialNumber to stage metadata"@)
        } else if cmd.token_id != self.id {
            Some(
                "command targets card token '"@ + cmd.token_id
                    + "' but this aggregate is card token '"@ + self.id + "'"@,
            )
        } else {
            shared::first(
                self.ownership_fault(),
                shared::first(
                    self.metadata_fault(),
                    shared::first(self.serial_fault(cmd.serial_number), self.render_fault()),
                ),
            )
        }
    }

    /// The state after a [`StageMetadataCmd`], and the answer to it.
    pub open spec fn stage_metadata(self, cmd: StageMetadataCmdView) -> (
        CardTokenView,
        Reply<EventView>,
    ) {
        match self.stage_metadata_fault(cmd) {
            Some(message) => (self, shared::violation(message)),
            None => {
                let event = EventView::MetadataStaged(MetadataStagedView {
                    token_id: cmd.token_id,
                    metadata: cmd.metadata,
                    serial_number: cmd.serial_number,
                });
                (
                    CardTokenView {
                        used_serial_numbers: self.used_serial_numbers.push(cmd.serial_number),
                        events: self.events.push(event),
                        ..self
                    },
                    Ok(seq![event]),
                )
            },
        }
    }

    /// The message of the first rule that refuses a [`LinkWalletCmd`], if one does.
    pub open spec fn link_wallet_fault(
        self,
        cmd: LinkWalletCmdView,
    ) -> Option<Seq<char>> {
        if text::is_blank_text(cmd.token_id) {
            Some("card token '"@ + self.id + "' requires a valid tokenId to link a wallet"@)
        } else if text::is_blank_text(cmd.player_id) {
            Some("card token '"@ + self.id + "' requires a valid playerId to link a wallet"@)
        } else if text::is_blank_text(cmd.wallet_address) {
            Some("card token '"@ + self.id + "' requires a valid walletAddress to link a wallet"@)
        } else if text::is_blank_text(cmd.jurisdiction) {
            Some(
                "card token '"@ + self.id
                    + "' requires a valid jurisdiction to geo-check the wallet link"@,
            )
        } else if text::is_blank_text(cmd.serial_number) {
            Some("card token '"@ + self.id + "' requires a valid serialNumber to link a wallet"@)
        } else if cmd.token_id != self.id {
            Some(
                "command targets card token '"@ + cmd.token_id
                    + "' but this aggregate is card token '"@ + self.id + "'"@,
            )
        } else {
            shared::first(
                self.ownership_fault(),
                shared::first(
                    self.metadata_fault(),
                    shared::first(self.serial_fault(cmd.serial_number), self.render_fault()),
                ),
            )
        }
    }

    /// The state after a [`LinkWalletCmd`], and the answer to it.
    pub open spec fn link_wallet(self, cmd: LinkWalletCmdView) -> (
        CardTokenView,
        Reply<EventView>,
    ) {
        match self.link_wallet_fault(cmd) {
            Some(message) => (self, shared::violation(message)),
            None => {
                let event = EventView::WalletLinked(WalletLinkedView {
                    token_id: cmd.token_id,
                    player_id: cmd.player_id,
                    wallet_address: cmd.wallet_address,
                    jurisdiction: cmd.jurisdiction,
                    serial_number: cmd.serial_number,
                });
                (
                    CardTokenView {
                        used_serial_numbers: self.used_serial_numbers.push(cmd.serial_number),
                        events: self.events.push(event),
                        ..self
                    },
                    Ok(seq![event]),
                )
            },
        }
    }

    /// The state after a command, and the answer to it.
    pub open spec fn execute(self, command: CommandView<PayloadView<RequestView>>) -> (
        CardTokenView,
        Reply<EventView>,
    ) {
        if command.name == MintCardTokenCmd::COMMAND@ {
            match command.payload {
                PayloadView::Decoded(RequestView::MintCardTokenCmd(cmd)) => {
                    self.mint_card_token(cmd)
                },
                PayloadView::Decoded(_) => (
                    self,
                    shared::malformed_reply(MintCardTokenCmd::COMMAND@, OTHER_COMMAND@),
                ),
                PayloadView::Malformed(complaint) => (
                    self,
                    shared::malformed_reply(MintCardTokenCmd::COMMAND@, complaint),
                ),
            }
        } else if command.name == StageMetadataCmd::COMMAND@ {
            match command.payload {
                PayloadView::Decoded(RequestView::StageMetadataCmd(cmd)) => {
                    self.stage_metadata(cmd)
                },
                PayloadView::Decoded(_) => (
                    self,
                    shared::malformed_reply(StageMetadataCmd::COMMAND@, OTHER_COMMAND@),
                ),
                PayloadView::Malformed(complaint) => (
                    self,
                    shared::malformed_reply(StageMetadataCmd::COMMAND@, complaint),
                ),
            }
        } else if command.name == LinkWalletCmd::COMMAND@ {
            match command.payload {
                PayloadView::Decoded(RequestView::LinkWalletCmd(cmd)) => self.link_wallet(cmd),
                PayloadView::Decoded(_) => (
                    self,
                    shared::malformed_reply(LinkWalletCmd::COMMAND@, OTHER_COMMAND@),
                ),
                PayloadView::Malformed(complaint) => (
                    self,
                    shared::malformed_reply(LinkWalletCmd::COMMAND@, complaint),
                ),
            }
        } else {
            (self, shared::unknown(AGGREGATE_TYPE@, command.name))
        }
    }
}

impl CardToken {
    /// The name of the aggregate type.
    pub fn aggregate_type() -> (r: &'static str)
        ensures
            r@ == AGGREGATE_TYPE@,
    {
        AGGREGATE_TYPE
    }

    /// Creates a mint-ready token identified by `id`: ownership is server-
    /// authoritatively verified, staged IPFS metadata is resolvable, no serial
    /// numbers have been consumed, and on-chain ownership has been verified for
    /// render.
    pub fn new(id: &str) -> (r: Self)
        ensures
            r@ == (CardTokenView {
                id: id@,
                events: Seq::empty(),
                ownership_verified_server_authoritatively: true,
                ipfs_metadata_record_resolvable: true,
                used_serial_numbers: Seq::empty(),
                on_chain_ownership_verified_for_render: true,
            }),
    {
        proof {
            assert(text::texts(Seq::empty()) =~= Seq::<Seq<char>>::empty());
        }
        CardToken {
            id: id.to_owned(),
            root: AggregateRoot::new(),
            ownership_verified_server_authoritatively: true,
            ipfs_metadata_record_resolvable: true,
            used_serial_numbers: Vec::new(),
            on_chain_ownership_verified_for_render: true,
        }
    }

    /// This aggregate's identity.
    pub fn id(&self) -> (r: &str)
        ensures
            r@ == self@.id,
    {
        self.id.as_str()
    }

    /// The version: the number of events recorded.
    pub fn version(&self) -> (r: u64)
        ensures
            r == self@.events.len(),
    {
        self.root.version()
    }

    /// The events recorded and not yet persisted.
    pub fn uncommitted_events(&self) -> (r: &[Event])
        ensures
            shared::views(r@) == self@.events,
    {
        self.root.uncommitted_events()
    }

    /// Server-authoritative ownership invariant: client-asserted ownership is never
    /// trusted.
    fn ensure_ownership_verified_server_authoritatively(&self) -> (r: Result<(), DomainError>)
        ensures
            shared::broken(r) == shared::owed(self@.ownership_fault()),
    {
        if !self.ownership_verified_server_authoritatively {
            return shared::refuse(
                text::cat3(
                    "card token '", &self.id,
                    "' ownership was client-asserted; ownership is verified server-authoritatively at match start and client-asserted ownership is never trusted",
                ),
            );
        }
        Ok(())
    }

    /// Metadata invariant: every tokenId maps to a resolvable IPFS metadata record
    /// with all card render and rules fields.
    fn ensure_ipfs_metadata_record_resolvable(&self) -> (r: Result<(), DomainError>)
        ensures
            shared::broken(r) == shared::owed(self@.metadata_fault()),
    {
        if !self.ipfs_metadata_record_resolvable {
            return shared::refuse(
                text::cat3(
                    "card token '", &self.id,
                    "' does not map to a resolvable IPFS metadata record; every tokenId maps to metadata containing name, cost, art URL, and effect ref",
                ),
            );
        }
        Ok(())
    }

    /// Serial invariant: serialized cosmetic editions carry a unique, non-reusable
    /// serial number.
    fn ensure_serial_number_unused(&self, serial_number: &str) -> (r: Result<(), DomainError>)
        ensures
            shared::broken(r) == shared::owed(self@.serial_fault(serial_number@)),
    {
        if text::holds(&self.used_serial_numbers, serial_number) {
            return shared::refuse(
                text::cat5(
                    "card token '", &self.id, "' serial number '", serial_number,
                    "' has already been used; serialized cosmetic editions carry a unique, non-reusable serial number",
                ),
            );
        }
        Ok(())
    }

    /// Render invariant: a cosmetic renders on-face only after verified on-chain
    /// ownership.
    fn ensure_on_chain_ownership_verified_for_render(&self) -> (r: Result<(), DomainError>)
        ensures
            shared::broken(r) == shared::owed(self@.render_fault()),
    {
        if !self.on_chain_ownership_verified_for_render {
            return shared::refuse(
                text::cat3(
                    "card token '", &self.id,
                    "' would render a cosmetic before verified on-chain ownership; a cosmetic renders on-face only after verified on-chain ownership",
                ),
            );
        }
        Ok(())
    }

    /// Handles a mint: the command must carry this token, a metadata reference and
    /// a serial number, and the four invariants must hold. The serial number is
    /// used up.
    fn mint_card_token(&mut self, cmd: MintCardTokenCmd) -> (r: Result<
        Vec<Event>,
        DomainError,
    >)
        ensures
            final(self)@ == old(self)@.mint_card_token(cmd@).0,
            shared::reply(r) == old(self)@.mint_card_token(cmd@).1,
    {
        if text::is_blank(&cmd.token_id) {
            return shared::refuse(
                text::cat3(
                    "card token '", &self.id, "' requires a valid tokenId to mint",
                ),
            );
        }
        if text::is_blank(&cmd.ipfs_metadata_ref) {
            return shared::refuse(
                text::cat3(
                    "card token '", &self.id, "' requires a valid ipfsMetadataRef to mint",
                ),
            );
        }
        if text::is_blank(&cmd.serial_number) {
            return shared::refuse(
                text::cat3(
                    "card token '", &self.id, "' requires a valid serialNumber to mint",
                ),
            );
        }
        if !text::same(&cmd.token_id, &self.id) {
            return shared::refuse(
                text::cat5(
                    "command targets card token '", &cmd.token_id,
                    "' but this aggregate is card token '", &self.id, "'",
                ),
            );
        }
        if let Err(error) = self.ensure_ownership_verified_server_authoritatively() {
            return Err(error);
        }
        if let Err(error) = self.ensure_ipfs_metadata_record_resolvable() {
            return Err(error);
        }
        if let Err(error) = self.ensure_serial_number_unused(&cmd.serial_number) {
            return Err(error);
        }
        if let Err(error) = self.ensure_on_chain_ownership_verified_for_render() {
            return Err(error);
        }
        self.used_serial_numbers.push(cmd.serial_number.clone());
        proof {
            assert(self@.used_serial_numbers =~= old(self)@.used_serial_numbers.push(cmd@.serial_number));
        }
        let event = Event::CardTokenMinted(
            CardTokenMinted {
                token_id: cmd.token_id,
                ipfs_metadata_ref: cmd.ipfs_metadata_ref,
                serial_number: cmd.serial_number,
            },
        );
        self.root.record(event.clone());
        Ok(shared::only(event))
    }

    /// Handles metadata being staged: the command must carry this token, a
    /// resolvable record and a serial number, and the four invariants must hold.
    /// The serial number is used up.
    fn stage_metadata(&mut self, cmd: StageMetadataCmd) -> (r: Result<
        Vec<Event>,
        DomainError,
    >)
        ensures
            final(self)@ == old(self)@.stage_metadata(cmd@).0,
            shared::reply(r) == old(self)@.stage_metadata(cmd@).1,
    {
        if text::is_blank(&cmd.token_id) {
            return shared::refuse(
                text::cat3(
                    "card token '", &self.id, "' requires a valid tokenId to stage metadata",
                ),
            );
        }
        if !cmd.metadata.is_resolvable() {
            return shared::refuse(
                text::cat3(
                    "card token '", &self.id,
                    "' requires a resolvable metadata record (name, cost, art URL, effect ref) to stage",
                ),
            );
        }
        if text::is_blank(&cmd.serial_number) {
            return shared::refuse(
                text::cat3(
                    "card token '", &self.id, "' requires a valid serialNumber to stage metadata",
                ),
            );
        }
        if !text::same(&cmd.token_id, &self.id) {
            return shared::refuse(
                text::cat5(
                    "command targets card token '", &cmd.token_id,
                    "' but this aggregate is card token '", &self.id, "'",
                ),
            );
        }
        if let Err(error) = self.ensure_ownership_verified_server_authoritatively() {
            return Err(error);
        }
        if let Err(error) = self.ensure_ipfs_metadata_record_resolvable() {
            return Err(error);
        }
        if let Err(error) = self.ensure_serial_number_unused(&cmd.serial_number) {
            return Err(error);
        }
        if let Err(error) = self.ensure_on_chain_ownership_verified_for_render() {
            return Err(error);
        }
        self.used_serial_numbers.push(cmd.serial_number.clone());
        proof {
            assert(self@.used_serial_numbers =~= old(self)@.used_serial_numbers.push(cmd@.serial_number));
        }
        let event = Event::MetadataStaged(
            MetadataStaged {
                token_id: cmd.token_id,
                metadata: cmd.metadata,
                serial_number: cmd.serial_number,
            },
        );
        self.root.record(event.clone());
        Ok(shared::only(event))
    }

    /// Handles a wallet link: the command must carry this token, a player, a wallet
    /// address, a jurisdiction and a serial number, and the four invariants must
    /// hold. The serial number is used up.
    fn link_wallet(&mut self, cmd: LinkWalletCmd) -> (r: Result<
        Vec<Event>,
        DomainError,
    >)
        ensures
            final(self)@ == old(self)@.link_wallet(cmd@).0,
            shared::reply(r) == old(self)@.link_wallet(cmd@).1,
    {
        if text::is_blank(&cmd.token_id) {
            return shared::refuse(
                text::cat3(
                    "card token '", &self.id, "' requires a valid tokenId to link a wallet",
                ),
            );
        }
        if text::is_blank(&cmd.player_id) {
            return shared::refuse(
                text::cat3(
                    "card token '", &self.id, "' requires a valid playerId to link a wallet",
                ),
            );
        }
        if text::is_blank(&cmd.wallet_address) {
            return shared::refuse(
                text::cat3(
                    "card token '", &self.id, "' requires a valid walletAddress to link a wallet",
                ),
            );
        }
        if text::is_blank(&cmd.jurisdiction) {
            return shared::refuse(
                text::cat3(
                    "card token '", &self.id,
                    "' requires a valid jurisdiction to geo-check the wallet link",
                ),
            );
        }
        if text::is_blank(&cmd.serial_number) {
            return shared::refuse(
                text::cat3(
                    "card token '", &self.id, "' requires a valid serialNumber to link a wallet",
                ),
            );
        }
        if !text::same(&cmd.token_id, &self.id) {
            return shared::refuse(
                text::cat5(
                    "command targets card token '", &cmd.token_id,
                    "' but this aggregate is card token '", &self.id, "'",
                ),
            );
        }
        if let Err(error) = self.ensure_ownership_verified_server_authoritatively() {
            return Err(error);
        }
        if let Err(error) = self.ensure_ipfs_metadata_record_resolvable() {
            return Err(error);
        }
        if let Err(error) = self.ensure_serial_number_unused(&cmd.serial_number) {
            return Err(error);
        }
        if let Err(error) = self.ensure_on_chain_ownership_verified_for_render() {
            return Err(error);
        }
        self.used_serial_numbers.push(cmd.serial_number.clone());
        proof {
            assert(self@.used_serial_numbers =~= old(self)@.used_serial_numbers.push(cmd@.serial_number));
        }
        let event = Event::WalletLinked(
            WalletLinked {
                token_id: cmd.token_id,
                player_id: cmd.player_id,
                wallet_address: cmd.wallet_address,
                jurisdiction: cmd.jurisdiction,
                serial_number: cmd.serial_number,
            },
        );
        self.root.record(event.clone());
        Ok(shared::only(event))
    }

    /// Carries out a command, or says why it is refused.
    pub fn execute(&mut self, command: Command<Payload<Request>>) -> (r: Result<
        Vec<Event>,
        DomainError,
    >)
        ensures
            final(self)@ == old(self)@.execute(command@).0,
            shared::reply(r) == old(self)@.execute(command@).1,
    {
        if text::same(&command.name, MintCardTokenCmd::COMMAND) {
            match command.payload {
                Payload::Decoded(Request::MintCardTokenCmd(cmd)) => self.mint_card_token(cmd),
                Payload::Decoded(_) => shared::malformed(MintCardTokenCmd::COMMAND, OTHER_COMMAND),
                Payload::Malformed(complaint) => {
                    shared::malformed(MintCardTokenCmd::COMMAND, &complaint)
                },
            }
        } else if text::same(&command.name, StageMetadataCmd::COMMAND) {
            match command.payload {
                Payload::Decoded(Request::StageMetadataCmd(cmd)) => self.stage_metadata(cmd),
                Payload::Decoded(_) => shared::malformed(StageMetadataCmd::COMMAND, OTHER_COMMAND),
                Payload::Malformed(complaint) => {
                    shared::malformed(StageMetadataCmd::COMMAND, &complaint)
                },
            }
        } else if text::same(&command.name, LinkWalletCmd::COMMAND) {
            match command.payload {
                Payload::Decoded(Request::LinkWalletCmd(cmd)) => self.link_wallet(cmd),
                Payload::Decoded(_) => shared::malformed(LinkWalletCmd::COMMAND, OTHER_COMMAND),
                Payload::Malformed(complaint) => {
                    shared::malformed(LinkWalletCmd::COMMAND, &complaint)
                },
            }
        } else {
            Err(DomainError::unknown_command(AGGREGATE_TYPE, command.name))
        }
    }

    /// Records whether ownership was verified server-authoritatively at match start
    /// (`false` models client-asserted ownership).
    pub fn set_ownership_verified_server_authoritatively(&mut self, verified: bool)
        ensures
            final(self)@ == (CardTokenView {
                ownership_verified_server_authoritatively: verified,
                ..old(self)@
            }),
    {
        self.ownership_verified_server_authoritatively = verified;
    }

    /// Records whether this tokenId maps to a resolvable IPFS metadata record.
    pub fn set_ipfs_metadata_record_resolvable(&mut self, resolvable: bool)
        ensures
            final(self)@ == (CardTokenView {
                ipfs_metadata_record_resolvable: resolvable,
                ..old(self)@
            }),
    {
        self.ipfs_metadata_record_resolvable = resolvable;
    }

    /// Records whether on-chain ownership was verified before the cosmetic can
    /// render on-face.
    pub fn set_on_chain_ownership_verified_for_render(&mut self, verified: bool)
        ensures
            final(self)@ == (CardTokenView {
                on_chain_ownership_verified_for_render: verified,
                ..old(self)@
            }),
    {
        self.on_chain_ownership_verified_for_render = verified;
    }

    /// Marks a serial number as already consumed by a minted cosmetic edition.
    pub fn record_used_serial_number(&mut self, serial_number: &str)
        ensures
            final(self)@ == (CardTokenView {
                used_serial_numbers: old(self)@.used_serial_numbers.push(serial_number@),
                ..old(self)@
            }),
    {
        self.used_serial_numbers.push(serial_number.to_owned());
        assert(self@.used_serial_numbers =~= old(self)@.used_serial_numbers.push(serial_number@));
    }
}

/// The repository port of the [`CardToken`] aggregate: an adapter implements
/// [`Repository`] for it and then this marker.
pub trait CardTokenRepository: Repository<CardToken> {

}

impl CardTokenView {
    /// A refused command changes nothing: neither the state nor the events.
    pub proof fn law_refusal_changes_nothing(
        self,
        command: CommandView<PayloadView<RequestView>>,
    )
        ensures
            self.execute(command).1 is Err ==> self.execute(command).0 == self,
    {
    }

    /// An accepted command records exactly the events it answers with, behind
    /// those recorded before.
    pub proof fn law_events_are_recorded(self, command: CommandView<PayloadView<RequestView>>)
        ensures
            self.execute(command).1 matches Ok(events) ==> {
                &&& events.len() == 1
                &&& self.execute(command).0.events == self.events + events
            },
    {
        if let Ok(events) = self.execute(command).1 {
            assert(self.execute(command).0.events =~= self.events + events);
        }
    }

    /// The serial number of a request.
    pub open spec fn serial_of(request: RequestView) -> Seq<char> {
        match request {
            RequestView::MintCardTokenCmd(cmd) => cmd.serial_number,
            RequestView::StageMetadataCmd(cmd) => cmd.serial_number,
            RequestView::LinkWalletCmd(cmd) => cmd.serial_number,
        }
    }

    /// Serial numbers are unique and not reusable: an accepted command used a
    /// serial number that was free and uses it up, and gives none back.
    pub proof fn law_serials_are_used_up(self, name: Seq<char>, request: RequestView)
        ensures
            ({
                let command = CommandView { name, payload: PayloadView::Decoded(request) };
                let after = self.execute(command).0;
                &&& self.execute(command).1 is Ok ==> !self.used_serial_numbers.contains(
                    Self::serial_of(request),
                ) && after.used_serial_numbers == self.used_serial_numbers.push(
                    Self::serial_of(request),
                )
                &&& self.used_serial_numbers.is_prefix_of(after.used_serial_numbers)
            }),
    {
    }

    /// A token is minted exactly where the command names it, a metadata reference
    /// and a serial number that is not used up, and the invariants hold.
    pub proof fn law_mint_is_owed(self, cmd: MintCardTokenCmdView)
        ensures
            self.mint_card_token(cmd).1 is Ok <==> {
                &&& cmd.token_id == self.id
                &&& !text::is_blank_text(cmd.token_id)
                &&& !text::is_blank_text(cmd.ipfs_metadata_ref)
                &&& !text::is_blank_text(cmd.serial_number)
                &&& self.ownership_verified_server_authoritatively
                &&& self.ipfs_metadata_record_resolvable
                &&& !self.used_serial_numbers.contains(cmd.serial_number)
                &&& self.on_chain_ownership_verified_for_render
            },
    {
    }

    /// Metadata is staged exactly where the command names the token, a resolvable
    /// record and a serial number that is not used up, and the invariants hold.
    pub proof fn law_staging_is_owed(self, cmd: StageMetadataCmdView)
        ensures
            self.stage_metadata(cmd).1 is Ok <==> {
                &&& cmd.token_id == self.id
                &&& !text::is_blank_text(cmd.token_id)
                &&& !text::is_blank_text(cmd.serial_number)
                &&& !text::is_blank_text(cmd.metadata.name)
                &&& !text::is_blank_text(cmd.metadata.art_url)
                &&& !text::is_blank_text(cmd.metadata.effect_ref)
                &&& self.ownership_verified_server_authoritatively
                &&& self.ipfs_metadata_record_resolvable
                &&& !self.used_serial_numbers.contains(cmd.serial_number)
                &&& self.on_chain_ownership_verified_for_render
            },
    {
    }

    /// A wallet is linked exactly where the command names the token, a player, a
    /// wallet, a jurisdiction and a serial number that is not used up, and the
    /// invariants hold.
    pub proof fn law_link_is_owed(self, cmd: LinkWalletCmdView)
        ensures
            self.link_wallet(cmd).1 is Ok <==> {
                &&& cmd.token_id == self.id
                &&& !text::is_blank_text(cmd.token_id)
                &&& !text::is_blank_text(cmd.player_id)
                &&& !text::is_blank_text(cmd.wallet_address)
                &&& !text::is_blank_text(cmd.jurisdiction)
                &&& !text::is_blank_text(cmd.serial_number)
                &&& self.ownership_verified_server_authoritatively
                &&& self.ipfs_metadata_record_resolvable
                &&& !self.used_serial_numbers.contains(cmd.serial_number)
                &&& self.on_chain_ownership_verified_for_render
            },
    {
    }

    /// A serial number that is used up is refused by every command.
    pub proof fn law_used_serial_is_refused(self, name: Seq<char>, request: RequestView)
        requires
            self.used_serial_numbers.contains(Self::serial_of(request)),
        ensures
            self.execute(CommandView { name, payload: PayloadView::Decoded(request) }).1 is Err,
    {
    }

    /// The state after a sequence of commands, accepted and refused ones alike.
    pub open spec fn after(
        self,
        commands: Seq<CommandView<PayloadView<RequestView>>>,
    ) -> CardTokenView
        decreases commands.len(),
    {
        if commands.len() == 0 {
            self
        } else {
            self.after(commands.drop_last()).execute(commands.last()).0
        }
    }

    /// A serial number that is used up stays used up, whatever commands come.
    pub proof fn law_serials_are_never_freed(
        self,
        commands: Seq<CommandView<PayloadView<RequestView>>>,
        serial: Seq<char>,
    )
        requires
            self.used_serial_numbers.contains(serial),
        ensures
            self.after(commands).used_serial_numbers.contains(serial),
        decreases commands.len(),
    {
        if commands.len() > 0 {
            self.law_serials_are_never_freed(commands.drop_last(), serial);
            let before = self.after(commands.drop_last()).used_serial_numbers;
            let now = self.after(commands).used_serial_numbers;
            let i = choose|i: int| 0 <= i < before.len() && before[i] == serial;
            assert(now[i] == serial);
        }
    }

    /// No serial number is used twice, where none was before.
    pub proof fn law_serials_stay_unique(self, command: CommandView<PayloadView<RequestView>>)
        requires
            self.used_serial_numbers.no_duplicates(),
        ensures
            self.execute(command).0.used_serial_numbers.no_duplicates(),
    {
    }
}

impl CardTokenView {
    /// Every command goes to its own handler, a payload that does not read is
    /// refused with the complaint about it, and a name that is none of these is
    /// unknown; what is refused otherwise is refused for a broken rule.
    pub proof fn law_commands_are_routed(self, command: CommandView<PayloadView<RequestView>>)
        ensures
            command.name == "MintCardTokenCmd"@ ==> match command.payload {
                PayloadView::Decoded(RequestView::MintCardTokenCmd(cmd)) => self.execute(command)
                    == self.mint_card_token(cmd),
                PayloadView::Decoded(_) => self.execute(command).1 is Err,
                PayloadView::Malformed(complaint) => self.execute(command).1 == shared::violation::<
                    EventView,
                >("malformed "@ + "MintCardTokenCmd"@ + " payload: "@ + complaint),
            },
            command.name == "StageMetadataCmd"@ ==> match command.payload {
                PayloadView::Decoded(RequestView::StageMetadataCmd(cmd)) => self.execute(command)
                    == self.stage_metadata(cmd),
                PayloadView::Decoded(_) => self.execute(command).1 is Err,
                PayloadView::Malformed(complaint) => self.execute(command).1 == shared::violation::<
                    EventView,
                >("malformed "@ + "StageMetadataCmd"@ + " payload: "@ + complaint),
            },
            command.name == "LinkWalletCmd"@ ==> match command.payload {
                PayloadView::Decoded(RequestView::LinkWalletCmd(cmd)) => self.execute(command)
                    == self.link_wallet(cmd),
                PayloadView::Decoded(_) => self.execute(command).1 is Err,
                PayloadView::Malformed(complaint) => self.execute(command).1 == shared::violation::<
                    EventView,
                >("malformed "@ + "LinkWalletCmd"@ + " payload: "@ + complaint),
            },
            ({
                &&& command.name != "MintCardTokenCmd"@
                &&& command.name != "StageMetadataCmd"@
                &&& command.name != "LinkWalletCmd"@
            }) ==> self.execute(command).1 == Err::<
                Seq<EventView>,
                shared::DomainErrorView,
            >(
                shared::DomainErrorView::UnknownCommand {
                    aggregate: "CardToken"@,
                    command: command.name,
                },
            ),
            self.execute(command).1 matches Err(error) ==> (error is InvariantViolation <==> {
                ||| command.name == "MintCardTokenCmd"@
                ||| command.name == "StageMetadataCmd"@
                ||| command.name == "LinkWalletCmd"@
            }),
    {
        reveal_strlit("MintCardTokenCmd");
        reveal_strlit("StageMetadataCmd");
        reveal_strlit("LinkWalletCmd");
        assert("MintCardTokenCmd"@[0] == 'M');
        assert("StageMetadataCmd"@[0] == 'S');
        assert("MintCardTokenCmd"@.len() == 16);
        assert("LinkWalletCmd"@.len() == 13);
        assert("StageMetadataCmd"@.len() == 16);
    }

    /// A mint records the token, the metadata reference and the serial number that
    /// were submitted and uses the serial number up; nothing else changes.
    pub proof fn law_mint_records_the_token(self, cmd: MintCardTokenCmdView)
        requires
            self.mint_card_token(cmd).1 is Ok,
        ensures
            ({
                let after = self.mint_card_token(cmd).0;
                &&& self.mint_card_token(cmd).1 matches Ok(events)
                &&& events.len() == 1
                &&& events[0].event_type() == "card.token.minted"@
                &&& events[0] matches EventView::CardTokenMinted(said)
                &&& said.token_id == cmd.token_id
                &&& said.ipfs_metadata_ref == cmd.ipfs_metadata_ref
                &&& said.serial_number == cmd.serial_number
                &&& after.used_serial_numbers == self.used_serial_numbers.push(cmd.serial_number)
                &&& after == (CardTokenView {
                    used_serial_numbers: after.used_serial_numbers,
                    events: self.events.push(events[0]),
                    ..self
                })
            }),
    {
    }

    /// A staging records the token, the metadata and the serial number that were
    /// submitted and uses the serial number up; nothing else changes.
    pub proof fn law_staging_records_the_metadata(self, cmd: StageMetadataCmdView)
        requires
            self.stage_metadata(cmd).1 is Ok,
        ensures
            ({
                let after = self.stage_metadata(cmd).0;
                &&& self.stage_metadata(cmd).1 matches Ok(events)
                &&& events.len() == 1
                &&& events[0].event_type() == "metadata.staged"@
                &&& events[0] matches EventView::MetadataStaged(said)
                &&& said.token_id == cmd.token_id
                &&& said.metadata.name == cmd.metadata.name
                &&& said.metadata.cost == cmd.metadata.cost
                &&& said.metadata.art_url == cmd.metadata.art_url
                &&& said.metadata.effect_ref == cmd.metadata.effect_ref
                &&& said.serial_number == cmd.serial_number
                &&& after.used_serial_numbers == self.used_serial_numbers.push(cmd.serial_number)
                &&& after == (CardTokenView {
                    used_serial_numbers: after.used_serial_numbers,
                    events: self.events.push(events[0]),
                    ..self
                })
            }),
    {
    }

    /// A link records the token, the player, the wallet, the jurisdiction and the
    /// serial number that were submitted and uses the serial number up; nothing
    /// else changes.
    pub proof fn law_link_records_the_wallet(self, cmd: LinkWalletCmdView)
        requires
            self.link_wallet(cmd).1 is Ok,
        ensures
            ({
                let after = self.link_wallet(cmd).0;
                &&& self.link_wallet(cmd).1 matches Ok(events)
                &&& events.len() == 1
                &&& events[0].event_type() == "wallet.linked"@
                &&& events[0] matches EventView::WalletLinked(said)
                &&& said.token_id == cmd.token_id
                &&& said.player_id == cmd.player_id
                &&& said.wallet_address == cmd.wallet_address
                &&& said.jurisdiction == cmd.jurisdiction
                &&& said.serial_number == cmd.serial_number
                &&& after.used_serial_numbers == self.used_serial_numbers.push(cmd.serial_number)
                &&& after == (CardTokenView {
                    used_serial_numbers: after.used_serial_numbers,
                    events: self.events.push(events[0]),
                    ..self
                })
            }),
    {
    }
}

impl StagedMetadata {
    /// The view leaves nothing out: where two views agree, so does every field.
    pub proof fn law_view_leaves_nothing_out(self, other: StagedMetadata)
        requires
            self@ == other@,
        ensures
            self.name@ == other.name@,
            self.cost == other.cost,
            self.art_url@ == other.art_url@,
            self.effect_ref@ == other.effect_ref@,
    {
    }
}

impl MintCardTokenCmd {
    /// The view leaves nothing out: where two views agree, so does every field.
    pub proof fn law_view_leaves_nothing_out(self, other: MintCardTokenCmd)
        requires
            self@ == other@,
        ensures
            self.token_id@ == other.token_id@,
            self.ipfs_metadata_ref@ == other.ipfs_metadata_ref@,
            self.serial_number@ == other.serial_number@,
    {
    }
}

impl StageMetadataCmd {
    /// The view leaves nothing out: where two views agree, so does every field.
    pub proof fn law_view_leaves_nothing_out(self, other: StageMetadataCmd)
        requires
            self@ == other@,
        ensures
            self.token_id@ == other.token_id@,
            self.metadata@ == other.metadata@,
            self.serial_number@ == other.serial_number@,
    {
    }
}

impl LinkWalletCmd {
    /// The view leaves nothing out: where two views agree, so does every field.
    pub proof fn law_view_leaves_nothing_out(self, other: LinkWalletCmd)
        requires
            self@ == other@,
        ensures
            self.token_id@ == other.token_id@,
            self.player_id@ == other.player_id@,
            self.wallet_address@ == other.wallet_address@,
            self.jurisdiction@ == other.jurisdiction@,
            self.serial_number@ == other.serial_number@,
    {
    }
}

impl CardTokenMinted {
    /// The view leaves nothing out: where two views agree, so does every field.
    pub proof fn law_view_leaves_nothing_out(self, other: CardTokenMinted)
        requires
            self@ == other@,
        ensures
            self.token_id@ == other.token_id@,
            self.ipfs_metadata_ref@ == other.ipfs_metadata_ref@,
            self.serial_number@ == other.serial_number@,
    {
    }
}

impl MetadataStaged {
    /// The view leaves nothing out: where two views agree, so does every field.
    pub proof fn law_view_leaves_nothing_out(self, other: MetadataStaged)
        requires
            self@ == other@,
        ensures
            self.token_id@ == other.token_id@,
            self.metadata@ == other.metadata@,
            self.serial_number@ == other.serial_number@,
    {
    }
}

impl WalletLinked {
    /// The view leaves nothing out: where two views agree, so does every field.
    pub proof fn law_view_leaves_nothing_out(self, other: WalletLinked)
        requires
            self@ == other@,
        ensures
            self.token_id@ == other.token_id@,
            self.player_id@ == other.player_id@,
            self.wallet_address@ == other.wallet_address@,
            self.jurisdiction@ == other.jurisdiction@,
            self.serial_number@ == other.serial_number@,
    {
    }
}

impl Event {
    /// The view leaves nothing out: where two views agree, so do the variants and
    /// what they carry.
    pub proof fn law_view_leaves_nothing_out(self, other: Event)
        requires
            self@ == other@,
        ensures
            match (self, other) {
                (Event::CardTokenMinted(a), Event::CardTokenMinted(b)) => a@ == b@,
                (Event::MetadataStaged(a), Event::MetadataStaged(b)) => a@ == b@,
                (Event::WalletLinked(a), Event::WalletLinked(b)) => a@ == b@,
                _ => false,
            },
    {
    }
}

impl Request {
    /// The view leaves nothing out: where two views agree, so do the variants and
    /// what they carry.
    pub proof fn law_view_leaves_nothing_out(self, other: Request)
        requires
            self@ == other@,
        ensures
            match (self, other) {
                (Request::MintCardTokenCmd(a), Request::MintCardTokenCmd(b)) => a@ == b@,
                (Request::StageMetadataCmd(a), Request::StageMetadataCmd(b)) => a@ == b@,
                (Request::LinkWalletCmd(a), Request::LinkWalletCmd(b)) => a@ == b@,
                _ => false,
            },
    {
    }
}

} // verus!
