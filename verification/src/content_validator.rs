//! Validation of the shipped card catalog.
//!
//! The catalog ships as data files. Each card entry is fed through the very same
//! [`CardDefinition::execute`] path that the server uses, so the validator can
//! never drift from the catalog rules. On top of the check of each entry, catalog
//! identities are unique across files, which no single aggregate can see.
use crate::card_definition::CardDefinition;
use crate::card_definition::CardDefinitionView;
use crate::card_definition::DefineCardCmd;
use crate::card_definition::DefineCardCmdView;
use crate::card_definition::RequestView;
use crate::shared;
use crate::shared::CommandView;
use crate::shared::DomainError;
use crate::shared::DomainErrorView;
use crate::shared::PayloadView;
use crate::text;
use vstd::prelude::*;

verus! {

/// What came of reading a catalog file.
pub enum Content {
    /// The file could not be read; the text says why.
    Unreadable(String),
    /// The file is no catalog; the text says why.
    Malformed(String),
    /// The cards that the file defines, in order.
    Cards(Vec<DefineCardCmd>),
}

/// What a [`Content`] says.
#[verifier::ext_equal]
pub enum ContentView {
    Unreadable(Seq<char>),
    Malformed(Seq<char>),
    Cards(Seq<DefineCardCmdView>),
}

impl View for Content {
    type V = ContentView;

    open spec fn view(&self) -> ContentView {
        match self {
            Content::Unreadable(reason) => ContentView::Unreadable(reason@),
            Content::Malformed(reason) => ContentView::Malformed(reason@),
            Content::Cards(cards) => ContentView::Cards(shared::views(cards@)),
        }
    }
}

/// A catalog file: where it is and what came of reading it.
pub struct CatalogFile {
    /// The path, as it is shown.
    pub path: String,
    /// What came of reading the file.
    pub content: Content,
}

/// What a [`CatalogFile`] says.
#[verifier::ext_equal]
pub struct CatalogFileView {
    pub path: Seq<char>,
    pub content: ContentView,
}

impl View for CatalogFile {
    type V = CatalogFileView;

    open spec fn view(&self) -> CatalogFileView {
        CatalogFileView { path: self.path@, content: self.content@ }
    }
}

/// Something wrong with the catalog.
pub enum Problem {
    /// A file could not be read.
    Unreadable {
        /// The file.
        path: String,
        /// Why it could not be read.
        reason: String,
    },
    /// A file is no catalog.
    Malformed {
        /// The file.
        path: String,
        /// What is wrong with it.
        reason: String,
    },
    /// A card was defined before.
    Duplicate {
        /// The file that defines the card again.
        path: String,
        /// The card.
        card_id: String,
        /// The file that defined the card first.
        first: String,
    },
    /// A card breaks a rule of the catalog.
    Invalid {
        /// The file.
        path: String,
        /// The card.
        card_id: String,
        /// The answer to the card's definition.
        error: DomainError,
    },
}

/// What a [`Problem`] says.
#[verifier::ext_equal]
pub enum ProblemView {
    Unreadable { path: Seq<char>, reason: Seq<char> },
    Malformed { path: Seq<char>, reason: Seq<char> },
    Duplicate { path: Seq<char>, card_id: Seq<char>, first: Seq<char> },
    Invalid { path: Seq<char>, card_id: Seq<char>, error: DomainErrorView },
}

impl View for Problem {
    type V = ProblemView;

    open spec fn view(&self) -> ProblemView {
        match self {
            Problem::Unreadable { path, reason } => ProblemView::Unreadable {
                path: path@,
                reason: reason@,
            },
            Problem::Malformed { path, reason } => ProblemView::Malformed {
                path: path@,
                reason: reason@,
            },
            Problem::Duplicate { path, card_id, first } => ProblemView::Duplicate {
                path: path@,
                card_id: card_id@,
                first: first@,
            },
            Problem::Invalid { path, card_id, error } => ProblemView::Invalid {
                path: path@,
                card_id: card_id@,
                error: error@,
            },
        }
    }
}

/// A card id and the file that defines it.
pub struct Entry {
    /// The card.
    pub card_id: String,
    /// The file.
    pub path: String,
}

/// What an [`Entry`] says.
#[verifier::ext_equal]
pub struct EntryView {
    pub card_id: Seq<char>,
    pub path: Seq<char>,
}

impl View for Entry {
    type V = EntryView;

    open spec fn view(&self) -> EntryView {
        EntryView { card_id: self.card_id@, path: self.path@ }
    }
}

/// The file that the first entry for a card names, if there is an entry for it.
pub open spec fn first_definition(entries: Seq<EntryView>, card_id: Seq<char>) -> Option<Seq<char>>
    decreases entries.len(),
{
    if entries.len() == 0 {
        None
    } else if first_definition(entries.drop_last(), card_id) is Some {
        first_definition(entries.drop_last(), card_id)
    } else if entries.last().card_id == card_id {
        Some(entries.last().path)
    } else {
        None
    }
}

/// The entries of the cards of one file.
pub open spec fn card_entries(path: Seq<char>, cards: Seq<DefineCardCmdView>) -> Seq<EntryView> {
    Seq::new(cards.len(), |i: int| EntryView { card_id: cards[i].card_id, path })
}

/// The cards of a file; none where it could not be read.
pub open spec fn file_cards(file: CatalogFileView) -> Seq<DefineCardCmdView> {
    match file.content {
        ContentView::Cards(cards) => cards,
        _ => Seq::empty(),
    }
}

/// The entries of a catalog, in order.
pub open spec fn entries(files: Seq<CatalogFileView>) -> Seq<EntryView>
    decreases files.len(),
{
    if files.len() == 0 {
        Seq::empty()
    } else {
        entries(files.drop_last()) + card_entries(files.last().path, file_cards(files.last()))
    }
}

/// The error that defining the card gives, if it gives one.
pub open spec fn definition_error(card: DefineCardCmdView) -> Option<DomainErrorView> {
    let fresh = CardDefinitionView { id: card.card_id, events: Seq::empty() };
    let command = CommandView {
        name: DefineCardCmd::COMMAND@,
        payload: PayloadView::Decoded(RequestView::DefineCardCmd(card)),
    };
    match fresh.execute(command).1 {
        Ok(_) => None,
        Err(error) => Some(error),
    }
}

/// What is wrong with a card, given the entries before it.
pub open spec fn card_problem(
    before: Seq<EntryView>,
    path: Seq<char>,
    card: DefineCardCmdView,
) -> Option<ProblemView> {
    if let Some(first) = first_definition(before, card.card_id) {
        Some(ProblemView::Duplicate { path, card_id: card.card_id, first })
    } else if let Some(error) = definition_error(card) {
        Some(ProblemView::Invalid { path, card_id: card.card_id, error })
    } else {
        None
    }
}

/// A problem as a sequence.
pub open spec fn listed(problem: Option<ProblemView>) -> Seq<ProblemView> {
    match problem {
        Some(problem) => seq![problem],
        None => Seq::empty(),
    }
}

/// What is wrong with the cards of a file, given the entries before them.
pub open spec fn card_problems(
    before: Seq<EntryView>,
    path: Seq<char>,
    cards: Seq<DefineCardCmdView>,
) -> Seq<ProblemView>
    decreases cards.len(),
{
    if cards.len() == 0 {
        Seq::empty()
    } else {
        let rest = cards.drop_last();
        card_problems(before, path, rest) + listed(
            card_problem(before + card_entries(path, rest), path, cards.last()),
        )
    }
}

/// What is wrong with a file, given the entries before it.
pub open spec fn file_problems(before: Seq<EntryView>, file: CatalogFileView) -> Seq<ProblemView> {
    match file.content {
        ContentView::Unreadable(reason) => seq![
            ProblemView::Unreadable { path: file.path, reason },
        ],
        ContentView::Malformed(reason) => seq![ProblemView::Malformed { path: file.path, reason }],
        ContentView::Cards(cards) => card_problems(before, file.path, cards),
    }
}

/// What is wrong with a catalog, in order.
pub open spec fn problems(files: Seq<CatalogFileView>) -> Seq<ProblemView>
    decreases files.len(),
{
    if files.len() == 0 {
        Seq::empty()
    } else {
        problems(files.drop_last()) + file_problems(entries(files.drop_last()), files.last())
    }
}

/// What validating a catalog came to.
pub struct Report {
    /// What is wrong with the catalog, in order.
    pub problems: Vec<Problem>,
    /// How many cards the catalog holds.
    pub card_count: usize,
}

impl Report {
    /// Whether nothing is wrong with the catalog.
    pub fn is_clean(&self) -> (r: bool)
        ensures
            r == (self.problems@.len() == 0),
    {
        self.problems.len() == 0
    }
}

/// An entry more changes nothing for a card that had one.
proof fn lemma_first_definition_push(
    seen: Seq<EntryView>,
    entry: EntryView,
    card_id: Seq<char>,
)
    ensures
        first_definition(seen.push(entry), card_id) == if first_definition(seen, card_id) is Some {
            first_definition(seen, card_id)
        } else if entry.card_id == card_id {
            Some(entry.path)
        } else {
            None
        },
{
    assert(seen.push(entry).drop_last() =~= seen);
}

/// Looks up the file that the first entry for a card names.
fn find_definition(seen: &Vec<Entry>, card_id: &str) -> (r: Option<String>)
    ensures
        text::maybe(r) == first_definition(shared::views(seen@), card_id@),
{
    let mut i: usize = 0;
    let ghost all = shared::views(seen@);
    assert(first_definition(all.take(0), card_id@) is None);
    while i < seen.len()
        invariant
            i <= seen@.len(),
            all == shared::views(seen@),
            first_definition(all.take(i as int), card_id@) is None,
        decreases seen@.len() - i,
    {
        assert(all.take(i + 1) =~= all.take(i as int).push(all[i as int]));
        proof {
            lemma_first_definition_push(all.take(i as int), all[i as int], card_id@);
        }
        if text::same(seen[i].card_id.as_str(), card_id) {
            proof {
                lemma_first_definition_stays(all, (i + 1) as nat, card_id@);
            }
            return Some(seen[i].path.clone());
        }
        i += 1;
    }
    assert(all.take(i as int) =~= all);
    None
}

/// What the first entries of a list define stays defined by the list.
proof fn lemma_first_definition_stays(all: Seq<EntryView>, n: nat, card_id: Seq<char>)
    requires
        n <= all.len(),
        first_definition(all.take(n as int), card_id) is Some,
    ensures
        first_definition(all, card_id) == first_definition(all.take(n as int), card_id),
    decreases all.len() - n,
{
    if n < all.len() {
        assert(all.take(n as int + 1).drop_last() =~= all.take(n as int));
        lemma_first_definition_stays(all, n + 1, card_id);
    } else {
        assert(all.take(n as int) =~= all);
    }
}

/// Validates a catalog: every file reads, every card id is defined once, and every
/// card can be defined.
pub fn validate_catalog(files: &Vec<CatalogFile>) -> (r: Report)
    requires
        entries(shared::views(files@)).len() <= usize::MAX,
    ensures
        shared::views(r.problems@) == problems(shared::views(files@)),
        r.card_count == entries(shared::views(files@)).len(),
{
    let mut report = Report { problems: Vec::new(), card_count: 0 };
    let mut seen: Vec<Entry> = Vec::new();
    let mut i: usize = 0;
    let ghost all = shared::views(files@);
    proof {
        assert(shared::views(report.problems@) =~= problems(all.take(0)));
        assert(shared::views(seen@) =~= entries(all.take(0)));
    }
    while i < files.len()
        invariant
            i <= files@.len(),
            all == shared::views(files@),
            entries(all).len() <= usize::MAX,
            shared::views(report.problems@) == problems(all.take(i as int)),
            report.card_count == entries(all.take(i as int)).len(),
            forall|card_id: Seq<char>|
                #![trigger first_definition(shared::views(seen@), card_id)]
                first_definition(shared::views(seen@), card_id) == first_definition(
                    entries(all.take(i as int)),
                    card_id,
                ),
        decreases files@.len() - i,
    {
        let ghost before = entries(all.take(i as int));
        let ghost former = report;
        proof {
            assert(all.take(i + 1).drop_last() =~= all.take(i as int));
            assert(all.take(i + 1).last() == files@[i as int]@);
            lemma_entries_grow(all, (i + 1) as nat);
        }
        let path = files[i].path.as_str();
        match &files[i].content {
            Content::Unreadable(reason) => {
                report.problems.push(
                    Problem::Unreadable { path: path.to_owned(), reason: reason.clone() },
                );
                proof {
                    assert(shared::views(report.problems@) =~= shared::views(former.problems@)
                        + file_problems(before, files@[i as int]@));
                    assert(entries(all.take(i + 1)) =~= before);
                }
            },
            Content::Malformed(reason) => {
                report.problems.push(
                    Problem::Malformed { path: path.to_owned(), reason: reason.clone() },
                );
                proof {
                    assert(shared::views(report.problems@) =~= shared::views(former.problems@)
                        + file_problems(before, files@[i as int]@));
                    assert(entries(all.take(i + 1)) =~= before);
                }
            },
            Content::Cards(cards) => {
                validate_cards(path, cards, &mut report, &mut seen, Ghost(before));
            },
        }
        i += 1;
    }
    assert(all.take(i as int) =~= all);
    report
}

/// The entries of the first files are no more than those of all.
proof fn lemma_entries_grow(files: Seq<CatalogFileView>, n: nat)
    requires
        n <= files.len(),
    ensures
        entries(files.take(n as int)).len() <= entries(files).len(),
    decreases files.len() - n,
{
    if n < files.len() {
        assert(files.take(n as int + 1).drop_last() =~= files.take(n as int));
        lemma_entries_grow(files, n + 1);
    } else {
        assert(files.take(n as int) =~= files);
    }
}

/// Validates the cards of one file, given what the files before it came to.
fn validate_cards(
    path: &str,
    cards: &Vec<DefineCardCmd>,
    report: &mut Report,
    seen: &mut Vec<Entry>,
    Ghost(before): Ghost<Seq<EntryView>>,
)
    requires
        old(report).card_count == before.len(),
        before.len() + cards@.len() <= usize::MAX,
        forall|card_id: Seq<char>|
            #![trigger first_definition(shared::views(old(seen)@), card_id)]
            first_definition(shared::views(old(seen)@), card_id) == first_definition(
                before,
                card_id,
            ),
    ensures
        shared::views(final(report).problems@) == shared::views(old(report).problems@)
            + card_problems(before, path@, shared::views(cards@)),
        final(report).card_count == before.len() + cards@.len(),
        forall|card_id: Seq<char>|
            #![trigger first_definition(shared::views(final(seen)@), card_id)]
            first_definition(shared::views(final(seen)@), card_id) == first_definition(
                before + card_entries(path@, shared::views(cards@)),
                card_id,
            ),
{
    let mut i: usize = 0;
    let ghost all = shared::views(cards@);
    let ghost start = shared::views(report.problems@);
    proof {
        assert(before + card_entries(path@, all.take(0)) =~= before);
        assert(start + card_problems(before, path@, all.take(0)) =~= start);
    }
    while i < cards.len()
        invariant
            i <= cards@.len(),
            all == shared::views(cards@),
            before.len() + cards@.len() <= usize::MAX,
            shared::views(report.problems@) == start + card_problems(
                before,
                path@,
                all.take(i as int),
            ),
            report.card_count == before.len() + i,
            forall|card_id: Seq<char>|
                #![trigger first_definition(shared::views(seen@), card_id)]
                first_definition(shared::views(seen@), card_id) == first_definition(
                    before + card_entries(path@, all.take(i as int)),
                    card_id,
                ),
        decreases cards@.len() - i,
    {
        let card = &cards[i];
        let ghost known = before + card_entries(path@, all.take(i as int));
        let ghost entry = EntryView { card_id: card@.card_id, path: path@ };
        let ghost former = shared::views(report.problems@);
        proof {
            assert(all.take(i + 1).drop_last() =~= all.take(i as int));
            assert(all.take(i + 1).last() == card@);
            assert(before + card_entries(path@, all.take(i + 1)) =~= known.push(entry));
            assert forall|card_id: Seq<char>|
                #![trigger first_definition(known.push(entry), card_id)]
                first_definition(known.push(entry), card_id) == if first_definition(
                    known,
                    card_id,
                ) is Some {
                    first_definition(known, card_id)
                } else if entry.card_id == card_id {
                    Some(entry.path)
                } else {
                    None
                } by {
                lemma_first_definition_push(known, entry, card_id);
            }
        }
        report.card_count += 1;
        // A catalog identity is defined exactly once.
        if let Some(first) = find_definition(seen, card.card_id.as_str()) {
            report.problems.push(
                Problem::Duplicate { path: path.to_owned(), card_id: card.card_id.clone(), first },
            );
            proof {
                let problem = report.problems@.last()@;
                assert(shared::views(report.problems@) =~= former.push(problem));
                assert(former.push(problem) =~= former + seq![problem]);
                assert(shared::views(report.problems@) =~= start + card_problems(
                    before,
                    path@,
                    all.take(i + 1),
                ));
            }
        } else {
            let ghost listed_before = shared::views(seen@);
            seen.push(Entry { card_id: card.card_id.clone(), path: path.to_owned() });
            proof {
                assert(shared::views(seen@) =~= listed_before.push(entry));
                assert forall|card_id: Seq<char>|
                    #![trigger first_definition(shared::views(seen@), card_id)]
                    first_definition(shared::views(seen@), card_id) == first_definition(
                        known.push(entry),
                        card_id,
                    ) by {
                    lemma_first_definition_push(listed_before, entry, card_id);
                    lemma_first_definition_push(known, entry, card_id);
                }
            }
            // Run the exact command path that the server runs.
            let mut aggregate = CardDefinition::new(card.card_id.as_str());
            if let Err(error) = aggregate.execute(card.into_command()) {
                report.problems.push(
                    Problem::Invalid {
                        path: path.to_owned(),
                        card_id: card.card_id.clone(),
                        error,
                    },
                );
                proof {
                    let problem = report.problems@.last()@;
                    assert(shared::views(report.problems@) =~= former.push(problem));
                    assert(former.push(problem) =~= former + seq![problem]);
                }
            }
            proof {
                assert(shared::views(report.problems@) =~= start + card_problems(
                    before,
                    path@,
                    all.take(i + 1),
                ));
            }
        }
        i += 1;
    }
    assert(all.take(i as int) =~= all);
}

/// Whether a file reads, and each of its cards can be defined.
pub open spec fn is_sound(file: CatalogFileView) -> bool {
    file.content matches ContentView::Cards(cards) && forall|i: int|
        0 <= i < cards.len() ==> definition_error(#[trigger] cards[i]) is None
}

/// Whether no card id has two entries.
pub open spec fn ids_are_unique(entries: Seq<EntryView>) -> bool {
    forall|i: int, j: int|
        0 <= i < j < entries.len() ==> (#[trigger] entries[i]).card_id != (
        #[trigger] entries[j]).card_id
}

/// A card id has a first definition exactly where it has an entry.
proof fn lemma_first_definition_exists(entries: Seq<EntryView>, card_id: Seq<char>)
    ensures
        first_definition(entries, card_id) is Some <==> exists|i: int|
            0 <= i < entries.len() && (#[trigger] entries[i]).card_id == card_id,
    decreases entries.len(),
{
    if entries.len() > 0 {
        let before = entries.drop_last();
        lemma_first_definition_exists(before, card_id);
        if first_definition(before, card_id) is Some {
            let i = choose|i: int| 0 <= i < before.len() && (#[trigger] before[i]).card_id == card_id;
            assert(entries[i].card_id == card_id);
        } else if entries.last().card_id == card_id {
            assert(entries[entries.len() - 1].card_id == card_id);
        }
        if exists|i: int| 0 <= i < entries.len() && (#[trigger] entries[i]).card_id == card_id {
            let i = choose|i: int|
                0 <= i < entries.len() && (#[trigger] entries[i]).card_id == card_id;
            if i < before.len() {
                assert(before[i].card_id == card_id);
            }
        }
    }
}

/// The ids of a list with one entry more are unique exactly where those of the list
/// are and the new one is not among them.
proof fn lemma_unique_push(list: Seq<EntryView>, entry: EntryView)
    ensures
        ids_are_unique(list.push(entry)) <==> ids_are_unique(list) && first_definition(
            list,
            entry.card_id,
        ) is None,
{
    let longer = list.push(entry);
    lemma_first_definition_exists(list, entry.card_id);
    if ids_are_unique(longer) {
        assert forall|i: int, j: int| 0 <= i < j < list.len() implies (#[trigger] list[i]).card_id
            != (#[trigger] list[j]).card_id by {
            assert(longer[i] == list[i]);
            assert(longer[j] == list[j]);
        }
        if exists|i: int| 0 <= i < list.len() && (#[trigger] list[i]).card_id == entry.card_id {
            let i = choose|i: int|
                0 <= i < list.len() && (#[trigger] list[i]).card_id == entry.card_id;
            assert(longer[i].card_id == longer[list.len() as int].card_id);
        }
    }
    if ids_are_unique(list) && first_definition(list, entry.card_id) is None {
        assert forall|i: int, j: int| 0 <= i < j < longer.len() implies (
        #[trigger] longer[i]).card_id != (#[trigger] longer[j]).card_id by {
            assert(longer[i] == list[i]);
            if j < list.len() {
                assert(longer[j] == list[j]);
            }
        }
    }
}

/// The cards of a file cause no problem exactly where each can be defined and no id
/// is defined twice.
proof fn lemma_clean_cards(
    before: Seq<EntryView>,
    path: Seq<char>,
    cards: Seq<DefineCardCmdView>,
)
    ensures
        ids_are_unique(before) && card_problems(before, path, cards).len() == 0 <==> (
        ids_are_unique(before + card_entries(path, cards)) && forall|i: int|
            0 <= i < cards.len() ==> definition_error(#[trigger] cards[i]) is None),
    decreases cards.len(),
{
    if cards.len() == 0 {
        assert(before + card_entries(path, cards) =~= before);
    } else {
        let rest = cards.drop_last();
        let known = before + card_entries(path, rest);
        let entry = EntryView { card_id: cards.last().card_id, path };
        lemma_clean_cards(before, path, rest);
        assert(before + card_entries(path, cards) =~= known.push(entry));
        lemma_unique_push(known, entry);
        if forall|i: int| 0 <= i < cards.len() ==> definition_error(#[trigger] cards[i]) is None {
            assert forall|i: int| 0 <= i < rest.len() implies definition_error(
                #[trigger] rest[i],
            ) is None by {
                assert(rest[i] == cards[i]);
            }
            assert(definition_error(cards[cards.len() - 1]) is None);
        }
        if (forall|i: int| 0 <= i < rest.len() ==> definition_error(#[trigger] rest[i]) is None)
            && definition_error(cards.last()) is None {
            assert forall|i: int| 0 <= i < cards.len() implies definition_error(
                #[trigger] cards[i],
            ) is None by {
                if i < rest.len() {
                    assert(cards[i] == rest[i]);
                }
            }
        }
    }
}

/// A catalog is clean exactly where every file reads, every card can be defined,
/// and no card id is defined twice in all the files together.
pub proof fn law_clean_catalog(files: Seq<CatalogFileView>)
    ensures
        problems(files).len() == 0 <==> {
            &&& forall|i: int| 0 <= i < files.len() ==> is_sound(#[trigger] files[i])
            &&& ids_are_unique(entries(files))
        },
    decreases files.len(),
{
    if files.len() > 0 {
        let rest = files.drop_last();
        let file = files.last();
        law_clean_catalog(rest);
        lemma_clean_cards(entries(rest), file.path, file_cards(file));
        if forall|i: int| 0 <= i < files.len() ==> is_sound(#[trigger] files[i]) {
            assert(is_sound(files[files.len() - 1]));
            assert forall|i: int| 0 <= i < rest.len() implies is_sound(#[trigger] rest[i]) by {
                assert(rest[i] == files[i]);
            }
        }
        if (forall|i: int| 0 <= i < rest.len() ==> is_sound(#[trigger] rest[i])) && is_sound(file) {
            assert forall|i: int| 0 <= i < files.len() implies is_sound(#[trigger] files[i]) by {
                if i < rest.len() {
                    assert(files[i] == rest[i]);
                }
            }
        }
    }
}

/// The file of a first definition is that of the first entry for the card, and there
/// is one exactly where there is an entry for the card.
pub proof fn law_first_definition(entries: Seq<EntryView>, card_id: Seq<char>)
    ensures
        match first_definition(entries, card_id) {
            Some(first) => exists|i: int|
                {
                    &&& 0 <= i < entries.len()
                    &&& (#[trigger] entries[i]).card_id == card_id
                    &&& entries[i].path == first
                    &&& forall|j: int| 0 <= j < i ==> (#[trigger] entries[j]).card_id != card_id
                },
            None => forall|i: int|
                0 <= i < entries.len() ==> (#[trigger] entries[i]).card_id != card_id,
        },
    decreases entries.len(),
{
    if entries.len() > 0 {
        let rest = entries.drop_last();
        law_first_definition(rest, card_id);
        if let Some(first) = first_definition(rest, card_id) {
            let i = choose|i: int|
                {
                    &&& 0 <= i < rest.len()
                    &&& (#[trigger] rest[i]).card_id == card_id
                    &&& rest[i].path == first
                    &&& forall|j: int| 0 <= j < i ==> (#[trigger] rest[j]).card_id != card_id
                };
            assert(entries[i].card_id == card_id);
            assert forall|j: int| 0 <= j < i implies (#[trigger] entries[j]).card_id != card_id by {
                assert(rest[j] == entries[j]);
            }
        } else {
            assert forall|j: int| 0 <= j < rest.len() implies (#[trigger] entries[j]).card_id
                != card_id by {
                assert(rest[j] == entries[j]);
            }
            if entries.last().card_id == card_id {
                assert(entries[entries.len() - 1].card_id == card_id);
            }
        }
    }
}

/// A file that cannot be read, or that is no catalog, is one problem more, with its
/// path and the reason, and no card more; an empty file is neither.
pub proof fn law_unread_files_are_reported(
    files: Seq<CatalogFileView>,
    path: Seq<char>,
    reason: Seq<char>,
)
    ensures
        ({
            let gone = files.push(
                CatalogFileView { path, content: ContentView::Unreadable(reason) },
            );
            &&& problems(gone) == problems(files).push(ProblemView::Unreadable { path, reason })
            &&& entries(gone) == entries(files)
        }),
        ({
            let garbled = files.push(
                CatalogFileView { path, content: ContentView::Malformed(reason) },
            );
            &&& problems(garbled) == problems(files).push(ProblemView::Malformed { path, reason })
            &&& entries(garbled) == entries(files)
        }),
        ({
            let bare = files.push(
                CatalogFileView { path, content: ContentView::Cards(Seq::empty()) },
            );
            &&& problems(bare) == problems(files)
            &&& entries(bare) == entries(files)
        }),
        problems(Seq::empty()).len() == 0,
        entries(Seq::empty()).len() == 0,
{
    let gone = files.push(CatalogFileView { path, content: ContentView::Unreadable(reason) });
    let garbled = files.push(CatalogFileView { path, content: ContentView::Malformed(reason) });
    let bare = files.push(CatalogFileView { path, content: ContentView::Cards(Seq::empty()) });
    assert(gone.drop_last() =~= files);
    assert(garbled.drop_last() =~= files);
    assert(bare.drop_last() =~= files);
    assert(problems(gone) =~= problems(files).push(ProblemView::Unreadable { path, reason }));
    assert(problems(garbled) =~= problems(files).push(ProblemView::Malformed { path, reason }));
    assert(problems(bare) =~= problems(files));
    assert(entries(gone) =~= entries(files));
    assert(entries(garbled) =~= entries(files));
    assert(entries(bare) =~= entries(files));
}

/// One card more in the last file of a catalog is one card more to count. Where a
/// card of its id came before, it is a duplicate of the first of them; else it is
/// defined on a fresh card of its id, and the error that this gives, if it gives
/// one, makes it invalid; nothing else is reported.
pub proof fn law_every_card_is_checked(
    files: Seq<CatalogFileView>,
    path: Seq<char>,
    cards: Seq<DefineCardCmdView>,
    card: DefineCardCmdView,
)
    ensures
        ({
            let before = files.push(CatalogFileView { path, content: ContentView::Cards(cards) });
            let after = files.push(
                CatalogFileView { path, content: ContentView::Cards(cards.push(card)) },
            );
            let fresh = CardDefinitionView { id: card.card_id, events: Seq::empty() };
            let answer = fresh.execute(
                CommandView {
                    name: "DefineCardCmd"@,
                    payload: PayloadView::Decoded(RequestView::DefineCardCmd(card)),
                },
            ).1;
            &&& entries(after) == entries(before).push(EntryView { card_id: card.card_id, path })
            &&& match first_definition(entries(before), card.card_id) {
                Some(first) => problems(after) == problems(before).push(
                    ProblemView::Duplicate { path, card_id: card.card_id, first },
                ),
                None => match answer {
                    Ok(_) => problems(after) == problems(before),
                    Err(error) => problems(after) == problems(before).push(
                        ProblemView::Invalid { path, card_id: card.card_id, error },
                    ),
                },
            }
        }),
{
    let before = files.push(CatalogFileView { path, content: ContentView::Cards(cards) });
    let after = files.push(CatalogFileView { path, content: ContentView::Cards(cards.push(card)) });
    assert(before.drop_last() =~= files);
    assert(after.drop_last() =~= files);
    assert(cards.push(card).drop_last() =~= cards);
    assert(card_entries(path, cards.push(card)) =~= card_entries(path, cards).push(
        EntryView { card_id: card.card_id, path },
    ));
    assert(entries(after) =~= entries(before).push(EntryView { card_id: card.card_id, path }));
    let found = card_problem(entries(files) + card_entries(path, cards), path, card);
    assert(problems(after) =~= problems(before) + listed(found));
    if found is None {
        assert(problems(before) + listed(found) =~= problems(before));
    } else {
        assert(problems(before) + listed(found) =~= problems(before).push(found->0));
    }
}

impl CatalogFile {
    /// The view leaves nothing out: where two views agree, so does every field.
    pub proof fn law_view_leaves_nothing_out(self, other: CatalogFile)
        requires
            self@ == other@,
        ensures
            self.path@ == other.path@,
            self.content@ == other.content@,
    {
    }
}

impl Entry {
    /// The view leaves nothing out: where two views agree, so does every field.
    pub proof fn law_view_leaves_nothing_out(self, other: Entry)
        requires
            self@ == other@,
        ensures
            self.card_id@ == other.card_id@,
            self.path@ == other.path@,
    {
    }
}

} // verus!
