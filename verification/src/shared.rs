//! What every aggregate shares: commands, errors and the log of recorded events.
use crate::text::cat4;
use vstd::prelude::*;

verus! {

/// Why an aggregate turned a command down.
#[derive(Debug, PartialEq, Eq)]
pub enum DomainError {
    /// The aggregate does not know a command of this name.
    UnknownCommand {
        /// The type name of the aggregate that was asked.
        aggregate: &'static str,
        /// The name of the command.
        command: String,
    },
    /// A rule of the aggregate is broken; the text says which.
    InvariantViolation(String),
}

/// What a [`DomainError`] says.
#[verifier::ext_equal]
pub enum DomainErrorView {
    UnknownCommand { aggregate: Seq<char>, command: Seq<char> },
    InvariantViolation(Seq<char>),
}

impl View for DomainError {
    type V = DomainErrorView;

    open spec fn view(&self) -> DomainErrorView {
        match self {
            DomainError::UnknownCommand { aggregate, command } => DomainErrorView::UnknownCommand {
                aggregate: aggregate@,
                command: command@,
            },
            DomainError::InvariantViolation(message) => DomainErrorView::InvariantViolation(
                message@,
            ),
        }
    }
}

impl DomainError {
    /// The error of the aggregate type `aggregate` for a command it does not know.
    pub fn unknown_command(aggregate: &'static str, command: String) -> (r: Self)
        ensures
            r@ == (DomainErrorView::UnknownCommand { aggregate: aggregate@, command: command@ }),
    {
        DomainError::UnknownCommand { aggregate, command }
    }
}

/// A request to change an aggregate: the command's name and its payload.
pub struct Command<P> {
    /// The name that the command is routed by.
    pub name: String,
    /// What the command carries.
    pub payload: P,
}

/// What a [`Command`] says.
#[verifier::ext_equal]
pub struct CommandView<PV> {
    pub name: Seq<char>,
    pub payload: PV,
}

impl<P: View> View for Command<P> {
    type V = CommandView<P::V>;

    open spec fn view(&self) -> CommandView<P::V> {
        CommandView { name: self.name@, payload: self.payload@ }
    }
}

/// A payload that a command without one carries.
pub trait EmptyPayload: View + Sized {
    /// The view of the empty payload.
    spec fn empty_view() -> Self::V;

    /// The empty payload.
    fn empty() -> (r: Self)
        ensures
            r@ == Self::empty_view(),
    ;
}

impl EmptyPayload for Vec<u8> {
    open spec fn empty_view() -> Seq<u8> {
        Seq::<u8>::empty()
    }

    fn empty() -> (r: Self) {
        Vec::new()
    }
}

impl<P> Command<P> {
    /// A command named `name` that carries `payload`.
    pub fn with_payload(name: &str, payload: P) -> (r: Self)
        ensures
            r.name@ == name@,
            r.payload == payload,
    {
        Command { name: name.to_owned(), payload }
    }
}

impl<P: EmptyPayload> Command<P> {
    /// A command named `name` with nothing in its payload.
    pub fn new(name: &str) -> (r: Self)
        ensures
            r@ == (CommandView { name: name@, payload: P::empty_view() }),
    {
        Command { name: name.to_owned(), payload: P::empty() }
    }
}

impl Command<Vec<u8>> {
    /// This command with its bytes read: the name stays, and `payload` stands for
    /// what the bytes say.
    pub fn read_as<R>(self, payload: Payload<R>) -> (r: Command<Payload<R>>)
        ensures
            r.name == self.name,
            r.payload == payload,
    {
        Command { name: self.name, payload }
    }
}

/// What the decoder of a JSON payload came to.
pub enum Payload<R> {
    /// The payload reads as this request.
    Decoded(R),
    /// The payload does not read; the text is the decoder's complaint.
    Malformed(String),
}

/// What a [`Payload`] says.
#[verifier::ext_equal]
pub enum PayloadView<RV> {
    Decoded(RV),
    Malformed(Seq<char>),
}

impl<R: View> View for Payload<R> {
    type V = PayloadView<R::V>;

    open spec fn view(&self) -> PayloadView<R::V> {
        match self {
            Payload::Decoded(request) => PayloadView::Decoded(request@),
            Payload::Malformed(complaint) => PayloadView::Malformed(complaint@),
        }
    }
}

/// The decoder's complaint about a payload without a byte in it.
pub const NO_VALUE: &'static str = "EOF while parsing a value at line 1 column 0";

/// The complaint about a payload that reads, but as another command's.
pub const OTHER_COMMAND: &'static str = "the payload is another command's";

impl<R: View> EmptyPayload for Payload<R> {
    open spec fn empty_view() -> PayloadView<R::V> {
        PayloadView::Malformed(NO_VALUE@)
    }

    fn empty() -> (r: Self) {
        Payload::Malformed(NO_VALUE.to_owned())
    }
}

/// The message for a command named `name` whose payload does not read.
pub open spec fn malformed_text(name: Seq<char>, complaint: Seq<char>) -> Seq<char> {
    "malformed "@ + name + " payload: "@ + complaint
}

/// The answer to a command named `name` whose payload does not read.
pub open spec fn malformed_reply<EV>(name: Seq<char>, complaint: Seq<char>) -> Reply<EV> {
    violation(malformed_text(name, complaint))
}

/// The answer to a command named `name` whose payload does not read.
pub fn malformed<T>(name: &str, complaint: &str) -> (r: Result<T, DomainError>)
    ensures
        r matches Err(error) && error@ == DomainErrorView::InvariantViolation(
            malformed_text(name@, complaint@),
        ),
{
    refuse(cat4("malformed ", name, " payload: ", complaint))
}

/// The refusal that a broken rule gives rise to, with the message about it.
pub fn refuse<T>(message: String) -> (r: Result<T, DomainError>)
    ensures
        r matches Err(error) && error@ == DomainErrorView::InvariantViolation(message@),
{
    Err(DomainError::InvariantViolation(message))
}

/// The views of a sequence of values.
pub open spec fn views<E: View>(events: Seq<E>) -> Seq<E::V> {
    Seq::new(events.len(), |i: int| events[i]@)
}

/// A list of one event.
pub fn only<E: View>(event: E) -> (r: Vec<E>)
    ensures
        views(r@) == seq![event@],
{
    let r = vec![event];
    assert(views(r@) =~= seq![event@]);
    r
}

/// A list of two events.
pub fn both<E: View>(first: E, second: E) -> (r: Vec<E>)
    ensures
        views(r@) == seq![first@, second@],
{
    let r = vec![first, second];
    assert(views(r@) =~= seq![first@, second@]);
    r
}

/// What an aggregate answers to a command, by its view: the events, or the error.
pub type Reply<EV> = Result<Seq<EV>, DomainErrorView>;

/// The view of an aggregate's answer to a command.
pub open spec fn reply<E: View>(r: Result<Vec<E>, DomainError>) -> Reply<E::V> {
    match r {
        Ok(events) => Ok(views(events@)),
        Err(error) => Err(error@),
    }
}

/// The answer that a broken rule gets.
pub open spec fn violation<EV>(message: Seq<char>) -> Reply<EV> {
    Err(DomainErrorView::InvariantViolation(message))
}

/// The answer of the aggregate type `aggregate` to a command it does not know.
pub open spec fn unknown<EV>(aggregate: Seq<char>, command: Seq<char>) -> Reply<EV> {
    Err(DomainErrorView::UnknownCommand { aggregate, command })
}

/// The first of two messages that is there.
pub open spec fn first(a: Option<Seq<char>>, b: Option<Seq<char>>) -> Option<Seq<char>> {
    if a is Some {
        a
    } else {
        b
    }
}

/// The view of a check: the message of the rule that it found broken, if any.
pub open spec fn broken(r: Result<(), DomainError>) -> Option<DomainErrorView> {
    match r {
        Ok(_) => None,
        Err(error) => Some(error@),
    }
}

/// The error that a check owes for the message of a broken rule.
pub open spec fn owed(message: Option<Seq<char>>) -> Option<DomainErrorView> {
    match message {
        Some(m) => Some(DomainErrorView::InvariantViolation(m)),
        None => None,
    }
}

/// What keeps aggregates of type `A` for later. Adapters implement it; nothing in
/// this library calls through it.
pub trait Repository<A> {

}

/// The events an aggregate has recorded and nobody has persisted yet.
#[derive(Debug)]
pub struct AggregateRoot<E> {
    events: Vec<E>,
}

impl<E: View> View for AggregateRoot<E> {
    type V = Seq<E::V>;

    closed spec fn view(&self) -> Seq<E::V> {
        views(self.events@)
    }
}

impl<E: View> AggregateRoot<E> {
    /// A root that has recorded nothing.
    pub fn new() -> (r: Self)
        ensures
            r@ == Seq::<E::V>::empty(),
    {
        let r = AggregateRoot { events: Vec::new() };
        assert(r@ =~= Seq::<E::V>::empty());
        r
    }

    /// The version: one more with each event recorded.
    pub fn version(&self) -> (r: u64)
        ensures
            r == self@.len(),
    {
        self.events.len() as u64
    }

    /// Appends an event to those recorded.
    pub fn record(&mut self, event: E)
        ensures
            final(self)@ == old(self)@.push(event@),
    {
        self.events.push(event);
        assert(self@ =~= old(self)@.push(event@));
    }

    /// The events recorded so far, in order.
    pub fn uncommitted_events(&self) -> (r: &[E])
        ensures
            views(r@) == self@,
    {
        self.events.as_slice()
    }
}

/// Answers are told apart by what their views say: two answers of one view are both
/// acceptances, with events of the same views in the same order, or both refusals,
/// with errors of the same view.
pub proof fn law_answers_are_told_apart<E: View>(
    one: Result<Vec<E>, DomainError>,
    other: Result<Vec<E>, DomainError>,
)
    requires
        reply(one) == reply(other),
    ensures
        one is Ok <==> other is Ok,
        one is Ok ==> one->Ok_0@.len() == other->Ok_0@.len() && forall|i: int|
            0 <= i < one->Ok_0@.len() ==> #[trigger] one->Ok_0@[i]@ == other->Ok_0@[i]@,
        one is Err ==> one->Err_0@ == other->Err_0@,
{
    if one is Ok {
        let a = views(one->Ok_0@);
        let b = views(other->Ok_0@);
        assert(reply(one) == Ok::<Seq<E::V>, DomainErrorView>(a));
        assert(reply(other) == Ok::<Seq<E::V>, DomainErrorView>(b));
        assert(a.len() == b.len());
        assert forall|i: int| 0 <= i < one->Ok_0@.len() implies #[trigger] one->Ok_0@[i]@
            == other->Ok_0@[i]@ by {
            assert(a[i] == b[i]);
        }
    }
}

/// Errors are told apart by what their views say: the kind and the texts are those
/// of the error.
pub proof fn law_errors_are_told_apart(one: DomainError, other: DomainError)
    requires
        one@ == other@,
    ensures
        match (one, other) {
            (DomainError::InvariantViolation(a), DomainError::InvariantViolation(b)) => a@ == b@,
            (
                DomainError::UnknownCommand { aggregate: a, command: c },
                DomainError::UnknownCommand { aggregate: b, command: d },
            ) => a@ == b@ && c@ == d@,
            _ => false,
        },
{
}

/// A check that owes no message passes, and one that owes a message fails as a
/// broken rule, with that message.
pub proof fn law_checks_say_why(r: Result<(), DomainError>, message: Option<Seq<char>>)
    requires
        broken(r) == owed(message),
    ensures
        r is Ok <==> message is None,
        r matches Err(error) ==> (error matches DomainError::InvariantViolation(said) && Some(
            said@,
        ) == message),
{
}

/// The views of values are theirs, one for one and in order.
pub proof fn law_views_are_kept<E: View>(events: Seq<E>, i: int)
    ensures
        views(events).len() == events.len(),
        0 <= i < events.len() ==> views(events)[i] == events[i]@,
{
}

} // verus!
