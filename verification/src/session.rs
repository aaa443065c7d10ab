//! The session: the state machine that one connection drives, line by line.
use vstd::prelude::*;
use crate::command::{decode, get_command, Command, CommandView};
use crate::status::Status;
use crate::transaction::{Transaction, TransactionView};

verus! {

/// How the next line is read.
#[derive(Clone, Copy, Debug, PartialEq, Eq, Structural)]
pub enum Mode {
    /// The next line is a command.
    Command,
    /// The next line belongs to the message body, or ends it.
    Data,
}

/// What the transport layer read from the connection.
#[derive(Debug)]
pub enum Input {
    /// One line, with its terminator.
    Line(String),
    /// The client closed the connection.
    EndOfStream,
    /// The read failed.
    Fault,
}

/// The mathematical value of an [`Input`].
pub enum InputView {
    Line(Seq<char>),
    EndOfStream,
    Fault,
}

impl View for Input {
    type V = InputView;

    open spec fn view(&self) -> InputView {
        match self {
            Input::Line(line) => InputView::Line(line@),
            Input::EndOfStream => InputView::EndOfStream,
            Input::Fault => InputView::Fault,
        }
    }
}

/// What the caller has to do after one input.
#[derive(Clone, Copy, Debug, PartialEq, Eq, Structural)]
pub enum Outcome {
    /// Write the status line and read on.
    Reply(Status),
    /// A body line was stored: write nothing and read on.
    Stored,
    /// The body is complete: write the success line and read on. The
    /// transaction is ready to be handed over.
    Completed,
    /// The client quit: write the goodbye line and close.
    Closed,
    /// The stream ended: write nothing and close. This is no error.
    Ended,
    /// The read failed: write nothing, close, and report the failure.
    Faulted,
}

impl Outcome {
    /// The status line that this outcome asks for, if any.
    pub open spec fn spec_status(self) -> Option<Status> {
        match self {
            Outcome::Reply(status) => Some(status),
            Outcome::Completed => Some(Status::Success),
            Outcome::Closed => Some(Status::Goodbye),
            Outcome::Stored | Outcome::Ended | Outcome::Faulted => None,
        }
    }

    /// Whether the session is over after this outcome.
    pub open spec fn spec_ends_session(self) -> bool {
        self is Closed || self is Ended || self is Faulted
    }

    /// The status line that this outcome asks for, if any.
    pub fn status(&self) -> (status: Option<Status>)
        ensures
            status == self.spec_status(),
    {
        match self {
            Outcome::Reply(status) => Some(*status),
            Outcome::Completed => Some(Status::Success),
            Outcome::Closed => Some(Status::Goodbye),
            Outcome::Stored => None,
            Outcome::Ended => None,
            Outcome::Faulted => None,
        }
    }

    /// Whether the session is over after this outcome.
    pub fn ends_session(&self) -> (over: bool)
        ensures
            over == self.spec_ends_session(),
    {
        match self {
            Outcome::Closed => true,
            Outcome::Ended => true,
            Outcome::Faulted => true,
            _ => false,
        }
    }

    /// Whether the session was cut short by a failed read.
    pub fn is_fault(&self) -> (fault: bool)
        ensures
            fault == (*self is Faulted),
    {
        match self {
            Outcome::Faulted => true,
            _ => false,
        }
    }
}

/// The mathematical value of a [`Session`].
pub struct SessionView {
    pub transaction: TransactionView,
    pub mode: Mode,
}

impl SessionView {
    /// A session that has received nothing.
    pub open spec fn initial() -> SessionView {
        SessionView { transaction: TransactionView::empty(), mode: Mode::Command }
    }
}

/// What a command does to the transaction.
pub open spec fn command_effect(transaction: TransactionView, command: CommandView)
    -> TransactionView {
    match command {
        CommandView::Greet(domain) => TransactionView { client_domain: domain, ..transaction },
        CommandView::MailFrom(sender) => TransactionView { sender, ..transaction },
        CommandView::RcptTo(recipient) => TransactionView {
            recipients: transaction.recipients.push(recipient),
            ..transaction
        },
        CommandView::Reset => TransactionView::empty(),
        CommandView::StartData
        | CommandView::Noop
        | CommandView::Verify
        | CommandView::Quit
        | CommandView::Unrecognized => transaction,
    }
}

/// How a command is answered.
pub open spec fn command_outcome(command: CommandView) -> Outcome {
    match command {
        CommandView::StartData => Outcome::Reply(Status::BeginData),
        CommandView::Quit => Outcome::Closed,
        CommandView::Unrecognized => Outcome::Reply(Status::NotRecognized),
        _ => Outcome::Reply(Status::Success),
    }
}

/// The session after a command, and the answer to it. No command is refused
/// for coming out of order.
pub open spec fn dispatch_step(session: SessionView, command: CommandView) -> (
    SessionView,
    Outcome,
) {
    (
        SessionView {
            transaction: command_effect(session.transaction, command),
            mode: if command is StartData {
                Mode::Data
            } else {
                session.mode
            },
        },
        command_outcome(command),
    )
}

/// The line that ends the body: a single dot and the line terminator.
pub open spec fn is_body_terminator(line: Seq<char>) -> bool {
    line == seq!['.', '\r', '\n']
}

/// The session after one line of the body. The terminator ends the body and
/// is not part of it; every other line is appended as it came.
pub open spec fn body_step(session: SessionView, line: Seq<char>) -> (SessionView, Outcome) {
    if is_body_terminator(line) {
        (SessionView { mode: Mode::Command, ..session }, Outcome::Completed)
    } else {
        (
            SessionView {
                transaction: TransactionView {
                    body: session.transaction.body + line,
                    ..session.transaction
                },
                ..session
            },
            Outcome::Stored,
        )
    }
}

/// The session after one line, read as the mode says.
pub open spec fn line_step(session: SessionView, line: Seq<char>) -> (SessionView, Outcome) {
    match session.mode {
        Mode::Command => dispatch_step(session, decode(line)),
        Mode::Data => body_step(session, line),
    }
}

/// The session after one input. The end of the stream and a failed read
/// leave the session as it is.
pub open spec fn input_step(session: SessionView, input: InputView) -> (SessionView, Outcome) {
    match input {
        InputView::Line(line) => line_step(session, line),
        InputView::EndOfStream => (session, Outcome::Ended),
        InputView::Fault => (session, Outcome::Faulted),
    }
}

/// The state machine of one connection.
#[derive(Debug)]
pub struct Session {
    transaction: Transaction,
    mode: Mode,
}

impl View for Session {
    type V = SessionView;

    closed spec fn view(&self) -> SessionView {
        SessionView { transaction: self.transaction@, mode: self.mode }
    }
}

impl Session {
    /// A session at the start of a connection: nothing collected, the next
    /// line is a command.
    pub fn new() -> (session: Session)
        ensures
            session@ == SessionView::initial(),
    {
        Session { transaction: Transaction::new(), mode: Mode::Command }
    }

    /// The status to send when the connection opens, before anything is read.
    pub fn greeting() -> (status: Status)
        ensures
            status == Status::Greeting,
    {
        Status::Greeting
    }

    /// How the next line will be read.
    pub fn mode(&self) -> (mode: Mode)
        ensures
            mode == self@.mode,
    {
        self.mode
    }

    /// What the session has collected so far.
    pub fn transaction(&self) -> (transaction: &Transaction)
        ensures
            transaction@ == self@.transaction,
    {
        &self.transaction
    }

    /// Hands the transaction over and goes on with an empty one. The mode
    /// stays as it is.
    pub fn take_transaction(&mut self) -> (transaction: Transaction)
        ensures
            transaction@ == old(self)@.transaction,
            final(self)@ == (SessionView { transaction: TransactionView::empty(), ..old(self)@ }),
    {
        let mut taken = Transaction::new();
        std::mem::swap(&mut self.transaction, &mut taken);
        taken
    }

    /// Carries out one command and says how to answer it.
    pub fn dispatch(&mut self, command: Command) -> (outcome: Outcome)
        ensures
            (final(self)@, outcome) == dispatch_step(old(self)@, command@),
    {
        match command {
            Command::Greet(domain) => {
                self.transaction.set_client_domain(domain);
                Outcome::Reply(Status::Success)
            },
            Command::MailFrom(sender) => {
                self.transaction.set_sender(sender);
                Outcome::Reply(Status::Success)
            },
            Command::RcptTo(recipient) => {
                self.transaction.add_recipient(recipient);
                Outcome::Reply(Status::Success)
            },
            Command::StartData => {
                self.mode = Mode::Data;
                Outcome::Reply(Status::BeginData)
            },
            Command::Reset => {
                self.transaction.clear();
                Outcome::Reply(Status::Success)
            },
            Command::Noop => Outcome::Reply(Status::Success),
            Command::Verify => Outcome::Reply(Status::Success),
            Command::Quit => Outcome::Closed,
            Command::Unrecognized => Outcome::Reply(Status::NotRecognized),
        }
    }

    /// Takes one line of the body.
    pub fn accept_body_line(&mut self, line: &str) -> (outcome: Outcome)
        ensures
            (final(self)@, outcome) == body_step(old(self)@, line@),
    {
        if is_terminator_line(line) {
            self.mode = Mode::Command;
            Outcome::Completed
        } else {
            self.transaction.append_body(line);
            Outcome::Stored
        }
    }

    /// Takes one line from the client, as a command or as part of the body,
    /// and says what to answer.
    pub fn handle_line(&mut self, line: &str) -> (outcome: Outcome)
        ensures
            (final(self)@, outcome) == line_step(old(self)@, line@),
    {
        match self.mode {
            Mode::Command => {
                let command = get_command(line);
                self.dispatch(command)
            },
            Mode::Data => self.accept_body_line(line),
        }
    }

    /// Takes whatever the transport layer read, and says what to do next.
    pub fn advance(&mut self, input: &Input) -> (outcome: Outcome)
        ensures
            (final(self)@, outcome) == input_step(old(self)@, input@),
    {
        match input {
            Input::Line(line) => self.handle_line(line.as_str()),
            Input::EndOfStream => Outcome::Ended,
            Input::Fault => Outcome::Faulted,
        }
    }
}

/// Whether a line is the one that ends the body.
pub fn is_terminator_line(line: &str) -> (r: bool)
    ensures
        r == is_body_terminator(line@),
{
    let r = line.unicode_len() == 3 && line.get_char(0) == '.' && line.get_char(1) == '\r'
        && line.get_char(2) == '\n';
    proof {
        let dot = seq!['.', '\r', '\n'];
        if r {
            assert(line@ =~= dot);
        } else if line@.len() == 3 {
            assert(dot[0] == '.' && dot[1] == '\r' && dot[2] == '\n');
        }
    }
    r
}

/// The status lines that an outcome puts on the wire: one or none.
pub open spec fn sent_by(outcome: Outcome) -> Seq<Status> {
    match outcome.spec_status() {
        Some(status) => seq![status],
        None => Seq::empty(),
    }
}

/// The session after a run of lines, and the status lines sent meanwhile.
/// The run stops at the line that ends the session; the lines behind it are
/// never read. When the lines run out the stream has ended, and nothing more
/// is sent.
pub open spec fn run(session: SessionView, lines: Seq<Seq<char>>) -> (SessionView, Seq<Status>)
    decreases lines.len(),
{
    if lines.len() == 0 {
        (session, Seq::empty())
    } else {
        let (next, outcome) = line_step(session, lines[0]);
        if outcome.spec_ends_session() {
            (next, sent_by(outcome))
        } else {
            let (last, rest) = run(next, lines.drop_first());
            (last, sent_by(outcome) + rest)
        }
    }
}

/// Plays a whole connection: the greeting, then the client's lines in order
/// until one of them ends the session or the stream ends. Returns the
/// session as it was left and the statuses sent, the greeting first.
pub fn converse(lines: &Vec<String>) -> (result: (Session, Vec<Status>))
    ensures
        result.0@ == run(SessionView::initial(), lines.deep_view()).0,
        result.1@ == seq![Status::Greeting] + run(SessionView::initial(), lines.deep_view()).1,
{
    let mut session = Session::new();
    let mut sent: Vec<Status> = Vec::new();
    sent.push(Session::greeting());
    let ghost all = lines.deep_view();
    let ghost whole = run(SessionView::initial(), all);
    let ghost mut answers: Seq<Status> = Seq::empty();
    proof {
        assert(all.skip(0) =~= all);
    }
    let mut i: usize = 0;
    while i < lines.len()
        invariant
            i <= lines.len(),
            all == lines.deep_view(),
            whole == run(SessionView::initial(), all),
            sent@ == seq![Status::Greeting] + answers,
            whole.0 == run(session@, all.skip(i as int)).0,
            whole.1 == answers + run(session@, all.skip(i as int)).1,
        decreases lines.len() - i,
    {
        let ghost before = session@;
        let ghost remaining = all.skip(i as int);
        proof {
            assert(remaining[0] == lines[i as int]@);
            assert(remaining.drop_first() =~= all.skip(i + 1));
        }
        let outcome = session.handle_line(lines[i].as_str());
        match outcome.status() {
            Some(status) => {
                sent.push(status);
            },
            None => {},
        }
        proof {
            let grown = answers + sent_by(outcome);
            assert(sent@ =~= seq![Status::Greeting] + grown);
            if outcome.spec_ends_session() {
                assert(whole.1 =~= grown);
            } else {
                assert(whole.1 =~= grown + run(session@, all.skip(i + 1)).1);
            }
            answers = grown;
        }
        if outcome.ends_session() {
            return (session, sent);
        }
        i += 1;
    }
    proof {
        assert(whole.1 =~= answers);
    }
    (session, sent)
}

/// The session after a sequence of commands, carried out in order.
pub open spec fn dispatch_all(session: SessionView, commands: Seq<CommandView>) -> SessionView
    decreases commands.len(),
{
    if commands.len() == 0 {
        session
    } else {
        dispatch_all(dispatch_step(session, commands[0]).0, commands.drop_first())
    }
}

/// Any number of `Noop` commands leaves the session as it was: the
/// transaction and the mode are untouched.
pub proof fn lemma_noop_changes_nothing(session: SessionView, commands: Seq<CommandView>)
    requires
        forall|i: int| 0 <= i < commands.len() ==> commands[i] is Noop,
    ensures
        dispatch_all(session, commands) == session,
    decreases commands.len(),
{
    if commands.len() > 0 {
        assert(commands[0] is Noop);
        lemma_noop_changes_nothing(session, commands.drop_first());
    }
}

/// `Reset` leaves the empty transaction behind, whatever was collected
/// before, and is answered with success.
pub proof fn lemma_reset_restores_empty(session: SessionView)
    ensures
        dispatch_step(session, CommandView::Reset).0.transaction == TransactionView::empty(),
        dispatch_step(session, CommandView::Reset).0.mode == session.mode,
        dispatch_step(session, CommandView::Reset).1 == Outcome::Reply(Status::Success),
{
}

/// The commands that declare the given recipients, one command each.
pub open spec fn recipient_commands(recipients: Seq<Seq<char>>) -> Seq<CommandView> {
    Seq::new(recipients.len(), |i: int| CommandView::RcptTo(recipients[i]))
}

/// Declaring recipients one after the other appends them to the recipients
/// of the transaction, in the order of the commands, and changes nothing
/// else. On a fresh session the transaction then holds exactly these
/// recipients.
pub proof fn lemma_recipients_accumulate(session: SessionView, recipients: Seq<Seq<char>>)
    ensures
        dispatch_all(session, recipient_commands(recipients)) == (SessionView {
            transaction: TransactionView {
                recipients: session.transaction.recipients + recipients,
                ..session.transaction
            },
            ..session
        }),
        dispatch_all(
            SessionView::initial(),
            recipient_commands(recipients),
        ).transaction.recipients == recipients,
{
    lemma_recipients_appended(session, recipients);
    lemma_recipients_appended(SessionView::initial(), recipients);
    assert(Seq::<Seq<char>>::empty() + recipients =~= recipients);
}

proof fn lemma_recipients_appended(session: SessionView, recipients: Seq<Seq<char>>)
    ensures
        dispatch_all(session, recipient_commands(recipients)) == (SessionView {
            transaction: TransactionView {
                recipients: session.transaction.recipients + recipients,
                ..session.transaction
            },
            ..session
        }),
    decreases recipients.len(),
{
    let commands = recipient_commands(recipients);
    if recipients.len() == 0 {
        assert(session.transaction.recipients + recipients =~= session.transaction.recipients);
    } else {
        let next = dispatch_step(session, commands[0]).0;
        assert(commands.drop_first() =~= recipient_commands(recipients.drop_first()));
        lemma_recipients_appended(next, recipients.drop_first());
        assert(next.transaction.recipients + recipients.drop_first()
            =~= session.transaction.recipients + recipients);
    }
}

/// A line with no known keyword is answered with the "not recognized"
/// status and changes nothing.
pub proof fn lemma_unrecognized_changes_nothing(session: SessionView, line: Seq<char>)
    requires
        session.mode == Mode::Command,
        decode(line) is Unrecognized,
    ensures
        line_step(session, line) == (session, Outcome::Reply(Status::NotRecognized)),
{
}

/// The end of the stream ends the session without a status line and
/// without an error, and leaves what was collected as it is.
pub proof fn lemma_end_of_stream_is_silent(session: SessionView)
    ensures
        input_step(session, InputView::EndOfStream) == (session, Outcome::Ended),
        Outcome::Ended.spec_status() is None,
        Outcome::Ended.spec_ends_session(),
        !(Outcome::Ended is Faulted),
        run(session, Seq::empty()) == (session, Seq::<Status>::empty()),
{
}

/// In command mode every line is answered with exactly one status line. In
/// data mode the line that ends the body is answered, and no other.
pub proof fn lemma_one_status_per_command(session: SessionView, line: Seq<char>)
    ensures
        session.mode == Mode::Command ==> sent_by(line_step(session, line).1).len() == 1,
        session.mode == Mode::Data && is_body_terminator(line) ==> sent_by(
            line_step(session, line).1,
        ).len() == 1,
        session.mode == Mode::Data && !is_body_terminator(line) ==> sent_by(
            line_step(session, line).1,
        ).len() == 0,
{
}

/// Only `StartData` enters data mode and only the body terminator leaves it.
pub proof fn lemma_mode_changes(session: SessionView, line: Seq<char>)
    ensures
        session.mode == Mode::Command ==> (line_step(session, line).0.mode == Mode::Data
            <==> decode(line) is StartData),
        session.mode == Mode::Data ==> (line_step(session, line).0.mode == Mode::Command
            <==> is_body_terminator(line)),
{
}

} // verus!
