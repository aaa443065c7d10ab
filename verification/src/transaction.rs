//! The transaction: the envelope and body collected on one connection.
use vstd::prelude::*;

verus! {

/// The mathematical value of a [`Transaction`].
pub struct TransactionView {
    /// The name that the client gave itself.
    pub client_domain: Seq<char>,
    /// The envelope sender; empty while none was declared.
    pub sender: Seq<char>,
    /// The envelope recipients, in the order in which they were declared.
    pub recipients: Seq<Seq<char>>,
    /// The body lines received so far, each with its terminator.
    pub body: Seq<char>,
}

impl TransactionView {
    /// The transaction of a session that has received nothing.
    pub open spec fn empty() -> TransactionView {
        TransactionView {
            client_domain: Seq::empty(),
            sender: Seq::empty(),
            recipients: Seq::empty(),
            body: Seq::empty(),
        }
    }
}

/// The mail exchange in progress on a connection.
#[derive(Debug)]
pub struct Transaction {
    client_domain: String,
    sender: String,
    recipients: Vec<String>,
    body: String,
}

impl View for Transaction {
    type V = TransactionView;

    closed spec fn view(&self) -> TransactionView {
        TransactionView {
            client_domain: self.client_domain@,
            sender: self.sender@,
            recipients: self.recipients.deep_view(),
            body: self.body@,
        }
    }
}

impl Transaction {
    /// An empty transaction.
    pub fn new() -> (transaction: Transaction)
        ensures
            transaction@ == TransactionView::empty(),
    {
        let transaction = Transaction {
            client_domain: String::new(),
            sender: String::new(),
            recipients: Vec::new(),
            body: String::new(),
        };
        proof {
            assert(transaction.recipients.deep_view() =~= Seq::<Seq<char>>::empty());
        }
        transaction
    }

    /// The name that the client gave itself.
    pub fn client_domain(&self) -> (domain: &str)
        ensures
            domain@ == self@.client_domain,
    {
        self.client_domain.as_str()
    }

    /// The envelope sender; empty while none was declared.
    pub fn sender(&self) -> (sender: &str)
        ensures
            sender@ == self@.sender,
    {
        self.sender.as_str()
    }

    /// Whether a sender was declared.
    pub fn has_sender(&self) -> (declared: bool)
        ensures
            declared == (self@.sender.len() > 0),
    {
        !self.sender.as_str().is_empty()
    }

    /// The envelope recipients, in the order in which they were declared.
    pub fn recipients(&self) -> (recipients: &Vec<String>)
        ensures
            recipients.deep_view() == self@.recipients,
    {
        &self.recipients
    }

    /// The body received so far.
    pub fn body(&self) -> (body: &str)
        ensures
            body@ == self@.body,
    {
        self.body.as_str()
    }

    /// Records the name that the client gave itself.
    pub fn set_client_domain(&mut self, domain: String)
        ensures
            final(self)@ == (TransactionView { client_domain: domain@, ..old(self)@ }),
    {
        self.client_domain = domain;
    }

    /// Records the envelope sender.
    pub fn set_sender(&mut self, sender: String)
        ensures
            final(self)@ == (TransactionView { sender: sender@, ..old(self)@ }),
    {
        self.sender = sender;
    }

    /// Adds one envelope recipient after those already declared.
    pub fn add_recipient(&mut self, recipient: String)
        ensures
            final(self)@ == (TransactionView {
                recipients: old(self)@.recipients.push(recipient@),
                ..old(self)@
            }),
    {
        self.recipients.push(recipient);
        proof {
            assert(self.recipients.deep_view() =~= old(self).recipients.deep_view().push(
                recipient@,
            ));
        }
    }

    /// Appends one line to the body, as it was received.
    pub fn append_body(&mut self, line: &str)
        ensures
            final(self)@ == (TransactionView { body: old(self)@.body + line@, ..old(self)@ }),
    {
        self.body.append(line);
    }

    /// Forgets everything collected so far.
    pub fn clear(&mut self)
        ensures
            final(self)@ == TransactionView::empty(),
    {
        *self = Transaction::new();
    }
}

} // verus!
