//! Status lines: what the server answers.
use vstd::prelude::*;
use crate::text::ends_with_crlf;

verus! {

/// The outcome that a status line reports to the client.
#[derive(Clone, Copy, Debug, PartialEq, Eq, Structural)]
pub enum Status {
    /// Sent once when the connection opens.
    Greeting,
    /// The command was carried out.
    Success,
    /// The server is ready to receive the message body.
    BeginData,
    /// Answer to the command that ends the session.
    Goodbye,
    /// The line began with no known keyword.
    NotRecognized,
}

/// The value of a decimal digit character.
pub open spec fn digit_value(c: char) -> int {
    (c as int) - ('0' as int)
}

impl Status {
    /// The three-digit code of the status.
    pub open spec fn spec_code(self) -> u16 {
        match self {
            Status::Greeting => 220,
            Status::Success => 250,
            Status::BeginData => 354,
            Status::Goodbye => 221,
            Status::NotRecognized => 500,
        }
    }

    /// The status line as it goes over the wire: the code, one space, a
    /// text, and the line terminator.
    pub open spec fn text(self) -> Seq<char> {
        match self {
            Status::Greeting => "220 Eccentric Mail Server Ready\r\n"@,
            Status::Success => "250 OK\r\n"@,
            Status::BeginData => "354 Start mail input; end with <CRLF>.<CRLF>\r\n"@,
            Status::Goodbye => "221 OK\r\n"@,
            Status::NotRecognized => "500 Command not recognized\r\n"@,
        }
    }

    /// The three-digit code of the status.
    pub fn code(&self) -> (code: u16)
        ensures
            code == self.spec_code(),
    {
        match self {
            Status::Greeting => 220,
            Status::Success => 250,
            Status::BeginData => 354,
            Status::Goodbye => 221,
            Status::NotRecognized => 500,
        }
    }

    /// The status line to write to the client.
    pub fn line(&self) -> (line: String)
        ensures
            line@ == self.text(),
    {
        match self {
            Status::Greeting => String::from_str("220 Eccentric Mail Server Ready\r\n"),
            Status::Success => String::from_str("250 OK\r\n"),
            Status::BeginData => String::from_str(
                "354 Start mail input; end with <CRLF>.<CRLF>\r\n",
            ),
            Status::Goodbye => String::from_str("221 OK\r\n"),
            Status::NotRecognized => String::from_str("500 Command not recognized\r\n"),
        }
    }
}

/// Every status line is the decimal code of its status, one space, a text
/// that is not empty, and the line terminator; the terminator occurs nowhere
/// else in it.
pub proof fn lemma_status_line_format(status: Status)
    ensures
        status.text().len() > 6,
        digit_value(status.text()[0]) * 100 + digit_value(status.text()[1]) * 10 + digit_value(
            status.text()[2],
        ) == status.spec_code(),
        status.text()[3] == ' ',
        ends_with_crlf(status.text()),
        forall|i: int|
            0 <= i < status.text().len() - 2 ==> status.text()[i] != '\r' && status.text()[i]
                != '\n',
{
    reveal_strlit("220 Eccentric Mail Server Ready\r\n");
    reveal_strlit("250 OK\r\n");
    reveal_strlit("354 Start mail input; end with <CRLF>.<CRLF>\r\n");
    reveal_strlit("221 OK\r\n");
    reveal_strlit("500 Command not recognized\r\n");
}

} // verus!
