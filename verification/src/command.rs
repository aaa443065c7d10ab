//! The command decoder: one text line in, one typed command out.
use vstd::prelude::*;
use crate::text::{
    after_token, content_len, first_token, lemma_token_len_bounds, lemma_token_len_unique,
    lowercase, starts_with_tag, strip_tag, strip_terminator, without_tag,
};

verus! {

/// What a keyword asks for, without its argument.
#[derive(Clone, Copy, Debug, PartialEq, Eq, Structural)]
pub enum KeywordClass {
    Greet,
    MailFrom,
    RcptTo,
    StartData,
    Reset,
    Noop,
    Verify,
    Quit,
    Unrecognized,
}

/// The class of a lower-case keyword. `ehlo` and `helo` are two spellings of
/// the same greeting; every token outside the keyword set is unrecognized.
pub open spec fn canonical_class(token: Seq<char>) -> KeywordClass {
    if token == "ehlo"@ || token == "helo"@ {
        KeywordClass::Greet
    } else if token == "mail"@ {
        KeywordClass::MailFrom
    } else if token == "rcpt"@ {
        KeywordClass::RcptTo
    } else if token == "data"@ {
        KeywordClass::StartData
    } else if token == "rset"@ {
        KeywordClass::Reset
    } else if token == "noop"@ {
        KeywordClass::Noop
    } else if token == "vrfy"@ {
        KeywordClass::Verify
    } else if token == "quit"@ {
        KeywordClass::Quit
    } else {
        KeywordClass::Unrecognized
    }
}

/// One decoded client line.
#[derive(Debug, PartialEq, Eq)]
pub enum Command {
    /// The client names itself.
    Greet(String),
    /// The envelope sender.
    MailFrom(String),
    /// One envelope recipient.
    RcptTo(String),
    /// The message body follows.
    StartData,
    /// Forget the transaction in progress.
    Reset,
    /// Nothing to do.
    Noop,
    /// Address probe; always answered with success.
    Verify,
    /// End of the session.
    Quit,
    /// The line begins with no known keyword.
    Unrecognized,
}

/// The mathematical value of a [`Command`]: the same variants, with the
/// arguments as character sequences.
pub enum CommandView {
    Greet(Seq<char>),
    MailFrom(Seq<char>),
    RcptTo(Seq<char>),
    StartData,
    Reset,
    Noop,
    Verify,
    Quit,
    Unrecognized,
}

impl CommandView {
    pub open spec fn keyword_class(self) -> KeywordClass {
        match self {
            CommandView::Greet(_) => KeywordClass::Greet,
            CommandView::MailFrom(_) => KeywordClass::MailFrom,
            CommandView::RcptTo(_) => KeywordClass::RcptTo,
            CommandView::StartData => KeywordClass::StartData,
            CommandView::Reset => KeywordClass::Reset,
            CommandView::Noop => KeywordClass::Noop,
            CommandView::Verify => KeywordClass::Verify,
            CommandView::Quit => KeywordClass::Quit,
            CommandView::Unrecognized => KeywordClass::Unrecognized,
        }
    }
}

impl View for Command {
    type V = CommandView;

    open spec fn view(&self) -> CommandView {
        match self {
            Command::Greet(domain) => CommandView::Greet(domain@),
            Command::MailFrom(path) => CommandView::MailFrom(path@),
            Command::RcptTo(path) => CommandView::RcptTo(path@),
            Command::StartData => CommandView::StartData,
            Command::Reset => CommandView::Reset,
            Command::Noop => CommandView::Noop,
            Command::Verify => CommandView::Verify,
            Command::Quit => CommandView::Quit,
            Command::Unrecognized => CommandView::Unrecognized,
        }
    }
}

impl Clone for Command {
    fn clone(&self) -> (copy: Command)
        ensures
            copy@ == self@,
    {
        match self {
            Command::Greet(domain) => Command::Greet(domain.clone()),
            Command::MailFrom(path) => Command::MailFrom(path.clone()),
            Command::RcptTo(path) => Command::RcptTo(path.clone()),
            Command::StartData => Command::StartData,
            Command::Reset => Command::Reset,
            Command::Noop => Command::Noop,
            Command::Verify => Command::Verify,
            Command::Quit => Command::Quit,
            Command::Unrecognized => Command::Unrecognized,
        }
    }
}

impl Command {
    /// The class of the keyword that this command was decoded from.
    pub fn keyword_class(&self) -> (class: KeywordClass)
        ensures
            class == self@.keyword_class(),
    {
        match self {
            Command::Greet(_) => KeywordClass::Greet,
            Command::MailFrom(_) => KeywordClass::MailFrom,
            Command::RcptTo(_) => KeywordClass::RcptTo,
            Command::StartData => KeywordClass::StartData,
            Command::Reset => KeywordClass::Reset,
            Command::Noop => KeywordClass::Noop,
            Command::Verify => KeywordClass::Verify,
            Command::Quit => KeywordClass::Quit,
            Command::Unrecognized => KeywordClass::Unrecognized,
        }
    }
}

/// The command that a line stands for.
///
/// The line's terminator is dropped first. The leading run of non-space
/// characters is the keyword, compared without regard to ASCII case. The
/// argument is what follows the keyword and one separator character, taken as
/// it is; it is empty when nothing follows. The sender and the recipient may
/// be introduced by `FROM:` and `TO:`, which then belong to the keyword and
/// not to the argument.
pub open spec fn decode(line: Seq<char>) -> CommandView {
    let text = strip_terminator(line);
    let argument = after_token(text);
    match canonical_class(lowercase(first_token(text))) {
        KeywordClass::Greet => CommandView::Greet(argument),
        KeywordClass::MailFrom => CommandView::MailFrom(without_tag(argument, "from:"@)),
        KeywordClass::RcptTo => CommandView::RcptTo(without_tag(argument, "to:"@)),
        KeywordClass::StartData => CommandView::StartData,
        KeywordClass::Reset => CommandView::Reset,
        KeywordClass::Noop => CommandView::Noop,
        KeywordClass::Verify => CommandView::Verify,
        KeywordClass::Quit => CommandView::Quit,
        KeywordClass::Unrecognized => CommandView::Unrecognized,
    }
}

/// The class of a decoded line is the class of its leading token, folded to
/// lower case: a keyword in any mix of cases gives its command, every other
/// token gives `Unrecognized`.
pub proof fn lemma_decode_class(line: Seq<char>)
    ensures
        decode(line).keyword_class() == canonical_class(
            lowercase(first_token(strip_terminator(line))),
        ),
        decode(line) is Unrecognized <==> canonical_class(
            lowercase(first_token(strip_terminator(line))),
        ) == KeywordClass::Unrecognized,
{
}

/// Two lines whose leading tokens differ only in the case of their letters
/// decode to commands of the same class.
pub proof fn lemma_decode_ignores_case(a: Seq<char>, b: Seq<char>)
    requires
        lowercase(first_token(strip_terminator(a))) == lowercase(
            first_token(strip_terminator(b)),
        ),
    ensures
        decode(a).keyword_class() == decode(b).keyword_class(),
{
}

/// Every keyword has four characters, none of them a space, also before case
/// folding.
pub proof fn lemma_keyword_shape(token: Seq<char>)
    requires
        canonical_class(lowercase(token)) != KeywordClass::Unrecognized,
    ensures
        token.len() == 4,
        forall|i: int| 0 <= i < 4 ==> token[i] != ' ',
{
    reveal_strlit("ehlo");
    reveal_strlit("helo");
    reveal_strlit("mail");
    reveal_strlit("rcpt");
    reveal_strlit("data");
    reveal_strlit("rset");
    reveal_strlit("noop");
    reveal_strlit("vrfy");
    reveal_strlit("quit");
    let low = lowercase(token);
    assert(low.len() == 4);
    assert forall|i: int| 0 <= i < 4 implies token[i] != ' ' by {
        assert(low[i] != ' ');
    }
}

/// The class of a keyword candidate, compared without regard to ASCII case.
pub fn classify(token: &str) -> (class: KeywordClass)
    ensures
        class == canonical_class(lowercase(token@)),
{
    proof {
        reveal_strlit("ehlo");
        reveal_strlit("helo");
        reveal_strlit("mail");
        reveal_strlit("rcpt");
        reveal_strlit("data");
        reveal_strlit("rset");
        reveal_strlit("noop");
        reveal_strlit("vrfy");
        reveal_strlit("quit");
    }
    if token.unicode_len() != 4 {
        assert(lowercase(token@).len() != 4);
        return KeywordClass::Unrecognized;
    }
    proof {
        assert(token@.take(4) =~= token@);
    }
    if starts_with_tag(token, "ehlo") || starts_with_tag(token, "helo") {
        KeywordClass::Greet
    } else if starts_with_tag(token, "mail") {
        KeywordClass::MailFrom
    } else if starts_with_tag(token, "rcpt") {
        KeywordClass::RcptTo
    } else if starts_with_tag(token, "data") {
        KeywordClass::StartData
    } else if starts_with_tag(token, "rset") {
        KeywordClass::Reset
    } else if starts_with_tag(token, "noop") {
        KeywordClass::Noop
    } else if starts_with_tag(token, "vrfy") {
        KeywordClass::Verify
    } else if starts_with_tag(token, "quit") {
        KeywordClass::Quit
    } else {
        KeywordClass::Unrecognized
    }
}

/// Decodes one line. Never fails: a line that begins with no known keyword
/// is `Unrecognized`, and a keyword without an argument has the empty one.
pub fn get_command(line: &str) -> (cmd: Command)
    ensures
        cmd@ == decode(line@),
        cmd@.keyword_class() == canonical_class(lowercase(first_token(strip_terminator(line@)))),
{
    let end = content_len(line);
    let ghost text = strip_terminator(line@);
    proof {
        lemma_token_len_bounds(text);
        if canonical_class(lowercase(first_token(text))) != KeywordClass::Unrecognized {
            lemma_keyword_shape(first_token(text));
        }
    }
    if end < 4 {
        return Command::Unrecognized;
    }
    let token = line.substring_char(0, 4);
    proof {
        assert(token@ =~= text.take(4));
    }
    let class = classify(token);
    if end > 4 && line.get_char(4) != ' ' {
        return Command::Unrecognized;
    }
    match class {
        KeywordClass::Unrecognized => {
            return Command::Unrecognized;
        },
        _ => {},
    }
    proof {
        lemma_keyword_shape(token@);
        lemma_token_len_unique(text, 4);
    }
    let start: usize = if end > 4 { 5 } else { 4 };
    let argument = line.substring_char(start, end);
    proof {
        assert(argument@ =~= after_token(text));
    }
    match class {
        KeywordClass::Greet => Command::Greet(String::from_str(argument)),
        KeywordClass::MailFrom => Command::MailFrom(String::from_str(strip_tag(argument, "from:"))),
        KeywordClass::RcptTo => Command::RcptTo(String::from_str(strip_tag(argument, "to:"))),
        KeywordClass::StartData => Command::StartData,
        KeywordClass::Reset => Command::Reset,
        KeywordClass::Noop => Command::Noop,
        KeywordClass::Verify => Command::Verify,
        KeywordClass::Quit => Command::Quit,
        KeywordClass::Unrecognized => Command::Unrecognized,
    }
}

} // verus!
