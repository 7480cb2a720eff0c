use vstd::prelude::*;

use crate::error::Error;

verus! {

/// The severity shown with a message.
#[derive(Clone, Copy, Debug, PartialEq, Eq)]
pub enum MessageType {
    Info,
    Warning,
    Error,
}

/// What the pango markup entity for `c` is, or `c` itself where it needs none.
pub open spec fn escape_char(c: char) -> Seq<char> {
    if c == '&' {
        seq!['&', 'a', 'm', 'p', ';']
    } else if c == '<' {
        seq!['&', 'l', 't', ';']
    } else if c == '>' {
        seq!['&', 'g', 't', ';']
    } else {
        seq![c]
    }
}

/// `s` with every `&`, `<` and `>` written as a pango entity.
pub open spec fn escape_pango(s: Seq<char>) -> Seq<char>
    decreases s.len(),
{
    if s.len() == 0 {
        Seq::empty()
    } else {
        escape_pango(s.drop_last()) + escape_char(s.last())
    }
}

/// Relies on `String::push`: the character is appended at the end.
#[verifier::external_body]
fn push_char(s: &mut String, c: char)
    ensures
        final(s)@ == old(s)@.push(c),
{
    s.push(c)
}

/// Escapes the characters that pango reads as markup.
pub fn escape_pango_entities(text: &str) -> (r: String)
    ensures
        r@ == escape_pango(text@),
{
    let mut out = String::new();
    for c in it: text.chars()
        invariant
            it.seq() == text@,
            out@ == escape_pango(text@.take(it.index() as int)),
    {
        proof {
            assert(text@.take(it.index() + 1).drop_last() == text@.take(it.index() as int));
        }
        if c == '&' {
            out.append("&amp;");
        } else if c == '<' {
            out.append("&lt;");
        } else if c == '>' {
            out.append("&gt;");
        } else {
            push_char(&mut out, c);
        }
        proof {
            reveal_strlit("&amp;");
            reveal_strlit("&lt;");
            reveal_strlit("&gt;");
        }
    }
    assert(text@.take(text@.len() as int) == text@);
    out
}

/// Which dialog helper program shows the message.
#[derive(Clone, Copy, Debug, PartialEq, Eq)]
pub enum UseCommand {
    KDialog,
    Zenity,
}

/// What a message dialog shows, and whether it asks a yes/no question.
pub struct Params<'a> {
    pub title: &'a str,
    pub text: &'a str,
    pub typ: MessageType,
    pub ask: bool,
}

/// A message with a single button to dismiss it.
pub struct MessageAlert<'a> {
    pub title: &'a str,
    pub text: &'a str,
    pub typ: MessageType,
}

/// A question answered with yes or no.
pub struct MessageConfirm<'a> {
    pub title: &'a str,
    pub text: &'a str,
    pub typ: MessageType,
}

impl<'a> MessageAlert<'a> {
    /// The dialog parameters of this alert: it asks nothing.
    pub fn params(&self) -> (r: Params<'a>)
        ensures
            r.title == self.title,
            r.text == self.text,
            r.typ == self.typ,
            !r.ask,
    {
        Params { title: self.title, text: self.text, typ: self.typ, ask: false }
    }
}

impl<'a> MessageConfirm<'a> {
    /// The dialog parameters of this question: it asks for an answer.
    pub fn params(&self) -> (r: Params<'a>)
        ensures
            r.title == self.title,
            r.text == self.text,
            r.typ == self.typ,
            r.ask,
    {
        Params { title: self.title, text: self.text, typ: self.typ, ask: true }
    }
}

/// The icon option that kdialog is given for a severity.
pub open spec fn kdialog_icon(typ: MessageType) -> Seq<char> {
    match typ {
        MessageType::Info => "--icon=dialog-information"@,
        MessageType::Warning => "--icon=dialog-warning"@,
        MessageType::Error => "--icon=dialog-error"@,
    }
}

/// The arguments kdialog is run with.
pub open spec fn kdialog_args_spec(p: Params) -> Seq<Seq<char>> {
    seq![
        if p.ask { "--yesno"@ } else { "--msgbox"@ },
        escape_pango(p.text@),
        "--title"@,
        p.title@,
        kdialog_icon(p.typ),
    ]
}

/// The option zenity is given for a severity: an icon for a question, the
/// dialog kind otherwise.
pub open spec fn zenity_kind(typ: MessageType, ask: bool) -> Seq<char> {
    if ask {
        match typ {
            MessageType::Info => "--icon-name=dialog-information"@,
            MessageType::Warning => "--icon-name=dialog-warning"@,
            MessageType::Error => "--icon-name=dialog-error"@,
        }
    } else {
        match typ {
            MessageType::Info => "--info"@,
            MessageType::Warning => "--warning"@,
            MessageType::Error => "--error"@,
        }
    }
}

/// The arguments zenity is run with.
pub open spec fn zenity_args_spec(p: Params) -> Seq<Seq<char>> {
    let head: Seq<Seq<char>> = if p.ask {
        seq!["--width=400"@, "--question"@, zenity_kind(p.typ, true)]
    } else {
        seq!["--width=400"@, zenity_kind(p.typ, false)]
    };
    head + seq!["--title"@, p.title@, "--text"@, escape_pango(p.text@)]
}

/// Builds the arguments for kdialog: the dialog kind, the escaped text, the
/// title and the icon.
pub fn kdialog_args(params: &Params) -> (r: Vec<String>)
    ensures
        r.deep_view() == kdialog_args_spec(*params),
{
    let mut args: Vec<String> = Vec::new();
    if params.ask {
        args.push(String::from_str("--yesno"));
    } else {
        args.push(String::from_str("--msgbox"));
    }
    args.push(escape_pango_entities(params.text));
    args.push(String::from_str("--title"));
    args.push(String::from_str(params.title));
    match params.typ {
        MessageType::Info => args.push(String::from_str("--icon=dialog-information")),
        MessageType::Warning => args.push(String::from_str("--icon=dialog-warning")),
        MessageType::Error => args.push(String::from_str("--icon=dialog-error")),
    }
    assert(args.deep_view() =~= kdialog_args_spec(*params));
    args
}

/// Builds the arguments for zenity: a fixed width, the dialog kind (with an
/// icon for a question), the title and the escaped text.
pub fn zenity_args(params: &Params) -> (r: Vec<String>)
    ensures
        r.deep_view() == zenity_args_spec(*params),
{
    let mut args: Vec<String> = Vec::new();
    args.push(String::from_str("--width=400"));
    if params.ask {
        args.push(String::from_str("--question"));
        match params.typ {
            MessageType::Info => args.push(String::from_str("--icon-name=dialog-information")),
            MessageType::Warning => args.push(String::from_str("--icon-name=dialog-warning")),
            MessageType::Error => args.push(String::from_str("--icon-name=dialog-error")),
        }
    } else {
        match params.typ {
            MessageType::Info => args.push(String::from_str("--info")),
            MessageType::Warning => args.push(String::from_str("--warning")),
            MessageType::Error => args.push(String::from_str("--error")),
        }
    }
    args.push(String::from_str("--title"));
    args.push(String::from_str(params.title));
    args.push(String::from_str("--text"));
    args.push(escape_pango_entities(params.text));
    assert(args.deep_view() =~= zenity_args_spec(*params));
    args
}

/// Builds the arguments for the chosen helper.
pub fn message_args(command: UseCommand, params: &Params) -> (r: Vec<String>)
    ensures
        r.deep_view() == match command {
            UseCommand::KDialog => kdialog_args_spec(*params),
            UseCommand::Zenity => zenity_args_spec(*params),
        },
{
    match command {
        UseCommand::KDialog => kdialog_args(params),
        UseCommand::Zenity => zenity_args(params),
    }
}

/// The name of the helper's program, as run and as reported in errors.
pub fn program_name(command: UseCommand) -> (r: &'static str)
    ensures
        r@ == match command {
            UseCommand::KDialog => "kdialog"@,
            UseCommand::Zenity => "zenity"@,
        },
{
    match command {
        UseCommand::KDialog => "kdialog",
        UseCommand::Zenity => "zenity",
    }
}

/// Reads a helper's exit status: code 0 is a yes (or a dismissed message),
/// any other code a no, and no code at all (killed by a signal) an error
/// naming the helper.
pub fn exit_status_result(code: Option<i32>, program: &'static str) -> (r: Result<bool, Error>)
    ensures
        match code {
            Some(c) => r == Ok::<bool, Error>(c == 0),
            None => r == Err::<bool, Error>(Error::UnexpectedOutput(program)),
        },
{
    match code {
        Some(c) => Ok(c == 0),
        None => Err(Error::UnexpectedOutput(program)),
    }
}

/// Reads the exit status of the chosen helper.
pub fn message_result(command: UseCommand, code: Option<i32>) -> (r: Result<bool, Error>)
    ensures
        match code {
            Some(c) => r == Ok::<bool, Error>(c == 0),
            None => r matches Err(Error::UnexpectedOutput(name)) && name@ == match command {
                UseCommand::KDialog => "kdialog"@,
                UseCommand::Zenity => "zenity"@,
            },
        },
{
    exit_status_result(code, program_name(command))
}

/// Escaped text holds no `<` or `>`, so pango reads no markup in it.
pub proof fn lemma_escape_removes_markup(s: Seq<char>)
    ensures
        forall|i: int| 0 <= i < escape_pango(s).len() ==> escape_pango(s)[i] != '<'
            && escape_pango(s)[i] != '>',
    decreases s.len(),
{
    if s.len() > 0 {
        lemma_escape_removes_markup(s.drop_last());
        let a = escape_pango(s.drop_last());
        let b = escape_char(s.last());
        assert forall|i: int| 0 <= i < b.len() implies b[i] != '<' && b[i] != '>' by {}
        assert forall|i: int| 0 <= i < escape_pango(s).len() implies escape_pango(s)[i] != '<'
            && escape_pango(s)[i] != '>' by {
            if i >= a.len() {
                assert(escape_pango(s)[i] == b[i - a.len()]);
            } else {
                assert(escape_pango(s)[i] == a[i]);
            }
        }
    }
}

} // verus!
