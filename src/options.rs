//! The argument list of the generation attribute.
use vstd::prelude::*;
use vstd::string::StringExecFns;

verus! {

/// One token of an attribute's argument list.
pub enum Token {
    /// An identifier, as written (`r#` included for a raw one).
    Ident(String),
    /// A single punctuation character.
    Punct(char),
    /// A literal, as written in the source (quotes and escapes included).
    Literal(String),
    /// A delimited group, as written.
    Group(String),
}

/// Which methods go into the interface when they carry no marker.
#[derive(PartialEq, Eq, Structural, Clone, Copy, Debug)]
pub enum Policy {
    /// Every public method, except those marked `skip`.
    Include,
    /// Only the public methods marked `overwrite`.
    Exclude,
}

/// The options of one invocation.
pub struct Config {
    pub policy: Policy,
    pub passthrough: bool,
    pub name: Option<String>,
}

/// What a `Config` holds, with the name as a character sequence.
pub struct ConfigView {
    pub policy: Policy,
    pub passthrough: bool,
    pub name: Option<Seq<char>>,
}

/// The characters of an optional text.
pub open spec fn text_opt(o: Option<String>) -> Option<Seq<char>> {
    match o {
        Some(n) => Some(n@),
        None => None,
    }
}

impl View for Config {
    type V = ConfigView;

    open spec fn view(&self) -> ConfigView {
        ConfigView {
            policy: self.policy,
            passthrough: self.passthrough,
            name: text_opt(self.name),
        }
    }
}

/// Why an argument list was refused.
#[derive(PartialEq, Eq, Structural, Clone, Copy, Debug)]
pub enum ArgErrorKind {
    /// An option must start with an identifier.
    ExpectedIdent,
    /// The identifier names no option.
    UnknownOption,
    /// The option was given before.
    Duplicate,
    /// `=` must follow `default` and `name`.
    ExpectedEq,
    /// A string literal must follow `default =` and `name =`.
    ExpectedString,
    /// `default` takes `"overwrite"` or `"skip"`.
    BadDefault,
    /// The value of `name` is not an identifier.
    BadName,
    /// Options are separated by `,`.
    ExpectedComma,
}

/// A refused argument list: the kind of fault and the index of the offending
/// token (the length of the list where a token is missing at its end).
#[derive(PartialEq, Eq, Structural, Clone, Copy, Debug)]
pub struct ArgError {
    pub pos: usize,
    pub kind: ArgErrorKind,
}

/// The value of a string literal, from its source text; `None` where the text
/// is not one string literal.
pub uninterp spec fn string_literal_value(text: Seq<char>) -> Option<Seq<char>>;

/// Whether the text is one identifier that is not a keyword.
pub uninterp spec fn is_identifier(text: Seq<char>) -> bool;

/// Relies on `syn::parse_str::<syn::LitStr>` and `syn::LitStr::value`: the
/// unescaped value of the literal, or an error where the text is not a string
/// literal.
#[verifier::external_body]
fn literal_value(text: &String) -> (r: Option<String>)
    ensures
        match r {
            Some(v) => string_literal_value(text@) == Some(v@),
            None => string_literal_value(text@) is None,
        },
{
    syn::parse_str::<syn::LitStr>(text).ok().map(|lit| lit.value())
}

/// Relies on `syn::parse_str::<syn::Ident>`: it accepts the text when it is
/// one identifier and not a keyword.
#[verifier::external_body]
fn parses_as_identifier(text: &String) -> (r: bool)
    ensures
        r == is_identifier(text@),
{
    syn::parse_str::<syn::Ident>(text).is_ok()
}

/// The options seen so far while reading an argument list.
pub struct ParseState {
    pub policy: Option<Policy>,
    pub passthrough: bool,
    pub name: Option<Seq<char>>,
}

pub open spec fn initial_state() -> ParseState {
    ParseState { policy: None, passthrough: false, name: None }
}

pub open spec fn config_of(st: ParseState) -> ConfigView {
    ConfigView {
        policy: match st.policy {
            Some(p) => p,
            None => Policy::Include,
        },
        passthrough: st.passthrough,
        name: st.name,
    }
}

pub open spec fn is_punct(toks: Seq<Token>, i: int, c: char) -> bool {
    0 <= i < toks.len() && toks[i] == Token::Punct(c)
}

/// The value of the string literal at `i`, if one stands there.
pub open spec fn string_at(toks: Seq<Token>, i: int) -> Option<Seq<char>> {
    if 0 <= i < toks.len() {
        match toks[i] {
            Token::Literal(t) => string_literal_value(t@),
            _ => None,
        }
    } else {
        None
    }
}

pub open spec fn err(pos: int, kind: ArgErrorKind) -> ArgError {
    ArgError { pos: pos as usize, kind }
}

/// How many tokens the option that starts at `i` takes: a flag one, a
/// `key = "value"` pair three.
pub open spec fn option_width(toks: Seq<Token>, i: int) -> int {
    match toks[i] {
        Token::Ident(id) => if id@ == "passthrough"@ { 1 } else { 3 },
        _ => 3,
    }
}

/// The state after the option that starts at `i`.
pub open spec fn apply_option(toks: Seq<Token>, i: int, st: ParseState) -> Result<ParseState, ArgError> {
    match toks[i] {
        Token::Ident(id) => {
            if id@ == "passthrough"@ {
                if st.passthrough {
                    Err(err(i, ArgErrorKind::Duplicate))
                } else {
                    Ok(ParseState { passthrough: true, ..st })
                }
            } else if id@ == "default"@ || id@ == "name"@ {
                let is_default = id@ == "default"@;
                if (is_default && st.policy is Some) || (!is_default && st.name is Some) {
                    Err(err(i, ArgErrorKind::Duplicate))
                } else if !is_punct(toks, i + 1, '=') {
                    Err(err(i + 1, ArgErrorKind::ExpectedEq))
                } else {
                    match string_at(toks, i + 2) {
                        None => Err(err(i + 2, ArgErrorKind::ExpectedString)),
                        Some(v) => {
                            if is_default {
                                if v == "overwrite"@ {
                                    Ok(ParseState { policy: Some(Policy::Include), ..st })
                                } else if v == "skip"@ {
                                    Ok(ParseState { policy: Some(Policy::Exclude), ..st })
                                } else {
                                    Err(err(i + 2, ArgErrorKind::BadDefault))
                                }
                            } else if is_identifier(v) {
                                Ok(ParseState { name: Some(v), ..st })
                            } else {
                                Err(err(i + 2, ArgErrorKind::BadName))
                            }
                        },
                    }
                }
            } else {
                Err(err(i, ArgErrorKind::UnknownOption))
            }
        },
        _ => Err(err(i, ArgErrorKind::ExpectedIdent)),
    }
}

/// The outcome of reading the options from index `i` on, in state `st`.
pub open spec fn parse_from(toks: Seq<Token>, i: int, st: ParseState) -> Result<ParseState, ArgError>
    decreases toks.len() - i,
{
    if i < 0 || i >= toks.len() {
        Ok(st)
    } else {
        match apply_option(toks, i, st) {
            Err(e) => Err(e),
            Ok(st2) => {
                let j = i + option_width(toks, i);
                if j >= toks.len() {
                    Ok(st2)
                } else if is_punct(toks, j, ',') {
                    parse_from(toks, j + 1, st2)
                } else {
                    Err(err(j, ArgErrorKind::ExpectedComma))
                }
            },
        }
    }
}

/// The configuration that an argument list denotes, or why it is refused.
pub open spec fn parse_args_spec(toks: Seq<Token>) -> Result<ConfigView, ArgError> {
    match parse_from(toks, 0, initial_state()) {
        Ok(st) => Ok(config_of(st)),
        Err(e) => Err(e),
    }
}

fn text_is(s: &String, lit: &str) -> (r: bool)
    ensures
        r == (s@ == lit@),
{
    *s == String::from_str(lit)
}

/// Parses the argument list of the generation attribute.
///
/// Options are `default = "overwrite"`, `default = "skip"`,
/// `name = "<identifier>"` and the flag `passthrough`, in any order,
/// separated by commas, with an optional trailing comma. Each may be given
/// once. With none given the policy is `Include`, without passthrough and
/// without a name.
pub fn parse_args(toks: &Vec<Token>) -> (r: Result<Config, ArgError>)
    ensures
        match r {
            Ok(c) => parse_args_spec(toks@) == Ok::<ConfigView, ArgError>(c@),
            Err(e) => parse_args_spec(toks@) == Err::<ConfigView, ArgError>(e),
        },
{
    let ghost s = toks@;
    let mut policy: Option<Policy> = None;
    let mut passthrough = false;
    let mut name: Option<String> = None;
    let mut i: usize = 0;
    while i < toks.len()
        invariant
            s == toks@,
            i <= toks.len(),
            parse_from(s, i as int, ParseState {
                policy,
                passthrough,
                name: text_opt(name),
            }) == parse_from(s, 0, initial_state()),
        decreases toks.len() - i,
    {
        let ghost st = ParseState {
            policy,
            passthrough,
            name: text_opt(name),
        };
        let width: usize;
        assert(parse_from(s, i as int, st) == match apply_option(s, i as int, st) {
            Err(e) => Err(e),
            Ok(st2) => {
                let j = i + option_width(s, i as int);
                if j >= s.len() {
                    Ok(st2)
                } else if is_punct(s, j, ',') {
                    parse_from(s, j + 1, st2)
                } else {
                    Err(err(j, ArgErrorKind::ExpectedComma))
                }
            },
        });
        match &toks[i] {
            Token::Ident(id) => {
                if text_is(id, "passthrough") {
                    if passthrough {
                        return Err(ArgError { pos: i, kind: ArgErrorKind::Duplicate });
                    }
                    passthrough = true;
                    width = 1;
                } else if text_is(id, "default") || text_is(id, "name") {
                    let is_default = text_is(id, "default");
                    if (is_default && policy.is_some()) || (!is_default && name.is_some()) {
                        return Err(ArgError { pos: i, kind: ArgErrorKind::Duplicate });
                    }
                    if i + 1 >= toks.len() {
                        return Err(ArgError { pos: i + 1, kind: ArgErrorKind::ExpectedEq });
                    }
                    match &toks[i + 1] {
                        Token::Punct(c) => {
                            if *c != '=' {
                                return Err(ArgError { pos: i + 1, kind: ArgErrorKind::ExpectedEq });
                            }
                        },
                        _ => {
                            return Err(ArgError { pos: i + 1, kind: ArgErrorKind::ExpectedEq });
                        },
                    }
                    if i + 2 >= toks.len() {
                        return Err(ArgError { pos: i + 2, kind: ArgErrorKind::ExpectedString });
                    }
                    let value = match &toks[i + 2] {
                        Token::Literal(t) => literal_value(t),
                        _ => None,
                    };
                    match value {
                        None => {
                            return Err(ArgError { pos: i + 2, kind: ArgErrorKind::ExpectedString });
                        },
                        Some(v) => {
                            if is_default {
                                if text_is(&v, "overwrite") {
                                    policy = Some(Policy::Include);
                                } else if text_is(&v, "skip") {
                                    policy = Some(Policy::Exclude);
                                } else {
                                    return Err(ArgError { pos: i + 2, kind: ArgErrorKind::BadDefault });
                                }
                            } else if parses_as_identifier(&v) {
                                name = Some(v);
                            } else {
                                return Err(ArgError { pos: i + 2, kind: ArgErrorKind::BadName });
                            }
                        },
                    }
                    width = 3;
                } else {
                    return Err(ArgError { pos: i, kind: ArgErrorKind::UnknownOption });
                }
            },
            _ => {
                return Err(ArgError { pos: i, kind: ArgErrorKind::ExpectedIdent });
            },
        }
        let ghost st2 = ParseState {
            policy,
            passthrough,
            name: text_opt(name),
        };
        assert(apply_option(s, i as int, st) == Ok::<ParseState, ArgError>(st2));
        assert(option_width(s, i as int) == width as int);
        let j = i + width;
        if j < toks.len() {
            match &toks[j] {
                Token::Punct(c) => {
                    if *c != ',' {
                        return Err(ArgError { pos: j, kind: ArgErrorKind::ExpectedComma });
                    }
                },
                _ => {
                    return Err(ArgError { pos: j, kind: ArgErrorKind::ExpectedComma });
                },
            }
            i = j + 1;
        } else {
            i = j;
        }
    }
    Ok(Config { policy: match policy { Some(p) => p, None => Policy::Include }, passthrough, name })
}

} // verus!
