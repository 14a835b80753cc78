//! The credential loader: turns the token file's parsed document into
//! the one or two API credentials a run needs, and resolves a leading
//! home-directory marker in the token file's path.
use vstd::prelude::*;
use vstd::string::*;
use crate::json::{Json, spec_get};
use crate::parse::{parse_yaml, spec_parse_yaml};

verus! {

/// Which readings a run collects, and with it which token-file shape
/// applies: one credential under `token`, or the pair `remo` /
/// `weatherapi`.
#[derive(Clone, Copy, Debug, PartialEq, Eq, Structural)]
pub enum Mode {
    Single,
    Dual,
}

/// The credential strings of one run, read once from the token file.
#[derive(Debug)]
pub enum Credentials {
    Single { token: String },
    Dual { remo: String, weatherapi: String },
}

/// The mathematical value of [`Credentials`].
pub enum CredentialsV {
    Single { token: Seq<char> },
    Dual { remo: Seq<char>, weatherapi: Seq<char> },
}

impl View for Credentials {
    type V = CredentialsV;

    open spec fn view(&self) -> CredentialsV {
        match self {
            Credentials::Single { token } => CredentialsV::Single { token: token@ },
            Credentials::Dual { remo, weatherapi } => CredentialsV::Dual {
                remo: remo@,
                weatherapi: weatherapi@,
            },
        }
    }
}

/// Why the token file was rejected.
#[derive(Debug, PartialEq, Eq, Structural)]
pub enum TokenError {
    /// The file is not a well-formed document.
    Syntax,
    /// A credential field is missing or not of the expected type.
    Shape,
}

/// The credentials a token-file document yields: under `Mode::Single` a
/// string field `token`, or the first element of a string list under
/// `token`; under `Mode::Dual` the two string fields `remo` and
/// `weatherapi`. `None` on any other shape.
pub open spec fn spec_credentials(mode: Mode, doc: Json) -> Option<CredentialsV> {
    match mode {
        Mode::Single => match spec_get(doc, "token"@) {
            Some(Json::Str(s)) => Some(CredentialsV::Single { token: s@ }),
            Some(Json::Arr(items)) => if items@.len() > 0 {
                match items@[0] {
                    Json::Str(s) => Some(CredentialsV::Single { token: s@ }),
                    _ => None,
                }
            } else {
                None
            },
            _ => None,
        },
        Mode::Dual => match (spec_get(doc, "remo"@), spec_get(doc, "weatherapi"@)) {
            (Some(Json::Str(r)), Some(Json::Str(w))) => Some(CredentialsV::Dual {
                remo: r@,
                weatherapi: w@,
            }),
            _ => None,
        },
    }
}

/// Extracts the credentials from a parsed token-file document.
pub fn credentials_from_doc(mode: Mode, doc: &Json) -> (r: Option<Credentials>)
    ensures
        match r {
            Some(c) => spec_credentials(mode, *doc) == Some(c@),
            None => spec_credentials(mode, *doc) is None,
        },
{
    match mode {
        Mode::Single => match doc.get("token") {
            Some(v) => match v {
                Json::Str(s) => Some(Credentials::Single { token: s.clone() }),
                Json::Arr(items) => {
                    if items.len() > 0 {
                        match &items[0] {
                            Json::Str(s) => Some(Credentials::Single { token: s.clone() }),
                            _ => None,
                        }
                    } else {
                        None
                    }
                },
                _ => None,
            },
            None => None,
        },
        Mode::Dual => {
            let remo = match doc.get("remo") {
                Some(v) => match v {
                    Json::Str(s) => s.clone(),
                    _ => { return None; },
                },
                None => { return None; },
            };
            match doc.get("weatherapi") {
                Some(v) => match v {
                    Json::Str(s) => Some(Credentials::Dual { remo, weatherapi: s.clone() }),
                    _ => None,
                },
                None => None,
            }
        },
    }
}

/// Parses the token file's text and extracts the credentials.
pub fn load_credentials(mode: Mode, text: &str) -> (r: Result<Credentials, TokenError>)
    ensures
        match spec_parse_yaml(text@) {
            None => r == Err::<Credentials, TokenError>(TokenError::Syntax),
            Some(doc) => match spec_credentials(mode, doc) {
                None => r == Err::<Credentials, TokenError>(TokenError::Shape),
                Some(c) => r matches Ok(cr) && cr@ == c,
            },
        },
{
    match parse_yaml(text) {
        None => Err(TokenError::Syntax),
        Some(doc) => match credentials_from_doc(mode, &doc) {
            None => Err(TokenError::Shape),
            Some(c) => Ok(c),
        },
    }
}

/// A path starting with the home-directory marker `~/`, resolved against
/// the home directory; any other path is left as it is.
pub open spec fn spec_expand_home(path: Seq<char>, home: Seq<char>) -> Seq<char> {
    if path.len() >= 2 && path[0] == '~' && path[1] == '/' {
        home + path.skip(1)
    } else {
        path
    }
}

/// Resolves a leading `~/` in the token-file path against the home
/// directory, which the caller reads from its environment.
pub fn expand_home(path: &str, home: &str) -> (r: String)
    ensures
        r@ == spec_expand_home(path@, home@),
{
    let n = path.unicode_len();
    if n >= 2 && path.get_char(0) == '~' && path.get_char(1) == '/' {
        let rest = path.substring_char(1, n);
        let mut s = home.to_owned();
        s.append(rest);
        proof {
            assert(path@.subrange(1, n as int) =~= path@.skip(1));
        }
        s
    } else {
        path.to_owned()
    }
}

} // verus!
