//! The specification directive: its statement kinds and its parser.
//!
//! The directive grammar is a fixed, comma-separated clause sequence:
//! `name = <string literal>`, then exactly one of `shall = <string literal>`
//! or `cond = <string literal>`, then optionally `cert { <statement>* }`.
//! The host build step hands the directive over as a flat token sequence;
//! [`parse_directive`] either produces a [`Directive`] or fails with the
//! [`GrammarError`] that names the violated rule.

use crate::text::str_eq;
use vstd::prelude::*;
use vstd::string::*;

verus! {

/// A specification statement attached to a declaration: either an
/// imperative "shall" clause or a conditional clause.
#[derive(Debug, PartialEq, Clone)]
pub enum SpecStatement {
    /// A statement using "shall": rendered "`name` shall {text}".
    Shall(String),
    /// A conditional statement: rendered "If `name` {text}".
    Cond(String),
}

/// The text of the full statement for a declaration named `ident`.
pub open spec fn stmt_text(st: SpecStatement, ident: Seq<char>) -> Seq<char> {
    match st {
        SpecStatement::Shall(s) => "`"@ + ident + "` shall "@ + s@,
        SpecStatement::Cond(s) => "If `"@ + ident + "` "@ + s@,
    }
}

impl SpecStatement {
    /// Returns the full statement for the declaration named `ident`.
    pub fn stmt(&self, ident: &str) -> (r: String)
        ensures
            r@ == stmt_text(*self, ident@),
    {
        match self {
            SpecStatement::Shall(s) => {
                let mut r = String::from_str("`");
                r.append(ident);
                r.append("` shall ");
                r.append(s.as_str());
                r
            },
            SpecStatement::Cond(s) => {
                let mut r = String::from_str("If `");
                r.append(ident);
                r.append("` ");
                r.append(s.as_str());
                r
            },
        }
    }
}

impl Default for SpecStatement {
    /// The default statement is an empty "shall" clause.
    fn default() -> (r: Self)
        ensures
            (r matches SpecStatement::Shall(s) && s@ == Seq::<char>::empty()),
    {
        SpecStatement::Shall(String::new())
    }
}

/// A parsed specification directive.
#[derive(Debug, Clone)]
pub struct Directive {
    /// The name of the specification.
    pub name: String,
    /// The statement of the specification.
    pub stmt: SpecStatement,
    /// The text of each statement that certifies the specification is met.
    pub cert: Vec<String>,
}

/// One token of a directive, as the host build step hands it over.
#[derive(Debug, Clone)]
pub enum DirToken {
    /// An identifier, carrying its text.
    Ident(String),
    /// The `=` punctuation.
    EqSign,
    /// The `,` punctuation.
    Comma,
    /// A string literal, carrying its value.
    StrLit(String),
    /// A literal of any other kind.
    OtherLit,
    /// A braced certification block, carrying the text of each statement
    /// parsed under the host's ordinary statement grammar.
    CertBlock(Vec<String>),
    /// Any token that fits none of the kinds above.
    OtherTok,
}

/// An error in the clause grammar of a directive.
#[derive(Clone, Copy, Debug, PartialEq, Eq, Structural)]
pub enum GrammarError {
    /// The directive does not open with `name =`.
    ExpectedName,
    /// The value of the `name` clause is not a string literal.
    NameValue,
    /// The clause after `name` is neither `shall =` nor `cond =`.
    ExpectedShallOrCond,
    /// The value of the `shall` clause is not a string literal.
    ShallValue,
    /// The value of the `cond` clause is not a string literal.
    CondValue,
    /// A clause follows the statement but is not `cert`.
    ExpectedCert,
    /// A token does not fit the clause shape at its position.
    Unexpected,
}

/// The diagnostic text of each grammar error.
pub open spec fn message_text(e: GrammarError) -> Seq<char> {
    match e {
        GrammarError::ExpectedName => "Expected spec name"@,
        GrammarError::NameValue => "Error parsing spec name"@,
        GrammarError::ExpectedShallOrCond => "Expected spec shall or cond"@,
        GrammarError::ShallValue => "Error parsing spec shall statement value"@,
        GrammarError::CondValue => "Error parsing spec cond statement value"@,
        GrammarError::ExpectedCert => "Expected spec cert"@,
        GrammarError::Unexpected => "Unexpected token in spec directive"@,
    }
}

impl GrammarError {
    /// Returns the diagnostic message of this error.
    pub fn message(&self) -> (r: String)
        ensures
            r@ == message_text(*self),
    {
        match self {
            GrammarError::ExpectedName => String::from_str("Expected spec name"),
            GrammarError::NameValue => String::from_str("Error parsing spec name"),
            GrammarError::ExpectedShallOrCond => String::from_str("Expected spec shall or cond"),
            GrammarError::ShallValue => String::from_str("Error parsing spec shall statement value"),
            GrammarError::CondValue => String::from_str("Error parsing spec cond statement value"),
            GrammarError::ExpectedCert => String::from_str("Expected spec cert"),
            GrammarError::Unexpected => String::from_str("Unexpected token in spec directive"),
        }
    }
}

/// Whether `t` is the identifier `w`.
pub open spec fn is_kw(t: DirToken, w: Seq<char>) -> bool {
    t matches DirToken::Ident(s) && s@ == w
}

/// The outcome of parsing a directive token sequence: `None` when the
/// sequence fits the grammar, otherwise the error the parser reports.
/// The clauses are checked left to right, so the first violation decides.
pub open spec fn parse_outcome(toks: Seq<DirToken>) -> Option<GrammarError> {
    if toks.len() == 0 || !(toks[0] is Ident) {
        Some(GrammarError::Unexpected)
    } else if !(is_kw(toks[0], "name"@) && toks.len() >= 2 && toks[1] is EqSign) {
        Some(GrammarError::ExpectedName)
    } else if toks.len() < 3 || !(toks[2] is StrLit || toks[2] is OtherLit) {
        Some(GrammarError::Unexpected)
    } else if toks[2] is OtherLit {
        Some(GrammarError::NameValue)
    } else if toks.len() < 4 || !(toks[3] is Comma) {
        Some(GrammarError::Unexpected)
    } else if toks.len() < 5 || !(toks[4] is Ident) {
        Some(GrammarError::Unexpected)
    } else if !((is_kw(toks[4], "shall"@) || is_kw(toks[4], "cond"@)) && toks.len() >= 6
        && toks[5] is EqSign) {
        Some(GrammarError::ExpectedShallOrCond)
    } else if toks.len() < 7 || !(toks[6] is StrLit || toks[6] is OtherLit) {
        Some(GrammarError::Unexpected)
    } else if toks[6] is OtherLit {
        if is_kw(toks[4], "shall"@) {
            Some(GrammarError::ShallValue)
        } else {
            Some(GrammarError::CondValue)
        }
    } else if toks.len() == 7 {
        None
    } else if !(toks[7] is Comma) {
        Some(GrammarError::Unexpected)
    } else if toks.len() < 9 || !(toks[8] is Ident) {
        Some(GrammarError::Unexpected)
    } else if !is_kw(toks[8], "cert"@) {
        Some(GrammarError::ExpectedCert)
    } else if toks.len() < 10 || !(toks[9] is CertBlock) {
        Some(GrammarError::Unexpected)
    } else if toks.len() == 10 {
        None
    } else {
        Some(GrammarError::Unexpected)
    }
}

/// Whether the token sequence `toks` denotes exactly the directive `d`.
pub open spec fn directive_matches(toks: Seq<DirToken>, d: Directive) -> bool {
    &&& (toks.len() == 7 || toks.len() == 10)
    &&& is_kw(toks[0], "name"@)
    &&& toks[1] is EqSign
    &&& (toks[2] matches DirToken::StrLit(v) && v@ == d.name@)
    &&& toks[3] is Comma
    &&& toks[5] is EqSign
    &&& match d.stmt {
        SpecStatement::Shall(t) => is_kw(toks[4], "shall"@) && (toks[6] matches DirToken::StrLit(
            v,
        ) && v@ == t@),
        SpecStatement::Cond(t) => is_kw(toks[4], "cond"@) && (toks[6] matches DirToken::StrLit(v)
            && v@ == t@),
    }
    &&& if toks.len() == 7 {
        d.cert@.len() == 0
    } else {
        &&& toks[7] is Comma
        &&& is_kw(toks[8], "cert"@)
        &&& (toks[9] matches DirToken::CertBlock(ss) && ss.deep_view() == d.cert.deep_view())
    }
}

/// Whether `t` is the `=` punctuation.
fn is_eq_sign(t: &DirToken) -> (r: bool)
    ensures
        r == (*t is EqSign),
{
    match t {
        DirToken::EqSign => true,
        _ => false,
    }
}

/// Whether `t` is the `,` punctuation.
fn is_comma(t: &DirToken) -> (r: bool)
    ensures
        r == (*t is Comma),
{
    match t {
        DirToken::Comma => true,
        _ => false,
    }
}

/// Whether `t` is an identifier.
fn is_ident(t: &DirToken) -> (r: bool)
    ensures
        r == (*t is Ident),
{
    match t {
        DirToken::Ident(_) => true,
        _ => false,
    }
}

/// Whether `t` is the identifier `w`.
fn kw_of(t: &DirToken, w: &str) -> (r: bool)
    ensures
        r == is_kw(*t, w@),
{
    match t {
        DirToken::Ident(s) => str_eq(s.as_str(), w),
        _ => false,
    }
}

/// Parses a directive token sequence into a [`Directive`].
///
/// The parse accepts exactly the token sequences that fit the clause
/// grammar, including a rejection of any token trailing the certification
/// block, and on failure reports the error of the first violated clause.
pub fn parse_directive(tokens: &Vec<DirToken>) -> (r: Result<Directive, GrammarError>)
    ensures
        match r {
            Ok(d) => parse_outcome(tokens@) is None && directive_matches(tokens@, d),
            Err(e) => parse_outcome(tokens@) == Some(e),
        },
{
    let n = tokens.len();
    if n == 0 || !is_ident(&tokens[0]) {
        return Err(GrammarError::Unexpected);
    }
    if !(kw_of(&tokens[0], "name") && n >= 2 && is_eq_sign(&tokens[1])) {
        return Err(GrammarError::ExpectedName);
    }
    if n < 3 {
        return Err(GrammarError::Unexpected);
    }
    let name: String = match &tokens[2] {
        DirToken::StrLit(v) => v.clone(),
        DirToken::OtherLit => {
            return Err(GrammarError::NameValue);
        },
        _ => {
            return Err(GrammarError::Unexpected);
        },
    };
    if n < 4 || !is_comma(&tokens[3]) {
        return Err(GrammarError::Unexpected);
    }
    if n < 5 || !is_ident(&tokens[4]) {
        return Err(GrammarError::Unexpected);
    }
    let shall = kw_of(&tokens[4], "shall");
    let cond = kw_of(&tokens[4], "cond");
    if !((shall || cond) && n >= 6 && is_eq_sign(&tokens[5])) {
        return Err(GrammarError::ExpectedShallOrCond);
    }
    if n < 7 {
        return Err(GrammarError::Unexpected);
    }
    let text: String = match &tokens[6] {
        DirToken::StrLit(v) => v.clone(),
        DirToken::OtherLit => {
            return Err(
                if shall {
                    GrammarError::ShallValue
                } else {
                    GrammarError::CondValue
                },
            );
        },
        _ => {
            return Err(GrammarError::Unexpected);
        },
    };
    let stmt = if shall {
        SpecStatement::Shall(text)
    } else {
        SpecStatement::Cond(text)
    };
    if n == 7 {
        return Ok(Directive { name, stmt, cert: Vec::new() });
    }
    if !is_comma(&tokens[7]) {
        return Err(GrammarError::Unexpected);
    }
    if n < 9 || !is_ident(&tokens[8]) {
        return Err(GrammarError::Unexpected);
    }
    if !kw_of(&tokens[8], "cert") {
        return Err(GrammarError::ExpectedCert);
    }
    if n < 10 {
        return Err(GrammarError::Unexpected);
    }
    let cert: Vec<String> = match &tokens[9] {
        DirToken::CertBlock(ss) => {
            let c = ss.clone();
            proof {
                assert(c@ =~= ss@);
                assert(c.deep_view() =~= ss.deep_view());
            }
            c
        },
        _ => {
            return Err(GrammarError::Unexpected);
        },
    };
    if n != 10 {
        return Err(GrammarError::Unexpected);
    }
    Ok(Directive { name, stmt, cert })
}

} // verus!
