//! Composition of the generated documentation and reassembly of the
//! declaration.
//!
//! The synthesized entries stand in fixed order — title, heading,
//! statement line, example block — and the host prepends them to the
//! declaration's own attributes. Reassembly is a structural identity
//! transform: every field of the declaration passes through unchanged.

use crate::declaration::{contains_title, spec_attrs, spec_name_of, title_text, Declaration};
use crate::directive::{stmt_text, Directive, SpecStatement};
use crate::example::{example_block, render_example};
use vstd::prelude::*;
use vstd::string::*;

verus! {

/// The documentation generated for one directive, in the order the host
/// attaches it. An empty title or example entry stands for an omitted one.
#[derive(Debug)]
pub struct GeneratedDoc {
    /// The fixed section title, or empty where the declaration already
    /// carries it.
    pub title: String,
    /// The heading naming the declaration and the specification.
    pub heading: String,
    /// The statement line, followed by a blank line.
    pub statement: String,
    /// The fenced example block, or empty.
    pub example: String,
}

/// A processed declaration: the generated documentation and the
/// reassembled declaration it precedes.
#[derive(Debug)]
pub struct Processed {
    /// The generated documentation entries.
    pub doc: GeneratedDoc,
    /// The reassembled declaration, with its own attributes untouched.
    pub decl: Declaration,
}

/// The generated title for a declaration with the documentation lines
/// `attrs`: the fixed title, or empty where one of those lines already
/// carries it.
pub open spec fn gen_title(attrs: Seq<crate::declaration::Attr>) -> Seq<char> {
    if contains_title(attrs) {
        Seq::empty()
    } else {
        title_text()
    }
}

/// The heading generated for declaration `decl_name` and specification
/// `spec_name`.
pub open spec fn heading_text(decl_name: Seq<char>, spec_name: Seq<char>) -> Seq<char> {
    "## SPEC-"@ + decl_name + "-"@ + spec_name
}

/// The statement line generated for statement `st` on declaration
/// `decl_name`: the full statement closed by a period.
pub open spec fn statement_line_text(st: SpecStatement, decl_name: Seq<char>) -> Seq<char> {
    stmt_text(st, decl_name) + "."@
}

/// Builds the statement line for `st` on the declaration named `ident`.
pub fn statement_line(st: &SpecStatement, ident: &str) -> (r: String)
    ensures
        r@ == statement_line_text(*st, ident@),
{
    let mut r = st.stmt(ident);
    r.append(".");
    r
}

/// Processes one directive on one declaration: synthesizes the
/// documentation entries and reassembles the declaration unchanged.
pub fn process(directive: &Directive, decl: Declaration) -> (out: Processed)
    ensures
        out.doc.title@ == gen_title(spec_attrs(decl)),
        out.doc.heading@ == heading_text(spec_name_of(decl), directive.name@),
        out.doc.statement@ == statement_line_text(directive.stmt, spec_name_of(decl)) + "\n"@,
        out.doc.example@ == example_block(directive.cert.deep_view()),
        out.decl == decl,
{
    let name = decl.display_name();
    let title = if decl.has_title() {
        String::new()
    } else {
        String::from_str("# Specifications")
    };
    let mut heading = String::from_str("## SPEC-");
    heading.append(name.as_str());
    heading.append("-");
    heading.append(directive.name.as_str());
    let mut statement = statement_line(&directive.stmt, name.as_str());
    statement.append("\n");
    let example = render_example(&directive.cert);
    let rebuilt = match decl {
        Declaration::EnumDecl { vis, generics, variants, attrs, name: enum_name } => (
        Declaration::EnumDecl { vis, generics, variants, attrs, name: enum_name }),
        Declaration::ImplDecl {
            defaultness,
            unsafety,
            generics,
            trait_path,
            target,
            target_path,
            items,
            attrs,
        } => (Declaration::ImplDecl {
            defaultness,
            unsafety,
            generics,
            trait_path,
            target,
            target_path,
            items,
            attrs,
        }),
        Declaration::FnDecl {
            vis,
            constness,
            unsafety,
            asyncness,
            abi,
            generics,
            inputs,
            variadic,
            output,
            body,
            attrs,
            name: fn_name,
        } => (Declaration::FnDecl {
            vis,
            constness,
            unsafety,
            asyncness,
            abi,
            generics,
            inputs,
            variadic,
            output,
            body,
            attrs,
            name: fn_name,
        }),
        Declaration::Other => Declaration::Other,
    };
    Processed { doc: GeneratedDoc { title, heading, statement, example }, decl: rebuilt }
}

/// Title idempotence: a run generates the section title only where no
/// documentation line already carries it; once a run has attached the
/// generated title as a documentation line, a further run on the extended
/// attribute list generates none.
pub proof fn lemma_title_idempotent(
    attrs: Seq<crate::declaration::Attr>,
    attrs2: Seq<crate::declaration::Attr>,
    k: int,
)
    requires
        !contains_title(attrs),
        0 <= k < attrs2.len(),
        (attrs2[k] matches crate::declaration::Attr::DocLine(s) && s@ == gen_title(attrs)),
    ensures
        gen_title(attrs) == title_text(),
        gen_title(attrs2).len() == 0,
{
    assert(contains_title(attrs2));
}

/// No other generated entry ever equals the section title, so the title
/// stands at most once among the entries one run generates.
pub proof fn lemma_other_entries_not_title(
    st: SpecStatement,
    decl_name: Seq<char>,
    spec_name: Seq<char>,
    cert: Seq<Seq<char>>,
)
    ensures
        heading_text(decl_name, spec_name) != title_text(),
        statement_line_text(st, decl_name) + "\n"@ != title_text(),
        example_block(cert) != title_text(),
{
    reveal_strlit("# Specifications");
    reveal_strlit("## SPEC-");
    reveal_strlit("\n");
    reveal_strlit("```\n");
    reveal_strlit("\n```");
    assert(heading_text(decl_name, spec_name)[1] == '#');
    assert(title_text()[1] == ' ');
    let s = statement_line_text(st, decl_name) + "\n"@;
    assert(s[s.len() - 1] == '\n');
    if s == title_text() {
        assert(s[s.len() - 1] == 's');
    }
    let e = example_block(cert);
    if e.len() != 0 {
        assert(e[0] == '`');
        assert(title_text()[0] == '#');
    }
}

} // verus!
