//! The model of a decorated declaration and its existing documentation.
//!
//! A declaration is one of the three recognized shapes — an enumeration
//! type, an implementation block, or a function definition — or the
//! explicit degraded fallback for any other shape. Each recognized shape
//! carries its fields as the token text the host handed over, so that
//! reassembly reproduces the declaration unchanged in meaning.

use crate::text::str_eq;
use vstd::prelude::*;
use vstd::string::*;

verus! {

/// One pre-existing attribute of a declaration.
#[derive(Debug, PartialEq, Clone)]
pub enum Attr {
    /// A documentation line: the value of a `doc` attribute.
    DocLine(String),
    /// Any other attribute, carried as its token text.
    Other(String),
}

/// A declaration decorated with a directive, decomposed into named fields.
/// Every textual field holds the token text the host handed over; an
/// absent marker (such as a missing `const` modifier) is the empty text.
#[derive(Debug, PartialEq, Clone)]
pub enum Declaration {
    /// An enumeration type.
    EnumDecl {
        /// The visibility marker.
        vis: String,
        /// The generic parameters.
        generics: String,
        /// The variant list.
        variants: String,
        /// The pre-existing attributes.
        attrs: Vec<Attr>,
        /// The type name.
        name: String,
    },
    /// An implementation block.
    ImplDecl {
        /// The `default` modifier, or empty.
        defaultness: String,
        /// The `unsafe` modifier, or empty.
        unsafety: String,
        /// The generic parameters.
        generics: String,
        /// The implemented interface path followed by `for`, or empty.
        trait_path: String,
        /// The target-type expression.
        target: String,
        /// The path segments of the target type where it is a simple named
        /// path, and empty otherwise.
        target_path: Vec<String>,
        /// The member-item list.
        items: String,
        /// The pre-existing attributes.
        attrs: Vec<Attr>,
    },
    /// A function definition.
    FnDecl {
        /// The visibility marker.
        vis: String,
        /// The `const` modifier, or empty.
        constness: String,
        /// The `unsafe` modifier, or empty.
        unsafety: String,
        /// The `async` modifier, or empty.
        asyncness: String,
        /// The calling-convention marker, or empty.
        abi: String,
        /// The generic parameters.
        generics: String,
        /// The parameter list.
        inputs: String,
        /// The variadic marker, or empty.
        variadic: String,
        /// The return-type annotation, or empty.
        output: String,
        /// The statement block.
        body: String,
        /// The pre-existing attributes.
        attrs: Vec<Attr>,
        /// The function name.
        name: String,
    },
    /// An unrecognized shape: the explicit degraded fallback. It carries
    /// nothing, its name is the placeholder, and reconstruction recovers
    /// no body.
    Other,
}

/// The display name of a declaration: its identifier, the last path
/// segment of an implementation's simple target path, or the placeholder.
pub open spec fn spec_name_of(d: Declaration) -> Seq<char> {
    match d {
        Declaration::EnumDecl { name, .. } => name@,
        Declaration::FnDecl { name, .. } => name@,
        Declaration::ImplDecl { target_path, .. } => if target_path@.len() > 0 {
            target_path@[target_path@.len() - 1]@
        } else {
            "_"@
        },
        Declaration::Other => "_"@,
    }
}

/// The pre-existing attributes of a declaration; the degraded fallback
/// carries none.
pub open spec fn spec_attrs(d: Declaration) -> Seq<Attr> {
    match d {
        Declaration::EnumDecl { attrs, .. } => attrs@,
        Declaration::ImplDecl { attrs, .. } => attrs@,
        Declaration::FnDecl { attrs, .. } => attrs@,
        Declaration::Other => Seq::empty(),
    }
}

/// The fixed title of the generated documentation section.
pub open spec fn title_text() -> Seq<char> {
    "# Specifications"@
}

/// Whether the attributes already carry a documentation line that is
/// exactly the section title.
pub open spec fn contains_title(attrs: Seq<Attr>) -> bool {
    exists|i: int|
        0 <= i < attrs.len() && ((#[trigger] attrs[i]) matches Attr::DocLine(s) && s@
            == title_text())
}

/// Scans a list of attributes for a documentation line that is exactly
/// the section title.
fn scan_title(attrs: &Vec<Attr>) -> (r: bool)
    ensures
        r == contains_title(attrs@),
{
    let mut i: usize = 0;
    while i < attrs.len()
        invariant
            i <= attrs@.len(),
            forall|j: int|
                0 <= j < i ==> ((#[trigger] attrs@[j]) matches Attr::DocLine(s) ==> s@
                    != title_text()),
        decreases attrs@.len() - i,
    {
        match &attrs[i] {
            Attr::DocLine(s) => {
                if str_eq(s.as_str(), "# Specifications") {
                    return true;
                }
            },
            _ => {},
        }
        i = i + 1;
    }
    false
}

impl Declaration {
    /// Returns the display name of the declaration.
    pub fn display_name(&self) -> (r: String)
        ensures
            r@ == spec_name_of(*self),
    {
        match self {
            Declaration::EnumDecl { name, .. } => name.clone(),
            Declaration::FnDecl { name, .. } => name.clone(),
            Declaration::ImplDecl { target_path, .. } => {
                if target_path.len() > 0 {
                    target_path[target_path.len() - 1].clone()
                } else {
                    String::from_str("_")
                }
            },
            Declaration::Other => String::from_str("_"),
        }
    }

    /// Whether the declaration already carries the section title among its
    /// documentation lines.
    pub fn has_title(&self) -> (r: bool)
        ensures
            r == contains_title(spec_attrs(*self)),
    {
        match self {
            Declaration::EnumDecl { attrs, .. } => scan_title(attrs),
            Declaration::ImplDecl { attrs, .. } => scan_title(attrs),
            Declaration::FnDecl { attrs, .. } => scan_title(attrs),
            Declaration::Other => false,
        }
    }
}

} // verus!
