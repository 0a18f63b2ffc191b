//! Rendering of certification statements as a formatted example block.
//!
//! The statements are wrapped in a minimal `fn main` body, handed to the
//! external source formatter, and the formatted body is recovered by
//! dropping the opening and closing lines, stripping one indentation level
//! from each remaining line, and fencing the result. A formatter failure
//! degrades to an empty example block and never to a processing failure.

use vstd::prelude::*;
use vstd::string::*;

verus! {

/// The concatenation of a sequence of texts, in order.
pub open spec fn concat_texts(ls: Seq<Seq<char>>) -> Seq<char>
    decreases ls.len(),
{
    if ls.len() == 0 {
        Seq::empty()
    } else {
        ls[0] + concat_texts(ls.drop_first())
    }
}

/// Extending a concatenation by one text appends that text.
pub proof fn lemma_concat_snoc(ls: Seq<Seq<char>>, k: int)
    requires
        0 <= k < ls.len(),
    ensures
        concat_texts(ls.take(k + 1)) == concat_texts(ls.take(k)) + ls[k],
    decreases k,
{
    if k == 0 {
        assert(ls.take(0) =~= Seq::<Seq<char>>::empty());
        assert(ls.take(1).drop_first() =~= Seq::<Seq<char>>::empty());
        assert(concat_texts(ls.take(1)) =~= concat_texts(ls.take(0)) + ls[0]);
    } else {
        lemma_concat_snoc(ls.drop_first(), k - 1);
        assert(ls.take(k + 1).drop_first() =~= ls.drop_first().take(k));
        assert(ls.take(k).drop_first() =~= ls.drop_first().take(k - 1));
        assert(ls[0] + (concat_texts(ls.drop_first().take(k - 1)) + ls[k]) =~= (ls[0]
            + concat_texts(ls.drop_first().take(k - 1))) + ls[k]);
    }
}

/// The synthesized source handed to the formatter: the certification
/// statements wrapped in a minimal `fn main` body.
pub open spec fn wrap_main(cert: Seq<Seq<char>>) -> Seq<char> {
    "fn main() {\n"@ + concat_texts(cert) + "}"@
}

/// Builds the source text handed to the formatter.
pub fn example_source(cert: &Vec<String>) -> (r: String)
    ensures
        r@ == wrap_main(cert.deep_view()),
{
    let ghost dv = cert.deep_view();
    let mut r = String::from_str("fn main() {\n");
    proof {
        assert(dv.take(0) =~= Seq::<Seq<char>>::empty());
        assert(r@ + concat_texts(dv.take(0)) =~= r@);
    }
    let mut i: usize = 0;
    while i < cert.len()
        invariant
            i <= cert@.len(),
            dv == cert.deep_view(),
            r@ == "fn main() {\n"@ + concat_texts(dv.take(i as int)),
        decreases cert@.len() - i,
    {
        r.append(cert[i].as_str());
        proof {
            lemma_concat_snoc(dv, i as int);
            assert(("fn main() {\n"@ + concat_texts(dv.take(i as int))) + dv[i as int] =~= (
            "fn main() {\n"@ + concat_texts(dv.take(i + 1))));
        }
        i = i + 1;
    }
    proof {
        assert(dv.take(cert@.len() as int) =~= dv);
    }
    r.append("}");
    r
}

/// The closed lines of `s` (each ended by a newline) and the still-open
/// tail after the last newline.
pub open spec fn scan_lines(s: Seq<char>) -> (Seq<Seq<char>>, Seq<char>)
    decreases s.len(),
{
    if s.len() == 0 {
        (Seq::empty(), Seq::empty())
    } else {
        let p = scan_lines(s.drop_last());
        if s.last() == '\n' {
            (p.0.push(p.1), Seq::empty())
        } else {
            (p.0, p.1.push(s.last()))
        }
    }
}

/// The lines of `s`, split at newlines; a trailing newline closes the last
/// line without opening an empty one.
pub open spec fn lines_of(s: Seq<char>) -> Seq<Seq<char>> {
    let p = scan_lines(s);
    if p.1.len() == 0 {
        p.0
    } else {
        p.0.push(p.1)
    }
}

/// What one kept line contributes to the recovered body: the line without
/// its indentation margin plus a newline, or nothing where the line is
/// shorter than the margin.
pub open spec fn line_contrib(l: Seq<char>) -> Seq<char> {
    if l.len() >= 4 {
        l.skip(4) + "\n"@
    } else {
        Seq::empty()
    }
}

/// The lines kept from the formatted output: all but the opening line and
/// the closing line.
pub open spec fn kept_lines(ls: Seq<Seq<char>>) -> Seq<Seq<char>> {
    if ls.len() >= 2 {
        ls.subrange(1, ls.len() - 1)
    } else {
        Seq::empty()
    }
}

/// The fenced example block recovered from the formatted text `f`.
pub open spec fn example_of(f: Seq<char>) -> Seq<char> {
    "```\n"@ + concat_texts(kept_lines(lines_of(f)).map_values(|l: Seq<char>| line_contrib(l)))
        + "\n```"@
}

/// The text the external formatter returns for the source text `src` under
/// its default style, or `None` where it rejects the text or cannot render
/// it.
pub uninterp spec fn fmt_of(src: Seq<char>) -> Option<Seq<char>>;

/// Relies on `syn::parse_str::<syn::File>` and `prettyplease::unparse`,
/// which together are the external source formatter: parsing accepts or
/// rejects the source text, and unparsing renders the accepted text under
/// the formatter's default style. Both depend on the text alone.
///
/// The printer aborts instead of rendering on two kinds of accepted
/// syntax: nodes the parser keeps as verbatim tokens, and macro
/// definitions whose rules are not `matcher => expansion` shaped. The
/// body refuses any tree that may hold either — found conservatively in
/// the tree's `Debug` rendering, which names every verbatim node — so a
/// text the printer cannot render is a formatter failure, never an abort.
#[verifier::external_body]
fn format_source(src: &str) -> (r: Option<String>)
    ensures
        (r matches Some(f) ==> fmt_of(src@) == Some(f@)),
        (r is None ==> fmt_of(src@) is None),
{
    match syn::parse_str::<syn::File>(src) {
        Ok(file) => {
            let tree = format!("{:?}", file);
            if tree.contains("Verbatim") || tree.contains("macro_rules") {
                None
            } else {
                Some(prettyplease::unparse(&file))
            }
        },
        Err(_) => None,
    }
}

/// Recovers the fenced example block from the formatted text: drops the
/// opening and closing lines, strips the indentation margin from each kept
/// line, and fences the result.
pub fn extract_example(f: &str) -> (r: String)
    ensures
        r@ == example_of(f@),
{
    let n = f.unicode_len();
    let mut lines: Vec<&str> = Vec::new();
    let mut cs: usize = 0;
    let mut i: usize = 0;
    proof {
        assert(f@.take(0) =~= Seq::<char>::empty());
    }
    while i < n
        invariant
            n == f@.len(),
            cs <= i <= n,
            lines@.len() == scan_lines(f@.take(i as int)).0.len(),
            forall|j: int|
                0 <= j < lines@.len() ==> (#[trigger] lines@[j])@ == scan_lines(
                    f@.take(i as int),
                ).0[j],
            f@.subrange(cs as int, i as int) == scan_lines(f@.take(i as int)).1,
        decreases n - i,
    {
        let ghost prev = scan_lines(f@.take(i as int));
        proof {
            assert(f@.take(i + 1).drop_last() =~= f@.take(i as int));
        }
        let c = f.get_char(i);
        if c == '\n' {
            let line = f.substring_char(cs, i);
            lines.push(line);
            cs = i + 1;
            proof {
                assert(scan_lines(f@.take(i + 1)).0 =~= prev.0.push(prev.1));
                assert(f@.subrange(i + 1, i + 1) =~= scan_lines(f@.take(i + 1)).1);
            }
        } else {
            proof {
                assert(f@.subrange(cs as int, i + 1) =~= prev.1.push(f@[i as int]));
            }
        }
        i = i + 1;
    }
    proof {
        assert(f@.take(n as int) =~= f@);
    }
    if cs < n {
        let line = f.substring_char(cs, n);
        lines.push(line);
    }
    proof {
        if f@.subrange(cs as int, n as int).len() == 0 {
            assert(lines@.len() == lines_of(f@).len());
        }
        assert(forall|j: int|
            0 <= j < lines@.len() ==> (#[trigger] lines@[j])@ == lines_of(f@)[j]);
    }
    let ghost ls = lines_of(f@);
    let ghost mapped = kept_lines(ls).map_values(|l: Seq<char>| line_contrib(l));
    let mut out = String::from_str("```\n");
    let count = lines.len();
    proof {
        assert(mapped.take(0) =~= Seq::<Seq<char>>::empty());
        assert(out@ + concat_texts(mapped.take(0)) =~= out@);
    }
    if count >= 2 {
        let mut j: usize = 1;
        while j < count - 1
            invariant
                count == lines@.len(),
                count >= 2,
                1 <= j <= count - 1,
                ls == lines_of(f@),
                mapped == kept_lines(ls).map_values(|l: Seq<char>| line_contrib(l)),
                count == ls.len(),
                forall|k: int| 0 <= k < count ==> (#[trigger] lines@[k])@ == ls[k],
                out@ == "```\n"@ + concat_texts(mapped.take(j - 1)),
            decreases count - j,
        {
            let l = lines[j];
            let ln = l.unicode_len();
            proof {
                lemma_concat_snoc(mapped, j - 1);
            }
            if ln >= 4 {
                out.append(l.substring_char(4, ln));
                out.append("\n");
                proof {
                    assert(l@.subrange(4, ln as int) =~= ls[j as int].skip(4));
                    assert((("```\n"@ + concat_texts(mapped.take(j - 1))) + ls[j as int].skip(4))
                        + "\n"@ =~= "```\n"@ + concat_texts(mapped.take(j as int)));
                }
            } else {
                proof {
                    assert(("```\n"@ + concat_texts(mapped.take(j - 1))) + line_contrib(
                        ls[j as int],
                    ) =~= "```\n"@ + concat_texts(mapped.take(j - 1)));
                    assert(("```\n"@ + concat_texts(mapped.take(j - 1))) + mapped[j - 1] =~= (
                    "```\n"@ + concat_texts(mapped.take(j as int))));
                }
            }
            j = j + 1;
        }
        proof {
            assert(mapped.take(count - 2) =~= mapped);
        }
    } else {
        proof {
            assert(mapped.take(0) =~= mapped);
        }
    }
    out.append("\n```");
    out
}

/// The example block generated for the certification statements `cert`:
/// empty where there are no statements or the formatter fails, otherwise
/// the fenced, de-indented formatted body.
pub open spec fn example_block(cert: Seq<Seq<char>>) -> Seq<char> {
    if cert.len() == 0 {
        Seq::empty()
    } else {
        match fmt_of(wrap_main(cert)) {
            Some(f) => example_of(f),
            None => Seq::empty(),
        }
    }
}

/// Renders the certification statements as a fenced example block, or as
/// the empty block where there are none or the formatter fails.
pub fn render_example(cert: &Vec<String>) -> (r: String)
    ensures
        r@ == example_block(cert.deep_view()),
{
    if cert.len() == 0 {
        return String::new();
    }
    let src = example_source(cert);
    match format_source(src.as_str()) {
        Some(f) => extract_example(f.as_str()),
        None => String::new(),
    }
}

} // verus!
