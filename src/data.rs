//! The composition generator: re-emits a struct so that it requests the four
//! member generators, importing those that its options keep.
use vstd::prelude::*;

use crate::tokens::{ident_is, is_ident, is_punct, is_struct, declares_struct, punct_eq, strip_quotes, unquoted, TokenTree};

verus! {

/// The options of the composition generator.
pub struct DataOptions {
    /// The path of the module the generators are imported from.
    pub link: String,
    /// The generator names to leave out of the import.
    pub exclude: Vec<String>,
}

/// The views of a list of strings.
pub open spec fn texts(v: Seq<String>) -> Seq<Seq<char>> {
    v.map_values(|s: String| s@)
}

/// The names listed in an exclusion group: its identifiers and literals,
/// quotes stripped; other tokens are skipped.
pub open spec fn group_names(g: Seq<TokenTree>) -> Seq<Seq<char>>
    decreases g.len(),
{
    if g.len() == 0 {
        seq![]
    } else {
        let rest = group_names(g.drop_last());
        match g.last() {
            TokenTree::Ident(s) => rest.push(unquoted(s@)),
            TokenTree::Literal(s) => rest.push(unquoted(s@)),
            _ => rest,
        }
    }
}

/// The module path the generators come from when no option names one.
pub open spec fn default_link() -> Seq<char> {
    "smile_marco"@
}

/// Scans the option tokens from position `i` on, left to right, given the
/// link and exclusions found so far: `link = "<path>"` sets the link,
/// `exclude = [<names>]` adds exclusions, and any other token is skipped.
pub open spec fn scan(toks: Seq<TokenTree>, i: int, link: Seq<char>, excl: Seq<Seq<char>>) -> (
    Seq<char>,
    Seq<Seq<char>>,
)
    decreases toks.len() - i,
{
    if i < 0 || i >= toks.len() {
        (link, excl)
    } else if i + 2 < toks.len() && is_ident(toks[i], "link"@) && is_punct(Some(toks[i + 1]), '=')
        && toks[i + 2] is Literal {
        match toks[i + 2] {
            TokenTree::Literal(s) => scan(toks, i + 3, unquoted(s@), excl),
            _ => (link, excl),
        }
    } else if i + 2 < toks.len() && is_ident(toks[i], "exclude"@) && is_punct(
        Some(toks[i + 1]),
        '=',
    ) && toks[i + 2] is Group {
        match toks[i + 2] {
            TokenTree::Group(g) => scan(toks, i + 3, link, excl + group_names(g@)),
            _ => (link, excl),
        }
    } else {
        scan(toks, i + 1, link, excl)
    }
}

/// The options that the attribute's tokens give.
pub open spec fn options_of(toks: Seq<TokenTree>) -> (Seq<char>, Seq<Seq<char>>) {
    scan(toks, 0, default_link(), seq![])
}

/// The four member generators, in the order the import lists them.
pub open spec fn all_derives() -> Seq<Seq<char>> {
    seq!["Getter"@, "Setter"@, "Builder"@, "Wither"@]
}

/// Whether a generator name is outside the exclusions.
pub open spec fn not_excluded(excl: Seq<Seq<char>>) -> spec_fn(Seq<char>) -> bool {
    |d: Seq<char>| !excl.contains(d)
}

/// The generators that stay after the exclusions.
pub open spec fn kept_derives(excl: Seq<Seq<char>>) -> Seq<Seq<char>> {
    all_derives().filter(not_excluded(excl))
}

/// The import list: each name followed by a comma.
pub open spec fn names_text(ns: Seq<Seq<char>>) -> Seq<char>
    decreases ns.len(),
{
    if ns.len() == 0 {
        Seq::empty()
    } else {
        names_text(ns.drop_last()) + ns.last() + ", "@
    }
}

/// The annotation that requests all four member generators.
pub open spec fn derive_all_text() -> Seq<char> {
    "#[derive(Getter, Setter, Wither, Builder)]\n"@
}

/// The text placed before the struct: the import, then the annotation.
pub open spec fn header_text(link: Seq<char>, kept: Seq<Seq<char>>) -> Seq<char> {
    "use "@ + link + "::{"@ + names_text(kept) + "};\n"@ + derive_all_text()
}

/// What the composition generator places before the item, or `None` where
/// the item is not a struct and passes unchanged.
pub open spec fn data_header(attr: Seq<TokenTree>, item: Seq<TokenTree>) -> Option<Seq<char>> {
    if !declares_struct(item) {
        None
    } else {
        let (link, excl) = options_of(attr);
        Some(header_text(link, kept_derives(excl)))
    }
}

/// The names listed in an exclusion group.
pub fn group_names_of(g: &Vec<TokenTree>) -> (r: Vec<String>)
    ensures
        texts(r@) == group_names(g@),
{
    let mut r: Vec<String> = Vec::new();
    let mut i: usize = 0;
    assert(texts(r@) =~= seq![]);
    while i < g.len()
        invariant
            i <= g@.len(),
            texts(r@) == group_names(g@.subrange(0, i as int)),
        decreases g.len() - i,
    {
        assert(g@.subrange(0, i + 1).drop_last() =~= g@.subrange(0, i as int));
        let ghost before = texts(r@);
        match &g[i] {
            TokenTree::Ident(s) => {
                let n = strip_quotes(s.as_str());
                r.push(n);
                assert(texts(r@) =~= before.push(unquoted(s@)));
            },
            TokenTree::Literal(s) => {
                let n = strip_quotes(s.as_str());
                r.push(n);
                assert(texts(r@) =~= before.push(unquoted(s@)));
            },
            _ => {},
        }
        i = i + 1;
    }
    assert(g@.subrange(0, i as int) =~= g@);
    r
}

/// Reads the options from the attribute's tokens.
pub fn parse_options(attr: &Vec<TokenTree>) -> (r: DataOptions)
    ensures
        (r.link@, texts(r.exclude@)) == options_of(attr@),
{
    let mut link = String::from_str("smile_marco");
    let mut exclude: Vec<String> = Vec::new();
    let mut i: usize = 0;
    assert(texts(exclude@) =~= seq![]);
    while i < attr.len()
        invariant
            i <= attr@.len(),
            options_of(attr@) == scan(attr@, i as int, link@, texts(exclude@)),
        decreases attr.len() - i,
    {
        let n = attr.len();
        if n - i > 2 && ident_is(&attr[i], "link") && punct_eq(Some(&attr[i + 1]), '=') {
            match &attr[i + 2] {
                TokenTree::Literal(s) => {
                    link = strip_quotes(s.as_str());
                    i = i + 3;
                    continue;
                },
                _ => {},
            }
        }
        if n - i > 2 && ident_is(&attr[i], "exclude") && punct_eq(Some(&attr[i + 1]), '=') {
            match &attr[i + 2] {
                TokenTree::Group(g) => {
                    let mut names = group_names_of(g);
                    let ghost before = texts(exclude@);
                    let ghost added = texts(names@);
                    exclude.append(&mut names);
                    assert(texts(exclude@) =~= before + added);
                    i = i + 3;
                    continue;
                },
                _ => {},
            }
        }
        i = i + 1;
    }
    DataOptions { link, exclude }
}

/// Whether the list holds the name.
pub fn holds_name(v: &Vec<String>, s: &String) -> (r: bool)
    ensures
        r == texts(v@).contains(s@),
{
    let mut i: usize = 0;
    while i < v.len()
        invariant
            i <= v@.len(),
            forall|j: int| 0 <= j < i ==> v@[j]@ != s@,
        decreases v.len() - i,
    {
        if v[i] == *s {
            assert(texts(v@)[i as int] == s@);
            return true;
        }
        i = i + 1;
    }
    assert(!texts(v@).contains(s@)) by {
        if texts(v@).contains(s@) {
            let j = choose|j: int| 0 <= j < texts(v@).len() && texts(v@)[j] == s@;
            assert(v@[j]@ == s@);
        }
    }
    false
}

/// The generators that stay after the exclusions, in import order.
pub fn need_derives(exclude: &Vec<String>) -> (r: Vec<String>)
    ensures
        texts(r@) == kept_derives(texts(exclude@)),
{
    let all = vec![
        String::from_str("Getter"),
        String::from_str("Setter"),
        String::from_str("Builder"),
        String::from_str("Wither"),
    ];
    assert(texts(all@) =~= all_derives());
    let ghost excl = texts(exclude@);
    let mut r: Vec<String> = Vec::new();
    let mut i: usize = 0;
    assert(texts(r@) =~= seq![]);
    proof {
        reveal(Seq::filter);
    }
    assert(all_derives().subrange(0, 0).filter(not_excluded(excl)) =~= seq![]);
    while i < all.len()
        invariant
            i <= all@.len(),
            texts(all@) == all_derives(),
            excl == texts(exclude@),
            texts(r@) == all_derives().subrange(0, i as int).filter(not_excluded(excl)),
        decreases all.len() - i,
    {
        assert(all_derives().subrange(0, i + 1).drop_last() =~= all_derives().subrange(0, i as int));
        assert(all_derives().subrange(0, i + 1).last() == all@[i as int]@);
        let ghost before = texts(r@);
        let ghost pre = all_derives().subrange(0, i + 1);
        assert(texts(all@)[i as int] == all@[i as int]@);
        let excluded = holds_name(exclude, &all[i]);
        proof {
            reveal(Seq::filter);
        }
        assert(pre.filter(not_excluded(excl)) == if not_excluded(excl)(pre.last()) {
            pre.drop_last().filter(not_excluded(excl)).push(pre.last())
        } else {
            pre.drop_last().filter(not_excluded(excl))
        });
        if !excluded {
            r.push(all[i].clone());
            assert(texts(r@) =~= before.push(all@[i as int]@));
        }
        i = i + 1;
    }
    assert(all_derives().subrange(0, 4) =~= all_derives());
    r
}

/// The text placed before the struct: the import, then the annotation.
pub fn render_header(link: &String, kept: &Vec<String>) -> (r: String)
    ensures
        r@ == header_text(link@, texts(kept@)),
{
    let ghost ks = texts(kept@);
    let mut names = String::new();
    let mut i: usize = 0;
    while i < kept.len()
        invariant
            i <= kept@.len(),
            ks == texts(kept@),
            names@ == names_text(ks.subrange(0, i as int)),
        decreases kept.len() - i,
    {
        assert(ks.subrange(0, i + 1).drop_last() =~= ks.subrange(0, i as int));
        names.append(kept[i].as_str());
        names.append(", ");
        i = i + 1;
    }
    assert(ks.subrange(0, i as int) =~= ks);
    let mut r = String::from_str("use ");
    r.append(link.as_str());
    r.append("::{");
    r.append(names.as_str());
    r.append("};\n");
    r.append("#[derive(Getter, Setter, Wither, Builder)]\n");
    r
}

/// The composition generator: the text to place before the item, or `None`
/// where the item is not a struct and passes unchanged.
pub fn ast_gen(attr: &Vec<TokenTree>, item: &Vec<TokenTree>) -> (r: Option<String>)
    ensures
        match r {
            None => data_header(attr@, item@) is None,
            Some(h) => data_header(attr@, item@) == Some(h@),
        },
{
    if !is_struct(item) {
        return None;
    }
    let options = parse_options(attr);
    let kept = need_derives(&options.exclude);
    Some(render_header(&options.link, &kept))
}

} // verus!
