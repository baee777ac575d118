//! A plain model of a token stream and the small questions asked of it.
use vstd::prelude::*;

verus! {

/// One token tree: an identifier, a punctuation character, a literal
/// (with its source text, quotes included) or a delimited group.
pub enum TokenTree {
    Ident(String),
    Punct(char),
    Literal(String),
    Group(Vec<TokenTree>),
}

/// Whether the token is the punctuation character `eq`.
pub open spec fn is_punct(t: Option<TokenTree>, eq: char) -> bool {
    match t {
        Some(TokenTree::Punct(c)) => c == eq,
        _ => false,
    }
}

/// Whether the token is the identifier `name`.
pub open spec fn is_ident(t: TokenTree, name: Seq<char>) -> bool {
    match t {
        TokenTree::Ident(s) => s@ == name,
        _ => false,
    }
}

/// Whether a declaration's tokens declare a struct: the first identifier
/// other than the visibility keyword `pub` is `struct`.
pub open spec fn declares_struct(toks: Seq<TokenTree>) -> bool
    decreases toks.len(),
{
    if toks.len() == 0 {
        false
    } else if is_ident(toks[0], "pub"@) {
        declares_struct(toks.drop_first())
    } else {
        match toks[0] {
            TokenTree::Ident(s) => s@ == "struct"@,
            _ => declares_struct(toks.drop_first()),
        }
    }
}

/// `s` without any double-quote character.
pub open spec fn unquoted(s: Seq<char>) -> Seq<char>
    decreases s.len(),
{
    if s.len() == 0 {
        s
    } else if s.last() == '"' {
        unquoted(s.drop_last())
    } else {
        unquoted(s.drop_last()).push(s.last())
    }
}

/// Whether the token is the punctuation character `eq`.
pub fn punct_eq(punct: Option<&TokenTree>, eq: char) -> (r: bool)
    ensures
        r == is_punct(
            match punct {
                Some(t) => Some(*t),
                None => None,
            },
            eq,
        ),
{
    match punct {
        Some(TokenTree::Punct(c)) => *c == eq,
        _ => false,
    }
}

/// Compares an owned string with a literal.
pub fn string_is(s: &String, lit: &str) -> (r: bool)
    ensures
        r == (s@ == lit@),
{
    let l = String::from_str(lit);
    *s == l
}

/// Whether the token is the identifier `name`.
pub fn ident_is(t: &TokenTree, name: &str) -> (r: bool)
    ensures
        r == is_ident(*t, name@),
{
    match t {
        TokenTree::Ident(s) => string_is(s, name),
        _ => false,
    }
}

/// Whether a declaration's tokens declare a struct.
pub fn is_struct(input: &Vec<TokenTree>) -> (r: bool)
    ensures
        r == declares_struct(input@),
{
    let mut i: usize = 0;
    assert(input@.subrange(0, input@.len() as int) =~= input@);
    while i < input.len()
        invariant
            i <= input@.len(),
            declares_struct(input@) == declares_struct(input@.subrange(i as int, input@.len() as int)),
        decreases input.len() - i,
    {
        let rest = Ghost(input@.subrange(i as int, input@.len() as int));
        assert(rest@.drop_first() =~= input@.subrange(i + 1, input@.len() as int));
        assert(rest@[0] == input@[i as int]);
        if ident_is(&input[i], "pub") {
            i = i + 1;
        } else {
            match &input[i] {
                TokenTree::Ident(s) => {
                    return string_is(s, "struct");
                },
                _ => {
                    i = i + 1;
                },
            }
        }
    }
    assert(input@.subrange(i as int, input@.len() as int).len() == 0);
    false
}

/// The string without its double quotes.
pub fn strip_quotes(s: &str) -> (r: String)
    ensures
        r@ == unquoted(s@),
{
    let n = s.unicode_len();
    let mut r = String::new();
    let mut i: usize = 0;
    while i < n
        invariant
            n == s@.len(),
            i <= n,
            r@ == unquoted(s@.subrange(0, i as int)),
        decreases n - i,
    {
        let c = s.get_char(i);
        assert(s@.subrange(0, i + 1).drop_last() =~= s@.subrange(0, i as int));
        if c != '"' {
            let piece = s.substring_char(i, i + 1);
            assert(piece@ =~= seq![c]);
            r.append(piece);
        }
        i = i + 1;
    }
    assert(s@.subrange(0, n as int) =~= s@);
    r
}

/// Whether the string holds a comma.
pub fn has_comma(s: &str) -> (r: bool)
    ensures
        r == s@.contains(','),
{
    let n = s.unicode_len();
    let mut i: usize = 0;
    while i < n
        invariant
            n == s@.len(),
            i <= n,
            forall|j: int| 0 <= j < i ==> s@[j] != ',',
        decreases n - i,
    {
        if s.get_char(i) == ',' {
            return true;
        }
        i = i + 1;
    }
    false
}

} // verus!
