//! The code that the `GetIdInfo` derive produces: the name of the type it is
//! applied to, and the `get_id_info` method written for that type.

use vstd::prelude::*;
use vstd::string::*;

verus! {

/// One token of the item a derive is applied to.
pub enum TokenTree {
    /// A delimited group, as source text.
    Group(String),
    /// An identifier or keyword.
    Ident(String),
    /// A punctuation character.
    Punct(char),
    /// A literal, as source text.
    Literal(String),
}

/// The text of the generated code before the type's name.
pub const GET_ID_INFO_HEAD: &'static str = r#"
            impl<T: Driver> "#;

/// The text of the generated code after the type's name.
pub const GET_ID_INFO_TAIL: &'static str = r#"<T> {
                fn get_id_info(dev: &Device) -> Option<&'static T::IdInfo> {
                    let table = T::OF_DEVICE_ID_TABLE?;

                    // SAFETY: `table` has static lifetime, so it is valid for read. `dev` is guaranteed to be
                    // valid while it's alive, so is the raw device returned by it.
                    let id = unsafe { bindings::of_match_device(table.as_ref(), dev.raw_device()) };
                    if id.is_null() {
                        return None;
                    }

                    // SAFETY: `id` is a pointer within the static table, so it's always valid.
                    let offset = unsafe { (*id).data };
                    if offset.is_null() {
                        return None;
                    }

                    // SAFETY: The offset comes from a previous call to `offset_from` in `IdArray::new`, which
                    // guarantees that the resulting pointer is within the table.
                    let ptr = unsafe {
                        id.cast::<u8>()
                            .offset(offset as _)
                            .cast::<Option<T::IdInfo>>()
                    };

                    // SAFETY: The id table has a static lifetime, so `ptr` is guaranteed to be valid for read.
                    unsafe { (&*ptr).as_ref() }
                }
            }
        "#;

/// Whether `t` is the keyword `struct`.
pub open spec fn is_struct_keyword(t: TokenTree) -> bool {
    t matches TokenTree::Ident(s) && s@ == "struct"@
}

/// The type name found in `tokens`, starting from `name`: each `struct`
/// keyword takes the token after it, and when that token is an identifier it
/// becomes the name.
pub open spec fn struct_name_from(tokens: Seq<TokenTree>, name: Seq<char>) -> Seq<char>
    decreases tokens.len(),
{
    if tokens.len() == 0 {
        name
    } else if is_struct_keyword(tokens[0]) {
        if tokens.len() == 1 {
            name
        } else {
            let next_name = match tokens[1] {
                TokenTree::Ident(s) => s@,
                _ => name,
            };
            struct_name_from(tokens.skip(2), next_name)
        }
    } else {
        struct_name_from(tokens.skip(1), name)
    }
}

/// The name of the type that `tokens` declare; `Struct` when no `struct`
/// keyword is followed by an identifier.
pub open spec fn struct_name(tokens: Seq<TokenTree>) -> Seq<char> {
    struct_name_from(tokens, "Struct"@)
}

/// The code generated for the type named `name`.
pub open spec fn get_id_info_code(name: Seq<char>) -> Seq<char> {
    GET_ID_INFO_HEAD@ + name + GET_ID_INFO_TAIL@
}

/// Whether `t` is the keyword `struct`.
fn token_is_struct_keyword(t: &TokenTree) -> (r: bool)
    ensures
        r == is_struct_keyword(*t),
{
    match t {
        TokenTree::Ident(s) => {
            let keyword = String::from_str("struct");
            *s == keyword
        },
        _ => false,
    }
}

/// The name of the type that `tokens` declare, scanning the tokens in order:
/// each `struct` keyword takes the token after it, and when that token is an
/// identifier it becomes the name; `Struct` when there is none.
pub fn type_name_of(tokens: &Vec<TokenTree>) -> (name: String)
    ensures
        name@ == struct_name(tokens@),
{
    let mut name = String::from_str("Struct");
    let mut i: usize = 0;
    assert(tokens@.skip(0) =~= tokens@);
    while i < tokens.len()
        invariant
            i <= tokens.len(),
            struct_name(tokens@) == struct_name_from(tokens@.skip(i as int), name@),
        decreases tokens.len() - i,
    {
        let ghost rest = tokens@.skip(i as int);
        if token_is_struct_keyword(&tokens[i]) {
            if i + 1 < tokens.len() {
                assert(rest.skip(2) =~= tokens@.skip(i + 2));
                match &tokens[i + 1] {
                    TokenTree::Ident(s) => {
                        name = s.clone();
                    },
                    _ => {},
                }
                i = i + 2;
            } else {
                assert(rest.len() == 1);
                assert(tokens@.skip(i + 1).len() == 0);
                i = i + 1;
            }
        } else {
            assert(rest.skip(1) =~= tokens@.skip(i + 1));
            i = i + 1;
        }
    }
    name
}

/// The `GetIdInfo` derive: writes the `get_id_info` method for the struct
/// that `tokens` declare, named as `type_name_of` finds it.
pub fn derive_get_id_info(tokens: Vec<TokenTree>) -> (code: String)
    requires
        exists|i: int| 0 <= i < tokens@.len() && is_struct_keyword(#[trigger] tokens@[i]),
    ensures
        code@ == get_id_info_code(struct_name(tokens@)),
{
    let struct_ident = type_name_of(&tokens);
    let code = String::from_str(GET_ID_INFO_HEAD);
    let code = code.concat(struct_ident.as_str());
    code.concat(GET_ID_INFO_TAIL)
}

/// Whether no token of `tokens` is the keyword `struct`.
pub open spec fn has_no_struct_keyword(tokens: Seq<TokenTree>) -> bool {
    forall|i: int| 0 <= i < tokens.len() ==> !is_struct_keyword(#[trigger] tokens[i])
}

/// Tokens holding no `struct` keyword leave the name as it was, and can be
/// put in front of any tokens without changing the name found in them.
proof fn lemma_skip_plain_tokens(s1: Seq<TokenTree>, rest: Seq<TokenTree>, name: Seq<char>)
    requires
        has_no_struct_keyword(s1),
    ensures
        struct_name_from(s1 + rest, name) == struct_name_from(rest, name),
    decreases s1.len(),
{
    if s1.len() > 0 {
        let all = s1 + rest;
        assert(all[0] == s1[0]);
        assert(!is_struct_keyword(s1[0]));
        assert(all.skip(1) =~= s1.skip(1) + rest);
        assert forall|i: int| 0 <= i < s1.skip(1).len() implies !is_struct_keyword(
            #[trigger] s1.skip(1)[i],
        ) by {
            assert(s1.skip(1)[i] == s1[i + 1]);
        }
        lemma_skip_plain_tokens(s1.skip(1), rest, name);
    } else {
        assert(s1 + rest =~= rest);
    }
}

/// When the tokens hold exactly one `struct` keyword, not last, and the token
/// after it is the identifier `n`, the name found is `n`, whatever its length
/// and whatever tokens stand before and after; the code generated names the
/// type `n`.
pub proof fn lemma_struct_name_is_the_identifier_after_struct(
    s1: Seq<TokenTree>,
    keyword: String,
    n: String,
    s2: Seq<TokenTree>,
)
    requires
        keyword@ == "struct"@,
        has_no_struct_keyword(s1),
        has_no_struct_keyword(s2),
    ensures
        struct_name(s1 + seq![TokenTree::Ident(keyword), TokenTree::Ident(n)] + s2) == n@,
        get_id_info_code(struct_name(s1 + seq![TokenTree::Ident(keyword), TokenTree::Ident(n)] + s2))
            == GET_ID_INFO_HEAD@ + n@ + GET_ID_INFO_TAIL@,
{
    let mid = seq![TokenTree::Ident(keyword), TokenTree::Ident(n)];
    let rest = mid + s2;
    assert(s1 + mid + s2 =~= s1 + rest);
    lemma_skip_plain_tokens(s1, rest, "Struct"@);
    assert(rest[0] == TokenTree::Ident(keyword));
    assert(is_struct_keyword(rest[0]));
    assert(rest[1] == TokenTree::Ident(n));
    assert(rest.skip(2) =~= s2);
    lemma_skip_plain_tokens(s2, Seq::<TokenTree>::empty(), n@);
    assert(s2 + Seq::<TokenTree>::empty() =~= s2);
}

/// Tokens with no `struct` keyword give the name `Struct`.
pub proof fn lemma_no_struct_keyword_gives_default(tokens: Seq<TokenTree>)
    requires
        has_no_struct_keyword(tokens),
    ensures
        struct_name(tokens) == "Struct"@,
{
    lemma_skip_plain_tokens(tokens, Seq::<TokenTree>::empty(), "Struct"@);
    assert(tokens + Seq::<TokenTree>::empty() =~= tokens);
}

} // verus!
