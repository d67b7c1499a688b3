//! The name of the generated type.
//!
//! A naming directive holds no path, and the name is derived from the
//! function's identifier, or it holds one bare identifier, which is taken
//! as it stands. Anything else is refused.

use crate::error::ExpandError;
use crate::model::FnItem;
use vstd::prelude::*;

verus! {

/// The Pascal-case form of `name` as the `convert_case` crate computes it.
pub uninterp spec fn pascal_case(name: Seq<char>) -> Seq<char>;

/// Calls `convert_case::Casing::to_case` with `Case::Pascal`. Trusted: the
/// result is that crate's Pascal-case form of `name`, which depends on the
/// characters of `name` alone.
#[verifier::external_body]
fn to_pascal_case(name: &str) -> (converted: String)
    ensures
        converted@ == pascal_case(name@),
{
    convert_case::Casing::to_case(&name, convert_case::Case::Pascal)
}

/// Parses `attr` with `syn::punctuated::Punctuated::<syn::Path,
/// syn::token::Comma>::parse_terminated` and asks each path for
/// `syn::Path::get_ident`.
///
/// The result is `None` where `syn` does not find a comma-separated list
/// of paths; otherwise it has one entry per path, in order, which is the
/// path's identifier where the path is a bare identifier and `None` where
/// it is not. Nothing is claimed of it: the text is split into tokens by
/// the compiler inside a procedural macro and by `proc-macro2` elsewhere,
/// so the result is not a function of the characters alone.
#[verifier::external_body]
fn parse_directive(attr: &str) -> (parsed: Option<Vec<Option<String>>>) {
    let parser = syn::punctuated::Punctuated::<syn::Path, syn::token::Comma>::parse_terminated;
    match syn::parse::Parser::parse_str(parser, attr) {
        Ok(paths) => Some(
            paths.iter().map(|path| path.get_ident().map(|ident| ident.to_string())).collect(),
        ),
        Err(_) => None,
    }
}

/// The name that a parsed directive and a derived name resolve to.
///
/// No path: the derived name. One path that is a bare identifier: that
/// identifier. More than one path, a path that is no bare identifier, or a
/// directive that did not parse: refused.
pub open spec fn resolve_name(
    parsed: Option<Seq<Option<Seq<char>>>>,
    default_name: Seq<char>,
) -> Result<Seq<char>, ExpandError> {
    match parsed {
        None => Err(ExpandError::MalformedDirective),
        Some(paths) => if paths.len() == 0 {
            Ok(default_name)
        } else if paths.len() > 1 {
            Err(ExpandError::TooManyNames)
        } else {
            match paths[0] {
                Some(ident) => Ok(ident),
                None => Err(ExpandError::NotAnIdentifier),
            }
        },
    }
}

/// The characters of a resolved name, or the refusal.
pub open spec fn name_view(resolved: Result<String, ExpandError>) -> Result<
    Seq<char>,
    ExpandError,
> {
    match resolved {
        Ok(name) => Ok(name@),
        Err(error) => Err(error),
    }
}

/// Resolves the name of the generated type from a parsed directive and the
/// name derived from the function's identifier.
pub fn resolve_struct_name(parsed: &Option<Vec<Option<String>>>, default_name: String) -> (resolved:
    Result<String, ExpandError>)
    ensures
        name_view(resolved) == resolve_name(parsed.deep_view(), default_name@),
{
    match parsed {
        None => Err(ExpandError::MalformedDirective),
        Some(paths) => {
            if paths.len() == 0 {
                Ok(default_name)
            } else if paths.len() > 1 {
                Err(ExpandError::TooManyNames)
            } else {
                match &paths[0] {
                    Some(ident) => Ok(ident.clone()),
                    None => Err(ExpandError::NotAnIdentifier),
                }
            }
        },
    }
}

/// The name of the type generated for `input_fn` under the naming
/// directive `attr`.
///
/// An empty directive names nothing, and the name is the Pascal-case form
/// of the function's identifier, which `convert_case` computes. Any other
/// directive is parsed by `syn`: whatever the parse yields, the name is
/// what [`resolve_name`] makes of it and of that Pascal-case form, and
/// [`resolve_struct_name`] says which name that is for each parsed
/// directive.
pub fn get_struct_name_ident(attr: &str, input_fn: &FnItem) -> (resolved: Result<
    String,
    ExpandError,
>)
    ensures
        attr@.len() == 0 ==> name_view(resolved) == Ok::<Seq<char>, ExpandError>(
            pascal_case(input_fn@.name),
        ),
        exists|parsed: Option<Seq<Option<Seq<char>>>>|
            name_view(resolved) == #[trigger] resolve_name(parsed, pascal_case(input_fn@.name)),
{
    let default_struct_name = to_pascal_case(input_fn.name.as_str());
    if attr.is_empty() {
        assert(resolve_name(Some(Seq::empty()), pascal_case(input_fn@.name)) == Ok::<
            Seq<char>,
            ExpandError,
        >(default_struct_name@));
        return Ok(default_struct_name);
    }
    let parsed = parse_directive(attr);
    let resolved = resolve_struct_name(&parsed, default_struct_name);
    assert(name_view(resolved) == resolve_name(
        parsed.deep_view(),
        pascal_case(input_fn@.name),
    ));
    resolved
}

/// Whatever a directive parsed to, a resolved name is the derived name or
/// an identifier that the directive holds, and a refusal is one of the
/// three refusals of a directive.
pub proof fn lemma_resolved_name(
    parsed: Option<Seq<Option<Seq<char>>>>,
    default_name: Seq<char>,
)
    ensures
        resolve_name(parsed, default_name) matches Ok(name) ==> {
            &&& parsed matches Some(paths)
            &&& paths.len() <= 1
            &&& paths.len() == 0 ==> name == default_name
            &&& paths.len() == 1 ==> paths[0] == Some(name)
        },
        resolve_name(parsed, default_name) matches Err(error) ==> {
            ||| (error == ExpandError::MalformedDirective && parsed is None)
            ||| (error == ExpandError::TooManyNames && parsed is Some && parsed->Some_0.len()
                > 1)
            ||| (error == ExpandError::NotAnIdentifier && parsed is Some
                && parsed->Some_0.len() == 1 && parsed->Some_0[0] is None)
        },
{
}

} // verus!
