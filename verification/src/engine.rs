//! The transformation from a function definition to the text of the items
//! generated for it.

use crate::classify::has_receiver;
use crate::emit::{execute_keywords, lemma_render_without_parameters, render_spec};
use crate::error::ExpandError;
use crate::expand::{expand, expand_spec, expansion_of, lemma_unit_function};
use crate::model::{FnItem, ItemView};
use crate::naming::{
    get_struct_name_ident,
    name_view,
    pascal_case,
    resolve_name,
    resolve_struct_name,
};
use vstd::prelude::*;

verus! {

/// The generated text for `item` under a resolved name, or the refusal:
/// that of the name where it did not resolve, else that of a receiver.
pub open spec fn items_for(resolved: Result<Seq<char>, ExpandError>, item: ItemView) -> Result<
    Seq<char>,
    ExpandError,
> {
    match resolved {
        Err(error) => Err(error),
        Ok(struct_name) => match expand_spec(struct_name, item) {
            Err(error) => Err(error),
            Ok(expansion) => Ok(render_spec(expansion)),
        },
    }
}

/// The generated text for `item`, given what the naming directive parsed to
/// and the name derived from the function's identifier.
///
/// The name is resolved first, so a refused directive is reported before a
/// receiver is. Nothing is generated for a refused definition.
pub open spec fn structify_spec(
    parsed: Option<Seq<Option<Seq<char>>>>,
    default_name: Seq<char>,
    item: ItemView,
) -> Result<Seq<char>, ExpandError> {
    items_for(resolve_name(parsed, default_name), item)
}

/// Walks the signature and writes the items under a resolved name.
fn write_items(resolved: Result<String, ExpandError>, item: &FnItem) -> (text: Result<
    String,
    ExpandError,
>)
    ensures
        name_view(text) == items_for(name_view(resolved), item@),
{
    match resolved {
        Err(error) => Err(error),
        Ok(struct_name) => match expand(struct_name, item) {
            Err(error) => Err(error),
            Ok(expansion) => Ok(expansion.render()),
        },
    }
}

/// Generates the items for `item` from a parsed naming directive and a
/// derived name.
pub fn generate(parsed: &Option<Vec<Option<String>>>, default_name: String, item: &FnItem) -> (text:
    Result<String, ExpandError>)
    ensures
        name_view(text) == structify_spec(parsed.deep_view(), default_name@, item@),
{
    write_items(resolve_struct_name(parsed, default_name), item)
}

/// Generates, for the function definition `item` under the naming
/// directive `attr`, the definition itself, a struct that holds its
/// captured fields, a `new` constructor and an `execute` method, as source
/// text.
///
/// `attr` is the text between the parentheses of the directive, empty
/// where there are none. Under an empty directive a function without a
/// receiver is always expanded, under the Pascal-case form of its
/// identifier. Any other directive is parsed by `syn`; whatever the parse
/// yields, the outcome is what [`structify_spec`] gives for it, and
/// [`generate`] says which outcome that is for each parsed directive.
pub fn structify(attr: &str, item: &FnItem) -> (text: Result<String, ExpandError>)
    ensures
        attr@.len() == 0 && !has_receiver(item@.inputs) ==> name_view(text) == Ok::<
            Seq<char>,
            ExpandError,
        >(render_spec(expansion_of(pascal_case(item@.name), item@))),
        exists|parsed: Option<Seq<Option<Seq<char>>>>|
            name_view(text) == #[trigger] structify_spec(parsed, pascal_case(item@.name), item@),
        has_receiver(item@.inputs) ==> text is Err,
        text matches Ok(written) ==> exists|struct_name: Seq<char>|
            written@ == render_spec(#[trigger] expansion_of(struct_name, item@)),
{
    let ghost default_name = pascal_case(item@.name);
    let resolved = get_struct_name_ident(attr, item);
    let ghost parsed = choose|parsed: Option<Seq<Option<Seq<char>>>>|
        name_view(resolved) == #[trigger] resolve_name(parsed, default_name);
    let text = write_items(resolved, item);
    assert(name_view(text) == structify_spec(parsed, default_name, item@));
    proof {
        if text is Ok {
            let struct_name = resolve_name(parsed, default_name)->Ok_0;
            assert(text->Ok_0@ == render_spec(expansion_of(struct_name, item@)));
        }
    }
    text
}

/// A directive that names one bare identifier decides the name of the
/// generated type, whatever the function is called; an empty directive
/// leaves the name to the function's identifier.
pub proof fn lemma_directive_decides_name(
    ident: Seq<char>,
    default_name: Seq<char>,
    item: ItemView,
)
    requires
        !has_receiver(item.inputs),
    ensures
        resolve_name(Some(seq![Some(ident)]), default_name) == Ok::<_, ExpandError>(ident),
        resolve_name(Some(Seq::empty()), default_name) == Ok::<_, ExpandError>(default_name),
        structify_spec(Some(seq![Some(ident)]), default_name, item) == Ok::<_, ExpandError>(
            render_spec(expansion_of(ident, item)),
        ),
        structify_spec(Some(Seq::empty()), default_name, item) == Ok::<_, ExpandError>(
            render_spec(expansion_of(default_name, item)),
        ),
        expansion_of(ident, item).struct_name == ident,
{
}

/// A directive that names two or more paths is refused, and so is one that
/// is no list of paths or whose one path is no bare identifier.
pub proof fn lemma_bad_directive_refused(
    parsed: Option<Seq<Option<Seq<char>>>>,
    default_name: Seq<char>,
    item: ItemView,
)
    ensures
        parsed is None ==> structify_spec(parsed, default_name, item) == Err::<Seq<char>, _>(
            ExpandError::MalformedDirective,
        ),
        parsed matches Some(paths) && paths.len() >= 2 ==> structify_spec(
            parsed,
            default_name,
            item,
        ) == Err::<Seq<char>, _>(ExpandError::TooManyNames),
        parsed matches Some(paths) && paths.len() == 1 && paths[0] is None ==> structify_spec(
            parsed,
            default_name,
            item,
        ) == Err::<Seq<char>, _>(ExpandError::NotAnIdentifier),
{
}

/// A function that declares a receiver is never expanded: where the name
/// resolves, the refusal is that of the receiver.
pub proof fn lemma_receiver_refused(
    parsed: Option<Seq<Option<Seq<char>>>>,
    default_name: Seq<char>,
    item: ItemView,
)
    requires
        has_receiver(item.inputs),
    ensures
        structify_spec(parsed, default_name, item) is Err,
        resolve_name(parsed, default_name) is Ok ==> structify_spec(parsed, default_name, item)
            == Err::<Seq<char>, _>(ExpandError::ReceiverNotSupported),
{
}

/// Expansion succeeds exactly when the name resolves and no parameter is a
/// receiver.
pub proof fn lemma_success_condition(
    parsed: Option<Seq<Option<Seq<char>>>>,
    default_name: Seq<char>,
    item: ItemView,
)
    ensures
        structify_spec(parsed, default_name, item) is Ok <==> (resolve_name(parsed, default_name)
            is Ok && !has_receiver(item.inputs)),
{
}

/// A function without parameters and without a return type, under a name
/// that resolves: the constructor takes no argument and the executor
/// returns the unit type.
pub proof fn lemma_unit_function_text(
    parsed: Option<Seq<Option<Seq<char>>>>,
    default_name: Seq<char>,
    item: ItemView,
    struct_name: Seq<char>,
)
    requires
        item.inputs.len() == 0,
        item.output is None,
        resolve_name(parsed, default_name) == Ok::<_, ExpandError>(struct_name),
    ensures
        structify_spec(parsed, default_name, item) == Ok::<_, ExpandError>(
            "#[allow(unused)]\n"@ + item.source + "\npub struct "@ + struct_name
                + " {  }\nimpl "@ + struct_name
                + " {\n    pub fn new() -> Self { Self {  } }\n"@ + execute_keywords(
                item.is_async,
            ) + "&self) -> "@ + "()"@ + " { "@ + item.block + " }\n}\n"@,
        ),
{
    lemma_unit_function(struct_name, item);
    lemma_render_without_parameters(expansion_of(struct_name, item));
}

} // verus!
