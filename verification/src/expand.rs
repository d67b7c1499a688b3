//! The signature walk: from a function definition to the pieces of the
//! generated type, its constructor and its executor.

use crate::classify::{
    captured,
    has_receiver,
    injected,
    is_captured,
    is_dependency,
    is_dependency_type,
    is_injected,
    lemma_classes_partition,
    lemma_selection_in_order,
    positions,
    typed,
};
use crate::error::ExpandError;
use crate::model::{arg_views, texts, ArgView, FnArg, FnItem, ItemView, ParamView, TypedParam};
use vstd::prelude::*;
use vstd::string::StringExecFns;

verus! {

/// A struct field, which is also a constructor parameter: `pat: ty`.
pub open spec fn field_decl(param: ParamView) -> Seq<char> {
    param.pat + ": "@ + param.ty
}

/// A field initializer of the constructor: `pat: pat`.
pub open spec fn field_init(param: ParamView) -> Seq<char> {
    param.pat + ": "@ + param.pat
}

/// An executor parameter for a dependency: `pat: impl Into<ty>`.
pub open spec fn dependency_arg(param: ParamView) -> Seq<char> {
    param.pat + ": impl Into<"@ + param.ty + ">"@
}

/// The executor's local binding for a parameter: a read-only alias of the
/// field for a captured field, the converted value for a dependency.
pub open spec fn binding(param: ParamView) -> Seq<char> {
    if is_dependency(param.shape) {
        "let "@ + param.pat + " = "@ + param.pat + ".into();"@
    } else {
        "let "@ + param.pat + " = &self."@ + param.pat + ";"@
    }
}

/// The executor's return type: the declared one, or the unit type.
pub open spec fn return_type(output: Option<Seq<char>>) -> Seq<char> {
    match output {
        Some(ty) => ty,
        None => "()"@,
    }
}

/// The pieces from which the generated items are written.
#[derive(Clone, Debug, PartialEq, Eq)]
pub struct Expansion {
    /// The function definition, unchanged.
    pub source: String,
    /// The name of the generated type.
    pub struct_name: String,
    /// The struct's fields, which are the constructor's parameters too.
    pub fields: Vec<String>,
    /// The constructor's field initializers.
    pub new_struct_fields: Vec<String>,
    /// The executor's parameters, the `&self` receiver first.
    pub execute_args: Vec<String>,
    /// The executor's local bindings, one per parameter of the function.
    pub execute_bindings: Vec<String>,
    /// Whether the executor is declared `async`.
    pub is_async: bool,
    /// The executor's return type.
    pub ret_ty: String,
    /// The function's body block, unchanged.
    pub block: String,
}

/// The mathematical value of an [`Expansion`].
pub struct ExpansionView {
    pub source: Seq<char>,
    pub struct_name: Seq<char>,
    pub fields: Seq<Seq<char>>,
    pub new_struct_fields: Seq<Seq<char>>,
    pub execute_args: Seq<Seq<char>>,
    pub execute_bindings: Seq<Seq<char>>,
    pub is_async: bool,
    pub ret_ty: Seq<char>,
    pub block: Seq<char>,
}

impl View for Expansion {
    type V = ExpansionView;

    open spec fn view(&self) -> ExpansionView {
        ExpansionView {
            source: self.source@,
            struct_name: self.struct_name@,
            fields: texts(self.fields@),
            new_struct_fields: texts(self.new_struct_fields@),
            execute_args: texts(self.execute_args@),
            execute_bindings: texts(self.execute_bindings@),
            is_async: self.is_async,
            ret_ty: self.ret_ty@,
            block: self.block@,
        }
    }
}

/// The pieces generated for a function without a receiver.
///
/// Fields and initializers come from the captured fields, executor
/// parameters from the injected dependencies after `&self`, and bindings
/// from every parameter, each list in declaration order.
pub open spec fn expansion_of(struct_name: Seq<char>, item: ItemView) -> ExpansionView {
    ExpansionView {
        source: item.source,
        struct_name,
        fields: captured(item.inputs).map_values(|p: ParamView| field_decl(p)),
        new_struct_fields: captured(item.inputs).map_values(|p: ParamView| field_init(p)),
        execute_args: seq!["&self"@] + injected(item.inputs).map_values(
            |p: ParamView| dependency_arg(p),
        ),
        execute_bindings: typed(item.inputs).map_values(|p: ParamView| binding(p)),
        is_async: item.is_async,
        ret_ty: return_type(item.output),
        block: item.block,
    }
}

/// What the signature walk yields: the refusal of a receiver, or the
/// pieces of the expansion.
pub open spec fn expand_spec(struct_name: Seq<char>, item: ItemView) -> Result<
    ExpansionView,
    ExpandError,
> {
    if has_receiver(item.inputs) {
        Err(ExpandError::ReceiverNotSupported)
    } else {
        Ok(expansion_of(struct_name, item))
    }
}

/// The value of an expansion, or the refusal.
pub open spec fn expansion_view(outcome: Result<Expansion, ExpandError>) -> Result<
    ExpansionView,
    ExpandError,
> {
    match outcome {
        Ok(expansion) => Ok(expansion@),
        Err(error) => Err(error),
    }
}

fn field_decl_text(param: &TypedParam) -> (text: String)
    ensures
        text@ == field_decl(param@),
{
    let mut text = param.pat.clone();
    text.append(": ");
    text.append(param.ty.as_str());
    text
}

fn field_init_text(param: &TypedParam) -> (text: String)
    ensures
        text@ == field_init(param@),
{
    let mut text = param.pat.clone();
    text.append(": ");
    text.append(param.pat.as_str());
    text
}

fn dependency_arg_text(param: &TypedParam) -> (text: String)
    ensures
        text@ == dependency_arg(param@),
{
    let mut text = param.pat.clone();
    text.append(": impl Into<");
    text.append(param.ty.as_str());
    text.append(">");
    text
}

fn binding_text(param: &TypedParam, dependency: bool) -> (text: String)
    requires
        dependency == is_dependency(param@.shape),
    ensures
        text@ == binding(param@),
{
    let mut text = String::from_str("let ");
    text.append(param.pat.as_str());
    if dependency {
        text.append(" = ");
        text.append(param.pat.as_str());
        text.append(".into();");
    } else {
        text.append(" = &self.");
        text.append(param.pat.as_str());
        text.append(";");
    }
    text
}

/// Appends `text` to `list`.
fn push_text(list: &mut Vec<String>, text: String)
    ensures
        texts(final(list)@) == texts(old(list)@).push(text@),
{
    list.push(text);
    assert(texts(list@) =~= texts(old(list)@).push(text@));
}

/// One more parameter: how the three selections grow.
proof fn lemma_selection_step(inputs: Seq<ArgView>, i: int)
    requires
        0 <= i < inputs.len(),
    ensures
        inputs[i] is Receiver ==> {
            &&& captured(inputs.take(i + 1)) == captured(inputs.take(i))
            &&& injected(inputs.take(i + 1)) == injected(inputs.take(i))
            &&& typed(inputs.take(i + 1)) == typed(inputs.take(i))
        },
        inputs[i] matches ArgView::Typed(param) ==> {
            &&& typed(inputs.take(i + 1)) == typed(inputs.take(i)).push(param)
            &&& is_dependency(param.shape) ==> {
                &&& captured(inputs.take(i + 1)) == captured(inputs.take(i))
                &&& injected(inputs.take(i + 1)) == injected(inputs.take(i)).push(param)
            }
            &&& !is_dependency(param.shape) ==> {
                &&& captured(inputs.take(i + 1)) == captured(inputs.take(i)).push(param)
                &&& injected(inputs.take(i + 1)) == injected(inputs.take(i))
            }
        },
{
    assert(inputs.take(i + 1).drop_last() =~= inputs.take(i));
    assert(inputs.take(i + 1).last() == inputs[i]);
}

/// Walks the signature of `item` and synthesizes the pieces of the type
/// named `struct_name`.
///
/// A receiver anywhere among the parameters is refused. Otherwise every
/// typed parameter is classified and recorded, in declaration order; the
/// return type defaults to the unit type; the executor is asynchronous
/// exactly when the function is; the definition and its body are carried
/// over unchanged.
pub fn expand(struct_name: String, item: &FnItem) -> (outcome: Result<Expansion, ExpandError>)
    ensures
        expansion_view(outcome) == expand_spec(struct_name@, item@),
{
    let mut fields: Vec<String> = Vec::new();
    let mut execute_bindings: Vec<String> = Vec::new();
    let mut new_struct_fields: Vec<String> = Vec::new();
    let mut execute_args: Vec<String> = Vec::new();
    push_text(&mut execute_args, String::from_str("&self"));

    let ghost inputs = arg_views(item.inputs@);
    let count = item.inputs.len();
    let mut i: usize = 0;
    proof {
        assert(inputs.take(0) =~= Seq::<ArgView>::empty());
        assert(texts(fields@) =~= captured(inputs.take(0)).map_values(
            |p: ParamView| field_decl(p),
        ));
        assert(texts(new_struct_fields@) =~= captured(inputs.take(0)).map_values(
            |p: ParamView| field_init(p),
        ));
        assert(texts(execute_bindings@) =~= typed(inputs.take(0)).map_values(
            |p: ParamView| binding(p),
        ));
        assert(texts(execute_args@) =~= seq!["&self"@] + injected(inputs.take(0)).map_values(
            |p: ParamView| dependency_arg(p),
        ));
    }
    while i < count
        invariant
            count == item.inputs.len(),
            inputs == arg_views(item.inputs@),
            0 <= i <= count,
            forall|k: int| 0 <= k < i ==> !(inputs[k] is Receiver),
            texts(fields@) == captured(inputs.take(i as int)).map_values(
                |p: ParamView| field_decl(p),
            ),
            texts(new_struct_fields@) == captured(inputs.take(i as int)).map_values(
                |p: ParamView| field_init(p),
            ),
            texts(execute_args@) == seq!["&self"@] + injected(inputs.take(i as int)).map_values(
                |p: ParamView| dependency_arg(p),
            ),
            texts(execute_bindings@) == typed(inputs.take(i as int)).map_values(
                |p: ParamView| binding(p),
            ),
        decreases count - i,
    {
        proof {
            lemma_selection_step(inputs, i as int);
        }
        match &item.inputs[i] {
            FnArg::Typed(param) => {
                let ghost before_captured = captured(inputs.take(i as int));
                let ghost before_injected = injected(inputs.take(i as int));
                let ghost before_typed = typed(inputs.take(i as int));
                let dependency = is_dependency_type(&param.shape);
                if dependency {
                    push_text(&mut execute_args, dependency_arg_text(param));
                    assert(texts(execute_args@) =~= seq!["&self"@] + before_injected.push(
                        param@,
                    ).map_values(|p: ParamView| dependency_arg(p)));
                } else {
                    push_text(&mut fields, field_decl_text(param));
                    push_text(&mut new_struct_fields, field_init_text(param));
                    assert(texts(fields@) =~= before_captured.push(param@).map_values(
                        |p: ParamView| field_decl(p),
                    ));
                    assert(texts(new_struct_fields@) =~= before_captured.push(
                        param@,
                    ).map_values(|p: ParamView| field_init(p)));
                }
                push_text(&mut execute_bindings, binding_text(param, dependency));
                assert(texts(execute_bindings@) =~= before_typed.push(param@).map_values(
                    |p: ParamView| binding(p),
                ));
            },
            FnArg::Receiver => {
                assert(inputs[i as int] is Receiver);
                return Err(ExpandError::ReceiverNotSupported);
            },
        }
        i += 1;
    }
    assert(inputs.take(count as int) =~= inputs);

    let ret_ty = match &item.output {
        Some(ty) => ty.clone(),
        None => String::from_str("()"),
    };
    Ok(
        Expansion {
            source: item.source.clone(),
            struct_name,
            fields,
            new_struct_fields,
            execute_args,
            execute_bindings,
            is_async: item.is_async,
            ret_ty,
            block: item.block.clone(),
        },
    )
}

/// Without a receiver every parameter is typed: the typed parameters are
/// the parameters themselves, in order.
pub proof fn lemma_typed_without_receiver(inputs: Seq<ArgView>)
    requires
        !has_receiver(inputs),
    ensures
        typed(inputs).len() == inputs.len(),
        forall|i: int|
            0 <= i < inputs.len() ==> #[trigger] inputs[i] == ArgView::Typed(typed(inputs)[i]),
    decreases inputs.len(),
{
    if inputs.len() > 0 {
        let shorter = inputs.drop_last();
        assert forall|i: int| 0 <= i < shorter.len() implies !(shorter[i] is Receiver) by {
            assert(shorter[i] == inputs[i]);
        }
        lemma_typed_without_receiver(shorter);
        assert(!(inputs[inputs.len() - 1] is Receiver));
        assert forall|i: int| 0 <= i < inputs.len() implies #[trigger] inputs[i]
            == ArgView::Typed(typed(inputs)[i]) by {
            if i < shorter.len() {
                assert(shorter[i] == inputs[i]);
            }
        }
    }
}

/// Where no parameter is a dependency or a receiver, the captured fields
/// are all the parameters and nothing is injected.
pub proof fn lemma_all_captured(inputs: Seq<ArgView>)
    requires
        forall|i: int| 0 <= i < inputs.len() ==> is_captured(#[trigger] inputs[i]),
    ensures
        !has_receiver(inputs),
        injected(inputs).len() == 0,
        captured(inputs) == typed(inputs),
        captured(inputs).len() == inputs.len(),
        forall|i: int|
            0 <= i < inputs.len() ==> #[trigger] inputs[i] == ArgView::Typed(captured(inputs)[i]),
    decreases inputs.len(),
{
    if inputs.len() > 0 {
        let shorter = inputs.drop_last();
        assert forall|i: int| 0 <= i < shorter.len() implies is_captured(
            #[trigger] shorter[i],
        ) by {
            assert(shorter[i] == inputs[i]);
        }
        lemma_all_captured(shorter);
        assert(is_captured(inputs[inputs.len() - 1]));
    }
    lemma_typed_without_receiver(inputs);
}

/// A function without parameters and without a return type: the struct has
/// no field, the constructor takes no argument, the executor takes `&self`
/// alone, binds nothing and returns the unit type.
pub proof fn lemma_unit_function(struct_name: Seq<char>, item: ItemView)
    requires
        item.inputs.len() == 0,
        item.output is None,
    ensures
        expand_spec(struct_name, item) == Ok::<_, ExpandError>(expansion_of(struct_name, item)),
        expansion_of(struct_name, item).fields.len() == 0,
        expansion_of(struct_name, item).new_struct_fields.len() == 0,
        expansion_of(struct_name, item).execute_args == seq!["&self"@],
        expansion_of(struct_name, item).execute_bindings.len() == 0,
        expansion_of(struct_name, item).ret_ty == "()"@,
{
    assert(expansion_of(struct_name, item).execute_args =~= seq!["&self"@]);
}

/// A function whose parameters are all captured fields, with a declared
/// return type: the struct's fields and the constructor's parameters are
/// the function's parameters, one for one and in order; the executor takes
/// `&self` alone, binds each parameter to its field in order, runs the
/// function's own body and returns the declared type.
pub proof fn lemma_plain_parameters(struct_name: Seq<char>, item: ItemView, ret: Seq<char>)
    requires
        forall|i: int| 0 <= i < item.inputs.len() ==> is_captured(#[trigger] item.inputs[i]),
        item.output == Some(ret),
    ensures
        expand_spec(struct_name, item) == Ok::<_, ExpandError>(expansion_of(struct_name, item)),
        expansion_of(struct_name, item).fields.len() == item.inputs.len(),
        expansion_of(struct_name, item).new_struct_fields.len() == item.inputs.len(),
        expansion_of(struct_name, item).execute_bindings.len() == item.inputs.len(),
        forall|i: int|
            0 <= i < item.inputs.len() ==> {
                let param = (#[trigger] item.inputs[i])->Typed_0;
                &&& expansion_of(struct_name, item).fields[i] == param.pat + ": "@ + param.ty
                &&& expansion_of(struct_name, item).new_struct_fields[i] == param.pat + ": "@
                    + param.pat
                &&& expansion_of(struct_name, item).execute_bindings[i] == "let "@ + param.pat
                    + " = &self."@ + param.pat + ";"@
            },
        expansion_of(struct_name, item).execute_args == seq!["&self"@],
        expansion_of(struct_name, item).ret_ty == ret,
        expansion_of(struct_name, item).block == item.block,
        expansion_of(struct_name, item).source == item.source,
{
    lemma_all_captured(item.inputs);
    assert(injected(item.inputs) =~= Seq::<ParamView>::empty());
    assert(expansion_of(struct_name, item).execute_args =~= seq!["&self"@]);
}

/// A function with captured fields and injected dependencies in any
/// order, and no receiver.
///
/// The constructor takes exactly the captured fields and the executor,
/// after `&self`, exactly the injected dependencies, each list in the
/// order of declaration (`positions` gives where each entry stood). The
/// executor binds every parameter, in declaration order.
pub proof fn lemma_mixed_parameters(struct_name: Seq<char>, item: ItemView)
    requires
        !has_receiver(item.inputs),
    ensures
        expand_spec(struct_name, item) == Ok::<_, ExpandError>(expansion_of(struct_name, item)),
        expansion_of(struct_name, item).fields.len() + (expansion_of(
            struct_name,
            item,
        ).execute_args.len() - 1) == item.inputs.len(),
        expansion_of(struct_name, item).fields.len() == positions(item.inputs, false).len(),
        expansion_of(struct_name, item).new_struct_fields.len() == positions(
            item.inputs,
            false,
        ).len(),
        expansion_of(struct_name, item).execute_args.len() == 1 + positions(
            item.inputs,
            true,
        ).len(),
        expansion_of(struct_name, item).execute_args[0] == "&self"@,
        forall|j: int|
            0 <= j < positions(item.inputs, false).len() ==> {
                let at = #[trigger] positions(item.inputs, false)[j];
                &&& 0 <= at < item.inputs.len()
                &&& is_captured(item.inputs[at])
                &&& expansion_of(struct_name, item).fields[j] == field_decl(
                    item.inputs[at]->Typed_0,
                )
                &&& expansion_of(struct_name, item).new_struct_fields[j] == field_init(
                    item.inputs[at]->Typed_0,
                )
            },
        forall|j: int|
            0 <= j < positions(item.inputs, true).len() ==> {
                let at = #[trigger] positions(item.inputs, true)[j];
                &&& 0 <= at < item.inputs.len()
                &&& is_injected(item.inputs[at])
                &&& expansion_of(struct_name, item).execute_args[j + 1] == dependency_arg(
                    item.inputs[at]->Typed_0,
                )
            },
        forall|dependencies: bool, j: int, k: int|
            0 <= j < k < positions(item.inputs, dependencies).len() ==> #[trigger] positions(
                item.inputs,
                dependencies,
            )[j] < #[trigger] positions(item.inputs, dependencies)[k],
        expansion_of(struct_name, item).execute_bindings.len() == item.inputs.len(),
        forall|i: int|
            0 <= i < item.inputs.len() ==> expansion_of(struct_name, item).execute_bindings[i]
                == binding((#[trigger] item.inputs[i])->Typed_0),
{
    let inputs = item.inputs;
    lemma_selection_in_order(inputs, false);
    lemma_selection_in_order(inputs, true);
    lemma_classes_partition(inputs);
    lemma_typed_without_receiver(inputs);
    let e = expansion_of(struct_name, item);
    assert forall|j: int| 0 <= j < positions(inputs, false).len() implies {
        let at = #[trigger] positions(inputs, false)[j];
        &&& 0 <= at < inputs.len()
        &&& is_captured(inputs[at])
        &&& e.fields[j] == field_decl(inputs[at]->Typed_0)
        &&& e.new_struct_fields[j] == field_init(inputs[at]->Typed_0)
    } by {
        assert(inputs[positions(inputs, false)[j]] == ArgView::Typed(captured(inputs)[j]));
    }
    assert forall|j: int| 0 <= j < positions(inputs, true).len() implies {
        let at = #[trigger] positions(inputs, true)[j];
        &&& 0 <= at < inputs.len()
        &&& is_injected(inputs[at])
        &&& e.execute_args[j + 1] == dependency_arg(inputs[at]->Typed_0)
    } by {
        assert(inputs[positions(inputs, true)[j]] == ArgView::Typed(injected(inputs)[j]));
    }
    assert forall|dependencies: bool, j: int, k: int|
        0 <= j < k < positions(inputs, dependencies).len() implies #[trigger] positions(
        inputs,
        dependencies,
    )[j] < #[trigger] positions(inputs, dependencies)[k] by {
        lemma_selection_in_order(inputs, dependencies);
    }
}

/// The executor is asynchronous exactly when the function is.
pub proof fn lemma_async_propagates(struct_name: Seq<char>, item: ItemView)
    ensures
        expansion_of(struct_name, item).is_async == item.is_async,
        expand_spec(struct_name, item) matches Ok(expansion) ==> expansion.is_async
            == item.is_async,
{
}

} // verus!
