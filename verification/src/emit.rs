//! Emission: the text of the generated items.
//!
//! Four items are written, in this order: the function definition,
//! unchanged, under `#[allow(unused)]`; the struct; its `new` constructor;
//! its `execute` method, whose body holds the bindings and then the
//! function's body block.

use crate::expand::{Expansion, ExpansionView};
use crate::model::texts;
use vstd::prelude::*;
use vstd::string::StringExecFns;

verus! {

/// `items` with `separator` between each two neighbours.
pub open spec fn join(items: Seq<Seq<char>>, separator: Seq<char>) -> Seq<char>
    decreases items.len(),
{
    if items.len() == 0 {
        Seq::empty()
    } else if items.len() == 1 {
        items[0]
    } else {
        join(items.drop_last(), separator) + separator + items.last()
    }
}

/// `items` one after the other, each followed by `terminator`.
pub open spec fn concat_terminated(items: Seq<Seq<char>>, terminator: Seq<char>) -> Seq<char>
    decreases items.len(),
{
    if items.len() == 0 {
        Seq::empty()
    } else {
        concat_terminated(items.drop_last(), terminator) + items.last() + terminator
    }
}

/// The keywords that open the executor's signature.
pub open spec fn execute_keywords(is_async: bool) -> Seq<char> {
    if is_async {
        "    pub async fn execute("@
    } else {
        "    pub fn execute("@
    }
}

/// The text of the generated items.
pub open spec fn render_spec(e: ExpansionView) -> Seq<char> {
    "#[allow(unused)]\n"@ + e.source + "\npub struct "@ + e.struct_name + " { "@ + join(
        e.fields,
        ", "@,
    ) + " }\nimpl "@ + e.struct_name + " {\n    pub fn new("@ + join(e.fields, ", "@)
        + ") -> Self { Self { "@ + join(e.new_struct_fields, ", "@) + " } }\n"@
        + execute_keywords(e.is_async) + join(e.execute_args, ", "@) + ") -> "@ + e.ret_ty
        + " { "@ + concat_terminated(e.execute_bindings, " "@) + e.block + " }\n}\n"@
}

/// Joins `items` with `separator`.
fn join_text(items: &Vec<String>, separator: &str) -> (text: String)
    ensures
        text@ == join(texts(items@), separator@),
{
    let ghost all = texts(items@);
    let mut text = String::new();
    let mut i: usize = 0;
    assert(all.take(0) =~= Seq::<Seq<char>>::empty());
    while i < items.len()
        invariant
            all == texts(items@),
            0 <= i <= items.len(),
            text@ == join(all.take(i as int), separator@),
        decreases items.len() - i,
    {
        assert(all.take(i + 1).drop_last() =~= all.take(i as int));
        assert(all.take(i + 1).last() == items@[i as int]@);
        if i > 0 {
            text.append(separator);
        } else {
            assert(Seq::<char>::empty() + items@[0]@ =~= items@[0]@);
        }
        text.append(items[i].as_str());
        i += 1;
    }
    assert(all.take(items.len() as int) =~= all);
    text
}

/// Writes `items` one after the other, each followed by `terminator`.
fn concat_terminated_text(items: &Vec<String>, terminator: &str) -> (text: String)
    ensures
        text@ == concat_terminated(texts(items@), terminator@),
{
    let ghost all = texts(items@);
    let mut text = String::new();
    let mut i: usize = 0;
    assert(all.take(0) =~= Seq::<Seq<char>>::empty());
    while i < items.len()
        invariant
            all == texts(items@),
            0 <= i <= items.len(),
            text@ == concat_terminated(all.take(i as int), terminator@),
        decreases items.len() - i,
    {
        assert(all.take(i + 1).drop_last() =~= all.take(i as int));
        assert(all.take(i + 1).last() == items@[i as int]@);
        text.append(items[i].as_str());
        text.append(terminator);
        i += 1;
    }
    assert(all.take(items.len() as int) =~= all);
    text
}

impl Expansion {
    /// Writes the generated items as source text.
    pub fn render(&self) -> (text: String)
        ensures
            text@ == render_spec(self@),
    {
        let fields = join_text(&self.fields, ", ");
        let inits = join_text(&self.new_struct_fields, ", ");
        let args = join_text(&self.execute_args, ", ");
        let bindings = concat_terminated_text(&self.execute_bindings, " ");

        let mut text = String::from_str("#[allow(unused)]\n");
        text.append(self.source.as_str());
        text.append("\npub struct ");
        text.append(self.struct_name.as_str());
        text.append(" { ");
        text.append(fields.as_str());
        text.append(" }\nimpl ");
        text.append(self.struct_name.as_str());
        text.append(" {\n    pub fn new(");
        text.append(fields.as_str());
        text.append(") -> Self { Self { ");
        text.append(inits.as_str());
        text.append(" } }\n");
        if self.is_async {
            text.append("    pub async fn execute(");
        } else {
            text.append("    pub fn execute(");
        }
        text.append(args.as_str());
        text.append(") -> ");
        text.append(self.ret_ty.as_str());
        text.append(" { ");
        text.append(bindings.as_str());
        text.append(self.block.as_str());
        text.append(" }\n}\n");
        text
    }
}

/// The text written for a function without parameters: the struct has no
/// field, `new` takes no argument, and `execute` takes `&self` alone and
/// holds nothing but the function's body.
pub proof fn lemma_render_without_parameters(e: ExpansionView)
    requires
        e.fields.len() == 0,
        e.new_struct_fields.len() == 0,
        e.execute_args == seq!["&self"@],
        e.execute_bindings.len() == 0,
    ensures
        render_spec(e) == "#[allow(unused)]\n"@ + e.source + "\npub struct "@ + e.struct_name
            + " {  }\nimpl "@ + e.struct_name + " {\n    pub fn new() -> Self { Self {  } }\n"@
            + execute_keywords(e.is_async) + "&self) -> "@ + e.ret_ty + " { "@ + e.block
            + " }\n}\n"@,
{
    reveal_strlit(" { ");
    reveal_strlit(" }\nimpl ");
    reveal_strlit(" {  }\nimpl ");
    reveal_strlit(" {\n    pub fn new(");
    reveal_strlit(") -> Self { Self { ");
    reveal_strlit(" } }\n");
    reveal_strlit(" {\n    pub fn new() -> Self { Self {  } }\n");
    reveal_strlit("&self");
    reveal_strlit(") -> ");
    reveal_strlit("&self) -> ");
    let none = Seq::<char>::empty();
    assert(join(e.fields, ", "@) == none);
    assert(join(e.new_struct_fields, ", "@) == none);
    assert(join(e.execute_args, ", "@) == "&self"@);
    assert(concat_terminated(e.execute_bindings, " "@) == none);
    let head = "#[allow(unused)]\n"@ + e.source + "\npub struct "@ + e.struct_name;
    assert(head + " { "@ + none + " }\nimpl "@ =~= head + " {  }\nimpl "@);
    let named = head + " {  }\nimpl "@ + e.struct_name;
    assert(named + " {\n    pub fn new("@ + none + ") -> Self { Self { "@ + none + " } }\n"@
        =~= named + " {\n    pub fn new() -> Self { Self {  } }\n"@);
    let opened = named + " {\n    pub fn new() -> Self { Self {  } }\n"@ + execute_keywords(
        e.is_async,
    );
    assert(opened + "&self"@ + ") -> "@ =~= opened + "&self) -> "@);
    let typed = opened + "&self) -> "@ + e.ret_ty + " { "@;
    assert(typed + none + e.block =~= typed + e.block);
}

} // verus!
