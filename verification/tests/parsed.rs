//! Function definitions read with `syn`, expanded, and the text read back.

use quote::ToTokens;
use structify::{structify, ExpandError, FnArg, FnItem, TypeShape, TypedParam};

fn shape(ty: &syn::Type) -> TypeShape {
    match ty {
        syn::Type::Path(path) => TypeShape::Path(
            path.path.segments.iter().map(|segment| segment.ident.to_string()).collect(),
        ),
        _ => TypeShape::Other,
    }
}

fn describe(source: &str) -> FnItem {
    let parsed: syn::ItemFn = syn::parse_str(source).unwrap();
    FnItem {
        source: source.to_string(),
        name: parsed.sig.ident.to_string(),
        is_async: parsed.sig.asyncness.is_some(),
        inputs: parsed
            .sig
            .inputs
            .iter()
            .map(|arg| match arg {
                syn::FnArg::Receiver(_) => FnArg::Receiver,
                syn::FnArg::Typed(typed) => FnArg::Typed(TypedParam {
                    pat: typed.pat.to_token_stream().to_string(),
                    ty: typed.ty.to_token_stream().to_string(),
                    shape: shape(&typed.ty),
                }),
            })
            .collect(),
        output: match &parsed.sig.output {
            syn::ReturnType::Default => None,
            syn::ReturnType::Type(_, ty) => Some(ty.to_token_stream().to_string()),
        },
        block: parsed.block.to_token_stream().to_string(),
    }
}

fn flatten(stream: proc_macro2::TokenStream, out: &mut Vec<String>) {
    for tree in stream {
        match tree {
            proc_macro2::TokenTree::Group(group) => {
                out.push(format!("open {:?}", group.delimiter()));
                flatten(group.stream(), out);
                out.push(format!("close {:?}", group.delimiter()));
            }
            proc_macro2::TokenTree::Ident(ident) => out.push(ident.to_string()),
            proc_macro2::TokenTree::Punct(punct) => out.push(punct.as_char().to_string()),
            proc_macro2::TokenTree::Literal(literal) => out.push(literal.to_string()),
        }
    }
}

/// The tokens of `text`, one by one, whatever the spacing between them.
fn tokens(text: &str) -> Vec<String> {
    let mut out = Vec::new();
    flatten(text.parse::<proc_macro2::TokenStream>().unwrap(), &mut out);
    out
}

#[test]
fn generated_text_is_three_items_after_the_definition() {
    let source = "pub fn charge(amount: u64, ledger: Dep<Ledger>, note: &str) -> Receipt \
                  { ledger.inner().charge(*amount, note) }";
    let text = structify("", &describe(source)).unwrap();
    let file = syn::parse_file(&text).unwrap();
    assert_eq!(file.items.len(), 3);
    match &file.items[0] {
        syn::Item::Fn(function) => {
            assert_eq!(function.sig.ident, "charge");
            assert_eq!(function.attrs.len(), 1);
            assert!(function.attrs[0].path().is_ident("allow"));
            assert_eq!(tokens(&function.block.to_token_stream().to_string()),
                       tokens("{ ledger.inner().charge(*amount, note) }"));
        }
        _ => panic!("the definition comes first"),
    }
    match &file.items[1] {
        syn::Item::Struct(generated) => {
            assert_eq!(generated.ident, "Charge");
            let names: Vec<String> =
                generated.fields.iter().map(|f| f.ident.as_ref().unwrap().to_string()).collect();
            assert_eq!(names, vec!["amount", "note"]);
        }
        _ => panic!("the struct comes second"),
    }
    match &file.items[2] {
        syn::Item::Impl(methods) => {
            assert_eq!(methods.items.len(), 2);
            let signature = |index: usize| match &methods.items[index] {
                syn::ImplItem::Fn(method) => method.sig.clone(),
                _ => panic!("a method"),
            };
            let new = signature(0);
            assert_eq!(new.ident, "new");
            assert_eq!(new.inputs.len(), 2);
            let execute = signature(1);
            assert_eq!(execute.ident, "execute");
            assert!(execute.asyncness.is_none());
            assert_eq!(execute.inputs.len(), 2);
            assert!(matches!(execute.inputs[0], syn::FnArg::Receiver(_)));
            assert_eq!(
                tokens(&execute.inputs[1].to_token_stream().to_string()),
                tokens("ledger: impl Into<Dep<Ledger>>")
            );
            assert_eq!(tokens(&execute.output.to_token_stream().to_string()), tokens("-> Receipt"));
        }
        _ => panic!("the methods come third"),
    }
}

#[test]
fn generated_tokens_for_a_function_with_a_dependency() {
    let source = "fn arg_and_dep_with_return(i: i32, dep: Dep<i32>) -> i32 { *dep.inner() + i }";
    let text = structify("", &describe(source)).unwrap();
    assert_eq!(
        tokens(&text),
        tokens(
            "#[allow(unused)]
             fn arg_and_dep_with_return(i: i32, dep: Dep<i32>) -> i32 { *dep.inner() + i }
             pub struct ArgAndDepWithReturn { i: i32 }
             impl ArgAndDepWithReturn {
                 pub fn new(i: i32) -> Self { Self { i: i } }
                 pub fn execute(&self, dep: impl Into<Dep<i32>>) -> i32 {
                     let i = &self.i;
                     let dep = dep.into();
                     { *dep.inner() + i }
                 }
             }"
        )
    );
}

#[test]
fn asynchronous_definition_read_with_syn() {
    let text = structify("Fetch", &describe("async fn fetch_it(url: String) { drop(url) }"));
    let file = syn::parse_file(&text.unwrap()).unwrap();
    match &file.items[2] {
        syn::Item::Impl(methods) => match &methods.items[1] {
            syn::ImplItem::Fn(execute) => {
                assert!(execute.sig.asyncness.is_some());
                assert_eq!(tokens(&execute.sig.output.to_token_stream().to_string()), tokens("-> ()"));
            }
            _ => panic!("a method"),
        },
        _ => panic!("the methods come third"),
    }
    match &file.items[1] {
        syn::Item::Struct(generated) => assert_eq!(generated.ident, "Fetch"),
        _ => panic!("the struct comes second"),
    }
}

#[test]
fn method_read_with_syn_is_refused() {
    for source in [
        "fn area(&self) -> u32 { 0 }",
        "fn take(self) {}",
        "fn set(&mut self, width: u32) {}",
        "fn boxed(self: Box<Self>, dep: Dep<u8>) {}",
    ] {
        assert_eq!(structify("", &describe(source)), Err(ExpandError::ReceiverNotSupported));
    }
}

#[test]
fn type_that_only_ends_in_the_marker_counts() {
    let item = describe("fn f(a: other::Dep, b: Dep, c: &Dep<u8>, d: (Dep<u8>,), e: Option<Dep<u8>>) {}");
    let injected: Vec<bool> = item
        .inputs
        .iter()
        .map(|arg| match arg {
            FnArg::Typed(typed) => structify::is_dependency_type(&typed.shape),
            FnArg::Receiver => false,
        })
        .collect();
    assert_eq!(injected, vec![true, true, false, false, false]);
}
