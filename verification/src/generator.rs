//! The generator: from an argument list and an interface block to the
//! wrappers of the exposed methods.

use vstd::prelude::*;
use proc_macro2::TokenStream;
use crate::binding::{synthesize, synthesized, Binding, BindingView};
use crate::classify::{classify_return, return_shape, StructuralError};
use crate::config::{
    faultless, is_first_fault, settings_of, ConfigFault, GeneratorConfig, MetaItem, Settings,
};
use crate::descriptor::{describe, Descriptor, FunctionData};
use crate::ident::Ident;
use crate::diagnostic::{Diagnostic, MethodFault};
use crate::interface::{InterfaceBlock, Item, Method};
use crate::tokens::{new_stream, push_stream, stream_tokens, Token};

verus! {

/// What a generator run hands back.
#[derive(Debug)]
pub struct Generated {
    /// The generated fragment: the interface block as written, then the
    /// wrappers; nothing at all where no method is exposed.
    pub tokens: TokenStream,
    /// The exposed methods that got no wrapper, in declaration order.
    pub faults: Vec<MethodFault>,
}

/// The wrapper of a method under a configuration: the method is described,
/// its return type classified, and the wrapper synthesized from both.
pub open spec fn method_binding<'a>(method: &'a Method, settings: Settings) -> Result<
    BindingView<'a>,
    StructuralError,
> {
    match return_shape(&method.output) {
        Ok(shape) => synthesized(describe(method, settings.state_param_name), settings, shape),
        Err(reason) => Err(reason),
    }
}

/// The tokens that an item adds to the fragment: the wrapper of an exposed
/// method that has one, else nothing.
pub open spec fn item_tokens(item: &Item, settings: Settings) -> Seq<Token> {
    match item {
        Item::Method(method) => if method.is_exposed() {
            match method_binding(method, settings) {
                Ok(binding) => binding.tokens(),
                Err(_) => Seq::empty(),
            }
        } else {
            Seq::empty()
        },
        Item::Other => Seq::empty(),
    }
}

/// The reason why the item at an index is an exposed method without a
/// wrapper, if it is one.
pub open spec fn item_failure(item: &Item, settings: Settings) -> Option<StructuralError> {
    match item {
        Item::Method(method) => if method.is_exposed() {
            match method_binding(method, settings) {
                Ok(_) => None,
                Err(reason) => Some(reason),
            }
        } else {
            None
        },
        Item::Other => None,
    }
}

/// The wrappers of the exposed methods, in declaration order.
pub open spec fn wrappers_tokens(items: Seq<Item>, settings: Settings) -> Seq<Token>
    decreases items.len(),
{
    if items.len() == 0 {
        Seq::empty()
    } else {
        wrappers_tokens(items.drop_last(), settings) + item_tokens(&items.last(), settings)
    }
}

/// The exposed methods without a wrapper, in declaration order.
pub open spec fn method_faults(items: Seq<Item>, settings: Settings) -> Seq<MethodFault>
    decreases items.len(),
{
    if items.len() == 0 {
        Seq::empty()
    } else {
        let before = method_faults(items.drop_last(), settings);
        match item_failure(&items.last(), settings) {
            Some(reason) => before.push(
                MethodFault { index: (items.len() - 1) as usize, error: reason },
            ),
            None => before,
        }
    }
}

/// The generated fragment: where a method is exposed, the interface block
/// as written and then the wrappers; else nothing.
pub open spec fn fragment_tokens(input: &InterfaceBlock, settings: Settings) -> Seq<Token> {
    if input.has_exposed() {
        stream_tokens(input.tokens) + wrappers_tokens(input.items@, settings)
    } else {
        Seq::empty()
    }
}

/// Whether an outcome is what the generator owes for an argument list and
/// an interface block: the first fault of the argument list where it has
/// one; else the fragment and the methods without a wrapper, under the
/// configuration that the arguments resolve to.
pub open spec fn is_outcome(
    arguments: Seq<MetaItem>,
    input: &InterfaceBlock,
    outcome: Result<Generated, ConfigFault>,
) -> bool {
    match outcome {
        Err(fault) => is_first_fault(arguments, fault),
        Ok(generated) => {
            &&& faultless(arguments)
            &&& stream_tokens(generated.tokens) == fragment_tokens(input, settings_of(arguments))
            &&& generated.faults@ == method_faults(input.items@, settings_of(arguments))
        },
    }
}

/// The descriptors of a sequence of descriptors, each as a value.
pub open spec fn descriptor_views<'a>(descriptors: Seq<FunctionData<'a>>) -> Seq<Descriptor<'a>> {
    Seq::new(descriptors.len(), |i: int| descriptors[i]@)
}

/// The descriptors of the methods that carry the exposure marker, in
/// declaration order.
pub open spec fn exposed_descriptors<'a>(items: Seq<Item>, state_name: Seq<char>) -> Seq<
    Descriptor<'a>,
>
    decreases items.len(),
{
    if items.len() == 0 {
        Seq::empty()
    } else {
        let before = exposed_descriptors(items.drop_last(), state_name);
        match items.last() {
            Item::Method(method) => if method.is_exposed() {
                before.push(describe(&method, state_name))
            } else {
                before
            },
            Item::Other => before,
        }
    }
}

/// Walks an interface block and describes each method that carries the
/// exposure marker, in declaration order. Nothing in the block is changed.
pub fn extract<'a>(input: &'a InterfaceBlock, state: &'a Ident) -> (descriptors: Vec<
    FunctionData<'a>,
>)
    ensures
        descriptor_views(descriptors@) == exposed_descriptors(input.items@, state@),
{
    let mut descriptors: Vec<FunctionData<'a>> = Vec::new();
    let mut i: usize = 0;
    while i < input.items.len()
        invariant
            i <= input.items@.len(),
            descriptor_views(descriptors@) == exposed_descriptors(
                input.items@.take(i as int),
                state@,
            ),
        decreases input.items@.len() - i,
    {
        proof {
            assert(input.items@.take(i + 1).drop_last() == input.items@.take(i as int));
        }
        match &input.items[i] {
            Item::Method(method) => {
                if method.exposed() {
                    descriptors.push(FunctionData::from_method(method, state));
                }
            },
            Item::Other => {},
        }
        i += 1;
    }
    proof {
        assert(input.items@.take(input.items@.len() as int) == input.items@);
    }
    descriptors
}

/// The wrapper of one method under a configuration, or the reason why it
/// gets none.
pub fn bind_method<'a>(method: &'a Method, config: &'a GeneratorConfig) -> (binding: Result<
    Binding<'a>,
    StructuralError,
>)
    ensures
        binding matches Ok(made) ==> method_binding(method, config@) == Ok::<
            BindingView<'a>,
            StructuralError,
        >(made@),
        binding matches Err(reason) ==> method_binding(method, config@) == Err::<
            BindingView<'a>,
            StructuralError,
        >(reason),
{
    match classify_return(&method.output) {
        Ok(shape) => {
            let descriptor = FunctionData::from_method(method, &config.state_param_name);
            synthesize(descriptor, config, shape)
        },
        Err(reason) => Err(reason),
    }
}

/// Generates the wrappers for an interface block.
///
/// The argument list is read first, and its first fault ends the run before
/// anything is generated. Then each method that carries the exposure marker
/// gets its wrapper, in declaration order; a method whose return type or
/// access strategy allows none is listed among the faults, and the others
/// are generated all the same. The fragment is the interface block as
/// written followed by the wrappers; where no method is exposed it is empty.
pub fn contains_tauri_commands(arguments: &Vec<MetaItem>, input: &InterfaceBlock) -> (outcome:
    Result<Generated, ConfigFault>)
    ensures
        is_outcome(arguments@, input, outcome),
{
    let config = match GeneratorConfig::from_arguments(arguments) {
        Ok(config) => config,
        Err(fault) => {
            return Err(fault);
        },
    };
    let mut wrappers = new_stream();
    let mut faults: Vec<MethodFault> = Vec::new();
    let mut any_exposed = false;
    let mut i: usize = 0;
    while i < input.items.len()
        invariant
            i <= input.items@.len(),
            config@ == settings_of(arguments@),
            stream_tokens(wrappers) == wrappers_tokens(input.items@.take(i as int), config@),
            faults@ == method_faults(input.items@.take(i as int), config@),
            any_exposed <==> exists|k: int|
                0 <= k < i && (#[trigger] input.items@[k]).is_exposed(),
        decreases input.items@.len() - i,
    {
        proof {
            assert(input.items@.take(i + 1).drop_last() == input.items@.take(i as int));
        }
        match &input.items[i] {
            Item::Method(method) => {
                if method.exposed() {
                    any_exposed = true;
                    match bind_method(method, &config) {
                        Ok(binding) => {
                            binding.to_tokens(&mut wrappers);
                        },
                        Err(reason) => {
                            faults.push(MethodFault { index: i, error: reason });
                        },
                    }
                }
            },
            Item::Other => {},
        }
        i += 1;
    }
    proof {
        assert(input.items@.take(input.items@.len() as int) == input.items@);
    }
    let mut tokens = new_stream();
    if any_exposed {
        push_stream(&mut tokens, &input.tokens);
        push_stream(&mut tokens, &wrappers);
    }
    Ok(Generated { tokens, faults })
}

/// The marker that exposes a method: as an attribute of its own it changes
/// nothing, and the method is handed back as written.
pub fn with_tauri_command(_arguments: TokenStream, input: TokenStream) -> (output: TokenStream)
    ensures
        output == input,
{
    input
}

impl Generated {
    /// The methods without a wrapper as diagnostics, in declaration order:
    /// of each the error's message, at the method.
    pub fn diagnostics(&self) -> (list: Vec<Diagnostic>)
        ensures
            list@.len() == self.faults@.len(),
            forall|i: int|
                0 <= i < list@.len() ==> (#[trigger] list@[i]).message@
                    == self.faults@[i].error.text() && list@[i].location
                    == crate::diagnostic::Location::Item(self.faults@[i].index),
    {
        let mut list: Vec<Diagnostic> = Vec::new();
        let mut i: usize = 0;
        while i < self.faults.len()
            invariant
                i <= self.faults@.len(),
                list@.len() == i,
                forall|k: int|
                    0 <= k < i ==> (#[trigger] list@[k]).message@ == self.faults@[k].error.text()
                        && list@[k].location == crate::diagnostic::Location::Item(
                        self.faults@[k].index,
                    ),
            decreases self.faults@.len() - i,
        {
            list.push(self.faults[i].report());
            i += 1;
        }
        list
    }
}

} // verus!
