//! What holds of every wrapper and of every generator run.

use vstd::prelude::*;
use crate::binding::{in_one_option, verbatim, Body, Output};
use crate::classify::{return_shape, ReturnShape, StructuralError};
use crate::config::{
    faultless, item_fault, lemma_option_names_differ, named_before, settings_of, strategy_named,
    strategy_option, AccessStrategy, ConfigFault, MetaItem, MetaValue, Settings,
};
use crate::descriptor::{comma, describe, has_receiver, state_handle_tokens, Descriptor};
use crate::diagnostic::MethodFault;
use crate::generator::{is_outcome, method_binding, method_faults, Generated};
use crate::interface::{InterfaceBlock, Item, Method, ReturnType};
use crate::tokens::{alone, joined, stream_tokens, thin_arrow, word, Token};

verus! {

/// Whether one sequence of tokens begins with another.
pub open spec fn begins_with(tokens: Seq<Token>, prefix: Seq<Token>) -> bool {
    prefix.len() <= tokens.len() && tokens.subrange(0, prefix.len() as int) == prefix
}

/// A joined sequence begins with its first part.
pub proof fn lemma_joined_begins_with_first(parts: Seq<Seq<Token>>, separator: Seq<Token>)
    requires
        parts.len() > 0,
    ensures
        begins_with(joined(parts, separator), parts[0]),
    decreases parts.len(),
{
    if parts.len() == 1 {
        assert(joined(parts, separator).subrange(0, parts[0].len() as int) == parts[0]);
    } else {
        lemma_joined_begins_with_first(parts.drop_last(), separator);
        let before = joined(parts.drop_last(), separator);
        assert(joined(parts, separator).subrange(0, parts[0].len() as int) == before.subrange(
            0,
            parts[0].len() as int,
        ));
    }
}

/// Where a method needs the state, the first parameter of its wrapper is
/// the state handle, however many parameters the method has of its own,
/// none included.
pub proof fn lemma_state_handle_is_first(descriptor: Descriptor)
    requires
        descriptor.needs_state,
    ensures
        descriptor.parameter_parts().len() == descriptor.typed_params.len() + 1,
        descriptor.parameter_parts()[0] == state_handle_tokens(descriptor.state_name),
        begins_with(descriptor.parameter_tokens(), state_handle_tokens(descriptor.state_name)),
{
    lemma_joined_begins_with_first(descriptor.parameter_parts(), comma());
}

/// The wrapper of a method with a receiver, whatever the configuration and
/// the method's own parameters: its parameter list begins with the state
/// handle, under the configured name.
pub proof fn lemma_receiver_puts_state_first(method: &Method, settings: Settings)
    requires
        has_receiver(method.inputs@),
        method_binding(method, settings) is Ok,
    ensures
        method_binding(method, settings).unwrap().descriptor.needs_state,
        begins_with(
            method_binding(method, settings).unwrap().descriptor.parameter_tokens(),
            state_handle_tokens(settings.state_param_name),
        ),
{
    let descriptor = describe(method, settings.state_param_name);
    lemma_state_handle_is_first(descriptor);
}

/// Under the direct strategy every method whose return type is classified
/// gets a wrapper, and the wrapper's return type is the method's own, as
/// written; the wrapper calls through.
pub proof fn lemma_direct_keeps_return_type(method: &Method, settings: Settings)
    requires
        settings.access_strategy == AccessStrategy::Direct,
        return_shape(&method.output) is Ok,
    ensures
        method_binding(method, settings) is Ok,
        method_binding(method, settings).unwrap().output == verbatim(&method.output),
        method_binding(method, settings).unwrap().body == Body::CallThrough,
        method.output matches ReturnType::Declared(ty) ==> method_binding(
            method,
            settings,
        ).unwrap().output.tokens() == thin_arrow() + stream_tokens(ty.tokens),
        method.output is Absent ==> method_binding(method, settings).unwrap().output.tokens()
            == Seq::<Token>::empty(),
{
}

/// Under the lock strategy a method that returns anything gets no wrapper:
/// the return type is never dropped in silence.
pub proof fn lemma_lock_refuses_return_type(method: &Method, settings: Settings)
    requires
        settings.access_strategy == AccessStrategy::Locked,
        method.output is Declared,
    ensures
        method_binding(method, settings) is Err,
        return_shape(&method.output) is Ok ==> method_binding(method, settings) == Err::<
            crate::binding::BindingView,
            StructuralError,
        >(StructuralError::LockWithReturnType),
{
}

/// Under the strategy that turns the lock's result into an option, every
/// method whose return type is classified gets a wrapper, and the wrapper
/// returns exactly one layer of option: around the value, the referent or
/// the unit; and for a reference to an option, around what that option
/// holds, the option being forwarded and not wrapped again.
pub proof fn lemma_one_layer_of_option(method: &Method, settings: Settings)
    requires
        settings.access_strategy == AccessStrategy::LockedToOptional,
        return_shape(&method.output) is Ok,
    ensures
        method_binding(method, settings) is Ok,
        method_binding(method, settings).unwrap().output == in_one_option(
            return_shape(&method.output).unwrap(),
        ),
        return_shape(&method.output).unwrap() matches ReturnShape::Optional(inner) ==> {
            &&& method_binding(method, settings).unwrap().body == Body::LockAndForward
            &&& method_binding(method, settings).unwrap().output == Output::Optional(inner)
            &&& method_binding(method, settings).unwrap().output.tokens() == thin_arrow()
                + seq![word("Option"), alone('<')] + stream_tokens(inner.tokens) + seq![
                alone('>'),
            ]
        },
        return_shape(&method.output).unwrap() matches ReturnShape::Reference(referent) ==> {
            &&& method_binding(method, settings).unwrap().body == Body::LockAndWrap
            &&& method_binding(method, settings).unwrap().output == Output::Optional(referent)
            &&& method_binding(method, settings).unwrap().output.tokens() == thin_arrow()
                + seq![word("Option"), alone('<')] + stream_tokens(referent.tokens) + seq![
                alone('>'),
            ]
        },
{
}

/// Two runs on the same argument list and the same interface block end
/// alike: in the same fault, or in fragments that agree token for token and
/// in the same list of methods without a wrapper.
pub proof fn lemma_same_input_same_outcome(
    arguments: Seq<MetaItem>,
    input: &InterfaceBlock,
    first: Result<Generated, ConfigFault>,
    second: Result<Generated, ConfigFault>,
)
    requires
        is_outcome(arguments, input, first),
        is_outcome(arguments, input, second),
    ensures
        first is Ok <==> second is Ok,
        first is Err ==> first->Err_0 == second->Err_0,
        first is Ok ==> stream_tokens(first->Ok_0.tokens) == stream_tokens(second->Ok_0.tokens)
            && first->Ok_0.faults@ == second->Ok_0.faults@,
{
}

/// No method without a wrapper where no method is exposed.
pub proof fn lemma_no_marker_no_fault(items: Seq<Item>, settings: Settings)
    requires
        forall|i: int| 0 <= i < items.len() ==> !(#[trigger] items[i]).is_exposed(),
    ensures
        method_faults(items, settings) == Seq::<MethodFault>::empty(),
    decreases items.len(),
{
    if items.len() > 0 {
        lemma_no_marker_no_fault(items.drop_last(), settings);
    }
}

/// A run on an interface block without an exposed method, under a faultless
/// argument list, fails on nothing and yields the empty fragment.
pub proof fn lemma_nothing_exposed_nothing_generated(
    arguments: Seq<MetaItem>,
    input: &InterfaceBlock,
    outcome: Result<Generated, ConfigFault>,
)
    requires
        faultless(arguments),
        !input.has_exposed(),
        is_outcome(arguments, input, outcome),
    ensures
        outcome is Ok,
        stream_tokens(outcome->Ok_0.tokens) == Seq::<Token>::empty(),
        outcome->Ok_0.faults@ == Seq::<MethodFault>::empty(),
{
    lemma_no_marker_no_fault(input.items@, settings_of(arguments));
}

/// An access strategy that no name stands for is a fault of the argument
/// list, and the fault names the argument: the run ends in that error, or
/// in an earlier one.
pub proof fn lemma_unknown_strategy_is_a_fault(
    arguments: Seq<MetaItem>,
    index: int,
    outcome: Result<Generated, ConfigFault>,
    input: &InterfaceBlock,
)
    requires
        0 <= index < arguments.len(),
        arguments[index] matches MetaItem::Named { name, value: MetaValue::Str(text) }
            && name@ == strategy_option() && strategy_named(text@) is None,
        is_outcome(arguments, input, outcome),
    ensures
        !faultless(arguments),
        outcome is Err,
        outcome->Err_0.index <= index,
        outcome->Err_0.index == index && !named_before(arguments, index, strategy_option())
            ==> outcome->Err_0.error is UnknownStrategy && outcome->Err_0.error.argument_name()
            == Some(strategy_option()),
{
    lemma_option_names_differ();
    assert(item_fault(arguments, index) is Some);
}

} // verus!
