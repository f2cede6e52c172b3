//! The inputs that a user can choose from.

use crate::domain::{mccs_name, DisplayInput};
use crate::locale::{input_name, localized_input_name, UiLocale};
use crate::settings::AppSettings;
use vstd::prelude::*;

verus! {

/// An input to choose, with its name.
#[derive(Clone, Debug, PartialEq, Eq)]
pub struct InputOption {
    pub value: u32,
    pub name: String,
}

/// The inputs that are offered for a display that does not say which it has: those that MCCS
/// names, in order, and the usual value of USB-C.
pub open spec fn common_inputs() -> Seq<DisplayInput> {
    Seq::new(
        19,
        |i: int|
            DisplayInput {
                code: if i < 18 {
                    (i + 1) as u32
                } else {
                    0x1b
                },
            },
    )
}

/// The inputs that are offered for a display that does not say which it has.
pub fn common_input_sources() -> (inputs: Vec<DisplayInput>)
    ensures
        inputs@ == common_inputs(),
{
    let mut inputs: Vec<DisplayInput> = Vec::new();
    let mut value: u32 = 1;
    while value <= 0x12
        invariant
            1 <= value <= 0x13,
            inputs@ == common_inputs().take(value - 1),
        decreases 0x13 - value,
    {
        if let Ok(input) = DisplayInput::new(value) {
            if input.standard_name().is_some() {
                inputs.push(input);
            }
        }
        assert(common_inputs().take(value as int) == common_inputs().take(value - 1).push(
            common_inputs()[value - 1],
        ));
        value += 1;
    }
    if let Ok(input) = DisplayInput::new(0x1b) {
        inputs.push(input);
    }
    inputs
}

/// The inputs that are offered: those that the display says it has, if it names any.
pub open spec fn offered_inputs(settings: AppSettings) -> Seq<DisplayInput> {
    match settings.supported_inputs {
        Some(inputs) => if inputs@.len() > 0 {
            inputs@
        } else {
            common_inputs()
        },
        None => common_inputs(),
    }
}

/// Lists the inputs that are offered, with their names.
pub fn get_input_options(locale: UiLocale, settings: &AppSettings) -> (options: Vec<InputOption>)
    ensures
        options@.len() == offered_inputs(*settings).len(),
        forall|i: int|
            0 <= i < options@.len() ==> {
                &&& (#[trigger] options@[i]).value == offered_inputs(*settings)[i].code
                &&& options@[i].name@ == input_name(locale, options@[i].value)
            },
{
    let common = common_input_sources();
    let inputs: &Vec<DisplayInput> = match &settings.supported_inputs {
        Some(supported) => if supported.len() > 0 {
            supported
        } else {
            &common
        },
        None => &common,
    };
    let mut options: Vec<InputOption> = Vec::new();
    let mut i: usize = 0;
    while i < inputs.len()
        invariant
            i <= inputs@.len(),
            options@.len() == i,
            forall|k: int|
                0 <= k < i ==> {
                    &&& (#[trigger] options@[k]).value == inputs@[k].code
                    &&& options@[k].name@ == input_name(locale, options@[k].value)
                },
        decreases inputs@.len() - i,
    {
        let input = inputs[i];
        options.push(
            InputOption { value: input.value(), name: localized_input_name(locale, input) },
        );
        i += 1;
    }
    options
}

/// Every input that is offered by default can be selected, and none is offered twice.
pub proof fn common_inputs_are_valid_and_distinct()
    ensures
        forall|i: int| 0 <= i < common_inputs().len() ==> (#[trigger] common_inputs()[i]).valid(),
        common_inputs().no_duplicates(),
        forall|value: u32|
            (#[trigger] mccs_name(value)) is Some ==> common_inputs().contains(
                DisplayInput { code: value },
            ),
{
    assert forall|value: u32| (#[trigger] mccs_name(value)) is Some implies common_inputs().contains(
        DisplayInput { code: value },
    ) by {
        assert(1 <= value <= 18);
        assert(common_inputs()[value - 1] == DisplayInput { code: value });
    }
}

} // verus!
