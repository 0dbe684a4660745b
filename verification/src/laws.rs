//! Laws of the machine model: the threshold values the fixed recipe
//! table induces, idempotence of state derivation, preservation of the
//! deposit bounds, and the agreement between the action menu and
//! dispatch.

use vstd::prelude::*;

use crate::actions::BrewAction;
use crate::actions::MaintenanceAction;
use crate::actions::lemma_brew_label_round_trip;
use crate::actions::lemma_maintenance_label_round_trip;
use crate::machine::BrewConsumption;
use crate::machine::CoffeeMachine;
use crate::machine::State;

verus! {

/// With the standard recipe table, the most demanding recipe draws 9
/// grams of coffee (espresso) and 75 centiliters of water (hot water).
pub proof fn lemma_max_requirements(machine: CoffeeMachine)
    requires
        machine.has_standard_configuration(),
    ensures
        machine.spec_max_required_coffee() == 9,
        machine.spec_max_required_water() == 75,
{
}

/// With the standard configuration, and whatever the loads: the coffee
/// deposit is empty exactly below 9, the water deposit exactly below 75,
/// and the waste dump is full exactly from 41 on (the dump reserves
/// headroom for the worst-case grounds one more brew could add).
pub proof fn lemma_threshold_boundaries(machine: CoffeeMachine)
    requires
        machine.has_standard_configuration(),
    ensures
        machine.spec_coffee_deposit_empty() <==> machine.coffee_deposit.current_load < 9,
        machine.spec_water_deposit_empty() <==> machine.water_deposit.current_load < 75,
        machine.spec_waste_dump_full() <==> machine.waste_dump.current_load >= 41,
{
}

/// Deriving the state is idempotent: deriving once more, with no
/// mutation in between, yields the same state, because derivation reads
/// only the loads and recipes and never the stored state.
pub proof fn lemma_derive_state_idempotent(machine: CoffeeMachine)
    ensures
        machine.with_state(machine.spec_derived_state()).spec_derived_state()
            == machine.spec_derived_state(),
{
}

/// Every operation keeps each deposit within its bounds: the fills, the
/// emptying, and any brew the deposits can support all preserve
/// well-formedness.
pub proof fn lemma_operations_preserve_wf(machine: CoffeeMachine)
    requires
        machine.wf(),
    ensures
        machine.spec_fill_water_deposit().wf(),
        machine.spec_fill_coffee_deposit().wf(),
        machine.spec_empty_waste_dump().wf(),
        forall|consumption: BrewConsumption|
            machine.spec_can_brew(consumption) ==> (#[trigger] machine.spec_brew(
                consumption,
            )).wf(),
{
}

/// A ready machine can support every recipe of its table: readiness is
/// judged against the most demanding recipe, so choosing any recipe
/// never trips a deposit bound.
pub proof fn lemma_ready_machine_can_brew(machine: CoffeeMachine)
    requires
        machine.wf(),
        machine.spec_derived_state() == State::Ready,
    ensures
        machine.spec_can_brew(machine.expresso_coffee_consumption),
        machine.spec_can_brew(machine.american_coffee_consumption),
        machine.spec_can_brew(machine.hot_water_consumption),
{
}

/// The menu and dispatch agree: every label the menu offers for the
/// machine's current state is accepted when submitted.
pub proof fn lemma_menu_labels_accepted(machine: CoffeeMachine, i: int)
    requires
        0 <= i < CoffeeMachine::spec_available_actions(machine.current_state).len(),
    ensures
        machine.spec_submit_action(
            CoffeeMachine::spec_available_actions(machine.current_state)[i],
        ) is Ok,
{
    match machine.current_state {
        State::Ready => {
            lemma_brew_label_round_trip(BrewAction::ExpressoCoffee);
            lemma_brew_label_round_trip(BrewAction::AmericanCoffee);
            lemma_brew_label_round_trip(BrewAction::HotWater);
        },
        State::ActionRequired => {
            lemma_maintenance_label_round_trip(MaintenanceAction::FillWater);
            lemma_maintenance_label_round_trip(MaintenanceAction::FillCoffee);
            lemma_maintenance_label_round_trip(MaintenanceAction::EmptyDump);
        },
    }
}

} // verus!
