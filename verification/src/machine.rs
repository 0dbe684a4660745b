//! The coffee machine itself: deposits, recipes, thresholds, state
//! derivation, and the maintenance and brew operations.

use vstd::prelude::*;

use crate::actions::BrewAction;
use crate::actions::InvalidAction;
use crate::actions::MaintenanceAction;
use crate::actions::parse_brew_action;
use crate::actions::parse_maintenance_action;
use crate::actions::spec_parse_brew_action;
use crate::actions::spec_parse_maintenance_action;

verus! {

/// Capacity of the coffee-grounds deposit, in grams.
pub const COFFEE_DEPOSIT_MAX_LOAD: u8 = 100;

/// Capacity of the water deposit, in centiliters.
pub const WATER_DEPOSIT_MAX_LOAD: u8 = 255;

/// Capacity of the waste dump, in grams.
pub const WASTE_DUMP_MAX_LOAD: u8 = 50;

/// Readiness of the machine: brewing is permitted exactly in `Ready`;
/// `ActionRequired` means a maintenance action must happen first.
#[derive(Debug, Clone, Copy, PartialEq, Eq, Structural)]
pub enum State {
    Ready,
    ActionRequired,
}

/// A bounded counter: a reservoir of a consumable, or the waste sink.
#[derive(Debug, Clone, Copy, PartialEq, Eq, Structural)]
pub struct Deposit {
    pub current_load: u8,
    pub max_load: u8,
}

/// How much one brew of a recipe draws from the coffee and water
/// deposits; the coffee amount also lands in the waste dump.
#[derive(Debug, Clone, Copy, PartialEq, Eq, Structural)]
pub struct BrewConsumption {
    pub coffee: u8,
    pub water: u8,
}

/// The machine: three deposits, the fixed recipe table, and the derived
/// readiness state.
#[derive(Debug, Clone, Copy, PartialEq, Eq, Structural)]
pub struct CoffeeMachine {
    pub coffee_deposit: Deposit,
    pub water_deposit: Deposit,
    pub waste_dump: Deposit,
    pub expresso_coffee_consumption: BrewConsumption,
    pub american_coffee_consumption: BrewConsumption,
    pub hot_water_consumption: BrewConsumption,
    pub current_state: State,
}

impl CoffeeMachine {
    /// The machine a fresh construction yields: all deposits at load
    /// zero with their fixed capacities, the fixed recipe table, and
    /// state `ActionRequired`.
    pub open spec fn spec_new() -> CoffeeMachine {
        CoffeeMachine {
            coffee_deposit: Deposit { current_load: 0, max_load: COFFEE_DEPOSIT_MAX_LOAD },
            water_deposit: Deposit { current_load: 0, max_load: WATER_DEPOSIT_MAX_LOAD },
            waste_dump: Deposit { current_load: 0, max_load: WASTE_DUMP_MAX_LOAD },
            expresso_coffee_consumption: BrewConsumption { coffee: 9, water: 40 },
            american_coffee_consumption: BrewConsumption { coffee: 7, water: 60 },
            hot_water_consumption: BrewConsumption { coffee: 0, water: 75 },
            current_state: State::ActionRequired,
        }
    }

    /// The largest of the two given amounts.
    pub open spec fn max_amount(a: u8, b: u8) -> u8 {
        if a >= b {
            a
        } else {
            b
        }
    }

    /// The largest coffee amount any recipe draws; deposit emptiness is
    /// judged against the most demanding recipe.
    pub open spec fn spec_max_required_coffee(self) -> u8 {
        Self::max_amount(
            Self::max_amount(
                self.expresso_coffee_consumption.coffee,
                self.american_coffee_consumption.coffee,
            ),
            self.hot_water_consumption.coffee,
        )
    }

    /// The largest water amount any recipe draws.
    pub open spec fn spec_max_required_water(self) -> u8 {
        Self::max_amount(
            Self::max_amount(
                self.expresso_coffee_consumption.water,
                self.american_coffee_consumption.water,
            ),
            self.hot_water_consumption.water,
        )
    }

    /// The coffee deposit counts as empty when it cannot satisfy the
    /// most demanding recipe.
    pub open spec fn spec_coffee_deposit_empty(self) -> bool {
        self.coffee_deposit.current_load < self.spec_max_required_coffee()
    }

    /// The water deposit counts as empty when it cannot satisfy the
    /// most demanding recipe.
    pub open spec fn spec_water_deposit_empty(self) -> bool {
        self.water_deposit.current_load < self.spec_max_required_water()
    }

    /// The waste dump counts as full as soon as the headroom left is no
    /// more than what the worst-case brew could add: a dump with exactly
    /// `max_load - max_required_coffee` grams in it is already full.
    pub open spec fn spec_waste_dump_full(self) -> bool {
        self.waste_dump.current_load >= self.waste_dump.max_load - self.spec_max_required_coffee()
    }

    /// The fixed capacities and recipe table a fresh machine carries;
    /// the loads and the stored state are unconstrained.
    pub open spec fn has_standard_configuration(self) -> bool {
        &&& self.coffee_deposit.max_load == COFFEE_DEPOSIT_MAX_LOAD
        &&& self.water_deposit.max_load == WATER_DEPOSIT_MAX_LOAD
        &&& self.waste_dump.max_load == WASTE_DUMP_MAX_LOAD
        &&& self.expresso_coffee_consumption == (BrewConsumption { coffee: 9, water: 40 })
        &&& self.american_coffee_consumption == (BrewConsumption { coffee: 7, water: 60 })
        &&& self.hot_water_consumption == (BrewConsumption { coffee: 0, water: 75 })
    }

    /// Deposits never exceed their capacity, and the waste dump is large
    /// enough to hold the worst-case grounds of one brew.
    pub open spec fn wf(self) -> bool {
        &&& self.coffee_deposit.current_load <= self.coffee_deposit.max_load
        &&& self.water_deposit.current_load <= self.water_deposit.max_load
        &&& self.waste_dump.current_load <= self.waste_dump.max_load
        &&& self.spec_max_required_coffee() <= self.waste_dump.max_load
    }

    /// The readiness the deposit loads dictate: `ActionRequired` as soon
    /// as any deposit is empty or the waste dump is full, else `Ready`.
    /// It depends on the loads and recipes alone, never on the stored
    /// state.
    pub open spec fn spec_derived_state(self) -> State {
        if self.spec_coffee_deposit_empty() || self.spec_water_deposit_empty()
            || self.spec_waste_dump_full() {
            State::ActionRequired
        } else {
            State::Ready
        }
    }

    /// The stored state agrees with the loads it was derived from.
    pub open spec fn state_in_sync(self) -> bool {
        self.current_state == self.spec_derived_state()
    }

    /// This machine with its stored state replaced.
    pub open spec fn with_state(self, state: State) -> CoffeeMachine {
        CoffeeMachine { current_state: state, ..self }
    }

    /// The machine after filling the water deposit to its capacity and
    /// re-deriving the state.
    pub open spec fn spec_fill_water_deposit(self) -> CoffeeMachine {
        let filled = CoffeeMachine {
            water_deposit: Deposit {
                current_load: self.water_deposit.max_load,
                max_load: self.water_deposit.max_load,
            },
            ..self
        };
        filled.with_state(filled.spec_derived_state())
    }

    /// The machine after filling the coffee deposit to its capacity and
    /// re-deriving the state.
    pub open spec fn spec_fill_coffee_deposit(self) -> CoffeeMachine {
        let filled = CoffeeMachine {
            coffee_deposit: Deposit {
                current_load: self.coffee_deposit.max_load,
                max_load: self.coffee_deposit.max_load,
            },
            ..self
        };
        filled.with_state(filled.spec_derived_state())
    }

    /// The machine after emptying the waste dump and re-deriving the
    /// state.
    pub open spec fn spec_empty_waste_dump(self) -> CoffeeMachine {
        let emptied = CoffeeMachine {
            waste_dump: Deposit { current_load: 0, max_load: self.waste_dump.max_load },
            ..self
        };
        emptied.with_state(emptied.spec_derived_state())
    }

    /// Whether the deposits can support one brew of the given recipe
    /// without driving any counter outside its bounds.
    pub open spec fn spec_can_brew(self, consumption: BrewConsumption) -> bool {
        &&& consumption.coffee <= self.coffee_deposit.current_load
        &&& consumption.water <= self.water_deposit.current_load
        &&& self.waste_dump.current_load + consumption.coffee <= self.waste_dump.max_load
    }

    /// The machine after one brew of the given recipe: the recipe's
    /// amounts leave the coffee and water deposits, the coffee amount
    /// lands in the waste dump, and the state is re-derived.
    pub open spec fn spec_brew(self, consumption: BrewConsumption) -> CoffeeMachine {
        let brewed = CoffeeMachine {
            coffee_deposit: Deposit {
                current_load: (self.coffee_deposit.current_load - consumption.coffee) as u8,
                max_load: self.coffee_deposit.max_load,
            },
            water_deposit: Deposit {
                current_load: (self.water_deposit.current_load - consumption.water) as u8,
                max_load: self.water_deposit.max_load,
            },
            waste_dump: Deposit {
                current_load: (self.waste_dump.current_load + consumption.coffee) as u8,
                max_load: self.waste_dump.max_load,
            },
            ..self
        };
        brewed.with_state(brewed.spec_derived_state())
    }

    /// A fresh machine: every deposit at load zero, so both emptiness
    /// checks fire and the machine starts in `ActionRequired`.
    pub fn new() -> (machine: CoffeeMachine)
        ensures
            machine == CoffeeMachine::spec_new(),
            machine.wf(),
            machine.state_in_sync(),
            machine.current_state == State::ActionRequired,
    {
        CoffeeMachine {
            coffee_deposit: Deposit { current_load: 0, max_load: COFFEE_DEPOSIT_MAX_LOAD },
            water_deposit: Deposit { current_load: 0, max_load: WATER_DEPOSIT_MAX_LOAD },
            waste_dump: Deposit { current_load: 0, max_load: WASTE_DUMP_MAX_LOAD },
            expresso_coffee_consumption: BrewConsumption { coffee: 9, water: 40 },
            american_coffee_consumption: BrewConsumption { coffee: 7, water: 60 },
            hot_water_consumption: BrewConsumption { coffee: 0, water: 75 },
            current_state: State::ActionRequired,
        }
    }

    /// The largest coffee amount across the three recipes.
    pub fn calculate_max_required_coffee(&self) -> (amount: u8)
        ensures
            amount == self.spec_max_required_coffee(),
    {
        let mut amount = self.expresso_coffee_consumption.coffee;
        if self.american_coffee_consumption.coffee > amount {
            amount = self.american_coffee_consumption.coffee;
        }
        if self.hot_water_consumption.coffee > amount {
            amount = self.hot_water_consumption.coffee;
        }
        amount
    }

    /// The largest water amount across the three recipes.
    pub fn calculate_max_required_water(&self) -> (amount: u8)
        ensures
            amount == self.spec_max_required_water(),
    {
        let mut amount = self.expresso_coffee_consumption.water;
        if self.american_coffee_consumption.water > amount {
            amount = self.american_coffee_consumption.water;
        }
        if self.hot_water_consumption.water > amount {
            amount = self.hot_water_consumption.water;
        }
        amount
    }

    pub fn is_coffe_deposit_empty(&self) -> (empty: bool)
        ensures
            empty == self.spec_coffee_deposit_empty(),
    {
        self.coffee_deposit.current_load < self.calculate_max_required_coffee()
    }

    pub fn is_water_deposit_empty(&self) -> (empty: bool)
        ensures
            empty == self.spec_water_deposit_empty(),
    {
        self.water_deposit.current_load < self.calculate_max_required_water()
    }

    pub fn is_waste_dump_full(&self) -> (full: bool)
        requires
            self.spec_max_required_coffee() <= self.waste_dump.max_load,
        ensures
            full == self.spec_waste_dump_full(),
    {
        self.waste_dump.current_load
            >= self.waste_dump.max_load - self.calculate_max_required_coffee()
    }

    /// Recomputes the stored state from the deposit loads; nothing else
    /// changes. This is the single place the state is assigned.
    pub fn check_state(&mut self)
        requires
            old(self).spec_max_required_coffee() <= old(self).waste_dump.max_load,
        ensures
            *final(self) == old(self).with_state(old(self).spec_derived_state()),
            final(self).state_in_sync(),
    {
        self.current_state = if self.is_coffe_deposit_empty() || self.is_water_deposit_empty()
            || self.is_waste_dump_full() {
            State::ActionRequired
        } else {
            State::Ready
        };
    }

    /// Sets the water deposit to its capacity, then re-derives the state.
    pub fn fill_water_deposit(&mut self)
        requires
            old(self).spec_max_required_coffee() <= old(self).waste_dump.max_load,
        ensures
            *final(self) == old(self).spec_fill_water_deposit(),
            final(self).state_in_sync(),
    {
        self.water_deposit.current_load = self.water_deposit.max_load;
        self.check_state();
    }

    /// Sets the coffee deposit to its capacity, then re-derives the
    /// state.
    pub fn fill_coffee_deposit(&mut self)
        requires
            old(self).spec_max_required_coffee() <= old(self).waste_dump.max_load,
        ensures
            *final(self) == old(self).spec_fill_coffee_deposit(),
            final(self).state_in_sync(),
    {
        self.coffee_deposit.current_load = self.coffee_deposit.max_load;
        self.check_state();
    }

    /// Empties the waste dump, then re-derives the state.
    pub fn empty_waste_dump(&mut self)
        requires
            old(self).spec_max_required_coffee() <= old(self).waste_dump.max_load,
        ensures
            *final(self) == old(self).spec_empty_waste_dump(),
            final(self).state_in_sync(),
    {
        self.waste_dump.current_load = 0;
        self.check_state();
    }

    /// Brews one espresso: draws its recipe's amounts and adds the
    /// grounds to the waste dump, then re-derives the state.
    pub fn brew_expresso_coffee(&mut self)
        requires
            old(self).spec_can_brew(old(self).expresso_coffee_consumption),
            old(self).spec_max_required_coffee() <= old(self).waste_dump.max_load,
        ensures
            *final(self) == old(self).spec_brew(old(self).expresso_coffee_consumption),
            final(self).state_in_sync(),
    {
        self.coffee_deposit.current_load -= self.expresso_coffee_consumption.coffee;
        self.water_deposit.current_load -= self.expresso_coffee_consumption.water;
        self.waste_dump.current_load += self.expresso_coffee_consumption.coffee;
        self.check_state();
    }

    /// Brews one American coffee: draws its recipe's amounts and adds
    /// the grounds to the waste dump, then re-derives the state.
    pub fn brew_american_coffee(&mut self)
        requires
            old(self).spec_can_brew(old(self).american_coffee_consumption),
            old(self).spec_max_required_coffee() <= old(self).waste_dump.max_load,
        ensures
            *final(self) == old(self).spec_brew(old(self).american_coffee_consumption),
            final(self).state_in_sync(),
    {
        self.coffee_deposit.current_load -= self.american_coffee_consumption.coffee;
        self.water_deposit.current_load -= self.american_coffee_consumption.water;
        self.waste_dump.current_load += self.american_coffee_consumption.coffee;
        self.check_state();
    }

    /// Dispenses hot water: draws its recipe's amounts (no coffee), then
    /// re-derives the state.
    pub fn brew_hot_water(&mut self)
        requires
            old(self).spec_can_brew(old(self).hot_water_consumption),
            old(self).spec_max_required_coffee() <= old(self).waste_dump.max_load,
        ensures
            *final(self) == old(self).spec_brew(old(self).hot_water_consumption),
            final(self).state_in_sync(),
    {
        self.coffee_deposit.current_load -= self.hot_water_consumption.coffee;
        self.water_deposit.current_load -= self.hot_water_consumption.water;
        self.waste_dump.current_load += self.hot_water_consumption.coffee;
        self.check_state();
    }

    /// The labels of the actions valid in the given state, in their
    /// fixed menu order: the three brew actions while `Ready`, the three
    /// maintenance actions while `ActionRequired`.
    pub open spec fn spec_available_actions(state: State) -> Seq<Seq<char>> {
        match state {
            State::Ready => seq!["ExpressoCoffee"@, "AmericanCoffee"@, "HotWater"@],
            State::ActionRequired => seq!["FillWater"@, "FillCoffee"@, "EmptyDump"@],
        }
    }

    /// The ordered menu of action labels valid in the machine's current
    /// state.
    pub fn available_actions(&self) -> (labels: Vec<String>)
        ensures
            labels.deep_view() == Self::spec_available_actions(self.current_state),
    {
        let mut labels: Vec<String> = Vec::new();
        match self.current_state {
            State::Ready => {
                labels.push(BrewAction::ExpressoCoffee.label().to_owned());
                labels.push(BrewAction::AmericanCoffee.label().to_owned());
                labels.push(BrewAction::HotWater.label().to_owned());
            },
            State::ActionRequired => {
                labels.push(MaintenanceAction::FillWater.label().to_owned());
                labels.push(MaintenanceAction::FillCoffee.label().to_owned());
                labels.push(MaintenanceAction::EmptyDump.label().to_owned());
            },
        }
        proof {
            assert(labels.deep_view() =~~= Self::spec_available_actions(self.current_state));
        }
        labels
    }

    /// What submitting the given label does: in `Ready` the label must
    /// name a brew action, in `ActionRequired` a maintenance action;
    /// the named operation runs. Any other label is rejected and the
    /// machine is left unchanged.
    pub open spec fn spec_submit_action(self, label: Seq<char>) -> Result<
        CoffeeMachine,
        InvalidAction,
    > {
        match self.current_state {
            State::Ready => match spec_parse_brew_action(label) {
                Some(BrewAction::ExpressoCoffee) => Ok(
                    self.spec_brew(self.expresso_coffee_consumption),
                ),
                Some(BrewAction::AmericanCoffee) => Ok(
                    self.spec_brew(self.american_coffee_consumption),
                ),
                Some(BrewAction::HotWater) => Ok(self.spec_brew(self.hot_water_consumption)),
                None => Err(InvalidAction),
            },
            State::ActionRequired => match spec_parse_maintenance_action(label) {
                Some(MaintenanceAction::FillWater) => Ok(self.spec_fill_water_deposit()),
                Some(MaintenanceAction::FillCoffee) => Ok(self.spec_fill_coffee_deposit()),
                Some(MaintenanceAction::EmptyDump) => Ok(self.spec_empty_waste_dump()),
                None => Err(InvalidAction),
            },
        }
    }

    /// Resolves the label against the action set valid for the current
    /// state and runs the named operation. An invalid label fails and
    /// mutates nothing. A well-formed machine whose stored state agrees
    /// with its loads stays that way, so brews never drive a deposit
    /// outside its bounds.
    pub fn submit_action(&mut self, action: &str) -> (result: Result<(), InvalidAction>)
        requires
            old(self).wf(),
            old(self).state_in_sync(),
        ensures
            result is Ok ==> Ok::<CoffeeMachine, InvalidAction>(*final(self)) == old(
                self,
            ).spec_submit_action(action@),
            result is Err ==> old(self).spec_submit_action(action@) == Err::<
                CoffeeMachine,
                InvalidAction,
            >(InvalidAction) && *final(self) == *old(self),
            final(self).wf(),
            final(self).state_in_sync(),
    {
        match self.current_state {
            State::Ready => match parse_brew_action(action) {
                Some(BrewAction::ExpressoCoffee) => {
                    self.brew_expresso_coffee();
                    Ok(())
                },
                Some(BrewAction::AmericanCoffee) => {
                    self.brew_american_coffee();
                    Ok(())
                },
                Some(BrewAction::HotWater) => {
                    self.brew_hot_water();
                    Ok(())
                },
                None => Err(InvalidAction),
            },
            State::ActionRequired => match parse_maintenance_action(action) {
                Some(MaintenanceAction::FillWater) => {
                    self.fill_water_deposit();
                    Ok(())
                },
                Some(MaintenanceAction::FillCoffee) => {
                    self.fill_coffee_deposit();
                    Ok(())
                },
                Some(MaintenanceAction::EmptyDump) => {
                    self.empty_waste_dump();
                    Ok(())
                },
                None => Err(InvalidAction),
            },
        }
    }
}

} // verus!
