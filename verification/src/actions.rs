//! Operator-selectable actions and their display labels: brew actions
//! are valid while the machine is ready, maintenance actions while an
//! action is required. Each action maps to a fixed label, and a label
//! submitted by the operator is resolved back to the action it names.

use vstd::prelude::*;

verus! {

/// An action that brews a drink; valid only while the machine is ready.
#[derive(Debug, Clone, Copy, PartialEq, Eq, Structural)]
pub enum BrewAction {
    ExpressoCoffee,
    AmericanCoffee,
    HotWater,
}

/// An action that restores a deposit; valid only while maintenance is
/// required.
#[derive(Debug, Clone, Copy, PartialEq, Eq, Structural)]
pub enum MaintenanceAction {
    FillWater,
    FillCoffee,
    EmptyDump,
}

/// The submitted label is not a member of the action set valid for the
/// machine's current state.
#[derive(Debug, Clone, Copy, PartialEq, Eq, Structural)]
pub struct InvalidAction;

impl BrewAction {
    /// The display label of this action.
    pub open spec fn spec_label(self) -> Seq<char> {
        match self {
            BrewAction::ExpressoCoffee => "ExpressoCoffee"@,
            BrewAction::AmericanCoffee => "AmericanCoffee"@,
            BrewAction::HotWater => "HotWater"@,
        }
    }

    pub fn label(&self) -> (label: &'static str)
        ensures
            label@ == self.spec_label(),
    {
        match self {
            BrewAction::ExpressoCoffee => "ExpressoCoffee",
            BrewAction::AmericanCoffee => "AmericanCoffee",
            BrewAction::HotWater => "HotWater",
        }
    }
}

impl MaintenanceAction {
    /// The display label of this action.
    pub open spec fn spec_label(self) -> Seq<char> {
        match self {
            MaintenanceAction::FillWater => "FillWater"@,
            MaintenanceAction::FillCoffee => "FillCoffee"@,
            MaintenanceAction::EmptyDump => "EmptyDump"@,
        }
    }

    pub fn label(&self) -> (label: &'static str)
        ensures
            label@ == self.spec_label(),
    {
        match self {
            MaintenanceAction::FillWater => "FillWater",
            MaintenanceAction::FillCoffee => "FillCoffee",
            MaintenanceAction::EmptyDump => "EmptyDump",
        }
    }
}

/// The brew action the given label names, if any.
pub open spec fn spec_parse_brew_action(label: Seq<char>) -> Option<BrewAction> {
    if label == "ExpressoCoffee"@ {
        Some(BrewAction::ExpressoCoffee)
    } else if label == "AmericanCoffee"@ {
        Some(BrewAction::AmericanCoffee)
    } else if label == "HotWater"@ {
        Some(BrewAction::HotWater)
    } else {
        None
    }
}

pub fn parse_brew_action(label: &str) -> (action: Option<BrewAction>)
    ensures
        action == spec_parse_brew_action(label@),
{
    let owned: String = label.to_owned();
    if owned == "ExpressoCoffee".to_owned() {
        Some(BrewAction::ExpressoCoffee)
    } else if owned == "AmericanCoffee".to_owned() {
        Some(BrewAction::AmericanCoffee)
    } else if owned == "HotWater".to_owned() {
        Some(BrewAction::HotWater)
    } else {
        None
    }
}

/// The maintenance action the given label names, if any.
pub open spec fn spec_parse_maintenance_action(label: Seq<char>) -> Option<MaintenanceAction> {
    if label == "FillWater"@ {
        Some(MaintenanceAction::FillWater)
    } else if label == "FillCoffee"@ {
        Some(MaintenanceAction::FillCoffee)
    } else if label == "EmptyDump"@ {
        Some(MaintenanceAction::EmptyDump)
    } else {
        None
    }
}

pub fn parse_maintenance_action(label: &str) -> (action: Option<MaintenanceAction>)
    ensures
        action == spec_parse_maintenance_action(label@),
{
    let owned: String = label.to_owned();
    if owned == "FillWater".to_owned() {
        Some(MaintenanceAction::FillWater)
    } else if owned == "FillCoffee".to_owned() {
        Some(MaintenanceAction::FillCoffee)
    } else if owned == "EmptyDump".to_owned() {
        Some(MaintenanceAction::EmptyDump)
    } else {
        None
    }
}

/// Parsing a brew action's own label yields that action back: the
/// label-to-action mapping inverts the action-to-label mapping.
pub proof fn lemma_brew_label_round_trip(action: BrewAction)
    ensures
        spec_parse_brew_action(action.spec_label()) == Some(action),
{
    reveal_strlit("ExpressoCoffee");
    reveal_strlit("AmericanCoffee");
    reveal_strlit("HotWater");
    match action {
        BrewAction::ExpressoCoffee => {
        },
        BrewAction::AmericanCoffee => {
            assert("AmericanCoffee"@[0] == 'A');
            assert("ExpressoCoffee"@[0] == 'E');
        },
        BrewAction::HotWater => {
            assert("HotWater"@.len() == 8);
            assert("ExpressoCoffee"@.len() == 14);
            assert("AmericanCoffee"@.len() == 14);
        },
    }
}

/// Parsing a maintenance action's own label yields that action back.
pub proof fn lemma_maintenance_label_round_trip(action: MaintenanceAction)
    ensures
        spec_parse_maintenance_action(action.spec_label()) == Some(action),
{
    reveal_strlit("FillWater");
    reveal_strlit("FillCoffee");
    reveal_strlit("EmptyDump");
    match action {
        MaintenanceAction::FillWater => {
        },
        MaintenanceAction::FillCoffee => {
            assert("FillCoffee"@.len() == 10);
            assert("FillWater"@.len() == 9);
        },
        MaintenanceAction::EmptyDump => {
            assert("EmptyDump"@[0] == 'E');
            assert("FillWater"@[0] == 'F');
            assert("FillCoffee"@[0] == 'F');
        },
    }
}

} // verus!
