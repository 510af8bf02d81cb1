//! The browser of example models: a fixed catalogue, and what a click in the
//! dialog leads to.
//!
//! The dialog itself is drawn elsewhere. This module decides which cards it
//! shows and which actions follow from each click, in order.

use vstd::prelude::*;

verus! {

/// Request to load a model: the name of its file and the file's bytes.
#[derive(Debug)]
pub struct LoadFileEvent {
    pub file_path: String,
    pub data: Vec<u8>,
}

/// The example models on offer.
#[derive(Clone, Copy, Debug, PartialEq, Eq, Structural)]
pub enum ExampleModel {
    Cell,
    Organization,
    SolarPanel,
}

/// What the host of the dialog has to do after a click.
#[derive(Debug)]
pub enum BrowserAction {
    /// Hand the event to the file-load path.
    Load(LoadFileEvent),
    /// Hide the dialog.
    Close,
}

/// Heading of a model's card.
pub open spec fn spec_title(model: ExampleModel) -> Seq<char> {
    match model {
        ExampleModel::Cell => "Simple Cell"@,
        ExampleModel::Organization => "Organization"@,
        ExampleModel::SolarPanel => "Solar Panel"@,
    }
}

/// One-line summary on a model's card.
pub open spec fn spec_description(model: ExampleModel) -> Seq<char> {
    match model {
        ExampleModel::Cell => "A biological cell with ATP production and CO2 waste pathways"@,
        ExampleModel::Organization =>
            "Organizational structure with human capital, financial flows, and waste"@,
        ExampleModel::SolarPanel =>
            "Photovoltaic system converting sunlight to electricity with thermal waste"@,
    }
}

/// Name of the file that a model is loaded under.
pub open spec fn spec_file_name(model: ExampleModel) -> Seq<char> {
    match model {
        ExampleModel::Cell => "cell.json"@,
        ExampleModel::Organization => "organization.json"@,
        ExampleModel::SolarPanel => "solar-panel.json"@,
    }
}

/// The catalogue in the order in which the cards are laid out.
pub open spec fn spec_catalogue() -> Seq<ExampleModel> {
    seq![ExampleModel::Cell, ExampleModel::Organization, ExampleModel::SolarPanel]
}

/// The actions that follow a click on a model's card while the dialog is up:
/// first the load of that model with the given bytes, then the close.
pub open spec fn is_load_then_close(
    actions: Seq<BrowserAction>,
    model: ExampleModel,
    data: Seq<u8>,
) -> bool {
    &&& actions.len() == 2
    &&& actions[0] matches BrowserAction::Load(event)
    &&& event.file_path@ == spec_file_name(model)
    &&& event.data@ == data
    &&& actions[1] is Close
}

impl ExampleModel {
    pub fn title(self) -> (text: &'static str)
        ensures
            text@ == spec_title(self),
    {
        match self {
            ExampleModel::Cell => "Simple Cell",
            ExampleModel::Organization => "Organization",
            ExampleModel::SolarPanel => "Solar Panel",
        }
    }

    pub fn description(self) -> (text: &'static str)
        ensures
            text@ == spec_description(self),
    {
        match self {
            ExampleModel::Cell => "A biological cell with ATP production and CO2 waste pathways",
            ExampleModel::Organization =>
                "Organizational structure with human capital, financial flows, and waste",
            ExampleModel::SolarPanel =>
                "Photovoltaic system converting sunlight to electricity with thermal waste",
        }
    }

    pub fn file_name(self) -> (text: &'static str)
        ensures
            text@ == spec_file_name(self),
    {
        match self {
            ExampleModel::Cell => "cell.json",
            ExampleModel::Organization => "organization.json",
            ExampleModel::SolarPanel => "solar-panel.json",
        }
    }
}

/// The dialog that offers the example models.
#[derive(Clone, Copy, Debug, PartialEq, Eq, Structural)]
pub struct ModelBrowser {
    pub visible: bool,
}

impl ModelBrowser {
    pub fn new(visible: bool) -> (browser: ModelBrowser)
        ensures
            browser.visible == visible,
    {
        ModelBrowser { visible }
    }

    /// The cards to draw: the whole catalogue while the dialog is up, nothing
    /// while it is hidden.
    pub fn cards(&self) -> (cards: Vec<ExampleModel>)
        ensures
            self.visible ==> cards@ == spec_catalogue(),
            !self.visible ==> cards@ == Seq::<ExampleModel>::empty(),
    {
        let mut cards: Vec<ExampleModel> = Vec::new();
        if self.visible {
            cards.push(ExampleModel::Cell);
            cards.push(ExampleModel::Organization);
            cards.push(ExampleModel::SolarPanel);
        }
        cards
    }

    /// A click on the close button: the dialog is to be hidden. A hidden
    /// dialog has no button, and the click leads to nothing.
    pub fn click_close(&self) -> (actions: Vec<BrowserAction>)
        ensures
            self.visible ==> actions@.len() == 1 && actions@[0] is Close,
            !self.visible ==> actions@.len() == 0,
    {
        let mut actions: Vec<BrowserAction> = Vec::new();
        if self.visible {
            actions.push(BrowserAction::Close);
        }
        actions
    }

    /// A click on a model's card, with the bytes of that model's file: the
    /// model is to be loaded under its file name, then the dialog is to be
    /// hidden. A hidden dialog has no cards, and the click leads to nothing.
    pub fn click_model(&self, model: ExampleModel, data: Vec<u8>) -> (actions: Vec<BrowserAction>)
        ensures
            self.visible ==> is_load_then_close(actions@, model, data@),
            !self.visible ==> actions@.len() == 0,
    {
        let mut actions: Vec<BrowserAction> = Vec::new();
        if self.visible {
            let event = LoadFileEvent { file_path: model.file_name().to_owned(), data };
            actions.push(BrowserAction::Load(event));
            actions.push(BrowserAction::Close);
        }
        actions
    }
}

} // verus!
