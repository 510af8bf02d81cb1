use bert::model_browser::{BrowserAction, ExampleModel, ModelBrowser};

#[test]
fn visible_browser_shows_the_catalogue() {
    let browser = ModelBrowser::new(true);
    assert_eq!(
        browser.cards(),
        vec![ExampleModel::Cell, ExampleModel::Organization, ExampleModel::SolarPanel]
    );
}

#[test]
fn hidden_browser_shows_nothing() {
    let browser = ModelBrowser::new(false);
    assert!(browser.cards().is_empty());
    assert!(browser.click_close().is_empty());
    assert!(browser.click_model(ExampleModel::Cell, vec![1, 2, 3]).is_empty());
}

#[test]
fn cards_have_their_texts() {
    assert_eq!(ExampleModel::Cell.title(), "Simple Cell");
    assert_eq!(
        ExampleModel::Cell.description(),
        "A biological cell with ATP production and CO2 waste pathways"
    );
    assert_eq!(ExampleModel::Organization.title(), "Organization");
    assert_eq!(
        ExampleModel::Organization.description(),
        "Organizational structure with human capital, financial flows, and waste"
    );
    assert_eq!(ExampleModel::SolarPanel.title(), "Solar Panel");
    assert_eq!(
        ExampleModel::SolarPanel.description(),
        "Photovoltaic system converting sunlight to electricity with thermal waste"
    );
}

#[test]
fn models_have_their_file_names() {
    assert_eq!(ExampleModel::Cell.file_name(), "cell.json");
    assert_eq!(ExampleModel::Organization.file_name(), "organization.json");
    assert_eq!(ExampleModel::SolarPanel.file_name(), "solar-panel.json");
}

#[test]
fn click_on_close_closes() {
    let actions = ModelBrowser::new(true).click_close();
    assert_eq!(actions.len(), 1);
    assert!(matches!(actions[0], BrowserAction::Close));
}

#[test]
fn click_on_a_model_loads_it_and_closes() {
    let browser = ModelBrowser::new(true);
    for model in browser.cards() {
        let data = format!("{{\"model\":\"{}\"}}", model.title()).into_bytes();
        let actions = browser.click_model(model, data.clone());
        assert_eq!(actions.len(), 2);
        match &actions[0] {
            BrowserAction::Load(event) => {
                assert_eq!(event.file_path, model.file_name());
                assert_eq!(event.data, data);
            }
            BrowserAction::Close => panic!("the load comes first"),
        }
        assert!(matches!(actions[1], BrowserAction::Close));
    }
}

#[test]
fn click_on_the_solar_panel_loads_its_file() {
    let actions = ModelBrowser::new(true).click_model(ExampleModel::SolarPanel, Vec::new());
    match &actions[0] {
        BrowserAction::Load(event) => {
            assert_eq!(event.file_path, "solar-panel.json");
            assert!(event.data.is_empty());
        }
        BrowserAction::Close => panic!("the load comes first"),
    }
}
