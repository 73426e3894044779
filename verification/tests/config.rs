use menu_cli::config::{Config, ConfigHandler, SetupAction, SetupEvent, SetupState, SetupStep};
use menu_cli::printer::FormatConfig;

const WELCOME: &str = "Welcome! It appears that you are using this cli the first time.\nSo please enter the following details in order to use it (You can always change them later in your config file):\n\nPlease enter the website of your menu service. [Example: https://menu.example.com]";
const WEBSITE: &str =
    "Please enter the website of your menu service. [Example: https://menu.example.com]";
const API: &str = "Now enter the API of your menu service. If you don't know its url, try looking for it on the website (presumably in the footer). [Example: https://api.example.com]";
const INVALID: &str = "Please enter a valid url.";
const UNREACHABLE: &str = "Couldn't reach a valid api. Please enter a proper api url.";
const CONFIGURED: &str = "Configured menu-cli successfully!\n";

fn fresh() -> ConfigHandler {
    ConfigHandler { config: Config::default() }
}

fn line(text: &str) -> SetupEvent {
    SetupEvent::Line { text: text.to_string() }
}

fn ask(state: SetupState, message: &str) -> SetupStep {
    SetupStep { state, action: SetupAction::Ask { message: message.to_string() } }
}

#[test]
fn default_config_is_empty_with_default_format() {
    let config = Config::default();
    assert_eq!(config.api_remote, "");
    assert_eq!(config.website_remote, "");
    assert!(!config.display_links);
    assert_eq!(config.format, FormatConfig::default());
}

#[test]
fn api_url_prefers_the_one_given_for_the_run() {
    let mut config = Config::default();
    config.api_remote = "https://api.example.com".to_string();
    assert_eq!(config.api_url(None), "https://api.example.com");
    assert_eq!(config.api_url(Some("http://localhost".to_string())), "http://localhost");
    assert_eq!(config.api_url(Some(String::new())), "");
}

#[test]
fn link_is_the_website_where_links_are_shown() {
    let mut config = Config::default();
    config.website_remote = "https://menu.example.com".to_string();
    assert_eq!(config.link(), None);
    config.display_links = true;
    assert_eq!(config.link(), Some("https://menu.example.com".to_string()));
}

#[test]
fn first_run_starts_the_setup() {
    assert_eq!(fresh().check(), ask(SetupState::Website, WELCOME));
}

#[test]
fn a_set_address_needs_no_setup() {
    let done = SetupStep { state: SetupState::Done, action: SetupAction::Nothing };
    let mut handler = fresh();
    handler.config.api_remote = "https://api.example.com".to_string();
    assert_eq!(handler.check(), done);
    let mut handler = fresh();
    handler.config.website_remote = "https://menu.example.com".to_string();
    assert_eq!(handler.check(), done);
}

#[test]
fn setup_runs_from_greeting_to_saving() {
    let mut handler = fresh();
    let step = handler.check();
    assert_eq!(step.state, SetupState::Website);

    let step = handler.advance(step.state, line("menu.example.com\n"));
    assert_eq!(step, ask(SetupState::Website, INVALID));
    assert_eq!(handler.config, Config::default());

    let step = handler.advance(step.state, line("  https://menu.example.com \n"));
    assert_eq!(step, ask(SetupState::Api, API));
    assert_eq!(handler.config.website_remote, "https://menu.example.com");
    assert_eq!(handler.config.api_remote, "");

    let step = handler.advance(step.state, line("\n"));
    assert_eq!(step, ask(SetupState::Api, INVALID));

    let step = handler.advance(step.state, line("https://wrong.example.com\n"));
    assert_eq!(
        step,
        SetupStep {
            state: SetupState::Probing { candidate: "https://wrong.example.com".to_string() },
            action: SetupAction::Probe { url: "https://wrong.example.com/".to_string() },
        }
    );
    assert_eq!(handler.config.api_remote, "");

    let step = handler.advance(step.state, SetupEvent::Probed { reachable: false });
    assert_eq!(step, ask(SetupState::Api, UNREACHABLE));
    assert_eq!(handler.config.api_remote, "");

    let step = handler.advance(step.state, line("https://api.example.com/\n"));
    assert_eq!(
        step,
        SetupStep {
            state: SetupState::Probing { candidate: "https://api.example.com/".to_string() },
            action: SetupAction::Probe { url: "https://api.example.com/".to_string() },
        }
    );

    let step = handler.advance(step.state, SetupEvent::Probed { reachable: true });
    assert_eq!(
        step,
        SetupStep {
            state: SetupState::Done,
            action: SetupAction::Save { message: CONFIGURED.to_string() },
        }
    );
    assert_eq!(handler.config.api_remote, "https://api.example.com/");
    assert_eq!(handler.config.website_remote, "https://menu.example.com");
    assert!(!handler.config.display_links);
    assert_eq!(handler.config.format, FormatConfig::default());
}

#[test]
fn accept_goes_by_the_flag_it_is_given() {
    let mut handler = fresh();
    let step = handler.accept(SetupState::Website, line(" anything at all\n"), true);
    assert_eq!(step, ask(SetupState::Api, API));
    assert_eq!(handler.config.website_remote, "anything at all");

    let mut handler = fresh();
    let step = handler.accept(SetupState::Website, line("https://menu.example.com"), false);
    assert_eq!(step, ask(SetupState::Website, INVALID));
    assert_eq!(handler.config, Config::default());

    let step = handler.accept(SetupState::Api, line("\tapi \n"), true);
    assert_eq!(
        step,
        SetupStep {
            state: SetupState::Probing { candidate: "api".to_string() },
            action: SetupAction::Probe { url: "api/".to_string() },
        }
    );
    assert_eq!(handler.config, Config::default());
}

#[test]
fn an_event_that_is_not_awaited_changes_nothing() {
    let mut handler = fresh();
    let probed = SetupEvent::Probed { reachable: true };
    assert_eq!(handler.advance(SetupState::Website, probed), ask(SetupState::Website, WEBSITE));
    let probed = SetupEvent::Probed { reachable: true };
    assert_eq!(handler.advance(SetupState::Api, probed), ask(SetupState::Api, API));
    let probing = SetupState::Probing { candidate: "https://api.example.com".to_string() };
    assert_eq!(
        handler.advance(probing, line("https://other.example.com\n")),
        SetupStep {
            state: SetupState::Probing { candidate: "https://api.example.com".to_string() },
            action: SetupAction::Probe { url: "https://api.example.com/".to_string() },
        }
    );
    assert_eq!(handler.config, Config::default());
}

#[test]
fn a_finished_setup_stays_finished() {
    let mut handler = fresh();
    let done = SetupStep { state: SetupState::Done, action: SetupAction::Nothing };
    assert_eq!(handler.advance(SetupState::Done, line("https://menu.example.com\n")), done);
    assert_eq!(handler.advance(SetupState::Done, SetupEvent::Probed { reachable: true }), done);
    assert_eq!(handler.config, Config::default());
}

#[test]
fn only_what_parses_counts_as_an_address() {
    for text in ["", "\n", "menu.example.com", "/menu", "https://", "not an address"] {
        let mut handler = fresh();
        assert_eq!(
            handler.advance(SetupState::Website, line(text)),
            ask(SetupState::Website, INVALID),
            "{:?}",
            text
        );
    }
    for text in ["https://menu.example.com", "http://localhost:8080/\n", "ftp://x.y"] {
        let mut handler = fresh();
        assert_eq!(handler.advance(SetupState::Website, line(text)), ask(SetupState::Api, API), "{:?}", text);
        assert_eq!(handler.config.website_remote, text.trim());
    }
}
