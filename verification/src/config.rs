//! The settings, and how they are first asked of the user.

use crate::api::{sub_url, Endpoint, EndpointView, MenuAPI};
use crate::printer::{default_format, FormatConfig, FormatConfigView};
use crate::text::{text_of, trim, trimmed, with_slash};
use vstd::prelude::*;
use vstd::string::*;

verus! {

/// The settings of the program.
#[derive(Debug, PartialEq, Eq)]
pub struct Config {
    /// The address of the menu service. Empty until it was set up.
    pub api_remote: String,
    /// The address of the service's website. Empty until it was set up.
    pub website_remote: String,
    /// Whether a link to its page on the website is shown with each menu.
    pub display_links: bool,
    /// How menus are laid out.
    pub format: FormatConfig,
}

/// What a `Config` holds.
pub struct ConfigView {
    pub api_remote: Seq<char>,
    pub website_remote: Seq<char>,
    pub display_links: bool,
    pub format: FormatConfigView,
}

impl View for Config {
    type V = ConfigView;

    open spec fn view(&self) -> ConfigView {
        ConfigView {
            api_remote: self.api_remote@,
            website_remote: self.website_remote@,
            display_links: self.display_links,
            format: self.format@,
        }
    }
}

/// The settings before the first run: no address, no links, the default layout.
pub open spec fn default_config() -> ConfigView {
    ConfigView {
        api_remote: Seq::empty(),
        website_remote: Seq::empty(),
        display_links: false,
        format: default_format(),
    }
}

impl Default for Config {
    fn default() -> (r: Self)
        ensures
            r@ == default_config(),
    {
        Config {
            api_remote: String::new(),
            website_remote: String::new(),
            display_links: false,
            format: FormatConfig::default(),
        }
    }
}

/// The address of the service that is asked: `custom` where the user gave one for
/// this run, else the one of the settings.
pub open spec fn chosen_api(config: ConfigView, custom: Option<Seq<char>>) -> Seq<char> {
    match custom {
        Some(url) => url,
        None => config.api_remote,
    }
}

/// The website to which menus are linked: the one of the settings where links are
/// shown, else none.
pub open spec fn chosen_link(config: ConfigView) -> Option<Seq<char>> {
    if config.display_links {
        Some(config.website_remote)
    } else {
        None
    }
}

impl Config {
    /// The address of the service that is asked: `custom` where the user gave one for
    /// this run, else the one of the settings.
    pub fn api_url(&self, custom: Option<String>) -> (r: String)
        ensures
            r@ == chosen_api(self@, text_of(custom)),
    {
        match custom {
            Some(url) => url,
            None => self.api_remote.clone(),
        }
    }

    /// The website to which menus are linked: the one of the settings where links
    /// are shown, else none.
    pub fn link(&self) -> (r: Option<String>)
        ensures
            text_of(r) == chosen_link(self@),
    {
        if self.display_links {
            Some(self.website_remote.clone())
        } else {
            None
        }
    }
}

/// Where the first setup stands.
#[derive(Debug, PartialEq, Eq)]
pub enum SetupState {
    /// The address of the website is awaited.
    Website,
    /// The address of the service is awaited.
    Api,
    /// `candidate` was typed as the address of the service, and whether a service
    /// answers there is awaited.
    Probing { candidate: String },
    /// Nothing is left to ask.
    Done,
}

/// What a `SetupState` holds.
pub enum SetupStateView {
    Website,
    Api,
    Probing { candidate: Seq<char> },
    Done,
}

impl View for SetupState {
    type V = SetupStateView;

    open spec fn view(&self) -> SetupStateView {
        match self {
            SetupState::Website => SetupStateView::Website,
            SetupState::Api => SetupStateView::Api,
            SetupState::Probing { candidate } => SetupStateView::Probing { candidate: candidate@ },
            SetupState::Done => SetupStateView::Done,
        }
    }
}

/// What happened since the last step of the setup.
#[derive(Debug, PartialEq, Eq)]
pub enum SetupEvent {
    /// The user typed the line `text`.
    Line { text: String },
    /// The address that was to be tried was tried: a service answered there, or none.
    Probed { reachable: bool },
}

/// What a `SetupEvent` holds.
pub enum SetupEventView {
    Line { text: Seq<char> },
    Probed { reachable: bool },
}

impl View for SetupEvent {
    type V = SetupEventView;

    open spec fn view(&self) -> SetupEventView {
        match self {
            SetupEvent::Line { text } => SetupEventView::Line { text: text@ },
            SetupEvent::Probed { reachable } => SetupEventView::Probed { reachable: *reachable },
        }
    }
}

/// What is to be done next in the setup.
#[derive(Debug, PartialEq, Eq)]
pub enum SetupAction {
    /// Show `message` on a line of its own, read a line, and hand it back as
    /// `SetupEvent::Line`.
    Ask { message: String },
    /// Ask for `url`, and hand back as `SetupEvent::Probed` whether a menu service
    /// answered.
    Probe { url: String },
    /// Store the settings, then show `message` on a line of its own. The setup is
    /// over.
    Save { message: String },
    /// Nothing: the setup is over, or was not needed.
    Nothing,
}

/// What a `SetupAction` holds.
pub enum SetupActionView {
    Ask { message: Seq<char> },
    Probe { url: Seq<char> },
    Save { message: Seq<char> },
    Nothing,
}

impl View for SetupAction {
    type V = SetupActionView;

    open spec fn view(&self) -> SetupActionView {
        match self {
            SetupAction::Ask { message } => SetupActionView::Ask { message: message@ },
            SetupAction::Probe { url } => SetupActionView::Probe { url: url@ },
            SetupAction::Save { message } => SetupActionView::Save { message: message@ },
            SetupAction::Nothing => SetupActionView::Nothing,
        }
    }
}

/// One step of the setup: where it stands now, and what is to be done next.
#[derive(Debug, PartialEq, Eq)]
pub struct SetupStep {
    pub state: SetupState,
    pub action: SetupAction,
}

/// What a `SetupStep` holds.
pub struct SetupStepView {
    pub state: SetupStateView,
    pub action: SetupActionView,
}

impl View for SetupStep {
    type V = SetupStepView;

    open spec fn view(&self) -> SetupStepView {
        SetupStepView { state: self.state@, action: self.action@ }
    }
}

/// The greeting of the first run.
pub open spec fn welcome_text() -> Seq<char> {
    "Welcome! It appears that you are using this cli the first time.\nSo please enter the following details in order to use it (You can always change them later in your config file):\n"@
}

/// The request for the address of the website.
pub open spec fn website_prompt() -> Seq<char> {
    "Please enter the website of your menu service. [Example: https://menu.example.com]"@
}

/// The request for the address of the service.
pub open spec fn api_prompt() -> Seq<char> {
    "Now enter the API of your menu service. If you don't know its url, try looking for it on the website (presumably in the footer). [Example: https://api.example.com]"@
}

/// The answer to a line that is no address.
pub open spec fn invalid_url_text() -> Seq<char> {
    "Please enter a valid url."@
}

/// The answer to an address at which no menu service answered.
pub open spec fn unreachable_text() -> Seq<char> {
    "Couldn't reach a valid api. Please enter a proper api url."@
}

/// The last words of the setup.
pub open spec fn configured_text() -> Seq<char> {
    "Configured menu-cli successfully!\n"@
}

/// What the first run shows first: the greeting, an empty line, the request for the
/// address of the website.
pub open spec fn first_message() -> Seq<char> {
    welcome_text() + seq!['\n'] + website_prompt()
}

/// The address that is tried for the service at `candidate`.
pub open spec fn probe_url(candidate: Seq<char>) -> Seq<char> {
    with_slash(candidate) + sub_url(EndpointView::Info)
}

/// Whether the setup is needed: neither address is set.
pub open spec fn needs_setup(config: ConfigView) -> bool {
    config.website_remote.len() == 0 && config.api_remote.len() == 0
}

/// How the setup begins for `config`.
pub open spec fn first_step(config: ConfigView) -> SetupStepView {
    if needs_setup(config) {
        SetupStepView {
            state: SetupStateView::Website,
            action: SetupActionView::Ask { message: first_message() },
        }
    } else {
        SetupStepView { state: SetupStateView::Done, action: SetupActionView::Nothing }
    }
}

/// The settings after `event` came in `state`, where `valid` says whether the line of
/// the event is an address. Only an address of the website that is one, and an
/// address of the service at which a service answered, are taken over, each without
/// the white space at its ends.
pub open spec fn settings_after(
    config: ConfigView,
    state: SetupStateView,
    event: SetupEventView,
    valid: bool,
) -> ConfigView {
    match (state, event) {
        (SetupStateView::Website, SetupEventView::Line { text }) => if valid {
            ConfigView { website_remote: trimmed(text), ..config }
        } else {
            config
        },
        (
            SetupStateView::Probing { candidate },
            SetupEventView::Probed { reachable },
        ) => if reachable {
            ConfigView { api_remote: candidate, ..config }
        } else {
            config
        },
        _ => config,
    }
}

/// The step that follows when `event` comes in `state`, where `valid` says whether
/// the line of the event is an address. An event that the state does not await
/// changes nothing, and what the state awaits is asked for again.
pub open spec fn step_after(
    state: SetupStateView,
    event: SetupEventView,
    valid: bool,
) -> SetupStepView {
    match (state, event) {
        (SetupStateView::Website, SetupEventView::Line { text }) => if valid {
            SetupStepView {
                state: SetupStateView::Api,
                action: SetupActionView::Ask { message: api_prompt() },
            }
        } else {
            SetupStepView {
                state: SetupStateView::Website,
                action: SetupActionView::Ask { message: invalid_url_text() },
            }
        },
        (SetupStateView::Website, SetupEventView::Probed { reachable }) => SetupStepView {
            state: SetupStateView::Website,
            action: SetupActionView::Ask { message: website_prompt() },
        },
        (SetupStateView::Api, SetupEventView::Line { text }) => if valid {
            SetupStepView {
                state: SetupStateView::Probing { candidate: trimmed(text) },
                action: SetupActionView::Probe { url: probe_url(trimmed(text)) },
            }
        } else {
            SetupStepView {
                state: SetupStateView::Api,
                action: SetupActionView::Ask { message: invalid_url_text() },
            }
        },
        (SetupStateView::Api, SetupEventView::Probed { reachable }) => SetupStepView {
            state: SetupStateView::Api,
            action: SetupActionView::Ask { message: api_prompt() },
        },
        (
            SetupStateView::Probing { candidate },
            SetupEventView::Probed { reachable },
        ) => if reachable {
            SetupStepView {
                state: SetupStateView::Done,
                action: SetupActionView::Save { message: configured_text() },
            }
        } else {
            SetupStepView {
                state: SetupStateView::Api,
                action: SetupActionView::Ask { message: unreachable_text() },
            }
        },
        (SetupStateView::Probing { candidate }, SetupEventView::Line { text }) => SetupStepView {
            state: SetupStateView::Probing { candidate },
            action: SetupActionView::Probe { url: probe_url(candidate) },
        },
        (SetupStateView::Done, _) => SetupStepView {
            state: SetupStateView::Done,
            action: SetupActionView::Nothing,
        },
    }
}

/// Whether `url::Url::parse` reads `text` as an address.
pub uninterp spec fn is_url(text: Seq<char>) -> bool;

/// `Url::parse`, as `reqwest` hands it on from `url`: whether it succeeds. Trusted:
/// the result is named, nothing more is claimed of it.
#[verifier::external_body]
fn parses_as_url(text: &str) -> (r: bool)
    ensures
        r == is_url(text@),
{
    reqwest::Url::parse(text).is_ok()
}

/// Whether the line of `event` is an address; `false` for an event without a line.
pub open spec fn line_is_url(event: SetupEventView) -> bool {
    match event {
        SetupEventView::Line { text } => is_url(text),
        SetupEventView::Probed { reachable } => false,
    }
}

/// The request for the address of the website.
fn website_message() -> (r: String)
    ensures
        r@ == website_prompt(),
{
    "Please enter the website of your menu service. [Example: https://menu.example.com]".to_owned()
}

/// What the first run shows first.
fn welcome_message() -> (r: String)
    ensures
        r@ == first_message(),
{
    proof {
        reveal_strlit("\n");
    }
    let mut r =
        "Welcome! It appears that you are using this cli the first time.\nSo please enter the following details in order to use it (You can always change them later in your config file):\n".to_owned();
    r.append("\n");
    r.append(website_message().as_str());
    assert(r@ =~= first_message());
    r
}

/// The request for the address of the service.
fn api_message() -> (r: String)
    ensures
        r@ == api_prompt(),
{
    "Now enter the API of your menu service. If you don't know its url, try looking for it on the website (presumably in the footer). [Example: https://api.example.com]".to_owned()
}

/// The answer to a line that is no address.
fn invalid_url_message() -> (r: String)
    ensures
        r@ == invalid_url_text(),
{
    "Please enter a valid url.".to_owned()
}

/// The answer to an address at which no menu service answered.
fn unreachable_message() -> (r: String)
    ensures
        r@ == unreachable_text(),
{
    "Couldn't reach a valid api. Please enter a proper api url.".to_owned()
}

/// The last words of the setup.
fn configured_message() -> (r: String)
    ensures
        r@ == configured_text(),
{
    "Configured menu-cli successfully!\n".to_owned()
}

/// The settings, and the setup that fills them at the first run.
#[derive(Debug, PartialEq, Eq)]
pub struct ConfigHandler {
    pub config: Config,
}

/// The address that is tried for the service at `candidate`.
fn probe_address(candidate: &str) -> (r: String)
    ensures
        r@ == probe_url(candidate@),
{
    let api = MenuAPI::new(candidate.to_owned());
    api.request_url(&Endpoint::Info)
}

impl ConfigHandler {
    /// How the setup begins: with the greeting and the request for the website where
    /// neither address is set, else with nothing to do.
    pub fn check(&self) -> (r: SetupStep)
        ensures
            r@ == first_step(self.config@),
    {
        if self.config.website_remote.as_str().is_empty()
            && self.config.api_remote.as_str().is_empty() {
            SetupStep {
                state: SetupState::Website,
                action: SetupAction::Ask { message: welcome_message() },
            }
        } else {
            SetupStep { state: SetupState::Done, action: SetupAction::Nothing }
        }
    }

    /// Takes `event` in `state`, where `valid` says whether the line of the event is
    /// an address: changes the settings by it, and says how the setup goes on.
    pub fn accept(&mut self, state: SetupState, event: SetupEvent, valid: bool) -> (r: SetupStep)
        ensures
            final(self).config@ == settings_after(old(self).config@, state@, event@, valid),
            r@ == step_after(state@, event@, valid),
    {
        match (state, event) {
            (SetupState::Website, SetupEvent::Line { text }) => {
                if valid {
                    self.config.website_remote = trim(text.as_str()).to_owned();
                    SetupStep {
                        state: SetupState::Api,
                        action: SetupAction::Ask { message: api_message() },
                    }
                } else {
                    SetupStep {
                        state: SetupState::Website,
                        action: SetupAction::Ask { message: invalid_url_message() },
                    }
                }
            },
            (SetupState::Website, SetupEvent::Probed { reachable }) => SetupStep {
                state: SetupState::Website,
                action: SetupAction::Ask { message: website_message() },
            },
            (SetupState::Api, SetupEvent::Line { text }) => {
                if valid {
                    let candidate = trim(text.as_str()).to_owned();
                    let url = probe_address(candidate.as_str());
                    SetupStep {
                        state: SetupState::Probing { candidate },
                        action: SetupAction::Probe { url },
                    }
                } else {
                    SetupStep {
                        state: SetupState::Api,
                        action: SetupAction::Ask { message: invalid_url_message() },
                    }
                }
            },
            (SetupState::Api, SetupEvent::Probed { reachable }) => SetupStep {
                state: SetupState::Api,
                action: SetupAction::Ask { message: api_message() },
            },
            (SetupState::Probing { candidate }, SetupEvent::Probed { reachable }) => {
                if reachable {
                    self.config.api_remote = candidate;
                    SetupStep {
                        state: SetupState::Done,
                        action: SetupAction::Save { message: configured_message() },
                    }
                } else {
                    SetupStep {
                        state: SetupState::Api,
                        action: SetupAction::Ask { message: unreachable_message() },
                    }
                }
            },
            (SetupState::Probing { candidate }, SetupEvent::Line { text }) => {
                let url = probe_address(candidate.as_str());
                SetupStep {
                    state: SetupState::Probing { candidate },
                    action: SetupAction::Probe { url },
                }
            },
            (SetupState::Done, _) => SetupStep {
                state: SetupState::Done,
                action: SetupAction::Nothing,
            },
        }
    }

    /// Takes `event` in `state`: changes the settings by it, and says how the setup
    /// goes on. A line counts as an address where `url::Url::parse` reads it as one.
    pub fn advance(&mut self, state: SetupState, event: SetupEvent) -> (r: SetupStep)
        ensures
            final(self).config@ == settings_after(
                old(self).config@,
                state@,
                event@,
                line_is_url(event@),
            ),
            r@ == step_after(state@, event@, line_is_url(event@)),
    {
        let valid = match &event {
            SetupEvent::Line { text } => parses_as_url(text.as_str()),
            SetupEvent::Probed { reachable } => false,
        };
        self.accept(state, event, valid)
    }
}

} // verus!
