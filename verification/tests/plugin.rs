use tg_adapter::plugin::{
    tg_dispatcher, AttemptEnd, Backoff, Config, DispatcherAction, DispatcherEvent, LoadAction,
    LoadEvent, LoadReport, PluginState, PluginType, StopReason, TGAdapter, Version, DEFAULT_CONFIG,
};

fn config(token: &str) -> Config {
    Config { bot_token: token.to_string(), api_url: None }
}

#[test]
fn identity() {
    let plugin = TGAdapter::new();
    assert_eq!(plugin.name(), "TGAdapter");
    assert_eq!(plugin.version(), Version { major: 0, minor: 0, patch: 1 });
    assert_eq!(plugin.plugin_type(), PluginType::Adapter);
}

#[test]
fn default_config_is_a_config() {
    let table: toml::Table = DEFAULT_CONFIG.parse().unwrap();
    assert_eq!(table["bot_token"].as_str(), Some("YOUR_BOT_TOKEN_HERE"));
    assert_eq!(table.len(), 1);
}

#[test]
fn written_config_is_loaded_next_time() {
    let plugin = TGAdapter::new();
    let mut state = PluginState::<u8>::new();
    let content = match plugin.on_load(&mut state, LoadEvent::ConfigUnreadable) {
        LoadAction::WriteConfig { content, .. } => content.to_string(),
        action => panic!("{action:?}"),
    };
    assert_eq!(
        plugin.on_load(&mut state, LoadEvent::ConfigRead(content.clone())),
        LoadAction::ParseConfig { content: content.clone() }
    );
    let table: toml::Table = content.parse().unwrap();
    let parsed = Config {
        bot_token: table["bot_token"].as_str().unwrap().to_string(),
        api_url: table.get("api_url").and_then(|url| url.as_str()).map(str::to_string),
    };
    assert_eq!(
        plugin.on_load(&mut state, LoadEvent::ConfigParsed(parsed)),
        LoadAction::Register { plugin: "TGAdapter", report: LoadReport::Configured }
    );
    assert_eq!(state.config, Some(config("YOUR_BOT_TOKEN_HERE")));
}

#[test]
fn loading_a_config() {
    let plugin = TGAdapter::new();
    let mut state = PluginState::<u8>::new();
    assert_eq!(
        plugin.on_load(&mut state, LoadEvent::Started),
        LoadAction::ReadConfig { path: "TGAdapter/config.toml" }
    );
    assert_eq!(
        plugin.on_load(&mut state, LoadEvent::ConfigRead("x".to_string())),
        LoadAction::ParseConfig { content: "x".to_string() }
    );
    assert_eq!(state, PluginState { config: None, bot: None });
    assert_eq!(
        plugin.on_load(&mut state, LoadEvent::ConfigParsed(config("T"))),
        LoadAction::Register { plugin: "TGAdapter", report: LoadReport::Configured }
    );
    assert_eq!(state, PluginState { config: Some(config("T")), bot: None });
}

#[test]
fn malformed_config_keeps_the_state() {
    let plugin = TGAdapter::new();
    let mut state = PluginState { config: Some(config("old")), bot: Some(1u8) };
    assert_eq!(
        plugin.on_load(&mut state, LoadEvent::ConfigMalformed),
        LoadAction::Register { plugin: "TGAdapter", report: LoadReport::Malformed }
    );
    assert_eq!(state, PluginState { config: Some(config("old")), bot: Some(1u8) });
}

#[test]
fn missing_config_is_written() {
    let plugin = TGAdapter::new();
    let mut state = PluginState::<u8>::new();
    assert_eq!(
        plugin.on_load(&mut state, LoadEvent::ConfigUnreadable),
        LoadAction::WriteConfig {
            plugin: "TGAdapter",
            file: "config.toml",
            content: DEFAULT_CONFIG,
        }
    );
    assert_eq!(
        plugin.on_load(&mut state, LoadEvent::DefaultWritten),
        LoadAction::Register { plugin: "TGAdapter", report: LoadReport::DefaultWritten }
    );
    assert_eq!(
        plugin.on_load(&mut state, LoadEvent::DefaultNotWritten),
        LoadAction::Register { plugin: "TGAdapter", report: LoadReport::DefaultNotWritten }
    );
    assert_eq!(state, PluginState { config: None, bot: None });
}

#[test]
fn unloading_forgets_everything() {
    let mut state = PluginState { config: Some(config("T")), bot: Some(1u8) };
    TGAdapter::new().on_unload(&mut state);
    assert_eq!(state, PluginState { config: None, bot: None });
    assert_eq!(
        tg_dispatcher(&mut state, &mut Backoff::new(), DispatcherEvent::Started),
        DispatcherAction::Stop(StopReason::NotConfigured)
    );
}

#[test]
fn dispatcher_connects_with_the_token() {
    let mut state = PluginState { config: Some(config("T")), bot: None };
    let mut backoff = Backoff::new();
    assert_eq!(
        tg_dispatcher(&mut state, &mut backoff, DispatcherEvent::Started),
        DispatcherAction::MakeBot { token: "T".to_string() }
    );
    assert_eq!(state.bot, None);
    assert_eq!(
        tg_dispatcher(&mut state, &mut backoff, DispatcherEvent::BotMade(9u8)),
        DispatcherAction::Attempt
    );
    assert_eq!(state, PluginState { config: Some(config("T")), bot: Some(9) });
}

#[test]
fn dispatcher_waits_longer_after_each_crash() {
    let mut state = PluginState { config: Some(config("T")), bot: Some(1u8) };
    let mut backoff = Backoff::new();
    for secs in [1, 2, 4, 8, 16, 32, 60, 60, 60] {
        assert_eq!(backoff.secs(), secs);
        assert_eq!(
            tg_dispatcher(
                &mut state,
                &mut backoff,
                DispatcherEvent::AttemptEnded(AttemptEnd::Panicked)
            ),
            DispatcherAction::Sleep { secs }
        );
        assert_eq!(
            tg_dispatcher(&mut state, &mut backoff, DispatcherEvent::Slept),
            DispatcherAction::Attempt
        );
    }
}

#[test]
fn dispatcher_stops_where_it_should() {
    let mut state = PluginState { config: Some(config("T")), bot: Some(1u8) };
    let mut backoff = Backoff::new();
    assert_eq!(
        tg_dispatcher(
            &mut state,
            &mut backoff,
            DispatcherEvent::AttemptEnded(AttemptEnd::Finished)
        ),
        DispatcherAction::Stop(StopReason::Finished)
    );
    assert_eq!(
        tg_dispatcher(
            &mut state,
            &mut backoff,
            DispatcherEvent::AttemptEnded(AttemptEnd::Cancelled)
        ),
        DispatcherAction::Stop(StopReason::Cancelled)
    );
    assert_eq!(backoff, Backoff::new());
}
