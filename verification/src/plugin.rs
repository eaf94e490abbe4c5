//! The plugin: its identity, its configuration, and how it is loaded, run and
//! unloaded.

use vstd::arithmetic::power2::{lemma2_to64, lemma_pow2_unfold, pow2};
use vstd::prelude::*;

verus! {

/// The configuration of the adapter.
#[derive(Debug, Clone, PartialEq, Eq)]
pub struct Config {
    pub bot_token: String,
    pub api_url: Option<String>,
}

/// The configuration file that is written where there is none.
pub const DEFAULT_CONFIG: &'static str = "# Telegram Adapter Configuration\nbot_token = \"YOUR_BOT_TOKEN_HERE\"\n# api_url = \"https://api.telegram.org\"\n";

/// What the plugin knows while it is loaded: its configuration, and the bot
/// once it runs.
#[derive(Debug, PartialEq, Eq)]
pub struct PluginState<B> {
    pub config: Option<Config>,
    pub bot: Option<B>,
}

impl<B> PluginState<B> {
    /// The state of a plugin that is not loaded.
    pub open spec fn is_empty(self) -> bool {
        self.config is None && self.bot is None
    }

    /// The state of a plugin that is not loaded.
    pub fn new() -> (res: Self)
        ensures
            res.is_empty(),
    {
        PluginState { config: None, bot: None }
    }
}

/// A version of a plugin.
#[derive(Debug, Clone, Copy, PartialEq, Eq)]
pub struct Version {
    pub major: u32,
    pub minor: u32,
    pub patch: u32,
}

/// What a plugin is for.
#[derive(Debug, Clone, Copy, PartialEq, Eq)]
pub enum PluginType {
    Adapter,
}

/// What happened while the plugin is being loaded.
#[derive(Debug, PartialEq, Eq)]
pub enum LoadEvent {
    /// Loading starts.
    Started,
    /// The configuration file holds this text.
    ConfigRead(String),
    /// The configuration file cannot be read.
    ConfigUnreadable,
    /// The text is this configuration.
    ConfigParsed(Config),
    /// The text is no configuration.
    ConfigMalformed,
    /// The default configuration file was written.
    DefaultWritten,
    /// The default configuration file could not be written.
    DefaultNotWritten,
}

/// How loading went.
#[derive(Debug, Clone, Copy, PartialEq, Eq)]
pub enum LoadReport {
    Configured,
    Malformed,
    /// There was no configuration file; now there is the default one.
    DefaultWritten,
    /// There was no configuration file, and still is none.
    DefaultNotWritten,
}

/// What to do next while the plugin is being loaded.
#[allow(inconsistent_fields)]
#[derive(Debug, PartialEq, Eq)]
pub enum LoadAction {
    /// Read the configuration file at `path`, below all configurations.
    ReadConfig { path: &'static str },
    /// Read `content` as a configuration.
    ParseConfig { content: String },
    /// Write `content` to the file `file` of the plugin `plugin`.
    WriteConfig { plugin: &'static str, file: &'static str, content: &'static str },
    /// Register what the plugin `plugin` offers; loading is done.
    Register { plugin: &'static str, report: LoadReport },
}

pub enum LoadActionView {
    ReadConfig { path: Seq<char> },
    ParseConfig { content: Seq<char> },
    WriteConfig { plugin: Seq<char>, file: Seq<char>, content: Seq<char> },
    Register { plugin: Seq<char>, report: LoadReport },
}

impl DeepView for LoadAction {
    type V = LoadActionView;

    open spec fn deep_view(&self) -> LoadActionView {
        match self {
            LoadAction::ReadConfig { path } => LoadActionView::ReadConfig { path: path@ },
            LoadAction::ParseConfig { content } => LoadActionView::ParseConfig { content: content@ },
            LoadAction::WriteConfig { plugin, file, content } => LoadActionView::WriteConfig {
                plugin: plugin@,
                file: file@,
                content: content@,
            },
            LoadAction::Register { plugin, report } => LoadActionView::Register {
                plugin: plugin@,
                report: *report,
            },
        }
    }
}

/// What to do next on an event while the plugin is being loaded.
pub open spec fn load_action(event: LoadEvent) -> LoadActionView {
    match event {
        LoadEvent::Started => LoadActionView::ReadConfig { path: "TGAdapter/config.toml"@ },
        LoadEvent::ConfigRead(content) => LoadActionView::ParseConfig { content: content@ },
        LoadEvent::ConfigUnreadable => LoadActionView::WriteConfig {
            plugin: "TGAdapter"@,
            file: "config.toml"@,
            content: DEFAULT_CONFIG@,
        },
        LoadEvent::ConfigParsed(_) => LoadActionView::Register {
            plugin: "TGAdapter"@,
            report: LoadReport::Configured,
        },
        LoadEvent::ConfigMalformed => LoadActionView::Register {
            plugin: "TGAdapter"@,
            report: LoadReport::Malformed,
        },
        LoadEvent::DefaultWritten => LoadActionView::Register {
            plugin: "TGAdapter"@,
            report: LoadReport::DefaultWritten,
        },
        LoadEvent::DefaultNotWritten => LoadActionView::Register {
            plugin: "TGAdapter"@,
            report: LoadReport::DefaultNotWritten,
        },
    }
}

/// The configuration after an event while the plugin is being loaded: only one
/// that was read and understood takes the place of the one before.
pub open spec fn loaded_config(config: Option<Config>, event: LoadEvent) -> Option<Config> {
    match event {
        LoadEvent::ConfigParsed(parsed) => Some(parsed),
        _ => config,
    }
}

/// The plugin.
#[derive(Debug, Clone, Copy, PartialEq, Eq)]
pub struct TGAdapter;

impl TGAdapter {
    /// The plugin.
    pub fn new() -> (res: Self)
        ensures
            res == TGAdapter,
    {
        TGAdapter
    }

    /// The name of the plugin.
    pub fn name(&self) -> (res: &'static str)
        ensures
            res@ == "TGAdapter"@,
    {
        "TGAdapter"
    }

    /// The version of the plugin.
    pub fn version(&self) -> (res: Version)
        ensures
            res == (Version { major: 0, minor: 0, patch: 1 }),
    {
        Version { major: 0, minor: 0, patch: 1 }
    }

    /// What the plugin is for.
    pub fn plugin_type(&self) -> (res: PluginType)
        ensures
            res == PluginType::Adapter,
    {
        PluginType::Adapter
    }

    /// What to do next while the plugin is being loaded. Only a configuration
    /// that was read and understood changes the state.
    pub fn on_load<B>(&self, state: &mut PluginState<B>, event: LoadEvent) -> (res: LoadAction)
        ensures
            res.deep_view() == load_action(event),
            final(state).bot == old(state).bot,
            final(state).config == loaded_config(old(state).config, event),
    {
        let plugin = self.name();
        match event {
            LoadEvent::Started => LoadAction::ReadConfig { path: "TGAdapter/config.toml" },
            LoadEvent::ConfigRead(content) => LoadAction::ParseConfig { content },
            LoadEvent::ConfigUnreadable => LoadAction::WriteConfig {
                plugin,
                file: "config.toml",
                content: DEFAULT_CONFIG,
            },
            LoadEvent::ConfigParsed(config) => {
                state.config = Some(config);
                LoadAction::Register { plugin, report: LoadReport::Configured }
            },
            LoadEvent::ConfigMalformed => LoadAction::Register {
                plugin,
                report: LoadReport::Malformed,
            },
            LoadEvent::DefaultWritten => LoadAction::Register {
                plugin,
                report: LoadReport::DefaultWritten,
            },
            LoadEvent::DefaultNotWritten => LoadAction::Register {
                plugin,
                report: LoadReport::DefaultNotWritten,
            },
        }
    }

    /// Forgets everything, so that the plugin can be loaded anew.
    pub fn on_unload<B>(&self, state: &mut PluginState<B>)
        ensures
            final(state).is_empty(),
    {
        state.bot = None;
        state.config = None;
    }
}

/// The longest delay between two attempts to connect, in seconds.
pub const MAX_BACKOFF: u64 = 60;

/// The delay that follows a delay of `secs` seconds.
pub open spec fn next_backoff(secs: nat) -> nat {
    if 2 * secs < MAX_BACKOFF {
        2 * secs
    } else {
        MAX_BACKOFF as nat
    }
}

/// The delay after `crashes` crashes in a row before it.
pub open spec fn backoff_after(crashes: nat) -> nat
    decreases crashes,
{
    if crashes == 0 {
        1
    } else {
        next_backoff(backoff_after((crashes - 1) as nat))
    }
}

/// How long to wait before the next attempt to connect.
#[derive(Debug, PartialEq, Eq)]
pub struct Backoff {
    secs: u64,
}

impl View for Backoff {
    type V = nat;

    closed spec fn view(&self) -> nat {
        self.secs as nat
    }
}

impl Backoff {
    #[verifier::type_invariant]
    spec fn in_bounds(self) -> bool {
        1 <= self.secs <= MAX_BACKOFF
    }

    /// The first delay.
    pub fn new() -> (res: Self)
        ensures
            res@ == 1,
    {
        Backoff { secs: 1 }
    }

    /// The delay in seconds.
    pub fn secs(&self) -> (res: u64)
        ensures
            res == self@,
            1 <= res <= MAX_BACKOFF,
    {
        proof {
            use_type_invariant(self);
        }
        self.secs
    }

    /// Doubles the delay, up to the longest one.
    pub fn grow(&mut self)
        ensures
            final(self)@ == next_backoff(old(self)@),
    {
        proof {
            use_type_invariant(&*self);
        }
        self.secs = if self.secs * 2 < MAX_BACKOFF {
            self.secs * 2
        } else {
            MAX_BACKOFF
        };
    }
}

/// How an attempt to receive updates ended.
#[derive(Debug, Clone, Copy, PartialEq, Eq)]
pub enum AttemptEnd {
    /// It shut down by itself.
    Finished,
    /// It panicked, as it does where Telegram cannot be reached.
    Panicked,
    /// It was cancelled.
    Cancelled,
}

/// What happened while the adapter receives updates.
#[derive(Debug, PartialEq, Eq)]
pub enum DispatcherEvent<B> {
    /// The adapter starts.
    Started,
    /// The bot was made.
    BotMade(B),
    /// An attempt to receive updates ended.
    AttemptEnded(AttemptEnd),
    /// The delay is over.
    Slept,
}

/// Why the adapter stops receiving updates.
#[derive(Debug, Clone, Copy, PartialEq, Eq)]
pub enum StopReason {
    NotConfigured,
    Finished,
    Cancelled,
}

/// What to do next while the adapter receives updates.
#[derive(Debug, PartialEq, Eq)]
pub enum DispatcherAction {
    MakeBot { token: String },
    /// Try to receive updates.
    Attempt,
    Sleep { secs: u64 },
    Stop(StopReason),
}

pub enum DispatcherActionView {
    MakeBot { token: Seq<char> },
    Attempt,
    Sleep { secs: nat },
    Stop(StopReason),
}

impl DeepView for DispatcherAction {
    type V = DispatcherActionView;

    open spec fn deep_view(&self) -> DispatcherActionView {
        match self {
            DispatcherAction::MakeBot { token } => DispatcherActionView::MakeBot { token: token@ },
            DispatcherAction::Attempt => DispatcherActionView::Attempt,
            DispatcherAction::Sleep { secs } => DispatcherActionView::Sleep { secs: *secs as nat },
            DispatcherAction::Stop(reason) => DispatcherActionView::Stop(*reason),
        }
    }
}

/// What to do next on an event, with the configuration and the delay at hand.
pub open spec fn dispatcher_action<B>(
    config: Option<Config>,
    backoff: nat,
    event: DispatcherEvent<B>,
) -> DispatcherActionView {
    match event {
        DispatcherEvent::Started => match config {
            Some(config) => DispatcherActionView::MakeBot { token: config.bot_token@ },
            None => DispatcherActionView::Stop(StopReason::NotConfigured),
        },
        DispatcherEvent::BotMade(_) => DispatcherActionView::Attempt,
        DispatcherEvent::AttemptEnded(end) => match end {
            AttemptEnd::Finished => DispatcherActionView::Stop(StopReason::Finished),
            AttemptEnd::Panicked => DispatcherActionView::Sleep { secs: backoff },
            AttemptEnd::Cancelled => DispatcherActionView::Stop(StopReason::Cancelled),
        },
        DispatcherEvent::Slept => DispatcherActionView::Attempt,
    }
}

/// The delay after an event: a delay that is over is followed by a longer one.
pub open spec fn backoff_step<B>(backoff: nat, event: DispatcherEvent<B>) -> nat {
    match event {
        DispatcherEvent::Slept => next_backoff(backoff),
        _ => backoff,
    }
}

/// The bot after an event: the one that was made last.
pub open spec fn running_bot<B>(bot: Option<B>, event: DispatcherEvent<B>) -> Option<B> {
    match event {
        DispatcherEvent::BotMade(made) => Some(made),
        _ => bot,
    }
}

/// What to do next while the adapter receives updates: connect with the
/// configured token, and after a crash wait and connect again, twice as long
/// after each crash.
pub fn tg_dispatcher<B>(
    state: &mut PluginState<B>,
    backoff: &mut Backoff,
    event: DispatcherEvent<B>,
) -> (res: DispatcherAction)
    ensures
        res.deep_view() == dispatcher_action(old(state).config, old(backoff)@, event),
        final(state).config == old(state).config,
        final(state).bot == running_bot(old(state).bot, event),
        final(backoff)@ == backoff_step(old(backoff)@, event),
{
    match event {
        DispatcherEvent::Started => match &state.config {
            Some(config) => DispatcherAction::MakeBot { token: config.bot_token.clone() },
            None => DispatcherAction::Stop(StopReason::NotConfigured),
        },
        DispatcherEvent::BotMade(bot) => {
            state.bot = Some(bot);
            DispatcherAction::Attempt
        },
        DispatcherEvent::AttemptEnded(end) => match end {
            AttemptEnd::Finished => DispatcherAction::Stop(StopReason::Finished),
            AttemptEnd::Panicked => DispatcherAction::Sleep { secs: backoff.secs() },
            AttemptEnd::Cancelled => DispatcherAction::Stop(StopReason::Cancelled),
        },
        DispatcherEvent::Slept => {
            backoff.grow();
            DispatcherAction::Attempt
        },
    }
}

/// The delay doubles with each crash in a row until it reaches the longest
/// one, where it stays: after `n` crashes it is the lesser of two to the `n`
/// and that.
pub proof fn law_backoff_doubles(n: nat)
    ensures
        backoff_after(n) == (if pow2(n) < MAX_BACKOFF {
            pow2(n)
        } else {
            MAX_BACKOFF as nat
        }),
    decreases n,
{
    lemma2_to64();
    if n > 0 {
        law_backoff_doubles((n - 1) as nat);
        lemma_pow2_unfold(n);
    }
}

/// The delay after `events`, from the first delay on.
pub open spec fn backoff_run<B>(events: Seq<DispatcherEvent<B>>) -> nat
    decreases events.len(),
{
    if events.len() == 0 {
        1
    } else {
        backoff_step(backoff_run(events.drop_last()), events.last())
    }
}

/// How many delays are over after `events`.
pub open spec fn delays<B>(events: Seq<DispatcherEvent<B>>) -> nat
    decreases events.len(),
{
    if events.len() == 0 {
        0
    } else {
        delays(events.drop_last()) + if events.last() is Slept {
            1nat
        } else {
            0
        }
    }
}

/// Whatever happens while the adapter receives updates, the delay depends on
/// the number of crashes that were waited for alone, and it is never shorter
/// than a second nor longer than the longest one.
pub proof fn law_backoff_counts_crashes<B>(events: Seq<DispatcherEvent<B>>)
    ensures
        backoff_run(events) == backoff_after(delays(events)),
        1 <= backoff_run(events) <= MAX_BACKOFF,
    decreases events.len(),
{
    if events.len() > 0 {
        law_backoff_counts_crashes(events.drop_last());
    }
}

/// Whether `event` can be the reply to `action`.
pub open spec fn replies(action: LoadActionView, event: LoadEvent) -> bool {
    match action {
        LoadActionView::ReadConfig { .. } => event is ConfigRead || event is ConfigUnreadable,
        LoadActionView::ParseConfig { .. } => event is ConfigParsed || event is ConfigMalformed,
        LoadActionView::WriteConfig { .. } => event is DefaultWritten || event is DefaultNotWritten,
        LoadActionView::Register { .. } => false,
    }
}

/// Loading always ends with registering the plugin, whatever becomes of its
/// configuration: it starts with a reading, the reply to a reading is a
/// parsing or a writing, and the reply to either of these is the registration.
pub proof fn law_loading_registers(first: LoadEvent, second: LoadEvent)
    requires
        replies(load_action(LoadEvent::Started), first),
        replies(load_action(first), second),
    ensures
        load_action(second) matches LoadActionView::Register { plugin, report } && plugin
            == "TGAdapter"@ && (report is Configured) == (second is ConfigParsed),
{
}

/// A configuration file is written only where there is none that can be read.
pub proof fn law_readable_config_is_kept(event: LoadEvent)
    ensures
        (load_action(event) is WriteConfig) == (event is ConfigUnreadable),
{
}

/// A configuration file that was written because there was none is what is
/// parsed when it is read the next time; where it parses, what it says becomes
/// the configuration, and where it does not, the configuration stays; nothing
/// is written again either way.
pub proof fn law_written_config_is_loaded(
    written: Seq<char>,
    content: String,
    parsed: LoadEvent,
    before: Option<Config>,
)
    requires
        load_action(LoadEvent::ConfigUnreadable) matches LoadActionView::WriteConfig { content, .. }
            && content == written,
        content@ == written,
        replies(load_action(LoadEvent::ConfigRead(content)), parsed),
    ensures
        written == DEFAULT_CONFIG@,
        replies(load_action(LoadEvent::Started), LoadEvent::ConfigRead(content)),
        load_action(LoadEvent::ConfigRead(content)) == (LoadActionView::ParseConfig {
            content: written,
        }),
        load_action(parsed) is Register,
        loaded_config(before, LoadEvent::ConfigRead(content)) == before,
        match parsed {
            LoadEvent::ConfigParsed(config) => loaded_config(before, parsed) == Some(config),
            _ => loaded_config(before, parsed) == before,
        },
{
}

/// An adapter that was unloaded is as one that was never loaded: it does not
/// start until it is loaded anew.
pub proof fn law_unloaded_does_not_start<B>(state: PluginState<B>, backoff: nat)
    requires
        state.is_empty(),
    ensures
        dispatcher_action::<B>(state.config, backoff, DispatcherEvent::Started)
            == DispatcherActionView::Stop(StopReason::NotConfigured),
{
}

/// A crash never stops the adapter: it stops only where it is not configured,
/// where it shut down by itself or where it was cancelled, and after a crash it
/// waits and tries again.
pub proof fn law_crash_is_retried<B>(
    config: Option<Config>,
    backoff: nat,
    event: DispatcherEvent<B>,
)
    ensures
        dispatcher_action(config, backoff, event) is Stop ==> {
            ||| event is Started && config is None
            ||| event == DispatcherEvent::<B>::AttemptEnded(AttemptEnd::Finished)
            ||| event == DispatcherEvent::<B>::AttemptEnded(AttemptEnd::Cancelled)
        },
        event == DispatcherEvent::<B>::AttemptEnded(AttemptEnd::Panicked) ==> dispatcher_action(
            config,
            backoff,
            event,
        ) == (DispatcherActionView::Sleep { secs: backoff }),
        event is Slept ==> dispatcher_action(config, backoff, event) is Attempt,
{
}

/// Loading reads the plugin's configuration file; what it holds is parsed;
/// where it cannot be read, the default one is written in its place; and then
/// the plugin is registered, with a report of how that went.
pub proof fn law_loading_steps(content: String, config: Config)
    ensures
        load_action(LoadEvent::Started) == (LoadActionView::ReadConfig {
            path: "TGAdapter/config.toml"@,
        }),
        load_action(LoadEvent::ConfigRead(content)) == (LoadActionView::ParseConfig {
            content: content@,
        }),
        load_action(LoadEvent::ConfigUnreadable) == (LoadActionView::WriteConfig {
            plugin: "TGAdapter"@,
            file: "config.toml"@,
            content: DEFAULT_CONFIG@,
        }),
        load_action(LoadEvent::ConfigParsed(config)) == (LoadActionView::Register {
            plugin: "TGAdapter"@,
            report: LoadReport::Configured,
        }),
        load_action(LoadEvent::ConfigMalformed) == (LoadActionView::Register {
            plugin: "TGAdapter"@,
            report: LoadReport::Malformed,
        }),
        load_action(LoadEvent::DefaultWritten) == (LoadActionView::Register {
            plugin: "TGAdapter"@,
            report: LoadReport::DefaultWritten,
        }),
        load_action(LoadEvent::DefaultNotWritten) == (LoadActionView::Register {
            plugin: "TGAdapter"@,
            report: LoadReport::DefaultNotWritten,
        }),
{
}

/// The adapter connects with the token of the configuration that was loaded
/// last, whatever happened before and whatever loading could not understand
/// since; without one it does not start.
pub proof fn law_loaded_token_is_used<B>(
    before: Option<Config>,
    loaded: Config,
    later: LoadEvent,
    backoff: nat,
)
    requires
        !(later is ConfigParsed),
    ensures
        ({
            let config = loaded_config(loaded_config(before, LoadEvent::ConfigParsed(loaded)), later);
            dispatcher_action::<B>(config, backoff, DispatcherEvent::Started) == (
            DispatcherActionView::MakeBot { token: loaded.bot_token@ })
        }),
        dispatcher_action::<B>(loaded_config(None, later), backoff, DispatcherEvent::Started)
            == DispatcherActionView::Stop(StopReason::NotConfigured),
{
}

/// The bot that was made is tried at once and again after each delay, and it is
/// the bot that runs until another one is made. An attempt that ends by itself
/// or is cancelled is the last one, for that reason; a crash is followed by a
/// delay, of a minute at most.
pub proof fn law_running_steps<B>(
    config: Option<Config>,
    backoff: nat,
    bot: Option<B>,
    made: B,
    end: AttemptEnd,
)
    ensures
        dispatcher_action(config, backoff, DispatcherEvent::BotMade(made))
            == DispatcherActionView::Attempt,
        running_bot(bot, DispatcherEvent::BotMade(made)) == Some(made),
        dispatcher_action::<B>(config, backoff, DispatcherEvent::Slept)
            == DispatcherActionView::Attempt,
        running_bot(bot, DispatcherEvent::Slept) == bot,
        running_bot(bot, DispatcherEvent::Started) == bot,
        running_bot(bot, DispatcherEvent::AttemptEnded(end)) == bot,
        dispatcher_action::<B>(config, backoff, DispatcherEvent::AttemptEnded(end)) == match end {
            AttemptEnd::Finished => DispatcherActionView::Stop(StopReason::Finished),
            AttemptEnd::Panicked => DispatcherActionView::Sleep { secs: backoff },
            AttemptEnd::Cancelled => DispatcherActionView::Stop(StopReason::Cancelled),
        },
        backoff_step::<B>(backoff, DispatcherEvent::Slept) <= 60,
        2 * backoff <= 60 ==> backoff_step::<B>(backoff, DispatcherEvent::Slept) == 2 * backoff,
        backoff_step::<B>(backoff, DispatcherEvent::AttemptEnded(end)) == backoff,
{
}

/// The models of actions hold all of them, and a plugin that is not loaded has
/// neither a configuration nor a bot.
pub proof fn law_models_of_actions<B>(
    load: LoadAction,
    run: DispatcherAction,
    state: PluginState<B>,
)
    ensures
        match load {
            LoadAction::ReadConfig { path } => load.deep_view() == (LoadActionView::ReadConfig {
                path: path@,
            }),
            LoadAction::ParseConfig { content } => load.deep_view() == (
            LoadActionView::ParseConfig { content: content@ }),
            LoadAction::WriteConfig { plugin, file, content } => load.deep_view() == (
            LoadActionView::WriteConfig { plugin: plugin@, file: file@, content: content@ }),
            LoadAction::Register { plugin, report } => load.deep_view() == (
            LoadActionView::Register { plugin: plugin@, report }),
        },
        match run {
            DispatcherAction::MakeBot { token } => run.deep_view() == (
            DispatcherActionView::MakeBot { token: token@ }),
            DispatcherAction::Attempt => run.deep_view() == DispatcherActionView::Attempt,
            DispatcherAction::Sleep { secs } => run.deep_view() == (DispatcherActionView::Sleep {
                secs: secs as nat,
            }),
            DispatcherAction::Stop(reason) => run.deep_view() == DispatcherActionView::Stop(reason),
        },
        state.is_empty() <==> state.config is None && state.bot is None,
{
}

} // verus!
