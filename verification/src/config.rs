//! The settings that the program is started with.

use vstd::prelude::*;

verus! {

/// What the program is told when it is started.
#[derive(Debug)]
pub struct Cli {
    /// The directory that the program works in.
    pub run_dir: String,
}

/// What the program is told when it is started, as a mathematical value.
pub struct CliView {
    pub run_dir: Seq<char>,
}

impl View for Cli {
    type V = CliView;

    open spec fn view(&self) -> CliView {
        CliView { run_dir: self.run_dir@ }
    }
}

impl Clone for Cli {
    fn clone(&self) -> (r: Cli)
        ensures
            r@ == self@,
    {
        Cli { run_dir: self.run_dir.clone() }
    }
}

/// The settings of the program.
#[derive(Debug)]
pub struct Config {
    /// What a message begins with when it calls a command.
    pub prefix: String,
    /// How many messages are remembered for each channel.
    pub msg_cache: usize,
    /// Where log entries go.
    pub logging: LoggingConfig,
    /// When to react to a message, and with what.
    pub emoji: EmojiConfig,
}

/// Where log entries go.
#[derive(Debug)]
pub struct LoggingConfig {
    /// The address of the webhook.
    pub webhook_url: String,
    /// The least severe level that is printed.
    pub global_level: String,
    /// The least severe level that is sent to the webhook.
    pub webhook_level: String,
}

/// The reaction to messages that hold a phrase.
#[derive(Debug)]
pub struct EmojiConfig {
    /// The emoji to react with, as text.
    pub emoji: String,
    /// The phrase that is reacted to.
    pub phrase: String,
}

/// The settings of the first generation of the program.
#[derive(Debug)]
pub struct FlopConfig {
    pub emote: ConfigEmoji,
    pub prefix: char,
    pub message_cache_size: usize,
    pub error_channel: u64,
}

/// The emoji of the first generation of the program.
#[derive(Debug)]
pub struct ConfigEmoji {
    pub count: u64,
    pub id: u64,
    pub animated: bool,
    pub name: String,
    pub phrase: String,
}

/// The identifier of the emoji that is used where none is set.
pub const DEFAULT_EMOJI_ID: u64 = 853358698964713523;

/// The name and the phrase of the emoji that is used where none is set.
pub const DEFAULT_EMOJI_NAME: &'static str = "flop";

impl Default for ConfigEmoji {
    fn default() -> (r: ConfigEmoji)
        ensures
            r.count == 0,
            r.id == DEFAULT_EMOJI_ID,
            !r.animated,
            r.name@ == DEFAULT_EMOJI_NAME@,
            r.phrase@ == DEFAULT_EMOJI_NAME@,
    {
        ConfigEmoji {
            count: 0,
            id: DEFAULT_EMOJI_ID,
            animated: false,
            name: DEFAULT_EMOJI_NAME.to_owned(),
            phrase: DEFAULT_EMOJI_NAME.to_owned(),
        }
    }
}

impl Clone for ConfigEmoji {
    fn clone(&self) -> (r: ConfigEmoji)
        ensures
            r.count == self.count,
            r.id == self.id,
            r.animated == self.animated,
            r.name@ == self.name@,
            r.phrase@ == self.phrase@,
    {
        ConfigEmoji {
            count: self.count,
            id: self.id,
            animated: self.animated,
            name: self.name.clone(),
            phrase: self.phrase.clone(),
        }
    }
}

/// Whether two settings of the first generation say the same.
pub open spec fn same_settings(a: FlopConfig, b: FlopConfig) -> bool {
    &&& a.emote.count == b.emote.count
    &&& a.emote.id == b.emote.id
    &&& a.emote.animated == b.emote.animated
    &&& a.emote.name@ == b.emote.name@
    &&& a.emote.phrase@ == b.emote.phrase@
    &&& a.prefix == b.prefix
    &&& a.message_cache_size == b.message_cache_size
    &&& a.error_channel == b.error_channel
}

impl Clone for FlopConfig {
    fn clone(&self) -> (r: FlopConfig)
        ensures
            same_settings(r, *self),
    {
        FlopConfig {
            emote: self.emote.clone(),
            prefix: self.prefix,
            message_cache_size: self.message_cache_size,
            error_channel: self.error_channel,
        }
    }
}

/// Keeps the settings of the first generation of the program for all its
/// parts.
#[derive(Debug)]
pub struct DataHolder {
    cfg: FlopConfig,
}

impl DataHolder {
    /// The settings that are kept.
    pub closed spec fn settings(&self) -> FlopConfig {
        self.cfg
    }

    /// The holder of `cfg`.
    pub fn new(cfg: FlopConfig) -> (r: DataHolder)
        ensures
            r.settings() == cfg,
    {
        DataHolder { cfg }
    }

    /// A copy of the settings.
    pub fn get_cfg(&self) -> (r: FlopConfig)
        ensures
            same_settings(r, self.settings()),
    {
        self.cfg.clone()
    }

    /// Puts new settings in place of the old.
    pub fn set_cfg(&mut self, new_cfg: FlopConfig)
        ensures
            final(self).settings() == new_cfg,
    {
        self.cfg = new_cfg;
    }
}

} // verus!
