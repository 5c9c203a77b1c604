//! User-controlled settings: what they are, what is used where none are stored, and
//! the order of the steps that store them.

use vstd::prelude::*;

verus! {

/// User-controlled application settings, persisted to `c9watch/settings.json` in the
/// agent's own directory below the home directory.
#[derive(Debug, Clone, Copy, PartialEq, Eq, Structural)]
pub struct Settings {
    /// Whether the embedded web/WebSocket server accepts connections from the
    /// local network.
    ///
    /// Defaults to `false` (secure by default): only loopback clients (the
    /// desktop app itself and same-machine browsers) can connect. When `true`,
    /// clients on the LAN may connect; a valid auth token is still required.
    pub remote_access: bool,
}

impl Default for Settings {
    fn default() -> (settings: Self)
        ensures
            !settings.remote_access,
    {
        Settings { remote_access: false }
    }
}

/// What the settings file turned out to be.
#[derive(Debug, Clone, Copy, PartialEq, Eq, Structural)]
pub enum StoredSettings {
    /// It could not be read, or is not there.
    Unreadable,
    /// It was read and does not hold settings.
    Malformed,
    /// It holds these settings.
    Parsed(Settings),
}

/// The settings to use, given what the settings file turned out to be: the defaults,
/// with remote access disabled, unless it holds settings.
pub open spec fn loaded(stored: StoredSettings) -> Settings {
    match stored {
        StoredSettings::Parsed(parsed) => parsed,
        _ => Settings { remote_access: false },
    }
}

/// A step that storing the settings takes.
#[derive(Debug)]
pub enum SaveStep {
    /// Create the directory of the settings file, and those above it.
    CreateDirectory,
    /// Write these settings out as text.
    Serialize(Settings),
    /// Write this text to the settings file.
    Write(String),
}

/// What has just happened while the settings are stored. A failure comes with its
/// message.
#[derive(Debug)]
pub enum SaveEvent {
    /// Storing begins; the settings file has a directory above it or not.
    Started { has_parent: bool },
    DirectoryCreated(Result<(), String>),
    Serialized(Result<String, String>),
    Written(Result<(), String>),
}

/// How storing goes on.
#[derive(Debug)]
pub enum SaveProgress {
    Perform(SaveStep),
    Done(Result<(), String>),
}

/// How storing `settings` goes on after `event`.
pub open spec fn save_next(settings: Settings, event: SaveEvent) -> SaveProgress {
    match event {
        SaveEvent::Started { has_parent: true } => SaveProgress::Perform(SaveStep::CreateDirectory),
        SaveEvent::Started { has_parent: false } => SaveProgress::Perform(
            SaveStep::Serialize(settings),
        ),
        SaveEvent::DirectoryCreated(Ok(_)) => SaveProgress::Perform(SaveStep::Serialize(settings)),
        SaveEvent::DirectoryCreated(Err(message)) => SaveProgress::Done(Err(message)),
        SaveEvent::Serialized(Ok(content)) => SaveProgress::Perform(SaveStep::Write(content)),
        SaveEvent::Serialized(Err(message)) => SaveProgress::Done(Err(message)),
        SaveEvent::Written(outcome) => SaveProgress::Done(outcome),
    }
}

impl Settings {
    /// The settings to use, given what the settings file turned out to be: the
    /// defaults unless it holds settings.
    pub fn load(stored: StoredSettings) -> (settings: Self)
        ensures
            settings == loaded(stored),
    {
        match stored {
            StoredSettings::Parsed(parsed) => parsed,
            StoredSettings::Unreadable => Self::default(),
            StoredSettings::Malformed => Self::default(),
        }
    }

    /// How storing these settings goes on after `event`. The directory is created
    /// first, then the settings are written out as text, then the text is written to
    /// the file; the first failure ends it.
    pub fn save(&self, event: SaveEvent) -> (progress: SaveProgress)
        ensures
            progress == save_next(*self, event),
    {
        match event {
            SaveEvent::Started { has_parent } => if has_parent {
                SaveProgress::Perform(SaveStep::CreateDirectory)
            } else {
                SaveProgress::Perform(SaveStep::Serialize(*self))
            },
            SaveEvent::DirectoryCreated(outcome) => match outcome {
                Ok(_) => SaveProgress::Perform(SaveStep::Serialize(*self)),
                Err(message) => SaveProgress::Done(Err(message)),
            },
            SaveEvent::Serialized(outcome) => match outcome {
                Ok(content) => SaveProgress::Perform(SaveStep::Write(content)),
                Err(message) => SaveProgress::Done(Err(message)),
            },
            SaveEvent::Written(outcome) => SaveProgress::Done(outcome),
        }
    }

    /// Where the settings file is: the names below the home directory, outermost
    /// first. `agent` is the name of the agent's command; the agent keeps its files in
    /// a hidden directory of that name.
    pub fn get_path(agent: &str) -> (names: [String; 3])
        ensures
            names@[0]@ == "."@ + agent@,
            names@[1]@ == "c9watch"@,
            names@[2]@ == "settings.json"@,
    {
        [".".to_string().concat(agent), "c9watch".to_string(), "settings.json".to_string()]
    }
}

/// What storing `settings` comes to when it stands at `progress` and each step that
/// is still taken has the outcome given for it.
pub open spec fn save_outcome(
    settings: Settings,
    progress: SaveProgress,
    directory: Result<(), String>,
    text: Result<String, String>,
    written: Result<(), String>,
) -> Result<(), String>
    decreases save_steps_left(progress),
{
    match progress {
        SaveProgress::Done(outcome) => outcome,
        SaveProgress::Perform(step) => {
            let event = match step {
                SaveStep::CreateDirectory => SaveEvent::DirectoryCreated(directory),
                SaveStep::Serialize(_) => SaveEvent::Serialized(text),
                SaveStep::Write(_) => SaveEvent::Written(written),
            };
            save_outcome(settings, save_next(settings, event), directory, text, written)
        },
    }
}

/// How many steps may still be taken.
pub open spec fn save_steps_left(progress: SaveProgress) -> nat {
    match progress {
        SaveProgress::Perform(SaveStep::CreateDirectory) => 3,
        SaveProgress::Perform(SaveStep::Serialize(_)) => 2,
        SaveProgress::Perform(SaveStep::Write(_)) => 1,
        SaveProgress::Done(_) => 0,
    }
}

/// Storing succeeds if every step does, and otherwise fails with the message of the
/// first step that failed.
pub proof fn law_save_fails_with_the_first_failure(
    settings: Settings,
    directory: Result<(), String>,
    text: Result<String, String>,
    written: Result<(), String>,
)
    ensures
        save_outcome(
            settings,
            save_next(settings, SaveEvent::Started { has_parent: true }),
            directory,
            text,
            written,
        ) == (match (directory, text) {
            (Err(message), _) => Err(message),
            (Ok(_), Err(message)) => Err(message),
            (Ok(_), Ok(_)) => written,
        }),
        save_outcome(
            settings,
            save_next(settings, SaveEvent::Started { has_parent: false }),
            directory,
            text,
            written,
        ) == (match text {
            Err(message) => Err(message),
            Ok(_) => written,
        }),
{
    reveal_with_fuel(save_outcome, 5);
}

/// What the settings file holds in the end when storing `settings` stands at `progress`,
/// the file holds `before`, settings are written out with `to_text`, and the other steps
/// have the outcomes given for them. `None` stands for no file, and for one of which
/// nothing is known, as after a write that failed.
pub open spec fn file_after(
    settings: Settings,
    progress: SaveProgress,
    directory: Result<(), String>,
    to_text: spec_fn(Settings) -> Result<String, String>,
    written: Result<(), String>,
    before: Option<String>,
) -> Option<String>
    decreases save_steps_left(progress),
{
    match progress {
        SaveProgress::Done(_) => before,
        SaveProgress::Perform(SaveStep::CreateDirectory) => file_after(
            settings,
            save_next(settings, SaveEvent::DirectoryCreated(directory)),
            directory,
            to_text,
            written,
            before,
        ),
        SaveProgress::Perform(SaveStep::Serialize(saved)) => file_after(
            settings,
            save_next(settings, SaveEvent::Serialized(to_text(saved))),
            directory,
            to_text,
            written,
            before,
        ),
        SaveProgress::Perform(SaveStep::Write(content)) => file_after(
            settings,
            save_next(settings, SaveEvent::Written(written)),
            directory,
            to_text,
            written,
            if written is Ok {
                Some(content)
            } else {
                None
            },
        ),
    }
}

/// Settings that were stored successfully load back: whatever the file held before, it
/// then holds a text that is loaded as these settings. Of how settings are written out
/// as text and read from it, nothing is needed but that what is written out is read as
/// what it was.
pub proof fn law_saved_settings_load_back(
    settings: Settings,
    has_parent: bool,
    directory: Result<(), String>,
    to_text: spec_fn(Settings) -> Result<String, String>,
    from_text: spec_fn(String) -> StoredSettings,
    written: Result<(), String>,
    before: Option<String>,
)
    requires
        forall|s: Settings|
            (#[trigger] to_text(s)) is Ok ==> from_text(to_text(s)->Ok_0) == StoredSettings::Parsed(
                s,
            ),
        save_outcome(
            settings,
            save_next(settings, SaveEvent::Started { has_parent }),
            directory,
            to_text(settings),
            written,
        ) is Ok,
    ensures
        ({
            let after = file_after(
                settings,
                save_next(settings, SaveEvent::Started { has_parent }),
                directory,
                to_text,
                written,
                before,
            );
            after is Some && loaded(from_text(after->0)) == settings
        }),
{
    reveal_with_fuel(save_outcome, 5);
    reveal_with_fuel(file_after, 5);
}

/// Whatever storing hands over to be written out as text is the settings themselves.
pub proof fn law_saved_settings_are_the_settings(settings: Settings, event: SaveEvent)
    ensures
        save_next(settings, event) matches SaveProgress::Perform(SaveStep::Serialize(saved))
            ==> saved == settings,
{
}

/// Remote access is enabled only where stored settings say so.
pub proof fn law_remote_access_is_opt_in(stored: StoredSettings)
    ensures
        loaded(stored).remote_access <==> stored == StoredSettings::Parsed(
            Settings { remote_access: true },
        ),
{
}

/// Only stored settings that say so enable remote access: where the file cannot be read
/// or holds no settings, it is disabled, and otherwise it is as stored.
pub proof fn law_loading_enables_nothing_by_itself(stored: StoredSettings, settings: Settings)
    requires
        call_ensures(Settings::load, (stored,), settings),
    ensures
        !(stored is Parsed) ==> !settings.remote_access,
        stored matches StoredSettings::Parsed(parsed) ==> settings.remote_access
            == parsed.remote_access,
{
}

/// The default is to serve this machine only.
pub proof fn law_default_is_closed(settings: Settings)
    requires
        call_ensures(Settings::default, (), settings),
    ensures
        settings == (Settings { remote_access: false }),
{
}

/// Storing in whole: the steps come in the order directory, text, file; what is written
/// out is these settings, what is written to the file is the text they gave; each
/// failure ends it with its own message, and success comes only from the last step.
pub proof fn law_saving_step_by_step(settings: Settings, event: SaveEvent, progress: SaveProgress)
    requires
        call_ensures(Settings::save, (&settings, event), progress),
    ensures
        progress == SaveProgress::Perform(SaveStep::CreateDirectory) <==> event == (
        SaveEvent::Started { has_parent: true }),
        progress is Perform && progress->Perform_0 is Serialize <==> event == (
        SaveEvent::Started { has_parent: false }) || (event is DirectoryCreated
            && event->DirectoryCreated_0 is Ok),
        progress matches SaveProgress::Perform(SaveStep::Serialize(s)) ==> s.remote_access
            == settings.remote_access,
        progress matches SaveProgress::Perform(SaveStep::Write(text)) ==> event
            == SaveEvent::Serialized(Ok(text)),
        event matches SaveEvent::Serialized(Ok(text)) ==> progress == SaveProgress::Perform(
            SaveStep::Write(text),
        ),
        progress is Done && progress->Done_0 is Ok <==> event is Written && event->Written_0 is Ok,
        progress matches SaveProgress::Done(Err(message)) ==> event == SaveEvent::DirectoryCreated(
            Err(message),
        ) || event == SaveEvent::Serialized(Err(message)) || event == SaveEvent::Written(
            Err(message),
        ),
        event matches SaveEvent::DirectoryCreated(Err(message)) ==> progress == SaveProgress::Done(
            Err(message),
        ),
        event matches SaveEvent::Serialized(Err(message)) ==> progress == SaveProgress::Done(
            Err(message),
        ),
        event matches SaveEvent::Written(Err(message)) ==> progress == SaveProgress::Done(
            Err(message),
        ),
{
}

/// The settings file is `settings.json` in `c9watch`, in the hidden directory that
/// carries the agent's name.
pub proof fn law_settings_path_follows_the_agent(agent: &str, names: [String; 3])
    requires
        call_ensures(Settings::get_path, (agent,), names),
    ensures
        names@[0]@.len() == agent@.len() + 1,
        names@[0]@[0] == '.',
        names@[0]@.drop_first() == agent@,
        names@[1]@ == "c9watch"@,
        names@[2]@ == "settings.json"@,
{
    reveal_strlit(".");
    assert(names@[0]@.drop_first() =~= agent@);
}

} // verus!
