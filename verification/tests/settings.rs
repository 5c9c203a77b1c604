use c9watch::settings::{SaveEvent, SaveProgress, SaveStep, Settings, StoredSettings};

#[test]
fn defaults_to_remote_access_disabled() {
    assert!(!Settings::default().remote_access);
}

#[test]
fn missing_or_malformed_settings_load_as_default() {
    assert!(!Settings::load(StoredSettings::Unreadable).remote_access);
    assert!(!Settings::load(StoredSettings::Malformed).remote_access);
}

#[test]
fn stored_settings_load_as_stored() {
    for remote_access in [true, false] {
        let stored = StoredSettings::Parsed(Settings { remote_access });
        assert_eq!(Settings::load(stored).remote_access, remote_access);
    }
}

#[test]
fn settings_path_is_below_the_agent_directory() {
    assert_eq!(Settings::get_path("agent"), [".agent", "c9watch", "settings.json"]);
}

/// Runs storing to its end, with these outcomes, and lists the steps taken.
fn run_save(
    has_parent: bool,
    directory: Result<(), String>,
    text: Result<String, String>,
    written: Result<(), String>,
) -> (Vec<String>, Result<(), String>) {
    let settings = Settings { remote_access: true };
    let mut steps = vec![];
    let mut event = SaveEvent::Started { has_parent };
    loop {
        event = match settings.save(event) {
            SaveProgress::Done(outcome) => return (steps, outcome),
            SaveProgress::Perform(SaveStep::CreateDirectory) => {
                steps.push("create".to_string());
                SaveEvent::DirectoryCreated(directory.clone())
            }
            SaveProgress::Perform(SaveStep::Serialize(s)) => {
                steps.push(format!("serialize {}", s.remote_access));
                SaveEvent::Serialized(text.clone())
            }
            SaveProgress::Perform(SaveStep::Write(content)) => {
                steps.push(format!("write {}", content));
                SaveEvent::Written(written.clone())
            }
        };
    }
}

fn err<T>(message: &str) -> Result<T, String> {
    Err(message.to_string())
}

#[test]
fn saving_takes_its_steps_in_order() {
    let (steps, outcome) = run_save(true, Ok(()), Ok("{}".to_string()), Ok(()));
    assert_eq!(steps, vec!["create", "serialize true", "write {}"]);
    assert_eq!(outcome, Ok(()));
    let (steps, outcome) = run_save(false, err("unused"), Ok("{}".to_string()), Ok(()));
    assert_eq!(steps, vec!["serialize true", "write {}"]);
    assert_eq!(outcome, Ok(()));
}

#[test]
fn saving_fails_with_the_first_failure() {
    let (steps, outcome) = run_save(true, err("d"), err("s"), err("w"));
    assert_eq!(steps, vec!["create"]);
    assert_eq!(outcome, err("d"));
    let (steps, outcome) = run_save(true, Ok(()), err("s"), err("w"));
    assert_eq!(steps, vec!["create", "serialize true"]);
    assert_eq!(outcome, err("s"));
    let (steps, outcome) = run_save(true, Ok(()), Ok("t".to_string()), err("w"));
    assert_eq!(steps, vec!["create", "serialize true", "write t"]);
    assert_eq!(outcome, err("w"));
}

#[test]
fn stored_settings_load_back() {
    for remote_access in [true, false] {
        let settings = Settings { remote_access };
        let mut file = "anything".to_string();
        let mut event = SaveEvent::Started { has_parent: true };
        let outcome = loop {
            event = match settings.save(event) {
                SaveProgress::Done(outcome) => break outcome,
                SaveProgress::Perform(SaveStep::CreateDirectory) => {
                    SaveEvent::DirectoryCreated(Ok(()))
                }
                SaveProgress::Perform(SaveStep::Serialize(s)) => {
                    SaveEvent::Serialized(Ok(format!("{}", s.remote_access)))
                }
                SaveProgress::Perform(SaveStep::Write(content)) => {
                    file = content;
                    SaveEvent::Written(Ok(()))
                }
            };
        };
        assert_eq!(outcome, Ok(()));
        let stored = StoredSettings::Parsed(Settings { remote_access: file == "true" });
        assert_eq!(Settings::load(stored), settings);
    }
}
