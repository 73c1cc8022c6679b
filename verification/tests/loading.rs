//! Tests of the load algorithm: first-match selection, default fallback,
//! explicit-path bypass, error classification, and a serialization round
//! trip through a real TOML deserializer.

use loadconf::path_list;
use loadconf::read_outcome;
use loadconf::search_outcome;
use loadconf::select_candidate;
use loadconf::Error;
use loadconf::Load;

/// Sample configuration
#[derive(Debug, PartialEq, Eq)]
struct Config {
    /// Sample variable
    var: String,
}

impl Load for Config {
    fn default_value() -> Config {
        Config { var: "Test configuration.".to_string() }
    }

    fn from_toml_text(text: &str) -> Result<Config, String> {
        let table: toml::Table = match toml::from_str(text) {
            Ok(t) => t,
            Err(e) => return Err(e.to_string()),
        };
        match table.get("var").and_then(|v| v.as_str()) {
            Some(s) => Ok(Config { var: s.to_string() }),
            None => Err("configuration has no string key `var`".to_string()),
        }
    }
}

/// Reads the file that the search selects among the candidates for
/// `name`, given which candidates exist and what the existing ones hold.
fn simulated_search_load(
    name: &str,
    home: Option<&str>,
    files: &[(&str, &str)],
) -> Result<Config, Error> {
    let paths = path_list(name, home);
    let exists: Vec<bool> = paths
        .iter()
        .map(|p| files.iter().any(|(f, _)| f == p))
        .collect();
    let found = select_candidate(&exists).map(|i| {
        let (_, text) = files.iter().find(|(f, _)| *f == paths[i]).unwrap();
        Ok(Config::from_toml_text(text))
    });
    search_outcome(found, Config::default_value())
}

/// Test loading default configuration.
#[test]
fn load_default() {
    let config: Config = simulated_search_load("testcfg", None, &[]).unwrap();
    assert_eq!(config, Config::default_value());
}

/// No matching files anywhere: the search yields the default value, with
/// no error.
#[test]
fn no_matching_files_returns_default() {
    let config: Config =
        simulated_search_load("sample", Some("/home/test"), &[]).unwrap();
    assert_eq!(config, Config::default_value());
}

/// Test load configuration from a file.
#[test]
fn file_test() {
    let config: Config = simulated_search_load(
        "testcfg",
        None,
        &[(".testcfg.toml", "var = \"Test configuration file\"\n")],
    )
    .unwrap();
    let expected = Config { var: "Test configuration file".to_string() };
    assert_eq!(config, expected);
}

/// A hidden TOML file in the working directory wins when no
/// higher-priority candidate exists.
#[test]
fn hidden_toml_is_selected() {
    let config: Config = simulated_search_load(
        "sample",
        Some("/home/test"),
        &[(".sample.toml", "var = \"hello\"\n")],
    )
    .unwrap();
    assert_eq!(config, Config { var: "hello".to_string() });
}

/// Of several existing candidates, the earliest in priority order is the
/// one loaded; later existing candidates are never read.
#[test]
fn earliest_existing_candidate_wins() {
    let config: Config = simulated_search_load(
        "sample",
        Some("/home/test"),
        &[
            ("/etc/.config/sample", "var = \"system\"\n"),
            (".sample.toml", "var = \"hidden\"\n"),
            ("sample.toml", "var = \"plain\"\n"),
        ],
    )
    .unwrap();
    assert_eq!(config, Config { var: "plain".to_string() });
}

/// The index the selection returns is the first existing candidate.
#[test]
fn selection_picks_first_true() {
    assert_eq!(select_candidate(&vec![false, true, false, true]), Some(1));
    assert_eq!(select_candidate(&vec![true, false]), Some(0));
    assert_eq!(select_candidate(&vec![false, false]), None);
    assert_eq!(select_candidate(&vec![]), None);
}

/// Test load configuration from a file specified directly.
#[test]
fn specified_file_test() {
    let read = Ok(Config::from_toml_text("var = \"Test configuration file\"\n"));
    let config: Config = read_outcome(read).unwrap();
    let expected = Config { var: "Test configuration file".to_string() };
    assert_eq!(config, expected);
}

/// An explicitly given path is used as it stands: its content decides,
/// whatever candidates for the application name might also exist.
#[test]
fn explicit_path_bypasses_search() {
    let read = Ok(Config::from_toml_text("var = \"x\"\n"));
    let config: Config = read_outcome(read).unwrap();
    assert_eq!(config, Config { var: "x".to_string() });
}

/// A missing explicitly given path is an access error, never the default.
#[test]
fn missing_explicit_path_is_access_error() {
    let read: Result<Result<Config, String>, String> =
        Err("No such file or directory (os error 2)".to_string());
    let result: Result<Config, Error> = read_outcome(read);
    match result {
        Err(Error::File(m)) => {
            assert_eq!(m, "No such file or directory (os error 2)");
        }
        other => panic!("expected an access error, got {:?}", other),
    }
}

/// Text that is not TOML at all is a deserialization error.
#[test]
fn invalid_toml_is_deserialize_error() {
    let read = Ok(Config::from_toml_text("var = = =\n"));
    let result: Result<Config, Error> = read_outcome(read);
    assert!(matches!(result, Err(Error::Deserialize(_))));
}

/// Well-formed TOML that does not match the target type's shape is a
/// deserialization error too.
#[test]
fn wrong_shape_is_deserialize_error() {
    let read = Ok(Config::from_toml_text("var = 3\n"));
    let result: Result<Config, Error> = read_outcome(read);
    assert!(matches!(result, Err(Error::Deserialize(_))));
}

/// A value serialized to TOML and placed where the search would select it
/// loads back equal to itself.
#[test]
fn round_trip() {
    let value = Config { var: "round trip".to_string() };
    let mut table = toml::Table::new();
    table.insert("var".to_string(), toml::Value::String(value.var.clone()));
    let text = toml::to_string(&table).unwrap();

    let config: Config = simulated_search_load(
        "sample",
        Some("/home/test"),
        &[("sample", text.as_str())],
    )
    .unwrap();
    assert_eq!(config, value);
}

/// Each error kind describes itself.
#[test]
fn error_descriptions() {
    let file = Error::File("cause a".to_string());
    let deserialize = Error::Deserialize("cause b".to_string());
    assert_eq!(file.description(), "Error opening or reading file");
    assert_eq!(deserialize.description(), "Error deserializing file");
    assert_eq!(file.cause().as_str(), "cause a");
    assert_eq!(deserialize.cause().as_str(), "cause b");
}
