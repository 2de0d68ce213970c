use config::{Config, File, FileFormat};
use vinyl::settings::{endpoint, endpoint_of, EndpointError, Entry};

fn settings(toml: &str) -> Config {
    Config::default().merge(File::from_str(toml, FileFormat::Toml)).unwrap()
}

fn entry(key: &str, text: Option<&str>, number: Option<i64>) -> Entry {
    Entry { key: key.to_string(), text: text.map(|t| t.to_string()), number }
}

fn error(toml: &str) -> EndpointError {
    endpoint(&settings(toml)).unwrap_err()
}

#[test]
fn the_settings_tell_where_the_daemon_listens() {
    let found = endpoint(&settings("[mpd]\nhost = \"music.local\"\nport = 6600\n")).unwrap();
    assert_eq!(found.host, "music.local");
    assert_eq!(found.port, 6600);
}

#[test]
fn later_settings_take_precedence() {
    let mut merged = settings("[mpd]\nhost = \"localhost\"\nport = 6600\n");
    merged.merge(File::from_str("[mpd]\nhost = \"music.local\"\n", FileFormat::Toml)).unwrap();
    let found = endpoint(&merged).unwrap();
    assert_eq!(found.host, "music.local");
    assert_eq!(found.port, 6600);
}

#[test]
fn values_are_read_leniently() {
    let found = endpoint(&settings("[mpd]\nhost = 127\nport = \"6601\"\n")).unwrap();
    assert_eq!(found.host, "127");
    assert_eq!(found.port, 6601);
    let found = endpoint(&settings("[mpd]\nhost = true\nport = \"on\"\n")).unwrap();
    assert_eq!(found.host, "true");
    assert_eq!(found.port, 1);
}

#[test]
fn a_port_keeps_its_lowest_bits() {
    let port = |number: i64| {
        let toml = format!("[mpd]\nhost = \"h\"\nport = {}\n", number);
        endpoint(&settings(&toml)).unwrap().port
    };
    assert_eq!(port(0), 0);
    assert_eq!(port(65_535), 65_535);
    assert_eq!(port(65_536), 0);
    assert_eq!(port(72_136), 6600);
    assert_eq!(port(-1), 65_535);
}

#[test]
fn the_table_is_needed() {
    assert_eq!(error(""), EndpointError::NoTable);
    assert_eq!(error("mpd = \"localhost:6600\"\n"), EndpointError::NoTable);
    assert_eq!(EndpointError::NoTable.message(), "config: mpd must be a table");
}

#[test]
fn the_host_is_needed() {
    assert_eq!(error("[mpd]\nport = 6600\n"), EndpointError::NoHost);
    assert_eq!(error("[mpd]\n"), EndpointError::NoHost);
    assert_eq!(EndpointError::NoHost.message(), "config: missing mpd.host");
}

#[test]
fn the_host_is_a_text() {
    assert_eq!(error("[mpd]\nhost = [\"a\"]\nport = 6600\n"), EndpointError::BadHost);
    assert_eq!(EndpointError::BadHost.message(), "config: invalid mpd.host");
}

#[test]
fn the_port_is_needed() {
    assert_eq!(error("[mpd]\nhost = \"h\"\n"), EndpointError::NoPort);
    assert_eq!(EndpointError::NoPort.message(), "config: missing mpd.host");
}

#[test]
fn the_port_is_a_number() {
    assert_eq!(error("[mpd]\nhost = \"h\"\nport = \"mpd\"\n"), EndpointError::BadPort);
    assert_eq!(EndpointError::BadPort.message(), "config: invalid mpd.port");
}

#[test]
fn the_host_is_looked_at_first() {
    assert_eq!(error("[mpd]\nhost = []\nport = []\n"), EndpointError::BadHost);
    assert_eq!(error("[mpd]\nport = []\n"), EndpointError::NoHost);
}

#[test]
fn entries_are_found_in_any_order() {
    let entries = vec![
        entry("other", Some("x"), None),
        entry("port", Some("6600"), Some(6600)),
        entry("host", Some("h"), None),
        entry("host", Some("later"), None),
    ];
    let found = endpoint_of(&entries).unwrap();
    assert_eq!(found.host, "h");
    assert_eq!(found.port, 6600);
    assert_eq!(endpoint_of(&vec![]).unwrap_err(), EndpointError::NoHost);
}
