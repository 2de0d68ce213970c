//! The settings: where the player daemon listens.
use vstd::prelude::*;

verus! {

/// The settings of the program, as the `config` crate has merged them.
#[verifier::external_type_specification]
#[verifier::external_body]
pub struct ExConfig(config::Config);

/// The tables in the settings, by name, as `config::Config::get_table` finds them. A table maps
/// a key to its value, read twice: as a text by `config::Value::into_str` and as a number by
/// `config::Value::into_int`, with nothing where the value cannot be read so.
pub uninterp spec fn tables(settings: config::Config) -> Map<
    Seq<char>,
    Map<Seq<char>, (Option<Seq<char>>, Option<i64>)>,
>;

/// An entry of a table.
#[derive(Debug)]
pub struct Entry {
    pub key: String,
    /// The value read as a text.
    pub text: Option<String>,
    /// The value read as a number.
    pub number: Option<i64>,
}

impl Entry {
    /// The two readings of the value.
    pub open spec fn value(&self) -> (Option<Seq<char>>, Option<i64>) {
        (
            match self.text {
                Some(text) => Some(text@),
                None => None,
            },
            self.number,
        )
    }
}

/// Whether `entries` are those of `table`, in some order.
pub open spec fn lists(
    entries: Seq<Entry>,
    table: Map<Seq<char>, (Option<Seq<char>>, Option<i64>)>,
) -> bool {
    &&& forall|i: int|
        0 <= i < entries.len() ==> {
            &&& table.contains_key((#[trigger] entries[i]).key@)
            &&& table[entries[i].key@] == entries[i].value()
        }
    &&& forall|key: Seq<char>| #[trigger]
        table.contains_key(key) ==> exists|i: int|
            0 <= i < entries.len() && (#[trigger] entries[i]).key@ == key
}

/// Whether `name` is a plain name: letters from `a` to `z`, one at least.
pub open spec fn is_plain_name(name: Seq<char>) -> bool {
    name.len() > 0 && forall|i: int| 0 <= i < name.len() ==> 'a' <= #[trigger] name[i] <= 'z'
}

/// The entries of the table `name`, by `config::Config::get_table`, which fails where there is
/// no such value or where it is not a table. Each entry comes with the two readings of its
/// value, by `config::Value::into_str` and `config::Value::into_int`.
#[verifier::external_body]
fn get_table(settings: &config::Config, name: &str) -> (entries: Option<Vec<Entry>>)
    requires
        is_plain_name(name@),
    ensures
        entries is Some <==> tables(*settings).contains_key(name@),
        entries matches Some(entries) ==> lists(entries@, tables(*settings)[name@]),
{
    let table = settings.get_table(name).ok()?;
    let entries = table.into_iter().map(|(key, value)| Entry {
        key,
        text: value.clone().into_str().ok(),
        number: value.into_int().ok(),
    });
    Some(entries.collect())
}

/// Where the daemon listens.
#[derive(Debug)]
pub struct Endpoint {
    pub host: String,
    pub port: u16,
}

/// Why the settings do not tell where the daemon listens.
#[derive(Clone, Copy, Debug, PartialEq, Eq, Structural)]
pub enum EndpointError {
    NoTable,
    NoHost,
    BadHost,
    NoPort,
    BadPort,
}

impl EndpointError {
    /// The words for it. A missing port is reported in the words for a missing host.
    pub open spec fn words(&self) -> Seq<char> {
        match self {
            EndpointError::NoTable => "config: mpd must be a table"@,
            EndpointError::NoHost => "config: missing mpd.host"@,
            EndpointError::BadHost => "config: invalid mpd.host"@,
            EndpointError::NoPort => "config: missing mpd.host"@,
            EndpointError::BadPort => "config: invalid mpd.port"@,
        }
    }

    /// The words for it, as a text of its own.
    pub fn message(&self) -> (text: String)
        ensures
            text@ == self.words(),
    {
        match self {
            EndpointError::NoTable => "config: mpd must be a table".to_owned(),
            EndpointError::NoHost => "config: missing mpd.host".to_owned(),
            EndpointError::BadHost => "config: invalid mpd.host".to_owned(),
            EndpointError::NoPort => "config: missing mpd.host".to_owned(),
            EndpointError::BadPort => "config: invalid mpd.port".to_owned(),
        }
    }
}

/// The host and the port that a table gives, or the first thing that is wrong with it; the two
/// values are those under `host` and `port`, where the table has them. Of the number of the
/// port the lowest sixteen bits count.
pub open spec fn endpoint_in(
    host: Option<(Option<Seq<char>>, Option<i64>)>,
    port: Option<(Option<Seq<char>>, Option<i64>)>,
) -> Result<(Seq<char>, int), EndpointError> {
    match (host, port) {
        (None, _) => Err(EndpointError::NoHost),
        (Some((None, _)), _) => Err(EndpointError::BadHost),
        (Some((Some(_), _)), None) => Err(EndpointError::NoPort),
        (Some((Some(_), _)), Some((_, None))) => Err(EndpointError::BadPort),
        (Some((Some(host), _)), Some((_, Some(port)))) => Ok((host, port as int % 0x1_0000)),
    }
}

/// Whether `result` says what `expected` says.
pub open spec fn tells(
    result: Result<Endpoint, EndpointError>,
    expected: Result<(Seq<char>, int), EndpointError>,
) -> bool {
    match (result, expected) {
        (Ok(endpoint), Ok((host, port))) => endpoint.host@ == host && endpoint.port == port,
        (Err(error), Err(reason)) => error == reason,
        _ => false,
    }
}

/// The value under `key` in a table.
pub open spec fn value_in(
    table: Map<Seq<char>, (Option<Seq<char>>, Option<i64>)>,
    key: Seq<char>,
) -> Option<(Option<Seq<char>>, Option<i64>)> {
    if table.contains_key(key) {
        Some(table[key])
    } else {
        None
    }
}

/// The value under `key` among the entries of a table: that of the first entry with the key.
pub open spec fn value_among(entries: Seq<Entry>, key: Seq<char>) -> Option<
    (Option<Seq<char>>, Option<i64>),
>
    decreases entries.len(),
{
    if entries.len() == 0 {
        None
    } else if entries[0].key@ == key {
        Some(entries[0].value())
    } else {
        value_among(entries.drop_first(), key)
    }
}

/// The first entry with `key`.
fn find<'a>(entries: &'a Vec<Entry>, key: &str) -> (entry: Option<&'a Entry>)
    ensures
        entry is None ==> value_among(entries@, key@) is None,
        entry matches Some(entry) ==> value_among(entries@, key@) == Some(entry.value()),
{
    let wanted = key.to_owned();
    let mut i: usize = 0;
    assert(entries@.skip(0) =~= entries@);
    while i < entries.len()
        invariant
            i <= entries.len(),
            wanted@ == key@,
            value_among(entries@, key@) == value_among(entries@.skip(i as int), key@),
        decreases entries.len() - i,
    {
        if entries[i].key.eq(&wanted) {
            return Some(&entries[i]);
        }
        assert(entries@.skip(i as int).drop_first() =~= entries@.skip(i + 1));
        i += 1;
    }
    None
}

/// The number of a port from a number of the settings.
fn port_number(number: i64) -> (port: u16)
    ensures
        port == number as int % 0x1_0000,
{
    assert(number as u16 == number % 0x1_0000) by (bit_vector);
    #[verifier::truncate]
    (number as u16)
}

/// Where the daemon listens, by the entries of its table.
pub fn endpoint_of(entries: &Vec<Entry>) -> (result: Result<Endpoint, EndpointError>)
    ensures
        tells(
            result,
            endpoint_in(value_among(entries@, "host"@), value_among(entries@, "port"@)),
        ),
{
    let host = match find(entries, "host") {
        None => return Err(EndpointError::NoHost),
        Some(entry) => match &entry.text {
            None => return Err(EndpointError::BadHost),
            Some(text) => text.clone(),
        },
    };
    let port = match find(entries, "port") {
        None => return Err(EndpointError::NoPort),
        Some(entry) => match entry.number {
            None => return Err(EndpointError::BadPort),
            Some(number) => port_number(number),
        },
    };
    Ok(Endpoint { host, port })
}

/// Where the daemon listens, by the table `mpd` of the settings.
pub fn endpoint(settings: &config::Config) -> (result: Result<Endpoint, EndpointError>)
    ensures
        tells(
            result,
            if tables(*settings).contains_key("mpd"@) {
                let table = tables(*settings)["mpd"@];
                endpoint_in(value_in(table, "host"@), value_in(table, "port"@))
            } else {
                Err(EndpointError::NoTable)
            },
        ),
{
    proof {
        reveal_strlit("mpd");
    }
    match get_table(settings, "mpd") {
        None => Err(EndpointError::NoTable),
        Some(entries) => {
            proof {
                let table = tables(*settings)["mpd"@];
                lemma_listed(entries@, table, "host"@);
                lemma_listed(entries@, table, "port"@);
            }
            endpoint_of(&entries)
        },
    }
}

/// A port that can be one is taken as it stands.
pub proof fn law_port_is_kept(host: Seq<char>, number: Option<i64>, text: Option<Seq<char>>, port: i64)
    requires
        0 <= port <= u16::MAX,
    ensures
        endpoint_in(Some((Some(host), number)), Some((text, Some(port)))) == Ok::<_, EndpointError>(
            (host, port as int),
        ),
{
}

/// The entries of a table hold the values of the table.
proof fn lemma_listed(
    entries: Seq<Entry>,
    table: Map<Seq<char>, (Option<Seq<char>>, Option<i64>)>,
    key: Seq<char>,
)
    requires
        lists(entries, table),
    ensures
        value_among(entries, key) == value_in(table, key),
{
    if table.contains_key(key) {
        let i = choose|i: int| 0 <= i < entries.len() && (#[trigger] entries[i]).key@ == key;
        lemma_among(entries, table, key, i);
    } else {
        lemma_not_among(entries, key);
    }
}

proof fn lemma_among(
    entries: Seq<Entry>,
    table: Map<Seq<char>, (Option<Seq<char>>, Option<i64>)>,
    key: Seq<char>,
    i: int,
)
    requires
        0 <= i < entries.len(),
        entries[i].key@ == key,
        forall|j: int|
            0 <= j < entries.len() ==> table[(#[trigger] entries[j]).key@] == entries[j].value(),
    ensures
        value_among(entries, key) == Some(table[key]),
    decreases entries.len(),
{
    if entries[0].key@ != key {
        let rest = entries.drop_first();
        assert forall|j: int| 0 <= j < rest.len() implies table[(#[trigger] rest[j]).key@]
            == rest[j].value() by {
            assert(rest[j] == entries[j + 1]);
        }
        lemma_among(rest, table, key, i - 1);
    }
}

pub(crate) proof fn lemma_not_among(entries: Seq<Entry>, key: Seq<char>)
    requires
        forall|i: int| 0 <= i < entries.len() ==> (#[trigger] entries[i]).key@ != key,
    ensures
        value_among(entries, key) is None,
    decreases entries.len(),
{
    if entries.len() > 0 {
        let rest = entries.drop_first();
        assert forall|i: int| 0 <= i < rest.len() implies (#[trigger] rest[i]).key@ != key by {
            assert(rest[i] == entries[i + 1]);
        }
        lemma_not_among(rest, key);
    }
}

} // verus!
