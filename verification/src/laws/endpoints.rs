//! What the settings tell, entry by entry.
use crate::settings::{
    endpoint, endpoint_of, lemma_not_among, tables, value_among, Endpoint, EndpointError, Entry,
};
use vstd::prelude::*;

verus! {

/// Whether the entry `i` is the first with `key`.
pub open spec fn is_first(entries: Seq<Entry>, key: Seq<char>, i: int) -> bool {
    &&& 0 <= i < entries.len()
    &&& entries[i].key@ == key
    &&& forall|j: int| 0 <= j < i ==> (#[trigger] entries[j]).key@ != key
}

/// A host that is a text and a port that is a number are the endpoint: the host as it is written,
/// and of the number the part that is left beside whole multiples of 65536.
pub proof fn law_entries_give_endpoint(
    entries: Vec<Entry>,
    host: int,
    port: int,
    result: Result<Endpoint, EndpointError>,
)
    requires
        call_ensures(endpoint_of, (&entries,), result),
        is_first(entries@, "host"@, host),
        is_first(entries@, "port"@, port),
        entries[host].text is Some,
        entries[port].number is Some,
    ensures
        result is Ok,
        result->Ok_0.host@ == entries[host].text->0@,
        (entries[port].number->0 - result->Ok_0.port) % 65536 == 0,
        0 <= entries[port].number->0 < 65536 ==> result->Ok_0.port == entries[port].number->0,
{
    lemma_first_among(entries@, "host"@, host);
    lemma_first_among(entries@, "port"@, port);
}

/// Without a host that is a text there is no endpoint, and the reason lies with the host whatever
/// the port.
pub proof fn law_host_is_looked_at_first(
    entries: Vec<Entry>,
    host: int,
    result: Result<Endpoint, EndpointError>,
)
    requires
        call_ensures(endpoint_of, (&entries,), result),
    ensures
        (forall|i: int| 0 <= i < entries.len() ==> (#[trigger] entries[i]).key@ != "host"@)
            ==> result == Err::<Endpoint, _>(EndpointError::NoHost),
        is_first(entries@, "host"@, host) && entries[host].text is None ==> result == Err::<
            Endpoint,
            _,
        >(EndpointError::BadHost),
{
    if is_first(entries@, "host"@, host) {
        lemma_first_among(entries@, "host"@, host);
    }
    if forall|i: int| 0 <= i < entries.len() ==> (#[trigger] entries[i]).key@ != "host"@ {
        lemma_not_among(entries@, "host"@);
    }
}

/// With a host, but without a port that is a number, there is no endpoint, and the reason lies
/// with the port.
pub proof fn law_port_is_looked_at_next(
    entries: Vec<Entry>,
    host: int,
    port: int,
    result: Result<Endpoint, EndpointError>,
)
    requires
        call_ensures(endpoint_of, (&entries,), result),
        is_first(entries@, "host"@, host),
        entries[host].text is Some,
    ensures
        (forall|i: int| 0 <= i < entries.len() ==> (#[trigger] entries[i]).key@ != "port"@)
            ==> result == Err::<Endpoint, _>(EndpointError::NoPort),
        is_first(entries@, "port"@, port) && entries[port].number is None ==> result == Err::<
            Endpoint,
            _,
        >(EndpointError::BadPort),
{
    lemma_first_among(entries@, "host"@, host);
    if is_first(entries@, "port"@, port) {
        lemma_first_among(entries@, "port"@, port);
    }
    if forall|i: int| 0 <= i < entries.len() ==> (#[trigger] entries[i]).key@ != "port"@ {
        lemma_not_among(entries@, "port"@);
    }
}

/// The settings are asked for their table `mpd`: without it there is no endpoint, and with it the
/// values under `host` and `port` decide.
pub proof fn law_settings_give_endpoint(
    settings: config::Config,
    result: Result<Endpoint, EndpointError>,
)
    requires
        call_ensures(endpoint, (&settings,), result),
    ensures
        !tables(settings).contains_key("mpd"@) ==> result == Err::<Endpoint, _>(
            EndpointError::NoTable,
        ),
        tables(settings).contains_key("mpd"@) ==> {
            let table = tables(settings)["mpd"@];
            if !table.contains_key("host"@) {
                result == Err::<Endpoint, _>(EndpointError::NoHost)
            } else if table["host"@].0 is None {
                result == Err::<Endpoint, _>(EndpointError::BadHost)
            } else if !table.contains_key("port"@) {
                result == Err::<Endpoint, _>(EndpointError::NoPort)
            } else if table["port"@].1 is None {
                result == Err::<Endpoint, _>(EndpointError::BadPort)
            } else {
                &&& result is Ok
                &&& result->Ok_0.host@ == table["host"@].0->0
                &&& (table["port"@].1->0 - result->Ok_0.port) % 65536 == 0
            }
        },
{
}

/// What is wrong with the settings is said in words; a missing port in those for a missing host.
pub proof fn law_errors_have_words(error: EndpointError, text: String)
    requires
        call_ensures(EndpointError::message, (&error,), text),
    ensures
        error is NoTable ==> text@ == "config: mpd must be a table"@,
        error is NoHost || error is NoPort ==> text@ == "config: missing mpd.host"@,
        error is BadHost ==> text@ == "config: invalid mpd.host"@,
        error is BadPort ==> text@ == "config: invalid mpd.port"@,
{
}

proof fn lemma_first_among(entries: Seq<Entry>, key: Seq<char>, i: int)
    requires
        is_first(entries, key, i),
    ensures
        value_among(entries, key) == Some(entries[i].value()),
    decreases i,
{
    if i > 0 {
        assert(entries[0].key@ != key);
        let rest = entries.drop_first();
        assert forall|j: int| 0 <= j < i - 1 implies (#[trigger] rest[j]).key@ != key by {
            assert(rest[j] == entries[j + 1]);
        }
        lemma_first_among(rest, key, i - 1);
    }
}

} // verus!
