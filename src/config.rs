//! Configuration: what the loader hands over, and how it becomes a routing
//! table.
use vstd::prelude::*;
use crate::action::{ActionDescriptor, ActionView};
use crate::error::Error;
use crate::table::RoutingTable;

verus! {

/// One deploy entry of the configuration: a script to run or a service to
/// restart. A valid entry names exactly one of the two.
#[derive(Clone, Debug)]
pub struct DeployEntry {
    pub script: Option<String>,
    pub service_name: Option<String>,
}

/// The loaded configuration: the shared secret, the reload interval in
/// seconds, and the deploy entries under their `repository#branch` keys.
#[derive(Clone, Debug)]
pub struct Config {
    pub secret_key: Option<String>,
    pub reload_interval: Option<u64>,
    pub deploy: Vec<(String, DeployEntry)>,
}

/// What reading and parsing the configuration source came to.
#[derive(Debug)]
pub enum ConfigRead {
    /// There is no configuration source.
    Missing,
    /// The source exists but could not be read; holds the reason.
    Unreadable(String),
    /// The source could not be parsed; holds the reason.
    Malformed(String),
    /// The source was read and parsed.
    Parsed(Config),
}

/// The action that an entry describes, or nothing when it names none or both.
pub open spec fn entry_action(e: DeployEntry) -> Option<ActionView> {
    match (e.script, e.service_name) {
        (Some(s), None) => Some(ActionView::RunScript(s@)),
        (None, Some(n)) => Some(ActionView::RestartService(n@)),
        _ => None,
    }
}

/// Whether every deploy entry names exactly one action.
pub open spec fn all_valid(d: Seq<(String, DeployEntry)>) -> bool {
    forall|i: int| 0 <= i < d.len() ==> (#[trigger] entry_action(d[i].1)) is Some
}

/// Whether `i` is the first entry that names no action or both.
pub open spec fn first_invalid(d: Seq<(String, DeployEntry)>, i: int) -> bool {
    &&& 0 <= i < d.len()
    &&& entry_action(d[i].1) is None
    &&& forall|j: int| 0 <= j < i ==> (#[trigger] entry_action(d[j].1)) is Some
}

/// The mapping that the deploy entries describe; a later entry for a key
/// overrides an earlier one.
pub open spec fn routes_of(d: Seq<(String, DeployEntry)>) -> Map<Seq<char>, ActionView>
    decreases d.len(),
{
    if d.len() == 0 {
        Map::empty()
    } else {
        let rest = routes_of(d.drop_last());
        match entry_action(d.last().1) {
            Some(a) => rest.insert(d.last().0@, a),
            None => rest,
        }
    }
}

impl DeployEntry {
    /// The action this entry describes; an entry that names no action, or
    /// both, is refused with its key.
    pub fn action(&self, key: &String) -> (r: Result<ActionDescriptor, Error>)
        ensures
            match r {
                Ok(a) => entry_action(*self) == Some(a@),
                Err(e) => entry_action(*self) is None && e == Error::InvalidEntry(*key),
            },
    {
        match (&self.script, &self.service_name) {
            (Some(s), None) => Ok(ActionDescriptor::RunScript { path: s.clone() }),
            (None, Some(n)) => Ok(ActionDescriptor::RestartService { service_name: n.clone() }),
            _ => Err(Error::InvalidEntry(key.clone())),
        }
    }
}

impl Config {
    /// The configuration used when there is no configuration source: no
    /// secret, no interval, no deploy entries.
    pub fn empty() -> (r: Config)
        ensures
            r.secret_key is None,
            r.reload_interval is None,
            r.deploy@.len() == 0,
    {
        Config { secret_key: None, reload_interval: None, deploy: Vec::new() }
    }

    /// The secret and the reload interval that startup needs, in that order
    /// of checking; the first one absent is named in the error.
    pub fn startup_settings(&self) -> (r: Result<(String, u64), Error>)
        ensures
            match r {
                Ok((secret, interval)) => self.secret_key == Some(secret)
                    && self.reload_interval == Some(interval),
                Err(Error::MissingKey(k)) => if self.secret_key is None {
                    k@ == "secret_key"@
                } else {
                    self.reload_interval is None && k@ == "reload_interval"@
                },
                Err(_) => false,
            },
    {
        let secret = match &self.secret_key {
            Some(s) => s.clone(),
            None => {
                return Err(Error::MissingKey(String::from_str("secret_key")));
            },
        };
        match self.reload_interval {
            Some(i) => Ok((secret, i)),
            None => Err(Error::MissingKey(String::from_str("reload_interval"))),
        }
    }
}

/// The outcome of a load: a missing source gives the empty configuration, an
/// unreadable one an I/O error, a malformed one a configuration error.
pub fn settle_config(read: ConfigRead) -> (r: Result<Config, Error>)
    ensures
        match read {
            ConfigRead::Missing => r matches Ok(c) && c.secret_key is None
                && c.reload_interval is None && c.deploy@.len() == 0,
            ConfigRead::Unreadable(m) => r == Err::<Config, Error>(Error::Io(m)),
            ConfigRead::Malformed(m) => r == Err::<Config, Error>(Error::Config(m)),
            ConfigRead::Parsed(c) => r == Ok::<Config, Error>(c),
        },
{
    match read {
        ConfigRead::Missing => Ok(Config::empty()),
        ConfigRead::Unreadable(m) => Err(Error::Io(m)),
        ConfigRead::Malformed(m) => Err(Error::Config(m)),
        ConfigRead::Parsed(c) => Ok(c),
    }
}

/// The reload period in seconds: the configured interval, at least one.
pub fn reload_period_secs(interval: u64) -> (r: u64)
    ensures
        r == if interval < 1 { 1 } else { interval },
{
    if interval < 1 {
        1
    } else {
        interval
    }
}

/// A missing configuration source is no error: it settles to a configuration
/// that every entry check accepts and that routes no key at all.
pub proof fn lemma_missing_source_routes_nothing(c: Config)
    requires
        c.deploy@.len() == 0,
    ensures
        all_valid(c.deploy@),
        routes_of(c.deploy@) == Map::<Seq<char>, ActionView>::empty(),
{
}

impl RoutingTable {
    /// The routing table that a configuration describes. An entry that names
    /// no action, or both, makes the whole configuration refused, with the
    /// key of the first such entry.
    pub fn from_config(config: &Config) -> (r: Result<RoutingTable, Error>)
        ensures
            match r {
                Ok(t) => all_valid(config.deploy@) && t.wf() && t@ == routes_of(config.deploy@),
                Err(Error::InvalidEntry(k)) => exists|i: int|
                    first_invalid(config.deploy@, i) && k == config.deploy@[i].0,
                Err(_) => false,
            },
    {
        let mut table = RoutingTable::new();
        let mut i: usize = 0;
        while i < config.deploy.len()
            invariant
                i <= config.deploy@.len(),
                table.wf(),
                all_valid(config.deploy@.subrange(0, i as int)),
                table@ == routes_of(config.deploy@.subrange(0, i as int)),
            decreases config.deploy@.len() - i,
        {
            let ghost prefix = config.deploy@.subrange(0, i as int);
            let ghost next = config.deploy@.subrange(0, i + 1);
            assert(next.drop_last() =~= prefix);
            let (key, entry) = &config.deploy[i];
            match entry.action(key) {
                Ok(a) => {
                    table.insert(key.clone(), a);
                    assert(all_valid(next)) by {
                        assert forall|j: int| 0 <= j < next.len() implies (#[trigger] entry_action(
                            next[j].1,
                        )) is Some by {
                            if j < i {
                                assert(next[j] == prefix[j]);
                            }
                        }
                    }
                },
                Err(e) => {
                    assert(first_invalid(config.deploy@, i as int)) by {
                        assert forall|j: int| 0 <= j < i implies (#[trigger] entry_action(
                            config.deploy@[j].1,
                        )) is Some by {
                            assert(prefix[j] == config.deploy@[j]);
                        }
                    }
                    return Err(e);
                },
            }
            i = i + 1;
        }
        assert(config.deploy@.subrange(0, i as int) =~= config.deploy@);
        Ok(table)
    }
}

} // verus!
