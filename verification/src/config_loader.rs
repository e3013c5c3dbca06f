//! Configuration data: which credentials, zones and record names the
//! reconciler manages, and how the configuration file path is chosen from
//! the command line.
use vstd::prelude::*;

verus! {

/// The whole configuration: how often to reconcile, and which credentials to
/// reconcile for.
pub struct Config {
    /// The delay between reconciliation cycles, in seconds.
    pub update_threshold: u64,
    /// The credentials whose zones are reconciled each cycle.
    pub keys: Vec<Key>,
}

/// One provider credential and the zones it owns.
pub struct Key {
    /// The bearer token used to authenticate against the provider.
    pub auth_key: String,
    /// The zones reconciled under this credential.
    pub zones: Vec<Zone>,
}

/// One zone and the record names managed in it.
pub struct Zone {
    /// The provider's identifier for the zone.
    pub zone_id: String,
    /// The names expected to carry the current IPv4 address.
    pub a_records: Vec<String>,
    /// The names expected to carry the current IPv6 address.
    pub aaaa_records: Vec<String>,
}

/// Mathematical model of a zone entry.
#[verifier::ext_equal]
pub ghost struct ZoneModel {
    pub zone_id: Seq<char>,
    pub a_records: Seq<Seq<char>>,
    pub aaaa_records: Seq<Seq<char>>,
}

/// Mathematical model of a credential entry.
#[verifier::ext_equal]
pub ghost struct KeyModel {
    pub auth_key: Seq<char>,
    pub zones: Seq<ZoneModel>,
}

/// Mathematical model of the configuration.
#[verifier::ext_equal]
pub ghost struct ConfigModel {
    pub update_threshold: u64,
    pub keys: Seq<KeyModel>,
}

/// The views of a list of names.
pub open spec fn name_views(names: Seq<String>) -> Seq<Seq<char>> {
    names.map_values(|n: String| n@)
}

impl View for Zone {
    type V = ZoneModel;

    open spec fn view(&self) -> ZoneModel {
        ZoneModel {
            zone_id: self.zone_id@,
            a_records: name_views(self.a_records@),
            aaaa_records: name_views(self.aaaa_records@),
        }
    }
}

impl View for Key {
    type V = KeyModel;

    open spec fn view(&self) -> KeyModel {
        KeyModel {
            auth_key: self.auth_key@,
            zones: self.zones@.map_values(|z: Zone| z@),
        }
    }
}

impl View for Config {
    type V = ConfigModel;

    open spec fn view(&self) -> ConfigModel {
        ConfigModel {
            update_threshold: self.update_threshold,
            keys: self.keys@.map_values(|k: Key| k@),
        }
    }
}

/// What a scan of the remaining arguments leaves as the chosen path, given
/// the choice made so far: a `-c` consumes the argument after it as the new
/// choice (a trailing `-c` changes nothing), and every other argument is
/// passed over.
pub open spec fn scan_for_path(args: Seq<Seq<char>>, acc: Option<Seq<char>>) -> Option<Seq<char>>
    decreases args.len(),
{
    if args.len() == 0 {
        acc
    } else if args[0] == "-c"@ {
        if args.len() >= 2 {
            scan_for_path(args.skip(2), Some(args[1]))
        } else {
            acc
        }
    } else {
        scan_for_path(args.skip(1), acc)
    }
}

/// The configuration file path the command line selects: the value of the
/// last `-c` flag, or the default path when no `-c` flag carries a value.
pub open spec fn spec_config_path(args: Seq<Seq<char>>) -> Seq<char> {
    match scan_for_path(args, None) {
        Some(p) => p,
        None => "config.json"@,
    }
}

/// Chooses the configuration file path from the process arguments: the
/// argument after the last `-c` flag, or `config.json` when none is given.
pub fn config_path_from_args(args: &Vec<String>) -> (r: String)
    ensures
        r@ == spec_config_path(name_views(args@)),
{
    let flag: String = String::from_str("-c");
    let mut config_path: Option<String> = None;
    let mut index: usize = 0;
    proof {
        assert(name_views(args@).skip(0) =~= name_views(args@));
    }
    while index < args.len()
        invariant
            flag@ == "-c"@,
            index <= args@.len(),
            scan_for_path(name_views(args@).skip(index as int), (match config_path {
                Some(p) => Some(p@),
                None => None::<Seq<char>>,
            })) == scan_for_path(name_views(args@), None::<Seq<char>>),
        decreases args@.len() - index,
    {
        let ghost rest = name_views(args@).skip(index as int);
        if args[index] == flag {
            index = index + 1;
            if index < args.len() {
                config_path = Some(args[index].clone());
                index = index + 1;
                proof {
                    assert(rest.skip(2) =~= name_views(args@).skip(index as int));
                    assert(rest[1] == args@[index - 1]@);
                }
            } else {
                proof {
                    assert(rest.len() == 1);
                    assert(name_views(args@).skip(index as int) =~= Seq::<Seq<char>>::empty());
                }
            }
        } else {
            index = index + 1;
            proof {
                assert(rest.skip(1) =~= name_views(args@).skip(index as int));
            }
        }
    }
    proof {
        assert(name_views(args@).skip(index as int) =~= Seq::<Seq<char>>::empty());
    }
    match config_path {
        Some(p) => p,
        None => String::from_str("config.json"),
    }
}

} // verus!
