use vstd::prelude::*;

use crate::decode::{decode, decode_spec};
use crate::store::{evolves, AssetStore, EntryView, Handle, StateView};

verus! {

/// One loading strategy instance.
#[derive(Clone, Debug)]
pub struct LoadConfig {
    /// Bypass the managed entries: insert the decoded asset for direct GPU use.
    pub direct: bool,
    /// Register the path and let the store's loader read it, instead of
    /// reading and decoding the bytes at the call.
    pub auto: bool,
    /// Acquire the handle before the spawn frame and hold it until then.
    pub early: bool,
    /// Frame on which the entity is spawned.
    pub delay: u64,
    /// Source path, possibly shared with other configurations.
    pub name: String,
}

/// The way a configuration brings its asset into the store.
#[derive(Clone, Copy, Debug, PartialEq, Eq, Structural)]
pub enum LoadPath {
    /// Register the path; reading and decoding happen out of band.
    Registered,
    /// Read and decode now, then insert as a resolved managed entry.
    Manual,
    /// Read and decode now, then insert for direct GPU use.
    ManualDirect,
}

/// A configuration that names no strategy.
#[derive(Clone, Copy, Debug, PartialEq, Eq, Structural)]
pub enum ConfigError {
    /// `auto` and `direct` together.
    InvalidConfiguration,
}

pub open spec fn valid_config(c: LoadConfig) -> bool {
    !(c.auto && c.direct)
}

pub open spec fn load_path_spec(auto: bool, direct: bool) -> Result<LoadPath, ConfigError> {
    if auto && direct {
        Err(ConfigError::InvalidConfiguration)
    } else if auto {
        Ok(LoadPath::Registered)
    } else if direct {
        Ok(LoadPath::ManualDirect)
    } else {
        Ok(LoadPath::Manual)
    }
}

/// The entries after a load of a valid configuration `c`, where `bytes` are
/// the source's contents for the paths that read them at the call.
pub open spec fn load_spec(s: Seq<EntryView>, c: LoadConfig, bytes: Seq<u8>) -> Seq<EntryView> {
    if c.auto {
        s.push(EntryView { path: Some(c.name@), managed: true, state: StateView::Pending, gpu: None })
    } else {
        s.push(
            EntryView {
                path: None,
                managed: !c.direct,
                state: match decode_spec(bytes) {
                    Ok(p) => StateView::Resolved(p),
                    Err(e) => StateView::Failed(e),
                },
                gpu: None,
            },
        )
    }
}

/// Picks the load path of a configuration; `auto` with `direct` is refused.
pub fn select_load_path(config: &LoadConfig) -> (r: Result<LoadPath, ConfigError>)
    ensures
        r == load_path_spec(config.auto, config.direct),
{
    if config.auto && config.direct {
        Err(ConfigError::InvalidConfiguration)
    } else if config.auto {
        Ok(LoadPath::Registered)
    } else if config.direct {
        Ok(LoadPath::ManualDirect)
    } else {
        Ok(LoadPath::Manual)
    }
}

/// Loads by a valid configuration and hands back its handle at once, whether
/// or not decoding has finished. `bytes` are the source's contents; the
/// registered path does not read them. A manual load whose bytes do not
/// decode gives an entry that is `Failed` for good.
pub fn load(store: &mut AssetStore, config: &LoadConfig, bytes: &[u8]) -> (r: Handle)
    requires
        valid_config(*config),
        old(store).wf(),
        old(store)@.len() + 1 < usize::MAX,
    ensures
        final(store).wf(),
        final(store)@ == load_spec(old(store)@, *config, bytes@),
        r.slot() == old(store)@.len(),
        !r.null_spec(),
        evolves(old(store)@, final(store)@),
{
    if config.auto {
        store.register_path(config.name.clone())
    } else {
        match decode(bytes) {
            Ok(asset) => if config.direct {
                store.insert_direct_gpu(asset)
            } else {
                store.insert_resolved(asset)
            },
            Err(e) => store.insert_failed(e, !config.direct),
        }
    }
}

/// As [`load`], for any configuration: `auto` with `direct` is refused with
/// the store unchanged, every other one gives a non-null handle.
pub fn try_load(store: &mut AssetStore, config: &LoadConfig, bytes: &[u8]) -> (r: Result<
    Handle,
    ConfigError,
>)
    requires
        old(store).wf(),
        old(store)@.len() + 1 < usize::MAX,
    ensures
        final(store).wf(),
        match r {
            Ok(h) => {
                &&& valid_config(*config)
                &&& !h.null_spec()
                &&& h.slot() == old(store)@.len()
                &&& final(store)@ == load_spec(old(store)@, *config, bytes@)
            },
            Err(e) => {
                &&& !valid_config(*config)
                &&& e == ConfigError::InvalidConfiguration
                &&& final(store)@ == old(store)@
            },
        },
        evolves(old(store)@, final(store)@),
{
    match select_load_path(config) {
        Err(e) => Err(e),
        Ok(_) => Ok(load(store, config, bytes)),
    }
}

/// A load does the same whenever it is made: `early` and `delay` play no
/// part in what enters the store.
pub proof fn lemma_load_ignores_timing(
    s: Seq<EntryView>,
    a: LoadConfig,
    b: LoadConfig,
    bytes: Seq<u8>,
)
    requires
        a.auto == b.auto,
        a.direct == b.direct,
        a.name@ == b.name@,
    ensures
        load_spec(s, a, bytes) == load_spec(s, b, bytes),
{
}

} // verus!
