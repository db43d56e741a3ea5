use vstd::prelude::*;

verus! {

/// The listen address used when no layer names one.
pub const DEFAULT_LISTEN_ADDRESS: &'static str = "127.0.0.1:8888";

/// One layer of configuration values: each key is either set or left to lower layers.
#[derive(Clone, Debug, PartialEq, Eq, Default)]
pub struct Layer {
    pub listen_address: Option<String>,
    pub bind_interface: Option<String>,
}

/// The resolved configuration, fixed at startup and shared read-only by every connection.
#[derive(Clone, Debug, PartialEq, Eq)]
pub struct Config {
    pub listen_address: String,
    pub bind_interface: String,
}

/// Why a configuration could not be resolved.
#[derive(Clone, Copy, Debug, PartialEq, Eq, Structural)]
pub enum ConfigError {
    /// No layer sets the listen address.
    MissingListenAddress,
    /// No layer sets the interface to bind outbound connections to.
    MissingBindInterface,
    /// The host enumerates its interfaces and the configured one is not among them.
    UnknownInterface,
}

/// The value of one key after layering: the command line over the
/// environment over the defaults; `None` where no layer sets it.
pub open spec fn layered(
    defaults: Option<String>,
    env: Option<String>,
    cli: Option<String>,
) -> Option<String> {
    if cli is Some {
        cli
    } else if env is Some {
        env
    } else {
        defaults
    }
}

/// Whether `name` is one of the enumerated interface names.
pub open spec fn is_known_interface(interfaces: Seq<String>, name: Seq<char>) -> bool {
    exists|i: int| 0 <= i < interfaces.len() && (#[trigger] interfaces[i])@ == name
}

/// The built-in defaults: the listen address only.
pub open spec fn is_default_layer(l: Layer) -> bool {
    &&& l.listen_address is Some
    &&& l.listen_address->0@ == DEFAULT_LISTEN_ADDRESS@
    &&& l.bind_interface is None
}

/// Whether a configuration passes interface validation against the result of
/// enumerating the host's interfaces (`None` when enumeration was unavailable).
pub open spec fn interface_accepted(config: Config, interfaces: Option<Vec<String>>) -> bool {
    match interfaces {
        None => true,
        Some(v) => is_known_interface(v@, config.bind_interface@),
    }
}

/// The outcome of merging the three layers.
pub open spec fn spec_merge(defaults: Layer, env: Layer, cli: Layer) -> Result<Config, ConfigError> {
    let listen = layered(defaults.listen_address, env.listen_address, cli.listen_address);
    let bind = layered(defaults.bind_interface, env.bind_interface, cli.bind_interface);
    if listen is None {
        Err(ConfigError::MissingListenAddress)
    } else if bind is None {
        Err(ConfigError::MissingBindInterface)
    } else {
        Ok(Config { listen_address: listen->0, bind_interface: bind->0 })
    }
}

/// The layer of built-in defaults.
pub fn defaults() -> (r: Layer)
    ensures
        is_default_layer(r),
{
    Layer { listen_address: Some(DEFAULT_LISTEN_ADDRESS.to_owned()), bind_interface: None }
}

fn pick(defaults: Option<String>, env: Option<String>, cli: Option<String>) -> (r: Option<String>)
    ensures
        r == layered(defaults, env, cli),
{
    match cli {
        Some(v) => Some(v),
        None => match env {
            Some(v) => Some(v),
            None => defaults,
        },
    }
}

/// Merges the layers key by key: a key set in a higher layer overrides the
/// lower ones, a key left unset keeps the lower layer's value. Fails when
/// no layer sets a key that has to be set.
pub fn merge_layers(defaults: Layer, env: Layer, cli: Layer) -> (r: Result<Config, ConfigError>)
    ensures
        r == spec_merge(defaults, env, cli),
        r is Ok ==> r->Ok_0.listen_address == layered(
            defaults.listen_address,
            env.listen_address,
            cli.listen_address,
        )->0,
        r is Ok ==> r->Ok_0.bind_interface == layered(
            defaults.bind_interface,
            env.bind_interface,
            cli.bind_interface,
        )->0,
        r is Err <==> (layered(defaults.listen_address, env.listen_address, cli.listen_address) is None
            || layered(defaults.bind_interface, env.bind_interface, cli.bind_interface) is None),
{
    let listen = pick(defaults.listen_address, env.listen_address, cli.listen_address);
    let bind = pick(defaults.bind_interface, env.bind_interface, cli.bind_interface);
    match listen {
        None => Err(ConfigError::MissingListenAddress),
        Some(listen_address) => match bind {
            None => Err(ConfigError::MissingBindInterface),
            Some(bind_interface) => Ok(Config { listen_address, bind_interface }),
        },
    }
}

/// Checks the configured interface against the host's interfaces. When
/// enumeration was unavailable (`None`) the check is skipped and passes;
/// otherwise it fails exactly when the name is not among them.
pub fn validate_interface(config: &Config, interfaces: &Option<Vec<String>>) -> (r: Result<
    (),
    ConfigError,
>)
    ensures
        r is Ok <==> interface_accepted(*config, *interfaces),
        r is Err ==> r->Err_0 == ConfigError::UnknownInterface,
{
    match interfaces {
        None => Ok(()),
        Some(v) => {
            let mut i: usize = 0;
            while i < v.len()
                invariant
                    0 <= i <= v@.len(),
                    *interfaces == Some(*v),
                    forall|j: int| 0 <= j < i ==> (#[trigger] v@[j])@ != config.bind_interface@,
                decreases v@.len() - i,
            {
                if v[i] == config.bind_interface {
                    assert(v@[i as int]@ == config.bind_interface@);
                    return Ok(());
                }
                i = i + 1;
            }
            Err(ConfigError::UnknownInterface)
        },
    }
}

/// Resolves the startup configuration: merges the layers, then validates the
/// interface against the enumeration result.
pub fn resolve(defaults: Layer, env: Layer, cli: Layer, interfaces: &Option<Vec<String>>) -> (r:
    Result<Config, ConfigError>)
    ensures
        spec_merge(defaults, env, cli) is Err ==> r == spec_merge(defaults, env, cli),
        spec_merge(defaults, env, cli) is Ok ==> {
            let c = spec_merge(defaults, env, cli)->Ok_0;
            if interface_accepted(c, *interfaces) {
                r == Ok::<Config, ConfigError>(c)
            } else {
                r == Err::<Config, ConfigError>(ConfigError::UnknownInterface)
            }
        },
{
    let config = merge_layers(defaults, env, cli)?;
    validate_interface(&config, interfaces)?;
    Ok(config)
}

} // verus!
