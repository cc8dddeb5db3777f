//! The docker-compose documents that run the block explorer: one per chain for
//! the explorer backend (API, data fetcher, worker), and one for the whole
//! ecosystem that gathers the backends and adds the explorer app.

use vstd::prelude::*;
use vstd::string::*;
use crate::docker_compose::{DockerComposeConfig, DockerComposeService, ServiceView};
use crate::parsed_url::{credentials_url, ParsedUrl, ParsedUrlView, url_parse_outcome};
use crate::paths::{
    chain_apps_dir, ecosystem_generated_dir, join, join_path, EXPLORER_BACKEND_DOCKER_COMPOSE_FILE, EXPLORER_DOCKER_COMPOSE_FILE,
    LOCAL_APPS_PATH, LOCAL_CHAINS_PATH, LOCAL_CONFIGS_PATH, LOCAL_GENERATED_PATH,
};
use crate::string_map::StringMap;
use crate::text::{contains_seq, decimal, decimal_string, str_contains, trim_start_char, trim_start_matches_char};

verus! {

/// The explorer docker-compose document of the ecosystem.
pub struct ExplorerComposeConfig {
    pub docker_compose: DockerComposeConfig,
}

/// The explorer backend docker-compose document of one chain.
pub struct ExplorerBackendComposeConfig {
    pub docker_compose: DockerComposeConfig,
}

/// Where the explorer app is served, and where its runtime config script lies.
pub struct ExplorerAppServiceConfig {
    pub port: u16,
    pub config_path: String,
}

/// The explorer backend of one chain: its database, the chain's RPC port and
/// the backend's own ports.
pub struct ExplorerBackendServiceConfig {
    pub db_url: String,
    pub rpc_port: u16,
    pub service_ports: ExplorerBackendServicePorts,
}

/// Ports of the explorer backend services.
pub struct ExplorerBackendServicePorts {
    pub api_port: u16,
    pub data_fetcher_port: u16,
    pub worker_port: u16,
}

/// Why the backend of a chain could not be described.
#[derive(PartialEq, Eq, Structural, Debug)]
pub enum BackendComposeError {
    /// The database URL does not parse.
    InvalidDatabaseUrl,
    /// The database URL has no host.
    MissingDatabaseHost,
    /// The database URL has no password.
    MissingDatabasePassword,
}

impl BackendComposeError {
    /// The error message.
    pub fn message(&self) -> (s: &'static str)
        ensures
            s@ == match self {
                BackendComposeError::InvalidDatabaseUrl => "Failed to parse database URL"@,
                BackendComposeError::MissingDatabaseHost => "No host in database URL"@,
                BackendComposeError::MissingDatabasePassword => "No password in database URL"@,
            },
    {
        match self {
            BackendComposeError::InvalidDatabaseUrl => "Failed to parse database URL",
            BackendComposeError::MissingDatabaseHost => "No host in database URL",
            BackendComposeError::MissingDatabasePassword => "No password in database URL",
        }
    }
}

// ---------------------------------------------------------------------------
// What each service is.

/// `"<a>:<b>"`, a port mapping.
pub open spec fn port_pair(a: u16, b: u16) -> Seq<char> {
    decimal(a as nat) + ":"@ + decimal(b as nat)
}

/// The RPC URL of the chain as seen from inside a container.
pub open spec fn host_rpc_url(rpc_port: u16) -> Seq<char> {
    "http://host.docker.internal:"@ + decimal(rpc_port as nat)
}

/// The explorer app service.
pub open spec fn app_service(port: u16, config_path: Seq<char>, depends_on: Option<Seq<Seq<char>>>) -> ServiceView {
    ServiceView {
        image: "matterlabs/block-explorer-app"@,
        platform: Some("linux/amd64"@),
        ports: Some(seq![decimal(port as nat) + ":3010"@]),
        volumes: Some(seq![config_path + ":/usr/src/app/packages/app/dist/config.js"@]),
        depends_on: depends_on,
        restart: Some("unless-stopped"@),
        environment: None,
        extra_hosts: None,
    }
}

/// The explorer API service of a chain.
pub open spec fn api_service(chain_name: Seq<char>, port: u16, db_url: Seq<char>) -> ServiceView {
    ServiceView {
        image: "matterlabs/block-explorer-api"@,
        platform: Some("linux/amd64"@),
        ports: Some(seq![port_pair(port, port)]),
        volumes: None,
        depends_on: Some(seq!["worker-"@ + chain_name]),
        restart: Some("unless-stopped"@),
        environment: Some(
            Map::<Seq<char>, Seq<char>>::empty()
                .insert("PORT"@, decimal(port as nat))
                .insert("LOG_LEVEL"@, "verbose"@)
                .insert("NODE_ENV"@, "development"@)
                .insert("DATABASE_URL"@, db_url),
        ),
        extra_hosts: Some(seq!["host.docker.internal:host-gateway"@]),
    }
}

/// The explorer data-fetcher service of a chain.
pub open spec fn data_fetcher_service(port: u16, rpc_port: u16) -> ServiceView {
    ServiceView {
        image: "matterlabs/block-explorer-data-fetcher"@,
        platform: Some("linux/amd64"@),
        ports: Some(seq![port_pair(port, port)]),
        volumes: None,
        depends_on: None,
        restart: Some("unless-stopped"@),
        environment: Some(
            Map::<Seq<char>, Seq<char>>::empty()
                .insert("PORT"@, decimal(port as nat))
                .insert("LOG_LEVEL"@, "verbose"@)
                .insert("NODE_ENV"@, "development"@)
                .insert("BLOCKCHAIN_RPC_URL"@, host_rpc_url(rpc_port)),
        ),
        extra_hosts: Some(seq!["host.docker.internal:host-gateway"@]),
    }
}

/// The explorer worker service of a chain. The database host is fixed to the
/// docker host; `db_host` is not used.
pub open spec fn worker_service(
    chain_name: Seq<char>,
    port: u16,
    rpc_port: u16,
    db_host: Seq<char>,
    db_user: Seq<char>,
    db_password: Seq<char>,
    db_name: Seq<char>,
) -> ServiceView {
    ServiceView {
        image: "matterlabs/block-explorer-worker"@,
        platform: Some("linux/amd64"@),
        ports: None,
        volumes: None,
        depends_on: None,
        restart: Some("unless-stopped"@),
        environment: Some(
            Map::<Seq<char>, Seq<char>>::empty()
                .insert("PORT"@, decimal(port as nat))
                .insert("LOG_LEVEL"@, "verbose"@)
                .insert("NODE_ENV"@, "development"@)
                .insert("DATABASE_HOST"@, "host.docker.internal"@)
                .insert("DATABASE_USER"@, db_user)
                .insert("DATABASE_PASSWORD"@, db_password)
                .insert("DATABASE_NAME"@, db_name)
                .insert("BLOCKCHAIN_RPC_URL"@, host_rpc_url(rpc_port))
                .insert("DATA_FETCHER_URL"@, "http://data-fetcher-"@ + chain_name + ":"@ + decimal(port as nat))
                .insert("BATCHES_PROCESSING_POLLING_INTERVAL"@, "1000"@),
        ),
        extra_hosts: Some(seq!["host.docker.internal:host-gateway"@]),
    }
}

/// Name of the API service of a chain.
pub open spec fn api_service_name(chain_name: Seq<char>) -> Seq<char> {
    "block-explorer-api-"@ + chain_name
}

/// Name of the data-fetcher service of a chain.
pub open spec fn data_fetcher_service_name(chain_name: Seq<char>) -> Seq<char> {
    "block-explorer-data-fetcher-"@ + chain_name
}

/// Name of the worker service of a chain.
pub open spec fn worker_service_name(chain_name: Seq<char>) -> Seq<char> {
    "block-explorer-worker-"@ + chain_name
}

/// The names of the backend services of a chain, in the order they are added.
pub open spec fn backend_service_names(chain_name: Seq<char>) -> Seq<Seq<char>> {
    seq![
        api_service_name(chain_name),
        data_fetcher_service_name(chain_name),
        worker_service_name(chain_name),
    ]
}

/// The three service names of a chain differ from one another.
pub proof fn lemma_backend_service_names_distinct(chain_name: Seq<char>)
    ensures
        api_service_name(chain_name) != data_fetcher_service_name(chain_name),
        api_service_name(chain_name) != worker_service_name(chain_name),
        data_fetcher_service_name(chain_name) != worker_service_name(chain_name),
{
    reveal_strlit("block-explorer-api-");
    reveal_strlit("block-explorer-data-fetcher-");
    reveal_strlit("block-explorer-worker-");
    assert(api_service_name(chain_name).len() != data_fetcher_service_name(chain_name).len());
    assert(api_service_name(chain_name).len() != worker_service_name(chain_name).len());
    assert(data_fetcher_service_name(chain_name).len() != worker_service_name(chain_name).len());
}

/// The backend services of a chain whose database URL parsed to `db`.
pub open spec fn backend_services(
    chain_name: Seq<char>,
    config: ExplorerBackendServiceConfig,
    db: ParsedUrlView,
) -> Map<Seq<char>, ServiceView> {
    Map::<Seq<char>, ServiceView>::empty()
        .insert(
            api_service_name(chain_name),
            api_service(chain_name, config.service_ports.api_port, config.db_url@),
        )
        .insert(
            data_fetcher_service_name(chain_name),
            data_fetcher_service(config.service_ports.data_fetcher_port, config.rpc_port),
        )
        .insert(
            worker_service_name(chain_name),
            worker_service(
                chain_name,
                config.service_ports.worker_port,
                config.rpc_port,
                db.host.unwrap(),
                db.username,
                db.password.unwrap(),
                trim_start_char(db.path, '/'),
            ),
        )
}

/// The backend services of a chain, given what its database URL parsed to
/// (`None`: it did not parse).
pub open spec fn backend_outcome(
    chain_name: Seq<char>,
    config: ExplorerBackendServiceConfig,
    db: Option<ParsedUrlView>,
) -> Result<Map<Seq<char>, ServiceView>, BackendComposeError> {
    match db {
        None => Err(BackendComposeError::InvalidDatabaseUrl),
        Some(u) => if u.host is None {
            Err(BackendComposeError::MissingDatabaseHost)
        } else if u.password is None {
            Err(BackendComposeError::MissingDatabasePassword)
        } else {
            Ok(backend_services(chain_name, config, u))
        },
    }
}

/// The view of an optional parsed URL.
pub open spec fn parsed_view(u: Option<ParsedUrl>) -> Option<ParsedUrlView> {
    match u {
        Some(p) => Some(p@),
        None => None,
    }
}

// ---------------------------------------------------------------------------
// Gathering the backends.

/// The service is an explorer API: its image names `block-explorer-api`.
pub open spec fn is_api_service(s: ServiceView) -> bool {
    contains_seq(s.image, "block-explorer-api"@)
}

/// The services of the backends, later backends taking precedence.
pub open spec fn merged_services(backends: Seq<ExplorerBackendComposeConfig>) -> Map<Seq<char>, ServiceView>
    decreases backends.len(),
{
    if backends.len() == 0 {
        Map::empty()
    } else {
        merged_services(backends.drop_last()).union_prefer_right(
            backends.last().docker_compose.services@,
        )
    }
}

/// The names among `keys` of API services in `services`, in order.
pub open spec fn api_names(keys: Seq<Seq<char>>, services: Map<Seq<char>, ServiceView>) -> Seq<Seq<char>>
    decreases keys.len(),
{
    if keys.len() == 0 {
        Seq::empty()
    } else {
        let init = api_names(keys.drop_last(), services);
        if is_api_service(services[keys.last()]) {
            init.push(keys.last())
        } else {
            init
        }
    }
}

/// The names of the API services of the backends, backend by backend, each
/// backend's in its own order.
pub open spec fn api_dependencies(backends: Seq<ExplorerBackendComposeConfig>) -> Seq<Seq<char>>
    decreases backends.len(),
{
    if backends.len() == 0 {
        Seq::empty()
    } else {
        api_dependencies(backends.drop_last()) + api_names(
            backends.last().docker_compose.services.keys(),
            backends.last().docker_compose.services@,
        )
    }
}

/// Name of the explorer app service.
pub open spec fn app_service_name() -> Seq<char> {
    "block-explorer-app"@
}

/// The services of the ecosystem's explorer document.
pub open spec fn explorer_services(
    app_port: u16,
    app_config_path: Seq<char>,
    backends: Seq<ExplorerBackendComposeConfig>,
) -> Map<Seq<char>, ServiceView> {
    merged_services(backends).insert(
        app_service_name(),
        app_service(app_port, app_config_path, Some(api_dependencies(backends))),
    )
}

// ---------------------------------------------------------------------------
// Building the documents.

fn one_string(s: String) -> (v: Vec<String>)
    ensures
        v.deep_view() == seq![s@],
{
    let mut v: Vec<String> = Vec::new();
    v.push(s);
    proof {
        assert(v.deep_view() =~= seq![s@]);
    }
    v
}

fn port_pair_string(a: u16, b: u16) -> (s: String)
    ensures
        s@ == port_pair(a, b),
{
    decimal_string(a as u64).concat(":").concat(decimal_string(b as u64).as_str())
}

fn host_rpc_url_string(rpc_port: u16) -> (s: String)
    ensures
        s@ == host_rpc_url(rpc_port),
{
    "http://host.docker.internal:".to_owned().concat(decimal_string(rpc_port as u64).as_str())
}

impl ExplorerComposeConfig {
    /// The ecosystem's explorer document: every service of the backends (a
    /// later backend's service replacing an earlier one of the same name),
    /// and the explorer app, which depends on every API service among them.
    pub fn new(
        app_config: ExplorerAppServiceConfig,
        backend_configs: Vec<ExplorerBackendComposeConfig>,
    ) -> (c: Self)
        ensures
            c.docker_compose.services@ == explorer_services(
                app_config.port,
                app_config.config_path@,
                backend_configs@,
            ),
    {
        let ghost backends = backend_configs@;
        let mut services: StringMap<DockerComposeService> = StringMap::new();
        let mut app_depends_on: Vec<String> = Vec::new();
        let nb = backend_configs.len();
        let mut b: usize = 0;
        while b < nb
            invariant
                backends == backend_configs@,
                nb == backends.len(),
                b <= nb,
                services@ == merged_services(backends.take(b as int)),
                app_depends_on.deep_view() == api_dependencies(backends.take(b as int)),
            decreases nb - b,
        {
            let backend = &backend_configs[b];
            let table = &backend.docker_compose.services;
            let ghost m = table@;
            let ghost keys = table.keys();
            let ghost merged_before = services@;
            let ghost deps_before = app_depends_on.deep_view();
            let n = table.len();
            let mut j: usize = 0;
            while j < n
                invariant
                    m == table@,
                    keys == table.keys(),
                    n == keys.len(),
                    keys.no_duplicates(),
                    m.dom() == keys.to_set(),
                    j <= n,
                    services@ == merged_before.union_prefer_right(
                        m.restrict(keys.take(j as int).to_set()),
                    ),
                    app_depends_on.deep_view() == deps_before + api_names(keys.take(j as int), m),
                decreases n - j,
            {
                let name = table.key_at(j);
                let service = table.value_at(j);
                let ghost k = keys[j as int];
                proof {
                    assert(keys.take(j + 1) =~= keys.take(j as int).push(k));
                    assert(keys.take(j + 1).drop_last() =~= keys.take(j as int));
                    keys.take(j as int).lemma_push_to_set_commute(k);
                }
                if str_contains(service.image.as_str(), "block-explorer-api") {
                    let ghost before_push = app_depends_on.deep_view();
                    app_depends_on.push(name.clone());
                    proof {
                        assert(is_api_service(m[k]));
                        assert(api_names(keys.take(j + 1), m) == api_names(keys.take(j as int), m).push(k));
                        assert(app_depends_on.deep_view() =~= before_push.push(k));
                        assert(app_depends_on.deep_view() =~= deps_before + api_names(
                            keys.take(j + 1),
                            m,
                        ));
                    }
                }
                services.insert(name.clone(), service.clone());
                proof {
                    assert(services@ =~= merged_before.union_prefer_right(
                        m.restrict(keys.take(j + 1).to_set()),
                    ));
                }
                j = j + 1;
            }
            proof {
                assert(keys.take(n as int) =~= keys);
                assert(m.restrict(keys.to_set()) =~= m);
                let t = backends.take(b + 1);
                assert(t.drop_last() =~= backends.take(b as int));
                assert(t.last() == backends[b as int]);
            }
            b = b + 1;
        }
        proof {
            assert(backends.take(nb as int) =~= backends);
        }
        let app = Self::create_app_service(app_config, Some(app_depends_on));
        services.insert("block-explorer-app".to_owned(), app);
        ExplorerComposeConfig { docker_compose: DockerComposeConfig { services } }
    }

    /// The explorer app service: the app image, published on `port` (the app
    /// listens on 3010), with the runtime config script mounted.
    pub fn create_app_service(
        app_config: ExplorerAppServiceConfig,
        depends_on: Option<Vec<String>>,
    ) -> (s: DockerComposeService)
        ensures
            s@ == app_service(app_config.port, app_config.config_path@, depends_on.deep_view()),
    {
        let port = decimal_string(app_config.port as u64).concat(":3010");
        let volume = app_config.config_path.concat(":/usr/src/app/packages/app/dist/config.js");
        DockerComposeService {
            image: "matterlabs/block-explorer-app".to_owned(),
            platform: Some("linux/amd64".to_owned()),
            ports: Some(one_string(port)),
            volumes: Some(one_string(volume)),
            depends_on,
            restart: Some("unless-stopped".to_owned()),
            environment: None,
            extra_hosts: None,
        }
    }

    /// `<base>/configs/.generated/explorer-docker-compose.yml`.
    pub fn get_config_path(ecosystem_base_path: &str) -> (p: String)
        ensures
            p@ == join_path(ecosystem_generated_dir(ecosystem_base_path@), EXPLORER_DOCKER_COMPOSE_FILE@),
    {
        let configs = join(ecosystem_base_path, LOCAL_CONFIGS_PATH);
        let generated = join(configs.as_str(), LOCAL_GENERATED_PATH);
        join(generated.as_str(), EXPLORER_DOCKER_COMPOSE_FILE)
    }
}

impl ExplorerBackendComposeConfig {
    /// The backend document of a chain: its API, data fetcher and worker. The
    /// worker reads the database user, password and name from the database URL.
    pub fn new(chain_name: &str, config: ExplorerBackendServiceConfig) -> (r: Result<Self, BackendComposeError>)
        ensures
            match r {
                Ok(c) => backend_outcome(chain_name@, config, url_parse_outcome(config.db_url@))
                    == Ok::<Map<Seq<char>, ServiceView>, BackendComposeError>(c.docker_compose.services@)
                    && c.docker_compose.services.keys() == backend_service_names(chain_name@),
                Err(e) => backend_outcome(chain_name@, config, url_parse_outcome(config.db_url@))
                    == Err::<Map<Seq<char>, ServiceView>, BackendComposeError>(e),
            },
            r matches Ok(c) ==> forall|scheme: Seq<char>, user: Seq<char>, password: Seq<char>, rest: Seq<char>|
                #[trigger] credentials_url(config.db_url@, scheme, user, password, rest) ==> {
                    let worker = c.docker_compose.services@[worker_service_name(chain_name@)];
                    &&& c.docker_compose.services@.dom().contains(worker_service_name(chain_name@))
                    &&& worker.environment is Some
                    &&& worker.environment.unwrap().dom().contains("DATABASE_USER"@)
                    &&& worker.environment.unwrap()["DATABASE_USER"@] == user
                    &&& worker.environment.unwrap().dom().contains("DATABASE_PASSWORD"@)
                    &&& worker.environment.unwrap()["DATABASE_PASSWORD"@] == password
                },
    {
        let parsed = ParsedUrl::parse(config.db_url.as_str());
        let ghost parsed_view = match &parsed {
            Ok(u) => Some(u@),
            Err(_) => None,
        };
        let db_url = match parsed {
            Ok(u) => Some(u),
            Err(_) => None,
        };
        let r = Self::from_database_url(chain_name, &config, db_url);
        proof {
            if r is Ok {
                let u = parsed_view.unwrap();
                lemma_backend_service_names_distinct(chain_name@);
                law_worker_environment(
                    chain_name@,
                    config.service_ports.worker_port,
                    config.rpc_port,
                    u.host.unwrap(),
                    u.username,
                    u.password.unwrap(),
                    trim_start_char(u.path, '/'),
                );
            }
        }
        r
    }

    /// The backend document of a chain whose database URL parsed to `db_url`
    /// (`None`: it did not parse).
    pub fn from_database_url(
        chain_name: &str,
        config: &ExplorerBackendServiceConfig,
        db_url: Option<ParsedUrl>,
    ) -> (r: Result<Self, BackendComposeError>)
        ensures
            match r {
                Ok(c) => backend_outcome(chain_name@, *config, parsed_view(db_url))
                    == Ok::<Map<Seq<char>, ServiceView>, BackendComposeError>(c.docker_compose.services@)
                    && c.docker_compose.services.keys() == backend_service_names(chain_name@),
                Err(e) => backend_outcome(chain_name@, *config, parsed_view(db_url))
                    == Err::<Map<Seq<char>, ServiceView>, BackendComposeError>(e),
            },
    {
        let db = match db_url {
            Some(u) => u,
            None => return Err(BackendComposeError::InvalidDatabaseUrl),
        };
        let db_host = match &db.host {
            Some(h) => h.clone(),
            None => return Err(BackendComposeError::MissingDatabaseHost),
        };
        let db_user = db.username.clone();
        let db_password = match &db.password {
            Some(p) => p.clone(),
            None => return Err(BackendComposeError::MissingDatabasePassword),
        };
        let db_name = trim_start_matches_char(db.path.as_str(), '/');
        proof {
            lemma_backend_service_names_distinct(chain_name@);
        }
        let mut services: StringMap<DockerComposeService> = StringMap::new();
        services.insert(
            "block-explorer-api-".to_owned().concat(chain_name),
            Self::create_api_service(chain_name, config.service_ports.api_port, config.db_url.as_str()),
        );
        services.insert(
            "block-explorer-data-fetcher-".to_owned().concat(chain_name),
            Self::create_data_fetcher_service(config.service_ports.data_fetcher_port, config.rpc_port),
        );
        services.insert(
            "block-explorer-worker-".to_owned().concat(chain_name),
            Self::create_worker_service(
                chain_name,
                config.service_ports.worker_port,
                config.rpc_port,
                db_host.as_str(),
                db_user.as_str(),
                db_password.as_str(),
                db_name.as_str(),
            ),
        );
        proof {
            assert(services.keys() =~= backend_service_names(chain_name@));
        }
        Ok(ExplorerBackendComposeConfig { docker_compose: DockerComposeConfig { services } })
    }

    /// The explorer API service of a chain.
    pub fn create_api_service(chain_name: &str, port: u16, db_url: &str) -> (s: DockerComposeService)
        ensures
            s@ == api_service(chain_name@, port, db_url@),
    {
        let mut env: StringMap<String> = StringMap::new();
        env.insert("PORT".to_owned(), decimal_string(port as u64));
        env.insert("LOG_LEVEL".to_owned(), "verbose".to_owned());
        env.insert("NODE_ENV".to_owned(), "development".to_owned());
        env.insert("DATABASE_URL".to_owned(), db_url.to_owned());
        DockerComposeService {
            image: "matterlabs/block-explorer-api".to_owned(),
            platform: Some("linux/amd64".to_owned()),
            ports: Some(one_string(port_pair_string(port, port))),
            volumes: None,
            depends_on: Some(one_string("worker-".to_owned().concat(chain_name))),
            restart: Some("unless-stopped".to_owned()),
            environment: Some(env),
            extra_hosts: Some(one_string("host.docker.internal:host-gateway".to_owned())),
        }
    }

    /// The explorer data-fetcher service of a chain.
    pub fn create_data_fetcher_service(port: u16, rpc_port: u16) -> (s: DockerComposeService)
        ensures
            s@ == data_fetcher_service(port, rpc_port),
    {
        let mut env: StringMap<String> = StringMap::new();
        env.insert("PORT".to_owned(), decimal_string(port as u64));
        env.insert("LOG_LEVEL".to_owned(), "verbose".to_owned());
        env.insert("NODE_ENV".to_owned(), "development".to_owned());
        env.insert("BLOCKCHAIN_RPC_URL".to_owned(), host_rpc_url_string(rpc_port));
        DockerComposeService {
            image: "matterlabs/block-explorer-data-fetcher".to_owned(),
            platform: Some("linux/amd64".to_owned()),
            ports: Some(one_string(port_pair_string(port, port))),
            volumes: None,
            depends_on: None,
            restart: Some("unless-stopped".to_owned()),
            environment: Some(env),
            extra_hosts: Some(one_string("host.docker.internal:host-gateway".to_owned())),
        }
    }

    /// The explorer worker service of a chain.
    pub fn create_worker_service(
        chain_name: &str,
        port: u16,
        rpc_port: u16,
        db_host: &str,
        db_user: &str,
        db_password: &str,
        db_name: &str,
    ) -> (s: DockerComposeService)
        ensures
            s@ == worker_service(chain_name@, port, rpc_port, db_host@, db_user@, db_password@, db_name@),
    {
        let data_fetcher_url = "http://data-fetcher-".to_owned()
            .concat(chain_name)
            .concat(":")
            .concat(decimal_string(port as u64).as_str());
        let mut env: StringMap<String> = StringMap::new();
        env.insert("PORT".to_owned(), decimal_string(port as u64));
        env.insert("LOG_LEVEL".to_owned(), "verbose".to_owned());
        env.insert("NODE_ENV".to_owned(), "development".to_owned());
        env.insert("DATABASE_HOST".to_owned(), "host.docker.internal".to_owned());
        env.insert("DATABASE_USER".to_owned(), db_user.to_owned());
        env.insert("DATABASE_PASSWORD".to_owned(), db_password.to_owned());
        env.insert("DATABASE_NAME".to_owned(), db_name.to_owned());
        env.insert("BLOCKCHAIN_RPC_URL".to_owned(), host_rpc_url_string(rpc_port));
        env.insert("DATA_FETCHER_URL".to_owned(), data_fetcher_url);
        env.insert("BATCHES_PROCESSING_POLLING_INTERVAL".to_owned(), "1000".to_owned());
        DockerComposeService {
            image: "matterlabs/block-explorer-worker".to_owned(),
            platform: Some("linux/amd64".to_owned()),
            ports: None,
            volumes: None,
            depends_on: None,
            restart: Some("unless-stopped".to_owned()),
            environment: Some(env),
            extra_hosts: Some(one_string("host.docker.internal:host-gateway".to_owned())),
        }
    }

    /// `<base>/chains/<chain>/configs/apps/explorer-backend-docker-compose.yml`.
    pub fn get_config_path(ecosystem_base_path: &str, chain_name: &str) -> (p: String)
        ensures
            p@ == join_path(chain_apps_dir(ecosystem_base_path@, chain_name@), EXPLORER_BACKEND_DOCKER_COMPOSE_FILE@),
    {
        let chains = join(ecosystem_base_path, LOCAL_CHAINS_PATH);
        let chain = join(chains.as_str(), chain_name);
        let configs = join(chain.as_str(), LOCAL_CONFIGS_PATH);
        let apps = join(configs.as_str(), LOCAL_APPS_PATH);
        join(apps.as_str(), EXPLORER_BACKEND_DOCKER_COMPOSE_FILE)
    }
}

// ---------------------------------------------------------------------------
// Laws.

/// The names kept by `api_names` are exactly the keys whose service is an API.
proof fn lemma_api_names_contains(keys: Seq<Seq<char>>, m: Map<Seq<char>, ServiceView>, k: Seq<char>)
    ensures
        api_names(keys, m).contains(k) <==> (keys.contains(k) && is_api_service(m[k])),
    decreases keys.len(),
{
    if keys.len() > 0 {
        let init = keys.drop_last();
        lemma_api_names_contains(init, m, k);
        assert(keys =~= init.push(keys.last()));
        if keys.contains(k) && k != keys.last() {
            let i = choose|i: int| 0 <= i < keys.len() && keys[i] == k;
            assert(init[i] == k);
        }
        if init.contains(k) {
            let i = choose|i: int| 0 <= i < init.len() && init[i] == k;
            assert(keys[i] == k);
        }
        if api_names(keys, m).contains(k) && is_api_service(m[keys.last()]) {
            let n = api_names(init, m);
            if k != keys.last() {
                let i = choose|i: int| 0 <= i < n.push(keys.last()).len() && n.push(keys.last())[i] == k;
                assert(n[i] == k);
            }
        }
        if keys.contains(k) && is_api_service(m[k]) && k == keys.last() {
            let n = api_names(init, m);
            assert(n.push(k)[n.len() as int] == k);
        }
        if init.contains(k) && is_api_service(m[k]) && is_api_service(m[keys.last()]) {
            let n = api_names(init, m);
            let i = choose|i: int| 0 <= i < n.len() && n[i] == k;
            assert(n.push(keys.last())[i] == k);
        }
    }
}

/// The tables of the backends are well formed: their keys are their domains.
pub open spec fn tables_well_formed(backends: Seq<ExplorerBackendComposeConfig>) -> bool {
    forall|i: int|
        0 <= i < backends.len() ==> (#[trigger] backends[i]).docker_compose.services.keys().to_set()
            == backends[i].docker_compose.services@.dom()
}

/// `k` names an API service in backend `i`.
pub open spec fn api_service_in(backends: Seq<ExplorerBackendComposeConfig>, i: int, k: Seq<char>) -> bool {
    &&& 0 <= i < backends.len()
    &&& backends[i].docker_compose.services@.dom().contains(k)
    &&& is_api_service(backends[i].docker_compose.services@[k])
}

/// The explorer app depends on a name exactly when some backend has an API
/// service of that name.
pub proof fn lemma_app_depends_on_every_api(backends: Seq<ExplorerBackendComposeConfig>, k: Seq<char>)
    requires
        tables_well_formed(backends),
    ensures
        api_dependencies(backends).contains(k) <==> exists|i: int| api_service_in(backends, i, k),
    decreases backends.len(),
{
    if backends.len() > 0 {
        let init = backends.drop_last();
        let n = backends.len() - 1;
        let last = backends.last();
        assert(tables_well_formed(init)) by {
            assert forall|i: int| 0 <= i < init.len() implies
                (#[trigger] init[i]).docker_compose.services.keys().to_set() == init[i].docker_compose.services@.dom() by {
                assert(init[i] == backends[i]);
            }
        }
        lemma_app_depends_on_every_api(init, k);
        let keys = last.docker_compose.services.keys();
        let m = last.docker_compose.services@;
        lemma_api_names_contains(keys, m, k);
        assert(backends[n] == last);
        assert(keys.to_set() == m.dom());
        assert(keys.contains(k) <==> m.dom().contains(k)) by {
            if keys.contains(k) {
                assert(keys.to_set().contains(k));
            }
            if m.dom().contains(k) {
                assert(keys.to_set().contains(k));
            }
        }
        let d = api_dependencies(init);
        let a = api_names(keys, m);
        assert(api_dependencies(backends) == d + a);
        if (d + a).contains(k) {
            let j = choose|j: int| 0 <= j < (d + a).len() && (d + a)[j] == k;
            if j < d.len() {
                assert(d[j] == k);
                let i = choose|i: int| api_service_in(init, i, k);
                assert(api_service_in(backends, i, k));
            } else {
                assert(a[j - d.len()] == k);
                assert(api_service_in(backends, n, k));
            }
        }
        if exists|i: int| api_service_in(backends, i, k) {
            let i = choose|i: int| api_service_in(backends, i, k);
            if i < n {
                assert(api_service_in(init, i, k));
                let j = choose|j: int| 0 <= j < d.len() && d[j] == k;
                assert((d + a)[j] == k);
            } else {
                assert(a.contains(k));
                let j = choose|j: int| 0 <= j < a.len() && a[j] == k;
                assert((d + a)[d.len() + j] == k);
            }
        }
    }
}

/// Backend `i` has a service named `k`.
pub open spec fn service_in(backends: Seq<ExplorerBackendComposeConfig>, i: int, k: Seq<char>) -> bool {
    0 <= i < backends.len() && backends[i].docker_compose.services@.dom().contains(k)
}

/// A name is a service of the gathered backends exactly when some backend
/// has a service of that name.
pub proof fn lemma_merged_services_dom(backends: Seq<ExplorerBackendComposeConfig>, k: Seq<char>)
    ensures
        merged_services(backends).dom().contains(k) <==> exists|i: int| service_in(backends, i, k),
    decreases backends.len(),
{
    if backends.len() > 0 {
        let init = backends.drop_last();
        let n = backends.len() - 1;
        lemma_merged_services_dom(init, k);
        if merged_services(backends).dom().contains(k) {
            if backends[n].docker_compose.services@.dom().contains(k) {
                assert(service_in(backends, n, k));
            } else {
                let i = choose|i: int| service_in(init, i, k);
                assert(init[i] == backends[i]);
                assert(service_in(backends, i, k));
            }
        }
        if exists|i: int| service_in(backends, i, k) {
            let i = choose|i: int| service_in(backends, i, k);
            if i < n {
                assert(init[i] == backends[i]);
                assert(service_in(init, i, k));
            }
        }
    }
}

/// Where several backends have a service of the same name, the gathered
/// services hold that of the last of them.
pub proof fn lemma_merged_services_latest(backends: Seq<ExplorerBackendComposeConfig>, k: Seq<char>, i: int)
    requires
        service_in(backends, i, k),
        forall|j: int| i < j < backends.len() ==> !service_in(backends, j, k),
    ensures
        merged_services(backends)[k] == backends[i].docker_compose.services@[k],
    decreases backends.len(),
{
    let n = backends.len() - 1;
    let init = backends.drop_last();
    if i < n {
        assert(!service_in(backends, n, k));
        assert(init[i] == backends[i]);
        assert forall|j: int| i < j < init.len() implies !service_in(init, j, k) by {
            assert(init[j] == backends[j]);
            assert(!service_in(backends, j, k));
        }
        lemma_merged_services_latest(init, k, i);
        lemma_merged_services_dom(init, k);
    }
}

/// The image of a chain's API service names `block-explorer-api`.
pub proof fn lemma_api_service_is_api(chain_name: Seq<char>, port: u16, db_url: Seq<char>)
    ensures
        is_api_service(api_service(chain_name, port, db_url)),
{
    reveal_strlit("matterlabs/block-explorer-api");
    reveal_strlit("block-explorer-api");
    let image = "matterlabs/block-explorer-api"@;
    let needle = "block-explorer-api"@;
    assert(image.subrange(11, 11 + needle.len() as int) =~= needle);
    assert(crate::text::occurs_at(image, needle, 11));
}

/// Neither the data fetcher's nor the worker's image names `block-explorer-api`.
pub proof fn lemma_fetcher_and_worker_are_not_api(
    port: u16,
    rpc_port: u16,
    chain_name: Seq<char>,
    db_host: Seq<char>,
    db_user: Seq<char>,
    db_password: Seq<char>,
    db_name: Seq<char>,
)
    ensures
        !is_api_service(data_fetcher_service(port, rpc_port)),
        !is_api_service(worker_service(chain_name, port, rpc_port, db_host, db_user, db_password, db_name)),
{
    reveal_strlit("matterlabs/block-explorer-data-fetcher");
    reveal_strlit("matterlabs/block-explorer-worker");
    reveal_strlit("block-explorer-api");
    let needle = "block-explorer-api"@;
    let fetcher = "matterlabs/block-explorer-data-fetcher"@;
    let worker = "matterlabs/block-explorer-worker"@;
    assert forall|i: int| !crate::text::occurs_at(fetcher, needle, i) by {
        if crate::text::occurs_at(fetcher, needle, i) {
            assert(fetcher.subrange(i, i + 18)[16] == needle[16]);
            assert(fetcher.subrange(i, i + 18)[17] == needle[17]);
            assert(fetcher[i + 16] == 'p');
            assert(fetcher[i + 17] == 'i');
        }
    }
    assert forall|i: int| !crate::text::occurs_at(worker, needle, i) by {
        if crate::text::occurs_at(worker, needle, i) {
            assert(worker.subrange(i, i + 18)[16] == needle[16]);
            assert(worker.subrange(i, i + 18)[17] == needle[17]);
            assert(worker[i + 16] == 'p');
            assert(worker[i + 17] == 'i');
        }
    }
}

/// A chain's backend document, gathered into the ecosystem's document,
/// makes the explorer app depend on that chain's API service.
pub proof fn lemma_backend_api_is_app_dependency(
    backends: Seq<ExplorerBackendComposeConfig>,
    i: int,
    chain_name: Seq<char>,
    config: ExplorerBackendServiceConfig,
    db: ParsedUrlView,
)
    requires
        tables_well_formed(backends),
        0 <= i < backends.len(),
        backends[i].docker_compose.services@ == backend_services(chain_name, config, db),
    ensures
        api_dependencies(backends).contains(api_service_name(chain_name)),
{
    reveal_strlit("block-explorer-api-");
    reveal_strlit("block-explorer-data-fetcher-");
    reveal_strlit("block-explorer-worker-");
    let k = api_service_name(chain_name);
    assert(k.len() != data_fetcher_service_name(chain_name).len());
    assert(k.len() != worker_service_name(chain_name).len());
    let m = backends[i].docker_compose.services@;
    assert(m[k] == api_service(chain_name, config.service_ports.api_port, config.db_url@));
    lemma_api_service_is_api(chain_name, config.service_ports.api_port, config.db_url@);
    assert(api_service_in(backends, i, k));
    lemma_app_depends_on_every_api(backends, k);
}

/// The service names of all the given chains.
pub open spec fn chains_service_names(chains: Seq<Seq<char>>) -> Set<Seq<char>>
    decreases chains.len(),
{
    if chains.len() == 0 {
        Set::empty()
    } else {
        let c = chains.last();
        chains_service_names(chains.drop_last())
            .insert(api_service_name(c))
            .insert(data_fetcher_service_name(c))
            .insert(worker_service_name(c))
    }
}

/// Service names of chains are distinct unless they name the same service
/// of the same chain, and none of them is the app's name.
pub proof fn lemma_service_names_injective(c: Seq<char>, d: Seq<char>)
    ensures
        api_service_name(c) == api_service_name(d) ==> c == d,
        data_fetcher_service_name(c) == data_fetcher_service_name(d) ==> c == d,
        worker_service_name(c) == worker_service_name(d) ==> c == d,
        api_service_name(c) != data_fetcher_service_name(d),
        api_service_name(c) != worker_service_name(d),
        data_fetcher_service_name(c) != worker_service_name(d),
        data_fetcher_service_name(c) != api_service_name(d),
        worker_service_name(c) != api_service_name(d),
        worker_service_name(c) != data_fetcher_service_name(d),
        api_service_name(c) != app_service_name(),
        data_fetcher_service_name(c) != app_service_name(),
        worker_service_name(c) != app_service_name(),
{
    reveal_strlit("block-explorer-api-");
    reveal_strlit("block-explorer-data-fetcher-");
    reveal_strlit("block-explorer-worker-");
    reveal_strlit("block-explorer-app");
    let a = "block-explorer-api-"@;
    let f = "block-explorer-data-fetcher-"@;
    let w = "block-explorer-worker-"@;
    if api_service_name(c) == api_service_name(d) {
        assert(c =~= api_service_name(c).subrange(a.len() as int, api_service_name(c).len() as int));
        assert(d =~= api_service_name(d).subrange(a.len() as int, api_service_name(d).len() as int));
    }
    if data_fetcher_service_name(c) == data_fetcher_service_name(d) {
        assert(c =~= data_fetcher_service_name(c).subrange(f.len() as int, data_fetcher_service_name(c).len() as int));
        assert(d =~= data_fetcher_service_name(d).subrange(f.len() as int, data_fetcher_service_name(d).len() as int));
    }
    if worker_service_name(c) == worker_service_name(d) {
        assert(c =~= worker_service_name(c).subrange(w.len() as int, worker_service_name(c).len() as int));
        assert(d =~= worker_service_name(d).subrange(w.len() as int, worker_service_name(d).len() as int));
    }
    assert(api_service_name(c)[15] == 'a');
    assert(api_service_name(c)[17] == 'i');
    assert(data_fetcher_service_name(c)[15] == 'd');
    assert(worker_service_name(c)[15] == 'w');
    assert(api_service_name(d)[15] == 'a');
    assert(data_fetcher_service_name(d)[15] == 'd');
    assert(worker_service_name(d)[15] == 'w');
    assert(app_service_name()[15] == 'a');
    assert(app_service_name()[17] == 'p');
}

/// Backend `i` is the document that `ExplorerBackendComposeConfig::new` makes
/// for chain `chains[i]` with config `configs[i]` and database URL parts `dbs[i]`.
pub open spec fn backends_of_chains(
    backends: Seq<ExplorerBackendComposeConfig>,
    chains: Seq<Seq<char>>,
    configs: Seq<ExplorerBackendServiceConfig>,
    dbs: Seq<ParsedUrlView>,
) -> bool {
    &&& backends.len() == chains.len()
    &&& configs.len() == chains.len()
    &&& dbs.len() == chains.len()
    &&& forall|i: int|
        0 <= i < backends.len() ==> {
            &&& (#[trigger] backends[i]).docker_compose.services@ == backend_services(chains[i], configs[i], dbs[i])
            &&& backends[i].docker_compose.services.keys() == backend_service_names(chains[i])
        }
}

proof fn lemma_backends_of_chains_init(
    backends: Seq<ExplorerBackendComposeConfig>,
    chains: Seq<Seq<char>>,
    configs: Seq<ExplorerBackendServiceConfig>,
    dbs: Seq<ParsedUrlView>,
)
    requires
        backends_of_chains(backends, chains, configs, dbs),
        backends.len() > 0,
    ensures
        backends_of_chains(backends.drop_last(), chains.drop_last(), configs.drop_last(), dbs.drop_last()),
{
    let b = backends.drop_last();
    assert forall|i: int| 0 <= i < b.len() implies {
        &&& (#[trigger] b[i]).docker_compose.services@ == backend_services(chains.drop_last()[i], configs.drop_last()[i], dbs.drop_last()[i])
        &&& b[i].docker_compose.services.keys() == backend_service_names(chains.drop_last()[i])
    } by {
        assert(b[i] == backends[i]);
    }
}

/// Gathering the backends of several chains makes the explorer app depend on
/// the API service of each chain, in the order of the backends, and on
/// nothing else.
pub proof fn lemma_gathered_chains_dependencies(
    backends: Seq<ExplorerBackendComposeConfig>,
    chains: Seq<Seq<char>>,
    configs: Seq<ExplorerBackendServiceConfig>,
    dbs: Seq<ParsedUrlView>,
)
    requires
        backends_of_chains(backends, chains, configs, dbs),
    ensures
        api_dependencies(backends) == chains.map_values(|c: Seq<char>| api_service_name(c)),
    decreases backends.len(),
{
    if backends.len() == 0 {
        assert(chains.map_values(|c: Seq<char>| api_service_name(c)) =~= Seq::<Seq<char>>::empty());
    } else {
        let n = backends.len() - 1;
        lemma_backends_of_chains_init(backends, chains, configs, dbs);
        lemma_gathered_chains_dependencies(
            backends.drop_last(),
            chains.drop_last(),
            configs.drop_last(),
            dbs.drop_last(),
        );
        let c = chains[n];
        let last = backends.last();
        assert(last == backends[n]);
        let m = last.docker_compose.services@;
        let keys = last.docker_compose.services.keys();
        let db = dbs[n];
        let cfg = configs[n];
        lemma_backend_service_names_distinct(c);
        lemma_api_service_is_api(c, cfg.service_ports.api_port, cfg.db_url@);
        lemma_fetcher_and_worker_are_not_api(
            cfg.service_ports.data_fetcher_port,
            cfg.rpc_port,
            c,
            db.host.unwrap(),
            db.username,
            db.password.unwrap(),
            trim_start_char(db.path, '/'),
        );
        lemma_fetcher_and_worker_are_not_api(
            cfg.service_ports.worker_port,
            cfg.rpc_port,
            c,
            db.host.unwrap(),
            db.username,
            db.password.unwrap(),
            trim_start_char(db.path, '/'),
        );
        assert(m[api_service_name(c)] == api_service(c, cfg.service_ports.api_port, cfg.db_url@));
        let a = api_service_name(c);
        let f = data_fetcher_service_name(c);
        let w = worker_service_name(c);
        assert(m[f] == data_fetcher_service(cfg.service_ports.data_fetcher_port, cfg.rpc_port));
        assert(m[w] == worker_service(
            c,
            cfg.service_ports.worker_port,
            cfg.rpc_port,
            db.host.unwrap(),
            db.username,
            db.password.unwrap(),
            trim_start_char(db.path, '/'),
        ));
        let k1 = seq![a];
        let k2 = seq![a, f];
        assert(keys =~= seq![a, f, w]);
        assert(k1.drop_last() =~= Seq::<Seq<char>>::empty());
        assert(k2.drop_last() =~= k1);
        assert(keys.drop_last() =~= k2);
        assert(api_names(Seq::<Seq<char>>::empty(), m) =~= Seq::<Seq<char>>::empty());
        assert(api_names(k1, m) =~= seq![a]);
        assert(api_names(k2, m) =~= seq![a]);
        assert(api_names(keys, m) =~= seq![a]);
        assert(chains.drop_last().map_values(|c: Seq<char>| api_service_name(c)).push(api_service_name(c))
            =~= chains.map_values(|c: Seq<char>| api_service_name(c)));
    }
}

/// The gathered backends of several chains hold exactly the three services
/// of each chain; with distinct chain names that is three services a chain.
pub proof fn lemma_gathered_chains_services(
    backends: Seq<ExplorerBackendComposeConfig>,
    chains: Seq<Seq<char>>,
    configs: Seq<ExplorerBackendServiceConfig>,
    dbs: Seq<ParsedUrlView>,
)
    requires
        backends_of_chains(backends, chains, configs, dbs),
        chains.no_duplicates(),
    ensures
        merged_services(backends).dom() == chains_service_names(chains),
        chains_service_names(chains).finite(),
        chains_service_names(chains).len() == 3 * chains.len(),
        !chains_service_names(chains).contains(app_service_name()),
    decreases backends.len(),
{
    if backends.len() > 0 {
        let n = backends.len() - 1;
        lemma_backends_of_chains_init(backends, chains, configs, dbs);
        let init = chains.drop_last();
        assert(init.no_duplicates()) by {
            assert forall|i: int, j: int| 0 <= i < init.len() && 0 <= j < init.len() && i != j
                implies init[i] != init[j] by {
                assert(init[i] == chains[i] && init[j] == chains[j]);
            }
        }
        lemma_gathered_chains_services(backends.drop_last(), init, configs.drop_last(), dbs.drop_last());
        let c = chains[n];
        assert(chains.last() == c);
        assert(backends.last() == backends[n]);
        lemma_backend_service_names_distinct(c);
        let before = chains_service_names(init);
        assert forall|x: Seq<char>| before.contains(x) implies
            x != api_service_name(c) && x != data_fetcher_service_name(c) && x != worker_service_name(c)
            by {
            lemma_name_from_earlier_chain(init, c, x);
        }
        lemma_service_names_injective(c, c);
        assert(merged_services(backends).dom() =~= chains_service_names(chains));
    }
}

/// A service name of the chains `init` is no service name of a chain `c`
/// that is not among them.
proof fn lemma_name_from_earlier_chain(init: Seq<Seq<char>>, c: Seq<char>, x: Seq<char>)
    requires
        !init.contains(c),
        chains_service_names(init).contains(x),
    ensures
        x != api_service_name(c),
        x != data_fetcher_service_name(c),
        x != worker_service_name(c),
    decreases init.len(),
{
    if init.len() > 0 {
        let d = init.last();
        let rest = init.drop_last();
        assert(d == init[init.len() - 1]);
        assert(!rest.contains(c)) by {
            if rest.contains(c) {
                let i = choose|i: int| 0 <= i < rest.len() && rest[i] == c;
                assert(init[i] == c);
            }
        }
        lemma_service_names_injective(c, d);
        lemma_service_names_injective(d, c);
        if chains_service_names(rest).contains(x) {
            lemma_name_from_earlier_chain(rest, c, x);
        }
    }
}

/// The explorer document of several chains' backends holds three services a
/// chain and the app, when the chains' names differ.
pub proof fn lemma_gathered_chains_service_count(
    app_port: u16,
    app_config_path: Seq<char>,
    backends: Seq<ExplorerBackendComposeConfig>,
    chains: Seq<Seq<char>>,
    configs: Seq<ExplorerBackendServiceConfig>,
    dbs: Seq<ParsedUrlView>,
)
    requires
        backends_of_chains(backends, chains, configs, dbs),
        chains.no_duplicates(),
    ensures
        explorer_services(app_port, app_config_path, backends).dom()
            == chains_service_names(chains).insert(app_service_name()),
        explorer_services(app_port, app_config_path, backends).dom().len() == 3 * chains.len() + 1,
{
    lemma_gathered_chains_services(backends, chains, configs, dbs);
    assert(explorer_services(app_port, app_config_path, backends).dom()
        =~= chains_service_names(chains).insert(app_service_name()));
}

/// The docker-compose settings every explorer service carries: the
/// `linux/amd64` platform and the `unless-stopped` restart policy.
pub open spec fn runs_on_amd64_unless_stopped(s: ServiceView) -> bool {
    &&& s.platform == Some("linux/amd64"@)
    &&& s.restart == Some("unless-stopped"@)
}

/// The host gateway mapping that lets a container reach `host.docker.internal`.
pub open spec fn maps_docker_host(s: ServiceView) -> bool {
    s.extra_hosts == Some(seq!["host.docker.internal:host-gateway"@])
}

/// The worker's environment: it logs in to the database with the given user,
/// password and database name on the docker host, reaches the chain's RPC on
/// the docker host at the RPC port (whatever its own port is), and serves on
/// its own port.
pub proof fn law_worker_environment(
    chain_name: Seq<char>,
    port: u16,
    rpc_port: u16,
    db_host: Seq<char>,
    db_user: Seq<char>,
    db_password: Seq<char>,
    db_name: Seq<char>,
)
    ensures
        ({
            let s = worker_service(chain_name, port, rpc_port, db_host, db_user, db_password, db_name);
            &&& s.environment is Some
            &&& s.environment.unwrap().dom().contains("DATABASE_USER"@)
            &&& s.environment.unwrap()["DATABASE_USER"@] == db_user
            &&& s.environment.unwrap().dom().contains("DATABASE_PASSWORD"@)
            &&& s.environment.unwrap()["DATABASE_PASSWORD"@] == db_password
            &&& s.environment.unwrap().dom().contains("DATABASE_NAME"@)
            &&& s.environment.unwrap()["DATABASE_NAME"@] == db_name
            &&& s.environment.unwrap().dom().contains("DATABASE_HOST"@)
            &&& s.environment.unwrap()["DATABASE_HOST"@] == "host.docker.internal"@
            &&& s.environment.unwrap().dom().contains("BLOCKCHAIN_RPC_URL"@)
            &&& s.environment.unwrap()["BLOCKCHAIN_RPC_URL"@]
                == "http://host.docker.internal:"@ + decimal(rpc_port as nat)
            &&& s.environment.unwrap().dom().contains("PORT"@)
            &&& s.environment.unwrap()["PORT"@] == decimal(port as nat)
        }),
{
    reveal_strlit("PORT");
    reveal_strlit("LOG_LEVEL");
    reveal_strlit("NODE_ENV");
    reveal_strlit("DATABASE_HOST");
    reveal_strlit("DATABASE_USER");
    reveal_strlit("DATABASE_PASSWORD");
    reveal_strlit("DATABASE_NAME");
    reveal_strlit("BLOCKCHAIN_RPC_URL");
    reveal_strlit("DATA_FETCHER_URL");
    reveal_strlit("BATCHES_PROCESSING_POLLING_INTERVAL");
    assert("DATABASE_USER"@[9] != "DATABASE_NAME"@[9]);
    assert("DATABASE_USER"@[9] != "DATABASE_HOST"@[9]);
    assert("DATABASE_NAME"@[9] != "DATABASE_HOST"@[9]);
    let keys = seq![
        "PORT"@, "LOG_LEVEL"@, "NODE_ENV"@, "DATABASE_HOST"@, "DATABASE_USER"@,
        "DATABASE_PASSWORD"@, "DATABASE_NAME"@, "BLOCKCHAIN_RPC_URL"@, "DATA_FETCHER_URL"@,
        "BATCHES_PROCESSING_POLLING_INTERVAL"@,
    ];
    assert(keys[0][0] != keys[1][0]);
    assert(keys[0][0] != keys[2][0]);
    assert(keys[0][0] != keys[3][0]);
    assert(keys[0][0] != keys[4][0]);
    assert(keys[0][0] != keys[5][0]);
    assert(keys[0][0] != keys[6][0]);
    assert(keys[0][0] != keys[7][0]);
    assert(keys[0][0] != keys[8][0]);
    assert(keys[0][0] != keys[9][0]);
    assert(keys[1][0] != keys[2][0]);
    assert(keys[1][0] != keys[3][0]);
    assert(keys[1][0] != keys[4][0]);
    assert(keys[1][0] != keys[5][0]);
    assert(keys[1][0] != keys[6][0]);
    assert(keys[1][0] != keys[7][0]);
    assert(keys[1][0] != keys[8][0]);
    assert(keys[1][0] != keys[9][0]);
    assert(keys[2][0] != keys[3][0]);
    assert(keys[2][0] != keys[4][0]);
    assert(keys[2][0] != keys[5][0]);
    assert(keys[2][0] != keys[6][0]);
    assert(keys[2][0] != keys[7][0]);
    assert(keys[2][0] != keys[8][0]);
    assert(keys[2][0] != keys[9][0]);
    assert(keys[3][9] != keys[4][9]);
    assert(keys[3][9] != keys[5][9]);
    assert(keys[3][9] != keys[6][9]);
    assert(keys[3][0] != keys[7][0]);
    assert(keys[3][4] != keys[8][4]);
    assert(keys[3][0] != keys[9][0]);
    assert(keys[4][9] != keys[5][9]);
    assert(keys[4][9] != keys[6][9]);
    assert(keys[4][0] != keys[7][0]);
    assert(keys[4][4] != keys[8][4]);
    assert(keys[4][0] != keys[9][0]);
    assert(keys[5][9] != keys[6][9]);
    assert(keys[5][0] != keys[7][0]);
    assert(keys[5][4] != keys[8][4]);
    assert(keys[5][0] != keys[9][0]);
    assert(keys[6][0] != keys[7][0]);
    assert(keys[6][4] != keys[8][4]);
    assert(keys[6][0] != keys[9][0]);
    assert(keys[7][0] != keys[8][0]);
    assert(keys[7][1] != keys[9][1]);
    assert(keys[8][0] != keys[9][0]);
    let env = worker_service(chain_name, port, rpc_port, db_host, db_user, db_password, db_name).environment.unwrap();
    assert(env["DATABASE_USER"@] == db_user);
    assert(env["DATABASE_PASSWORD"@] == db_password);
    assert(env["DATABASE_NAME"@] == db_name);
    assert(env["DATABASE_HOST"@] == "host.docker.internal"@);
    assert(env["BLOCKCHAIN_RPC_URL"@] == host_rpc_url(rpc_port));
    assert(env["PORT"@] == decimal(port as nat));
}

/// Both the data fetcher and the worker of a chain reach the chain's RPC at
/// the same URL: the docker host at the RPC port.
pub proof fn law_backend_rpc_urls(chain_name: Seq<char>, config: ExplorerBackendServiceConfig, db: ParsedUrlView)
    ensures
        ({
            let m = backend_services(chain_name, config, db);
            let rpc = "http://host.docker.internal:"@ + decimal(config.rpc_port as nat);
            let fetcher = m[data_fetcher_service_name(chain_name)];
            let worker = m[worker_service_name(chain_name)];
            &&& m.dom().contains(data_fetcher_service_name(chain_name))
            &&& m.dom().contains(worker_service_name(chain_name))
            &&& fetcher.environment is Some
            &&& fetcher.environment.unwrap().dom().contains("BLOCKCHAIN_RPC_URL"@)
            &&& fetcher.environment.unwrap()["BLOCKCHAIN_RPC_URL"@] == rpc
            &&& worker.environment is Some
            &&& worker.environment.unwrap().dom().contains("BLOCKCHAIN_RPC_URL"@)
            &&& worker.environment.unwrap()["BLOCKCHAIN_RPC_URL"@] == rpc
        }),
{
    reveal_strlit("BLOCKCHAIN_RPC_URL");
    lemma_backend_service_names_distinct(chain_name);
    law_worker_environment(
        chain_name,
        config.service_ports.worker_port,
        config.rpc_port,
        db.host.unwrap(),
        db.username,
        db.password.unwrap(),
        trim_start_char(db.path, '/'),
    );
}

/// Every service of a chain's backend runs on `linux/amd64`, restarts unless
/// stopped, and maps `host.docker.internal` to the host gateway (which the
/// services' URLs name).
pub proof fn law_backend_services_settings(chain_name: Seq<char>, config: ExplorerBackendServiceConfig, db: ParsedUrlView)
    ensures
        forall|k: Seq<char>|
            #[trigger] backend_services(chain_name, config, db).dom().contains(k) ==> {
                &&& runs_on_amd64_unless_stopped(backend_services(chain_name, config, db)[k])
                &&& maps_docker_host(backend_services(chain_name, config, db)[k])
            },
{
}

/// Gathering backends whose services all run on `linux/amd64` and restart
/// unless stopped gives a document whose services all do, the explorer app
/// included.
pub proof fn law_explorer_services_settings(
    app_port: u16,
    app_config_path: Seq<char>,
    backends: Seq<ExplorerBackendComposeConfig>,
)
    requires
        forall|i: int, k: Seq<char>|
            #[trigger] service_in(backends, i, k)
                ==> runs_on_amd64_unless_stopped(backends[i].docker_compose.services@[k]),
    ensures
        forall|k: Seq<char>|
            #[trigger] explorer_services(app_port, app_config_path, backends).dom().contains(k)
                ==> runs_on_amd64_unless_stopped(explorer_services(app_port, app_config_path, backends)[k]),
{
    lemma_merged_services_settings(backends);
}

proof fn lemma_merged_services_settings(backends: Seq<ExplorerBackendComposeConfig>)
    requires
        forall|i: int, k: Seq<char>|
            #[trigger] service_in(backends, i, k)
                ==> runs_on_amd64_unless_stopped(backends[i].docker_compose.services@[k]),
    ensures
        forall|k: Seq<char>|
            #[trigger] merged_services(backends).dom().contains(k)
                ==> runs_on_amd64_unless_stopped(merged_services(backends)[k]),
    decreases backends.len(),
{
    if backends.len() > 0 {
        let init = backends.drop_last();
        let n = backends.len() - 1;
        assert forall|i: int, k: Seq<char>|
            #[trigger] service_in(init, i, k)
            implies runs_on_amd64_unless_stopped(init[i].docker_compose.services@[k]) by {
            assert(init[i] == backends[i]);
            assert(service_in(backends, i, k));
        }
        lemma_merged_services_settings(init);
        assert(backends.last() == backends[n]);
        assert forall|k: Seq<char>|
            #[trigger] merged_services(backends).dom().contains(k)
            implies runs_on_amd64_unless_stopped(merged_services(backends)[k]) by {
            if backends[n].docker_compose.services@.dom().contains(k) {
                assert(service_in(backends, n, k));
            } else {
                assert(merged_services(init).dom().contains(k));
            }
        }
    }
}

/// The ecosystem's explorer document of chains' backends (each as
/// `ExplorerBackendComposeConfig::new` makes it) runs every service, the
/// explorer app included, on `linux/amd64` with the `unless-stopped` restart
/// policy.
pub proof fn law_explorer_services_of_chains_settings(
    app_port: u16,
    app_config_path: Seq<char>,
    backends: Seq<ExplorerBackendComposeConfig>,
    chains: Seq<Seq<char>>,
    configs: Seq<ExplorerBackendServiceConfig>,
    dbs: Seq<ParsedUrlView>,
)
    requires
        backends_of_chains(backends, chains, configs, dbs),
    ensures
        forall|k: Seq<char>|
            #[trigger] explorer_services(app_port, app_config_path, backends).dom().contains(k)
                ==> runs_on_amd64_unless_stopped(explorer_services(app_port, app_config_path, backends)[k]),
{
    assert forall|i: int, k: Seq<char>|
        #[trigger] service_in(backends, i, k)
        implies runs_on_amd64_unless_stopped(backends[i].docker_compose.services@[k]) by {
        law_backend_services_settings(chains[i], configs[i], dbs[i]);
    }
    law_explorer_services_settings(app_port, app_config_path, backends);
}

} // verus!
