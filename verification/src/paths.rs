//! File locations of the config files, relative to an ecosystem directory.
//!
//! Paths are held as strings. Joining follows `std::path::Path::join` on Unix:
//! an absolute part replaces the base, otherwise a `/` is put between the two
//! unless the base is empty or already ends with one.

use vstd::prelude::*;
use vstd::string::*;
use crate::text::chars_of;

verus! {

/// Directory of the chains of an ecosystem.
pub const LOCAL_CHAINS_PATH: &'static str = "chains/";
/// Directory of the config files of an ecosystem or of a chain.
pub const LOCAL_CONFIGS_PATH: &'static str = "configs/";
/// Directory of the app configs of a chain.
pub const LOCAL_APPS_PATH: &'static str = "apps/";
/// Directory of generated files.
pub const LOCAL_GENERATED_PATH: &'static str = ".generated/";
/// Name of the apps config file.
pub const APPS_CONFIG_FILE: &'static str = "apps.yaml";
/// Name of the explorer runtime config script (generated).
pub const EXPLORER_RUNTIME_CONFIG_FILE: &'static str = "explorer.config.js";
/// Name of the explorer config of a chain.
pub const EXPLORER_CHAIN_CONFIG_FILE: &'static str = "explorer.config.json";
/// Name of the explorer docker-compose file (generated).
pub const EXPLORER_DOCKER_COMPOSE_FILE: &'static str = "explorer-docker-compose.yml";
/// Name of the explorer backend docker-compose file of a chain.
pub const EXPLORER_BACKEND_DOCKER_COMPOSE_FILE: &'static str = "explorer-backend-docker-compose.yml";

/// `part` is an absolute path.
pub open spec fn is_absolute(part: Seq<char>) -> bool {
    part.len() > 0 && part[0] == '/'
}

/// `base` joined with `part`.
pub open spec fn join_path(base: Seq<char>, part: Seq<char>) -> Seq<char> {
    if is_absolute(part) {
        part
    } else if base.len() == 0 || base.last() == '/' {
        base + part
    } else {
        base + seq!['/'] + part
    }
}

/// Joins `part` onto `base`, as `Path::new(base).join(part)` does on Unix.
pub fn join(base: &str, part: &str) -> (r: String)
    ensures
        r@ == join_path(base@, part@),
{
    let b = chars_of(base);
    let p = chars_of(part);
    if p.len() > 0 && p[0] == '/' {
        part.to_owned()
    } else if b.len() == 0 || b[b.len() - 1] == '/' {
        base.to_owned().concat(part)
    } else {
        proof {
            reveal_strlit("/");
        }
        base.to_owned().concat("/").concat(part)
    }
}

/// Joining onto a base keeps the base as a prefix, unless the part is absolute.
pub proof fn lemma_join_keeps_base(base: Seq<char>, part: Seq<char>)
    requires
        !is_absolute(part),
    ensures
        base.is_prefix_of(join_path(base, part)),
{
    let r = join_path(base, part);
    assert(r.subrange(0, base.len() as int) =~= base);
}

/// `<base>/configs/`: the config directory of an ecosystem.
pub open spec fn ecosystem_configs_dir(base: Seq<char>) -> Seq<char> {
    join_path(base, LOCAL_CONFIGS_PATH@)
}

/// `<base>/configs/.generated/`: generated files of an ecosystem.
pub open spec fn ecosystem_generated_dir(base: Seq<char>) -> Seq<char> {
    join_path(ecosystem_configs_dir(base), LOCAL_GENERATED_PATH@)
}

/// `<base>/chains/<chain>`: the directory of a chain.
pub open spec fn chain_dir(base: Seq<char>, chain_name: Seq<char>) -> Seq<char> {
    join_path(join_path(base, LOCAL_CHAINS_PATH@), chain_name)
}

/// `<base>/chains/<chain>/configs/`: the config directory of a chain.
pub open spec fn chain_configs_dir(base: Seq<char>, chain_name: Seq<char>) -> Seq<char> {
    join_path(chain_dir(base, chain_name), LOCAL_CONFIGS_PATH@)
}

/// `<base>/chains/<chain>/configs/apps/`: the app configs of a chain.
pub open spec fn chain_apps_dir(base: Seq<char>, chain_name: Seq<char>) -> Seq<char> {
    join_path(chain_configs_dir(base, chain_name), LOCAL_APPS_PATH@)
}

/// Joining a relative part onto a path that starts with `base` keeps `base`
/// at the start.
proof fn lemma_join_keeps_prefix(base: Seq<char>, dir: Seq<char>, part: Seq<char>)
    requires
        base.is_prefix_of(dir),
        !is_absolute(part),
    ensures
        base.is_prefix_of(join_path(dir, part)),
{
    lemma_join_keeps_base(dir, part);
    let r = join_path(dir, part);
    assert forall|i: int| 0 <= i < base.len() implies base[i] == r[i] by {
        assert(base[i] == dir[i]);
        assert(dir[i] == r[i]);
    }
}

/// The directories of an ecosystem, and those of a chain whose name is not an
/// absolute path, lie under the ecosystem's base path; so does every file
/// placed in them under a relative name.
pub proof fn lemma_dirs_under_base(base: Seq<char>, chain_name: Seq<char>, file: Seq<char>)
    requires
        !is_absolute(chain_name),
        !is_absolute(file),
    ensures
        base.is_prefix_of(ecosystem_configs_dir(base)),
        base.is_prefix_of(ecosystem_generated_dir(base)),
        base.is_prefix_of(chain_dir(base, chain_name)),
        base.is_prefix_of(chain_configs_dir(base, chain_name)),
        base.is_prefix_of(chain_apps_dir(base, chain_name)),
        base.is_prefix_of(join_path(ecosystem_configs_dir(base), file)),
        base.is_prefix_of(join_path(ecosystem_generated_dir(base), file)),
        base.is_prefix_of(join_path(chain_configs_dir(base, chain_name), file)),
        base.is_prefix_of(join_path(chain_apps_dir(base, chain_name), file)),
{
    reveal_strlit("configs/");
    reveal_strlit("chains/");
    reveal_strlit(".generated/");
    reveal_strlit("apps/");
    assert(base.is_prefix_of(base));
    lemma_join_keeps_prefix(base, base, LOCAL_CONFIGS_PATH@);
    lemma_join_keeps_prefix(base, ecosystem_configs_dir(base), LOCAL_GENERATED_PATH@);
    lemma_join_keeps_prefix(base, base, LOCAL_CHAINS_PATH@);
    lemma_join_keeps_prefix(base, join_path(base, LOCAL_CHAINS_PATH@), chain_name);
    lemma_join_keeps_prefix(base, chain_dir(base, chain_name), LOCAL_CONFIGS_PATH@);
    lemma_join_keeps_prefix(base, chain_configs_dir(base, chain_name), LOCAL_APPS_PATH@);
    lemma_join_keeps_prefix(base, ecosystem_configs_dir(base), file);
    lemma_join_keeps_prefix(base, ecosystem_generated_dir(base), file);
    lemma_join_keeps_prefix(base, chain_configs_dir(base, chain_name), file);
    lemma_join_keeps_prefix(base, chain_apps_dir(base, chain_name), file);
}

/// Every config file that the library places lies under the ecosystem's base
/// path: the ecosystem's files always, a chain's files whenever the chain's
/// name is not an absolute path.
pub proof fn lemma_config_files_under_base(base: Seq<char>, chain_name: Seq<char>)
    requires
        !is_absolute(chain_name),
    ensures
        base.is_prefix_of(join_path(ecosystem_configs_dir(base), APPS_CONFIG_FILE@)),
        base.is_prefix_of(join_path(ecosystem_generated_dir(base), EXPLORER_RUNTIME_CONFIG_FILE@)),
        base.is_prefix_of(join_path(ecosystem_generated_dir(base), EXPLORER_DOCKER_COMPOSE_FILE@)),
        base.is_prefix_of(join_path(chain_configs_dir(base, chain_name), APPS_CONFIG_FILE@)),
        base.is_prefix_of(join_path(chain_apps_dir(base, chain_name), EXPLORER_CHAIN_CONFIG_FILE@)),
        base.is_prefix_of(
            join_path(chain_apps_dir(base, chain_name), EXPLORER_BACKEND_DOCKER_COMPOSE_FILE@),
        ),
{
    reveal_strlit("apps.yaml");
    reveal_strlit("explorer.config.js");
    reveal_strlit("explorer-docker-compose.yml");
    reveal_strlit("explorer.config.json");
    reveal_strlit("explorer-backend-docker-compose.yml");
    lemma_dirs_under_base(base, chain_name, APPS_CONFIG_FILE@);
    lemma_dirs_under_base(base, chain_name, EXPLORER_RUNTIME_CONFIG_FILE@);
    lemma_dirs_under_base(base, chain_name, EXPLORER_DOCKER_COMPOSE_FILE@);
    lemma_dirs_under_base(base, chain_name, EXPLORER_CHAIN_CONFIG_FILE@);
    lemma_dirs_under_base(base, chain_name, EXPLORER_BACKEND_DOCKER_COMPOSE_FILE@);
}

/// `name` is a single path component: non-empty and without `/`.
pub open spec fn is_single_component(name: Seq<char>) -> bool {
    name.len() > 0 && forall|i: int| 0 <= i < name.len() ==> name[i] != '/'
}

/// `path` is the file `name` directly inside the directory `dir`, written
/// with its trailing `/`.
pub open spec fn file_in_dir(path: Seq<char>, dir: Seq<char>, name: Seq<char>) -> bool {
    &&& dir.len() > 0
    &&& dir.last() == '/'
    &&& is_single_component(name)
    &&& path == dir + name
}

/// A path has at most one directory that it lies directly in: everything up
/// to its last `/`.
pub proof fn lemma_file_in_dir_unique(
    path: Seq<char>,
    d1: Seq<char>,
    n1: Seq<char>,
    d2: Seq<char>,
    n2: Seq<char>,
)
    requires
        file_in_dir(path, d1, n1),
        file_in_dir(path, d2, n2),
    ensures
        d1 == d2,
        n1 == n2,
{
    if d1.len() < d2.len() {
        let k = d2.len() - 1;
        assert(path.len() == d2.len() + n2.len());
        assert(path[k] == (d2 + n2)[k]);
        assert(path[k] == (d1 + n1)[k]);
        assert((d1 + n1)[k] == n1[k - d1.len()]);
        assert(n1[k - d1.len()] != '/');
    } else if d2.len() < d1.len() {
        let k = d1.len() - 1;
        assert(path.len() == d1.len() + n1.len());
        assert(path[k] == (d1 + n1)[k]);
        assert(path[k] == (d2 + n2)[k]);
        assert((d2 + n2)[k] == n2[k - d2.len()]);
        assert(n2[k - d2.len()] != '/');
    }
    assert(d1 =~= path.subrange(0, d1.len() as int));
    assert(d2 =~= path.subrange(0, d2.len() as int));
    assert(n1 =~= path.subrange(d1.len() as int, path.len() as int));
    assert(n2 =~= path.subrange(d2.len() as int, path.len() as int));
}

proof fn lemma_join_dir(base: Seq<char>, dir: Seq<char>)
    requires
        dir.len() > 0,
        dir.last() == '/',
        !is_absolute(dir),
    ensures
        join_path(base, dir).len() > 0,
        join_path(base, dir).last() == '/',
{
}

proof fn lemma_join_file(dir: Seq<char>, name: Seq<char>)
    requires
        dir.len() > 0,
        dir.last() == '/',
        is_single_component(name),
    ensures
        file_in_dir(join_path(dir, name), dir, name),
{
}

/// The two generated files of an ecosystem, the explorer runtime config script
/// and the explorer docker-compose file, lie directly in the one directory
/// `<base>/configs/.generated/`.
pub proof fn lemma_generated_files_share_dir(base: Seq<char>)
    ensures
        file_in_dir(
            join_path(ecosystem_generated_dir(base), EXPLORER_RUNTIME_CONFIG_FILE@),
            ecosystem_generated_dir(base),
            EXPLORER_RUNTIME_CONFIG_FILE@,
        ),
        file_in_dir(
            join_path(ecosystem_generated_dir(base), EXPLORER_DOCKER_COMPOSE_FILE@),
            ecosystem_generated_dir(base),
            EXPLORER_DOCKER_COMPOSE_FILE@,
        ),
{
    reveal_strlit("configs/");
    reveal_strlit(".generated/");
    reveal_strlit("explorer.config.js");
    reveal_strlit("explorer-docker-compose.yml");
    lemma_join_dir(base, LOCAL_CONFIGS_PATH@);
    lemma_join_dir(ecosystem_configs_dir(base), LOCAL_GENERATED_PATH@);
    lemma_join_file(ecosystem_generated_dir(base), EXPLORER_RUNTIME_CONFIG_FILE@);
    lemma_join_file(ecosystem_generated_dir(base), EXPLORER_DOCKER_COMPOSE_FILE@);
}

/// A chain's explorer config and its explorer backend docker-compose file lie
/// directly in the one directory `<base>/chains/<chain>/configs/apps/`.
pub proof fn lemma_chain_app_files_share_dir(base: Seq<char>, chain_name: Seq<char>)
    ensures
        file_in_dir(
            join_path(chain_apps_dir(base, chain_name), EXPLORER_CHAIN_CONFIG_FILE@),
            chain_apps_dir(base, chain_name),
            EXPLORER_CHAIN_CONFIG_FILE@,
        ),
        file_in_dir(
            join_path(chain_apps_dir(base, chain_name), EXPLORER_BACKEND_DOCKER_COMPOSE_FILE@),
            chain_apps_dir(base, chain_name),
            EXPLORER_BACKEND_DOCKER_COMPOSE_FILE@,
        ),
{
    reveal_strlit("configs/");
    reveal_strlit("apps/");
    reveal_strlit("explorer.config.json");
    reveal_strlit("explorer-backend-docker-compose.yml");
    lemma_join_dir(chain_dir(base, chain_name), LOCAL_CONFIGS_PATH@);
    lemma_join_dir(chain_configs_dir(base, chain_name), LOCAL_APPS_PATH@);
    lemma_join_file(chain_apps_dir(base, chain_name), EXPLORER_CHAIN_CONFIG_FILE@);
    lemma_join_file(chain_apps_dir(base, chain_name), EXPLORER_BACKEND_DOCKER_COMPOSE_FILE@);
}

} // verus!
