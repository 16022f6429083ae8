//! Storage Context Factory: derives the four storage contexts an engine
//! invocation can run under from one base configuration and the engine's own
//! observed default graph root.

use crate::pipeline::ContextKind;
use vstd::prelude::*;
use vstd::string::StringExecFns;

verus! {

/// Static deployment configuration for one invocation: where the engine
/// binary lives, which engine module the run context loads, and the
/// deduplicated store's paths.
#[derive(Debug, Clone, PartialEq, Eq)]
pub struct BaseConfig {
    /// Path to the container engine binary.
    pub podman_path: String,
    /// Engine module name loaded by the run context.
    pub podman_module: String,
    /// Root directory of the deduplicated, read-optimized image store.
    pub parallax_imagestore: String,
    /// Helper program that mounts deduplicated image layers.
    pub parallax_mount_program: String,
    /// Path to the deduplicated store's own tool.
    pub parallax_path: String,
}

/// One storage context: where the engine looks for and writes container and
/// image data for a single operation. An absent field means the engine's own
/// default.
#[derive(Debug, Clone, PartialEq, Eq)]
pub struct StorageContext {
    /// Path to the engine binary; always set.
    pub engine_path: String,
    /// Engine extension module altering storage behavior.
    pub module: Option<String>,
    /// Root directory for persistent image and layer storage.
    pub graphroot: Option<String>,
    /// Root directory for ephemeral runtime state.
    pub runroot: Option<String>,
    /// External helper program used to mount deduplicated layers.
    pub mount_program: Option<String>,
    /// Additional read-only, lower-priority image store.
    pub ro_store: Option<String>,
}

/// The four contexts derived per invocation, each with a distinct intended
/// use; they are never interchanged.
#[derive(Debug, Clone, PartialEq, Eq)]
pub struct ContextSet {
    /// Engine-native state, used for initial image pulls.
    pub engine_default: StorageContext,
    /// Reads the engine's native graph while writing into the deduplicated
    /// store; used for migration.
    pub migrate: StorageContext,
    /// Points straight at the deduplicated store; used to probe or list the
    /// images already present there.
    pub read_only: StorageContext,
    /// Ephemeral roots plus the mount helper; used for container execution.
    pub run: StorageContext,
}

/// Fixed ephemeral graph root reserved for the run context.
pub open spec fn spec_run_graphroot() -> Seq<char> {
    "/dev/shm/sarusctl-run/graphroot"@
}

/// Fixed ephemeral run root reserved for the run context.
pub open spec fn spec_run_runroot() -> Seq<char> {
    "/dev/shm/sarusctl-run/runroot"@
}

/// The `default` derivation: the engine path alone, no overrides.
pub open spec fn is_default_context(c: StorageContext, config: BaseConfig) -> bool {
    &&& c.engine_path@ == config.podman_path@
    &&& c.module is None
    &&& c.graphroot is None
    &&& c.runroot is None
    &&& c.mount_program is None
    &&& c.ro_store is None
}

/// The `migrate` derivation: the engine's observed default graph root for
/// reading, with the deduplicated store layered beneath as a read-only store,
/// so a migration can read native layers while its result stays visible.
pub open spec fn is_migrate_context(
    c: StorageContext,
    config: BaseConfig,
    engine_graphroot: Seq<char>,
) -> bool {
    &&& c.engine_path@ == config.podman_path@
    &&& c.module is None
    &&& c.graphroot matches Some(g) && g@ == engine_graphroot
    &&& c.runroot is None
    &&& c.mount_program is None
    &&& c.ro_store matches Some(s) && s@ == config.parallax_imagestore@
}

/// The `readOnly` derivation: the deduplicated store as the graph root
/// itself, nothing else, used purely for probing.
pub open spec fn is_read_only_context(c: StorageContext, config: BaseConfig) -> bool {
    &&& c.engine_path@ == config.podman_path@
    &&& c.module is None
    &&& c.graphroot matches Some(g) && g@ == config.parallax_imagestore@
    &&& c.runroot is None
    &&& c.mount_program is None
    &&& c.ro_store is None
}

/// The `run` derivation: configured module, fixed ephemeral shared-memory
/// roots, the deduplication-aware mount helper, and the deduplicated store as
/// a read-only store.
pub open spec fn is_run_context(c: StorageContext, config: BaseConfig) -> bool {
    &&& c.engine_path@ == config.podman_path@
    &&& c.module matches Some(m) && m@ == config.podman_module@
    &&& c.graphroot matches Some(g) && g@ == spec_run_graphroot()
    &&& c.runroot matches Some(r) && r@ == spec_run_runroot()
    &&& c.mount_program matches Some(p) && p@ == config.parallax_mount_program@
    &&& c.ro_store matches Some(s) && s@ == config.parallax_imagestore@
}

/// All four contexts together, each derived by its own rule.
pub open spec fn is_context_set(
    cs: ContextSet,
    config: BaseConfig,
    engine_graphroot: Seq<char>,
) -> bool {
    &&& is_default_context(cs.engine_default, config)
    &&& is_migrate_context(cs.migrate, config, engine_graphroot)
    &&& is_read_only_context(cs.read_only, config)
    &&& is_run_context(cs.run, config)
}

/// Derive the four storage contexts from the base configuration and the
/// engine's observed default graph root.
pub fn generate_contexts(config: &BaseConfig, engine_graphroot: &String) -> (cs: ContextSet)
    ensures
        is_context_set(cs, *config, engine_graphroot@),
{
    let engine_default = StorageContext {
        engine_path: config.podman_path.clone(),
        module: None,
        graphroot: None,
        runroot: None,
        mount_program: None,
        ro_store: None,
    };
    let migrate = StorageContext {
        engine_path: config.podman_path.clone(),
        module: None,
        graphroot: Some(engine_graphroot.clone()),
        runroot: None,
        mount_program: None,
        ro_store: Some(config.parallax_imagestore.clone()),
    };
    let read_only = StorageContext {
        engine_path: config.podman_path.clone(),
        module: None,
        graphroot: Some(config.parallax_imagestore.clone()),
        runroot: None,
        mount_program: None,
        ro_store: None,
    };
    let run = StorageContext {
        engine_path: config.podman_path.clone(),
        module: Some(config.podman_module.clone()),
        graphroot: Some(String::from_str("/dev/shm/sarusctl-run/graphroot")),
        runroot: Some(String::from_str("/dev/shm/sarusctl-run/runroot")),
        mount_program: Some(config.parallax_mount_program.clone()),
        ro_store: Some(config.parallax_imagestore.clone()),
    };
    ContextSet { engine_default, migrate, read_only, run }
}

/// The context a pipeline action runs under, picked from the derived set.
pub fn context_for<'a>(cs: &'a ContextSet, kind: &ContextKind) -> (c: &'a StorageContext)
    ensures
        kind is EngineDefault ==> c == &cs.engine_default,
        kind is Migrate ==> c == &cs.migrate,
        kind is ReadOnly ==> c == &cs.read_only,
        kind is Run ==> c == &cs.run,
{
    match kind {
        ContextKind::EngineDefault => &cs.engine_default,
        ContextKind::Migrate => &cs.migrate,
        ContextKind::ReadOnly => &cs.read_only,
        ContextKind::Run => &cs.run,
    }
}

/// What one store-maintenance operation (list, migrate, remove) hands to the
/// drivers: the migrate-derived context, the store tool's path, and the image
/// it concerns.
#[derive(Debug, Clone, PartialEq, Eq)]
pub struct MaintenancePlan {
    /// The context the operation runs under.
    pub context: StorageContext,
    /// Path to the deduplicated store's tool.
    pub store_path: String,
    /// The image reference the operation concerns.
    pub image: String,
}

/// Plan a store-maintenance operation: it runs under the migrate-derived
/// context — the engine's own graph root for reading, the deduplicated store
/// layered read-only — and addresses the store through the configured store
/// tool path.
pub fn maintenance_plan(config: &BaseConfig, engine_graphroot: &String, image: &String) -> (p:
    MaintenancePlan)
    ensures
        is_migrate_context(p.context, *config, engine_graphroot@),
        p.store_path@ == config.parallax_path@,
        p.image@ == image@,
{
    let context = StorageContext {
        engine_path: config.podman_path.clone(),
        module: None,
        graphroot: Some(engine_graphroot.clone()),
        runroot: None,
        mount_program: None,
        ro_store: Some(config.parallax_imagestore.clone()),
    };
    MaintenancePlan { context, store_path: config.parallax_path.clone(), image: image.clone() }
}

/// Store-maintenance law: migrate and rmi run under the migrate-derived
/// context alone. That context carries the deduplicated store only as a
/// read-only lower store, and it is neither the default context (whose graph
/// root stays engine-native) nor the run context (whose module, mount program
/// and ephemeral roots it lacks): the default and run contexts stay
/// untouched by store maintenance.
pub proof fn lemma_maintenance_spares_default_and_run(
    m: StorageContext,
    cs: ContextSet,
    config: BaseConfig,
    engine_graphroot: Seq<char>,
)
    requires
        is_migrate_context(m, config, engine_graphroot),
        is_context_set(cs, config, engine_graphroot),
    ensures
        m.ro_store matches Some(s) && s@ == config.parallax_imagestore@,
        m.module is None,
        m.mount_program is None,
        m.runroot is None,
        m != cs.run,
        m != cs.engine_default,
{
    if m == cs.run {
        assert(m.module == cs.run.module);
    }
    if m == cs.engine_default {
        assert(m.ro_store == cs.engine_default.ro_store);
    }
}

/// For every base configuration the derived contexts keep their roots apart:
/// the run context's graph root differs from its run root, both differ from
/// the default context's graph root (which is absent, meaning engine-native),
/// the migrate context layers the deduplicated store read-only over the
/// engine's own graph root, and the read-only context points its graph root
/// directly at the deduplicated store.
pub proof fn lemma_contexts_distinct(
    cs: ContextSet,
    config: BaseConfig,
    engine_graphroot: Seq<char>,
)
    requires
        is_context_set(cs, config, engine_graphroot),
    ensures
        cs.run.graphroot matches Some(g) && cs.run.runroot matches Some(r) && g@ != r@,
        cs.engine_default.graphroot is None,
        cs.run.graphroot != cs.engine_default.graphroot,
        cs.run.runroot != cs.engine_default.graphroot,
        cs.migrate.graphroot matches Some(g) && g@ == engine_graphroot,
        cs.migrate.ro_store matches Some(s) && s@ == config.parallax_imagestore@,
        cs.read_only.graphroot matches Some(g) && g@ == config.parallax_imagestore@,
        cs.read_only.ro_store is None,
{
    reveal_strlit("/dev/shm/sarusctl-run/graphroot");
    reveal_strlit("/dev/shm/sarusctl-run/runroot");
    assert(spec_run_graphroot().len() != spec_run_runroot().len());
}

} // verus!
