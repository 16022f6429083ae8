use sarusctl::context::{
    context_for, generate_contexts, maintenance_plan, BaseConfig, StorageContext,
};
use sarusctl::pipeline::ContextKind;

fn sample_config() -> BaseConfig {
    BaseConfig {
        podman_path: String::from("/usr/bin/podman"),
        podman_module: String::from("parallax"),
        parallax_imagestore: String::from("/scratch/parallax/store"),
        parallax_mount_program: String::from("/usr/libexec/parallax-mount"),
        parallax_path: String::from("/usr/bin/parallax"),
    }
}

fn none_ctx_fields(c: &StorageContext) -> (bool, bool, bool, bool) {
    (
        c.module.is_none(),
        c.runroot.is_none(),
        c.mount_program.is_none(),
        c.ro_store.is_none(),
    )
}

#[test]
fn default_context_has_no_overrides() {
    let cs = generate_contexts(&sample_config(), &String::from("/var/lib/containers/storage"));
    assert_eq!(cs.engine_default.engine_path, "/usr/bin/podman");
    assert!(cs.engine_default.module.is_none());
    assert!(cs.engine_default.graphroot.is_none());
    assert!(cs.engine_default.runroot.is_none());
    assert!(cs.engine_default.mount_program.is_none());
    assert!(cs.engine_default.ro_store.is_none());
}

#[test]
fn migrate_context_layers_store_over_engine_root() {
    let cs = generate_contexts(&sample_config(), &String::from("/var/lib/containers/storage"));
    assert_eq!(cs.migrate.engine_path, "/usr/bin/podman");
    assert!(cs.migrate.module.is_none());
    assert_eq!(
        cs.migrate.graphroot.as_deref(),
        Some("/var/lib/containers/storage")
    );
    assert!(cs.migrate.runroot.is_none());
    assert!(cs.migrate.mount_program.is_none());
    assert_eq!(cs.migrate.ro_store.as_deref(), Some("/scratch/parallax/store"));
}

#[test]
fn read_only_context_points_at_store() {
    let cs = generate_contexts(&sample_config(), &String::from("/var/lib/containers/storage"));
    assert_eq!(cs.read_only.engine_path, "/usr/bin/podman");
    assert_eq!(
        cs.read_only.graphroot.as_deref(),
        Some("/scratch/parallax/store")
    );
    assert_eq!(none_ctx_fields(&cs.read_only), (true, true, true, true));
}

#[test]
fn run_context_uses_ephemeral_roots_and_helper() {
    let cs = generate_contexts(&sample_config(), &String::from("/var/lib/containers/storage"));
    assert_eq!(cs.run.engine_path, "/usr/bin/podman");
    assert_eq!(cs.run.module.as_deref(), Some("parallax"));
    assert_eq!(
        cs.run.graphroot.as_deref(),
        Some("/dev/shm/sarusctl-run/graphroot")
    );
    assert_eq!(cs.run.runroot.as_deref(), Some("/dev/shm/sarusctl-run/runroot"));
    assert_eq!(
        cs.run.mount_program.as_deref(),
        Some("/usr/libexec/parallax-mount")
    );
    assert_eq!(cs.run.ro_store.as_deref(), Some("/scratch/parallax/store"));
}

#[test]
fn run_roots_are_distinct() {
    let cs = generate_contexts(&sample_config(), &String::from("/var/lib/containers/storage"));
    assert_ne!(cs.run.graphroot, cs.run.runroot);
    assert_ne!(cs.run.graphroot, cs.engine_default.graphroot);
    assert_ne!(cs.run.runroot, cs.engine_default.graphroot);
}

#[test]
fn maintenance_plan_targets_store_only() {
    let config = sample_config();
    let groot = String::from("/var/lib/containers/storage");
    let image = String::from("docker.io/library/alpine:latest");
    let cs = generate_contexts(&config, &groot);
    let plan = maintenance_plan(&config, &groot, &image);
    assert_eq!(plan.context, cs.migrate);
    assert_ne!(plan.context, cs.run);
    assert_ne!(plan.context, cs.engine_default);
    assert!(plan.context.module.is_none());
    assert!(plan.context.mount_program.is_none());
    assert!(plan.context.runroot.is_none());
    assert_eq!(plan.context.ro_store.as_deref(), Some("/scratch/parallax/store"));
    assert_eq!(plan.store_path, "/usr/bin/parallax");
    assert_eq!(plan.image, "docker.io/library/alpine:latest");
}

#[test]
fn context_for_picks_the_matching_context() {
    let cs = generate_contexts(&sample_config(), &String::from("/var/lib/containers/storage"));
    assert_eq!(
        context_for(&cs, &ContextKind::EngineDefault),
        &cs.engine_default
    );
    assert_eq!(context_for(&cs, &ContextKind::Migrate), &cs.migrate);
    assert_eq!(context_for(&cs, &ContextKind::ReadOnly), &cs.read_only);
    assert_eq!(context_for(&cs, &ContextKind::Run), &cs.run);
}
