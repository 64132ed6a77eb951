use hymo_minimal::{plan_overlay, MergeRule, ModuleInfo};

fn module(name: &str) -> ModuleInfo {
    ModuleInfo {
        name: name.to_owned(),
        is_dir: true,
        has_disable: false,
        has_remove: false,
        has_skip_mount: false,
        has_system: false,
        has_vendor: false,
        has_product: false,
        has_system_ext: false,
        has_odm: false,
        has_oem: false,
    }
}

fn with_system(name: &str) -> ModuleInfo {
    ModuleInfo {
        has_system: true,
        ..module(name)
    }
}

fn pairs(rules: &[MergeRule]) -> Vec<(String, String)> {
    rules
        .iter()
        .map(|r| (r.source.clone(), r.target.clone()))
        .collect()
}

#[test]
fn modules_are_planned_in_descending_name_order() {
    let mods = vec![
        with_system("b-mod"),
        with_system("a-mod"),
        with_system("z-mod"),
    ];
    let rules = plan_overlay("/data/adb/modules", mods);
    assert_eq!(
        pairs(&rules),
        vec![
            (
                "/data/adb/modules/z-mod/system".to_owned(),
                "/system".to_owned()
            ),
            (
                "/data/adb/modules/b-mod/system".to_owned(),
                "/system".to_owned()
            ),
            (
                "/data/adb/modules/a-mod/system".to_owned(),
                "/system".to_owned()
            ),
        ]
    );
}

#[test]
fn planning_is_deterministic() {
    let make = || {
        vec![
            with_system("beta"),
            with_system("alpha"),
            with_system("gamma"),
        ]
    };
    let first = pairs(&plan_overlay("/root", make()));
    let second = pairs(&plan_overlay("/root", make()));
    assert_eq!(first, second);
}

#[test]
fn disabled_module_contributes_zero_rules() {
    let mut disabled = with_system("disabled-mod");
    disabled.has_disable = true;
    disabled.has_vendor = true;
    let mods = vec![with_system("kept"), disabled];
    let rules = plan_overlay("/r", mods);
    assert_eq!(
        pairs(&rules),
        vec![("/r/kept/system".to_owned(), "/system".to_owned())]
    );
}

#[test]
fn remove_and_skip_mount_markers_also_disable() {
    let mut removed = with_system("removed");
    removed.has_remove = true;
    let mut skipped = with_system("skipped");
    skipped.has_skip_mount = true;
    let rules = plan_overlay("/r", vec![removed, skipped]);
    assert!(rules.is_empty());
}

#[test]
fn reserved_names_and_non_directories_are_discarded() {
    let mut file_entry = with_system("somefile");
    file_entry.is_dir = false;
    let mods = vec![
        with_system("hymo"),
        with_system("lost+found"),
        with_system(".git"),
        file_entry,
    ];
    let rules = plan_overlay("/r", mods);
    assert!(rules.is_empty());
}

#[test]
fn partitions_are_emitted_in_the_fixed_order() {
    let mut m = module("all");
    m.has_system = true;
    m.has_vendor = true;
    m.has_product = true;
    m.has_system_ext = true;
    m.has_odm = true;
    m.has_oem = true;
    let rules = plan_overlay("/r", vec![m]);
    assert_eq!(
        pairs(&rules),
        vec![
            ("/r/all/system".to_owned(), "/system".to_owned()),
            ("/r/all/vendor".to_owned(), "/vendor".to_owned()),
            ("/r/all/product".to_owned(), "/product".to_owned()),
            ("/r/all/system_ext".to_owned(), "/system_ext".to_owned()),
            ("/r/all/odm".to_owned(), "/odm".to_owned()),
            ("/r/all/oem".to_owned(), "/oem".to_owned()),
        ]
    );
}

#[test]
fn unpopulated_partitions_are_skipped() {
    let mut m = module("partial");
    m.has_vendor = true;
    m.has_odm = true;
    let rules = plan_overlay("/r", vec![m]);
    assert_eq!(
        pairs(&rules),
        vec![
            ("/r/partial/vendor".to_owned(), "/vendor".to_owned()),
            ("/r/partial/odm".to_owned(), "/odm".to_owned()),
        ]
    );
}

#[test]
fn empty_snapshot_plans_nothing() {
    let rules = plan_overlay("/r", Vec::new());
    assert!(rules.is_empty());
}

#[test]
fn equal_names_keep_their_arrival_order() {
    let mut first = with_system("same");
    first.has_vendor = true;
    let second = with_system("same");
    let rules = plan_overlay("/r", vec![first, second]);
    // The stable sort keeps the first-seen module first: its two rules
    // come before the second module's single rule.
    assert_eq!(
        pairs(&rules),
        vec![
            ("/r/same/system".to_owned(), "/system".to_owned()),
            ("/r/same/vendor".to_owned(), "/vendor".to_owned()),
            ("/r/same/system".to_owned(), "/system".to_owned()),
        ]
    );
}
