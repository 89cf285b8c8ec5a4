use gsoc2_cli::commands::{run_command, DispatchError};
use gsoc2_cli::registry::{
    is_naggable, kebab_case, same_text, standard_descriptors, subcommands, CommandDescriptor,
    CommandRegistry, DuplicateRegistration,
};

fn descriptor(name: &str, naggable: bool) -> CommandDescriptor {
    CommandDescriptor { name: name.to_string(), naggable }
}

#[test]
fn kebab_case_replaces_every_underscore() {
    assert_eq!(kebab_case("bash_hook"), "bash-hook");
    assert_eq!(kebab_case("a_b_c"), "a-b-c");
    assert_eq!(kebab_case("__"), "--");
    assert_eq!(kebab_case("info"), "info");
    assert_eq!(kebab_case(""), "");
}

#[test]
fn same_text_compares_contents() {
    assert!(same_text("abc", "abc"));
    assert!(!same_text("abc", "abd"));
    assert!(!same_text("abc", "ab"));
    assert!(same_text("", ""));
}

#[test]
fn subcommands_are_listed_in_order() {
    let all = subcommands(false);
    assert_eq!(all.len(), 22);
    assert_eq!(all[0], "bash_hook");
    assert_eq!(all[16], "sourcemaps");
    assert_eq!(all[17], "uninstall");
    assert_eq!(all[18], "update");
    assert_eq!(all[19], "upload_dif");
    assert_eq!(all[21], "upload_proguard");
}

#[test]
fn managed_installation_has_no_uninstall_and_no_update() {
    let managed = subcommands(true);
    assert_eq!(managed.len(), 20);
    assert!(!managed.contains(&"uninstall"));
    assert!(!managed.contains(&"update"));
    assert_eq!(managed[17], "upload_dif");
}

#[test]
fn naggable_commands_are_the_listed_ones() {
    for name in [
        "debug-files",
        "deploys",
        "events",
        "files",
        "info",
        "issues",
        "login",
        "organizations",
        "projects",
        "releases",
        "repos",
        "sourcemaps",
    ] {
        assert!(is_naggable(name), "{}", name);
    }
    for name in [
        "bash-hook",
        "monitors",
        "react-native",
        "send-event",
        "send-envelope",
        "uninstall",
        "update",
        "upload-dif",
        "upload-dsym",
        "upload-proguard",
        "completions",
        "debug_files",
        "",
    ] {
        assert!(!is_naggable(name), "{}", name);
    }
}

#[test]
fn descriptor_is_derived_from_the_identifier() {
    assert_eq!(CommandDescriptor::new("debug_files"), descriptor("debug-files", true));
    assert_eq!(CommandDescriptor::new("bash_hook"), descriptor("bash-hook", false));
    assert_eq!(CommandDescriptor::new("send_event"), descriptor("send-event", false));
}

#[test]
fn standard_descriptors_follow_the_identifiers() {
    let descriptors = standard_descriptors(false);
    assert_eq!(descriptors.len(), 22);
    assert_eq!(descriptors[0], descriptor("bash-hook", false));
    assert_eq!(descriptors[1], descriptor("debug-files", true));
    assert_eq!(descriptors[11], descriptor("react-native", false));
    assert_eq!(descriptors[21], descriptor("upload-proguard", false));
    assert_eq!(descriptors.iter().filter(|d| d.naggable).count(), 12);
}

#[test]
fn standard_descriptors_have_distinct_names() {
    assert!(CommandRegistry::new(standard_descriptors(false)).is_ok());
    assert!(CommandRegistry::new(standard_descriptors(true)).is_ok());
}

#[test]
fn duplicate_name_is_refused() {
    let made = CommandRegistry::new(vec![
        descriptor("a", false),
        descriptor("b", false),
        descriptor("a", true),
    ]);
    match made {
        Err(duplicate) => assert_eq!(duplicate, DuplicateRegistration { name: "a".to_string() }),
        Ok(_) => panic!("duplicate accepted"),
    }
}

#[test]
fn empty_registry_is_made() {
    let registry = CommandRegistry::new(vec![]).unwrap();
    assert_eq!(registry.len(), 0);
    assert_eq!(registry.find("info"), None);
}

#[test]
fn find_gives_the_position_of_the_name() {
    let registry = CommandRegistry::new(standard_descriptors(false)).unwrap();
    assert_eq!(registry.len(), 22);
    assert_eq!(registry.find("bash-hook"), Some(0));
    assert_eq!(registry.find("info"), Some(5));
    assert_eq!(registry.find("upload-proguard"), Some(21));
    assert_eq!(registry.find("bash_hook"), None);
    assert_eq!(registry.find("completions"), None);
    assert_eq!(registry.get(5), &descriptor("info", true));
}

#[test]
fn run_command_routes_to_the_one_descriptor() {
    let registry = CommandRegistry::new(standard_descriptors(false)).unwrap();
    assert_eq!(run_command(&registry, &Some("deploys".to_string())), Ok(2));
    assert_eq!(run_command(&registry, &Some("uninstall".to_string())), Ok(17));
}

#[test]
fn run_command_fails_without_a_registered_name() {
    let registry = CommandRegistry::new(standard_descriptors(true)).unwrap();
    assert_eq!(run_command(&registry, &None), Err(DispatchError::NoSubcommand));
    assert_eq!(
        run_command(&registry, &Some("uninstall".to_string())),
        Err(DispatchError::Unregistered("uninstall".to_string()))
    );
    assert_eq!(DispatchError::NoSubcommand.message(), "No subcommand given");
    assert_eq!(
        DispatchError::Unregistered("nope".to_string()).message(),
        "Unknown subcommand: nope"
    );
}

#[test]
fn standard_registry_holds_every_subcommand() {
    let registry = CommandRegistry::standard(false);
    assert_eq!(registry.len(), 22);
    for (index, expected) in standard_descriptors(false).iter().enumerate() {
        assert_eq!(registry.get(index), expected);
        assert_eq!(registry.find(&expected.name), Some(index));
    }
    let managed = CommandRegistry::standard(true);
    assert_eq!(managed.len(), 20);
    assert_eq!(managed.find("uninstall"), None);
    assert_eq!(managed.find("update"), None);
    assert_eq!(managed.find("upload-dif"), Some(17));
}

#[test]
fn name_of_the_built_in_subcommand_is_refused() {
    let made = CommandRegistry::new(vec![descriptor("info", true), descriptor("completions", false)]);
    match made {
        Err(clash) => assert_eq!(clash, DuplicateRegistration { name: "completions".to_string() }),
        Ok(_) => panic!("reserved name accepted"),
    }
    assert!(standard_descriptors(false).iter().all(|d| d.name != "completions"));
}
