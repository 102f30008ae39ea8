use clusterflux::environments::{select_environments, EnvironmentSelectionError};

fn names(v: &[&str]) -> Vec<String> {
    v.iter().map(|s| (*s).to_owned()).collect()
}

#[test]
fn no_names_selects_every_discovered_environment() {
    let discovered = names(&["linux", "windows"]);
    assert_eq!(select_environments("/p", &discovered, Vec::new()).ok(), Some(vec![true, true]));
}

#[test]
fn named_environments_are_selected_in_discovery_order() {
    let discovered = names(&["linux", "windows", "wasm"]);
    assert_eq!(
        select_environments("/p", &discovered, names(&["wasm", "linux", "wasm"])).ok(),
        Some(vec![true, false, true])
    );
}

#[test]
fn the_first_missing_name_in_string_order_is_reported() {
    let discovered = names(&["linux"]);
    match select_environments("/work/project", &discovered, names(&["zeta", "beta", "linux"])) {
        Err(error) => {
            assert!(matches!(&error, EnvironmentSelectionError::NotDiscovered { name, .. } if name == "beta"));
            assert_eq!(error.message(), "environment `beta` was not discovered under /work/project/envs");
        }
        Ok(_) => panic!("a missing environment must be refused"),
    }
}

#[test]
fn nothing_to_prebuild_is_an_error() {
    match select_environments("/p", &Vec::new(), Vec::new()) {
        Err(error) => {
            assert!(matches!(error, EnvironmentSelectionError::NoneSelected));
            assert_eq!(error.message(), "no task environments were selected");
        }
        Ok(_) => panic!("nothing was discovered"),
    }
}
