use std::path::PathBuf;

use mesh::paths::config_path;
use mesh::paths::config_path_in;
use mesh::paths::data_dir;
use mesh::paths::data_dir_in;
use mesh::paths::theme_path;
use mesh::paths::theme_path_in;
use mesh::paths::BaseDir;

fn home() -> Option<PathBuf> {
    Some(PathBuf::from("/home/alice/.config"))
}

#[test]
fn files_lie_in_the_mesh_directory() {
    assert_eq!(data_dir_in(home()).names, vec!["mesh"]);
    assert_eq!(theme_path_in(home()).names, vec!["mesh", "theme.toml"]);
    assert_eq!(config_path_in(home()).names, vec!["mesh", "config.toml"]);
    assert_eq!(theme_path_in(home()).base, BaseDir::System(home().unwrap()));
}

#[test]
fn without_a_system_directory_the_current_one_is_used() {
    assert_eq!(data_dir_in(None).base, BaseDir::Current);
    assert_eq!(theme_path_in(None).base, BaseDir::Current);
}

#[test]
fn theme_and_config_are_neighbours() {
    let theme = theme_path_in(home());
    let config = config_path_in(home());
    assert_eq!(theme.base, config.base);
    assert_eq!(theme.names[0], config.names[0]);
    assert_ne!(theme.names[1], config.names[1]);
}

#[test]
fn the_system_directories_are_those_of_the_user() {
    let expected = match dirs::data_dir() {
        Some(dir) => BaseDir::System(dir),
        None => BaseDir::Current,
    };
    assert_eq!(data_dir().base, expected);
    let expected = match dirs::config_dir() {
        Some(dir) => BaseDir::System(dir),
        None => BaseDir::Current,
    };
    assert_eq!(theme_path().base, expected);
    assert_eq!(config_path().base, expected);
    assert_eq!(config_path().names, vec!["mesh", "config.toml"]);
}

#[test]
fn a_copied_location_is_the_same() {
    let place = theme_path_in(home());
    assert_eq!(place.clone(), place);
    assert_eq!(place.clone().join("x").names, vec!["mesh", "theme.toml", "x"]);
}
