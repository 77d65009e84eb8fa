use storage_gas::waypoint::{WaypointConfig, WaypointKey, WaypointLookup};

type Config = WaypointConfig<u64, String, u8>;

#[test]
fn waypoint_in_the_configuration_is_known() {
    let config: Config = WaypointConfig::FromConfig(42);
    assert_eq!(config.waypoint_from_config(), Some(42));
    assert_eq!(config.waypoint(), WaypointLookup::Known(42));
    assert_eq!(config.genesis_waypoint(), WaypointLookup::Known(42));
}

#[test]
fn waypoint_in_a_file_is_to_be_read_from_it() {
    let path = String::from("/opt/aptos/waypoint.txt");
    let config: Config = WaypointConfig::FromFile(path.clone());
    assert_eq!(config.waypoint_from_config(), None);
    assert_eq!(config.waypoint(), WaypointLookup::ReadFile(&path));
    assert_eq!(config.genesis_waypoint(), WaypointLookup::ReadFile(&path));
}

#[test]
fn waypoint_in_storage_has_an_entry_for_genesis() {
    let config: Config = WaypointConfig::FromStorage(9);
    assert_eq!(config.waypoint_from_config(), None);
    assert_eq!(
        config.waypoint(),
        WaypointLookup::ReadStorage(&9, WaypointKey::Waypoint)
    );
    assert_eq!(
        config.genesis_waypoint(),
        WaypointLookup::ReadStorage(&9, WaypointKey::GenesisWaypoint)
    );
}

#[test]
fn no_source_gives_no_waypoint() {
    let config: Config = WaypointConfig::Unset;
    assert_eq!(config.waypoint_from_config(), None);
    assert_eq!(config.waypoint(), WaypointLookup::Missing);
    assert_eq!(config.genesis_waypoint(), WaypointLookup::Missing);
}
