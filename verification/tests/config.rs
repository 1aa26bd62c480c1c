use garlemald::lobby::config;
use garlemald::map_config;

#[test]
fn lobby_defaults_and_overrides() {
    let mut cfg = config::Config::default();
    assert_eq!(cfg.bind_ip(), "127.0.0.1");
    assert_eq!(cfg.port(), 54994);
    assert_eq!(cfg.db_path(), "./data/garlemald.db");
    let args = config::LaunchArgs {
        ip: Some("0.0.0.0".to_string()),
        port: Some(1),
        db_path: Some("x.db".to_string()),
        config: String::new(),
    };
    cfg.apply_launch_args(args, true);
    assert_eq!((cfg.bind_ip(), cfg.port(), cfg.db_path()), ("0.0.0.0", 1, "x.db"));
}

#[test]
fn lobby_ignores_an_address_that_does_not_parse() {
    let mut cfg = config::Config::default();
    let args = config::LaunchArgs {
        ip: Some("not-an-ip".to_string()),
        ..config::LaunchArgs::default()
    };
    cfg.apply_launch_args(args, false);
    assert_eq!(cfg.bind_ip(), "127.0.0.1");
    assert_eq!(cfg.port(), 54994);
}

#[test]
fn map_defaults_and_overrides() {
    let mut cfg = map_config::Config::default();
    assert_eq!((cfg.bind_ip(), cfg.port(), cfg.world_id()), ("127.0.0.1", 1989, 1));
    assert_eq!(cfg.script_root(), "./scripts");
    assert!(cfg.load_from_database());
    let args = map_config::LaunchArgs { world_id: Some(7), port: Some(2000), ..map_config::LaunchArgs::default() };
    cfg.apply_launch_args(args, false);
    assert_eq!((cfg.port(), cfg.world_id()), (2000, 7));
    assert_eq!(cfg.db_path(), "./data/garlemald.db");
}
