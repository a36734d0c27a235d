use embedded_ci::ident::{ProbeAlias, ProbeSerial, TargetGroup, TargetName};
use embedded_ci::settings::{
    from_cli, AuthEntry, ProbeConfig, ProbeInfo, SavedSettings, ServerConfigs, SettingsError,
};
use embedded_ci::ident::{AuthName, AuthToken};
use embedded_ci::target::{Target, Targets};

fn target(n: u32, group: &str) -> Target {
    Target {
        probe_serial: ProbeSerial(format!("PROBE_SERIAL_{n}")),
        probe_alias: ProbeAlias(format!("PROBE_ALIAS_{n}")),
        target_name: TargetName(format!("TARGET_{n}")),
        groups: vec![TargetGroup(group.into())].into(),
    }
}

fn inventory() -> Targets {
    let mut targets = Targets::new();
    for (n, group) in [(1, "GROUP_A"), (2, "GROUP_A"), (3, "GROUP_A"), (4, "GROUP_B"), (5, "GROUP_B")] {
        targets.push(target(n, group)).unwrap();
    }
    targets
}

#[test]
fn new_inventory_is_empty() {
    let targets = Targets::new();
    assert_eq!(targets.len(), 0);
    assert!(targets.all_targets().is_empty());
}

#[test]
fn push_keeps_the_order() {
    let targets = inventory();
    assert_eq!(targets.len(), 5);
    let serials: Vec<String> = targets.all_targets().iter().map(|t| t.probe_serial.0.clone()).collect();
    assert_eq!(
        serials,
        vec!["PROBE_SERIAL_1", "PROBE_SERIAL_2", "PROBE_SERIAL_3", "PROBE_SERIAL_4", "PROBE_SERIAL_5"]
    );
}

#[test]
fn push_refuses_a_duplicate_serial() {
    let mut targets = inventory();
    let mut again = target(9, "GROUP_C");
    again.probe_serial = ProbeSerial("PROBE_SERIAL_3".into());
    let refused = targets.push(again).unwrap_err();
    assert_eq!(refused.probe_serial, ProbeSerial("PROBE_SERIAL_3".into()));
    assert_eq!(refused.message(), "probe serial 'PROBE_SERIAL_3' already pushed");
    assert_eq!(targets.len(), 5);
}

#[test]
fn find_by_probe_serial_gives_the_target() {
    let targets = inventory();
    let found = targets.find_by_probe_serial(&ProbeSerial("PROBE_SERIAL_4".into()));
    assert_eq!(found, Some(&target(4, "GROUP_B")));
    assert_eq!(targets.find_by_probe_serial(&ProbeSerial("PROBE_SERIAL_6".into())), None);
}

#[test]
fn find_by_target_name_gives_the_first_match() {
    let mut list = vec![target(1, "GROUP_A"), target(2, "GROUP_A")];
    list[1].target_name = TargetName("TARGET_1".into());
    let targets: Targets = list.into();
    let found = targets.find_by_target_name(&TargetName("TARGET_1".into())).unwrap();
    assert_eq!(found.probe_serial, ProbeSerial("PROBE_SERIAL_1".into()));
    assert_eq!(targets.find_by_target_name(&TargetName("TARGET_2".into())), None);
}

#[test]
fn find_by_probe_alias_gives_the_target() {
    let targets = inventory();
    let found = targets.find_by_probe_alias(&ProbeAlias("PROBE_ALIAS_2".into())).unwrap();
    assert_eq!(found.target_name, TargetName("TARGET_2".into()));
    assert_eq!(targets.find_by_probe_alias(&ProbeAlias("".into())), None);
}

#[test]
fn find_by_group_gives_all_members_in_order() {
    let targets = inventory();
    let found = targets.find_by_group(&TargetGroup("GROUP_A".into()));
    let serials: Vec<&str> = found.iter().map(|t| t.probe_serial.0.as_str()).collect();
    assert_eq!(serials, vec!["PROBE_SERIAL_1", "PROBE_SERIAL_2", "PROBE_SERIAL_3"]);
    assert!(targets.find_by_group(&TargetGroup("GROUP_C".into())).is_empty());
}

#[test]
fn target_equality_ignores_the_order_of_groups() {
    let mut a = target(1, "GROUP_A");
    a.groups.push(TargetGroup("GROUP_B".into()));
    let mut b = target(1, "GROUP_B");
    b.groups.push(TargetGroup("GROUP_A".into()));
    assert_eq!(a, b);
    assert_ne!(a, target(1, "GROUP_A"));
}

fn config(serial: &str, name: &str, alias: &str, speed: Option<u32>) -> ProbeConfig {
    ProbeConfig {
        probe_serial: ProbeSerial(serial.into()),
        info: ProbeInfo {
            target_name: TargetName(name.into()),
            probe_alias: ProbeAlias(alias.into()),
            groups: vec![TargetGroup("GROUP_A".into())],
            probe_speed_khz: speed,
        },
    }
}

#[test]
fn inventory_holds_the_configured_probes_that_are_attached() {
    let configs = vec![config("S1", "chip1", "one", None), config("S2", "chip2", "two", Some(1000))];
    let found = vec![Some("S2".to_string()), None, Some("S9".to_string()), Some("S1".to_string())];
    let targets = from_cli(&configs, &found).unwrap();
    assert_eq!(targets.len(), 2);
    assert_eq!(
        targets.all_targets()[0],
        Target {
            probe_serial: ProbeSerial("S2".into()),
            probe_alias: ProbeAlias("two".into()),
            target_name: TargetName("chip2".into()),
            groups: vec![TargetGroup("GROUP_A".into())].into(),
        }
    );
    assert_eq!(targets.all_targets()[1].probe_serial, ProbeSerial("S1".into()));
}

#[test]
fn inventory_refuses_a_probe_found_twice() {
    let configs = vec![config("S1", "chip1", "one", None)];
    let found = vec![Some("S1".to_string()), Some("S1".to_string())];
    let refused = from_cli(&configs, &found).unwrap_err();
    assert_eq!(refused.probe_serial, ProbeSerial("S1".into()));
}

fn settings(tokens: Option<Vec<(&str, &str)>>, configs: Vec<ProbeConfig>) -> SavedSettings {
    SavedSettings::new(entries(tokens), configs, ServerConfigs::default()).unwrap()
}

fn entries(tokens: Option<Vec<(&str, &str)>>) -> Option<Vec<AuthEntry>> {
    tokens.map(|t| {
        t.into_iter()
            .map(|(n, v)| AuthEntry { name: AuthName(n.into()), token: AuthToken(v.into()) })
            .collect()
    })
}

#[test]
fn settings_with_a_token_name_twice_are_refused() {
    let tokens = entries(Some(vec![("ci", "one"), ("dev", "two"), ("ci", "three")]));
    let configs = vec![config("S1", "chip", "", None), config("S1", "chip", "", None)];
    let refused = SavedSettings::new(tokens, configs, ServerConfigs::default()).unwrap_err();
    assert_eq!(refused, SettingsError::TokenNameTwice);
    assert_eq!(refused.message(), "Invalid authorization tokens detected, a name occurs twice");
}

#[test]
fn settings_with_a_probe_serial_twice_are_refused() {
    let tokens = entries(Some(vec![("ci", "one"), ("dev", "one")]));
    let configs = vec![
        config("S1", "chip", "", None),
        config("S2", "chip", "", None),
        config("S3", "chip", "", None),
        config("S2", "other", "", None),
    ];
    let refused = SavedSettings::new(tokens, configs, ServerConfigs::default()).unwrap_err();
    assert_eq!(refused, SettingsError::ProbeSerialTwice);
    assert_eq!(refused.message(), "Invalid probe config detected, a probe serial occurs twice");
}

#[test]
fn settings_give_out_what_they_were_made_of() {
    let s = settings(Some(vec![("ci", "secret")]), vec![config("S1", "chip", "one", Some(4000))]);
    assert_eq!(s.auth_tokens().as_ref().unwrap()[0].token, AuthToken("secret".into()));
    assert_eq!(s.probe_configs()[0].probe_serial, ProbeSerial("S1".into()));
    assert_eq!(s.server_configs(), ServerConfigs::default());
    let (tokens, configs, limits) = s.into_parts();
    assert_eq!(tokens.unwrap().len(), 1);
    assert_eq!(configs[0].info.probe_speed_khz, Some(4000));
    assert_eq!(limits.max_jobs_in_queue.0, 40);
}

#[test]
fn default_settings_are_valid() {
    let s = SavedSettings::default();
    assert_eq!(s.validate(), Ok(()));
    assert_eq!(s.server_configs().max_target_timeout.0, 30);
    assert_eq!(s.server_configs().max_jobs_in_queue.0, 40);
    assert!(s.auth_tokens().is_none());
    assert!(s.probe_configs().is_empty());
}

#[test]
fn settings_with_everything_filled_are_valid() {
    let s = settings(Some(vec![("ci", "secret")]), vec![config("S1", "chip", "", None)]);
    assert_eq!(s.validate(), Ok(()));
}

#[test]
fn token_without_name_is_reported() {
    let s = settings(Some(vec![("ci", "secret"), ("", "")]), vec![config("", "", "", None)]);
    assert_eq!(s.validate(), Err(SettingsError::TokenNameMissing));
    assert_eq!(
        SettingsError::TokenNameMissing.message(),
        "Invalid authorization tokens detected, name is not filled"
    );
}

#[test]
fn token_without_value_is_reported() {
    let s = settings(Some(vec![("ci", "")]), vec![]);
    assert_eq!(s.validate(), Err(SettingsError::TokenValueMissing));
    assert_eq!(
        SettingsError::TokenValueMissing.message(),
        "Invalid authorization tokens detected, value is not filled"
    );
}

#[test]
fn probe_without_serial_is_reported() {
    let s = settings(None, vec![config("S1", "chip", "", None), config("", "", "", None)]);
    assert_eq!(s.validate(), Err(SettingsError::ProbeSerialMissing));
    assert_eq!(
        SettingsError::ProbeSerialMissing.message(),
        "Invalid probe config detected, probe serial is not filled"
    );
}

#[test]
fn probe_without_target_name_is_reported() {
    let s = settings(Some(vec![]), vec![config("S1", "", "", None)]);
    assert_eq!(s.validate(), Err(SettingsError::TargetNameMissing));
    assert_eq!(
        SettingsError::TargetNameMissing.message(),
        "Invalid probe config detected, 'target_name' is not filled"
    );
}
