use embedded_ci::analyzer::{parse_line, parse_scan, LogicAnalyzer};
use embedded_ci::ident::{AuthName, AuthToken, ProbeAlias, ProbeSerial, TargetGroup, TargetName};
use embedded_ci::runner::pick_probe;
use embedded_ci::server::{PostJobError, CORS};
use embedded_ci::settings::{
    find_config, fresh_token, AuthEntry, MaxJobsInQueue, ProbeConfig, ProbeInfo, SavedSettings,
    ServerConfigs, Timeout,
};
use embedded_ci::single::{CpuId, RunOn, Target, Targets};
use embedded_ci::status::JobStatus;
use embedded_ci::validate::ValidationErrors;

fn analyzer(bus: u8, device: u8) -> Option<LogicAnalyzer> {
    Some(LogicAnalyzer { bus, device })
}

#[test]
fn scan_report_tells_the_analyzers() {
    let report = "The following devices were found:\nfx2lafw:conn=1.18 - Saleae Logic with 8 channels: D0 D1\n\nfx2lafw:conn=3.255 - other\nnothing here\n";
    assert_eq!(
        parse_scan(report),
        vec![LogicAnalyzer { bus: 1, device: 18 }, LogicAnalyzer { bus: 3, device: 255 }]
    );
    assert_eq!(parse_scan(""), vec![]);
}

#[test]
fn line_tells_the_first_connection_only() {
    assert_eq!(parse_line("fx2lafw:conn=1.2 fx2lafw:conn=3.4"), analyzer(1, 2));
    assert_eq!(parse_line("xx fx2lafw:conn=007.08yy"), analyzer(7, 8));
    assert_eq!(parse_line("fx2lafw:conn=1é2"), analyzer(1, 2));
    assert_eq!(parse_line("fx2lafw:conn=.2 fx2lafw:conn=5-6"), analyzer(5, 6));
    assert_eq!(parse_line("fx2lafw:conn=12. fx2lafw:conn=5-6"), analyzer(5, 6));
}

#[test]
fn digits_alone_are_split_before_the_last_two() {
    assert_eq!(parse_line("fx2lafw:conn=123"), analyzer(1, 3));
    assert_eq!(parse_line("fx2lafw:conn=12345 "), analyzer(123, 5));
    assert_eq!(parse_line("fx2lafw:conn=12"), None);
    assert_eq!(parse_line("fx2lafw:conn=1"), None);
}

#[test]
fn numbers_above_255_tell_no_analyzer() {
    assert_eq!(parse_line("fx2lafw:conn=256.1"), None);
    assert_eq!(parse_line("fx2lafw:conn=1.256 fx2lafw:conn=1.2"), None);
    assert_eq!(parse_line("fx2lafw:conn=1.99999999999999999999999999"), None);
    assert_eq!(parse_line("fx2lafw:conn=255.000"), analyzer(255, 0));
    assert_eq!(parse_line("fx2lafw:conn"), None);
    assert_eq!(parse_line("fx2lafw:conn="), None);
}

#[test]
fn capture_is_ordered_by_bus_and_device() {
    assert_eq!(
        LogicAnalyzer { bus: 1, device: 18 }.capture_args(24),
        vec!["--driver", "fx2lafw:conn=1.18", "--continuous", "--config", "samplerate=24M", "-O", "binary"]
    );
}

fn config(serial: &str, alias: &str, speed: Option<u32>) -> ProbeConfig {
    ProbeConfig {
        probe_serial: ProbeSerial(serial.into()),
        info: ProbeInfo {
            target_name: TargetName("chip".into()),
            probe_alias: ProbeAlias(alias.into()),
            groups: vec![TargetGroup("G".into())],
            probe_speed_khz: speed,
        },
    }
}

#[test]
fn settings_are_shown_line_by_line() {
    let settings = SavedSettings::new(
        Some(vec![AuthEntry { name: AuthName("ci".into()), token: AuthToken("secret".into()) }]),
        vec![config("S1", "", None), config("S2", "two", Some(1800))],
        ServerConfigs { max_target_timeout: Timeout(30), max_jobs_in_queue: MaxJobsInQueue(40) },
    )
    .unwrap();
    assert_eq!(
        settings.describe(),
        "\n  - Auth tokens:\n    - ci: secret\n\n  - Probe configs:\n    - S1: { target_name: chip, probe_alias: None }\n    - S2: { target_name: chip, probe_alias: two, probe_speed_khz: 1800 }\n\n  - Server configs:\n    - max_target_timeout: 30 seconds\n    - max_jobs_in_queue: 40\n"
    );
    assert_eq!(
        SavedSettings::default().describe(),
        "\n  - Auth tokens: None\n\n  - Probe configs:\n\n  - Server configs:\n    - max_target_timeout: 30 seconds\n    - max_jobs_in_queue: 40\n"
    );
}

#[test]
fn first_configuration_of_a_probe_counts() {
    let configs = vec![config("S1", "a", Some(1)), config("S2", "b", None), config("S1", "c", Some(3))];
    assert_eq!(find_config(&configs, &ProbeSerial("S1".into())).unwrap().probe_alias, ProbeAlias("a".into()));
    assert_eq!(find_config(&configs, &ProbeSerial("S2".into())).unwrap().probe_speed_khz, None);
    assert!(find_config(&configs, &ProbeSerial("S3".into())).is_none());
}

#[test]
fn probe_is_picked_by_its_serial() {
    let attached = vec![None, Some("B".to_string()), Some("A".to_string()), Some("B".to_string())];
    assert_eq!(pick_probe(&attached, &ProbeSerial("B".into())), Some(1));
    assert_eq!(pick_probe(&attached, &ProbeSerial("A".into())), Some(2));
    assert_eq!(pick_probe(&attached, &ProbeSerial("C".into())), None);
    assert_eq!(pick_probe(&[], &ProbeSerial("".into())), None);
}

#[test]
fn answers_carry_their_status_codes() {
    assert_eq!(PostJobError::InvalidJob(ValidationErrors::default()).status_code(), 400);
    assert_eq!(PostJobError::TooManyJobs.status_code(), 425);
    assert_eq!(PostJobError::InternalQueueClosed.status_code(), 500);
    assert_eq!(PostJobError::IdInUse.status_code(), 425);
    assert_eq!(JobStatus::Finished.status_code(), 302);
    assert_eq!(JobStatus::InQueue.status_code(), 425);
    assert_eq!(JobStatus::Running.status_code(), 425);
    assert_eq!(JobStatus::NotFound.status_code(), 404);
}

#[test]
fn cores_are_known_by_name_and_part_number() {
    assert_eq!(CpuId::from_str("CortexM0Plus").unwrap(), CpuId::CortexM0Plus);
    assert_eq!(CpuId::from_str("cortexm33").unwrap(), CpuId::CortexM33);
    assert_eq!(CpuId::from_str("CORTEXM7").unwrap(), CpuId::CortexM7);
    let unknown = CpuId::from_str("Cortex-M4").unwrap_err();
    assert_eq!(unknown.message(), "Unable to parse 'cortex-m4' to CpuId");
    for cpu in [
        CpuId::CortexM0,
        CpuId::CortexM0Plus,
        CpuId::CortexM1,
        CpuId::CortexM3,
        CpuId::CortexM4,
        CpuId::CortexM7,
        CpuId::CortexM23,
        CpuId::CortexM33,
    ] {
        assert_eq!(CpuId::try_from_primitive(cpu.part()), Some(cpu));
    }
    assert_eq!(CpuId::CortexM4.part(), 0xc24);
    assert_eq!(CpuId::try_from_primitive(0xc22), None);
    assert_eq!(CpuId::from_cpuid_register(0x410f_c241), Some(CpuId::CortexM4));
    assert_eq!(CpuId::from_cpuid_register(0x410c_c200), Some(CpuId::CortexM0));
    assert_eq!(CpuId::from_cpuid_register(0), None);
}

#[test]
fn selector_of_one_target_must_name_something() {
    assert!(RunOn::ProbeSerial(ProbeSerial("S".into())).is_valid());
    assert!(!RunOn::ProbeSerial(ProbeSerial("".into())).is_valid());
    assert!(!RunOn::ProbeAlias(ProbeAlias("".into())).is_valid());
    assert!(RunOn::Target(TargetName("t".into())).is_valid());
    assert!(!RunOn::Target(TargetName("".into())).is_valid());
    assert!(RunOn::Core(CpuId::CortexM3).is_valid());
}

#[test]
fn selector_is_chosen_by_the_first_option_given() {
    let chosen = RunOn::from_options(Some("t".into()), Some(CpuId::CortexM0), None, Some("s".into()));
    assert!(matches!(chosen, Some(RunOn::Target(TargetName(name))) if name == "t"));
    let chosen = RunOn::from_options(None, Some(CpuId::CortexM0), Some("a".into()), None);
    assert!(matches!(chosen, Some(RunOn::Core(CpuId::CortexM0))));
    let chosen = RunOn::from_options(None, None, Some("a".into()), Some("s".into()));
    assert!(matches!(chosen, Some(RunOn::ProbeAlias(ProbeAlias(name))) if name == "a"));
    let chosen = RunOn::from_options(None, None, None, Some("s".into()));
    assert!(matches!(chosen, Some(RunOn::ProbeSerial(ProbeSerial(name))) if name == "s"));
    assert!(RunOn::from_options(None, None, None, None).is_none());
}

#[test]
fn targets_are_found_by_core_probe_chip_and_alias() {
    let list = |n: u32, cpu: CpuId| Target {
        cpu_type: cpu,
        probe_serial: ProbeSerial(format!("S{n}")),
        probe_alias: ProbeAlias(format!("A{n}")),
        target_name: TargetName(format!("T{}", n % 2)),
    };
    let targets = Targets::new(vec![list(1, CpuId::CortexM0), list(2, CpuId::CortexM4), list(3, CpuId::CortexM4)]);
    assert_eq!(targets.all_targets().len(), 3);
    assert_eq!(targets.get_core(&CpuId::CortexM4).unwrap().probe_serial, ProbeSerial("S2".into()));
    assert!(targets.get_core(&CpuId::CortexM7).is_none());
    assert_eq!(targets.get_probe(&ProbeSerial("S3".into())).unwrap().probe_alias, ProbeAlias("A3".into()));
    assert!(targets.get_probe(&ProbeSerial("S4".into())).is_none());
    assert_eq!(targets.get_target(&TargetName("T1".into())).unwrap().probe_serial, ProbeSerial("S1".into()));
    assert!(targets.get_target(&TargetName("T2".into())).is_none());
    assert_eq!(targets.get_probe_alias(&ProbeAlias("A2".into())).unwrap().cpu_type, CpuId::CortexM4);
    assert!(targets.get_probe_alias(&ProbeAlias("".into())).is_none());
}

fn by_pattern(pattern: &regex::Regex, line: &str) -> Option<LogicAnalyzer> {
    let capture = pattern.captures(line)?;
    let bus = capture.get(1)?.as_str().parse().ok()?;
    let device = capture.get(2)?.as_str().parse().ok()?;
    Some(LogicAnalyzer { bus, device })
}

#[test]
fn lines_are_read_as_the_pattern_reads_them() {
    let pattern = regex::Regex::new("fx2lafw:conn=([0-9]+).([0-9]+)").unwrap();
    let alphabet = ['0', '2', '5', '.', 'x', 'é'];
    let mut tails: Vec<String> = vec![String::new()];
    let mut from = 0;
    for _ in 0..6 {
        let upto = tails.len();
        for i in from..upto {
            for c in alphabet {
                let mut longer = tails[i].clone();
                longer.push(c);
                tails.push(longer);
            }
        }
        from = upto;
    }
    assert_eq!(tails.len(), 1 + 6 + 36 + 216 + 1296 + 7776 + 46656);
    for tail in &tails {
        let line = format!("fx2lafw:conn={tail}");
        assert_eq!(parse_line(&line), by_pattern(&pattern, &line), "{line}");
    }
    for tail in tails.iter().take(1 + 6 + 36 + 216) {
        for line in [
            format!("fx2lafw:conn={tail} fx2lafw:conn=7.7"),
            format!("fx2lafw:confx2lafw:conn={tail}"),
            format!("conn={tail}"),
        ] {
            assert_eq!(parse_line(&line), by_pattern(&pattern, &line), "{line}");
        }
    }
}

#[test]
fn new_token_has_128_letters_and_digits() {
    let token = fresh_token();
    assert_eq!(token.0.len(), 128);
    assert!(token.0.chars().all(|c| c.is_ascii_alphanumeric()));
    assert_ne!(token, fresh_token());
}

#[test]
fn token_is_kept_under_its_name() {
    let mut settings = SavedSettings::default();
    let names = |s: &SavedSettings| -> Vec<(String, String)> {
        s.auth_tokens().as_ref().unwrap().iter().map(|e| (e.name.0.clone(), e.token.0.clone())).collect()
    };
    settings.set_token(AuthName("a".into()), AuthToken("1".into()));
    assert_eq!(names(&settings), vec![("a".to_string(), "1".to_string())]);
    settings.set_token(AuthName("b".into()), AuthToken("2".into()));
    settings.set_token(AuthName("a".into()), AuthToken("3".into()));
    assert_eq!(
        names(&settings),
        vec![("a".to_string(), "3".to_string()), ("b".to_string(), "2".to_string())]
    );
    assert!(settings.probe_configs().is_empty());
}

#[test]
fn answers_are_open_to_any_origin() {
    let headers: Vec<(&str, &str)> = CORS::headers().iter().map(|h| (h.name, h.value)).collect();
    assert_eq!(
        headers,
        vec![
            ("Access-Control-Allow-Origin", "*"),
            ("Access-Control-Allow-Methods", "POST, GET, PATCH, OPTIONS"),
            ("Access-Control-Allow-Headers", "*"),
            ("Access-Control-Allow-Credentials", "true"),
        ]
    );
}
