use eunomia_exporter::config::{
    ConfigError, ConfigSyntax, CounterConfig, ExporterConfig, LabelConfig, MetricsConfig,
    ProgramConfig,
};

fn program(name: &str, data: &str, file: &str) -> ProgramConfig {
    ProgramConfig::with_defaults(
        name.to_string(),
        MetricsConfig::with_defaults(None),
        Some(data.to_string()),
        Some(file.to_string()),
    )
}

fn opensnoop_counter() -> CounterConfig {
    CounterConfig::with_defaults(
        "eunomia_file_open_counter".to_string(),
        Some("test".to_string()),
        Some(vec![
            LabelConfig::with_defaults("pid".to_string(), None),
            LabelConfig::with_defaults("comm".to_string(), Some("task".to_string())),
        ]),
    )
}

#[test]
fn syntax_follows_suffix() {
    assert_eq!(ConfigSyntax::for_path("examples/opensnoop/opensnoop.json"), ConfigSyntax::Json);
    assert_eq!(ConfigSyntax::for_path(".json"), ConfigSyntax::Json);
    assert_eq!(ConfigSyntax::for_path("examples/opensnoop/opensnoop.yaml"), ConfigSyntax::Yaml);
    assert_eq!(ConfigSyntax::for_path("config.yml"), ConfigSyntax::Yaml);
    assert_eq!(ConfigSyntax::for_path("json"), ConfigSyntax::Yaml);
    assert_eq!(ConfigSyntax::for_path("a.json.bak"), ConfigSyntax::Yaml);
    assert_eq!(ConfigSyntax::for_path("a.JSON"), ConfigSyntax::Yaml);
    assert_eq!(ConfigSyntax::for_path(""), ConfigSyntax::Yaml);
}

#[test]
fn omitted_fields_become_empty() {
    let label = LabelConfig::with_defaults("pid".to_string(), None);
    assert_eq!(label.name, "pid");
    assert_eq!(label.from, "");
    let counter = CounterConfig::with_defaults("test".to_string(), None, None);
    assert_eq!(counter.name, "test");
    assert_eq!(counter.description, "");
    assert!(counter.labels.is_empty());
    let metrics = MetricsConfig::with_defaults(None);
    assert!(metrics.counters.is_empty());
    let prog = ProgramConfig::with_defaults("test".to_string(), metrics.clone(), None, None);
    assert_eq!(prog.name, "test");
    assert_eq!(prog.metrics, metrics);
    assert_eq!(prog.ebpf_data, "");
    assert_eq!(prog.compiled_ebpf_filename, "");
}

#[test]
fn written_fields_are_kept() {
    let counter = opensnoop_counter();
    assert_eq!(counter.description, "test");
    assert_eq!(counter.labels.len(), 2);
    assert_eq!(counter.labels[1].name, "comm");
    assert_eq!(counter.labels[1].from, "task");
    let metrics = MetricsConfig::with_defaults(Some(vec![counter.clone()]));
    assert_eq!(metrics.counters, vec![counter]);
    let prog = program("opensnoop", "data", "package.json");
    assert_eq!(prog.ebpf_data, "data");
    assert_eq!(prog.compiled_ebpf_filename, "package.json");
}

#[test]
fn refilling_written_values_gives_them_back() {
    let label = LabelConfig::with_defaults("comm".to_string(), Some("task".to_string()));
    let again = LabelConfig::with_defaults(label.name.clone(), Some(label.from.clone()));
    assert_eq!(label, again);
    let counter = opensnoop_counter();
    let again = CounterConfig::with_defaults(
        counter.name.clone(),
        Some(counter.description.clone()),
        Some(counter.labels.clone()),
    );
    assert_eq!(counter, again);
}

#[test]
fn label_source_defaults_to_its_name() {
    let label = LabelConfig::with_defaults("pid".to_string(), None);
    assert_eq!(label.value_source(), "pid");
    let label = LabelConfig::with_defaults("comm".to_string(), Some("task".to_string()));
    assert_eq!(label.value_source(), "task");
}

#[test]
fn inline_payload_wins_over_file() {
    let config = ExporterConfig {
        programs: vec![
            program("a", "inline", "missing.json"),
            program("b", "", "b.json"),
        ],
    };
    assert_eq!(config.next_payload_read(0), Ok(Some(1)));
    assert_eq!(config.next_payload_read(2), Ok(None));
}

#[test]
fn all_inline_needs_no_read() {
    let config = ExporterConfig {
        programs: vec![program("a", "x", ""), program("b", "y", "y.json")],
    };
    assert_eq!(config.next_payload_read(0), Ok(None));
    let empty = ExporterConfig { programs: vec![] };
    assert_eq!(empty.next_payload_read(0), Ok(None));
}

#[test]
fn missing_payload_names_the_program() {
    let config = ExporterConfig {
        programs: vec![
            program("a", "x", ""),
            program("opensnoop", "", ""),
            program("c", "", "c.json"),
        ],
    };
    assert_eq!(
        config.next_payload_read(0),
        Err(ConfigError::UnresolvedPayload { program: "opensnoop".to_string() })
    );
    assert_eq!(config.next_payload_read(2), Ok(Some(2)));
}

#[test]
fn filled_payload_is_the_file_text() {
    let mut config = ExporterConfig {
        programs: vec![
            program("a", "", "a.json"),
            program("b", "", "b.json"),
        ],
    };
    assert_eq!(config.next_payload_read(0), Ok(Some(0)));
    assert_eq!(config.fill_payload(0, "{\"text\": 1}\n".to_string()), 1);
    assert_eq!(config.programs[0].ebpf_data, "{\"text\": 1}\n");
    assert_eq!(config.programs[0].compiled_ebpf_filename, "a.json");
    assert_eq!(config.programs[1], program("b", "", "b.json"));
    assert_eq!(config.next_payload_read(1), Ok(Some(1)));
    assert_eq!(config.fill_payload(1, "b".to_string()), 2);
    assert_eq!(config.next_payload_read(2), Ok(None));
    assert_eq!(config.programs[1].ebpf_data, "b");
}

#[test]
fn empty_file_text_moves_on() {
    let mut config = ExporterConfig { programs: vec![program("a", "", "a.json")] };
    assert_eq!(config.next_payload_read(0), Ok(Some(0)));
    assert_eq!(config.fill_payload(0, String::new()), 1);
    assert_eq!(config.next_payload_read(1), Ok(None));
}
