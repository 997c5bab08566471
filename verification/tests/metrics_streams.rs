use slink::runners::base::MinecraftRunnerMetrics;
use slink::runners::docker_host::{DockerHostRunner, MetricsSample};

#[test]
fn good_samples_carry_their_fields_over() {
    let sample = MetricsSample {
        memory_usage: Some(512),
        memory_limit: Some(2048),
        system_cpu_usage: Some(77),
    };
    let mapped = DockerHostRunner::map_metrics_sample(&Ok(sample));
    assert_eq!(
        mapped,
        Some(MinecraftRunnerMetrics {
            memory: Some(512),
            max_memory: Some(2048),
            cpu_usage: Some(77),
        })
    );
}

#[test]
fn absent_quantities_stay_absent() {
    let sample = MetricsSample { memory_usage: None, memory_limit: Some(2048), system_cpu_usage: None };
    let mapped = DockerHostRunner::map_metrics_sample(&Ok(sample));
    assert_eq!(
        mapped,
        Some(MinecraftRunnerMetrics { memory: None, max_memory: Some(2048), cpu_usage: None })
    );
}

#[test]
fn a_bad_sample_yields_an_empty_element_and_the_sequence_continues() {
    let samples: Vec<Result<MetricsSample, String>> = vec![
        Ok(MetricsSample { memory_usage: Some(1), memory_limit: None, system_cpu_usage: None }),
        Err("sample failed".to_string()),
        Ok(MetricsSample { memory_usage: Some(3), memory_limit: None, system_cpu_usage: None }),
    ];
    let mapped: Vec<Option<MinecraftRunnerMetrics>> = samples
        .iter()
        .map(|s| DockerHostRunner::map_metrics_sample(s))
        .collect();
    assert_eq!(mapped.len(), 3);
    assert_eq!(mapped[0].as_ref().unwrap().memory, Some(1));
    assert_eq!(mapped[1], None);
    assert_eq!(mapped[2].as_ref().unwrap().memory, Some(3));
}

#[test]
fn log_chunks_pass_through_and_bad_ones_become_empty() {
    let good = DockerHostRunner::map_log_chunk(Ok(vec![104, 105]));
    assert_eq!(good, Some(vec![104, 105]));
    let bad = DockerHostRunner::map_log_chunk(Err("stream error".to_string()));
    assert_eq!(bad, None);
}
