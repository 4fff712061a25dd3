use std::collections::HashMap;
use telemap::config::{IdMapConf, PipelineConf, RouteConf};
use telemap::routing::{MappingsIndex, PipelinesIndex};

fn mapping_example() -> MappingsIndex {
    MappingsIndex::from(vec![
        IdMapConf { source: 1, destinations: vec![10, 11] },
        IdMapConf { source: 2, destinations: vec![12, 13] },
        IdMapConf { source: 3, destinations: vec![] },
    ])
}

fn pipeline_conf_example(src: Option<i64>, dest: Option<i64>) -> PipelineConf {
    PipelineConf {
        name: "example pipeline".to_string(),
        route: RouteConf { source: src, destination: dest },
        filters: vec![],
        pipes: vec![],
    }
}

#[test]
fn test_mappings_index_get() {
    let mapping = mapping_example();

    assert_eq!(Some(&vec![10, 11]), mapping.get(&1));
    assert_eq!(Some(&vec![12, 13]), mapping.get(&2));
    assert_eq!(Some(&vec![3]), mapping.get(&3));
    assert_eq!(None, mapping.get(&4));
}

#[test]
fn test_mappings_index_iter() {
    let mapping = mapping_example();

    let mut results = HashMap::new();
    results.insert(1, vec![10, 11]);
    results.insert(2, vec![12, 13]);
    results.insert(3, vec![3]);

    for (source, destinations) in mapping.entries.iter() {
        assert_eq!(results.get(source).unwrap(), destinations);
    }
}

#[test]
fn test_pipelines_index() {
    let pipelines = PipelinesIndex::from(vec![
        // With source and destination
        pipeline_conf_example(Some(1), Some(10)),
        // With destination only
        pipeline_conf_example(None, Some(10)),
        // With source only
        pipeline_conf_example(Some(1), None),
        // This will apply to all destinations for which no pipeline found
        pipeline_conf_example(Some(0), Some(0)),
    ]);

    assert!(pipelines.find(&1, &10).is_ok());
    assert!(pipelines.find(&20, &10).is_ok());
    assert!(pipelines.find(&1, &500).is_ok());
    assert!(pipelines.find(&1841, &895).is_ok());
}

#[test]
fn test_multiple_pipelines_for_route() {
    let pipelines = PipelinesIndex::from(vec![
        pipeline_conf_example(Some(1), Some(10)),
        pipeline_conf_example(Some(1), Some(10)),
    ]);

    assert_eq!(2, pipelines.find(&1, &10).unwrap().len());
}

#[test]
fn find_prefers_the_more_concrete_route() {
    let pipelines = PipelinesIndex::from(vec![
        pipeline_conf_example(Some(1), Some(10)),
        pipeline_conf_example(None, Some(10)),
    ]);

    // Both routes could serve (1, 10); the full route wins.
    let found = pipelines.find(&1, &10).unwrap();
    assert_eq!(1, found.len());

    // Another source falls through to the wildcard-source route.
    assert!(pipelines.find(&2, &10).is_ok());
}

#[test]
fn find_fails_when_nothing_is_registered() {
    let pipelines = PipelinesIndex::from(vec![pipeline_conf_example(Some(1), Some(10))]);

    assert!(pipelines.find(&7, &8).is_err());
}

#[test]
fn later_mapping_entry_overrides_an_earlier_source() {
    let mapping = MappingsIndex::from(vec![
        IdMapConf { source: 1, destinations: vec![10] },
        IdMapConf { source: 1, destinations: vec![20, 21] },
    ]);

    assert_eq!(Some(&vec![20, 21]), mapping.get(&1));
}
