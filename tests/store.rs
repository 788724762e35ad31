use roselite::error::{RoseliteError, VeilidError};
use roselite::error::PackageError;
use roselite::store::{
    check_lookup_size, chunk_bytes, plan_content, plan_publish, split_spans, Download, LookupRecord, PackageRecord,
    PublishStep, Publisher, CHUNK_SIZE, MAX_CHUNKS_PER_RECORD, MAX_RECORD_BYTES,
};
use roselite::types::{AppId, AppInfo, Timestamp};
use std::collections::HashMap;

fn app_info(id: &str) -> AppInfo {
    AppInfo {
        id: AppId(id.to_string()),
        name: "Site".to_string(),
        slug: "site".to_string(),
        version: "1.0.0".to_string(),
        description: String::new(),
        developer: String::new(),
        category: "general".to_string(),
        size_bytes: 0,
        created_at: Timestamp { secs: 0, nanos: 0 },
        updated_at: Timestamp { secs: 0, nanos: 0 },
        tags: vec![],
        entry_point: "index.html".to_string(),
        veilid_identity: None,
        signature: None,
        chunk_count: 0,
    }
}

// Publishes into a map from (record key, subkey) to bytes, as the overlay would hold them.
fn publish(content: &Vec<u8>, dht: &mut HashMap<(String, u32), Vec<u8>>) -> LookupRecord {
    let mut p = Publisher::start(content).unwrap();
    let mut created = 0;
    loop {
        match p.next_step() {
            PublishStep::CreateRecord { columns } => {
                assert!(columns >= 1 && columns <= MAX_CHUNKS_PER_RECORD);
                p.record_created(format!("VLD0:record{}", created));
                created += 1;
            }
            PublishStep::WriteChunk { record_key, subkey, span } => {
                assert!(dht.insert((record_key, subkey), chunk_bytes(content, span)).is_none());
                p.chunk_written();
            }
            PublishStep::Finished => break,
        }
    }
    LookupRecord::new(app_info("VLD0:lookup"), p.records(), content.len())
}

fn download(lookup: &LookupRecord, dht: &HashMap<(String, u32), Vec<u8>>) -> Result<Vec<u8>, RoseliteError> {
    let mut d = Download::start(lookup)?;
    while let Some((key, subkey)) = d.next_fetch() {
        d.accept(dht.get(&(key, subkey)).cloned())?;
    }
    d.finish()
}

fn sample(len: usize) -> Vec<u8> {
    (0..len).map(|i| (i * 31 % 251) as u8).collect()
}

#[test]
fn small_package_is_one_record_of_one_chunk() {
    let content = sample(24);
    let mut dht = HashMap::new();
    let lookup = publish(&content, &mut dht);
    assert_eq!(lookup.package_records.len(), 1);
    assert_eq!(lookup.package_records[0].chunk_count, 1);
    assert_eq!(lookup.package_records[0].size_bytes, 24);
    assert_eq!(lookup.total_size_bytes, 24);
    assert_eq!(lookup.schema_version, "1.0");
    assert_eq!(download(&lookup, &dht).unwrap(), content);
}

#[test]
fn two_million_bytes_split_into_three_records() {
    let content = sample(2_000_000);
    let plan = plan_publish(content.len());
    assert_eq!(plan.len(), 3);
    assert_eq!((plan[0].start, plan[0].end), (0, 950_000));
    assert_eq!((plan[1].start, plan[1].end), (950_000, 1_900_000));
    assert_eq!((plan[2].start, plan[2].end), (1_900_000, 2_000_000));
    assert_eq!(plan[0].chunks.len(), 119);
    assert_eq!(plan[1].chunks.len(), 119);
    assert_eq!(plan[2].chunks.len(), 13);
    assert_eq!(plan[2].chunks[11], (1_988_000, 1_996_000));
    assert_eq!(plan[2].chunks[12], (1_996_000, 2_000_000));
    assert_eq!(plan[0].chunks[118], (944_000, 950_000));
    let mut dht = HashMap::new();
    let lookup = publish(&content, &mut dht);
    let sizes: Vec<usize> = lookup.package_records.iter().map(|r| r.size_bytes).collect();
    assert_eq!(sizes, vec![950_000, 950_000, 100_000]);
    assert_eq!(download(&lookup, &dht).unwrap(), content);
}

#[test]
fn every_chunk_and_record_stays_within_bounds() {
    for len in [0usize, 1, 7999, 8000, 8001, 949_999, 950_000, 950_001, 1_900_000, 2_345_678] {
        let plan = plan_publish(len);
        let mut next = 0;
        for rec in &plan {
            assert_eq!(rec.start, next);
            assert!(rec.end - rec.start <= MAX_RECORD_BYTES);
            assert!(!rec.chunks.is_empty() && rec.chunks.len() <= MAX_CHUNKS_PER_RECORD);
            let mut at = rec.start;
            for &(a, b) in &rec.chunks {
                assert_eq!(a, at);
                assert!(b > a && b - a <= CHUNK_SIZE);
                at = b;
            }
            assert_eq!(at, rec.end);
            next = rec.end;
        }
        assert_eq!(next, len);
    }
    assert!(plan_publish(0).is_empty());
}

#[test]
fn spans_are_full_but_for_the_last() {
    assert_eq!(split_spans(10, 35, 10), vec![(10, 20), (20, 30), (30, 35)]);
    assert_eq!(split_spans(5, 5, 10), vec![]);
    assert_eq!(split_spans(0, 20, 10), vec![(0, 10), (10, 20)]);
}

#[test]
fn missing_last_chunk_names_its_record() {
    let content = sample(2_000_000);
    let mut dht = HashMap::new();
    let lookup = publish(&content, &mut dht);
    let last = lookup.package_records.last().unwrap();
    dht.remove(&(last.record_key.clone(), (last.chunk_count - 1) as u32));
    match download(&lookup, &dht) {
        Err(RoseliteError::Veilid(VeilidError::AppNotFound { app_id })) => assert_eq!(app_id, "VLD0:record2"),
        other => panic!("unexpected {:?}", other),
    }
}

#[test]
fn size_mismatch_fails_validation() {
    let content = sample(100);
    let mut dht = HashMap::new();
    let mut lookup = publish(&content, &mut dht);
    lookup.total_size_bytes = 101;
    assert!(matches!(download(&lookup, &dht), Err(RoseliteError::ValidationError(_))));
    let key = lookup.package_records[0].record_key.clone();
    dht.insert((key, 0), sample(99));
    lookup.total_size_bytes = 100;
    assert!(matches!(download(&lookup, &dht), Err(RoseliteError::ValidationError(_))));
}

#[test]
fn unknown_schema_is_refused() {
    let mut lookup = LookupRecord::new(app_info("x"), vec![], 0);
    lookup.schema_version = "2.0".to_string();
    assert!(matches!(Download::start(&lookup), Err(RoseliteError::ValidationError(_))));
}

#[test]
fn fetches_follow_record_then_subkey_order() {
    let records = vec![
        PackageRecord { record_key: "a".to_string(), chunk_count: 2, size_bytes: 16000 },
        PackageRecord { record_key: "b".to_string(), chunk_count: 1, size_bytes: 5 },
    ];
    let lookup = LookupRecord::new(app_info("x"), records, 3);
    let mut d = Download::start(&lookup).unwrap();
    let mut seen = Vec::new();
    while let Some(f) = d.next_fetch() {
        seen.push(f);
        d.accept(Some(vec![1])).unwrap();
    }
    assert_eq!(seen, vec![("a".to_string(), 0), ("a".to_string(), 1), ("b".to_string(), 0)]);
    assert_eq!(d.finish().unwrap(), vec![1, 1, 1]);
}

#[test]
fn lookup_record_over_one_megabyte_is_refused() {
    assert!(check_lookup_size(1_000_000).is_ok());
    assert!(matches!(check_lookup_size(1_000_001), Err(RoseliteError::ValidationError(_))));
}

#[test]
fn empty_content_is_not_published() {
    assert!(matches!(plan_content(&vec![]), Err(RoseliteError::Package(PackageError::InvalidFormat))));
    assert!(matches!(Publisher::start(&vec![]), Err(RoseliteError::Package(PackageError::InvalidFormat))));
    assert_eq!(plan_content(&vec![1]).unwrap().len(), 1);
}

#[test]
fn lookup_size_message_is_fixed() {
    match check_lookup_size(2_000_000) {
        Err(RoseliteError::ValidationError(m)) => assert_eq!(m, "Lookup record metadata exceeds 1MB limit"),
        other => panic!("unexpected {:?}", other),
    }
}

#[test]
fn publisher_writes_records_in_order() {
    let content = sample(20_000);
    let mut p = Publisher::start(&content).unwrap();
    let mut steps = Vec::new();
    loop {
        match p.next_step() {
            PublishStep::CreateRecord { columns } => {
                steps.push(format!("create {}", columns));
                p.record_created("k".to_string());
            }
            PublishStep::WriteChunk { record_key, subkey, span } => {
                steps.push(format!("write {} {} {}..{}", record_key, subkey, span.0, span.1));
                p.chunk_written();
            }
            PublishStep::Finished => break,
        }
    }
    assert_eq!(
        steps,
        vec!["create 3", "write k 0 0..8000", "write k 1 8000..16000", "write k 2 16000..20000"]
    );
}
