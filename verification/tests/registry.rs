use prometheus_exporter::prometheus::Error;
use yzy_prom::registry::Registry;
use yzy_prom::setup::record_registration;

#[test]
fn insert_then_get_and_replace() {
    let mut r: Registry<u32> = Registry::new();
    assert!(r.get(&"a".to_string()).is_none());
    r.insert("a".to_string(), vec!["x".to_string()], 1);
    r.insert("b".to_string(), Vec::new(), 2);
    let e = r.get(&"a".to_string()).unwrap();
    assert_eq!(e.metric, 1);
    assert_eq!(e.labels, vec!["x".to_string()]);
    r.insert("a".to_string(), Vec::new(), 3);
    let e = r.get(&"a".to_string()).unwrap();
    assert_eq!(e.metric, 3);
    assert!(e.labels.is_empty());
    assert_eq!(r.get(&"b".to_string()).unwrap().metric, 2);
    assert!(r.get(&"c".to_string()).is_none());
}


#[test]
fn refused_registration_leaves_the_table_alone() {
    let mut r: Registry<u32> = Registry::new();
    assert!(record_registration(&mut r, "a".to_string(), Vec::new(), Ok(7)));
    assert_eq!(r.get(&"a".to_string()).unwrap().metric, 7);
    assert!(!record_registration(&mut r, "b".to_string(), Vec::new(), Err(Error::AlreadyReg)));
    assert!(r.get(&"b".to_string()).is_none());
    assert!(!record_registration(&mut r, "a".to_string(), Vec::new(), Err(Error::AlreadyReg)));
    assert_eq!(r.get(&"a".to_string()).unwrap().metric, 7);
}
