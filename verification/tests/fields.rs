use maelstrom_rs::fields::{
    read_list, read_optional_unsigned, read_record, read_size, read_size_value, read_sizes,
    read_text, read_texts, same_text, write_record, write_size, write_sizes, write_text,
    write_texts, write_unsigned,
};
use maelstrom_rs::topology::Topology;
use serde_json::Value;

fn object(text: &str) -> serde_json::Map<String, Value> {
    match serde_json::from_str::<Value>(text).unwrap() {
        Value::Object(members) => members,
        other => panic!("not an object: {}", other),
    }
}

#[test]
fn reads_members_by_kind() {
    let o = object(
        r#"{"t":"text","n":7,"z":null,"neg":-1,"f":2.5,"big":18446744073709551615,"l":["a","b"],"r":{"k":1},"nums":[1,2,3]}"#,
    );
    assert_eq!(read_text(&o, "t"), Some("text".to_string()));
    assert_eq!(read_text(&o, "n"), None);
    assert_eq!(read_text(&o, "missing"), None);
    assert_eq!(read_size(&o, "n"), Some(7));
    assert_eq!(read_size(&o, "neg"), None);
    assert_eq!(read_size(&o, "f"), None);
    assert_eq!(read_size(&o, "t"), None);
    assert_eq!(read_size(&o, "missing"), None);
    assert_eq!(read_size(&o, "big"), Some(usize::MAX));
    assert_eq!(read_optional_unsigned(&o, "n"), Some(Some(7)));
    assert_eq!(read_optional_unsigned(&o, "big"), Some(Some(u64::MAX)));
    assert_eq!(read_optional_unsigned(&o, "z"), Some(None));
    assert_eq!(read_optional_unsigned(&o, "missing"), Some(None));
    assert_eq!(read_optional_unsigned(&o, "t"), None);
    assert_eq!(read_optional_unsigned(&o, "neg"), None);
    assert_eq!(read_optional_unsigned(&o, "f"), None);
    assert_eq!(read_record(&o, "r").map(|r| r.len()), Some(1));
    assert!(read_record(&o, "l").is_none());
    assert!(read_record(&o, "missing").is_none());
    assert_eq!(read_list(&o, "l").map(|l| l.len()), Some(2));
    assert!(read_list(&o, "r").is_none());
    assert!(read_list(&o, "missing").is_none());
    assert_eq!(
        read_texts(read_list(&o, "l").unwrap()),
        Some(vec!["a".to_string(), "b".to_string()])
    );
    assert_eq!(read_texts(read_list(&o, "nums").unwrap()), None);
    assert_eq!(read_sizes(read_list(&o, "nums").unwrap()), Some(vec![1, 2, 3]));
    assert_eq!(read_sizes(read_list(&o, "l").unwrap()), None);
    assert_eq!(read_sizes(&Vec::new()), Some(vec![]));
    assert_eq!(read_texts(&Vec::new()), Some(vec![]));
}

#[test]
fn reads_a_size_out_of_a_value() {
    assert_eq!(read_size_value(&Value::from(12u64)), Some(12));
    assert_eq!(read_size_value(&Value::from(0u64)), Some(0));
    assert_eq!(read_size_value(&Value::from(-3i64)), None);
    assert_eq!(read_size_value(&Value::from("3")), None);
    assert_eq!(read_size_value(&Value::Null), None);
    assert_eq!(read_size_value(&Value::Bool(true)), None);
}

#[test]
fn writes_members() {
    let mut o = serde_json::Map::new();
    write_text(&mut o, "t", "one");
    write_unsigned(&mut o, "u", u64::MAX);
    write_size(&mut o, "s", 3);
    write_texts(&mut o, "ts", &vec!["x".to_string(), "y".to_string()]);
    write_sizes(&mut o, "ss", &vec![4, 5]);
    let mut inner = serde_json::Map::new();
    write_text(&mut inner, "k", "v");
    write_record(&mut o, "r", inner);
    assert_eq!(
        o,
        object(
            r#"{"t":"one","u":18446744073709551615,"s":3,"ts":["x","y"],"ss":[4,5],"r":{"k":"v"}}"#
        )
    );
    write_text(&mut o, "t", "two");
    write_size(&mut o, "u", 1);
    assert_eq!(read_text(&o, "t"), Some("two".to_string()));
    assert_eq!(read_size(&o, "u"), Some(1));
    assert_eq!(o.len(), 6);
}

#[test]
fn compares_texts() {
    assert!(same_text(&"init".to_string(), "init"));
    assert!(!same_text(&"init".to_string(), "init_ok"));
    assert!(!same_text(&"Init".to_string(), "init"));
    assert!(same_text(&String::new(), ""));
}

#[test]
fn topology_reads_and_writes_members() {
    let members = object(r#"{"b":["a"],"a":["b","c"],"c":[]}"#);
    let topology = Topology::read(&members).unwrap();
    assert_eq!(
        topology.entries,
        vec![
            ("a".to_string(), vec!["b".to_string(), "c".to_string()]),
            ("b".to_string(), vec!["a".to_string()]),
            ("c".to_string(), vec![]),
        ]
    );
    assert_eq!(topology.write(), members);
    assert_eq!(Topology::read(&object("{}")), Some(Topology { entries: vec![] }));
    assert_eq!(Topology { entries: vec![] }.write(), object("{}"));
    assert_eq!(Topology::read(&object(r#"{"a":["b"],"b":"a"}"#)), None);
    assert_eq!(Topology::read(&object(r#"{"a":[1]}"#)), None);
    assert_eq!(Topology::read(&object(r#"{"a":null}"#)), None);
}
