use segment_utils::command::command_from_line;
use segment_utils::export::{export_line, export_lines};
use segment_utils::response::{decode_boolean, decode_mapping_list, Entry, RawResponse};

fn entry(k: &str, v: &str) -> Entry {
    Entry { key: String::from(k), value: String::from(v) }
}

#[test]
fn export_line_format() {
    let m = vec![entry("name", "foo"), entry("evictor", "lru")];
    let line = export_line(&m).unwrap();
    assert_eq!(line, "create foo evictor lru");
}

#[test]
fn export_line_reads_the_keys_not_the_order() {
    let m = vec![entry("evictor", "fifo"), entry("name", "bar")];
    let line = export_line(&m).unwrap();
    assert_eq!(line, "create bar evictor fifo");
}

#[test]
fn export_line_missing_key_yields_none() {
    assert!(export_line(&vec![entry("name", "foo")]).is_none());
    assert!(export_line(&vec![entry("evictor", "lru")]).is_none());
    assert!(export_line(&vec![]).is_none());
}

#[test]
fn export_lines_keep_the_reply_order_and_skip_incomplete_entries() {
    let ms = vec![
        vec![entry("name", "a"), entry("evictor", "lru")],
        vec![entry("name", "broken")],
        vec![entry("name", "b"), entry("evictor", "fifo")],
    ];
    let lines = export_lines(&ms);
    assert_eq!(
        lines,
        vec![String::from("create a evictor lru"), String::from("create b evictor fifo")]
    );
}

/// A fixed transport collaborator with stable ordering: it stores the
/// keyspaces it was asked to create and replays them, in creation order,
/// as a list-of-mapping response.
struct MockStore {
    keyspaces: Vec<(String, String)>,
}

impl MockStore {
    fn execute(&mut self, tokens: &[String]) -> RawResponse {
        match tokens[0].as_str() {
            "create" => {
                assert_eq!(tokens.len(), 4);
                assert_eq!(tokens[2], "evictor");
                self.keyspaces.push((tokens[1].clone(), tokens[3].clone()));
                RawResponse::Boolean(true)
            }
            "keyspaces" => RawResponse::MappingList(
                self.keyspaces
                    .iter()
                    .map(|(n, e)| vec![entry("name", n), entry("evictor", e)])
                    .collect(),
            ),
            _ => RawResponse::Null,
        }
    }
}

#[test]
fn export_then_restore_then_export_is_stable() {
    let mut origin = MockStore {
        keyspaces: vec![
            (String::from("foo"), String::from("lru")),
            (String::from("bar"), String::from("least-recently-used")),
            (String::from("baz"), String::from("fifo")),
        ],
    };
    let raw = origin.execute(&[String::from("keyspaces")]);
    let mappings = decode_mapping_list(raw).unwrap();
    let lines = export_lines(&mappings);
    assert_eq!(
        lines,
        vec![
            String::from("create foo evictor lru"),
            String::from("create bar evictor least-recently-used"),
            String::from("create baz evictor fifo"),
        ]
    );

    let mut replica = MockStore { keyspaces: Vec::new() };
    for line in &lines {
        let cmd = command_from_line(line.clone()).unwrap();
        assert!(cmd.is_valid());
        let raw = replica.execute(cmd.tokens());
        assert!(decode_boolean(raw).unwrap());
    }

    let raw = replica.execute(&[String::from("keyspaces")]);
    let lines_again = export_lines(&decode_mapping_list(raw).unwrap());
    assert_eq!(lines, lines_again);
}
