use phantomlink::routing::{JackRouter, OutputRouting};

#[test]
fn default_routing_is_both() {
    assert_eq!(OutputRouting::default(), OutputRouting::Both);
}

#[test]
fn connections_are_kept_in_order() {
    let mut r = JackRouter::new();
    assert!(r.get_connections().is_empty());
    r.add_connection("in_1".to_string(), "out_1".to_string());
    r.add_connection("in_2".to_string(), "out_2".to_string());
    assert_eq!(
        r.get_connections().to_vec(),
        vec![("in_1".to_string(), "out_1".to_string()), ("in_2".to_string(), "out_2".to_string())]
    );
    assert!(r.get_available_ports("audio").is_empty());
}
