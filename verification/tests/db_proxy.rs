use bakpiarun::db_proxy::{seq_plus, Command, ConnectionState, DbProxy};
use bakpiarun::mysql_protocol::{build_eof_packet, build_error_packet, build_ok_packet, build_packet, Value};

#[test]
fn lenenc_string_reading() {
    assert_eq!(DbProxy::read_lenenc_string_safe(b"\x03abcxyz"), ("abc".to_string(), 4));
    assert_eq!(DbProxy::read_lenenc_string_safe(b""), ("".to_string(), 0));
    assert_eq!(DbProxy::read_lenenc_string_safe(&[0xfc, 2, 0, b'h', b'i']), ("hi".to_string(), 5));
    assert_eq!(DbProxy::read_lenenc_string_safe(&[5, b'a']), ("".to_string(), 2));
    assert_eq!(DbProxy::read_lenenc_string_safe(&[0xfb, 1]), ("".to_string(), 0));
    assert_eq!(DbProxy::read_lenenc_string_safe(&[0xfc, 2]), ("".to_string(), 0));
}

#[test]
fn binary_parameters_decoded() {
    let p = [0, 1, 0, 0, 0, 0x00, 1, 0x03, 0, 0x01, 0, 42, 0, 0, 0, 0xff];
    assert_eq!(DbProxy::parse_binary_parameters_safe(&p, 2), vec!["42".to_string(), "-1".to_string()]);
    let q = [0, 1, 0, 0, 0, 0x02, 1, 0x03, 0, 0x01, 0, 42, 0, 0, 0, 0xff];
    assert_eq!(DbProxy::parse_binary_parameters_safe(&q, 2), vec!["42".to_string(), "NULL".to_string()]);
    let s = [0, 1, 0, 0, 0, 0x00, 1, 0xfd, 0, 3, b'a', b'\'', b'b'];
    assert_eq!(DbProxy::parse_binary_parameters_safe(&s, 1), vec!["'a''b'".to_string()]);
    let l = [0, 1, 0, 0, 0, 0x00, 1, 0x08, 0, 0xfe, 0xff, 0xff, 0xff, 0xff, 0xff, 0xff, 0xff];
    assert_eq!(DbProxy::parse_binary_parameters_safe(&l, 1), vec!["-2".to_string()]);
}

#[test]
fn binary_parameters_short_payloads() {
    assert_eq!(DbProxy::parse_binary_parameters_safe(&[0, 1, 0, 0, 0, 0], 0), Vec::<String>::new());
    assert_eq!(DbProxy::parse_binary_parameters_safe(&[0, 1, 0, 0, 0], 1), Vec::<String>::new());
    assert_eq!(
        DbProxy::parse_binary_parameters_safe(&[0, 1, 0, 0, 0, 0], 9),
        vec!["NULL".to_string(); 9]
    );
    assert_eq!(
        DbProxy::parse_binary_parameters_safe(&[0, 1, 0, 0, 0, 0], 2),
        vec!["NULL".to_string(); 2]
    );
}

#[test]
fn parameters_substituted_in_order() {
    let params = vec!["1".to_string(), "'a'".to_string()];
    assert_eq!(DbProxy::substitute_parameters("SELECT ? , ?", &params), "SELECT 1 , 'a'");
    assert_eq!(DbProxy::substitute_parameters("SELECT 1", &params), "SELECT 1");
    let tricky = vec!["?x".to_string(), "y".to_string()];
    assert_eq!(DbProxy::substitute_parameters("? ?", &tricky), "yx ?");
}

#[test]
fn sequence_ids_wrap() {
    assert_eq!(seq_plus(1, 1), 2);
    assert_eq!(seq_plus(255, 1), 0);
    assert_eq!(seq_plus(250, 10), 4);
}

#[test]
fn commands_by_first_byte() {
    assert_eq!(DbProxy::command(0x03), Command::Query);
    assert_eq!(DbProxy::command(0x09), Command::StmtPrepare);
    assert_eq!(DbProxy::command(0x17), Command::StmtExecute);
    assert_eq!(DbProxy::command(0x19), Command::StmtClose);
    assert_eq!(DbProxy::command(0x16), Command::StmtReset);
    assert_eq!(DbProxy::command(0x02), Command::InitDb);
    assert_eq!(DbProxy::command(0x01), Command::Quit);
    assert_eq!(DbProxy::command(0x0e), Command::Ping);
    assert_eq!(DbProxy::command(0x42), Command::Unknown(0x42));
}

#[test]
fn packet_headers_read() {
    assert_eq!(DbProxy::packet_header(&[3, 0, 0, 7]), (3, 7));
    assert_eq!(DbProxy::packet_header(&[0x70, 0x11, 0x01, 0]), (70000, 0));
}

#[test]
fn ok_reply_is_next_sequence() {
    assert_eq!(DbProxy::ok_reply(4), build_ok_packet(5, 0, 0));
}

#[test]
fn scramble_from_seed_bytes() {
    let s = DbProxy::scramble_from_seed(0x0102);
    assert_eq!(s.len(), 20);
    assert_eq!(s[0], 0x02);
    assert_eq!(s[1], 0x81);
    assert_eq!(s[8], 0x02);
}

#[test]
fn prepare_then_execute_and_close() {
    let mut st = ConnectionState::new();
    assert_eq!(st.next_stmt_id, 1);
    let mut payload = vec![0x16u8];
    payload.extend_from_slice(b"SELECT ?");
    let packets = st.prepare(0, &payload);
    assert_eq!(st.next_stmt_id, 2);
    assert_eq!(packets.len(), 4);
    assert_eq!(packets[0], build_packet(1, &[0, 1, 0, 0, 0, 0, 0, 1, 0, 0, 0, 0]));
    assert_eq!(packets[2], build_eof_packet(3));
    assert_eq!(packets[3], build_eof_packet(4));
    let exec = [0x17, 1, 0, 0, 0, 0, 1, 0, 0, 0, 0x00, 1, 0x03, 0, 9, 0, 0, 0];
    assert_eq!(st.plan_stmt_execute(0, &exec), Ok("SELECT 9".to_string()));
    assert_eq!(
        st.plan_stmt_execute(0, &[0x17, 2, 0, 0, 0]),
        Err(build_error_packet(1, 1105, "Statement not found"))
    );
    assert_eq!(
        st.plan_stmt_execute(0, &[0x17, 1]),
        Err(build_error_packet(1, 1105, "Invalid COM_STMT_EXECUTE packet"))
    );
    st.close(&[0x19, 1, 0, 0, 0]);
    assert!(st.statements.is_empty());
}

#[test]
fn prepare_without_parameters() {
    let mut st = ConnectionState::new();
    let mut payload = vec![0x16u8];
    payload.extend_from_slice(b"SELECT 1");
    let packets = st.prepare(5, &payload);
    assert_eq!(packets.len(), 2);
    assert_eq!(packets[1], build_eof_packet(7));
}

#[test]
fn binary_row_packet() {
    let row = vec![Value::Null, Value::Int(1), Value::Bytes(b"x".to_vec())];
    assert_eq!(
        DbProxy::build_row_packet_binary(2, &row),
        vec![12, 0, 0, 2, 0, 0, 1, 0, 0, 0, 0, 0, 0, 0, 1, b'x']
    );
}

#[test]
fn proxy_addresses_and_versions() {
    assert!(DbProxy::is_loopback_listen_address("127.0.0.1"));
    assert!(DbProxy::is_loopback_listen_address("localhost"));
    assert!(!DbProxy::is_loopback_listen_address("0.0.0.0"));
    assert_eq!(DbProxy::listen_address("127.0.0.1", 3307), "127.0.0.1:3307");
    assert_eq!(DbProxy::backend_url("u", "p", "db", 3306, "app"), "mysql://u:p@db:3306/app");
    assert_eq!(DbProxy::proxied_version("8.0.36"), "8.0.36-bakpiarun-proxy");
}

#[test]
fn lenenc_int_packet() {
    assert_eq!(DbProxy::build_lenenc_int_packet(1, 3), vec![1, 0, 0, 1, 3]);
}

#[test]
fn scramble_from_clock_readings() {
    assert_eq!(DbProxy::scramble_from_clock(None), None);
    assert_eq!(DbProxy::scramble_from_clock(Some(0x0102)), Some(DbProxy::scramble_from_seed(0x0102)));
    let big: u128 = (7u128 << 64) + 0x0304;
    assert_eq!(DbProxy::scramble_from_clock(Some(big)), Some(DbProxy::scramble_from_seed(0x0304)));
    assert_eq!(DbProxy::generate_scramble().map(|v| v.len()), Some(20));
}
